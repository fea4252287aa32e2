use rusfuse::{FuseOpFlag, OpTable, ALL_OPS, OP_COUNT};

const EVERY_OP: [FuseOpFlag; 42] = [
    FuseOpFlag::Init,
    FuseOpFlag::Destroy,
    FuseOpFlag::Lookup,
    FuseOpFlag::Forget,
    FuseOpFlag::Getattr,
    FuseOpFlag::Setattr,
    FuseOpFlag::Readlink,
    FuseOpFlag::Mknod,
    FuseOpFlag::Mkdir,
    FuseOpFlag::Unlink,
    FuseOpFlag::Rmdir,
    FuseOpFlag::Symlink,
    FuseOpFlag::Rename,
    FuseOpFlag::Link,
    FuseOpFlag::Open,
    FuseOpFlag::Read,
    FuseOpFlag::Write,
    FuseOpFlag::Flush,
    FuseOpFlag::Release,
    FuseOpFlag::Fsync,
    FuseOpFlag::Opendir,
    FuseOpFlag::Readdir,
    FuseOpFlag::Releasedir,
    FuseOpFlag::Fsyncdir,
    FuseOpFlag::Statfs,
    FuseOpFlag::Setxattr,
    FuseOpFlag::Getxattr,
    FuseOpFlag::Listxattr,
    FuseOpFlag::Removexattr,
    FuseOpFlag::Access,
    FuseOpFlag::Create,
    FuseOpFlag::Getlk,
    FuseOpFlag::Setlk,
    FuseOpFlag::Bmap,
    FuseOpFlag::Poll,
    FuseOpFlag::WriteBuf,
    FuseOpFlag::ForgetMulti,
    FuseOpFlag::Flock,
    FuseOpFlag::Fallocate,
    FuseOpFlag::Readdirplus,
    FuseOpFlag::CopyFileRange,
    FuseOpFlag::Lseek,
];

#[test]
fn flag_bits_follow_index() {
    for (i, op) in EVERY_OP.iter().enumerate() {
        assert_eq!(op.index(), i as u64);
        assert_eq!(op.bits(), 1u64 << i);
    }
    assert_eq!(FuseOpFlag::Init.bits(), 1);
    assert_eq!(FuseOpFlag::Getlk.bits(), 1 << 31);
    assert_eq!(FuseOpFlag::Lseek.bits(), 1 << 41);
    assert_eq!(OP_COUNT, 42);
    assert_eq!(ALL_OPS, (1u64 << 42) - 1);
}

#[test]
fn zero_mask_enables_nothing() {
    let t = OpTable::new(0);
    for op in EVERY_OP {
        assert!(!t.is_enabled(op));
    }
}

#[test]
fn full_mask_enables_everything() {
    let t = OpTable::new(ALL_OPS);
    for op in EVERY_OP {
        assert!(t.is_enabled(op));
    }
    let t = OpTable::new(u64::MAX);
    for op in EVERY_OP {
        assert!(t.is_enabled(op));
    }
}

#[test]
fn unset_bit_leaves_slot_empty() {
    let mask = FuseOpFlag::Lookup.bits()
        | FuseOpFlag::Readdir.bits()
        | FuseOpFlag::Read.bits()
        | FuseOpFlag::Getattr.bits();
    let t = OpTable::new(mask);
    for op in EVERY_OP {
        let expected = matches!(
            op,
            FuseOpFlag::Lookup | FuseOpFlag::Readdir | FuseOpFlag::Read | FuseOpFlag::Getattr
        );
        assert_eq!(t.is_enabled(op), expected);
    }
    assert!(!t.is_enabled(FuseOpFlag::Write));
    assert!(!t.is_enabled(FuseOpFlag::Readdirplus));
}

#[test]
fn bits_above_the_table_are_ignored() {
    let t = OpTable::new(1u64 << 42 | 1u64 << 63);
    for op in EVERY_OP {
        assert!(!t.is_enabled(op));
    }
}
