use rusfuse::{
    FileType, FuseAttr, FuseBufFlags, FuseDirectory, FuseLock, FuseStatvfs, ENOENT, ENOSYS,
    FLOCK_SIZE, STATVFS_SIZE, STAT_SIZE, S_IFBLK, S_IFCHR, S_IFDIR, S_IFIFO, S_IFLNK, S_IFMT,
    S_IFREG, S_IFSOCK,
};

fn sample_attr() -> FuseAttr {
    FuseAttr {
        dev: 0x0102_0304_0506_0708,
        ino: 2,
        size: 13,
        blocks: 8,
        atime: 1_600_000_000,
        atimensec: 5,
        mtime: 1_600_000_001,
        mtimensec: 6,
        ctime: 1_600_000_002,
        ctimensec: 7,
        mode: 0o100644,
        nlink: 1,
        uid: 1000,
        gid: 1001,
        rdev: 0,
        blksize: 4096,
    }
}

fn u64_at(b: &[u8], off: usize) -> u64 {
    let mut a = [0u8; 8];
    a.copy_from_slice(&b[off..off + 8]);
    u64::from_le_bytes(a)
}

#[test]
fn native_constants_match_libc() {
    assert_eq!(S_IFMT, libc::S_IFMT);
    assert_eq!(S_IFSOCK, libc::S_IFSOCK);
    assert_eq!(S_IFLNK, libc::S_IFLNK);
    assert_eq!(S_IFREG, libc::S_IFREG);
    assert_eq!(S_IFBLK, libc::S_IFBLK);
    assert_eq!(S_IFDIR, libc::S_IFDIR);
    assert_eq!(S_IFCHR, libc::S_IFCHR);
    assert_eq!(S_IFIFO, libc::S_IFIFO);
    assert_eq!(ENOENT, libc::ENOENT);
    assert_eq!(ENOSYS, libc::ENOSYS);
    assert_eq!(STAT_SIZE, std::mem::size_of::<libc::stat>());
    assert_eq!(STATVFS_SIZE, std::mem::size_of::<libc::statvfs>());
    assert_eq!(FLOCK_SIZE, std::mem::size_of::<libc::flock>());
}

#[test]
fn stat_layout_places_each_field() {
    let b = sample_attr().convert();
    assert_eq!(b.len(), 144);
    assert_eq!(b[0], 0x08);
    assert_eq!(b[7], 0x01);
    assert_eq!(u64_at(&b, 8), 2);
    assert_eq!(u64_at(&b, 16), 1);
    assert_eq!(&b[24..28], &0o100644u32.to_le_bytes());
    assert_eq!(&b[28..32], &1000u32.to_le_bytes());
    assert_eq!(&b[32..36], &1001u32.to_le_bytes());
    assert_eq!(&b[36..40], &[0, 0, 0, 0]);
    assert_eq!(u64_at(&b, 48), 13);
    assert_eq!(u64_at(&b, 56), 4096);
    assert_eq!(u64_at(&b, 64), 8);
    assert_eq!(u64_at(&b, 72), 1_600_000_000);
    assert_eq!(u64_at(&b, 80), 5);
    assert_eq!(u64_at(&b, 112), 7);
    assert!(b[120..].iter().all(|x| *x == 0));
}

#[test]
fn stat_record_round_trip() {
    let a = sample_attr();
    assert_eq!(FuseAttr::new(&a.convert()), a);
}

#[test]
fn stat_bytes_round_trip() {
    let mut b = vec![0u8; 144];
    for i in 0..36 {
        b[i] = (i as u8) + 1;
    }
    for i in 40..120 {
        b[i] = (i as u8) ^ 0x5a;
    }
    // fields that the record holds in 32 bits fit there
    for off in [16usize, 40, 56, 80, 96, 112] {
        for k in 4..8 {
            b[off + k] = 0;
        }
    }
    let a = FuseAttr::new(&b);
    assert_eq!(a.convert(), b);
}

#[test]
fn stat_decode_truncates_wide_fields() {
    let mut b = vec![0u8; 144];
    b[16..24].copy_from_slice(&0x1_0000_0002u64.to_le_bytes());
    let a = FuseAttr::new(&b);
    assert_eq!(a.nlink, 2);
}

#[test]
fn statvfs_round_trip_and_layout() {
    let st = FuseStatvfs {
        bsize: 4096,
        frsize: 512,
        blocks: 100,
        bfree: 50,
        bavail: 40,
        files: 10,
        ffree: 9,
        favail: 8,
        fsid: 0xdead_beef,
        flag: 1,
        namemax: 255,
    };
    let b = st.convert();
    assert_eq!(b.len(), 112);
    assert_eq!(u64_at(&b, 0), 4096);
    assert_eq!(u64_at(&b, 64), 0xdead_beef);
    assert_eq!(u64_at(&b, 80), 255);
    assert!(b[88..].iter().all(|x| *x == 0));
    assert_eq!(FuseStatvfs::new(&b), st);
    let mut raw = vec![0u8; 112];
    for i in 0..88 {
        raw[i] = (i * 7) as u8;
    }
    assert_eq!(FuseStatvfs::new(&raw).convert(), raw);
}

#[test]
fn flock_round_trip_and_layout() {
    let l = FuseLock { type_: -1, whence: 1, start: -5, len: 100, pid: 4242 };
    let b = l.convert();
    assert_eq!(b.len(), 32);
    assert_eq!(&b[0..2], &[0xff, 0xff]);
    assert_eq!(&b[2..4], &[1, 0]);
    assert_eq!(&b[4..8], &[0, 0, 0, 0]);
    assert_eq!(u64_at(&b, 8), (-5i64) as u64);
    assert_eq!(u64_at(&b, 16), 100);
    assert_eq!(&b[24..28], &4242i32.to_le_bytes());
    assert_eq!(FuseLock::new(&b), l);
    let mut raw = vec![0u8; 32];
    for i in 0..4 {
        raw[i] = 0x80 | i as u8;
    }
    for i in 8..28 {
        raw[i] = 0xf0 ^ i as u8;
    }
    assert_eq!(FuseLock::new(&raw).convert(), raw);
}

#[test]
fn file_type_mode_table() {
    let all = [
        (FileType::Socket, 0o140000u32),
        (FileType::SymbolicLink, 0o120000),
        (FileType::RegularFile, 0o100000),
        (FileType::BlockDevice, 0o060000),
        (FileType::Directory, 0o040000),
        (FileType::CharacterDevice, 0o020000),
        (FileType::FIFO, 0o010000),
    ];
    for (t, m) in all {
        assert_eq!(t.to_mode(), m);
        assert_eq!(FileType::new(m), t);
        assert_eq!(FileType::new(m | 0o755), t);
    }
    assert_eq!(FileType::new(0o040755), FileType::Directory);
    assert_eq!(FileType::new(0o100644), FileType::RegularFile);
    assert_eq!(FileType::new(0), FileType::RegularFile);
}

#[test]
fn directory_entry_attr() {
    let d = FuseDirectory { name: b"hello".to_vec(), file_type: FileType::Directory, ino: 9 };
    let a = d.attr();
    assert_eq!(a.ino, 9);
    assert_eq!(a.mode, 0o040000);
    assert_eq!(a.size, 0);
    assert_eq!(a.nlink, 0);
}

#[test]
fn buf_flag_bits() {
    assert_eq!(FuseBufFlags::Default.bits(), 0);
    assert_eq!(FuseBufFlags::FuseBufIsFd.bits(), 2);
    assert_eq!(FuseBufFlags::FuseBufFdSeek.bits(), 4);
    assert_eq!(FuseBufFlags::FuseBufFdRetry.bits(), 8);
}
