//! The capability mask and the operation table built from it.
use vstd::prelude::*;

verus! {

/// Number of operations that the table has a slot for.
pub const OP_COUNT: u64 = 42;

/// The mask with every operation's bit set.
pub const ALL_OPS: u64 = 0x3ff_ffff_ffff;

/// One filesystem operation; its bit in a capability mask is `1 << index`.
#[derive(Debug, Clone, Copy, PartialEq, Eq, Structural)]
pub enum FuseOpFlag {
    Init,
    Destroy,
    Lookup,
    Forget,
    Getattr,
    Setattr,
    Readlink,
    Mknod,
    Mkdir,
    Unlink,
    Rmdir,
    Symlink,
    Rename,
    Link,
    Open,
    Read,
    Write,
    Flush,
    Release,
    Fsync,
    Opendir,
    Readdir,
    Releasedir,
    Fsyncdir,
    Statfs,
    Setxattr,
    Getxattr,
    Listxattr,
    Removexattr,
    Access,
    Create,
    Getlk,
    Setlk,
    Bmap,
    Poll,
    WriteBuf,
    ForgetMulti,
    Flock,
    Fallocate,
    Readdirplus,
    CopyFileRange,
    Lseek,
}

/// The bit of the operation at `index` in a capability mask.
pub open spec fn op_bit(index: u64) -> u64 {
    1u64 << index
}

/// Whether `mask` enables the operation at `index`.
pub open spec fn mask_enables(mask: u64, index: u64) -> bool {
    mask & op_bit(index) != 0
}

impl FuseOpFlag {
    /// The slot of this operation in the table.
    pub open spec fn spec_index(self) -> u64 {
        match self {
            FuseOpFlag::Init => 0,
            FuseOpFlag::Destroy => 1,
            FuseOpFlag::Lookup => 2,
            FuseOpFlag::Forget => 3,
            FuseOpFlag::Getattr => 4,
            FuseOpFlag::Setattr => 5,
            FuseOpFlag::Readlink => 6,
            FuseOpFlag::Mknod => 7,
            FuseOpFlag::Mkdir => 8,
            FuseOpFlag::Unlink => 9,
            FuseOpFlag::Rmdir => 10,
            FuseOpFlag::Symlink => 11,
            FuseOpFlag::Rename => 12,
            FuseOpFlag::Link => 13,
            FuseOpFlag::Open => 14,
            FuseOpFlag::Read => 15,
            FuseOpFlag::Write => 16,
            FuseOpFlag::Flush => 17,
            FuseOpFlag::Release => 18,
            FuseOpFlag::Fsync => 19,
            FuseOpFlag::Opendir => 20,
            FuseOpFlag::Readdir => 21,
            FuseOpFlag::Releasedir => 22,
            FuseOpFlag::Fsyncdir => 23,
            FuseOpFlag::Statfs => 24,
            FuseOpFlag::Setxattr => 25,
            FuseOpFlag::Getxattr => 26,
            FuseOpFlag::Listxattr => 27,
            FuseOpFlag::Removexattr => 28,
            FuseOpFlag::Access => 29,
            FuseOpFlag::Create => 30,
            FuseOpFlag::Getlk => 31,
            FuseOpFlag::Setlk => 32,
            FuseOpFlag::Bmap => 33,
            FuseOpFlag::Poll => 34,
            FuseOpFlag::WriteBuf => 35,
            FuseOpFlag::ForgetMulti => 36,
            FuseOpFlag::Flock => 37,
            FuseOpFlag::Fallocate => 38,
            FuseOpFlag::Readdirplus => 39,
            FuseOpFlag::CopyFileRange => 40,
            FuseOpFlag::Lseek => 41,
        }
    }

    pub fn index(&self) -> (r: u64)
        ensures
            r == self.spec_index(),
            r < OP_COUNT,
    {
        match self {
            FuseOpFlag::Init => 0,
            FuseOpFlag::Destroy => 1,
            FuseOpFlag::Lookup => 2,
            FuseOpFlag::Forget => 3,
            FuseOpFlag::Getattr => 4,
            FuseOpFlag::Setattr => 5,
            FuseOpFlag::Readlink => 6,
            FuseOpFlag::Mknod => 7,
            FuseOpFlag::Mkdir => 8,
            FuseOpFlag::Unlink => 9,
            FuseOpFlag::Rmdir => 10,
            FuseOpFlag::Symlink => 11,
            FuseOpFlag::Rename => 12,
            FuseOpFlag::Link => 13,
            FuseOpFlag::Open => 14,
            FuseOpFlag::Read => 15,
            FuseOpFlag::Write => 16,
            FuseOpFlag::Flush => 17,
            FuseOpFlag::Release => 18,
            FuseOpFlag::Fsync => 19,
            FuseOpFlag::Opendir => 20,
            FuseOpFlag::Readdir => 21,
            FuseOpFlag::Releasedir => 22,
            FuseOpFlag::Fsyncdir => 23,
            FuseOpFlag::Statfs => 24,
            FuseOpFlag::Setxattr => 25,
            FuseOpFlag::Getxattr => 26,
            FuseOpFlag::Listxattr => 27,
            FuseOpFlag::Removexattr => 28,
            FuseOpFlag::Access => 29,
            FuseOpFlag::Create => 30,
            FuseOpFlag::Getlk => 31,
            FuseOpFlag::Setlk => 32,
            FuseOpFlag::Bmap => 33,
            FuseOpFlag::Poll => 34,
            FuseOpFlag::WriteBuf => 35,
            FuseOpFlag::ForgetMulti => 36,
            FuseOpFlag::Flock => 37,
            FuseOpFlag::Fallocate => 38,
            FuseOpFlag::Readdirplus => 39,
            FuseOpFlag::CopyFileRange => 40,
            FuseOpFlag::Lseek => 41,
        }
    }

    /// This operation's bit in a capability mask.
    pub fn bits(&self) -> (r: u64)
        ensures
            r == op_bit(self.spec_index()),
    {
        1u64 << self.index()
    }
}

/// The operation table that a capability mask selects: slot `i` is filled
/// exactly when the mask has bit `i` set. It is built once and never changed.
pub struct OpTable {
    slots: Vec<bool>,
}

/// The slots that `mask` selects.
pub open spec fn table_of(mask: u64) -> Seq<bool> {
    Seq::new(OP_COUNT as nat, |i: int| mask_enables(mask, i as u64))
}

impl View for OpTable {
    type V = Seq<bool>;

    closed spec fn view(&self) -> Seq<bool> {
        self.slots@
    }
}

impl OpTable {
    pub open spec fn well_formed(&self) -> bool {
        self@.len() == OP_COUNT
    }

    /// Builds the table that `mask` selects.
    pub fn new(mask: u64) -> (r: OpTable)
        ensures
            r@ == table_of(mask),
            r.well_formed(),
    {
        let mut slots: Vec<bool> = Vec::new();
        let mut i: u64 = 0;
        while i < OP_COUNT
            invariant
                i <= OP_COUNT,
                slots@.len() == i,
                forall|j: int| 0 <= j < i ==> slots@[j] == mask_enables(mask, j as u64),
            decreases OP_COUNT - i,
        {
            slots.push(mask & (1u64 << i) != 0);
            i = i + 1;
        }
        let r = OpTable { slots };
        assert(r@ =~= table_of(mask));
        r
    }

    /// Whether the slot of `op` is filled.
    pub fn is_enabled(&self, op: FuseOpFlag) -> (r: bool)
        requires
            self.well_formed(),
        ensures
            r == self@[op.spec_index() as int],
    {
        let i = op.index();
        self.slots[i as usize]
    }
}

/// A slot of the table built from `mask` is filled exactly when the mask
/// enables its operation; the zero mask fills no slot and the full mask fills
/// every one.
pub proof fn lemma_table_slots(mask: u64, op: FuseOpFlag)
    ensures
        table_of(mask)[op.spec_index() as int] <==> mask & op_bit(op.spec_index()) != 0,
        !table_of(0)[op.spec_index() as int],
        table_of(ALL_OPS)[op.spec_index() as int],
{
    let i = op.spec_index();
    assert(0u64 & (1u64 << i) == 0) by (bit_vector);
    assert(0x3ff_ffff_ffffu64 & (1u64 << i) != 0) by (bit_vector)
        requires
            i < 42,
    ;
}

} // verus!
