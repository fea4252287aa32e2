//! Portable records and their native fixed-layout byte forms (x86-64 Linux, glibc).
use vstd::prelude::*;

use crate::codec::{
    le_u16, le_u32, le_u64, lemma_read_u16_le, lemma_read_u32_le, lemma_read_u64_le, lemma_u16_chunk, lemma_u32_chunk, lemma_u64_chunk, push_u16,
    push_u32, push_u64, push_zeros, read_u16, read_u32, read_u64, u16_le, u32_le, u64_le, zeros,
};

verus! {

/// Mask of the file-type bits of a mode.
pub const S_IFMT: u32 = 0o170000;

pub const S_IFSOCK: u32 = 0o140000;

pub const S_IFLNK: u32 = 0o120000;

pub const S_IFREG: u32 = 0o100000;

pub const S_IFBLK: u32 = 0o060000;

pub const S_IFDIR: u32 = 0o040000;

pub const S_IFCHR: u32 = 0o020000;

pub const S_IFIFO: u32 = 0o010000;

/// "No such file or directory".
pub const ENOENT: i32 = 2;

/// "Function not implemented": the reply of an operation left to its default.
pub const ENOSYS: i32 = 38;

/// Byte length of the native `struct stat`.
pub const STAT_SIZE: usize = 144;

/// Byte length of the native `struct statvfs`.
pub const STATVFS_SIZE: usize = 112;

/// Byte length of the native `struct flock`.
pub const FLOCK_SIZE: usize = 32;

/// Opaque handle of one kernel request.
pub struct FuseReq;

/// Opaque handle of a mounted session.
pub struct FuseSession;

/// Opaque handle of a pending poll notification.
pub struct FusePollhandle;

/// Flags of one buffer of a buffer vector.
#[derive(Debug, Clone, Copy, PartialEq, Eq, Structural)]
pub enum FuseBufFlags {
    Default,
    FuseBufIsFd,
    FuseBufFdSeek,
    FuseBufFdRetry,
}

impl FuseBufFlags {
    pub open spec fn spec_bits(self) -> u32 {
        match self {
            FuseBufFlags::Default => 0,
            FuseBufFlags::FuseBufIsFd => 2,
            FuseBufFlags::FuseBufFdSeek => 4,
            FuseBufFlags::FuseBufFdRetry => 8,
        }
    }

    /// The native flag value.
    pub fn bits(&self) -> (r: u32)
        ensures
            r == self.spec_bits(),
    {
        match self {
            FuseBufFlags::Default => 0,
            FuseBufFlags::FuseBufIsFd => 2,
            FuseBufFlags::FuseBufFdSeek => 4,
            FuseBufFlags::FuseBufFdRetry => 8,
        }
    }
}

/// Per-open-file information shared with the kernel.
#[derive(Debug, Clone, Copy, PartialEq, Eq, Structural)]
pub struct FuseFileInfo {
    pub flags: i16,
    pub writepage: u16,
    pub direct_io: u16,
    pub keep_cache: u16,
    pub flush: u16,
    pub nonseekable: u16,
    pub flock_release: u16,
    pub cache_readdir: u16,
    pub padding: u16,
    pub padding2: u16,
    pub fh: u64,
    pub lock_owner: u64,
    pub poll_events: u32,
}

/// One inode of a batched forget.
#[derive(Debug, Clone, Copy, PartialEq, Eq, Structural)]
pub struct FuseForgetData {
    pub ino: u64,
    pub nlookup: u64,
}

/// Identity of the process behind a request.
#[derive(Debug, Clone, Copy, PartialEq, Eq, Structural)]
pub struct FuseCtx {
    pub uid: u32,
    pub gid: u32,
    pub pid: i32,
    pub umask: u32,
}

/// Portable POSIX file attributes.
#[derive(Debug, Clone, Copy, PartialEq, Eq, Structural)]
pub struct FuseAttr {
    pub dev: u64,
    pub ino: u64,
    pub size: u64,
    pub blocks: u64,
    pub atime: u64,
    pub atimensec: u32,
    pub mtime: u64,
    pub mtimensec: u32,
    pub ctime: u64,
    pub ctimensec: u32,
    pub mode: u32,
    pub nlink: u32,
    pub uid: u32,
    pub gid: u32,
    pub rdev: u32,
    pub blksize: u32,
}

/// The native `struct stat` bytes of `a`: every field widened to its native
/// width, padding and reserved words zero.
pub open spec fn stat_bytes(a: FuseAttr) -> Seq<u8> {
    u64_le(a.dev) + u64_le(a.ino) + u64_le(a.nlink as u64) + u32_le(a.mode) + u32_le(a.uid)
        + u32_le(a.gid) + zeros(4) + u64_le(a.rdev as u64) + u64_le(a.size) + u64_le(
        a.blksize as u64,
    ) + u64_le(a.blocks) + u64_le(a.atime) + u64_le(a.atimensec as u64) + u64_le(a.mtime)
        + u64_le(a.mtimensec as u64) + u64_le(a.ctime) + u64_le(a.ctimensec as u64) + zeros(24)
}

/// The record read from native `struct stat` bytes; wider native fields are truncated.
pub open spec fn attr_of_stat(b: Seq<u8>) -> FuseAttr {
    FuseAttr {
        dev: le_u64(b, 0),
        ino: le_u64(b, 8),
        nlink: le_u64(b, 16) as u32,
        mode: le_u32(b, 24),
        uid: le_u32(b, 28),
        gid: le_u32(b, 32),
        rdev: le_u64(b, 40) as u32,
        size: le_u64(b, 48),
        blksize: le_u64(b, 56) as u32,
        blocks: le_u64(b, 64),
        atime: le_u64(b, 72),
        atimensec: le_u64(b, 80) as u32,
        mtime: le_u64(b, 88),
        mtimensec: le_u64(b, 96) as u32,
        ctime: le_u64(b, 104),
        ctimensec: le_u64(b, 112) as u32,
    }
}

/// Native `struct stat` bytes that a portable record can carry: padding and
/// reserved words zero, and each field that the record holds narrower fits.
pub open spec fn stat_valid(b: Seq<u8>) -> bool {
    &&& b.len() == STAT_SIZE
    &&& b.subrange(36, 40) == zeros(4)
    &&& b.subrange(120, 144) == zeros(24)
    &&& le_u64(b, 16) <= u32::MAX
    &&& le_u64(b, 40) <= u32::MAX
    &&& le_u64(b, 56) <= u32::MAX
    &&& le_u64(b, 80) <= u32::MAX
    &&& le_u64(b, 96) <= u32::MAX
    &&& le_u64(b, 112) <= u32::MAX
}

impl FuseAttr {
    /// Reads a record from native `struct stat` bytes.
    pub fn new(attr: &[u8]) -> (r: FuseAttr)
        requires
            attr@.len() == STAT_SIZE,
        ensures
            r == attr_of_stat(attr@),
    {
        FuseAttr {
            dev: read_u64(attr, 0),
            ino: read_u64(attr, 8),
            nlink: read_u64(attr, 16) as u32,
            mode: read_u32(attr, 24),
            uid: read_u32(attr, 28),
            gid: read_u32(attr, 32),
            rdev: read_u64(attr, 40) as u32,
            size: read_u64(attr, 48),
            blksize: read_u64(attr, 56) as u32,
            blocks: read_u64(attr, 64),
            atime: read_u64(attr, 72),
            atimensec: read_u64(attr, 80) as u32,
            mtime: read_u64(attr, 88),
            mtimensec: read_u64(attr, 96) as u32,
            ctime: read_u64(attr, 104),
            ctimensec: read_u64(attr, 112) as u32,
        }
    }

    /// Writes the record as native `struct stat` bytes.
    pub fn convert(&self) -> (r: Vec<u8>)
        ensures
            r@ == stat_bytes(*self),
            r@.len() == STAT_SIZE,
    {
        let mut out: Vec<u8> = Vec::new();
        push_u64(&mut out, self.dev);
        push_u64(&mut out, self.ino);
        push_u64(&mut out, self.nlink as u64);
        push_u32(&mut out, self.mode);
        push_u32(&mut out, self.uid);
        push_u32(&mut out, self.gid);
        push_zeros(&mut out, 4);
        push_u64(&mut out, self.rdev as u64);
        push_u64(&mut out, self.size);
        push_u64(&mut out, self.blksize as u64);
        push_u64(&mut out, self.blocks);
        push_u64(&mut out, self.atime);
        push_u64(&mut out, self.atimensec as u64);
        push_u64(&mut out, self.mtime);
        push_u64(&mut out, self.mtimensec as u64);
        push_u64(&mut out, self.ctime);
        push_u64(&mut out, self.ctimensec as u64);
        push_zeros(&mut out, 24);
        assert(out@ =~= stat_bytes(*self));
        out
    }
}

/// Decoding native `struct stat` bytes that a record can carry and encoding
/// the record again gives back the same bytes.
#[verifier::rlimit(60)]
pub proof fn lemma_stat_round_trip(b: Seq<u8>)
    requires
        stat_valid(b),
    ensures
        stat_bytes(attr_of_stat(b)) == b,
{
    lemma_u64_chunk(b, 0);
    lemma_u64_chunk(b, 8);
    lemma_u64_chunk(b, 16);
    lemma_u32_chunk(b, 24);
    lemma_u32_chunk(b, 28);
    lemma_u32_chunk(b, 32);
    lemma_u64_chunk(b, 40);
    lemma_u64_chunk(b, 48);
    lemma_u64_chunk(b, 56);
    lemma_u64_chunk(b, 64);
    lemma_u64_chunk(b, 72);
    lemma_u64_chunk(b, 80);
    lemma_u64_chunk(b, 88);
    lemma_u64_chunk(b, 96);
    lemma_u64_chunk(b, 104);
    lemma_u64_chunk(b, 112);
    assert(stat_bytes(attr_of_stat(b)) =~= b);
}

/// Portable filesystem statistics.
#[derive(Debug, Clone, Copy, PartialEq, Eq, Structural)]
pub struct FuseStatvfs {
    pub bsize: u64,
    pub frsize: u64,
    pub blocks: u64,
    pub bfree: u64,
    pub bavail: u64,
    pub files: u64,
    pub ffree: u64,
    pub favail: u64,
    pub fsid: u64,
    pub flag: u64,
    pub namemax: u64,
}

/// The native `struct statvfs` bytes of `st`, spare words zero.
pub open spec fn statvfs_bytes(st: FuseStatvfs) -> Seq<u8> {
    u64_le(st.bsize) + u64_le(st.frsize) + u64_le(st.blocks) + u64_le(st.bfree) + u64_le(
        st.bavail,
    ) + u64_le(st.files) + u64_le(st.ffree) + u64_le(st.favail) + u64_le(st.fsid) + u64_le(
        st.flag,
    ) + u64_le(st.namemax) + zeros(24)
}

/// The record read from native `struct statvfs` bytes.
pub open spec fn statvfs_of(b: Seq<u8>) -> FuseStatvfs {
    FuseStatvfs {
        bsize: le_u64(b, 0),
        frsize: le_u64(b, 8),
        blocks: le_u64(b, 16),
        bfree: le_u64(b, 24),
        bavail: le_u64(b, 32),
        files: le_u64(b, 40),
        ffree: le_u64(b, 48),
        favail: le_u64(b, 56),
        fsid: le_u64(b, 64),
        flag: le_u64(b, 72),
        namemax: le_u64(b, 80),
    }
}

/// Native `struct statvfs` bytes whose spare words are zero.
pub open spec fn statvfs_valid(b: Seq<u8>) -> bool {
    &&& b.len() == STATVFS_SIZE
    &&& b.subrange(88, 112) == zeros(24)
}

impl FuseStatvfs {
    /// Reads a record from native `struct statvfs` bytes.
    pub fn new(st: &[u8]) -> (r: FuseStatvfs)
        requires
            st@.len() == STATVFS_SIZE,
        ensures
            r == statvfs_of(st@),
    {
        FuseStatvfs {
            bsize: read_u64(st, 0),
            frsize: read_u64(st, 8),
            blocks: read_u64(st, 16),
            bfree: read_u64(st, 24),
            bavail: read_u64(st, 32),
            files: read_u64(st, 40),
            ffree: read_u64(st, 48),
            favail: read_u64(st, 56),
            fsid: read_u64(st, 64),
            flag: read_u64(st, 72),
            namemax: read_u64(st, 80),
        }
    }

    /// Writes the record as native `struct statvfs` bytes.
    pub fn convert(&self) -> (r: Vec<u8>)
        ensures
            r@ == statvfs_bytes(*self),
            r@.len() == STATVFS_SIZE,
    {
        let mut out: Vec<u8> = Vec::new();
        push_u64(&mut out, self.bsize);
        push_u64(&mut out, self.frsize);
        push_u64(&mut out, self.blocks);
        push_u64(&mut out, self.bfree);
        push_u64(&mut out, self.bavail);
        push_u64(&mut out, self.files);
        push_u64(&mut out, self.ffree);
        push_u64(&mut out, self.favail);
        push_u64(&mut out, self.fsid);
        push_u64(&mut out, self.flag);
        push_u64(&mut out, self.namemax);
        push_zeros(&mut out, 24);
        assert(out@ =~= statvfs_bytes(*self));
        out
    }
}

/// Decoding native `struct statvfs` bytes with zero spare words and encoding
/// the record again gives back the same bytes.
pub proof fn lemma_statvfs_round_trip(b: Seq<u8>)
    requires
        statvfs_valid(b),
    ensures
        statvfs_bytes(statvfs_of(b)) == b,
{
    lemma_u64_chunk(b, 0);
    lemma_u64_chunk(b, 8);
    lemma_u64_chunk(b, 16);
    lemma_u64_chunk(b, 24);
    lemma_u64_chunk(b, 32);
    lemma_u64_chunk(b, 40);
    lemma_u64_chunk(b, 48);
    lemma_u64_chunk(b, 56);
    lemma_u64_chunk(b, 64);
    lemma_u64_chunk(b, 72);
    lemma_u64_chunk(b, 80);
    assert(statvfs_bytes(statvfs_of(b)) =~= b);
}

/// Portable byte-range lock.
#[derive(Debug, Clone, Copy, PartialEq, Eq, Structural)]
pub struct FuseLock {
    pub type_: i16,
    pub whence: i16,
    pub start: i64,
    pub len: i64,
    pub pid: i32,
}

/// The native `struct flock` bytes of `l`, padding zero.
pub open spec fn flock_bytes(l: FuseLock) -> Seq<u8> {
    u16_le(l.type_ as u16) + u16_le(l.whence as u16) + zeros(4) + u64_le(l.start as u64)
        + u64_le(l.len as u64) + u32_le(l.pid as u32) + zeros(4)
}

/// The record read from native `struct flock` bytes.
pub open spec fn lock_of(b: Seq<u8>) -> FuseLock {
    FuseLock {
        type_: le_u16(b, 0) as i16,
        whence: le_u16(b, 2) as i16,
        start: le_u64(b, 8) as i64,
        len: le_u64(b, 16) as i64,
        pid: le_u32(b, 24) as i32,
    }
}

/// Native `struct flock` bytes whose padding is zero.
pub open spec fn flock_valid(b: Seq<u8>) -> bool {
    &&& b.len() == FLOCK_SIZE
    &&& b.subrange(4, 8) == zeros(4)
    &&& b.subrange(28, 32) == zeros(4)
}

impl FuseLock {
    /// Reads a record from native `struct flock` bytes.
    pub fn new(lock: &[u8]) -> (r: FuseLock)
        requires
            lock@.len() == FLOCK_SIZE,
        ensures
            r == lock_of(lock@),
    {
        FuseLock {
            type_: read_u16(lock, 0) as i16,
            whence: read_u16(lock, 2) as i16,
            start: read_u64(lock, 8) as i64,
            len: read_u64(lock, 16) as i64,
            pid: read_u32(lock, 24) as i32,
        }
    }

    /// Writes the record as native `struct flock` bytes.
    pub fn convert(&self) -> (r: Vec<u8>)
        ensures
            r@ == flock_bytes(*self),
            r@.len() == FLOCK_SIZE,
    {
        let mut out: Vec<u8> = Vec::new();
        push_u16(&mut out, self.type_ as u16);
        push_u16(&mut out, self.whence as u16);
        push_zeros(&mut out, 4);
        push_u64(&mut out, self.start as u64);
        push_u64(&mut out, self.len as u64);
        push_u32(&mut out, self.pid as u32);
        push_zeros(&mut out, 4);
        assert(out@ =~= flock_bytes(*self));
        out
    }
}

proof fn signed_round_trip(a: u16, b: u64, c: u32)
    by (bit_vector)
    ensures
        (a as i16) as u16 == a,
        (b as i64) as u64 == b,
        (c as i32) as u32 == c,
{
}

/// Decoding native `struct flock` bytes with zero padding and encoding the
/// record again gives back the same bytes.
pub proof fn lemma_flock_round_trip(b: Seq<u8>)
    requires
        flock_valid(b),
    ensures
        flock_bytes(lock_of(b)) == b,
{
    lemma_u16_chunk(b, 0);
    lemma_u16_chunk(b, 2);
    lemma_u64_chunk(b, 8);
    lemma_u64_chunk(b, 16);
    lemma_u32_chunk(b, 24);
    signed_round_trip(le_u16(b, 0), le_u64(b, 8), le_u32(b, 24));
    signed_round_trip(le_u16(b, 2), le_u64(b, 16), le_u32(b, 24));
    assert(flock_bytes(lock_of(b)) =~= b);
}

/// Encoding a record as native `struct stat` bytes and decoding them gives
/// back the same record.
#[verifier::rlimit(60)]
pub proof fn lemma_stat_decode_encode(a: FuseAttr)
    ensures
        attr_of_stat(stat_bytes(a)) == a,
{
    let b = stat_bytes(a);
    assert(b.subrange(0, 8) =~= u64_le(a.dev));
    assert(b.subrange(8, 16) =~= u64_le(a.ino));
    assert(b.subrange(16, 24) =~= u64_le(a.nlink as u64));
    assert(b.subrange(24, 28) =~= u32_le(a.mode));
    assert(b.subrange(28, 32) =~= u32_le(a.uid));
    assert(b.subrange(32, 36) =~= u32_le(a.gid));
    assert(b.subrange(40, 48) =~= u64_le(a.rdev as u64));
    assert(b.subrange(48, 56) =~= u64_le(a.size));
    assert(b.subrange(56, 64) =~= u64_le(a.blksize as u64));
    assert(b.subrange(64, 72) =~= u64_le(a.blocks));
    assert(b.subrange(72, 80) =~= u64_le(a.atime));
    assert(b.subrange(80, 88) =~= u64_le(a.atimensec as u64));
    assert(b.subrange(88, 96) =~= u64_le(a.mtime));
    assert(b.subrange(96, 104) =~= u64_le(a.mtimensec as u64));
    assert(b.subrange(104, 112) =~= u64_le(a.ctime));
    assert(b.subrange(112, 120) =~= u64_le(a.ctimensec as u64));
    lemma_read_u64_le(b, 0, a.dev);
    lemma_read_u64_le(b, 8, a.ino);
    lemma_read_u64_le(b, 16, a.nlink as u64);
    lemma_read_u32_le(b, 24, a.mode);
    lemma_read_u32_le(b, 28, a.uid);
    lemma_read_u32_le(b, 32, a.gid);
    lemma_read_u64_le(b, 40, a.rdev as u64);
    lemma_read_u64_le(b, 48, a.size);
    lemma_read_u64_le(b, 56, a.blksize as u64);
    lemma_read_u64_le(b, 64, a.blocks);
    lemma_read_u64_le(b, 72, a.atime);
    lemma_read_u64_le(b, 80, a.atimensec as u64);
    lemma_read_u64_le(b, 88, a.mtime);
    lemma_read_u64_le(b, 96, a.mtimensec as u64);
    lemma_read_u64_le(b, 104, a.ctime);
    lemma_read_u64_le(b, 112, a.ctimensec as u64);
}

/// Encoding filesystem statistics as native `struct statvfs` bytes and
/// decoding them gives back the same record.
pub proof fn lemma_statvfs_decode_encode(st: FuseStatvfs)
    ensures
        statvfs_of(statvfs_bytes(st)) == st,
{
    let b = statvfs_bytes(st);
    assert(b.subrange(0, 8) =~= u64_le(st.bsize));
    assert(b.subrange(8, 16) =~= u64_le(st.frsize));
    assert(b.subrange(16, 24) =~= u64_le(st.blocks));
    assert(b.subrange(24, 32) =~= u64_le(st.bfree));
    assert(b.subrange(32, 40) =~= u64_le(st.bavail));
    assert(b.subrange(40, 48) =~= u64_le(st.files));
    assert(b.subrange(48, 56) =~= u64_le(st.ffree));
    assert(b.subrange(56, 64) =~= u64_le(st.favail));
    assert(b.subrange(64, 72) =~= u64_le(st.fsid));
    assert(b.subrange(72, 80) =~= u64_le(st.flag));
    assert(b.subrange(80, 88) =~= u64_le(st.namemax));
    lemma_read_u64_le(b, 0, st.bsize);
    lemma_read_u64_le(b, 8, st.frsize);
    lemma_read_u64_le(b, 16, st.blocks);
    lemma_read_u64_le(b, 24, st.bfree);
    lemma_read_u64_le(b, 32, st.bavail);
    lemma_read_u64_le(b, 40, st.files);
    lemma_read_u64_le(b, 48, st.ffree);
    lemma_read_u64_le(b, 56, st.favail);
    lemma_read_u64_le(b, 64, st.fsid);
    lemma_read_u64_le(b, 72, st.flag);
    lemma_read_u64_le(b, 80, st.namemax);
}

proof fn signed_back(a: i16, b: i64, c: i32)
    by (bit_vector)
    ensures
        (a as u16) as i16 == a,
        (b as u64) as i64 == b,
        (c as u32) as i32 == c,
{
}

/// Encoding a lock as native `struct flock` bytes and decoding them gives back
/// the same lock.
pub proof fn lemma_flock_decode_encode(l: FuseLock)
    ensures
        lock_of(flock_bytes(l)) == l,
{
    let b = flock_bytes(l);
    assert(b.subrange(0, 2) =~= u16_le(l.type_ as u16));
    assert(b.subrange(2, 4) =~= u16_le(l.whence as u16));
    assert(b.subrange(8, 16) =~= u64_le(l.start as u64));
    assert(b.subrange(16, 24) =~= u64_le(l.len as u64));
    assert(b.subrange(24, 28) =~= u32_le(l.pid as u32));
    lemma_read_u16_le(b, 0, l.type_ as u16);
    lemma_read_u16_le(b, 2, l.whence as u16);
    lemma_read_u64_le(b, 8, l.start as u64);
    lemma_read_u64_le(b, 16, l.len as u64);
    lemma_read_u32_le(b, 24, l.pid as u32);
    signed_back(l.type_, l.start, l.pid);
    signed_back(l.whence, l.len, l.pid);
}

/// The kind of a file, as the type bits of its mode give it.
#[derive(Debug, Clone, Copy, PartialEq, Eq, Structural)]
pub enum FileType {
    Socket,
    SymbolicLink,
    RegularFile,
    BlockDevice,
    Directory,
    CharacterDevice,
    FIFO,
}

/// The kind that the type bits of `mode` name; bits that name none read as a
/// regular file.
pub open spec fn file_type_of(mode: u32) -> FileType {
    let t = mode & S_IFMT;
    if t == S_IFSOCK {
        FileType::Socket
    } else if t == S_IFLNK {
        FileType::SymbolicLink
    } else if t == S_IFBLK {
        FileType::BlockDevice
    } else if t == S_IFDIR {
        FileType::Directory
    } else if t == S_IFCHR {
        FileType::CharacterDevice
    } else if t == S_IFIFO {
        FileType::FIFO
    } else {
        FileType::RegularFile
    }
}

impl FileType {
    /// The type bits of a mode for this kind.
    pub open spec fn spec_mode(self) -> u32 {
        match self {
            FileType::Socket => S_IFSOCK,
            FileType::SymbolicLink => S_IFLNK,
            FileType::RegularFile => S_IFREG,
            FileType::BlockDevice => S_IFBLK,
            FileType::Directory => S_IFDIR,
            FileType::CharacterDevice => S_IFCHR,
            FileType::FIFO => S_IFIFO,
        }
    }

    pub fn to_mode(&self) -> (r: u32)
        ensures
            r == self.spec_mode(),
    {
        match self {
            FileType::Socket => S_IFSOCK,
            FileType::SymbolicLink => S_IFLNK,
            FileType::RegularFile => S_IFREG,
            FileType::BlockDevice => S_IFBLK,
            FileType::Directory => S_IFDIR,
            FileType::CharacterDevice => S_IFCHR,
            FileType::FIFO => S_IFIFO,
        }
    }

    pub fn new(value: u32) -> (r: FileType)
        ensures
            r == file_type_of(value),
    {
        let t = value & S_IFMT;
        if t == S_IFSOCK {
            FileType::Socket
        } else if t == S_IFLNK {
            FileType::SymbolicLink
        } else if t == S_IFBLK {
            FileType::BlockDevice
        } else if t == S_IFDIR {
            FileType::Directory
        } else if t == S_IFCHR {
            FileType::CharacterDevice
        } else if t == S_IFIFO {
            FileType::FIFO
        } else {
            FileType::RegularFile
        }
    }
}

/// A mode built from a kind's type bits and any permission bits reads back as
/// that kind.
pub proof fn lemma_file_type_round_trip(t: FileType, perm: u32)
    requires
        perm & S_IFMT == 0,
    ensures
        file_type_of(t.spec_mode() | perm) == t,
{
    let m = t.spec_mode();
    assert((m | perm) & 0o170000u32 == m) by (bit_vector)
        requires
            perm & 0o170000u32 == 0,
            m == 0o140000u32 || m == 0o120000u32 || m == 0o100000u32 || m == 0o060000u32 || m
                == 0o040000u32 || m == 0o020000u32 || m == 0o010000u32,
    ;
}

/// One entry of a directory listing.
pub struct FuseDirectory {
    pub name: Vec<u8>,
    pub file_type: FileType,
    pub ino: u64,
}

/// What a directory entry holds.
pub struct DirEntryView {
    pub name: Seq<u8>,
    pub file_type: FileType,
    pub ino: u64,
}

impl View for FuseDirectory {
    type V = DirEntryView;

    open spec fn view(&self) -> DirEntryView {
        DirEntryView { name: self.name@, file_type: self.file_type, ino: self.ino }
    }
}

/// The attributes that a listing reports for an entry: its inode and the type
/// bits of its kind, every other field zero.
pub open spec fn entry_attr(ino: u64, t: FileType) -> FuseAttr {
    FuseAttr {
        dev: 0,
        ino: ino,
        size: 0,
        blocks: 0,
        atime: 0,
        atimensec: 0,
        mtime: 0,
        mtimensec: 0,
        ctime: 0,
        ctimensec: 0,
        mode: t.spec_mode(),
        nlink: 0,
        uid: 0,
        gid: 0,
        rdev: 0,
        blksize: 0,
    }
}

impl FuseDirectory {
    pub fn attr(&self) -> (r: FuseAttr)
        ensures
            r == entry_attr(self.ino, self.file_type),
    {
        FuseAttr {
            dev: 0,
            ino: self.ino,
            size: 0,
            blocks: 0,
            atime: 0,
            atimensec: 0,
            mtime: 0,
            mtimensec: 0,
            ctime: 0,
            ctimensec: 0,
            mode: self.file_type.to_mode(),
            nlink: 0,
            uid: 0,
            gid: 0,
            rdev: 0,
            blksize: 0,
        }
    }
}

} // verus!
