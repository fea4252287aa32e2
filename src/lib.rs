//! Request dispatch and reply encoding between a low-level FUSE session and a
//! filesystem implementation: portable records and their native layouts, the
//! operation table selected by a capability mask, the paginated directory
//! stream, and the one reply that each request gets.
pub mod codec;
pub mod dirent;
pub mod fuse;
pub mod ops;
pub mod reply;

pub use crate::dirent::{encode_listing, readdir_reply, record_size};
pub use crate::fuse::{
    FileType, FuseAttr, FuseBufFlags, FuseCtx, FuseDirectory, FuseFileInfo, FuseForgetData,
    FuseLock, FusePollhandle, FuseReq, FuseSession, FuseStatvfs, ENOENT, ENOSYS, FLOCK_SIZE,
    STATVFS_SIZE, STAT_SIZE, S_IFBLK, S_IFCHR, S_IFDIR, S_IFIFO, S_IFLNK, S_IFMT, S_IFREG,
    S_IFSOCK,
};
pub use crate::ops::{FuseOpFlag, OpTable, ALL_OPS, OP_COUNT};
pub use crate::reply::{
    ack_of, check_listing_fits, find_entry, notify_reply, readdir_result, reply_of,
    xattr_reply, Reply, XattrReply, EIO,
};
