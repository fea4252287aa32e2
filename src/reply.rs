//! What a request handler sends back. Each handler computes exactly one
//! `Reply` from the outcome of the filesystem's method and issues it.
use vstd::prelude::*;

use crate::dirent::{
    entries_view, lemma_listing_len_prefix, listing, listing_fits, listing_len, page,
    readdir_reply, record_len,
};
use crate::fuse::{FuseDirectory, ENOENT};

verus! {

/// "Input/output error": the generic error of a request that cannot be encoded.
pub const EIO: i32 = 5;

/// The one reply of a request.
#[derive(Debug, PartialEq, Eq)]
pub enum Reply<T> {
    /// The operation's own reply, carrying its payload.
    Data(T),
    /// The error reply; code zero acknowledges an operation that returns nothing.
    Error(i32),
    /// No reply: the acknowledgement of a one-way notification.
    NoReply,
}

/// The payload of an extended-attribute reply.
#[derive(Debug, PartialEq, Eq)]
pub enum XattrReply {
    /// The length of the value, for a request that asks only for it.
    Size(usize),
    /// The value itself.
    Value(Vec<u8>),
}

/// The reply to an operation that returns a value.
pub fn reply_of<T>(r: Result<T, i32>) -> (out: Reply<T>)
    ensures
        match r {
            Ok(v) => out == Reply::Data(v),
            Err(e) => out == Reply::<T>::Error(e),
        },
{
    match r {
        Ok(v) => Reply::Data(v),
        Err(e) => Reply::Error(e),
    }
}

/// The reply to an operation that returns nothing: success is acknowledged by
/// the error reply with code zero.
pub fn ack_of(r: Result<(), i32>) -> (out: Reply<()>)
    ensures
        match r {
            Ok(_) => out == Reply::<()>::Error(0),
            Err(e) => out == Reply::<()>::Error(e),
        },
{
    match r {
        Ok(_) => Reply::Error(0),
        Err(e) => Reply::Error(e),
    }
}

/// The reply to a one-way notification (forget): none, whatever the
/// filesystem did.
pub fn notify_reply() -> (out: Reply<()>)
    ensures
        out == Reply::<()>::NoReply,
{
    Reply::NoReply
}

/// The reply to an extended-attribute read of at most `size` bytes: a size of
/// zero asks for the length of the value only.
pub fn xattr_reply(r: Result<Vec<u8>, i32>, size: usize) -> (out: Reply<XattrReply>)
    ensures
        match r {
            Ok(v) => if size == 0 {
                out == Reply::Data(XattrReply::Size(v@.len() as usize))
            } else {
                out == Reply::Data(XattrReply::Value(v))
            },
            Err(e) => out == Reply::<XattrReply>::Error(e),
        },
{
    match r {
        Ok(v) => {
            if size == 0 {
                Reply::Data(XattrReply::Size(v.len()))
            } else {
                Reply::Data(XattrReply::Value(v))
            }
        },
        Err(e) => Reply::Error(e),
    }
}

/// Whether the native framing can carry `entries`.
pub fn check_listing_fits(entries: &Vec<FuseDirectory>) -> (r: bool)
    ensures
        r == listing_fits(entries_view(entries@)),
{
    let ghost es = entries_view(entries@);
    let n = entries.len();
    let mut total: usize = 0;
    let mut i: usize = 0;
    while i < n
        invariant
            i <= n,
            n == entries@.len(),
            es == entries_view(entries@),
            total == listing_len(es.take(i as int)),
            forall|j: int| 0 <= j < i ==> #[trigger] es[j].name.len() <= u32::MAX,
        decreases n - i,
    {
        let len = entries[i].name.len();
        assert(es[i as int].name.len() == len);
        if len > u32::MAX as usize {
            return false;
        }
        let rl: u64 = (24 + len as u64 + 7) / 8 * 8;
        assert(es.take(i as int + 1).drop_last() =~= es.take(i as int));
        assert(rl == record_len(len as nat));
        if rl > (usize::MAX as u64) - (total as u64) {
            proof {
                lemma_listing_len_prefix(es, i as int + 1);
            }
            return false;
        }
        total = total + rl as usize;
        i = i + 1;
    }
    assert(es.take(n as int) =~= es);
    true
}

/// The reply to a directory read of at most `size` bytes from cursor `off`:
/// the page of the listing at that cursor; the generic error where the native
/// framing cannot carry the entries.
pub fn readdir_result(r: Result<Vec<FuseDirectory>, i32>, size: usize, off: i64) -> (out: Reply<
    Vec<u8>,
>)
    ensures
        match r {
            Ok(es) => if listing_fits(entries_view(es@)) {
                out is Data && out->Data_0@ == page(listing(entries_view(es@)), size as nat, off as int)
            } else {
                out == Reply::<Vec<u8>>::Error(EIO)
            },
            Err(e) => out == Reply::<Vec<u8>>::Error(e),
        },
{
    match r {
        Ok(es) => {
            if check_listing_fits(&es) {
                Reply::Data(readdir_reply(&es, size, off))
            } else {
                Reply::Error(EIO)
            }
        },
        Err(e) => Reply::Error(e),
    }
}

/// Looks `name` up among the entries of a directory: the index of the first
/// entry of that name, or "no such entry".
pub fn find_entry(entries: &Vec<FuseDirectory>, name: &[u8]) -> (r: Result<usize, i32>)
    ensures
        match r {
            Ok(i) => i < entries@.len() && entries@[i as int].name@ == name@ && forall|j: int|
                0 <= j < i ==> #[trigger] entries@[j].name@ != name@,
            Err(e) => e == ENOENT && forall|j: int|
                0 <= j < entries@.len() ==> #[trigger] entries@[j].name@ != name@,
        },
{
    let n = entries.len();
    let mut i: usize = 0;
    while i < n
        invariant
            i <= n,
            n == entries@.len(),
            forall|j: int| 0 <= j < i ==> #[trigger] entries@[j].name@ != name@,
        decreases n - i,
    {
        if bytes_equal(entries[i].name.as_slice(), name) {
            return Ok(i);
        }
        i = i + 1;
    }
    Err(ENOENT)
}

fn bytes_equal(a: &[u8], b: &[u8]) -> (r: bool)
    ensures
        r == (a@ == b@),
{
    if a.len() != b.len() {
        return false;
    }
    let mut i: usize = 0;
    while i < a.len()
        invariant
            i <= a@.len(),
            a@.len() == b@.len(),
            forall|j: int| 0 <= j < i ==> a@[j] == b@[j],
        decreases a@.len() - i,
    {
        if a[i] != b[i] {
            return false;
        }
        i = i + 1;
    }
    assert(a@ =~= b@);
    true
}

} // verus!
