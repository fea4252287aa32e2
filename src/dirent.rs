//! The directory-entry stream: framing a listing into native directory-entry
//! records and serving it one page at a time from a byte cursor.
use vstd::prelude::*;

use crate::codec::{push_u32, push_u64, push_zeros, u32_le, u64_le, zeros};
use crate::fuse::{DirEntryView, FileType, FuseDirectory, S_IFMT};

verus! {

/// Byte offset of the name inside a framed record: inode, cursor, name length
/// and type come first.
pub const DIRENT_NAME_OFFSET: usize = 24;

/// Length of the framed record of a name of `namelen` bytes: header and name,
/// rounded up to a multiple of eight.
pub open spec fn record_len(namelen: nat) -> nat {
    ((DIRENT_NAME_OFFSET + namelen + 7) / 8 * 8) as nat
}

/// The type field of a framed record: the type bits of the kind's mode, shifted
/// down.
pub open spec fn dirent_type(t: FileType) -> u32 {
    (t.spec_mode() & S_IFMT) >> 12u32
}

/// The framed record of `e` whose cursor field is `off`.
pub open spec fn record_bytes(e: DirEntryView, off: u64) -> Seq<u8> {
    u64_le(e.ino) + u64_le(off) + u32_le(e.name.len() as u32) + u32_le(dirent_type(e.file_type))
        + e.name + zeros((record_len(e.name.len()) - DIRENT_NAME_OFFSET - e.name.len()) as nat)
}

/// Total length of the framed records of `es`.
pub open spec fn listing_len(es: Seq<DirEntryView>) -> nat
    decreases es.len(),
{
    if es.len() == 0 {
        0
    } else {
        listing_len(es.drop_last()) + record_len(es.last().name.len())
    }
}

/// The listing buffer of `es`: their framed records in order, each carrying as
/// its cursor the running length of the buffer at its own end.
pub open spec fn listing(es: Seq<DirEntryView>) -> Seq<u8>
    decreases es.len(),
{
    if es.len() == 0 {
        Seq::empty()
    } else {
        listing(es.drop_last()) + record_bytes(es.last(), listing_len(es) as u64)
    }
}

/// The entries of a listing as values.
pub open spec fn entries_view(es: Seq<FuseDirectory>) -> Seq<DirEntryView> {
    es.map_values(|e: FuseDirectory| e@)
}

/// Entries that the native framing can carry: each name's length fits its
/// 32-bit field and the whole buffer fits in memory.
pub open spec fn listing_fits(es: Seq<DirEntryView>) -> bool {
    &&& forall|i: int| 0 <= i < es.len() ==> #[trigger] es[i].name.len() <= u32::MAX
    &&& listing_len(es) <= usize::MAX
}

/// The reply for a request of at most `size` bytes from cursor `off`: the
/// buffer from `off` on, cut to `size` bytes; empty where `off` is negative or
/// at or past the end of the buffer.
pub open spec fn page(buf: Seq<u8>, size: nat, off: int) -> Seq<u8> {
    if 0 <= off < buf.len() {
        if off + size < buf.len() {
            buf.subrange(off, off + size)
        } else {
            buf.subrange(off, buf.len() as int)
        }
    } else {
        Seq::empty()
    }
}

/// Byte offset in the listing buffer at which the record of entry `j` starts.
pub open spec fn offset_of(es: Seq<DirEntryView>, j: int) -> nat {
    listing_len(es.take(j))
}

pub proof fn lemma_listing_len(es: Seq<DirEntryView>)
    ensures
        listing(es).len() == listing_len(es),
    decreases es.len(),
{
    if es.len() > 0 {
        lemma_listing_len(es.drop_last());
    }
}

/// A listing is no shorter than that of any of its prefixes.
pub proof fn lemma_listing_len_prefix(es: Seq<DirEntryView>, j: int)
    requires
        0 <= j <= es.len(),
    ensures
        listing_len(es.take(j)) <= listing_len(es),
    decreases es.len(),
{
    if j < es.len() {
        lemma_listing_len_prefix(es.drop_last(), j);
        assert(es.drop_last().take(j) =~= es.take(j));
    } else {
        assert(es.take(j) =~= es);
    }
}

/// The listing of a prefix of the entries is a prefix of the listing.
pub proof fn lemma_listing_prefix(es: Seq<DirEntryView>, j: int)
    requires
        0 <= j <= es.len(),
    ensures
        listing(es).subrange(0, offset_of(es, j) as int) == listing(es.take(j)),
    decreases es.len(),
{
    lemma_listing_len(es.take(j));
    if j < es.len() {
        lemma_listing_prefix(es.drop_last(), j);
        assert(es.drop_last().take(j) =~= es.take(j));
        lemma_listing_len(es.drop_last());
        lemma_listing_len_prefix(es.drop_last(), j);
        assert(listing(es).subrange(0, offset_of(es, j) as int) =~= listing(
            es.drop_last(),
        ).subrange(0, offset_of(es, j) as int));
    } else {
        assert(es.take(j) =~= es);
        lemma_listing_len(es);
        assert(listing(es).subrange(0, offset_of(es, j) as int) =~= listing(es));
    }
}

pub fn record_size(namelen: usize) -> (r: usize)
    requires
        namelen + 31 <= usize::MAX,
    ensures
        r == record_len(namelen as nat),
{
    (DIRENT_NAME_OFFSET + namelen + 7) / 8 * 8
}

/// Appends the framed record of `e` with cursor field `off`.
fn push_record(out: &mut Vec<u8>, e: &FuseDirectory, off: u64)
    requires
        e.name@.len() <= u32::MAX,
        e.name@.len() + 31 <= usize::MAX,
    ensures
        final(out)@ == old(out)@ + record_bytes(e@, off),
{
    let attr = e.attr();
    let n = e.name.len();
    push_u64(out, attr.ino);
    push_u64(out, off);
    push_u32(out, n as u32);
    push_u32(out, (attr.mode & S_IFMT) >> 12u32);
    let ghost head = out@;
    let mut i: usize = 0;
    while i < n
        invariant
            i <= n,
            n == e.name@.len(),
            out@ == head + e.name@.subrange(0, i as int),
        decreases n - i,
    {
        out.push(e.name[i]);
        i = i + 1;
        assert(out@ =~= head + e.name@.subrange(0, i as int));
    }
    assert(e.name@.subrange(0, n as int) =~= e.name@);
    let total = record_size(n);
    push_zeros(out, total - DIRENT_NAME_OFFSET - n);
    assert(final(out)@ =~= old(out)@ + record_bytes(e@, off));
}

/// Frames every entry, in order, into one listing buffer.
pub fn encode_listing(entries: &Vec<FuseDirectory>) -> (r: Vec<u8>)
    requires
        listing_fits(entries_view(entries@)),
    ensures
        r@ == listing(entries_view(entries@)),
{
    let ghost es = entries_view(entries@);
    let mut out: Vec<u8> = Vec::new();
    let mut i: usize = 0;
    let n = entries.len();
    proof {
        lemma_listing_len_prefix(es, n as int);
    }
    while i < n
        invariant
            i <= n,
            n == entries@.len(),
            es == entries_view(entries@),
            listing_fits(es),
            out@ == listing(es.take(i as int)),
            out@.len() == listing_len(es.take(i as int)),
        decreases n - i,
    {
        let e = &entries[i];
        proof {
            assert(es[i as int] == e@);
            assert(es.take(i as int + 1).drop_last() =~= es.take(i as int));
            lemma_listing_len_prefix(es, i as int + 1);
        }
        let len = record_size(e.name.len());
        let end = out.len() + len;
        push_record(&mut out, e, end as u64);
        i = i + 1;
    }
    assert(es.take(n as int) =~= es);
    out
}

/// The reply to a directory read of at most `size` bytes from cursor `off`:
/// the whole listing is framed afresh and the page at `off` cut from it.
pub fn readdir_reply(entries: &Vec<FuseDirectory>, size: usize, off: i64) -> (r: Vec<u8>)
    requires
        listing_fits(entries_view(entries@)),
    ensures
        r@ == page(listing(entries_view(entries@)), size as nat, off as int),
{
    let buf = encode_listing(entries);
    let len = buf.len();
    let mut out: Vec<u8> = Vec::new();
    if off >= 0 && (off as u64) < (len as u64) {
        let start = off as usize;
        let end = if size < len - start {
            start + size
        } else {
            len
        };
        let mut j: usize = start;
        while j < end
            invariant
                start <= j <= end <= len,
                len == buf@.len(),
                out@ == buf@.subrange(start as int, j as int),
            decreases end - j,
        {
            out.push(buf[j]);
            j = j + 1;
            assert(out@ =~= buf@.subrange(start as int, j as int));
        }
    }
    out
}

/// Offsets of entries grow with their index.
pub proof fn lemma_offset_monotone(es: Seq<DirEntryView>, a: int, b: int)
    requires
        0 <= a <= b <= es.len(),
    ensures
        offset_of(es, a) <= offset_of(es, b),
        offset_of(es, b) <= listing_len(es),
{
    assert(es.take(b).take(a) =~= es.take(a));
    lemma_listing_len_prefix(es.take(b), a);
    lemma_listing_len_prefix(es, b);
}

/// The listing holds the framed records of the entries in their order: the
/// record of entry `i` spans from its own offset to the next one and carries
/// that next offset as its cursor.
pub proof fn lemma_record_at(es: Seq<DirEntryView>, i: int)
    requires
        0 <= i < es.len(),
    ensures
        offset_of(es, i + 1) == offset_of(es, i) + record_len(es[i].name.len()),
        offset_of(es, i + 1) <= listing(es).len(),
        listing(es).subrange(offset_of(es, i) as int, offset_of(es, i + 1) as int)
            == record_bytes(es[i], offset_of(es, i + 1) as u64),
{
    let t = es.take(i + 1);
    assert(t.drop_last() =~= es.take(i));
    lemma_listing_prefix(es, i + 1);
    lemma_listing_len(es.take(i));
    lemma_listing_len(es);
    lemma_offset_monotone(es, i + 1, es.len() as int);
    let a = offset_of(es, i) as int;
    let b = offset_of(es, i + 1) as int;
    assert(listing(es).subrange(a, b) =~= listing(t).subrange(a, b));
    assert(listing(t).subrange(a, b) =~= record_bytes(es[i], b as u64));
}

/// One past the last entry whose record lies whole within `size` bytes from
/// the start of the record of entry `j`, scanning on from entry `k`.
pub open spec fn advance(es: Seq<DirEntryView>, size: nat, j: int, k: int) -> int
    decreases es.len() - k,
{
    if 0 <= k < es.len() && offset_of(es, k + 1) <= offset_of(es, j) + size {
        advance(es, size, j, k + 1)
    } else {
        k
    }
}

/// The indices of the entries handed out whole by successive replies, starting
/// from the cursor of entry `j` and going on from the cursor that the last
/// whole record of each reply carries.
pub open spec fn delivered(es: Seq<DirEntryView>, size: nat, j: int) -> Seq<int>
    decreases es.len() - j,
{
    let k = advance(es, size, j, j);
    if 0 <= j < k <= es.len() {
        Seq::new((k - j) as nat, |i: int| j + i) + delivered(es, size, k)
    } else {
        Seq::empty()
    }
}

/// Every record of `es` fits in `size` bytes.
pub open spec fn size_admits_records(es: Seq<DirEntryView>, size: nat) -> bool {
    forall|i: int| 0 <= i < es.len() ==> record_len(#[trigger] es[i].name.len()) <= size
}

proof fn lemma_advance(es: Seq<DirEntryView>, size: nat, j: int, k: int)
    requires
        0 <= j <= k <= es.len(),
        offset_of(es, k) <= offset_of(es, j) + size,
    ensures
        k <= advance(es, size, j, k) <= es.len(),
        offset_of(es, advance(es, size, j, k)) <= offset_of(es, j) + size,
        advance(es, size, j, k) < es.len() ==> offset_of(es, advance(es, size, j, k) + 1)
            > offset_of(es, j) + size,
    decreases es.len() - k,
{
    if k < es.len() && offset_of(es, k + 1) <= offset_of(es, j) + size {
        lemma_advance(es, size, j, k + 1);
    }
}

/// From the cursor of an entry that is not the last, a reply whose size limit
/// admits any single record holds at least that entry's record whole, and
/// holds whole exactly the records up to `advance`: the record after them does
/// not fit.
pub proof fn lemma_page_at_cursor(es: Seq<DirEntryView>, size: nat, j: int)
    requires
        0 <= j < es.len(),
        size_admits_records(es, size),
    ensures
        ({
            let o = offset_of(es, j) as int;
            let k = advance(es, size, j, j);
            let p = page(listing(es), size, o);
            &&& j < k <= es.len()
            &&& o + p.len() >= offset_of(es, k)
            &&& p.subrange(0, offset_of(es, k) - o) == listing(es).subrange(o, offset_of(es, k) as int)
            &&& k < es.len() ==> o + p.len() < offset_of(es, k + 1)
        }),
{
    let o = offset_of(es, j) as int;
    lemma_record_at(es, j);
    assert(record_len(es[j].name.len()) <= size);
    lemma_advance(es, size, j, j + 1);
    let k = advance(es, size, j, j);
    lemma_offset_monotone(es, k, es.len() as int);
    lemma_listing_len(es);
    if k < es.len() {
        lemma_offset_monotone(es, k + 1, es.len() as int);
    }
    let len = listing(es).len() as int;
    assert(k == advance(es, size, j, j + 1));
    assert(o < len);
    assert(offset_of(es, k) <= o + size);
    lemma_offset_monotone(es, j, k);
    let p = page(listing(es), size, o);
    if o + size < len {
        assert(p == listing(es).subrange(o, o + size));
    } else {
        assert(p == listing(es).subrange(o, len));
    }
    assert(p.subrange(0, offset_of(es, k) - o) =~= listing(es).subrange(o, offset_of(es, k) as int));
}

proof fn lemma_delivered_from(es: Seq<DirEntryView>, size: nat, j: int)
    requires
        0 <= j <= es.len(),
        size_admits_records(es, size),
    ensures
        delivered(es, size, j) == Seq::new((es.len() - j) as nat, |i: int| j + i),
    decreases es.len() - j,
{
    if j < es.len() {
        lemma_record_at(es, j);
        assert(record_len(es[j].name.len()) <= size);
        lemma_advance(es, size, j, j + 1);
        let k = advance(es, size, j, j);
        lemma_delivered_from(es, size, k);
        assert(delivered(es, size, j) =~= Seq::new((es.len() - j) as nat, |i: int| j + i));
    } else {
        assert(delivered(es, size, j) =~= Seq::new((es.len() - j) as nat, |i: int| j + i));
    }
}

/// Paging through a listing from cursor zero, each time from the cursor that
/// the last whole record of the previous reply carries, with a size limit that
/// admits any single record, hands out every entry exactly once and in order,
/// and the reply at the final cursor is empty.
pub proof fn lemma_pagination_complete(es: Seq<DirEntryView>, size: nat)
    requires
        size_admits_records(es, size),
    ensures
        delivered(es, size, 0) == Seq::new(es.len(), |i: int| i),
        page(listing(es), size, offset_of(es, es.len() as int) as int) == Seq::<u8>::empty(),
{
    lemma_delivered_from(es, size, 0);
    assert(Seq::new((es.len() - 0) as nat, |i: int| 0 + i) =~= Seq::new(es.len(), |i: int| i));
    assert(es.take(es.len() as int) =~= es);
    lemma_listing_len(es);
}

/// Two requests with the same entries, size and cursor get byte-identical
/// replies.
pub proof fn lemma_page_deterministic(
    a: Seq<FuseDirectory>,
    b: Seq<FuseDirectory>,
    size: nat,
    off: int,
)
    requires
        entries_view(a) == entries_view(b),
    ensures
        page(listing(entries_view(a)), size, off) == page(listing(entries_view(b)), size, off),
{
}

/// A size limit of zero gives an empty reply, whatever the cursor and entries.
pub proof fn lemma_page_zero_size(buf: Seq<u8>, off: int)
    ensures
        page(buf, 0, off) == Seq::<u8>::empty(),
{
    assert(page(buf, 0, off) =~= Seq::<u8>::empty());
}

/// A cursor at or past the end of the listing gives an empty reply.
pub proof fn lemma_page_past_end(buf: Seq<u8>, size: nat, off: int)
    requires
        off >= buf.len(),
    ensures
        page(buf, size, off) == Seq::<u8>::empty(),
{
}

} // verus!
