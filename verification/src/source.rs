//! The stateful adapter: a cursor over an externally held byte resource,
//! exposing standard read and seek semantics on top of a range-slicing
//! primitive. The resource itself is modelled as a byte sequence; what its
//! slicing primitive hands back for a range is pinned by `materialized`.

use vstd::prelude::*;
use vstd::math::{max, min};
use crate::arith::{checked_add_signed, signed_sum_in_range};
use crate::bridge::{HostNumber, MAX_SAFE_INTEGER};

verus! {

/// A seek request: an absolute offset, or an offset relative to the end of
/// the resource or to the current cursor.
#[derive(Clone, Copy, Debug, PartialEq, Eq, Structural)]
pub enum SeekSpec {
    Absolute(u64),
    FromEnd(i64),
    FromCurrent(i64),
}

/// The failures the adapter itself detects.
#[derive(Clone, Copy, Debug, PartialEq, Eq, Structural)]
pub enum SourceError {
    /// An offset cannot cross into the host numeric domain without loss.
    PrecisionViolation,
    /// A seek target would be negative or exceed the largest unsigned offset.
    InvalidSeek,
}

/// What the resource's slicing primitive hands back for the half-open range
/// `[start, end)`: the bytes of that range, clipped to the resource's extent;
/// a range lying past the extent, or running backwards, yields no bytes.
pub open spec fn materialized(content: Seq<u8>, start: int, end: int) -> Seq<u8>
    recommends
        0 <= start,
        0 <= end,
{
    let lo = min(start, content.len() as int);
    let hi = min(max(end, start), content.len() as int);
    content.subrange(lo, hi)
}

/// The bytes a read of `count` bytes yields when the cursor stands at `pos`.
pub open spec fn read_chunk(content: Seq<u8>, pos: int, count: int) -> Seq<u8>
    recommends
        0 <= pos,
        0 <= count,
{
    materialized(content, pos, pos + count)
}

/// Reference in-memory resource: materializes `[start, end)` from a byte
/// vector exactly as the external slicing primitive is specified to.
pub fn materialize_range(content: &Vec<u8>, start: u64, end: u64) -> (r: Vec<u8>)
    ensures
        r@ == materialized(content@, start as int, end as int),
{
    let len: usize = content.len();
    let len64: u64 = len as u64;
    let hi_raw: u64 = if end > start {
        end
    } else {
        start
    };
    let lo: usize = if start < len64 {
        start as usize
    } else {
        len
    };
    let hi: usize = if hi_raw < len64 {
        hi_raw as usize
    } else {
        len
    };
    let mut out: Vec<u8> = Vec::new();
    let mut i: usize = lo;
    while i < hi
        invariant
            lo <= i <= hi,
            hi <= content@.len(),
            out@ == content@.subrange(lo as int, i as int),
        decreases hi - i,
    {
        let b: u8 = content[i];
        out.push(b);
        assert(out@ =~= content@.subrange(lo as int, i as int + 1));
        i = i + 1;
    }
    assert(out@ =~= materialized(content@, start as int, end as int));
    out
}

/// Where a seek request lands: an absolute target is taken as it stands, a
/// relative one is the checked signed offset from its base — the resource's
/// size for `FromEnd`, the cursor for `FromCurrent` — and a sum outside the
/// unsigned 64-bit range is an invalid seek.
pub open spec fn seek_target(pos: u64, size: u64, target: SeekSpec) -> Result<u64, SourceError> {
    match target {
        SeekSpec::Absolute(n) => Ok(n),
        SeekSpec::FromEnd(delta) => if signed_sum_in_range(size, delta) {
            Ok((size + delta) as u64)
        } else {
            Err(SourceError::InvalidSeek)
        },
        SeekSpec::FromCurrent(delta) => if signed_sum_in_range(pos, delta) {
            Ok((pos + delta) as u64)
        } else {
            Err(SourceError::InvalidSeek)
        },
    }
}

/// The cursor over the resource: the next byte offset a sequential read will
/// start from. It may legally stand past the resource's extent; reading there
/// yields no bytes.
pub struct SeekableByteSource {
    pos: u64,
}

impl View for SeekableByteSource {
    type V = u64;

    closed spec fn view(&self) -> u64 {
        self.pos
    }
}

impl SeekableByteSource {
    /// A fresh cursor, standing at offset zero.
    pub fn new() -> (r: Self)
        ensures
            r@ == 0,
    {
        SeekableByteSource { pos: 0 }
    }

    /// The next byte offset a sequential read will start from.
    pub fn position(&self) -> (r: u64)
        ensures
            r == self@,
    {
        self.pos
    }

    /// Plans a read of `buf_len` bytes: the half-open range
    /// `[position, position + buf_len)` with both endpoints carried losslessly
    /// into the host domain. The end is computed with a saturating add, and an
    /// endpoint beyond the safe-integer bound is a precision violation; the
    /// cursor is not touched.
    pub fn plan_read(&self, buf_len: usize) -> (r: Result<(HostNumber, HostNumber), SourceError>)
        ensures
            self@ + buf_len <= MAX_SAFE_INTEGER ==> r == Ok::<_, SourceError>((
                HostNumber::InRange { floor: self@, exact: true },
                HostNumber::InRange { floor: (self@ + buf_len) as u64, exact: true },
            )),
            self@ + buf_len > MAX_SAFE_INTEGER ==> r == Err::<(HostNumber, HostNumber), _>(
                SourceError::PrecisionViolation,
            ),
    {
        let len64: u64 = buf_len as u64;
        let end: u64 = if self.pos <= u64::MAX - len64 {
            self.pos + len64
        } else {
            u64::MAX
        };
        if end <= MAX_SAFE_INTEGER {
            Ok((
                HostNumber::InRange { floor: self.pos, exact: true },
                HostNumber::InRange { floor: end, exact: true },
            ))
        } else {
            Err(SourceError::PrecisionViolation)
        }
    }

    /// Completes a read: the materialized bytes are copied to the front of the
    /// caller's buffer, the rest of the buffer is untouched, and the cursor
    /// advances by exactly the number of bytes obtained — not the number
    /// requested. The resource never hands back more bytes than the planned
    /// range holds, and a cursor past the largest unsigned offset is fatal to
    /// the caller, so both stand as preconditions.
    pub fn commit_read(&mut self, data: &Vec<u8>, buf: &mut Vec<u8>) -> (r: usize)
        requires
            data@.len() <= old(buf)@.len(),
            old(self)@ + data@.len() <= u64::MAX,
        ensures
            r == data@.len(),
            final(self)@ == old(self)@ + data@.len(),
            final(buf)@.len() == old(buf)@.len(),
            final(buf)@ == data@ + old(buf)@.skip(data@.len() as int),
    {
        let n: usize = data.len();
        let mut i: usize = 0;
        while i < n
            invariant
                i <= n,
                n == data@.len(),
                n <= buf@.len(),
                buf@.len() == old(buf)@.len(),
                buf@ == data@.subrange(0, i as int) + old(buf)@.skip(i as int),
            decreases n - i,
        {
            let b: u8 = data[i];
            buf.set(i, b);
            assert(buf@ =~= data@.subrange(0, i as int + 1) + old(buf)@.skip(i as int + 1));
            i = i + 1;
        }
        assert(buf@ =~= data@ + old(buf)@.skip(n as int));
        self.pos = self.pos + n as u64;
        n
    }

    /// The full read algorithm, run against the reference in-memory resource:
    /// the half-open range `[position, position + buf.len())` is planned with
    /// its precision check, materialized clipped to the resource's extent,
    /// and committed — the bytes land at the front of the caller's buffer and
    /// the cursor advances by the number of bytes actually obtained. When an
    /// endpoint cannot cross into the host domain losslessly, the precision
    /// violation is reported and nothing changes.
    pub fn read_from(&mut self, content: &Vec<u8>, buf: &mut Vec<u8>) -> (r: Result<
        usize,
        SourceError,
    >)
        ensures
            old(self)@ + old(buf)@.len() <= MAX_SAFE_INTEGER ==> ({
                let chunk = read_chunk(content@, old(self)@ as int, old(buf)@.len() as int);
                &&& r == Ok::<usize, SourceError>(chunk.len() as usize)
                &&& final(self)@ == old(self)@ + chunk.len()
                &&& final(buf)@ == chunk + old(buf)@.skip(chunk.len() as int)
                &&& final(buf)@.len() == old(buf)@.len()
            }),
            old(self)@ + old(buf)@.len() > MAX_SAFE_INTEGER ==> ({
                &&& r == Err::<usize, SourceError>(SourceError::PrecisionViolation)
                &&& final(self)@ == old(self)@
                &&& final(buf)@ == old(buf)@
            }),
    {
        let planned = self.plan_read(buf.len());
        match planned {
            Err(e) => Err(e),
            Ok((start, end)) => {
                let start_floor: u64 = match start {
                    HostNumber::InRange { floor, .. } => floor,
                    _ => unreached(),
                };
                let end_floor: u64 = match end {
                    HostNumber::InRange { floor, .. } => floor,
                    _ => unreached(),
                };
                let data = materialize_range(content, start_floor, end_floor);
                assert(data@ == read_chunk(content@, self@ as int, buf@.len() as int));
                assert(data@.len() <= buf@.len());
                let n = self.commit_read(&data, buf);
                Ok(n)
            },
        }
    }

    /// Repositions the cursor per `seek_target`: the resolved position is
    /// stored and returned; an invalid target is reported and the cursor is
    /// left unchanged. An absolute target past the resource's extent is legal.
    pub fn seek(&mut self, target: SeekSpec, size: u64) -> (r: Result<u64, SourceError>)
        ensures
            r == seek_target(old(self)@, size, target),
            final(self)@ == (match seek_target(old(self)@, size, target) {
                Ok(n) => n,
                Err(_) => old(self)@,
            }),
    {
        match target {
            SeekSpec::Absolute(n) => {
                self.pos = n;
                Ok(n)
            },
            SeekSpec::FromEnd(delta) => {
                match checked_add_signed(size, delta) {
                    Some(n) => {
                        self.pos = n;
                        Ok(n)
                    },
                    None => Err(SourceError::InvalidSeek),
                }
            },
            SeekSpec::FromCurrent(delta) => {
                match checked_add_signed(self.pos, delta) {
                    Some(n) => {
                        self.pos = n;
                        Ok(n)
                    },
                    None => Err(SourceError::InvalidSeek),
                }
            },
        }
    }
}

/// Sequential read invariant: when the bytes read so far are exactly the
/// first `pos` bytes of the resource, one more read of any size extends them
/// to exactly the first `min(pos + count, size)` bytes, the cursor — which
/// advances by the chunk's length — never passes the resource's extent, and a
/// read at or past the extent yields no bytes at all.
pub proof fn lemma_sequential_read(content: Seq<u8>, pos: int, count: int)
    requires
        0 <= pos,
        0 <= count,
    ensures
        pos <= content.len() ==> content.take(pos) + read_chunk(content, pos, count)
            == content.take(min(pos + count, content.len() as int)),
        pos <= content.len() ==> pos + read_chunk(content, pos, count).len()
            == min(pos + count, content.len() as int),
        pos >= content.len() ==> read_chunk(content, pos, count) == Seq::<u8>::empty(),
{
    if pos <= content.len() {
        assert(content.take(pos) + read_chunk(content, pos, count)
            =~= content.take(min(pos + count, content.len() as int)));
    } else {
        assert(read_chunk(content, pos, count) =~= Seq::<u8>::empty());
    }
}

/// Seek-then-read consistency: an absolute seek to `n` lands at `n` whatever
/// the cursor and size were, and a read of `count` bytes that stays within
/// the resource then yields exactly the bytes `[n, n + count)`.
pub proof fn lemma_seek_then_read(content: Seq<u8>, n: u64, count: int, pos: u64, size: u64)
    requires
        0 <= count,
        n + count <= content.len(),
    ensures
        seek_target(pos, size, SeekSpec::Absolute(n)) == Ok::<u64, SourceError>(n),
        read_chunk(content, n as int, count) == content.subrange(n as int, n + count),
{
    assert(read_chunk(content, n as int, count) =~= content.subrange(n as int, n + count));
}

/// A seek to `FromEnd(0)` lands exactly at the resource's size, and a read
/// there yields no bytes at all.
pub proof fn lemma_seek_end(content: Seq<u8>, pos: u64, size: u64, count: int)
    requires
        content.len() == size,
        0 <= count,
    ensures
        seek_target(pos, size, SeekSpec::FromEnd(0)) == Ok::<u64, SourceError>(size),
        read_chunk(content, size as int, count) == Seq::<u8>::empty(),
{
    assert(read_chunk(content, size as int, count) =~= Seq::<u8>::empty());
}

/// A relative seek whose target would be negative is refused as an invalid
/// seek — and, by `seek`'s contract, such a refusal leaves the cursor where
/// it stood.
pub proof fn lemma_negative_relative_seek(pos: u64, size: u64, delta: i64)
    requires
        pos + delta < 0,
    ensures
        seek_target(pos, size, SeekSpec::FromCurrent(delta))
            == Err::<u64, SourceError>(SourceError::InvalidSeek),
{
}

} // verus!
