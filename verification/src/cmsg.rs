//! Ancillary records: their layout in a byte region and the walk along a
//! chain of them.
//!
//! A record starts with a header of sixteen bytes: its length, header
//! included, as a `u64`; its level as an `i32`; its type as an `i32`. The
//! payload follows the header, and the next record starts at the next
//! multiple of eight bytes after the payload. This is the layout of 64-bit
//! Linux.

use crate::native::{
    i32_ne_bytes, i32_of_ne_bytes, lemma_i32_round_trip, lemma_u64_round_trip, overwrite,
    read_i32, read_u64, u64_ne_bytes, u64_of_ne_bytes, write_i32, write_u64,
};
use crate::platform::Platform;
use vstd::prelude::*;

verus! {

/// The size of a record header.
pub const CMSG_HDR_SIZE: usize = 16;

/// The size of one descriptor id in a payload.
pub const FD_SIZE: usize = 4;

/// `len` rounded up to the alignment of records.
pub open spec fn cmsg_align(len: int) -> int {
    (len + 7) / 8 * 8
}

/// The length to declare in the header of a record with `payload` bytes.
pub open spec fn cmsg_len(payload: int) -> int {
    CMSG_HDR_SIZE + payload
}

/// The room that a record with `payload` bytes takes in a chain.
pub open spec fn cmsg_space(payload: int) -> int {
    CMSG_HDR_SIZE + cmsg_align(payload)
}

/// The room that a record carrying `count` descriptors takes.
pub open spec fn fds_space(count: int) -> int {
    cmsg_space(FD_SIZE * count)
}

/// The header of a record.
#[derive(Clone, Copy, Debug, PartialEq, Eq, Structural)]
pub struct CMsgHdr {
    /// The length of the record in bytes, header included.
    pub len: u64,
    /// The protocol level that the record belongs to.
    pub level: i32,
    /// The type of the record within its level.
    pub typ: i32,
}

/// The sixteen bytes that hold `h` in memory.
pub open spec fn header_bytes(h: CMsgHdr) -> Seq<u8> {
    u64_ne_bytes(h.len) + i32_ne_bytes(h.level) + i32_ne_bytes(h.typ)
}

/// The header that the bytes of `region` from `at` on hold.
pub open spec fn header_at(region: Seq<u8>, at: int) -> CMsgHdr {
    CMsgHdr {
        len: u64_of_ne_bytes(region.skip(at)),
        level: i32_of_ne_bytes(region.skip(at + 8)),
        typ: i32_of_ne_bytes(region.skip(at + 12)),
    }
}

/// The first record of `region`: at its start, if a header fits there.
pub open spec fn first_record(region: Seq<u8>) -> Option<int> {
    if region.len() >= CMSG_HDR_SIZE {
        Some(0)
    } else {
        None
    }
}

/// The record that follows the one at `cur`: it starts where the aligned
/// length of the current one ends, if a header fits there. A record that
/// declares less than a header's length ends the chain.
pub open spec fn next_record(region: Seq<u8>, cur: int) -> Option<int> {
    let len = header_at(region, cur).len;
    let next = cur + cmsg_align(len as int);
    if len < CMSG_HDR_SIZE || next + CMSG_HDR_SIZE > region.len() {
        None
    } else {
        Some(next)
    }
}

/// The number of payload bytes of the record at `cur`: from the end of its
/// header to the end that it declares, or to the end of `region` if that
/// comes first.
pub open spec fn payload_len(region: Seq<u8>, cur: int) -> int {
    let len = header_at(region, cur).len;
    let end = if cur + len <= region.len() {
        cur + len
    } else {
        region.len() as int
    };
    if end >= cur + CMSG_HDR_SIZE {
        end - (cur + CMSG_HDR_SIZE)
    } else {
        0
    }
}

/// True if the record at `cur` passes descriptors.
pub open spec fn is_rights_record(p: Platform, region: Seq<u8>, cur: int) -> bool {
    p.is_rights(header_at(region, cur).level, header_at(region, cur).typ)
}

/// The `count` descriptor ids stored one after another from `at` on.
pub open spec fn fds_from(region: Seq<u8>, at: int, count: nat) -> Seq<i32> {
    Seq::new(count, |i: int| i32_of_ne_bytes(region.skip(at + FD_SIZE * i)))
}

/// The descriptor ids that the record at `cur` carries: as many as fit
/// whole in its payload if it passes descriptors, none otherwise.
pub open spec fn record_fds(p: Platform, region: Seq<u8>, cur: int) -> Seq<i32> {
    if is_rights_record(p, region, cur) {
        fds_from(region, cur + CMSG_HDR_SIZE, (payload_len(region, cur) / (FD_SIZE as int)) as nat)
    } else {
        Seq::empty()
    }
}

/// The descriptor ids carried by the record at `cur` and by those after it.
pub open spec fn chain_fds(p: Platform, region: Seq<u8>, cur: int) -> Seq<i32>
    decreases region.len() - cur,
{
    if cur < 0 || cur + CMSG_HDR_SIZE > region.len() {
        Seq::empty()
    } else {
        record_fds(p, region, cur) + match next_record(region, cur) {
            Some(next) => chain_fds(p, region, next),
            None => Seq::empty(),
        }
    }
}

/// The descriptor ids carried by the records after the one at `cur`.
pub open spec fn fds_after(p: Platform, region: Seq<u8>, cur: int) -> Seq<i32> {
    match next_record(region, cur) {
        Some(next) => chain_fds(p, region, next),
        None => Seq::empty(),
    }
}

/// All descriptor ids that `region` carries, in the order of the chain.
pub open spec fn region_fds(p: Platform, region: Seq<u8>) -> Seq<i32> {
    match first_record(region) {
        Some(first) => chain_fds(p, region, first),
        None => Seq::empty(),
    }
}

/// An offset in executable code as the offset it stands for.
pub open spec fn as_offset(o: Option<usize>) -> Option<int> {
    match o {
        Some(at) => Some(at as int),
        None => None,
    }
}

/// Rounds `len` up to the alignment of records.
pub fn align(len: usize) -> (r: usize)
    requires
        cmsg_align(len as int) <= usize::MAX,
    ensures
        r == cmsg_align(len as int),
{
    if len % 8 == 0 {
        len
    } else {
        len - len % 8 + 8
    }
}

/// Returns the size needed for a control buffer big enough to hold `count`
/// descriptors.
pub fn cmsg_buffer_fds_space(count: usize) -> (space: usize)
    requires
        fds_space(count as int) <= usize::MAX,
    ensures
        space == fds_space(count as int),
{
    CMSG_HDR_SIZE + align(FD_SIZE * count)
}

/// Reads the header stored at `at`.
pub fn read_header(region: &[u8], at: usize) -> (h: CMsgHdr)
    requires
        at + CMSG_HDR_SIZE <= region.len(),
    ensures
        h == header_at(region@, at as int),
{
    CMsgHdr {
        len: read_u64(region, at),
        level: read_i32(region, at + 8),
        typ: read_i32(region, at + 12),
    }
}

/// The first record of `region`, if it holds one.
pub fn first_hdr(region: &[u8]) -> (r: Option<usize>)
    ensures
        as_offset(r) == first_record(region@),
{
    if region.len() >= CMSG_HDR_SIZE {
        Some(0)
    } else {
        None
    }
}

/// The record after the one at `cur`, if `region` holds one.
pub fn next_hdr(region: &[u8], cur: usize) -> (r: Option<usize>)
    requires
        cur + CMSG_HDR_SIZE <= region.len(),
    ensures
        as_offset(r) == next_record(region@, cur as int),
        r matches Some(next) ==> cur < next && next + CMSG_HDR_SIZE <= region.len(),
{
    let len: u64 = read_header(region, cur).len;
    let room: usize = region.len() - cur;
    if len < CMSG_HDR_SIZE as u64 || len > (room - CMSG_HDR_SIZE) as u64 {
        return None;
    }
    let step: usize = align(len as usize);
    if step > room - CMSG_HDR_SIZE {
        None
    } else {
        Some(cur + step)
    }
}

/// The bytes of the ids `fds`, one id after another.
pub open spec fn fds_bytes(fds: Seq<i32>) -> Seq<u8> {
    Seq::new(FD_SIZE as nat * fds.len(), |i: int| i32_ne_bytes(fds[i / 4])[i % 4])
}

/// The header of the one record that carries `count` descriptors.
pub open spec fn rights_header(p: Platform, count: nat) -> CMsgHdr {
    CMsgHdr { len: cmsg_len(FD_SIZE * count) as u64, level: p.sol_socket, typ: p.scm_rights }
}

/// The record that passes the descriptors `fds`: its header, which declares
/// the length of header and ids and no more, and then the ids.
pub open spec fn rights_record(p: Platform, fds: Seq<i32>) -> Seq<u8> {
    header_bytes(rights_header(p, fds.len())) + fds_bytes(fds)
}

/// A header takes sixteen bytes, and reading them back gives the header.
pub proof fn lemma_header_round_trip(h: CMsgHdr, rest: Seq<u8>)
    ensures
        header_bytes(h).len() == CMSG_HDR_SIZE,
        header_at(header_bytes(h) + rest, 0) == h,
{
    lemma_u64_round_trip(h.len);
    lemma_i32_round_trip(h.level);
    lemma_i32_round_trip(h.typ);
    let all = header_bytes(h) + rest;
}

/// Stores the header `h` at `at`.
pub fn write_header(buf: &mut Vec<u8>, at: usize, h: CMsgHdr)
    requires
        at + CMSG_HDR_SIZE <= old(buf).len(),
    ensures
        final(buf)@ == overwrite(old(buf)@, at as int, header_bytes(h)),
        final(buf).len() == old(buf).len(),
{
    proof {
        lemma_u64_round_trip(h.len);
        lemma_i32_round_trip(h.level);
        lemma_i32_round_trip(h.typ);
    }
    write_u64(buf, at, h.len);
    write_i32(buf, at + 8, h.level);
    write_i32(buf, at + 12, h.typ);
    assert(buf@ =~= overwrite(old(buf)@, at as int, header_bytes(h)));
}

/// Starts a record at the beginning of `buf`, if a header fits there: the
/// record gets the level `level` and the type `typ`, and declares all of
/// `buf` as its length. Returns whether the record was started; `buf` is
/// left as it was if not.
pub fn first_cmsg(buf: &mut Vec<u8>, level: i32, typ: i32) -> (started: bool)
    ensures
        started == (old(buf).len() >= CMSG_HDR_SIZE),
        started ==> final(buf)@ == overwrite(
            old(buf)@,
            0,
            header_bytes(CMsgHdr { len: old(buf).len() as u64, level, typ }),
        ),
        started ==> header_at(final(buf)@, 0) == (CMsgHdr {
            len: old(buf).len() as u64,
            level,
            typ,
        }),
        !started ==> final(buf)@ == old(buf)@,
        final(buf).len() == old(buf).len(),
{
    if buf.len() < CMSG_HDR_SIZE {
        false
    } else {
        let max_len: u64 = buf.len() as u64;
        let hdr = CMsgHdr { len: max_len, level, typ };
        write_header(buf, 0, hdr);
        proof {
            lemma_header_round_trip(hdr, old(buf)@.skip(CMSG_HDR_SIZE as int));
        }
        true
    }
}

/// The number of payload bytes that the record at the beginning of `buf`
/// declares.
pub fn data_len(buf: &Vec<u8>) -> (n: u64)
    requires
        buf.len() >= CMSG_HDR_SIZE,
        header_at(buf@, 0).len >= CMSG_HDR_SIZE,
    ensures
        n == header_at(buf@, 0).len - CMSG_HDR_SIZE,
{
    read_header(buf.as_slice(), 0).len - CMSG_HDR_SIZE as u64
}

/// Makes the record at the beginning of `buf` declare a payload of `len`
/// bytes, if it declares more than that; a record never grows.
pub fn shrink_data_len(buf: &mut Vec<u8>, len: usize)
    requires
        old(buf).len() >= CMSG_HDR_SIZE,
        cmsg_len(len as int) <= u64::MAX,
    ensures
        final(buf)@ == if cmsg_len(len as int) < header_at(old(buf)@, 0).len {
            overwrite(old(buf)@, 0, u64_ne_bytes(cmsg_len(len as int) as u64))
        } else {
            old(buf)@
        },
        final(buf).len() == old(buf).len(),
{
    let new_len: u64 = CMSG_HDR_SIZE as u64 + len as u64;
    let hdr = read_header(buf.as_slice(), 0);
    if new_len < hdr.len {
        write_u64(buf, 0, new_len);
    }
}

/// Stores the ids `fds` one after another as the payload of the record at
/// the beginning of `buf`.
pub fn write_fds(buf: &mut Vec<u8>, fds: &[i32])
    requires
        CMSG_HDR_SIZE + FD_SIZE * fds.len() <= old(buf).len(),
    ensures
        final(buf)@ == overwrite(old(buf)@, CMSG_HDR_SIZE as int, fds_bytes(fds@)),
        final(buf).len() == old(buf).len(),
{
    let mut count: usize = 0;
    while count < fds.len()
        invariant
            0 <= count <= fds.len(),
            buf.len() == old(buf).len(),
            CMSG_HDR_SIZE + FD_SIZE * fds.len() <= buf.len(),
            buf@ == overwrite(
                old(buf)@,
                CMSG_HDR_SIZE as int,
                fds_bytes(fds@.take(count as int)),
            ),
        decreases fds.len() - count,
    {
        proof {
            lemma_i32_round_trip(fds[count as int]);
        }
        write_i32(buf, CMSG_HDR_SIZE + FD_SIZE * count, fds[count]);
        proof {
            let before = fds_bytes(fds@.take(count as int));
            let after = fds_bytes(fds@.take(count + 1));
            assert(after =~= before + i32_ne_bytes(fds[count as int]));
        }
        count = count + 1;
    }
}

/// Building a record in three steps gives the record: first the header
/// that declares the whole buffer `start`, then the ids, then the declared
/// length cut down to what was written.
pub proof fn lemma_record_built(
    p: Platform,
    start: Seq<u8>,
    fds: Seq<i32>,
    started: Seq<u8>,
    filled: Seq<u8>,
    shrunk: Seq<u8>,
)
    requires
        start.len() <= u64::MAX,
        CMSG_HDR_SIZE + FD_SIZE * fds.len() <= start.len(),
        started == overwrite(
            start,
            0,
            header_bytes(
                CMsgHdr { len: start.len() as u64, level: p.sol_socket, typ: p.scm_rights },
            ),
        ),
        filled == overwrite(started, CMSG_HDR_SIZE as int, fds_bytes(fds)),
        shrunk == if cmsg_len(FD_SIZE * fds.len()) < header_at(filled, 0).len {
            overwrite(filled, 0, u64_ne_bytes(cmsg_len(FD_SIZE * fds.len()) as u64))
        } else {
            filled
        },
    ensures
        header_at(filled, 0).len == start.len(),
        shrunk == overwrite(start, 0, rights_record(p, fds)),
{
    let whole = CMsgHdr { len: start.len() as u64, level: p.sol_socket, typ: p.scm_rights };
    let exact = rights_header(p, fds.len());
    let tail = start.skip(CMSG_HDR_SIZE + FD_SIZE * fds.len());
    lemma_header_round_trip(whole, fds_bytes(fds) + tail);
    lemma_u64_round_trip(whole.len);
    lemma_u64_round_trip(exact.len);
    lemma_i32_round_trip(p.sol_socket);
    lemma_i32_round_trip(p.scm_rights);
}

} // verus!
