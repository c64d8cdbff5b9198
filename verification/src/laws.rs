//! What holds of the library as a whole.

use crate::cmsg::{
    chain_fds, cmsg_align, cmsg_len, fds_after, fds_bytes, fds_from, fds_space, header_at, is_rights_record,
    lemma_header_round_trip, next_record, payload_len, region_fds, rights_header, rights_record,
    CMSG_HDR_SIZE, FD_SIZE,
};
use crate::msghdr::{encode_fits, encoded, MsgHdrRecvEndView, MsgHdrView, SendStart};
use crate::native::{i32_ne_bytes, lemma_i32_round_trip};
use crate::platform::Platform;
use vstd::prelude::*;

verus! {

/// Reading back the ids `fds` from where their bytes are stored gives `fds`.
pub proof fn lemma_fds_round_trip(region: Seq<u8>, at: int, fds: Seq<i32>)
    requires
        0 <= at,
        at + FD_SIZE * fds.len() <= region.len(),
        region.subrange(at, at + FD_SIZE * fds.len()) == fds_bytes(fds),
    ensures
        fds_from(region, at, fds.len()) == fds,
{
    let stored = region.subrange(at, at + FD_SIZE * fds.len());
    assert forall|i: int| 0 <= i < fds.len() implies fds_from(region, at, fds.len())[i]
        == fds[i] by {
        lemma_i32_round_trip(fds[i]);
        let here = region.skip(at + FD_SIZE * i).take(4);
        assert forall|j: int| 0 <= j < 4 implies here[j] == i32_ne_bytes(fds[i])[j] by {
            assert(here[j] == stored[FD_SIZE * i + j]);
        }
    }
}

proof fn lemma_rights_record_first(p: Platform, region: Seq<u8>, fds: Seq<i32>)
    requires
        cmsg_len(FD_SIZE * fds.len()) <= u64::MAX,
        cmsg_len(FD_SIZE * fds.len()) <= region.len(),
        region.take(cmsg_len(FD_SIZE * fds.len())) == rights_record(p, fds),
    ensures
        header_at(region, 0) == rights_header(p, fds.len()),
        region.subrange(CMSG_HDR_SIZE as int, cmsg_len(FD_SIZE * fds.len())) == fds_bytes(fds),
{
    let size = cmsg_len(FD_SIZE * fds.len());
    let hdr = rights_header(p, fds.len());
    let rest = fds_bytes(fds) + region.skip(size);
    lemma_header_round_trip(hdr, rest);
    assert(region =~= region.take(size) + region.skip(size));
}

proof fn lemma_single_record(p: Platform, region: Seq<u8>, count: nat)
    requires
        cmsg_len(FD_SIZE * count) <= u64::MAX,
        cmsg_len(FD_SIZE * count) <= region.len() <= fds_space(count as int),
        header_at(region, 0) == rights_header(p, count),
    ensures
        payload_len(region, 0) == FD_SIZE * count,
        is_rights_record(p, region, 0),
        next_record(region, 0) is None,
{
}

/// A region that holds the record passing `fds` and ends before a second
/// record could start carries exactly `fds`.
pub proof fn lemma_rights_record_fds(p: Platform, region: Seq<u8>, fds: Seq<i32>)
    requires
        cmsg_len(FD_SIZE * fds.len()) <= u64::MAX,
        cmsg_len(FD_SIZE * fds.len()) <= region.len() <= fds_space(fds.len() as int),
        region.take(cmsg_len(FD_SIZE * fds.len())) == rights_record(p, fds),
    ensures
        region_fds(p, region) == fds,
{
    lemma_rights_record_first(p, region, fds);
    lemma_fds_round_trip(region, CMSG_HDR_SIZE as int, fds);
    lemma_single_record(p, region, fds.len());
}

/// Round trip. Where the control buffer has the room that
/// `cmsg_buffer_fds_space` asks for, encoding the descriptors `fds` succeeds.
/// The kernel hands the receiver the ancillary region that the sender's
/// header holds, with the receiver's own id in the place of each id sent. A
/// receiver that goes by the same platform numbers then owns exactly these
/// ids `received`, as many as were sent and in their order.
pub proof fn law_round_trip(
    start: MsgHdrView<SendStart>,
    fds: Seq<i32>,
    received: Seq<i32>,
    end: MsgHdrRecvEndView,
)
    requires
        fds_space(fds.len() as int) <= start.control.len() <= usize::MAX,
        received.len() == fds.len(),
        end.platform == start.platform,
        end.region() == encoded(start, received).region(),
        !end.fds_taken,
    ensures
        encode_fits(start.control.len() as int, fds.len() as int),
        end.owned_fds() == received,
        end.owned_fds().len() == fds.len(),
{
    if received.len() > 0 {
        let region = end.region();
        let size = cmsg_len(FD_SIZE * received.len());
        lemma_header_round_trip(rights_header(start.platform, received.len()), Seq::empty());
        assert(region.take(size) =~= rights_record(start.platform, received));
        lemma_rights_record_fds(start.platform, region, received);
    }
}

/// Buffer too small. A control buffer of the size that
/// `cmsg_buffer_fds_space` gives for `sized_for` descriptors has room for
/// `count` descriptors exactly if their ids fit where those of `sized_for`
/// and the padding after them would lie. So it takes `sized_for`
/// descriptors, and never more than one above that.
pub proof fn law_buffer_too_small(sized_for: nat, count: nat)
    ensures
        encode_fits(fds_space(sized_for as int), count as int) <==> FD_SIZE * count <= cmsg_align(
            FD_SIZE * sized_for,
        ),
        encode_fits(fds_space(sized_for as int), sized_for as int),
        count > sized_for + 1 ==> !encode_fits(fds_space(sized_for as int), count as int),
{
}

/// One-shot extraction. Once the descriptors of a received header have been
/// asked for, the header owns none: every later call of `take_fds` returns a
/// sequence that owns nothing, whether or not the first was drained.
pub proof fn law_take_fds_once(end: MsgHdrRecvEndView)
    ensures
        end.taken().owned_fds() == Seq::<i32>::empty(),
        end.taken().taken() == end.taken(),
{
}

/// No leak on cleanup. A received header whose descriptors were never asked
/// for owns every descriptor that its ancillary region carries, so that
/// `disown` returns all of them to be closed.
pub proof fn law_untaken_owns_all(end: MsgHdrRecvEndView)
    requires
        !end.fds_taken,
    ensures
        end.owned_fds() == region_fds(end.platform, end.region()),
{
}

/// What is left of `all` after `k` descriptors were handed out one by one.
pub open spec fn after_handing_out(all: Seq<i32>, k: nat) -> Seq<i32>
    decreases k,
{
    if k == 0 {
        all
    } else {
        after_handing_out(all, (k - 1) as nat).skip(1)
    }
}

/// No double close on partial consumption. After `k` of the descriptors
/// `all` were handed out, `disown` returns the other `all.len() - k`, each
/// once: those handed out and those returned make up `all`, position by
/// position, so that none handed out is among those to close.
pub proof fn law_partial_consumption(all: Seq<i32>, k: nat)
    requires
        k <= all.len(),
    ensures
        after_handing_out(all, k) == all.skip(k as int),
        after_handing_out(all, k).len() == all.len() - k,
        all.take(k as int) + after_handing_out(all, k) == all,
    decreases k,
{
    if k > 0 {
        law_partial_consumption(all, (k - 1) as nat);
    }
}

/// Mixed chains. A record that does not pass descriptors adds nothing to
/// what a region carries and does not end the walk: the records after it
/// count as if it were not there.
pub proof fn law_other_records_skipped(p: Platform, region: Seq<u8>, cur: int)
    requires
        0 <= cur,
        cur + CMSG_HDR_SIZE <= region.len(),
        !is_rights_record(p, region, cur),
    ensures
        chain_fds(p, region, cur) == fds_after(p, region, cur),
{
}

} // verus!
