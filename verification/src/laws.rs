//! Properties of the protocol that span the client, the sequencer and the
//! receivers.
use vstd::bytes::{lemma_auto_spec_u64_to_from_le_bytes, spec_u64_from_le_bytes, spec_u64_to_le_bytes};
use vstd::prelude::*;

use crate::client::spec_proposal;
use crate::sequencer::spec_stamped;
use crate::types::{
    spec_encode_header, spec_header_decodes_to, spec_header_well_formed, MessageId,
    SequencerHeader, ENCODED_HEADER_LEN, MESSAGE_ID_LEN,
};

verus! {

/// The packets the sequencer multicasts when it stamps `proposals` one after
/// the other, starting from sequence number `first`, the `i`-th at
/// `timestamps[i]`.
pub open spec fn spec_sequence(first: u64, timestamps: Seq<u64>, proposals: Seq<Seq<u8>>) -> Seq<
    Seq<u8>,
>
    decreases proposals.len(),
{
    if proposals.len() == 0 {
        Seq::empty()
    } else {
        seq![spec_stamped(first, timestamps[0], proposals[0])] + spec_sequence(
            (first + 1) as u64,
            timestamps.drop_first(),
            proposals.drop_first(),
        )
    }
}

/// Every encoded header is exactly as long as `SequencerHeader::encoded_len`
/// reports, and decodes back to the header it encodes.
pub proof fn lemma_header_round_trip(header: SequencerHeader)
    ensures
        spec_encode_header(header).len() == ENCODED_HEADER_LEN,
        spec_header_well_formed(spec_encode_header(header)),
        spec_header_decodes_to(spec_encode_header(header), header),
{
    lemma_auto_spec_u64_to_from_le_bytes();
    let l = spec_u64_to_le_bytes(MESSAGE_ID_LEN as u64);
    let s = spec_u64_to_le_bytes(header.seq_num);
    let t = spec_u64_to_le_bytes(header.timestamp_ns);
    let bytes = spec_encode_header(header);
    assert(l.len() == 8 && s.len() == 8 && t.len() == 8);
    assert(header.msg_id@.len() == MESSAGE_ID_LEN);
    assert(bytes =~= l + header.msg_id@ + s + t);
    assert(bytes.subrange(0, 8) =~= l);
    assert(bytes.subrange(8, 24) =~= header.msg_id@);
    assert(bytes.subrange(24, 32) =~= s);
    assert(bytes.subrange(32, 40) =~= t);
}

/// A stamped proposal starts with a well-formed header that carries the
/// proposal's id, the sequence number and the timestamp, and continues
/// with the proposal's payload.
pub proof fn lemma_stamped_decodes(seq_num: u64, timestamp_ns: u64, proposal: Seq<u8>)
    requires
        proposal.len() >= MESSAGE_ID_LEN,
    ensures
        ({
            let packet = spec_stamped(seq_num, timestamp_ns, proposal);
            &&& spec_header_well_formed(packet)
            &&& spec_u64_from_le_bytes(packet.subrange(24, 32)) == seq_num
            &&& forall|h: SequencerHeader|
                h.msg_id@ == proposal.subrange(0, MESSAGE_ID_LEN as int) && h.seq_num == seq_num
                    && h.timestamp_ns == timestamp_ns ==> #[trigger] spec_header_decodes_to(
                    packet,
                    h,
                )
            &&& packet.subrange(ENCODED_HEADER_LEN as int, packet.len() as int) == proposal.subrange(
                MESSAGE_ID_LEN as int,
                proposal.len() as int,
            )
        }),
{
    lemma_auto_spec_u64_to_from_le_bytes();
    let id = proposal.subrange(0, MESSAGE_ID_LEN as int);
    let rest = proposal.subrange(MESSAGE_ID_LEN as int, proposal.len() as int);
    let l = spec_u64_to_le_bytes(MESSAGE_ID_LEN as u64);
    let s = spec_u64_to_le_bytes(seq_num);
    let t = spec_u64_to_le_bytes(timestamp_ns);
    let packet = spec_stamped(seq_num, timestamp_ns, proposal);
    assert(l.len() == 8 && s.len() == 8 && t.len() == 8);
    assert(packet =~= l + id + s + t + rest);
    assert(packet.subrange(0, 8) =~= l);
    assert(packet.subrange(8, 24) =~= id);
    assert(packet.subrange(24, 32) =~= s);
    assert(packet.subrange(32, 40) =~= t);
    assert(packet.subrange(40, packet.len() as int) =~= rest);
}

/// Round trip: whatever a client proposes comes back to every receiver
/// whole. The packet the sequencer stamps on a client's proposal decodes to
/// the client's message id and payload, with the sequence number and
/// timestamp the sequencer gave it.
pub proof fn lemma_round_trip(msg_id: MessageId, payload: Seq<u8>, seq_num: u64, timestamp_ns: u64)
    ensures
        ({
            let packet = spec_stamped(seq_num, timestamp_ns, spec_proposal(msg_id@, payload));
            &&& packet.len() >= ENCODED_HEADER_LEN
            &&& spec_header_well_formed(packet)
            &&& spec_header_decodes_to(
                packet,
                SequencerHeader { msg_id, seq_num, timestamp_ns },
            )
            &&& packet.subrange(ENCODED_HEADER_LEN as int, packet.len() as int) == payload
        }),
{
    let proposal = spec_proposal(msg_id@, payload);
    assert(msg_id@.len() == MESSAGE_ID_LEN);
    assert(proposal.subrange(0, MESSAGE_ID_LEN as int) =~= msg_id@);
    assert(proposal.subrange(MESSAGE_ID_LEN as int, proposal.len() as int) =~= payload);
    lemma_stamped_decodes(seq_num, timestamp_ns, proposal);
    let h = SequencerHeader { msg_id, seq_num, timestamp_ns };
    assert(spec_header_decodes_to(spec_stamped(seq_num, timestamp_ns, proposal), h));
}

/// One global order: stamping a stream of proposals, the sequencer emits
/// exactly one packet per proposal, in the order the proposals arrived, and
/// numbers them consecutively from its starting number. Every receiver
/// decodes the `i`-th packet to the `i`-th proposal's id and payload, with
/// sequence number `first + i`.
pub proof fn lemma_sequence_order(first: u64, timestamps: Seq<u64>, proposals: Seq<Seq<u8>>)
    requires
        timestamps.len() == proposals.len(),
        first + proposals.len() <= u64::MAX,
        forall|i: int| 0 <= i < proposals.len() ==> #[trigger] proposals[i].len() >= MESSAGE_ID_LEN,
    ensures
        spec_sequence(first, timestamps, proposals).len() == proposals.len(),
        forall|i: int|
            #![trigger spec_sequence(first, timestamps, proposals)[i]]
            0 <= i < proposals.len() ==> {
                let packet = spec_sequence(first, timestamps, proposals)[i];
                &&& spec_header_well_formed(packet)
                &&& forall|h: SequencerHeader|
                    h.msg_id@ == proposals[i].subrange(0, MESSAGE_ID_LEN as int) && h.seq_num == first
                        + i && h.timestamp_ns == timestamps[i] ==> #[trigger] spec_header_decodes_to(
                        packet,
                        h,
                    )
                &&& packet.subrange(ENCODED_HEADER_LEN as int, packet.len() as int)
                    == proposals[i].subrange(MESSAGE_ID_LEN as int, proposals[i].len() as int)
            },
    decreases proposals.len(),
{
    if proposals.len() > 0 {
        let rest_t = timestamps.drop_first();
        let rest_p = proposals.drop_first();
        assert forall|i: int| 0 <= i < rest_p.len() implies #[trigger] rest_p[i].len()
            >= MESSAGE_ID_LEN by {
            assert(rest_p[i] == proposals[i + 1]);
        }
        lemma_sequence_order((first + 1) as u64, rest_t, rest_p);
        lemma_stamped_decodes(first, timestamps[0], proposals[0]);
        let out = spec_sequence(first, timestamps, proposals);
        let tail = spec_sequence((first + 1) as u64, rest_t, rest_p);
        assert(out == seq![spec_stamped(first, timestamps[0], proposals[0])] + tail);
        assert forall|i: int| 0 <= i < proposals.len() implies {
            let packet = #[trigger] out[i];
            &&& spec_header_well_formed(packet)
            &&& forall|h: SequencerHeader|
                h.msg_id@ == proposals[i].subrange(0, MESSAGE_ID_LEN as int) && h.seq_num == first
                    + i && h.timestamp_ns == timestamps[i] ==> #[trigger] spec_header_decodes_to(
                    packet,
                    h,
                )
            &&& packet.subrange(ENCODED_HEADER_LEN as int, packet.len() as int)
                == proposals[i].subrange(MESSAGE_ID_LEN as int, proposals[i].len() as int)
        } by {
            if i > 0 {
                assert(out[i] == tail[i - 1]);
                assert(rest_p[i - 1] == proposals[i]);
                assert(rest_t[i - 1] == timestamps[i]);
            }
        }
    }
}

/// The `i`-th packet of a stamped stream is the `i`-th proposal stamped
/// with number `first + i`.
pub proof fn lemma_sequence_index(first: u64, timestamps: Seq<u64>, proposals: Seq<Seq<u8>>, i: int)
    requires
        timestamps.len() == proposals.len(),
        first + proposals.len() <= u64::MAX,
        0 <= i < proposals.len(),
    ensures
        spec_sequence(first, timestamps, proposals).len() == proposals.len(),
        spec_sequence(first, timestamps, proposals)[i] == spec_stamped(
            (first + i) as u64,
            timestamps[i],
            proposals[i],
        ),
    decreases proposals.len(),
{
    let rest_t = timestamps.drop_first();
    let rest_p = proposals.drop_first();
    let out = spec_sequence(first, timestamps, proposals);
    let tail = spec_sequence((first + 1) as u64, rest_t, rest_p);
    assert(out == seq![spec_stamped(first, timestamps[0], proposals[0])] + tail);
    if i > 0 {
        lemma_sequence_index((first + 1) as u64, rest_t, rest_p, i - 1);
        assert(out[i] == tail[i - 1]);
        assert(rest_p[i - 1] == proposals[i]);
        assert(rest_t[i - 1] == timestamps[i]);
    } else {
        if rest_p.len() > 0 {
            lemma_sequence_index((first + 1) as u64, rest_t, rest_p, 0);
        } else {
            assert(tail.len() == 0);
        }
    }
}

/// Order by number: every receiver that decodes two packets of the stream
/// finds the earlier packet carrying the smaller sequence number, so
/// receivers that order messages by number all agree with the order in
/// which the sequencer read the proposals. This is also what keeps one
/// client's messages in order: a client proposes its next message only
/// after its previous one came back sequenced (`prepare_send` admits no
/// second message in flight, and only `deliver` of its own id completes
/// it), so the next message enters the stream later (`i < j`) and gets the
/// larger number.
pub proof fn lemma_stream_numbers_increase(
    first: u64,
    timestamps: Seq<u64>,
    proposals: Seq<Seq<u8>>,
    i: int,
    j: int,
)
    requires
        timestamps.len() == proposals.len(),
        first + proposals.len() <= u64::MAX,
        forall|k: int| 0 <= k < proposals.len() ==> #[trigger] proposals[k].len() >= MESSAGE_ID_LEN,
        0 <= i < j < proposals.len(),
    ensures
        forall|hi: SequencerHeader, hj: SequencerHeader|
            spec_header_decodes_to(spec_sequence(first, timestamps, proposals)[i], hi)
                && spec_header_decodes_to(spec_sequence(first, timestamps, proposals)[j], hj)
                ==> hi.seq_num == first + i && hj.seq_num == first + j && hi.seq_num < hj.seq_num,
{
    lemma_sequence_index(first, timestamps, proposals, i);
    lemma_sequence_index(first, timestamps, proposals, j);
    assert(proposals[i].len() >= MESSAGE_ID_LEN);
    assert(proposals[j].len() >= MESSAGE_ID_LEN);
    lemma_stamped_decodes((first + i) as u64, timestamps[i], proposals[i]);
    lemma_stamped_decodes((first + j) as u64, timestamps[j], proposals[j]);
}

} // verus!
