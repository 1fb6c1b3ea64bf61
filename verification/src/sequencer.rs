use vstd::prelude::*;

use crate::error::DiaError;
use crate::types::{spec_header_bytes, MessageId, SequencerHeader, ENCODED_HEADER_LEN, MESSAGE_ID_LEN};

verus! {

/// The bytes the sequencer multicasts for a proposal: a header carrying the
/// proposal's id, the given sequence number and timestamp, followed by the
/// proposal's payload (everything after the id).
pub open spec fn spec_stamped(seq_num: u64, timestamp_ns: u64, proposal: Seq<u8>) -> Seq<u8> {
    spec_header_bytes(proposal.subrange(0, MESSAGE_ID_LEN as int), seq_num, timestamp_ns)
        + proposal.subrange(MESSAGE_ID_LEN as int, proposal.len() as int)
}

/// The state the sequencer keeps between proposals: the number it gives to
/// the next one.
pub struct SequencerState {
    seq_num: u64,
    header_len: usize,
}

impl SequencerState {
    #[verifier::type_invariant]
    spec fn inv(self) -> bool {
        self.header_len == ENCODED_HEADER_LEN
    }

    /// The sequence number the next stamped proposal receives.
    pub closed spec fn spec_next_seq_num(&self) -> u64 {
        self.seq_num
    }

    /// A sequencer that has stamped nothing yet.
    pub fn new() -> (r: Result<SequencerState, DiaError>)
        ensures
            r matches Ok(s) && s.spec_next_seq_num() == 0,
    {
        match SequencerHeader::encoded_len() {
            Ok(header_len) => Ok(SequencerState { seq_num: 0, header_len }),
            Err(e) => Err(e),
        }
    }

    /// The sequence number the next stamped proposal receives.
    pub fn next_seq_num(&self) -> (n: u64)
        ensures
            n == self.spec_next_seq_num(),
    {
        self.seq_num
    }

    /// Stamps one proposal: checks that it holds a message id, gives it the
    /// next sequence number and the timestamp, and returns the packet to
    /// multicast. A proposal too short to hold an id is refused and the
    /// numbering is left as it was.
    pub fn stamp(&mut self, proposal: &[u8], timestamp_ns: u64) -> (r: Result<Vec<u8>, DiaError>)
        requires
            proposal@.len() >= MESSAGE_ID_LEN ==> old(self).spec_next_seq_num() < u64::MAX,
        ensures
            proposal@.len() < MESSAGE_ID_LEN ==> {
                &&& r matches Err(DiaError::MalformedPacket { expected, actual })
                &&& expected == MESSAGE_ID_LEN && actual == proposal@.len()
                &&& final(self).spec_next_seq_num() == old(self).spec_next_seq_num()
            },
            proposal@.len() >= MESSAGE_ID_LEN ==> {
                &&& r matches Ok(packet)
                &&& packet@ == spec_stamped(old(self).spec_next_seq_num(), timestamp_ns, proposal@)
                &&& final(self).spec_next_seq_num() == old(self).spec_next_seq_num() + 1
            },
    {
        proof {
            use_type_invariant(&*self);
        }
        if proposal.len() < MESSAGE_ID_LEN {
            return Err(DiaError::MalformedPacket { expected: MESSAGE_ID_LEN, actual: proposal.len() });
        }
        let mut msg_id: MessageId = [0u8; 16];
        let mut i: usize = 0;
        while i < MESSAGE_ID_LEN
            invariant
                i <= MESSAGE_ID_LEN <= proposal@.len(),
                msg_id@.len() == MESSAGE_ID_LEN,
                forall|j: int| 0 <= j < i ==> msg_id@[j] == proposal@[j],
            decreases MESSAGE_ID_LEN - i,
        {
            msg_id[i] = proposal[i];
            i = i + 1;
        }
        assert(msg_id@ =~= proposal@.subrange(0, MESSAGE_ID_LEN as int));
        let header = SequencerHeader { msg_id, seq_num: self.seq_num, timestamp_ns };
        self.seq_num = self.seq_num + 1;
        let header_bytes = match header.to_bytes() {
            Ok(bytes) => bytes,
            Err(e) => return Err(e),
        };
        let mut stamped: Vec<u8> = Vec::with_capacity(self.header_len);
        let mut k: usize = 0;
        while k < header_bytes.len()
            invariant
                k <= header_bytes@.len(),
                stamped@ =~= header_bytes@.subrange(0, k as int),
            decreases header_bytes@.len() - k,
        {
            stamped.push(header_bytes[k]);
            k = k + 1;
        }
        let mut k: usize = MESSAGE_ID_LEN;
        while k < proposal.len()
            invariant
                MESSAGE_ID_LEN <= k <= proposal@.len(),
                stamped@ =~= header_bytes@ + proposal@.subrange(MESSAGE_ID_LEN as int, k as int),
            decreases proposal@.len() - k,
        {
            stamped.push(proposal[k]);
            k = k + 1;
        }
        Ok(stamped)
    }
}

} // verus!
