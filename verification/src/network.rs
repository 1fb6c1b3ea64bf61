use std::future::Future;

use vstd::prelude::*;
use vstd::slice::slice_to_vec;

use crate::error::DiaError;
use crate::types::{
    spec_header_decodes_to, spec_header_well_formed, SequencedMessage, SequencerHeader,
    ENCODED_HEADER_LEN,
};

verus! {

/// An outbound datagram endpoint. Implement this in tests to inject faults.
pub trait DatagramSender: Send + Sync {
    /// A send in progress; it yields the number of bytes sent.
    type Sending: Future<Output = std::io::Result<usize>> + Send;

    /// Starts sending one datagram.
    fn send(&self, packet: Vec<u8>) -> Self::Sending;
}

/// The largest datagram a receiver reads.
pub const MAX_DATAGRAM_SIZE: usize = 65_535;

/// Parses a packet that the sequencer multicast: the header, then the
/// payload bytes, left for the caller to deserialize.
///
/// A packet shorter than a header is malformed; a packet whose first
/// bytes do not decode as a header is a serialization error.
pub fn decode_consensus_message(packet: &[u8]) -> (r: Result<SequencedMessage<Vec<u8>>, DiaError>)
    ensures
        packet@.len() < ENCODED_HEADER_LEN ==> {
            &&& r matches Err(DiaError::MalformedPacket { expected, actual })
            &&& expected == ENCODED_HEADER_LEN && actual == packet@.len()
        },
        packet@.len() >= ENCODED_HEADER_LEN ==> (r is Ok <==> spec_header_well_formed(packet@)),
        packet@.len() >= ENCODED_HEADER_LEN && !spec_header_well_formed(packet@) ==> (r matches Err(
            e,
        ) && e is Serialization),
        r matches Ok(m) ==> {
            &&& spec_header_decodes_to(packet@, m.header)
            &&& m.payload@ == packet@.subrange(ENCODED_HEADER_LEN as int, packet@.len() as int)
        },
{
    let header_len = match SequencerHeader::encoded_len() {
        Ok(n) => n,
        Err(e) => return Err(e),
    };
    if packet.len() < header_len {
        return Err(DiaError::MalformedPacket { expected: header_len, actual: packet.len() });
    }
    let (header_bytes, payload) = packet.split_at(header_len);
    assert(header_bytes@.subrange(0, 8) =~= packet@.subrange(0, 8));
    assert(header_bytes@.subrange(8, 24) =~= packet@.subrange(8, 24));
    assert(header_bytes@.subrange(24, 32) =~= packet@.subrange(24, 32));
    assert(header_bytes@.subrange(32, 40) =~= packet@.subrange(32, 40));
    let header = match SequencerHeader::from_bytes(header_bytes) {
        Ok(h) => h,
        Err(e) => return Err(e),
    };
    Ok(SequencedMessage { header, payload: slice_to_vec(payload) })
}

} // verus!
