use vstd::bytes::{spec_u64_from_le_bytes, spec_u64_to_le_bytes};
use vstd::prelude::*;

use crate::error::DiaError;

verus! {

/// The identifier a client gives to each message it proposes: the 16 bytes
/// of a UUID.
pub type MessageId = [u8; 16];

/// Length of the message id that starts every proposal.
pub const MESSAGE_ID_LEN: usize = 16;

/// Length of an encoded [`SequencerHeader`]: a 64-bit length prefix and the
/// 16 id bytes, then the sequence number and the timestamp, 64 bits each.
pub const ENCODED_HEADER_LEN: usize = 40;

/// A payload together with the header the sequencer stamped on it.
pub struct SequencedMessage<Message> {
    pub header: SequencerHeader,
    pub payload: Message,
}

/// What the sequencer puts in front of every payload it multicasts.
#[derive(Clone, Copy, Debug)]
pub struct SequencerHeader {
    pub msg_id: MessageId,
    pub seq_num: u64,
    pub timestamp_ns: u64,
}

/// The bytes of a header as bincode writes them with its default fixed-width
/// little-endian encoding: the id as a length-prefixed byte string, then the
/// two integers.
pub open spec fn spec_header_bytes(msg_id: Seq<u8>, seq_num: u64, timestamp_ns: u64) -> Seq<u8> {
    spec_u64_to_le_bytes(MESSAGE_ID_LEN as u64) + msg_id + spec_u64_to_le_bytes(seq_num)
        + spec_u64_to_le_bytes(timestamp_ns)
}

/// The encoding of a header value.
pub open spec fn spec_encode_header(header: SequencerHeader) -> Seq<u8> {
    spec_header_bytes(header.msg_id@, header.seq_num, header.timestamp_ns)
}

/// Whether `bytes` starts with something that decodes as a header: enough
/// bytes, and a length prefix that announces exactly the 16 bytes of an id.
pub open spec fn spec_header_well_formed(bytes: Seq<u8>) -> bool {
    &&& bytes.len() >= ENCODED_HEADER_LEN
    &&& spec_u64_from_le_bytes(bytes.subrange(0, 8)) == MESSAGE_ID_LEN as u64
}

/// Whether `header` holds the fields that a well-formed `bytes` encodes.
pub open spec fn spec_header_decodes_to(bytes: Seq<u8>, header: SequencerHeader) -> bool {
    &&& header.msg_id@ == bytes.subrange(8, 24)
    &&& header.seq_num == spec_u64_from_le_bytes(bytes.subrange(24, 32))
    &&& header.timestamp_ns == spec_u64_from_le_bytes(bytes.subrange(32, 40))
}

/// Calls `bincode::serialized_size` on the header's fields, the id taken as a
/// `uuid::Uuid`. A tuple goes through serde exactly as the fields of a struct
/// do, so this is the size of the header. With bincode's default options
/// there is no size limit, `Uuid` serializes as a byte string (8 bytes of
/// length and 16 of data) and each `u64` takes 8 bytes, so the contract
/// claims `Ok(40)` whatever the field values.
#[verifier::external_body]
fn bincode_header_size(msg_id: MessageId, seq_num: u64, timestamp_ns: u64) -> (r: Result<
    u64,
    bincode::Error,
>)
    ensures
        r is Ok,
        r matches Ok(n) ==> n == ENCODED_HEADER_LEN as u64,
{
    bincode::serialized_size(&(uuid::Uuid::from_bytes(msg_id), seq_num, timestamp_ns))
}

/// Calls `bincode::serialize` on the header's fields, the id taken as a
/// `uuid::Uuid`. The contract claims the bytes that bincode's default
/// encoding writes (see `spec_header_bytes`) and that no error occurs: the
/// size check has no limit and the writer is a `Vec`.
#[verifier::external_body]
fn bincode_header_bytes(msg_id: MessageId, seq_num: u64, timestamp_ns: u64) -> (r: Result<
    Vec<u8>,
    bincode::Error,
>)
    ensures
        r is Ok,
        r matches Ok(v) ==> v@ == spec_header_bytes(msg_id@, seq_num, timestamp_ns),
{
    bincode::serialize(&(uuid::Uuid::from_bytes(msg_id), seq_num, timestamp_ns))
}

/// Calls `bincode::deserialize` for the header's fields, the id read as a
/// `uuid::Uuid` and handed back as its bytes. The contract claims what the
/// sources of bincode and uuid show: the call succeeds exactly when the
/// input is long enough and its length prefix is 16 (uuid refuses any other
/// length, bincode any input that ends early), trailing bytes are ignored,
/// and the fields are read from their fixed places.
#[verifier::external_body]
fn bincode_header_fields(bytes: &[u8]) -> (r: Result<(MessageId, u64, u64), bincode::Error>)
    ensures
        r is Ok <==> spec_header_well_formed(bytes@),
        r matches Ok(fields) ==> spec_header_decodes_to(
            bytes@,
            SequencerHeader { msg_id: fields.0, seq_num: fields.1, timestamp_ns: fields.2 },
        ),
{
    match bincode::deserialize::<(uuid::Uuid, u64, u64)>(bytes) {
        Ok((id, seq_num, timestamp_ns)) => Ok((id.into_bytes(), seq_num, timestamp_ns)),
        Err(e) => Err(e),
    }
}

impl SequencerHeader {
    /// The length of every encoded header, as bincode reports it for the
    /// header with a nil id and zero numbers.
    pub fn encoded_len() -> (r: Result<usize, DiaError>)
        ensures
            r matches Ok(n) && n == ENCODED_HEADER_LEN,
    {
        match bincode_header_size([0u8; 16], 0, 0) {
            Ok(n) => Ok(n as usize),
            Err(e) => Err(DiaError::Serialization(e)),
        }
    }

    /// Serializes the header.
    pub fn to_bytes(&self) -> (r: Result<Vec<u8>, DiaError>)
        ensures
            r matches Ok(v) && v@ == spec_encode_header(*self),
    {
        match bincode_header_bytes(self.msg_id, self.seq_num, self.timestamp_ns) {
            Ok(v) => Ok(v),
            Err(e) => Err(DiaError::Serialization(e)),
        }
    }

    /// Parses a header from the start of `bytes`.
    pub fn from_bytes(bytes: &[u8]) -> (r: Result<SequencerHeader, DiaError>)
        ensures
            r is Ok <==> spec_header_well_formed(bytes@),
            r matches Ok(h) ==> spec_header_decodes_to(bytes@, h),
            r matches Err(e) ==> e is Serialization,
    {
        match bincode_header_fields(bytes) {
            Ok((msg_id, seq_num, timestamp_ns)) => Ok(SequencerHeader { msg_id, seq_num, timestamp_ns }),
            Err(e) => Err(DiaError::Serialization(e)),
        }
    }
}

} // verus!
