use vstd::prelude::*;

verus! {

/// The error type of serialization: `bincode::Error` is `Box<bincode::ErrorKind>`.
#[verifier::external_type_specification]
#[verifier::external_body]
pub struct ExBincodeErrorKind(bincode::ErrorKind);

/// Errors of the underlying datagram transport.
#[verifier::external_type_specification]
#[verifier::external_body]
pub struct ExIoError(std::io::Error);

/// Everything that can go wrong while sending, sequencing or receiving.
#[derive(Debug)]
pub enum DiaError {
    /// A value could not be serialized or a packet could not be parsed.
    Serialization(bincode::Error),
    /// The datagram transport failed.
    Network(std::io::Error),
    /// A packet was shorter than the part of it that must be present.
    MalformedPacket { expected: usize, actual: usize },
    /// The receiving half of a client went away while a send waited on it.
    ClientReceiverDropped,
}

} // verus!
