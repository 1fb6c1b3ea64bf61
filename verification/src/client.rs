use vstd::prelude::*;

use crate::error::DiaError;
use crate::types::{MessageId, MESSAGE_ID_LEN};

verus! {

/// A proposal as a client multicasts it: the message id, then the
/// serialized payload.
pub open spec fn spec_proposal(msg_id: Seq<u8>, payload: Seq<u8>) -> Seq<u8> {
    msg_id + payload
}

/// Whether `id` has the fixed bits of a random (version 4, RFC 4122
/// variant) UUID.
pub open spec fn spec_is_random_id(id: MessageId) -> bool {
    &&& id@[6] & 0xf0u8 == 0x40u8
    &&& id@[8] & 0xc0u8 == 0x80u8
}

/// Calls `uuid::Uuid::new_v4` and hands back the id's bytes. The bytes are
/// random; the contract claims only the bits that `new_v4` fixes in every id
/// it makes (the version nibble in byte 6, the variant bits in byte 8).
/// `new_v4` panics when the operating system supplies no random bytes; the
/// contract cannot exclude that.
#[verifier::external_body]
fn new_random_id() -> (id: MessageId)
    ensures
        spec_is_random_id(id),
{
    uuid::Uuid::new_v4().into_bytes()
}

/// A random id is never the nil id (all zero bytes).
pub proof fn lemma_random_id_not_nil(id: MessageId)
    requires
        spec_is_random_id(id),
    ensures
        id@ != Seq::new(16, |i: int| 0u8),
{
    let b = id@[6];
    assert(b & 0xf0u8 == 0x40u8 ==> b != 0u8) by (bit_vector);
    assert(Seq::new(16, |i: int| 0u8)[6] == 0u8);
}

/// Builds the proposal for a serialized payload.
pub fn frame_proposal(msg_id: &MessageId, payload: &[u8]) -> (r: Vec<u8>)
    ensures
        r@ == spec_proposal(msg_id@, payload@),
{
    let mut proposal: Vec<u8> = Vec::new();
    let mut i: usize = 0;
    while i < MESSAGE_ID_LEN
        invariant
            i <= MESSAGE_ID_LEN,
            msg_id@.len() == MESSAGE_ID_LEN,
            proposal@ =~= msg_id@.subrange(0, i as int),
        decreases MESSAGE_ID_LEN - i,
    {
        proposal.push(msg_id[i]);
        i = i + 1;
    }
    let mut k: usize = 0;
    while k < payload.len()
        invariant
            k <= payload@.len(),
            proposal@ =~= msg_id@ + payload@.subrange(0, k as int),
        decreases payload@.len() - k,
    {
        proposal.push(payload[k]);
        k = k + 1;
    }
    proposal
}

/// Whether two message ids are the same.
pub fn same_message_id(a: &MessageId, b: &MessageId) -> (r: bool)
    ensures
        r == (*a == *b),
{
    let mut i: usize = 0;
    while i < MESSAGE_ID_LEN
        invariant
            i <= MESSAGE_ID_LEN,
            a@.len() == MESSAGE_ID_LEN,
            b@.len() == MESSAGE_ID_LEN,
            forall|j: int| 0 <= j < i ==> a@[j] == b@[j],
        decreases MESSAGE_ID_LEN - i,
    {
        if a[i] != b[i] {
            assert(a@[i as int] != b@[i as int]);
            return false;
        }
        i = i + 1;
    }
    assert(a@ =~= b@);
    proof {
        broadcast use vstd::array::group_array_axioms;
    }
    assert(*a == *b);
    true
}

/// What a client remembers between its sending half and its receiving
/// half: the id of the one message it has proposed and not yet seen
/// sequenced, if any.
pub struct ClientState {
    pending: Option<MessageId>,
}

/// The message in flight after a send is prepared: the freshly drawn id when
/// the payload was serialized (`drawn` is `Some`), otherwise whatever was in
/// flight before.
pub open spec fn spec_after_prepare(pending: Option<MessageId>, drawn: Option<MessageId>) -> Option<
    MessageId,
> {
    match drawn {
        Some(id) => Some(id),
        None => pending,
    }
}

/// The message in flight after a sequenced message with id `received` came
/// back: the message in flight is completed if it is that one, and kept
/// otherwise.
pub open spec fn spec_after_delivery(pending: Option<MessageId>, received: MessageId) -> Option<
    MessageId,
> {
    if pending == Some(received) {
        None
    } else {
        pending
    }
}

/// What the send waiting on the message in flight is told when the
/// receiving half stops with an error.
#[derive(Clone, Copy, Debug, PartialEq, Eq, Structural)]
pub enum PendingSendOutcome {
    /// The send fails with a network error of the same kind as the one that
    /// stopped the receiver.
    NetworkFailure,
    /// The send is dropped and ends with `ClientReceiverDropped`.
    ReceiverDropped,
}

/// The outcome the waiting send gets for the error that stopped the
/// receiving half.
pub open spec fn spec_pending_send_outcome(failure: DiaError) -> PendingSendOutcome {
    if failure is Network {
        PendingSendOutcome::NetworkFailure
    } else {
        PendingSendOutcome::ReceiverDropped
    }
}

/// The ways a send started with nothing in flight can end.
pub enum SendEnd {
    /// The payload could not be serialized.
    SerializationFailed,
    /// The proposal could not be multicast.
    NotSent,
    /// The client's own message came back sequenced.
    Sequenced,
    /// The receiving half failed while the message was in flight.
    ReceiverFailed,
}

/// The message in flight once a send that drew `id` has ended as `end`,
/// starting from `pending`, following the steps the send takes.
pub open spec fn spec_after_send(pending: Option<MessageId>, id: MessageId, end: SendEnd) -> Option<
    MessageId,
> {
    match end {
        SendEnd::SerializationFailed => spec_after_prepare(pending, None),
        // `abort_send` gives the message up.
        SendEnd::NotSent => None,
        SendEnd::Sequenced => spec_after_delivery(spec_after_prepare(pending, Some(id)), id),
        // `fail_pending` gives the message up.
        SendEnd::ReceiverFailed => None,
    }
}

impl ClientState {
    /// The message that has been proposed and not yet seen sequenced.
    pub closed spec fn spec_pending(&self) -> Option<MessageId> {
        self.pending
    }

    /// A client with nothing in flight.
    pub fn new() -> (s: ClientState)
        ensures
            s.spec_pending() is None,
    {
        ClientState { pending: None }
    }

    /// The message in flight, if any.
    pub fn pending(&self) -> (r: Option<MessageId>)
        ensures
            r == self.spec_pending(),
    {
        self.pending
    }

    /// Starts a send once the payload has been serialized. When
    /// serialization failed, its error is handed back and nothing changes, so
    /// the next send can go ahead. Otherwise a fresh random id is drawn, the
    /// message becomes the one in flight, and the proposal to multicast (the
    /// id, then the payload) is returned; that needs nothing in flight.
    pub fn prepare_send(&mut self, payload: Result<Vec<u8>, DiaError>) -> (r: Result<
        Vec<u8>,
        DiaError,
    >)
        requires
            payload is Ok ==> old(self).spec_pending() is None,
        ensures
            (match payload {
                Ok(p) => {
                    &&& final(self).spec_pending() matches Some(id)
                    &&& final(self).spec_pending() == spec_after_prepare(
                        old(self).spec_pending(),
                        Some(id),
                    )
                    &&& spec_is_random_id(id)
                    &&& r matches Ok(proposal)
                    &&& proposal@ == spec_proposal(id@, p@)
                },
                Err(e) => {
                    &&& r == Err::<Vec<u8>, DiaError>(e)
                    &&& final(self).spec_pending() == spec_after_prepare(
                        old(self).spec_pending(),
                        None,
                    )
                },
            }),
    {
        match payload {
            Ok(p) => {
                let msg_id = new_random_id();
                self.prepare_send_with_id(msg_id, Ok(p))
            },
            Err(e) => Err(e),
        }
    }

    /// Starts a send with the id `msg_id` once the payload has been
    /// serialized: the rest of [`ClientState::prepare_send`] after the id is
    /// drawn, for every value of the id. A serialization error is handed back
    /// and nothing changes; otherwise `msg_id` becomes the message in flight
    /// and the proposal is `msg_id` followed by the payload.
    pub fn prepare_send_with_id(&mut self, msg_id: MessageId, payload: Result<Vec<u8>, DiaError>) -> (r:
        Result<Vec<u8>, DiaError>)
        requires
            payload is Ok ==> old(self).spec_pending() is None,
        ensures
            (match payload {
                Ok(p) => {
                    &&& final(self).spec_pending() == Some(msg_id)
                    &&& r matches Ok(proposal)
                    &&& proposal@ == spec_proposal(msg_id@, p@)
                    &&& proposal@.subrange(0, MESSAGE_ID_LEN as int) == msg_id@
                },
                Err(e) => {
                    &&& r == Err::<Vec<u8>, DiaError>(e)
                    &&& final(self).spec_pending() == old(self).spec_pending()
                },
            }),
    {
        match payload {
            Ok(p) => {
                self.pending = Some(msg_id);
                let proposal = frame_proposal(&msg_id, p.as_slice());
                assert(msg_id@.len() == MESSAGE_ID_LEN);
                assert(proposal@.subrange(0, MESSAGE_ID_LEN as int) =~= msg_id@);
                Ok(proposal)
            },
            Err(e) => Err(e),
        }
    }

    /// Gives up the message in flight after the proposal could not be sent.
    pub fn abort_send(&mut self)
        ensures
            final(self).spec_pending() is None,
    {
        self.pending = None;
    }

    /// Records that a sequenced message came back. Returns whether it is the
    /// message in flight, which is then no longer pending; any other message
    /// leaves the state as it was.
    pub fn deliver(&mut self, msg_id: &MessageId) -> (completed: bool)
        ensures
            completed == (old(self).spec_pending() == Some(*msg_id)),
            completed ==> final(self).spec_pending() is None,
            !completed ==> final(self).spec_pending() == old(self).spec_pending(),
            final(self).spec_pending() == spec_after_delivery(old(self).spec_pending(), *msg_id),
    {
        match self.pending {
            Some(id) => {
                if same_message_id(&id, msg_id) {
                    self.pending = None;
                    true
                } else {
                    false
                }
            },
            None => false,
        }
    }

    /// Records that the receiving half stopped with `failure`: the message
    /// in flight, if any, will never be seen sequenced. Returns it together
    /// with what its waiting send is told (a network failure is passed on,
    /// any other failure drops the send), and leaves nothing pending.
    pub fn fail_pending(&mut self, failure: &DiaError) -> (r: Option<(MessageId, PendingSendOutcome)>)
        ensures
            r is Some <==> old(self).spec_pending() is Some,
            r matches Some((id, outcome)) ==> {
                &&& old(self).spec_pending() == Some(id)
                &&& (outcome == PendingSendOutcome::NetworkFailure <==> failure is Network)
                &&& (outcome == PendingSendOutcome::ReceiverDropped <==> !(failure is Network))
                &&& outcome == spec_pending_send_outcome(*failure)
            },
            final(self).spec_pending() is None,
    {
        let outcome = match failure {
            DiaError::Network(_) => PendingSendOutcome::NetworkFailure,
            _ => PendingSendOutcome::ReceiverDropped,
        };
        let r = match self.pending {
            Some(id) => Some((id, outcome)),
            None => None,
        };
        self.pending = None;
        r
    }
}

/// Delivering a sequenced message: the message in flight is completed
/// exactly when the delivered id is its own; a client with nothing in flight
/// stays idle whatever it receives, and a client waiting on its own message
/// keeps waiting when another message arrives. Delivery never puts a message
/// in flight.
pub proof fn lemma_delivery(pending: Option<MessageId>, received: MessageId)
    ensures
        pending is None ==> spec_after_delivery(pending, received) is None,
        spec_after_delivery(pending, received) is None <==> (pending is None || pending == Some(
            received,
        )),
        spec_after_delivery(pending, received) is Some ==> spec_after_delivery(pending, received)
            == pending,
        forall|id: MessageId| id != received ==> spec_after_delivery(Some(id), received) == Some(id),
        spec_after_delivery(Some(received), received) is None,
{
}

/// What a waiting send is told when the receiver stops: it fails with a
/// network error exactly when the receiver stopped on a network error; a
/// serialization error, a malformed packet or any other failure drops it.
pub proof fn lemma_pending_send_outcome(failure: DiaError)
    ensures
        spec_pending_send_outcome(failure) == PendingSendOutcome::NetworkFailure <==> failure is Network,
        spec_pending_send_outcome(failure) == PendingSendOutcome::ReceiverDropped <==> !(failure is Network),
{
}

/// A proposal names its message: the id can be read back from its first
/// bytes, so proposals with different ids differ, and the payload follows
/// the id unchanged.
pub proof fn lemma_proposal_carries_id(a: MessageId, b: MessageId, payload_a: Seq<u8>, payload_b: Seq<u8>)
    ensures
        spec_proposal(a@, payload_a).subrange(0, MESSAGE_ID_LEN as int) == a@,
        spec_proposal(a@, payload_a).subrange(MESSAGE_ID_LEN as int, spec_proposal(a@, payload_a).len() as int) == payload_a,
        spec_proposal(a@, payload_a) == spec_proposal(b@, payload_b) ==> a == b && payload_a == payload_b,
{
    assert(a@.len() == MESSAGE_ID_LEN && b@.len() == MESSAGE_ID_LEN);
    let pa = spec_proposal(a@, payload_a);
    let pb = spec_proposal(b@, payload_b);
    assert(pa.subrange(0, MESSAGE_ID_LEN as int) =~= a@);
    assert(pa.subrange(MESSAGE_ID_LEN as int, pa.len() as int) =~= payload_a);
    assert(pb.subrange(0, MESSAGE_ID_LEN as int) =~= b@);
    assert(pb.subrange(MESSAGE_ID_LEN as int, pb.len() as int) =~= payload_b);
    if pa == pb {
        assert(a@ =~= b@);
        broadcast use vstd::array::group_array_axioms;
        assert(a == b);
    }
}

/// However a send that started with nothing in flight ends (its payload
/// could not be serialized, its proposal could not be sent, its own message
/// came back sequenced, or the receiving half failed), nothing is in flight
/// afterwards, so the next send can start. Sequenced messages of other
/// clients that arrive meanwhile leave the message in flight as it is.
pub proof fn lemma_send_leaves_nothing_pending(id: MessageId, end: SendEnd, other: MessageId)
    ensures
        spec_after_send(None, id, end) is None,
        other != id ==> spec_after_delivery(Some(id), other) == Some(id),
{
}

} // verus!
