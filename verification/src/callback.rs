//! Callback guard and envelope codec.
//!
//! The guard is a persistent outstanding-callback counter plus a per-slot
//! idempotency latch. All of its state lives in the actor's private durable
//! key-value store; the guard never owns that store. Every operation takes
//! the two storage cells it uses ([`CbStorage`]) as an explicit parameter,
//! and the caller is responsible for loading them from, and persisting them
//! back to, the durable store under the actor's fixed keys
//! (`__kujira_expecting_callback` for the counter, `__kujira_check_message`
//! for the latch slot). Each operation runs inside one atomic invocation of
//! the actor; the host serializes invocations, so no locking is done here.
//!
//! A known, accepted limitation: there is no way to give up on an outbound
//! request, so a request whose reply never arrives leaves the counter
//! permanently incremented.

use vstd::prelude::*;

use crate::Coin;

verus! {

/// What an envelope carries: the pre-serialized application payload and the
/// pre-serialized correlation bytes, both opaque to this crate. Payload and
/// correlation travel pre-serialized and are only decoded on demand, so any
/// number of distinct request shapes can share the same envelope; the
/// receiver chooses what to decode each side into at the moment of handling.
pub struct EnvelopeView {
    pub payload: Seq<u8>,
    pub correlation: Seq<u8>,
}

/// The envelope built from a payload and a correlation token.
pub open spec fn new_envelope(payload: Seq<u8>, correlation: Seq<u8>) -> EnvelopeView {
    EnvelopeView { payload, correlation }
}

/// The payload/correlation pair an envelope extracts to.
pub open spec fn extract_envelope(e: EnvelopeView) -> (Seq<u8>, Seq<u8>) {
    (e.payload, e.correlation)
}

/// Law: extraction is the exact inverse of construction — an envelope built
/// from a payload and a correlation token extracts back to exactly those
/// bytes, bit for bit.
pub proof fn lemma_envelope_round_trip(payload: Seq<u8>, correlation: Seq<u8>)
    ensures
        extract_envelope(new_envelope(payload, correlation)) == (payload, correlation),
{
}

/// Opaque serialized correlation bytes, freely chosen by the sender to
/// describe which original request a reply answers. A newtype, so that
/// correlation bytes and payload bytes cannot be silently confused at the
/// type level. Never inspected by the guard, only passed through.
pub struct CallbackData(pub Vec<u8>);

impl View for CallbackData {
    type V = Seq<u8>;

    open spec fn view(&self) -> Seq<u8> {
        self.0@
    }
}

impl Clone for CallbackData {
    fn clone(&self) -> (r: Self)
        ensures
            r@ == self@,
    {
        CallbackData(vstd::slice::slice_to_vec(self.0.as_slice()))
    }
}

impl From<Vec<u8>> for CallbackData {
    fn from(b: Vec<u8>) -> (r: Self) {
        CallbackData(b)
    }
}

impl vstd::std_specs::convert::FromSpecImpl<Vec<u8>> for CallbackData {
    open spec fn obeys_from_spec() -> bool {
        true
    }

    open spec fn from_spec(b: Vec<u8>) -> Self {
        CallbackData(b)
    }
}

/// The unit transmitted between actors: an opaque serialized payload paired
/// with opaque serialized correlation bytes. Immutable once constructed.
pub struct CallbackMsg {
    pub data: Vec<u8>,
    pub callback: CallbackData,
}

impl View for CallbackMsg {
    type V = EnvelopeView;

    open spec fn view(&self) -> EnvelopeView {
        EnvelopeView { payload: self.data@, correlation: self.callback@ }
    }
}

/// The canonical empty-payload marker: the serialization of an empty record,
/// the two bytes `{}`.
pub open spec fn empty_payload_marker() -> Seq<u8> {
    seq![123u8, 125u8]
}

/// Relies on `cosmwasm_std::to_json_vec`: serializing `cosmwasm_std::Empty {}`
/// yields exactly the two bytes `{}` and cannot fail (that crate's own test
/// suite states the same bytes).
#[verifier::external_body]
fn serialize_empty_payload() -> (r: Vec<u8>)
    ensures
        r@ == empty_payload_marker(),
{
    cosmwasm_std::to_json_vec(&cosmwasm_std::Empty {}).unwrap()
}

/// An execute-style message addressed to a receiver actor, carrying a
/// callback envelope and a funds transfer. Nothing here is sent or stored;
/// the host's wire codec (outside this crate) encodes the envelope under the
/// single-variant `Callback` wrapper the receiver's entry point expects.
pub struct OutboundMessage {
    pub contract_addr: String,
    pub envelope: CallbackMsg,
    pub funds: Vec<Coin>,
}

impl CallbackData {
    /// Unwraps the correlation token back into its raw, still-serialized
    /// bytes, for callers that want to defer decoding.
    pub fn into_binary(self) -> (r: Vec<u8>)
        ensures
            r@ == self@,
    {
        self.0
    }

    /// Wraps a pre-serialized payload and this correlation token in an
    /// envelope and addresses it to `cb_addr` as an execute-style message
    /// carrying `funds`. No side effect beyond producing the message value.
    pub fn to_message(&self, cb_addr: String, data: Vec<u8>, funds: Vec<Coin>) -> (r:
        OutboundMessage)
        ensures
            r.contract_addr@ == cb_addr@,
            r.envelope@ == new_envelope(data@, self@),
            r.funds@ == funds@,
    {
        OutboundMessage {
            contract_addr: cb_addr,
            envelope: CallbackMsg { data, callback: self.clone() },
            funds,
        }
    }
}

impl CallbackMsg {
    /// Builds an envelope from a pre-serialized payload and a correlation
    /// token.
    pub fn new(data: Vec<u8>, callback: CallbackData) -> (r: Self)
        ensures
            r@ == new_envelope(data@, callback@),
    {
        CallbackMsg { data, callback }
    }

    /// Builds an envelope that carries no application payload: its payload
    /// is the canonical empty-payload marker.
    pub fn new_without_data(callback: CallbackData) -> (r: Self)
        ensures
            r@ == new_envelope(empty_payload_marker(), callback@),
    {
        CallbackMsg { data: serialize_empty_payload(), callback }
    }

    /// Extracts both sides of the envelope: the payload bytes and the
    /// correlation bytes, exactly as they were put in.
    pub fn deserialize(self) -> (r: (Vec<u8>, Vec<u8>))
        ensures
            (r.0@, r.1@) == extract_envelope(self@),
    {
        (self.data, self.callback.into_binary())
    }

    /// Extracts only the payload bytes.
    pub fn deserialize_data(&self) -> (r: Vec<u8>)
        ensures
            r@ == self@.payload,
    {
        vstd::slice::slice_to_vec(self.data.as_slice())
    }

    /// Extracts only the correlation bytes.
    pub fn deserialize_callback(&self) -> (r: Vec<u8>)
        ensures
            r@ == self@.correlation,
    {
        vstd::slice::slice_to_vec(self.callback.0.as_slice())
    }
}

/// The two storage cells the callback guard reads and writes, as the actor's
/// durable store holds them: `None` where the key was never written.
///
/// `expecting_callback` is the outstanding-callback counter: how many
/// callbacks this actor is still owed. `check_message_slot` is the
/// idempotency latch: the last execution slot (block height) at which a
/// guarded side-effect message was attached.
pub struct CbStorage {
    pub expecting_callback: Option<u128>,
    pub check_message_slot: Option<u64>,
}

/// The outstanding-callback count a cell state stands for: a counter that was
/// never written counts as zero.
pub open spec fn outstanding(s: CbStorage) -> u128 {
    match s.expecting_callback {
        Some(v) => v,
        None => 0,
    }
}

/// Errors raised by the callback guard.
#[derive(Clone, Copy, PartialEq, Eq, Structural, Debug)]
pub enum GuardError {
    /// A callback arrived while the outstanding-callback counter was zero:
    /// either a protocol violation by the sender or a forged message. The
    /// invocation that receives this must reject the callback outright.
    Unexpected,
}

/// One registration against the outstanding-callback counter: `Outbound`
/// when a message that expects a callback is dispatched, `Inbound` when a
/// callback is accepted.
pub enum GuardOp {
    Outbound,
    Inbound,
}

/// How one registration changes the guard's cells. An `Inbound` registration
/// while the counter is zero is rejected and changes nothing; the latch cell
/// is never touched.
pub open spec fn guard_step(s: CbStorage, op: GuardOp) -> CbStorage {
    match op {
        GuardOp::Outbound => CbStorage {
            expecting_callback: Some((outstanding(s) + 1) as u128),
            check_message_slot: s.check_message_slot,
        },
        GuardOp::Inbound => if outstanding(s) > 0 {
            CbStorage {
                expecting_callback: Some((outstanding(s) - 1) as u128),
                check_message_slot: s.check_message_slot,
            }
        } else {
            s
        },
    }
}

/// The cells after a whole sequence of registrations, applied left to right.
pub open spec fn run_guard(s: CbStorage, ops: Seq<GuardOp>) -> CbStorage
    decreases ops.len(),
{
    if ops.len() == 0 {
        s
    } else {
        guard_step(run_guard(s, ops.drop_last()), ops.last())
    }
}

/// How many registrations in `ops` are `Outbound`.
pub open spec fn n_outbound(ops: Seq<GuardOp>) -> int
    decreases ops.len(),
{
    if ops.len() == 0 {
        0
    } else {
        n_outbound(ops.drop_last()) + if ops.last() == GuardOp::Outbound {
            1int
        } else {
            0int
        }
    }
}

/// How many registrations in `ops` are `Inbound`.
pub open spec fn n_inbound(ops: Seq<GuardOp>) -> int
    decreases ops.len(),
{
    if ops.len() == 0 {
        0
    } else {
        n_inbound(ops.drop_last()) + if ops.last() == GuardOp::Inbound {
            1int
        } else {
            0int
        }
    }
}

/// A sequence of registrations is safe from `s` when no `Inbound` ever meets
/// a zero counter and no `Outbound` ever meets a full one.
pub open spec fn guard_ops_safe(s: CbStorage, ops: Seq<GuardOp>) -> bool
    decreases ops.len(),
{
    if ops.len() == 0 {
        true
    } else {
        guard_ops_safe(s, ops.drop_last()) && (match ops.last() {
            GuardOp::Inbound => outstanding(run_guard(s, ops.drop_last())) > 0,
            GuardOp::Outbound => outstanding(run_guard(s, ops.drop_last())) < u128::MAX,
        })
    }
}

/// Law: over any safe sequence of registrations, the counter moves by exactly
/// the number of outbound registrations minus the number of inbound ones, and
/// the latch cell is untouched.
pub proof fn lemma_counter_balance(s: CbStorage, ops: Seq<GuardOp>)
    requires
        guard_ops_safe(s, ops),
    ensures
        outstanding(run_guard(s, ops)) == outstanding(s) + n_outbound(ops) - n_inbound(ops),
        run_guard(s, ops).check_message_slot == s.check_message_slot,
    decreases ops.len(),
{
    if ops.len() > 0 {
        lemma_counter_balance(s, ops.drop_last());
    }
}

/// Law: an inbound registration that meets a zero counter is rejected and
/// leaves the cells exactly as they were.
pub proof fn lemma_violating_inbound_changes_nothing(s: CbStorage)
    requires
        outstanding(s) == 0,
    ensures
        guard_step(s, GuardOp::Inbound) == s,
{
}

/// Law: an outbound registration followed by the matching inbound one
/// restores the counter to its prior value and never touches the latch.
pub proof fn lemma_paired_registrations_restore_counter(s: CbStorage)
    requires
        outstanding(s) < u128::MAX,
    ensures
        outstanding(guard_step(guard_step(s, GuardOp::Outbound), GuardOp::Inbound))
            == outstanding(s),
        guard_step(guard_step(s, GuardOp::Outbound), GuardOp::Inbound).check_message_slot
            == s.check_message_slot,
{
}

/// The actor's result-under-construction, as far as the guard reads it: the
/// list of outgoing messages queued so far. `M` is the outgoing message
/// shape, chosen by the actor and never inspected here.
#[derive(Debug)]
pub struct CbResponse<M> {
    pub messages: Vec<M>,
}

impl<M> CbResponse<M> {
    /// A result with no outgoing messages queued yet.
    pub fn new() -> (r: Self)
        ensures
            r.messages@ == Seq::<M>::empty(),
    {
        CbResponse { messages: Vec::new() }
    }

    /// Queues one more outgoing message.
    pub fn add_message(self, msg: M) -> (r: Self)
        ensures
            r.messages@ == self.messages@.push(msg),
    {
        let mut messages = self.messages;
        messages.push(msg);
        CbResponse { messages }
    }
}

/// The latch cell after one guarded attach at `current_slot`: untouched when
/// it already holds `current_slot`, overwritten with `current_slot` otherwise
/// (a latch that was never set differs from every slot). The counter cell is
/// never touched.
pub open spec fn latch_after_attach(current_slot: u64, s: CbStorage) -> CbStorage {
    if s.check_message_slot == Some(current_slot) {
        s
    } else {
        CbStorage {
            expecting_callback: s.expecting_callback,
            check_message_slot: Some(current_slot),
        }
    }
}

/// The queued messages after one guarded attach at `current_slot` of a
/// successful result: `check` is appended exactly when the latch did not
/// already hold `current_slot`.
pub open spec fn messages_after_attach<M>(
    current_slot: u64,
    s: CbStorage,
    msgs: Seq<M>,
    check: M,
) -> Seq<M> {
    if s.check_message_slot == Some(current_slot) {
        msgs
    } else {
        msgs.push(check)
    }
}

/// The latch cell and queued messages after `n` guarded attaches of a
/// successful result, all at `current_slot` with the same message.
pub open spec fn attach_iter<M>(
    current_slot: u64,
    s: CbStorage,
    msgs: Seq<M>,
    check: M,
    n: nat,
) -> (CbStorage, Seq<M>)
    decreases n,
{
    if n == 0 {
        (s, msgs)
    } else {
        let prev = attach_iter(current_slot, s, msgs, check, (n - 1) as nat);
        (
            latch_after_attach(current_slot, prev.0),
            messages_after_attach(current_slot, prev.0, prev.1, check),
        )
    }
}

/// Law: attaching a side-effect message to a successful result N times
/// (N >= 1) within one slot appends it exactly once — every call after the
/// first finds the latch already at that slot and changes nothing — and an
/// attach in a different slot afterwards appends it again.
pub proof fn lemma_attach_once_per_slot<M>(
    current_slot: u64,
    s: CbStorage,
    msgs: Seq<M>,
    check: M,
    n: nat,
)
    requires
        1 <= n,
    ensures
        attach_iter(current_slot, s, msgs, check, n) == attach_iter(
            current_slot,
            s,
            msgs,
            check,
            1,
        ),
        s.check_message_slot != Some(current_slot) ==> attach_iter(
            current_slot,
            s,
            msgs,
            check,
            n,
        ).1 == msgs.push(check),
        s.check_message_slot == Some(current_slot) ==> attach_iter(
            current_slot,
            s,
            msgs,
            check,
            n,
        ).1 == msgs,
        forall|other_slot: u64|
            other_slot != current_slot ==> #[trigger] messages_after_attach(
                other_slot,
                attach_iter(current_slot, s, msgs, check, n).0,
                attach_iter(current_slot, s, msgs, check, n).1,
                check,
            ) == attach_iter(current_slot, s, msgs, check, n).1.push(check),
    decreases n,
{
    assert(attach_iter(current_slot, s, msgs, check, 0) == (s, msgs));
    let once = attach_iter(current_slot, s, msgs, check, 1);
    assert(once.0 == latch_after_attach(current_slot, s));
    assert(once.1 == messages_after_attach(current_slot, s, msgs, check));
    assert(once.0.check_message_slot == Some(current_slot));
    if n > 1 {
        lemma_attach_once_per_slot(current_slot, s, msgs, check, (n - 1) as nat);
        assert(attach_iter(current_slot, s, msgs, check, n).0 == latch_after_attach(
            current_slot,
            once.0,
        ));
        assert(latch_after_attach(current_slot, once.0) == once.0);
        assert(messages_after_attach(current_slot, once.0, once.1, check) == once.1);
    }
}

/// Namespace for the callback-guard operations.
pub struct CbUtils {}

impl CbUtils {
    /// Records that one more callback is owed: increments the outstanding
    /// counter (a never-written counter counts as zero) and returns the new
    /// value.
    pub fn add_expecting_callback(storage: &mut CbStorage) -> (r: u128)
        requires
            outstanding(*old(storage)) < u128::MAX,
        ensures
            r == outstanding(*old(storage)) + 1,
            final(storage).expecting_callback == Some(r),
            *final(storage) == guard_step(*old(storage), GuardOp::Outbound),
    {
        let value = match storage.expecting_callback {
            Some(v) => v,
            None => 0,
        };
        let new_value = value + 1;
        storage.expecting_callback = Some(new_value);
        new_value
    }

    /// Accepts one callback: decrements the outstanding counter and returns
    /// the new value. A callback that arrives while the counter is zero is
    /// rejected with [`GuardError::Unexpected`] and the cells are left
    /// unchanged. Must be called once per accepted callback, before the
    /// callback's payload reaches application logic.
    pub fn received_expecting_callback(storage: &mut CbStorage) -> (r: Result<u128, GuardError>)
        ensures
            *final(storage) == guard_step(*old(storage), GuardOp::Inbound),
            match r {
                Ok(v) => {
                    &&& outstanding(*old(storage)) > 0
                    &&& v == outstanding(*old(storage)) - 1
                    &&& final(storage).expecting_callback == Some(v)
                },
                Err(e) => {
                    &&& outstanding(*old(storage)) == 0
                    &&& e == GuardError::Unexpected
                    &&& *final(storage) == *old(storage)
                },
            },
            final(storage).check_message_slot == old(storage).check_message_slot,
    {
        let value = match storage.expecting_callback {
            Some(v) => v,
            None => 0,
        };
        if value > 0 {
            let new_value = value - 1;
            storage.expecting_callback = Some(new_value);
            Ok(new_value)
        } else {
            Err(GuardError::Unexpected)
        }
    }

    /// Whether at least one callback is outstanding. Read-only.
    pub fn is_expecting_callback(storage: &CbStorage) -> (r: bool)
        ensures
            r == (outstanding(*storage) > 0),
    {
        let value = match storage.expecting_callback {
            Some(v) => v,
            None => 0,
        };
        value > 0
    }

    /// The current outstanding-callback count. Read-only.
    pub fn get_expecting_callbacks(storage: &CbStorage) -> (r: u128)
        ensures
            r == outstanding(*storage),
    {
        match storage.expecting_callback {
            Some(v) => v,
            None => 0,
        }
    }

    /// Attaches `check_message` to a successful result at most once per
    /// execution slot: when the latch does not already hold `current_slot`
    /// (a never-set latch differs from every slot), the latch is overwritten
    /// with `current_slot` and the message is appended — but only to a
    /// successful result; a failing result is passed through unchanged while
    /// the latch still advances, so a failed execution never queues the
    /// message. When the latch already holds `current_slot`, everything is
    /// passed through untouched. Multiple callbacks may arrive within one
    /// slot; this keeps the side-effect message queued at most once per slot
    /// however many of them run this check.
    pub fn add_callback_check<M, E>(
        current_slot: u64,
        storage: &mut CbStorage,
        response: Result<CbResponse<M>, E>,
        check_message: M,
    ) -> (r: Result<CbResponse<M>, E>)
        ensures
            *final(storage) == latch_after_attach(current_slot, *old(storage)),
            final(storage).expecting_callback == old(storage).expecting_callback,
            final(storage).check_message_slot == Some(current_slot),
            match (response, r) {
                (Ok(resp), Ok(out)) => out.messages@ == messages_after_attach(
                    current_slot,
                    *old(storage),
                    resp.messages@,
                    check_message,
                ),
                (Err(e), Err(out_e)) => out_e == e,
                _ => false,
            },
    {
        let already_attached = match storage.check_message_slot {
            Some(slot) => slot == current_slot,
            None => false,
        };
        if already_attached {
            response
        } else {
            storage.check_message_slot = Some(current_slot);
            match response {
                Ok(resp) => Ok(resp.add_message(check_message)),
                Err(e) => Err(e),
            }
        }
    }
}

} // verus!
