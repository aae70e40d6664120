//! The four call-shape adapters. Each drives one handler invocation to a
//! terminal state and packages the result as delivered outputs plus exactly
//! one wire status.
//!
//! Cancellation is cooperative: an adapter observes the signal at its next
//! suspension point, here the point just before each output is handed to
//! the transport. The signal is presented as the number of outputs after
//! which it fires, the count the transport observed when the peer went
//! away. Outputs already delivered are never retracted: cancellation
//! truncates a stream.

use vstd::prelude::*;

use crate::codec::CodecNegotiator;
use crate::codec::MessageSizeLimits;
use crate::message::CallContext;
use crate::message::Msg;
use crate::status::DispatchError;
use crate::status::Outcome;
use crate::status::StreamOutcome;
use crate::status::WireStatus;
use crate::status::cancelled_status;
use crate::status::error_status;
use crate::status::is_cancelled_status;
use crate::status::is_error_status;
use crate::status::is_ok_status;
use crate::status::map_outcome;
use crate::status::ok_status;

verus! {

/// The four request/response cardinality patterns an RPC method can have.
#[derive(Clone, Copy, PartialEq, Eq, Structural, Debug)]
pub enum CallShape {
    Unary,
    ServerStreaming,
    ClientStreaming,
    BidiStreaming,
}

/// The mutually exclusive terminal states of a call.
#[derive(Clone, Copy, PartialEq, Eq, Structural, Debug)]
pub enum CallPhase {
    Completed,
    Failed,
    Cancelled,
}

/// The terminal phase a wire status puts the call in.
pub open spec fn spec_phase_of(s: WireStatus) -> CallPhase {
    if s.code == crate::status::StatusCode::Okay {
        CallPhase::Completed
    } else if s.code == crate::status::StatusCode::Cancelled {
        CallPhase::Cancelled
    } else {
        CallPhase::Failed
    }
}

/// Classifies a wire status into the call's terminal phase.
pub fn phase_of_status(s: &WireStatus) -> (p: CallPhase)
    ensures
        p == spec_phase_of(*s),
{
    if matches!(s.code, crate::status::StatusCode::Okay) {
        CallPhase::Completed
    } else if matches!(s.code, crate::status::StatusCode::Cancelled) {
        CallPhase::Cancelled
    } else {
        CallPhase::Failed
    }
}

/// What one finished call hands back to the transport: the payloads
/// delivered, in order, and the single terminal status.
pub struct CallReply {
    pub outputs: Vec<Msg>,
    pub status: WireStatus,
}

/// A single-request, single-response handler.
pub trait UnaryHandler {
    fn handle(&mut self, input: &Msg, ctx: &CallContext) -> Outcome;
}

/// A single-request, streamed-response handler. The outputs are delivered
/// to the transport in the order produced.
pub trait ServerStreamHandler {
    fn handle(&mut self, input: &Msg, ctx: &CallContext) -> StreamOutcome;
}

/// A streamed-request, single-response handler: it is fed each input as it
/// arrives and owes one aggregated output once the input stream ends.
pub trait ClientStreamHandler {
    fn accept(&mut self, input: &Msg, ctx: &CallContext);

    fn finish(&mut self, ctx: &CallContext) -> StreamOutcome;
}

/// A streamed-request, streamed-response handler: it may reply to each
/// input with any number of outputs and produce a final batch when the
/// input side ends.
pub trait BidiHandler {
    fn on_input(&mut self, input: &Msg, ctx: &CallContext) -> Vec<Msg>;

    fn on_end(&mut self, ctx: &CallContext) -> StreamOutcome;
}

/// Every message in `msgs` is within the encoded-size cap of `limits`.
pub open spec fn all_encoded_within(limits: MessageSizeLimits, msgs: Seq<Msg>) -> bool {
    forall|i: int| 0 <= i < msgs.len() ==> limits.encoded_within(#[trigger] msgs[i]@.len())
}

/// Every message in `msgs` is within the decoded-size cap of `limits`.
pub open spec fn all_decoded_within(limits: MessageSizeLimits, msgs: Seq<Msg>) -> bool {
    forall|i: int| 0 <= i < msgs.len() ==> limits.decoded_within(#[trigger] msgs[i]@.len())
}

/// The cancellation signal stays silent through the first `n` deliveries.
pub open spec fn cancel_allows(cancel: Option<usize>, n: nat) -> bool {
    match cancel {
        Some(k) => n <= k as nat,
        None => true,
    }
}

/// Delivery stopped at the first output over the encoded-size cap: the
/// outputs before it were delivered unchanged, and the call failed with the
/// message-too-large status.
pub open spec fn delivery_truncated_oversize(
    limits: MessageSizeLimits,
    outs: Seq<Msg>,
    delivered: Seq<Msg>,
    status: WireStatus,
) -> bool {
    &&& delivered.len() < outs.len()
    &&& delivered == outs.take(delivered.len() as int)
    &&& all_encoded_within(limits, delivered)
    &&& !limits.encoded_within(outs[delivered.len() as int]@.len())
    &&& is_error_status(status, DispatchError::MessageTooLarge)
}

/// Exactly what delivering the produced outputs `outs` yields, for every
/// combination of size limits and cancellation point: either every output
/// is delivered and the call ends with the terminal status `fin`; or the
/// signal fires after `k` deliveries and exactly the first `k` outputs are
/// delivered, followed by the cancellation status; or the first oversize
/// output truncates delivery with the message-too-large status.
pub open spec fn deliver_post(
    limits: MessageSizeLimits,
    cancel: Option<usize>,
    outs: Seq<Msg>,
    fin: WireStatus,
    delivered: Seq<Msg>,
    status: WireStatus,
) -> bool {
    match cancel {
        Some(k) => if outs.len() <= k as nat {
            if all_encoded_within(limits, outs) {
                delivered == outs && status == fin
            } else {
                delivery_truncated_oversize(limits, outs, delivered, status)
            }
        } else {
            if all_encoded_within(limits, outs.take(k as int)) {
                delivered == outs.take(k as int) && is_cancelled_status(status)
            } else {
                delivery_truncated_oversize(limits, outs, delivered, status) && delivered.len()
                    < k as nat
            }
        },
        None => if all_encoded_within(limits, outs) {
            delivered == outs && status == fin
        } else {
            delivery_truncated_oversize(limits, outs, delivered, status)
        },
    }
}

/// Emits produced outputs to the transport in order, checking the
/// cancellation signal before each send and the encoded-size cap on each
/// message independently. On full delivery the call ends with `fin`.
pub fn deliver_outputs(
    outputs: Vec<Msg>,
    limits: &MessageSizeLimits,
    cancel_after: Option<usize>,
    fin: WireStatus,
) -> (r: CallReply)
    ensures
        deliver_post(*limits, cancel_after, outputs@, fin, r.outputs@, r.status),
{
    let ghost orig: Seq<Msg> = outputs@;
    let mut rest = outputs;
    let mut delivered: Vec<Msg> = Vec::new();
    while rest.len() > 0
        invariant
            orig == outputs@,
            orig == delivered@ + rest@,
            all_encoded_within(*limits, delivered@),
            cancel_allows(cancel_after, delivered@.len()),
        decreases rest@.len(),
    {
        match cancel_after {
            Some(k) => {
                if delivered.len() >= k {
                    proof {
                        assert(delivered@.len() == k as nat);
                        assert(delivered@ =~= orig.take(k as int));
                    }
                    return CallReply { outputs: delivered, status: cancelled_status() };
                }
            },
            None => {},
        }
        let m = rest.remove(0);
        proof {
            assert(orig[delivered@.len() as int] == m);
        }
        match limits.check_encoded(&m) {
            Ok(()) => {
                delivered.push(m);
            },
            Err(e) => {
                proof {
                    assert(delivered@ =~= orig.take(delivered@.len() as int));
                    assert(!all_encoded_within(*limits, orig));
                    match cancel_after {
                        Some(k) => {
                            if orig.len() > k as nat {
                                assert(orig.take(k as int)[delivered@.len() as int] == m);
                                assert(!all_encoded_within(*limits, orig.take(k as int)));
                            }
                        },
                        None => {},
                    }
                }
                return CallReply { outputs: delivered, status: error_status(e) };
            },
        }
    }
    proof {
        assert(delivered@ =~= orig);
    }
    CallReply { outputs: delivered, status: fin }
}

/// Exactly in which terminal states each deliverable outcome leaves a call
/// that owes a single response: a success payload within the encoded cap is
/// the sole output under the success status; an oversize payload fails with
/// message-too-large; a failure carries its code and message verbatim with
/// no output; cancellation ends with the cancellation status.
pub open spec fn finalize_single_post(oc: Outcome, limits: MessageSizeLimits, r: CallReply) -> bool {
    match oc {
        Outcome::Success(m) => if limits.encoded_within(m@.len()) {
            r.outputs@ == seq![m] && is_ok_status(r.status)
        } else {
            r.outputs@.len() == 0 && is_error_status(r.status, DispatchError::MessageTooLarge)
        },
        Outcome::Failure(c, text) => r.outputs@.len() == 0 && r.status.code == c
            && r.status.message == text,
        Outcome::Cancelled => r.outputs@.len() == 0 && is_cancelled_status(r.status),
    }
}

/// Packages the outcome of a single-response call shape, enforcing the
/// encoded-size cap on the success payload.
pub fn finalize_single(oc: Outcome, limits: &MessageSizeLimits) -> (r: CallReply)
    ensures
        finalize_single_post(oc, *limits, r),
{
    let (status, payload) = map_outcome(oc);
    match payload {
        Some(m) => {
            match limits.check_encoded(&m) {
                Ok(()) => {
                    let mut outputs: Vec<Msg> = Vec::new();
                    outputs.push(m);
                    proof {
                        assert(outputs@ =~= seq![m]);
                    }
                    CallReply { outputs, status }
                },
                Err(e) => CallReply { outputs: Vec::new(), status: error_status(e) },
            }
        },
        None => CallReply { outputs: Vec::new(), status },
    }
}

/// Drives one unary call: exactly one input message is owed; it is checked
/// against the decoded-size cap, the handler is invoked once with it, and
/// the single outcome is finalized.
pub fn run_unary<H: UnaryHandler>(
    h: &mut H,
    ctx: &CallContext,
    neg: &CodecNegotiator,
    inputs: Vec<Msg>,
) -> (r: CallReply)
    ensures
        inputs@.len() != 1 ==> r.outputs@.len() == 0 && is_error_status(
            r.status,
            DispatchError::ProtocolViolation,
        ),
        inputs@.len() == 1 && !neg.limits.decoded_within(inputs@[0]@.len()) ==> r.outputs@.len()
            == 0 && is_error_status(r.status, DispatchError::MessageTooLarge),
        inputs@.len() == 1 && neg.limits.decoded_within(inputs@[0]@.len()) ==> exists|oc: Outcome|
            finalize_single_post(oc, neg.limits, r),
{
    let mut inputs = inputs;
    if inputs.len() != 1 {
        return CallReply {
            outputs: Vec::new(),
            status: error_status(DispatchError::ProtocolViolation),
        };
    }
    let m = inputs.remove(0);
    let m = match neg.admit_inbound(m) {
        Ok(m) => m,
        Err(e) => {
            return CallReply { outputs: Vec::new(), status: error_status(e) };
        },
    };
    let oc = h.handle(&m, ctx);
    let r = finalize_single(oc, &neg.limits);
    proof {
        assert(finalize_single_post(oc, neg.limits, r));
    }
    r
}

/// Exactly how a streaming handler's outcome is delivered: a produced
/// stream goes through [`deliver_outputs`] with the success status as the
/// terminal status; a failure or cancellation delivers nothing.
pub open spec fn stream_finish_post(
    so: StreamOutcome,
    limits: MessageSizeLimits,
    cancel: Option<usize>,
    fin: WireStatus,
    r: CallReply,
) -> bool {
    match so {
        StreamOutcome::Streamed(outs) => deliver_post(
            limits,
            cancel,
            outs@,
            fin,
            r.outputs@,
            r.status,
        ),
        StreamOutcome::Failure(c, text) => r.outputs@.len() == 0 && r.status.code == c
            && r.status.message == text,
        StreamOutcome::Cancelled => r.outputs@.len() == 0 && is_cancelled_status(r.status),
    }
}

/// Drives one server-streaming call: exactly one input message is owed and
/// checked against the decoded cap; the handler is invoked once; each
/// produced output is size-checked and emitted in order, with the
/// cancellation signal observed before every send.
pub fn run_server_stream<H: ServerStreamHandler>(
    h: &mut H,
    ctx: &CallContext,
    neg: &CodecNegotiator,
    inputs: Vec<Msg>,
    cancel_after: Option<usize>,
) -> (r: CallReply)
    ensures
        inputs@.len() != 1 ==> r.outputs@.len() == 0 && is_error_status(
            r.status,
            DispatchError::ProtocolViolation,
        ),
        inputs@.len() == 1 && !neg.limits.decoded_within(inputs@[0]@.len()) ==> r.outputs@.len()
            == 0 && is_error_status(r.status, DispatchError::MessageTooLarge),
        inputs@.len() == 1 && neg.limits.decoded_within(inputs@[0]@.len()) ==> exists|
            so: StreamOutcome,
            fin: WireStatus,
        |
            is_ok_status(fin) && stream_finish_post(so, neg.limits, cancel_after, fin, r),
{
    let mut inputs = inputs;
    if inputs.len() != 1 {
        return CallReply {
            outputs: Vec::new(),
            status: error_status(DispatchError::ProtocolViolation),
        };
    }
    let m = inputs.remove(0);
    let m = match neg.admit_inbound(m) {
        Ok(m) => m,
        Err(e) => {
            return CallReply { outputs: Vec::new(), status: error_status(e) };
        },
    };
    let so = h.handle(&m, ctx);
    let ghost so0 = so;
    let fin = ok_status();
    let ghost fin0 = fin;
    let r = match so {
        StreamOutcome::Streamed(outs) => deliver_outputs(outs, &neg.limits, cancel_after, fin),
        StreamOutcome::Failure(c, text) => CallReply {
            outputs: Vec::new(),
            status: WireStatus { code: c, message: text },
        },
        StreamOutcome::Cancelled => CallReply { outputs: Vec::new(), status: cancelled_status() },
    };
    proof {
        assert(stream_finish_post(so0, neg.limits, cancel_after, fin0, r));
    }
    r
}

/// Exactly how a client-streaming handler's final result is packaged: the
/// one aggregated output is finalized like a unary success; any other
/// output cardinality is a protocol violation.
pub open spec fn client_finish_post(
    so: StreamOutcome,
    limits: MessageSizeLimits,
    r: CallReply,
) -> bool {
    match so {
        StreamOutcome::Streamed(outs) => if outs@.len() == 1 {
            finalize_single_post(Outcome::Success(outs@[0]), limits, r)
        } else {
            r.outputs@.len() == 0 && is_error_status(r.status, DispatchError::ProtocolViolation)
        },
        StreamOutcome::Failure(c, text) => r.outputs@.len() == 0 && r.status.code == c
            && r.status.message == text,
        StreamOutcome::Cancelled => r.outputs@.len() == 0 && is_cancelled_status(r.status),
    }
}

/// Drives one client-streaming call: every inbound message is checked
/// against the decoded cap and fed to the handler in arrival order; once
/// the input stream ends the handler owes exactly one aggregated output.
pub fn run_client_stream<H: ClientStreamHandler>(
    h: &mut H,
    ctx: &CallContext,
    neg: &CodecNegotiator,
    inputs: Vec<Msg>,
) -> (r: CallReply)
    ensures
        !all_decoded_within(neg.limits, inputs@) ==> r.outputs@.len() == 0 && is_error_status(
            r.status,
            DispatchError::MessageTooLarge,
        ),
        all_decoded_within(neg.limits, inputs@) ==> exists|so: StreamOutcome|
            client_finish_post(so, neg.limits, r),
{
    let ghost orig: Seq<Msg> = inputs@;
    let ghost mut fed: Seq<Msg> = Seq::empty();
    let mut rest = inputs;
    while rest.len() > 0
        invariant
            orig == inputs@,
            orig == fed + rest@,
            all_decoded_within(neg.limits, fed),
        decreases rest@.len(),
    {
        let m = rest.remove(0);
        proof {
            assert(orig[fed.len() as int] == m);
        }
        match neg.limits.check_decoded(&m) {
            Ok(()) => {},
            Err(e) => {
                proof {
                    assert(!all_decoded_within(neg.limits, orig));
                }
                return CallReply { outputs: Vec::new(), status: error_status(e) };
            },
        }
        h.accept(&m, ctx);
        proof {
            fed = fed.push(m);
        }
    }
    proof {
        assert(orig =~= fed);
    }
    let so = h.finish(ctx);
    let ghost so0 = so;
    let r = match so {
        StreamOutcome::Streamed(outs) => {
            let mut outs = outs;
            if outs.len() == 1 {
                let m = outs.remove(0);
                finalize_single(Outcome::Success(m), &neg.limits)
            } else {
                CallReply {
                    outputs: Vec::new(),
                    status: error_status(DispatchError::ProtocolViolation),
                }
            }
        },
        StreamOutcome::Failure(c, text) => CallReply {
            outputs: Vec::new(),
            status: WireStatus { code: c, message: text },
        },
        StreamOutcome::Cancelled => CallReply { outputs: Vec::new(), status: cancelled_status() },
    };
    proof {
        assert(client_finish_post(so0, neg.limits, r));
    }
    r
}

/// Drives one bidirectional-streaming call. The adapter is a pass-through
/// multiplexer: each inbound message is checked against the decoded cap
/// and handed to the handler in arrival order; everything the handler
/// produces is delivered in production order under the encoded cap and the
/// cancellation signal. The weaker contract reflects that ordering between
/// the two directions is the handler's own business.
pub fn run_bidi<H: BidiHandler>(
    h: &mut H,
    ctx: &CallContext,
    neg: &CodecNegotiator,
    inputs: Vec<Msg>,
    cancel_after: Option<usize>,
) -> (r: CallReply)
    ensures
        all_encoded_within(neg.limits, r.outputs@),
        cancel_after matches Some(k) ==> r.outputs@.len() <= k as nat,
        is_ok_status(r.status) ==> all_decoded_within(neg.limits, inputs@),
        exists|produced: Seq<Msg>, fin: WireStatus|
            deliver_post(neg.limits, cancel_after, produced, fin, r.outputs@, r.status),
{
    let ghost orig: Seq<Msg> = inputs@;
    let ghost mut fed: Seq<Msg> = Seq::empty();
    let mut rest = inputs;
    let mut produced: Vec<Msg> = Vec::new();
    let mut oversize_input = false;
    while rest.len() > 0 && !oversize_input
        invariant
            orig == inputs@,
            !oversize_input ==> orig == fed + rest@,
            all_decoded_within(neg.limits, fed),
            oversize_input ==> !all_decoded_within(neg.limits, orig),
        decreases rest@.len(),
    {
        let m = rest.remove(0);
        proof {
            assert(orig[fed.len() as int] == m);
        }
        match neg.limits.check_decoded(&m) {
            Ok(()) => {
                let mut batch = h.on_input(&m, ctx);
                produced.append(&mut batch);
                proof {
                    fed = fed.push(m);
                }
            },
            Err(_) => {
                proof {
                    assert(!all_decoded_within(neg.limits, orig));
                }
                oversize_input = true;
            },
        }
    }
    let r = if oversize_input {
        deliver_outputs(
            produced,
            &neg.limits,
            cancel_after,
            error_status(DispatchError::MessageTooLarge),
        )
    } else {
        proof {
            assert(orig =~= fed);
        }
        let so = h.on_end(ctx);
        match so {
            StreamOutcome::Streamed(mut last) => {
                let mut all_out = produced;
                all_out.append(&mut last);
                deliver_outputs(all_out, &neg.limits, cancel_after, ok_status())
            },
            StreamOutcome::Failure(c, text) => deliver_outputs(
                produced,
                &neg.limits,
                cancel_after,
                WireStatus { code: c, message: text },
            ),
            StreamOutcome::Cancelled => deliver_outputs(
                produced,
                &neg.limits,
                cancel_after,
                cancelled_status(),
            ),
        }
    };
    r
}

/// Cancelling after `n` of the handler's produced outputs yields exactly
/// the first `n` outputs delivered to the transport, unchanged and in
/// order, followed by the cancellation status.
pub proof fn lemma_cancellation_truncates(
    limits: MessageSizeLimits,
    n: usize,
    outs: Seq<Msg>,
    fin: WireStatus,
    delivered: Seq<Msg>,
    status: WireStatus,
)
    requires
        deliver_post(limits, Some(n), outs, fin, delivered, status),
        (n as nat) < outs.len(),
        all_encoded_within(limits, outs.take(n as int)),
    ensures
        delivered == outs.take(n as int),
        delivered.len() == n,
        is_cancelled_status(status),
{
}

/// A call that is never cancelled and whose outputs all fit the encoded
/// cap delivers the whole produced stream and ends with the handler's own
/// terminal status.
pub proof fn lemma_full_delivery(
    limits: MessageSizeLimits,
    cancel: Option<usize>,
    outs: Seq<Msg>,
    fin: WireStatus,
    delivered: Seq<Msg>,
    status: WireStatus,
)
    requires
        deliver_post(limits, cancel, outs, fin, delivered, status),
        cancel_allows(cancel, outs.len()),
        all_encoded_within(limits, outs),
    ensures
        delivered == outs,
        status == fin,
{
}

} // verus!
