//! The path-based router: an immutable table of method descriptors with
//! their service handles, exact-match resolution, and the top-level
//! dispatch of one inbound call to the adapter its shape demands.

use vstd::prelude::*;

use vstd::string::StringExecFns;

use crate::adapter::BidiHandler;
use crate::adapter::CallReply;
use crate::adapter::CallShape;
use crate::adapter::ClientStreamHandler;
use crate::adapter::ServerStreamHandler;
use crate::adapter::UnaryHandler;
use crate::adapter::all_decoded_within;
use crate::adapter::all_encoded_within;
use crate::adapter::client_finish_post;
use crate::adapter::finalize_single_post;
use crate::adapter::run_bidi;
use crate::adapter::run_client_stream;
use crate::adapter::run_server_stream;
use crate::adapter::run_unary;
use crate::adapter::stream_finish_post;
use crate::codec::CodecNegotiator;
use crate::codec::CompressionEncoding;
use crate::codec::EncodingSet;
use crate::codec::MessageSizeLimits;
use crate::message::CallContext;
use crate::message::Msg;
use crate::status::DispatchError;
use crate::status::Outcome;
use crate::status::StreamOutcome;
use crate::status::WireStatus;
use crate::status::error_status;
use crate::status::is_error_status;
use crate::status::is_ok_status;
use crate::status::unimplemented_status;
use crate::status::is_unimplemented_status;

verus! {

/// The full path a service name and a method name route under.
pub open spec fn spec_full_path(service: Seq<char>, method: Seq<char>) -> Seq<char> {
    seq!['/'] + service + seq!['/'] + method
}

/// Identifies one RPC method: its routing path and its call shape, fixed
/// once registered.
pub struct MethodDescriptor {
    pub service: String,
    pub method: String,
    pub full_path: String,
    pub shape: CallShape,
}

impl MethodDescriptor {
    /// The routing path agrees with the service and method names.
    pub open spec fn wf(self) -> bool {
        self.full_path@ == spec_full_path(self.service@, self.method@)
    }

    /// Builds the descriptor for `method` of `service`, routed under the
    /// path composed from the two names.
    pub fn new(service: String, method: String, shape: CallShape) -> (d: MethodDescriptor)
        ensures
            d.service == service,
            d.method == method,
            d.shape == shape,
            d.wf(),
    {
        proof {
            reveal_strlit("/");
        }
        let mut p = String::from_str("/");
        p.append(service.as_str());
        p.append("/");
        p.append(method.as_str());
        proof {
            assert(p@ =~= spec_full_path(service@, method@));
        }
        MethodDescriptor { service, method, full_path: p, shape }
    }
}

/// The shared, read-only handle a registered method is served through: the
/// service's compression configuration and message-size limits. A handle
/// is never mutated after registration; reconfiguring produces a new
/// handle, so concurrent in-flight calls all read a consistent one.
#[derive(Clone, Copy, Debug)]
pub struct ServiceHandle {
    pub accept: EncodingSet,
    pub send: EncodingSet,
    pub limits: MessageSizeLimits,
}

impl ServiceHandle {
    /// A handle accepting and sending only identity, with no limit
    /// configured.
    pub fn new() -> (h: ServiceHandle)
        ensures
            !h.accept.gzip && !h.accept.zstd,
            !h.send.gzip && !h.send.zstd,
            h.limits.max_decoded is None,
            h.limits.max_encoded is None,
    {
        ServiceHandle {
            accept: EncodingSet::empty(),
            send: EncodingSet::empty(),
            limits: MessageSizeLimits::unconfigured(),
        }
    }

    /// Enables decompressing inbound payloads sent with `encoding`.
    pub fn accept_compressed(self, encoding: CompressionEncoding) -> (h: ServiceHandle)
        ensures
            h.accept.gzip == (self.accept.gzip || encoding is Gzip),
            h.accept.zstd == (self.accept.zstd || encoding is Zstd),
            h.send == self.send,
            h.limits == self.limits,
    {
        ServiceHandle { accept: self.accept.enable(encoding), ..self }
    }

    /// Enables compressing outbound payloads with `encoding` when the peer
    /// accepts it.
    pub fn send_compressed(self, encoding: CompressionEncoding) -> (h: ServiceHandle)
        ensures
            h.send.gzip == (self.send.gzip || encoding is Gzip),
            h.send.zstd == (self.send.zstd || encoding is Zstd),
            h.accept == self.accept,
            h.limits == self.limits,
    {
        ServiceHandle { send: self.send.enable(encoding), ..self }
    }

    /// Caps the size of a decoded inbound message.
    pub fn max_decoding_message_size(self, limit: usize) -> (h: ServiceHandle)
        ensures
            h.limits.max_decoded == Some(limit),
            h.limits.max_encoded == self.limits.max_encoded,
            h.accept == self.accept,
            h.send == self.send,
    {
        ServiceHandle {
            limits: MessageSizeLimits { max_decoded: Some(limit), ..self.limits },
            ..self
        }
    }

    /// Caps the size of an encoded outbound message.
    pub fn max_encoding_message_size(self, limit: usize) -> (h: ServiceHandle)
        ensures
            h.limits.max_encoded == Some(limit),
            h.limits.max_decoded == self.limits.max_decoded,
            h.accept == self.accept,
            h.send == self.send,
    {
        ServiceHandle {
            limits: MessageSizeLimits { max_encoded: Some(limit), ..self.limits },
            ..self
        }
    }

    /// The codec negotiator for one call against this handle.
    pub fn negotiator(&self) -> (n: CodecNegotiator)
        ensures
            n.accept == self.accept,
            n.send == self.send,
            n.limits == self.limits,
    {
        CodecNegotiator::new(self.accept, self.send, self.limits)
    }
}

/// One row of the routing table.
pub struct RouteEntry {
    pub desc: MethodDescriptor,
    pub handle: ServiceHandle,
}

/// Maps full paths to registered methods by exact string match. The table
/// is sealed before the service accepts calls; registration is
/// construction-time only.
pub struct Router {
    pub entries: Vec<RouteEntry>,
}

impl Router {
    /// Some registered entry routes under path `p`.
    pub open spec fn spec_has_path(self, p: Seq<char>) -> bool {
        exists|i: int|
            0 <= i < self.entries@.len() && (#[trigger] self.entries@[i]).desc.full_path@ == p
    }

    /// No two registered entries share a path.
    pub open spec fn wf(self) -> bool {
        forall|i: int, j: int|
            0 <= i < self.entries@.len() && 0 <= j < self.entries@.len() && i != j ==> (
            #[trigger] self.entries@[i]).desc.full_path@ != (
            #[trigger] self.entries@[j]).desc.full_path@
    }

    /// The index of the entry routing under `p`.
    pub open spec fn spec_index_of(self, p: Seq<char>) -> int {
        choose|i: int|
            0 <= i < self.entries@.len() && (#[trigger] self.entries@[i]).desc.full_path@ == p
    }

    /// The entry routing under `p`; meaningful when `spec_has_path(p)`.
    pub open spec fn spec_resolve(self, p: Seq<char>) -> RouteEntry {
        self.entries@[self.spec_index_of(p)]
    }

    /// An empty routing table.
    pub fn new() -> (r: Router)
        ensures
            r.entries@.len() == 0,
            r.wf(),
    {
        Router { entries: Vec::new() }
    }

    /// Linear exact-match scan for `path`.
    fn find(&self, path: &String) -> (r: Option<usize>)
        ensures
            r matches Some(i) ==> i < self.entries@.len() && self.entries@[
                i as int
            ].desc.full_path@ == path@,
            r is None ==> !self.spec_has_path(path@),
    {
        let mut i: usize = 0;
        while i < self.entries.len()
            invariant
                i <= self.entries@.len(),
                forall|j: int|
                    0 <= j < i ==> (#[trigger] self.entries@[j]).desc.full_path@ != path@,
            decreases self.entries@.len() - i,
        {
            if self.entries[i].desc.full_path == *path {
                return Some(i);
            }
            i += 1;
        }
        None
    }

    /// Registers one method. Fails with `DuplicatePath`, leaving the table
    /// exactly as it was, when the path is already taken; otherwise the
    /// entry is appended. Uniqueness of paths is preserved.
    pub fn register(&mut self, desc: MethodDescriptor, handle: ServiceHandle) -> (r: Result<
        (),
        DispatchError,
    >)
        ensures
            old(self).spec_has_path(desc.full_path@) ==> r == Result::<(), DispatchError>::Err(
                DispatchError::DuplicatePath,
            ) && *final(self) == *old(self),
            !old(self).spec_has_path(desc.full_path@) ==> r == Result::<(), DispatchError>::Ok(())
                && final(self).entries@ == old(self).entries@.push(
                (RouteEntry { desc, handle }),
            ),
            old(self).wf() ==> final(self).wf(),
    {
        match self.find(&desc.full_path) {
            Some(_) => Err(DispatchError::DuplicatePath),
            None => {
                let ghost pre = *self;
                self.entries.push(RouteEntry { desc, handle });
                proof {
                    assert forall|i: int, j: int|
                        0 <= i < self.entries@.len() && 0 <= j < self.entries@.len() && i != j
                            && pre.wf() implies (#[trigger] self.entries@[i]).desc.full_path@ != (
                        #[trigger] self.entries@[j]).desc.full_path@ by {
                        let n = pre.entries@.len() as int;
                        if i < n && j < n {
                        } else if i == n {
                            assert(pre.entries@[j] == self.entries@[j]);
                        } else {
                            assert(pre.entries@[i] == self.entries@[i]);
                        }
                    }
                }
                Ok(())
            },
        }
    }

    /// Resolves an inbound path to the matching registered entry by exact
    /// string comparison, or to nothing when no method routes under it.
    pub fn resolve(&self, path: &String) -> (r: Option<&RouteEntry>)
        requires
            self.wf(),
        ensures
            self.spec_has_path(path@) ==> (r matches Some(e) && *e == self.spec_resolve(path@)),
            !self.spec_has_path(path@) ==> r is None,
    {
        match self.find(path) {
            Some(i) => {
                proof {
                    assert(self.spec_has_path(path@));
                    let j = self.spec_index_of(path@);
                    assert(0 <= j < self.entries@.len() && self.entries@[j].desc.full_path@
                        == path@);
                    assert(i as int == j);
                }
                Some(&self.entries[i])
            },
            None => None,
        }
    }
}

/// Every registered descriptor resolves to its own entry: looking its path
/// up in a well-formed table yields exactly the entry it was registered
/// in, never another method's.
pub proof fn lemma_registered_descriptor_resolves(r: Router, i: int)
    requires
        r.wf(),
        0 <= i < r.entries@.len(),
    ensures
        r.spec_has_path(r.entries@[i].desc.full_path@),
        r.spec_resolve(r.entries@[i].desc.full_path@) == r.entries@[i],
{
    let p = r.entries@[i].desc.full_path@;
    assert(r.spec_has_path(p));
    let j = r.spec_index_of(p);
    assert(0 <= j < r.entries@.len() && r.entries@[j].desc.full_path@ == p);
    assert(j == i);
}

/// Exactly what one resolved call yields, by the shape of the matched
/// method: encoding negotiation first, then the shape's own cardinality
/// and size rules, with the handler's outcome finalized by the matching
/// adapter.
pub open spec fn dispatched_post(
    e: RouteEntry,
    declared: CompressionEncoding,
    inputs: Seq<Msg>,
    cancel: Option<usize>,
    r: CallReply,
) -> bool {
    if !e.handle.accept.spec_contains(declared) {
        r.outputs@.len() == 0 && is_error_status(r.status, DispatchError::UnsupportedEncoding)
    } else {
        match e.desc.shape {
            CallShape::Unary => {
                &&& inputs.len() != 1 ==> r.outputs@.len() == 0 && is_error_status(
                    r.status,
                    DispatchError::ProtocolViolation,
                )
                &&& inputs.len() == 1 && !e.handle.limits.decoded_within(inputs[0]@.len())
                    ==> r.outputs@.len() == 0 && is_error_status(
                    r.status,
                    DispatchError::MessageTooLarge,
                )
                &&& inputs.len() == 1 && e.handle.limits.decoded_within(inputs[0]@.len())
                    ==> exists|oc: Outcome| finalize_single_post(oc, e.handle.limits, r)
            },
            CallShape::ServerStreaming => {
                &&& inputs.len() != 1 ==> r.outputs@.len() == 0 && is_error_status(
                    r.status,
                    DispatchError::ProtocolViolation,
                )
                &&& inputs.len() == 1 && !e.handle.limits.decoded_within(inputs[0]@.len())
                    ==> r.outputs@.len() == 0 && is_error_status(
                    r.status,
                    DispatchError::MessageTooLarge,
                )
                &&& inputs.len() == 1 && e.handle.limits.decoded_within(inputs[0]@.len())
                    ==> exists|so: StreamOutcome, fin: WireStatus|
                    is_ok_status(fin) && stream_finish_post(so, e.handle.limits, cancel, fin, r)
            },
            CallShape::ClientStreaming => {
                &&& !all_decoded_within(e.handle.limits, inputs) ==> r.outputs@.len() == 0
                    && is_error_status(r.status, DispatchError::MessageTooLarge)
                &&& all_decoded_within(e.handle.limits, inputs) ==> exists|so: StreamOutcome|
                    client_finish_post(so, e.handle.limits, r)
            },
            CallShape::BidiStreaming => {
                &&& all_encoded_within(e.handle.limits, r.outputs@)
                &&& cancel matches Some(k) ==> r.outputs@.len() <= k as nat
                &&& is_ok_status(r.status) ==> all_decoded_within(e.handle.limits, inputs)
            },
        }
    }
}

/// Dispatches one inbound call: resolves the path, negotiates the inbound
/// encoding against the matched handle, builds the call context carrying
/// the method's identity, and drives the adapter the method's shape
/// demands. An unmatched path yields the unimplemented status without any
/// handler involved.
pub fn dispatch<H: UnaryHandler + ServerStreamHandler + ClientStreamHandler + BidiHandler>(
    router: &Router,
    h: &mut H,
    path: &String,
    declared_encoding: CompressionEncoding,
    inputs: Vec<Msg>,
    cancel_after: Option<usize>,
) -> (r: CallReply)
    requires
        router.wf(),
    ensures
        !router.spec_has_path(path@) ==> r.outputs@.len() == 0 && is_unimplemented_status(
            r.status,
        ),
        router.spec_has_path(path@) ==> dispatched_post(
            router.spec_resolve(path@),
            declared_encoding,
            inputs@,
            cancel_after,
            r,
        ),
{
    let entry = match router.resolve(path) {
        Some(e) => e,
        None => {
            return CallReply { outputs: Vec::new(), status: unimplemented_status() };
        },
    };
    let neg = entry.handle.negotiator();
    match neg.negotiate_inbound(declared_encoding) {
        Ok(_) => {},
        Err(e) => {
            return CallReply { outputs: Vec::new(), status: error_status(e) };
        },
    }
    let ctx = CallContext::new(
        entry.desc.service.clone(),
        entry.desc.method.clone(),
        declared_encoding,
        neg.limits,
    );
    match entry.desc.shape {
        CallShape::Unary => run_unary(h, &ctx, &neg, inputs),
        CallShape::ServerStreaming => run_server_stream(h, &ctx, &neg, inputs, cancel_after),
        CallShape::ClientStreaming => run_client_stream(h, &ctx, &neg, inputs),
        CallShape::BidiStreaming => run_bidi(h, &ctx, &neg, inputs, cancel_after),
    }
}

} // verus!
