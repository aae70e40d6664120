//! Opaque message payloads and the per-call context handed to handlers.

use vstd::prelude::*;

use crate::codec::CompressionEncoding;
use crate::codec::MessageSizeLimits;

verus! {

/// An opaque message payload. The dispatcher never looks inside a payload;
/// it only measures it against the negotiated size limits and forwards it.
pub struct Msg {
    pub data: Vec<u8>,
}

impl View for Msg {
    type V = Seq<u8>;

    open spec fn view(&self) -> Seq<u8> {
        self.data@
    }
}

impl Msg {
    /// Wraps raw bytes as a message payload.
    pub fn new(data: Vec<u8>) -> (m: Msg)
        ensures
            m@ == data@,
    {
        Msg { data }
    }

    /// The encoded length of the payload in bytes.
    pub fn len(&self) -> (n: usize)
        ensures
            n == self@.len(),
    {
        self.data.len()
    }
}

/// Per-invocation state: the negotiated encoding and limits, the cooperative
/// cancellation flag, and metadata attached for the handler to read.
///
/// A context is created when a call begins and dropped when its outcome is
/// finalized; it is owned by exactly one call.
pub struct CallContext {
    pub service: String,
    pub method: String,
    pub encoding: CompressionEncoding,
    pub limits: MessageSizeLimits,
    pub cancelled: bool,
    pub metadata: Vec<(String, String)>,
}

impl CallContext {
    /// Builds the context for one call, attaching the identifying metadata
    /// (service name and method name) the adapters owe every handler.
    pub fn new(
        service: String,
        method: String,
        encoding: CompressionEncoding,
        limits: MessageSizeLimits,
    ) -> (ctx: CallContext)
        ensures
            ctx.service@ == service@,
            ctx.method@ == method@,
            ctx.encoding == encoding,
            ctx.limits == limits,
            !ctx.cancelled,
            ctx.metadata@.len() == 2,
            ctx.metadata@[0].0@ == "service"@,
            ctx.metadata@[0].1@ == service@,
            ctx.metadata@[1].0@ == "method"@,
            ctx.metadata@[1].1@ == method@,
    {
        let mut metadata: Vec<(String, String)> = Vec::new();
        metadata.push((String::from_str("service"), service.clone()));
        metadata.push((String::from_str("method"), method.clone()));
        CallContext { service, method, encoding, limits, cancelled: false, metadata }
    }

    /// Attaches one further metadata pair.
    pub fn add_metadata(&mut self, key: String, value: String)
        ensures
            final(self).metadata@ == old(self).metadata@.push((key, value)),
            final(self).service == old(self).service,
            final(self).method == old(self).method,
            final(self).encoding == old(self).encoding,
            final(self).limits == old(self).limits,
            final(self).cancelled == old(self).cancelled,
    {
        self.metadata.push((key, value));
    }

    /// Records that the peer or a deadline cancelled the call; observed by
    /// the adapters at their next suspension point.
    pub fn cancel(&mut self)
        ensures
            final(self).cancelled,
            final(self).service == old(self).service,
            final(self).method == old(self).method,
            final(self).encoding == old(self).encoding,
            final(self).limits == old(self).limits,
            final(self).metadata == old(self).metadata,
    {
        self.cancelled = true;
    }
}

} // verus!
