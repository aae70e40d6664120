//! Compression negotiation and per-message size limits.
//!
//! Each call negotiates one inbound and one outbound encoding up front, and
//! every individual message is measured against the limits independently —
//! never aggregated across a stream.

use vstd::prelude::*;

use crate::message::Msg;
use crate::status::DispatchError;

verus! {

/// The decoded-size cap applied when none is configured, to keep a single
/// message from growing without bound.
pub const DEFAULT_MAX_DECODED_BYTES: usize = 4194304;

/// A compression encoding for message payloads. `Identity` is no
/// compression and is always acceptable to both sides.
#[derive(Clone, Copy, PartialEq, Eq, Structural, Debug)]
pub enum CompressionEncoding {
    Identity,
    Gzip,
    Zstd,
}

/// A set of enabled compression encodings. `Identity` is a member of every
/// set: a peer may always decline compression.
#[derive(Clone, Copy, PartialEq, Eq, Structural, Debug)]
pub struct EncodingSet {
    pub gzip: bool,
    pub zstd: bool,
}

impl EncodingSet {
    /// Whether `e` is in the set. `Identity` always is.
    pub open spec fn spec_contains(self, e: CompressionEncoding) -> bool {
        match e {
            CompressionEncoding::Identity => true,
            CompressionEncoding::Gzip => self.gzip,
            CompressionEncoding::Zstd => self.zstd,
        }
    }

    /// The set holding no compressed encoding.
    pub fn empty() -> (s: EncodingSet)
        ensures
            !s.gzip,
            !s.zstd,
    {
        EncodingSet { gzip: false, zstd: false }
    }

    /// Membership test.
    pub fn contains(&self, e: CompressionEncoding) -> (b: bool)
        ensures
            b == self.spec_contains(e),
    {
        match e {
            CompressionEncoding::Identity => true,
            CompressionEncoding::Gzip => self.gzip,
            CompressionEncoding::Zstd => self.zstd,
        }
    }

    /// Returns the set with `e` enabled; enabling `Identity` changes
    /// nothing, since it is always a member.
    pub fn enable(self, e: CompressionEncoding) -> (s: EncodingSet)
        ensures
            match e {
                CompressionEncoding::Identity => s == self,
                CompressionEncoding::Gzip => s.gzip && s.zstd == self.zstd,
                CompressionEncoding::Zstd => s.zstd && s.gzip == self.gzip,
            },
    {
        match e {
            CompressionEncoding::Identity => self,
            CompressionEncoding::Gzip => EncodingSet { gzip: true, ..self },
            CompressionEncoding::Zstd => EncodingSet { zstd: true, ..self },
        }
    }
}

/// Per-message size limits. Absence of a bound means: decoded messages fall
/// back to [`DEFAULT_MAX_DECODED_BYTES`], encoded messages are unbounded.
#[derive(Clone, Copy, Debug)]
pub struct MessageSizeLimits {
    pub max_decoded: Option<usize>,
    pub max_encoded: Option<usize>,
}

impl MessageSizeLimits {
    /// The effective cap on a decoded message.
    pub open spec fn spec_decoded_cap(self) -> nat {
        match self.max_decoded {
            Some(c) => c as nat,
            None => DEFAULT_MAX_DECODED_BYTES as nat,
        }
    }

    /// Whether a decoded message of `n` bytes is admitted.
    pub open spec fn decoded_within(self, n: nat) -> bool {
        n <= self.spec_decoded_cap()
    }

    /// Whether an encoded message of `n` bytes is admitted.
    pub open spec fn encoded_within(self, n: nat) -> bool {
        match self.max_encoded {
            Some(c) => n <= c as nat,
            None => true,
        }
    }

    /// Limits with neither bound configured.
    pub fn unconfigured() -> (l: MessageSizeLimits)
        ensures
            l.max_decoded is None,
            l.max_encoded is None,
    {
        MessageSizeLimits { max_decoded: None, max_encoded: None }
    }

    /// Checks one decoded message against the decoded-size cap.
    pub fn check_decoded(&self, m: &Msg) -> (r: Result<(), DispatchError>)
        ensures
            r is Ok <==> self.decoded_within(m@.len()),
            r matches Err(e) ==> e == DispatchError::MessageTooLarge,
    {
        let cap: usize = match self.max_decoded {
            Some(c) => c,
            None => DEFAULT_MAX_DECODED_BYTES,
        };
        if m.len() <= cap {
            Ok(())
        } else {
            Err(DispatchError::MessageTooLarge)
        }
    }

    /// Checks one encoded message against the encoded-size cap.
    pub fn check_encoded(&self, m: &Msg) -> (r: Result<(), DispatchError>)
        ensures
            r is Ok <==> self.encoded_within(m@.len()),
            r matches Err(e) ==> e == DispatchError::MessageTooLarge,
    {
        match self.max_encoded {
            Some(c) => {
                if m.len() <= c {
                    Ok(())
                } else {
                    Err(DispatchError::MessageTooLarge)
                }
            },
            None => Ok(()),
        }
    }
}

/// The outbound encoding selected for a call: the preferred member of the
/// intersection of the service's send set and the peer's accept set, falling
/// back to `Identity` when the intersection holds no compressed encoding.
pub open spec fn spec_select_outbound(send: EncodingSet, peer: EncodingSet) -> CompressionEncoding {
    if send.gzip && peer.gzip {
        CompressionEncoding::Gzip
    } else if send.zstd && peer.zstd {
        CompressionEncoding::Zstd
    } else {
        CompressionEncoding::Identity
    }
}

/// Resolves the compression encodings and size limits for one call.
#[derive(Clone, Copy, Debug)]
pub struct CodecNegotiator {
    pub accept: EncodingSet,
    pub send: EncodingSet,
    pub limits: MessageSizeLimits,
}

impl CodecNegotiator {
    pub fn new(accept: EncodingSet, send: EncodingSet, limits: MessageSizeLimits) -> (n:
        CodecNegotiator)
        ensures
            n.accept == accept,
            n.send == send,
            n.limits == limits,
    {
        CodecNegotiator { accept, send, limits }
    }

    /// Selects the decompression encoding for inbound payloads: the
    /// encoding the peer declared, provided the service accepts it.
    pub fn negotiate_inbound(&self, declared: CompressionEncoding) -> (r: Result<
        CompressionEncoding,
        DispatchError,
    >)
        ensures
            self.accept.spec_contains(declared) ==> r == Result::<
                CompressionEncoding,
                DispatchError,
            >::Ok(declared),
            !self.accept.spec_contains(declared) ==> r == Result::<
                CompressionEncoding,
                DispatchError,
            >::Err(DispatchError::UnsupportedEncoding),
    {
        if self.accept.contains(declared) {
            Ok(declared)
        } else {
            Err(DispatchError::UnsupportedEncoding)
        }
    }

    /// Selects the compression encoding for outbound payloads from the
    /// service's send set and the peer's declared accept set. Deterministic:
    /// the same sets always select the same encoding.
    pub fn negotiate_outbound(&self, peer: EncodingSet) -> (e: CompressionEncoding)
        ensures
            e == spec_select_outbound(self.send, peer),
    {
        if self.send.gzip && peer.gzip {
            CompressionEncoding::Gzip
        } else if self.send.zstd && peer.zstd {
            CompressionEncoding::Zstd
        } else {
            CompressionEncoding::Identity
        }
    }

    /// Admits or rejects one inbound message by its decoded size. An
    /// admitted message passes through unchanged; a rejected one never
    /// reaches a handler.
    pub fn admit_inbound(&self, m: Msg) -> (r: Result<Msg, DispatchError>)
        ensures
            self.limits.decoded_within(m@.len()) ==> r == Result::<Msg, DispatchError>::Ok(m),
            !self.limits.decoded_within(m@.len()) ==> r == Result::<Msg, DispatchError>::Err(
                DispatchError::MessageTooLarge,
            ),
    {
        match self.limits.check_decoded(&m) {
            Ok(()) => Ok(m),
            Err(e) => Err(e),
        }
    }

    /// Admits or rejects one outbound message by its encoded size. An
    /// admitted message passes through unchanged.
    pub fn admit_outbound(&self, m: Msg) -> (r: Result<Msg, DispatchError>)
        ensures
            self.limits.encoded_within(m@.len()) ==> r == Result::<Msg, DispatchError>::Ok(m),
            !self.limits.encoded_within(m@.len()) ==> r == Result::<Msg, DispatchError>::Err(
                DispatchError::MessageTooLarge,
            ),
    {
        match self.limits.check_encoded(&m) {
            Ok(()) => Ok(m),
            Err(e) => Err(e),
        }
    }
}

/// The outbound selection never invents an encoding: it is `Identity`, or
/// it is a compressed encoding both the service sends and the peer accepts.
pub proof fn lemma_outbound_selection_sound(send: EncodingSet, peer: EncodingSet)
    ensures
        spec_select_outbound(send, peer) == CompressionEncoding::Identity || (send.spec_contains(
            spec_select_outbound(send, peer),
        ) && peer.spec_contains(spec_select_outbound(send, peer))),
{
}

} // verus!
