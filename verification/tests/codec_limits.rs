use ogham::codec::CodecNegotiator;
use ogham::codec::CompressionEncoding;
use ogham::codec::EncodingSet;
use ogham::codec::MessageSizeLimits;
use ogham::codec::DEFAULT_MAX_DECODED_BYTES;
use ogham::message::Msg;
use ogham::router::ServiceHandle;
use ogham::status::DispatchError;

fn negotiator_with(send: EncodingSet, accept: EncodingSet) -> CodecNegotiator {
    CodecNegotiator::new(accept, send, MessageSizeLimits::unconfigured())
}

#[test]
fn outbound_selection_falls_back_to_identity() {
    // Service sends {gzip, identity}; the peer accepts only identity.
    let send = EncodingSet::empty().enable(CompressionEncoding::Gzip);
    let peer = EncodingSet::empty();
    let neg = negotiator_with(send, EncodingSet::empty());
    assert_eq!(neg.negotiate_outbound(peer), CompressionEncoding::Identity);
}

#[test]
fn outbound_selection_prefers_a_shared_compressed_encoding() {
    let send = EncodingSet::empty().enable(CompressionEncoding::Gzip).enable(
        CompressionEncoding::Zstd,
    );
    let peer = EncodingSet::empty().enable(CompressionEncoding::Gzip);
    let neg = negotiator_with(send, EncodingSet::empty());
    assert_eq!(neg.negotiate_outbound(peer), CompressionEncoding::Gzip);

    let peer = EncodingSet::empty().enable(CompressionEncoding::Zstd);
    assert_eq!(neg.negotiate_outbound(peer), CompressionEncoding::Zstd);
}

#[test]
fn outbound_selection_is_deterministic() {
    let send = EncodingSet::empty().enable(CompressionEncoding::Gzip);
    let peer = EncodingSet::empty();
    let neg = negotiator_with(send, EncodingSet::empty());
    let first = neg.negotiate_outbound(peer);
    for _ in 0..10 {
        assert_eq!(neg.negotiate_outbound(peer), first);
    }
}

#[test]
fn inbound_negotiation_requires_an_accepted_encoding() {
    let accept = EncodingSet::empty().enable(CompressionEncoding::Gzip);
    let neg = negotiator_with(EncodingSet::empty(), accept);
    assert_eq!(
        neg.negotiate_inbound(CompressionEncoding::Gzip),
        Ok(CompressionEncoding::Gzip)
    );
    assert_eq!(
        neg.negotiate_inbound(CompressionEncoding::Identity),
        Ok(CompressionEncoding::Identity)
    );
    assert_eq!(
        neg.negotiate_inbound(CompressionEncoding::Zstd),
        Err(DispatchError::UnsupportedEncoding)
    );
}

#[test]
fn decoded_limit_rejects_only_oversize_messages() {
    let limits = MessageSizeLimits { max_decoded: Some(3), max_encoded: None };
    assert!(limits.check_decoded(&Msg::new(b"abc".to_vec())).is_ok());
    assert_eq!(
        limits.check_decoded(&Msg::new(b"abcd".to_vec())),
        Err(DispatchError::MessageTooLarge)
    );
}

#[test]
fn encoded_limit_defaults_to_unbounded() {
    let limits = MessageSizeLimits::unconfigured();
    let big = Msg::new(vec![0u8; DEFAULT_MAX_DECODED_BYTES + 1]);
    assert!(limits.check_encoded(&big).is_ok());
}

#[test]
fn decoded_limit_defaults_to_a_finite_cap() {
    let limits = MessageSizeLimits::unconfigured();
    let at_cap = Msg::new(vec![0u8; DEFAULT_MAX_DECODED_BYTES]);
    assert!(limits.check_decoded(&at_cap).is_ok());
    let over_cap = Msg::new(vec![0u8; DEFAULT_MAX_DECODED_BYTES + 1]);
    assert_eq!(limits.check_decoded(&over_cap), Err(DispatchError::MessageTooLarge));
}

#[test]
fn admitted_messages_pass_through_unchanged() {
    let neg = CodecNegotiator::new(
        EncodingSet::empty(),
        EncodingSet::empty(),
        MessageSizeLimits { max_decoded: Some(8), max_encoded: Some(8) },
    );
    let inbound = neg.admit_inbound(Msg::new(b"payload".to_vec()));
    assert_eq!(inbound.map(|m| m.data), Ok(b"payload".to_vec()));
    let outbound = neg.admit_outbound(Msg::new(b"payload".to_vec()));
    assert_eq!(outbound.map(|m| m.data), Ok(b"payload".to_vec()));

    let rejected = neg.admit_inbound(Msg::new(b"oversized!".to_vec()));
    assert_eq!(rejected.map(|m| m.data), Err(DispatchError::MessageTooLarge));
}

#[test]
fn service_handle_builders_accumulate_configuration() {
    let h = ServiceHandle::new()
        .accept_compressed(CompressionEncoding::Gzip)
        .send_compressed(CompressionEncoding::Zstd)
        .max_decoding_message_size(1024)
        .max_encoding_message_size(2048);
    assert!(h.accept.gzip);
    assert!(!h.accept.zstd);
    assert!(h.send.zstd);
    assert!(!h.send.gzip);
    assert_eq!(h.limits.max_decoded, Some(1024));
    assert_eq!(h.limits.max_encoded, Some(2048));

    let n = h.negotiator();
    assert_eq!(n.limits.max_decoded, Some(1024));
    assert!(n.accept.gzip);
    assert!(n.send.zstd);
}

#[test]
fn enabling_identity_changes_no_set() {
    let s = EncodingSet::empty().enable(CompressionEncoding::Identity);
    assert!(!s.gzip && !s.zstd);
    assert!(s.contains(CompressionEncoding::Identity));
    assert!(!s.contains(CompressionEncoding::Gzip));
}
