use ogham::adapter::BidiHandler;
use ogham::adapter::CallShape;
use ogham::adapter::ClientStreamHandler;
use ogham::adapter::ServerStreamHandler;
use ogham::adapter::UnaryHandler;
use ogham::codec::CompressionEncoding;
use ogham::message::CallContext;
use ogham::message::Msg;
use ogham::router::dispatch;
use ogham::router::MethodDescriptor;
use ogham::router::Router;
use ogham::router::ServiceHandle;
use ogham::status::Outcome;
use ogham::status::StatusCode;
use ogham::status::StreamOutcome;

/// An echo service: unary and bidi echo each payload back, the
/// server-streaming shape replays a configured script, the
/// client-streaming shape concatenates everything it was fed.
struct EchoService {
    unary_calls: usize,
    server_stream_calls: usize,
    stream_script: Vec<Vec<u8>>,
    client_fed: Vec<u8>,
    client_reply_count: usize,
}

impl EchoService {
    fn new() -> EchoService {
        EchoService {
            unary_calls: 0,
            server_stream_calls: 0,
            stream_script: Vec::new(),
            client_fed: Vec::new(),
            client_reply_count: 1,
        }
    }
}

impl UnaryHandler for EchoService {
    fn handle(&mut self, input: &Msg, _ctx: &CallContext) -> Outcome {
        self.unary_calls += 1;
        Outcome::Success(Msg::new(input.data.clone()))
    }
}

impl ServerStreamHandler for EchoService {
    fn handle(&mut self, _input: &Msg, _ctx: &CallContext) -> StreamOutcome {
        self.server_stream_calls += 1;
        let outs = self.stream_script.iter().map(|d| Msg::new(d.clone())).collect();
        StreamOutcome::Streamed(outs)
    }
}

impl ClientStreamHandler for EchoService {
    fn accept(&mut self, input: &Msg, _ctx: &CallContext) {
        self.client_fed.extend_from_slice(&input.data);
    }

    fn finish(&mut self, _ctx: &CallContext) -> StreamOutcome {
        let mut outs = Vec::new();
        for _ in 0..self.client_reply_count {
            outs.push(Msg::new(self.client_fed.clone()));
        }
        StreamOutcome::Streamed(outs)
    }
}

impl BidiHandler for EchoService {
    fn on_input(&mut self, input: &Msg, _ctx: &CallContext) -> Vec<Msg> {
        vec![Msg::new(input.data.clone())]
    }

    fn on_end(&mut self, _ctx: &CallContext) -> StreamOutcome {
        StreamOutcome::Streamed(Vec::new())
    }
}

fn echo_router(shape: CallShape, handle: ServiceHandle) -> Router {
    let mut router = Router::new();
    let desc = MethodDescriptor::new(String::from("Echo"), String::from("Say"), shape);
    assert!(router.register(desc, handle).is_ok());
    router
}

fn msg(bytes: &[u8]) -> Msg {
    Msg::new(bytes.to_vec())
}

#[test]
fn resolve_returns_registered_descriptor() {
    let mut router = Router::new();
    let d1 = MethodDescriptor::new(String::from("Echo"), String::from("Say"), CallShape::Unary);
    let d2 = MethodDescriptor::new(
        String::from("Echo"),
        String::from("Watch"),
        CallShape::ServerStreaming,
    );
    assert!(router.register(d1, ServiceHandle::new()).is_ok());
    assert!(router.register(d2, ServiceHandle::new()).is_ok());

    let e1 = router.resolve(&String::from("/Echo/Say")).expect("registered path must resolve");
    assert_eq!(e1.desc.full_path, "/Echo/Say");
    assert_eq!(e1.desc.service, "Echo");
    assert_eq!(e1.desc.method, "Say");
    assert_eq!(e1.desc.shape, CallShape::Unary);

    let e2 = router.resolve(&String::from("/Echo/Watch")).expect("registered path must resolve");
    assert_eq!(e2.desc.shape, CallShape::ServerStreaming);

    assert!(router.resolve(&String::from("/Echo/Missing")).is_none());
    assert!(router.resolve(&String::from("/Echo/Sa")).is_none());
    assert!(router.resolve(&String::from("Echo/Say")).is_none());
}

#[test]
fn duplicate_registration_fails_and_leaves_table_unchanged() {
    let mut router = Router::new();
    let d1 = MethodDescriptor::new(String::from("Echo"), String::from("Say"), CallShape::Unary);
    let d2 = MethodDescriptor::new(
        String::from("Echo"),
        String::from("Say"),
        CallShape::ClientStreaming,
    );
    assert!(router.register(d1, ServiceHandle::new()).is_ok());
    let r = router.register(d2, ServiceHandle::new().max_decoding_message_size(1));
    assert_eq!(r, Err(ogham::status::DispatchError::DuplicatePath));

    assert_eq!(router.entries.len(), 1);
    let e = router.resolve(&String::from("/Echo/Say")).expect("first registration must survive");
    assert_eq!(e.desc.shape, CallShape::Unary);
    assert_eq!(e.handle.limits.max_decoded, None);
}

#[test]
fn unary_wrong_arity_is_protocol_violation() {
    let router = echo_router(CallShape::Unary, ServiceHandle::new());
    let mut service = EchoService::new();

    let r = dispatch(
        &router,
        &mut service,
        &String::from("/Echo/Say"),
        CompressionEncoding::Identity,
        Vec::new(),
        None,
    );
    assert_eq!(r.status.code, StatusCode::InvalidArgument);
    assert_eq!(r.status.message, "protocol violation");
    assert_eq!(r.outputs.len(), 0);
    assert_eq!(service.unary_calls, 0);

    let r = dispatch(
        &router,
        &mut service,
        &String::from("/Echo/Say"),
        CompressionEncoding::Identity,
        vec![msg(b"a"), msg(b"b")],
        None,
    );
    assert_eq!(r.status.code, StatusCode::InvalidArgument);
    assert_eq!(r.outputs.len(), 0);
    assert_eq!(service.unary_calls, 0);
}

#[test]
fn unary_single_input_invokes_handler_exactly_once() {
    let router = echo_router(CallShape::Unary, ServiceHandle::new());
    let mut service = EchoService::new();
    let r = dispatch(
        &router,
        &mut service,
        &String::from("/Echo/Say"),
        CompressionEncoding::Identity,
        vec![msg(b"ping")],
        None,
    );
    assert_eq!(service.unary_calls, 1);
    assert_eq!(r.status.code, StatusCode::Okay);
    assert_eq!(r.outputs.len(), 1);
    assert_eq!(r.outputs[0].data, b"ping");
}

#[test]
fn server_stream_cancellation_truncates_output() {
    let router = echo_router(CallShape::ServerStreaming, ServiceHandle::new());
    let mut service = EchoService::new();
    service.stream_script =
        vec![b"one".to_vec(), b"two".to_vec(), b"three".to_vec(), b"four".to_vec(), b"five".to_vec()];

    let r = dispatch(
        &router,
        &mut service,
        &String::from("/Echo/Say"),
        CompressionEncoding::Identity,
        vec![msg(b"start")],
        Some(3),
    );
    assert_eq!(r.outputs.len(), 3);
    assert_eq!(r.outputs[0].data, b"one");
    assert_eq!(r.outputs[1].data, b"two");
    assert_eq!(r.outputs[2].data, b"three");
    assert_eq!(r.status.code, StatusCode::Cancelled);
}

#[test]
fn server_stream_runs_to_completion_without_cancellation() {
    let router = echo_router(CallShape::ServerStreaming, ServiceHandle::new());
    let mut service = EchoService::new();
    service.stream_script = vec![b"one".to_vec(), b"two".to_vec()];
    let r = dispatch(
        &router,
        &mut service,
        &String::from("/Echo/Say"),
        CompressionEncoding::Identity,
        vec![msg(b"start")],
        None,
    );
    assert_eq!(service.server_stream_calls, 1);
    assert_eq!(r.outputs.len(), 2);
    assert_eq!(r.status.code, StatusCode::Okay);
}

#[test]
fn oversize_input_never_reaches_handler() {
    let handle = ServiceHandle::new().max_decoding_message_size(4);
    let router = echo_router(CallShape::Unary, handle);
    let mut service = EchoService::new();
    let r = dispatch(
        &router,
        &mut service,
        &String::from("/Echo/Say"),
        CompressionEncoding::Identity,
        vec![msg(b"five!")],
        None,
    );
    assert_eq!(r.status.code, StatusCode::ResourceExhausted);
    assert_eq!(r.status.message, "message too large");
    assert_eq!(r.outputs.len(), 0);
    assert_eq!(service.unary_calls, 0);
}

#[test]
fn input_within_limit_passes_unchanged() {
    let handle = ServiceHandle::new().max_decoding_message_size(4);
    let router = echo_router(CallShape::Unary, handle);
    let mut service = EchoService::new();
    let r = dispatch(
        &router,
        &mut service,
        &String::from("/Echo/Say"),
        CompressionEncoding::Identity,
        vec![msg(b"four")],
        None,
    );
    assert_eq!(r.status.code, StatusCode::Okay);
    assert_eq!(r.outputs.len(), 1);
    assert_eq!(r.outputs[0].data, b"four");
}

#[test]
fn oversize_output_truncates_stream_with_resource_exhausted() {
    let handle = ServiceHandle::new().max_encoding_message_size(3);
    let router = echo_router(CallShape::ServerStreaming, handle);
    let mut service = EchoService::new();
    service.stream_script = vec![b"ok".to_vec(), b"too long".to_vec(), b"ok2".to_vec()];
    let r = dispatch(
        &router,
        &mut service,
        &String::from("/Echo/Say"),
        CompressionEncoding::Identity,
        vec![msg(b"start")],
        None,
    );
    assert_eq!(r.outputs.len(), 1);
    assert_eq!(r.outputs[0].data, b"ok");
    assert_eq!(r.status.code, StatusCode::ResourceExhausted);
}

#[test]
fn client_stream_aggregates_all_inputs() {
    let router = echo_router(CallShape::ClientStreaming, ServiceHandle::new());
    let mut service = EchoService::new();
    let r = dispatch(
        &router,
        &mut service,
        &String::from("/Echo/Say"),
        CompressionEncoding::Identity,
        vec![msg(b"a"), msg(b"b"), msg(b"c")],
        None,
    );
    assert_eq!(r.status.code, StatusCode::Okay);
    assert_eq!(r.outputs.len(), 1);
    assert_eq!(r.outputs[0].data, b"abc");
    assert_eq!(service.client_fed, b"abc");
}

#[test]
fn client_stream_with_no_inputs_still_finishes() {
    let router = echo_router(CallShape::ClientStreaming, ServiceHandle::new());
    let mut service = EchoService::new();
    let r = dispatch(
        &router,
        &mut service,
        &String::from("/Echo/Say"),
        CompressionEncoding::Identity,
        Vec::new(),
        None,
    );
    assert_eq!(r.status.code, StatusCode::Okay);
    assert_eq!(r.outputs.len(), 1);
    assert_eq!(r.outputs[0].data, b"");
}

#[test]
fn client_stream_second_output_is_protocol_violation() {
    let router = echo_router(CallShape::ClientStreaming, ServiceHandle::new());
    let mut service = EchoService::new();
    service.client_reply_count = 2;
    let r = dispatch(
        &router,
        &mut service,
        &String::from("/Echo/Say"),
        CompressionEncoding::Identity,
        vec![msg(b"a")],
        None,
    );
    assert_eq!(r.status.code, StatusCode::InvalidArgument);
    assert_eq!(r.outputs.len(), 0);
}

#[test]
fn bidi_echoes_inputs_in_order() {
    let router = echo_router(CallShape::BidiStreaming, ServiceHandle::new());
    let mut service = EchoService::new();
    let r = dispatch(
        &router,
        &mut service,
        &String::from("/Echo/Say"),
        CompressionEncoding::Identity,
        vec![msg(b"x"), msg(b"y"), msg(b"z")],
        None,
    );
    assert_eq!(r.status.code, StatusCode::Okay);
    assert_eq!(r.outputs.len(), 3);
    assert_eq!(r.outputs[0].data, b"x");
    assert_eq!(r.outputs[1].data, b"y");
    assert_eq!(r.outputs[2].data, b"z");
}

#[test]
fn bidi_cancellation_truncates_output() {
    let router = echo_router(CallShape::BidiStreaming, ServiceHandle::new());
    let mut service = EchoService::new();
    let r = dispatch(
        &router,
        &mut service,
        &String::from("/Echo/Say"),
        CompressionEncoding::Identity,
        vec![msg(b"x"), msg(b"y"), msg(b"z")],
        Some(1),
    );
    assert_eq!(r.outputs.len(), 1);
    assert_eq!(r.outputs[0].data, b"x");
    assert_eq!(r.status.code, StatusCode::Cancelled);
}

#[test]
fn undeclared_encoding_is_rejected_before_the_handler() {
    let router = echo_router(CallShape::Unary, ServiceHandle::new());
    let mut service = EchoService::new();
    let r = dispatch(
        &router,
        &mut service,
        &String::from("/Echo/Say"),
        CompressionEncoding::Gzip,
        vec![msg(b"hi")],
        None,
    );
    assert_eq!(r.status.code, StatusCode::Unimplemented);
    assert_eq!(r.status.message, "unsupported compression encoding");
    assert_eq!(service.unary_calls, 0);

    let accepting = ServiceHandle::new().accept_compressed(CompressionEncoding::Gzip);
    let router = echo_router(CallShape::Unary, accepting);
    let r = dispatch(
        &router,
        &mut service,
        &String::from("/Echo/Say"),
        CompressionEncoding::Gzip,
        vec![msg(b"hi")],
        None,
    );
    assert_eq!(r.status.code, StatusCode::Okay);
    assert_eq!(service.unary_calls, 1);
}

#[test]
fn end_to_end_echo_scenario() {
    let router = echo_router(CallShape::Unary, ServiceHandle::new());
    let mut service = EchoService::new();

    let r = dispatch(
        &router,
        &mut service,
        &String::from("/Echo/Say"),
        CompressionEncoding::Identity,
        vec![msg(b"hi")],
        None,
    );
    assert_eq!(r.status.code, StatusCode::Okay);
    assert_eq!(r.outputs.len(), 1);
    assert_eq!(r.outputs[0].data, b"hi");
    assert_eq!(service.unary_calls, 1);

    let r = dispatch(
        &router,
        &mut service,
        &String::from("/Echo/Missing"),
        CompressionEncoding::Identity,
        vec![msg(b"hi")],
        None,
    );
    assert_eq!(r.status.code, StatusCode::Unimplemented);
    assert_eq!(r.status.message, "unimplemented");
    assert_eq!(r.outputs.len(), 0);
    assert_eq!(service.unary_calls, 1, "an unmatched route must not invoke any handler");

    let r = dispatch(
        &router,
        &mut service,
        &String::from("/Echo/Say"),
        CompressionEncoding::Identity,
        vec![msg(b"hi"), msg(b"hi")],
        None,
    );
    assert_eq!(r.status.code, StatusCode::InvalidArgument);
    assert_eq!(service.unary_calls, 1);
}
