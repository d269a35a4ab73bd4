use weadless::backend::{
    BackendChoice, BackendKind, OutputBackend, OutputRequest, ShutdownFanout,
};

#[test]
fn output_names_select_their_request() {
    assert_eq!(OutputRequest::parse("none"), OutputRequest::Off);
    assert_eq!(OutputRequest::parse("appsrc"), OutputRequest::Stream);
    assert_eq!(OutputRequest::parse("rtsp"), OutputRequest::StreamServer);
    assert_eq!(OutputRequest::parse("vnc"), OutputRequest::Framebuffer);
    assert_eq!(OutputRequest::parse(""), OutputRequest::Off);
    assert_eq!(OutputRequest::parse("VNC"), OutputRequest::Off);
    assert_eq!(OutputRequest::parse("anything"), OutputRequest::Off);
}

#[test]
fn each_request_has_its_backend() {
    assert_eq!(
        OutputRequest::Off.backend(),
        BackendChoice { kind: BackendKind::Disabled, unimplemented: false }
    );
    assert_eq!(
        OutputRequest::Stream.backend(),
        BackendChoice { kind: BackendKind::Streaming, unimplemented: false }
    );
    assert_eq!(
        OutputRequest::Framebuffer.backend(),
        BackendChoice { kind: BackendKind::Framebuffer, unimplemented: false }
    );
}

#[test]
fn the_reserved_stream_server_warns_and_disables() {
    assert_eq!(
        OutputRequest::parse("rtsp").backend(),
        BackendChoice { kind: BackendKind::Disabled, unimplemented: true }
    );
}

#[test]
fn shutdown_always_reaches_the_pump() {
    assert_eq!(
        BackendKind::Disabled.shutdown_fanout(),
        ShutdownFanout { pump: true, backend: false }
    );
    assert_eq!(
        BackendKind::Streaming.shutdown_fanout(),
        ShutdownFanout { pump: true, backend: true }
    );
    assert_eq!(
        BackendKind::Framebuffer.shutdown_fanout(),
        ShutdownFanout { pump: true, backend: true }
    );
}

#[test]
fn only_streaming_ends_a_stream() {
    assert!(BackendKind::Streaming.is_ending_stream());
    assert!(!BackendKind::Framebuffer.is_ending_stream());
    assert!(!BackendKind::Disabled.is_ending_stream());
    assert!(BackendKind::Streaming.is_delivering());
    assert!(BackendKind::Framebuffer.is_delivering());
    assert!(!BackendKind::Disabled.is_delivering());
}

#[test]
fn a_backend_value_knows_its_kind() {
    let off: OutputBackend<u8, u8> = OutputBackend::Disabled;
    assert_eq!(off.kind(), BackendKind::Disabled);
    assert_eq!(OutputBackend::<u8, u8>::Streaming(1).kind(), BackendKind::Streaming);
    assert_eq!(OutputBackend::<u8, u8>::Framebuffer(2).kind(), BackendKind::Framebuffer);
}
