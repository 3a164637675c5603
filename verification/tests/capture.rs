use wayle_config::capture::{
    build_capture_result, client_handles, needs_new_buffer, parse_window_handle, BufferSpec,
    CaptureClient, CaptureCommand, CaptureEvent, CapturePhase, CaptureRequest, CapturedFrame,
    FrameEvent, FrameState, PixelFormat,
};

fn client(address: &str, x: i32) -> CaptureClient {
    CaptureClient { address: address.to_string(), x, y: 0, width: 100, height: 50 }
}

fn request(clients: Vec<CaptureClient>) -> CaptureRequest {
    CaptureRequest { session: 7, ws_id: 3, monitor_width: 1920, monitor_height: 1080, clients }
}

fn frame(byte: u8) -> CapturedFrame {
    CapturedFrame { data: vec![byte; 4], width: 1, height: 1, stride: 4 }
}

#[test]
fn window_handles() {
    assert_eq!(parse_window_handle("0x55d1c0a0"), Some(0x55d1c0a0));
    assert_eq!(parse_window_handle("ff"), Some(0xff));
    assert_eq!(parse_window_handle("0x1234567890"), Some(0x34567890));
    assert_eq!(parse_window_handle("0x"), None);
    assert_eq!(parse_window_handle("zz"), None);
    let r = request(vec![client("0x10", 0), client("xyz", 1)]);
    assert_eq!(client_handles(&r), vec![Some(16), None]);
}

#[test]
fn capture_result_keeps_captured_windows_in_order() {
    let r = request(vec![client("0x1", 10), client("0x2", 20), client("0x3", 30)]);
    let res = build_capture_result(&r, vec![Some(frame(1)), None, Some(frame(3))]).unwrap();
    assert_eq!(res.session, 7);
    assert_eq!(res.ws_id, 3);
    assert_eq!(res.monitor_width, 1920);
    assert_eq!(res.monitor_height, 1080);
    assert_eq!(res.thumbnails.len(), 2);
    assert_eq!(res.thumbnails[0].address, "0x1");
    assert_eq!(res.thumbnails[0].x, 10);
    assert_eq!(res.thumbnails[0].data, vec![1; 4]);
    assert_eq!(res.thumbnails[1].address, "0x3");
    assert_eq!(res.thumbnails[1].win_width, 100);
    assert_eq!(res.thumbnails[1].stride, 4);
}

#[test]
fn capture_result_empty_when_nothing_captured() {
    let r = request(vec![client("0x1", 0)]);
    assert!(build_capture_result(&r, vec![None]).is_none());
    assert!(build_capture_result(&request(vec![]), vec![]).is_none());
}

#[test]
fn frame_negotiation_prefers_argb() {
    let mut s = FrameState::new();
    s.apply(FrameEvent::Buffer { format: PixelFormat::Other, width: 9, height: 9, stride: 9 });
    assert_eq!(s.format, None);
    s.apply(FrameEvent::Buffer { format: PixelFormat::Xrgb8888, width: 10, height: 20, stride: 40 });
    assert_eq!(s.format, Some(PixelFormat::Xrgb8888));
    s.apply(FrameEvent::Buffer { format: PixelFormat::Argb8888, width: 11, height: 21, stride: 44 });
    assert_eq!(s.format, Some(PixelFormat::Argb8888));
    assert_eq!((s.width, s.height, s.stride), (11, 21, 44));
    s.apply(FrameEvent::Buffer { format: PixelFormat::Xrgb8888, width: 1, height: 1, stride: 4 });
    assert_eq!(s.format, Some(PixelFormat::Argb8888));
    assert_eq!(s.width, 11);
    s.apply(FrameEvent::BufferDone);
    s.apply(FrameEvent::Ready);
    assert!(s.buffer_done && s.frame_ready && !s.frame_failed);
    s.apply(FrameEvent::Failed);
    assert!(s.frame_failed);
    s.reset_frame();
    assert_eq!(s, FrameState::new());
}

#[test]
fn capture_thread_phases() {
    let req = || request(vec![client("0x1", 0)]);
    let p = CapturePhase::Idle.step(CaptureEvent::Command(CaptureCommand::StartStreaming(req())));
    assert!(matches!(p, CapturePhase::DrainingIdle(_)));
    let p = p.step(CaptureEvent::Command(CaptureCommand::StopStreaming));
    let p = p.step(CaptureEvent::QueueEmpty);
    assert!(matches!(p, CapturePhase::Idle));
    let p = p.step(CaptureEvent::Command(CaptureCommand::StartStreaming(req())));
    let p = p.step(CaptureEvent::QueueEmpty);
    assert!(matches!(p, CapturePhase::Streaming(ref r) if r.session == 7));
    let p = p.step(CaptureEvent::Timeout);
    assert!(matches!(p, CapturePhase::Streaming(_)));
    let p = p.step(CaptureEvent::Command(CaptureCommand::StopStreaming));
    assert!(matches!(p, CapturePhase::Idle));
    let p = p.step(CaptureEvent::Disconnected);
    assert!(p.is_exited());
    let p = p.step(CaptureEvent::Command(CaptureCommand::StopStreaming));
    assert!(p.is_exited());
}

#[test]
fn new_request_replaces_stream() {
    let mut newer = request(vec![]);
    newer.session = 9;
    let p = CapturePhase::Streaming(request(vec![]));
    let p = p.step(CaptureEvent::Command(CaptureCommand::StartStreaming(newer)));
    let p = p.step(CaptureEvent::QueueEmpty);
    assert!(matches!(p, CapturePhase::Streaming(ref r) if r.session == 9));
    let p = p.step(CaptureEvent::ResultDropped);
    assert!(p.is_exited());
}

#[test]
fn buffer_spec_after_offers() {
    let mut s = FrameState::new();
    assert!(!s.offers_complete());
    assert_eq!(s.buffer_spec(), None);
    s.apply(FrameEvent::Buffer { format: PixelFormat::Argb8888, width: 640, height: 480, stride: 2560 });
    s.apply(FrameEvent::BufferDone);
    assert!(s.offers_complete());
    assert_eq!(
        s.buffer_spec(),
        Some(BufferSpec { format: PixelFormat::Argb8888, width: 640, height: 480, stride: 2560, size: 1_228_800 })
    );
    s.apply(FrameEvent::Failed);
    assert_eq!(s.buffer_spec(), None);
    s.begin_copy();
    assert!(!s.frame_failed && !s.frame_ready && s.buffer_done);
    assert!(!s.copy_complete());
    s.apply(FrameEvent::Ready);
    assert!(s.copy_complete());
}

#[test]
fn buffer_reuse() {
    assert!(needs_new_buffer(None, 0));
    assert!(needs_new_buffer(Some(10), 11));
    assert!(!needs_new_buffer(Some(10), 10));
    assert!(!needs_new_buffer(Some(10), 4));
}

#[test]
fn requests_can_be_cloned() {
    let r = request(vec![client("0x1", 2)]);
    let c = CaptureCommand::StartStreaming(r.clone());
    match c.clone() {
        CaptureCommand::StartStreaming(x) => {
            assert_eq!(x.session, r.session);
            assert_eq!(x.clients[0].address, "0x1");
        }
        CaptureCommand::StopStreaming => panic!("wrong command"),
    }
}
