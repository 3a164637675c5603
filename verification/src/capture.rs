//! Window capture for workspace previews: the request and result types,
//! window addresses, the negotiation of a frame's buffer, the assembly of a
//! workspace's thumbnails, and the decisions of the capture thread.
//!
//! The Wayland protocol work and the thread itself live with the caller;
//! this module decides what they do.

use vstd::prelude::*;
use crate::numbers::{parse_hex_u64, parse_hex_u64_spec};
use crate::text::strip_prefix;

verus! {

/// Interval between streaming frames in milliseconds (~10 fps).
pub const STREAM_INTERVAL_MS: u64 = 100;

/// A window to capture, with its position and size relative to the monitor.
#[derive(Debug, Clone)]
pub struct CaptureClient {
    /// Hex address string (without `0x` prefix).
    pub address: String,
    /// X position relative to monitor origin.
    pub x: i32,
    /// Y position relative to monitor origin.
    pub y: i32,
    /// Logical window width.
    pub width: i32,
    /// Logical window height.
    pub height: i32,
}

/// Request to capture all windows in a workspace.
#[derive(Debug, Clone)]
pub struct CaptureRequest {
    /// Opaque session identifier, carried back in results.
    pub session: u64,
    /// Workspace ID.
    pub ws_id: i64,
    /// Monitor logical width.
    pub monitor_width: u32,
    /// Monitor logical height.
    pub monitor_height: u32,
    /// Windows to capture with their positions.
    pub clients: Vec<CaptureClient>,
}

/// Commands sent to the capture thread.
#[derive(Debug, Clone)]
pub enum CaptureCommand {
    /// Capture a workspace and begin streaming frames at the capped rate.
    StartStreaming(CaptureRequest),
    /// Stop streaming; the thread returns to idle.
    StopStreaming,
}

/// Captured pixel data for a single window.
#[derive(Debug)]
pub struct WindowThumbnail {
    /// Raw BGRA pixel data.
    pub data: Vec<u8>,
    /// Captured image width.
    pub width: u32,
    /// Captured image height.
    pub height: u32,
    /// Bytes per row in `data`.
    pub stride: u32,
    /// Window X position relative to monitor origin.
    pub x: i32,
    /// Window Y position relative to monitor origin.
    pub y: i32,
    /// Logical window width.
    pub win_width: i32,
    /// Logical window height.
    pub win_height: i32,
    /// Hex address string (without `0x` prefix).
    pub address: String,
}

/// Result of capturing all windows in a workspace.
#[derive(Debug)]
pub struct CaptureResult {
    /// Session identifier from the originating request.
    pub session: u64,
    /// The workspace that was captured.
    pub ws_id: i64,
    /// Captured window thumbnails.
    pub thumbnails: Vec<WindowThumbnail>,
    /// Monitor logical width.
    pub monitor_width: u32,
    /// Monitor logical height.
    pub monitor_height: u32,
}

/// The window handle that an address denotes: hexadecimal, with or without
/// a `0x` prefix, truncated to 32 bits.
pub open spec fn window_handle_spec(address: Seq<char>) -> Option<u32> {
    let hex = if "0x"@.is_prefix_of(address) {
        address.skip(2)
    } else {
        address
    };
    match parse_hex_u64_spec(hex) {
        Some(v) => Some((v % 0x1_0000_0000) as u32),
        None => None,
    }
}

/// Parses a window address into the protocol's 32-bit handle.
pub fn parse_window_handle(address: &str) -> (r: Option<u32>)
    ensures
        r == window_handle_spec(address@),
{
    proof {
        reveal_strlit("0x");
    }
    let hex = match strip_prefix(address, "0x") {
        Some(rest) => rest,
        None => address,
    };
    match parse_hex_u64(hex) {
        Some(v) => {
            let h = v as u32;
            assert(h == v % 0x1_0000_0000) by (bit_vector)
                requires
                    h == v as u32,
            ;
            Some(h)
        },
        None => None,
    }
}

/// The handle of each client's window, or `None` where the address does
/// not parse; such clients are skipped.
pub fn client_handles(request: &CaptureRequest) -> (r: Vec<Option<u32>>)
    ensures
        r@.len() == request.clients@.len(),
        forall|i: int| 0 <= i < r@.len() ==> r@[i] == window_handle_spec(
            #[trigger] request.clients@[i].address@,
        ),
{
    let mut r: Vec<Option<u32>> = Vec::new();
    let mut i: usize = 0;
    while i < request.clients.len()
        invariant
            i <= request.clients@.len(),
            r@.len() == i,
            forall|j: int| 0 <= j < i ==> r@[j] == window_handle_spec(
                #[trigger] request.clients@[j].address@,
            ),
        decreases request.clients@.len() - i,
    {
        r.push(parse_window_handle(request.clients[i].address.as_str()));
        i = i + 1;
    }
    r
}

/// The pixels of one captured window.
#[derive(Debug)]
pub struct CapturedFrame {
    /// Raw pixel data.
    pub data: Vec<u8>,
    /// Image width.
    pub width: u32,
    /// Image height.
    pub height: u32,
    /// Bytes per row.
    pub stride: u32,
}

/// The abstract value of a thumbnail.
pub struct ThumbnailView {
    /// Pixel data.
    pub data: Seq<u8>,
    /// Image width, height and stride.
    pub size: (u32, u32, u32),
    /// Window position and logical size.
    pub placement: (i32, i32, i32, i32),
    /// Window address.
    pub address: Seq<char>,
}

impl View for WindowThumbnail {
    type V = ThumbnailView;

    open spec fn view(&self) -> ThumbnailView {
        ThumbnailView {
            data: self.data@,
            size: (self.width, self.height, self.stride),
            placement: (self.x, self.y, self.win_width, self.win_height),
            address: self.address@,
        }
    }
}

/// The thumbnail of a client from a captured frame.
pub open spec fn thumbnail_of(client: CaptureClient, frame: CapturedFrame) -> ThumbnailView {
    ThumbnailView {
        data: frame.data@,
        size: (frame.width, frame.height, frame.stride),
        placement: (client.x, client.y, client.width, client.height),
        address: client.address@,
    }
}

/// The thumbnails of the clients whose windows were captured, in client
/// order.
pub open spec fn thumbnails_spec(clients: Seq<CaptureClient>, frames: Seq<Option<CapturedFrame>>) -> Seq<ThumbnailView>
    decreases frames.len(),
{
    if frames.len() == 0 || clients.len() == 0 {
        Seq::empty()
    } else {
        let rest = thumbnails_spec(clients.drop_last(), frames.drop_last());
        match frames.last() {
            Some(f) => rest.push(thumbnail_of(clients.last(), f)),
            None => rest,
        }
    }
}

/// The abstract values of a list of thumbnails.
pub open spec fn thumbnails_view(v: Seq<WindowThumbnail>) -> Seq<ThumbnailView> {
    v.map_values(|t: WindowThumbnail| t@)
}

/// Assembles the result of capturing a workspace from the frame captured
/// for each client (`None` where the client was skipped or its capture
/// failed). There is no result when no window was captured.
pub fn build_capture_result(request: &CaptureRequest, frames: Vec<Option<CapturedFrame>>) -> (r: Option<CaptureResult>)
    requires
        frames@.len() == request.clients@.len(),
    ensures
        match r {
            Some(res) => {
                &&& thumbnails_view(res.thumbnails@) == thumbnails_spec(request.clients@, frames@)
                &&& res.thumbnails@.len() > 0
                &&& res.session == request.session
                &&& res.ws_id == request.ws_id
                &&& res.monitor_width == request.monitor_width
                &&& res.monitor_height == request.monitor_height
            },
            None => thumbnails_spec(request.clients@, frames@).len() == 0,
        },
{
    let ghost all = frames@;
    let n = frames.len();
    let mut thumbnails: Vec<WindowThumbnail> = Vec::new();
    let mut remaining = frames;
    let mut reversed: Vec<Option<CapturedFrame>> = Vec::new();
    while remaining.len() > 0
        invariant
            remaining@.len() + reversed@.len() == all.len(),
            remaining@ == all.take(remaining@.len() as int),
            forall|j: int| 0 <= j < reversed@.len() ==> #[trigger] reversed@[j] == all[all.len() - 1 - j],
        decreases remaining@.len(),
    {
        let f = remaining.pop().unwrap();
        reversed.push(f);
    }
    let mut i: usize = 0;
    while i < n
        invariant
            n == all.len(),
            n == request.clients@.len(),
            reversed@.len() == n - i,
            forall|j: int| 0 <= j < reversed@.len() ==> #[trigger] reversed@[j] == all[n - 1 - j],
            thumbnails_view(thumbnails@) == thumbnails_spec(
                request.clients@.take(i as int),
                all.take(i as int),
            ),
        decreases n - i,
    {
        let f = reversed.pop().unwrap();
        assert(f == all[i as int]);
        let ghost prev = thumbnails_view(thumbnails@);
        proof {
            assert(request.clients@.take(i + 1).drop_last() =~= request.clients@.take(i as int));
            assert(all.take(i + 1).drop_last() =~= all.take(i as int));
        }
        if let Some(frame) = f {
            let client = &request.clients[i];
            let t = WindowThumbnail {
                data: frame.data,
                width: frame.width,
                height: frame.height,
                stride: frame.stride,
                x: client.x,
                y: client.y,
                win_width: client.width,
                win_height: client.height,
                address: client.address.clone(),
            };
            thumbnails.push(t);
            assert(thumbnails_view(thumbnails@) =~= prev.push(t@));
        }
        i = i + 1;
    }
    assert(request.clients@.take(n as int) =~= request.clients@);
    assert(all.take(n as int) =~= all);
    if thumbnails.len() == 0 {
        return None;
    }
    Some(
        CaptureResult {
            session: request.session,
            ws_id: request.ws_id,
            thumbnails,
            monitor_width: request.monitor_width,
            monitor_height: request.monitor_height,
        },
    )
}

/// Pixel formats that a window buffer may be offered in.
#[derive(Debug, Clone, Copy, PartialEq, Eq, Structural)]
pub enum PixelFormat {
    /// 32-bit ARGB, with alpha.
    Argb8888,
    /// 32-bit RGB without alpha.
    Xrgb8888,
    /// Any other format.
    Other,
}

/// Events of one frame export.
#[derive(Debug, Clone, Copy, PartialEq, Eq, Structural)]
pub enum FrameEvent {
    /// The compositor offers a buffer in this format and size.
    Buffer { format: PixelFormat, width: u32, height: u32, stride: u32 },
    /// All buffer offers have been sent.
    BufferDone,
    /// The frame was copied into the buffer.
    Ready,
    /// The export failed.
    Failed,
    /// Any other event.
    Ignored,
}

/// The negotiation state of one frame export: the chosen buffer format and
/// size, and which of the export's milestones have been reached.
#[derive(Debug, Clone, Copy, PartialEq, Eq, Structural)]
pub struct FrameState {
    /// The chosen format, once a usable buffer was offered.
    pub format: Option<PixelFormat>,
    /// Width of the chosen buffer.
    pub width: u32,
    /// Height of the chosen buffer.
    pub height: u32,
    /// Stride of the chosen buffer.
    pub stride: u32,
    /// All buffer offers have been received.
    pub buffer_done: bool,
    /// The copy completed.
    pub frame_ready: bool,
    /// The export failed.
    pub frame_failed: bool,
}

/// Whether an offered format replaces the current choice: only ARGB and
/// XRGB are usable, the first usable offer is taken, and ARGB (which has
/// alpha) replaces a previous XRGB choice.
pub open spec fn accepts_format(current: Option<PixelFormat>, offered: PixelFormat) -> bool {
    let improves = match current {
        None => true,
        Some(PixelFormat::Xrgb8888) => offered == PixelFormat::Argb8888,
        _ => false,
    };
    improves && (offered == PixelFormat::Argb8888 || offered == PixelFormat::Xrgb8888)
}

/// The frame state after an event.
pub open spec fn frame_after(s: FrameState, ev: FrameEvent) -> FrameState {
    match ev {
        FrameEvent::Buffer { format, width, height, stride } => if accepts_format(s.format, format) {
            FrameState { format: Some(format), width, height, stride, ..s }
        } else {
            s
        },
        FrameEvent::BufferDone => FrameState { buffer_done: true, ..s },
        FrameEvent::Ready => FrameState { frame_ready: true, ..s },
        FrameEvent::Failed => FrameState { frame_failed: true, ..s },
        FrameEvent::Ignored => s,
    }
}

/// The state before any event of an export.
pub open spec fn fresh_frame() -> FrameState {
    FrameState {
        format: None,
        width: 0,
        height: 0,
        stride: 0,
        buffer_done: false,
        frame_ready: false,
        frame_failed: false,
    }
}

impl FrameState {
    /// The state before any event of an export.
    pub fn new() -> (r: Self)
        ensures
            r == fresh_frame(),
    {
        FrameState {
            format: None,
            width: 0,
            height: 0,
            stride: 0,
            buffer_done: false,
            frame_ready: false,
            frame_failed: false,
        }
    }

    /// Forgets the previous export before starting a new one.
    pub fn reset_frame(&mut self)
        ensures
            *final(self) == fresh_frame(),
    {
        *self = FrameState::new();
    }

    /// Records an event of the export.
    pub fn apply(&mut self, ev: FrameEvent)
        ensures
            *final(self) == frame_after(*old(self), ev),
    {
        match ev {
            FrameEvent::Buffer { format, width, height, stride } => {
                let improves = match self.format {
                    None => true,
                    Some(PixelFormat::Xrgb8888) => format == PixelFormat::Argb8888,
                    _ => false,
                };
                if improves && (format == PixelFormat::Argb8888 || format == PixelFormat::Xrgb8888) {
                    self.format = Some(format);
                    self.width = width;
                    self.height = height;
                    self.stride = stride;
                }
            },
            FrameEvent::BufferDone => {
                self.buffer_done = true;
            },
            FrameEvent::Ready => {
                self.frame_ready = true;
            },
            FrameEvent::Failed => {
                self.frame_failed = true;
            },
            FrameEvent::Ignored => {},
        }
    }
}

/// The shared-memory buffer to allocate for a frame whose offers are
/// complete: the chosen format and size, and the byte length
/// `stride * height`.
#[derive(Debug, Clone, Copy, PartialEq, Eq, Structural)]
pub struct BufferSpec {
    /// The chosen pixel format.
    pub format: PixelFormat,
    /// Width in pixels.
    pub width: u32,
    /// Height in pixels.
    pub height: u32,
    /// Bytes per row.
    pub stride: u32,
    /// Bytes in the buffer.
    pub size: u64,
}

impl FrameState {
    /// Whether the buffer offers are over: all were sent, or the export
    /// failed.
    pub fn offers_complete(&self) -> (r: bool)
        ensures
            r == (self.buffer_done || self.frame_failed),
    {
        self.buffer_done || self.frame_failed
    }

    /// Whether the copy is over: it completed, or the export failed.
    pub fn copy_complete(&self) -> (r: bool)
        ensures
            r == (self.frame_ready || self.frame_failed),
    {
        self.frame_ready || self.frame_failed
    }

    /// The buffer to copy the frame into; `None` when the export failed or
    /// no usable format was offered, in which case the window is skipped.
    pub fn buffer_spec(&self) -> (r: Option<BufferSpec>)
        ensures
            r is None <==> (self.frame_failed || self.format is None),
            r matches Some(b) ==> {
                &&& Some(b.format) == self.format
                &&& b.width == self.width
                &&& b.height == self.height
                &&& b.stride == self.stride
                &&& b.size == self.stride * self.height
            },
    {
        if self.frame_failed {
            return None;
        }
        match self.format {
            Some(format) => {
                let stride = self.stride as u64;
                let height = self.height as u64;
                assert(stride * height <= u64::MAX) by (nonlinear_arith)
                    requires
                        stride <= u32::MAX,
                        height <= u32::MAX,
                ;
                Some(
                    BufferSpec {
                        format,
                        width: self.width,
                        height: self.height,
                        stride: self.stride,
                        size: stride * height,
                    },
                )
            },
            None => None,
        }
    }

    /// Clears the copy milestones before asking for the copy.
    pub fn begin_copy(&mut self)
        ensures
            *final(self) == (FrameState { frame_ready: false, frame_failed: false, ..*old(self) }),
    {
        self.frame_ready = false;
        self.frame_failed = false;
    }
}

/// Whether a new shared-memory buffer must be allocated: there is none
/// yet, or the one kept from earlier captures is too small.
pub fn needs_new_buffer(current: Option<u64>, size: u64) -> (r: bool)
    ensures
        r == match current {
            Some(c) => c < size,
            None => true,
        },
{
    match current {
        Some(c) => c < size,
        None => true,
    }
}

/// Buffer negotiation only ever settles on a usable format, and once ARGB
/// is chosen no later offer replaces it.
pub proof fn law_frame_format(s: FrameState, ev: FrameEvent)
    ensures
        (s.format is None || s.format == Some(PixelFormat::Argb8888) || s.format == Some(
            PixelFormat::Xrgb8888,
        )) ==> (frame_after(s, ev).format is None || frame_after(s, ev).format == Some(
            PixelFormat::Argb8888,
        ) || frame_after(s, ev).format == Some(PixelFormat::Xrgb8888)),
        s.format == Some(PixelFormat::Argb8888) ==> frame_after(s, ev).format == s.format
            && frame_after(s, ev).width == s.width && frame_after(s, ev).height == s.height
            && frame_after(s, ev).stride == s.stride,
{
}

/// What the capture thread is doing.
#[derive(Debug)]
pub enum CapturePhase {
    /// Waiting for a command.
    Idle,
    /// Collecting queued commands after waking from idle; holds the latest.
    DrainingIdle(CaptureCommand),
    /// Capturing the request every interval.
    Streaming(CaptureRequest),
    /// Collecting queued commands after a new request arrived while
    /// streaming; holds the latest request.
    DrainingStream(CaptureRequest),
    /// The thread has ended.
    Exited,
}

/// What the capture thread observed.
#[derive(Debug)]
pub enum CaptureEvent {
    /// A command arrived.
    Command(CaptureCommand),
    /// No further command is queued.
    QueueEmpty,
    /// The stream interval elapsed without a command.
    Timeout,
    /// The command sender was dropped.
    Disconnected,
    /// The result receiver was dropped.
    ResultDropped,
}

/// The capture thread's next phase.
pub open spec fn capture_step(phase: CapturePhase, ev: CaptureEvent) -> CapturePhase {
    match (phase, ev) {
        (CapturePhase::Exited, _) => CapturePhase::Exited,
        (_, CaptureEvent::ResultDropped) => CapturePhase::Exited,
        (CapturePhase::Idle, CaptureEvent::Command(c)) => CapturePhase::DrainingIdle(c),
        (CapturePhase::Idle, CaptureEvent::Disconnected) => CapturePhase::Exited,
        (CapturePhase::DrainingIdle(_), CaptureEvent::Command(c)) => CapturePhase::DrainingIdle(c),
        (CapturePhase::DrainingIdle(latest), CaptureEvent::QueueEmpty)
        | (CapturePhase::DrainingIdle(latest), CaptureEvent::Disconnected) => match latest {
            CaptureCommand::StartStreaming(r) => CapturePhase::Streaming(r),
            CaptureCommand::StopStreaming => CapturePhase::Idle,
        },
        (CapturePhase::Streaming(_), CaptureEvent::Command(CaptureCommand::StartStreaming(n))) => CapturePhase::DrainingStream(n),
        (CapturePhase::Streaming(_), CaptureEvent::Command(CaptureCommand::StopStreaming)) => CapturePhase::Idle,
        (CapturePhase::Streaming(r), CaptureEvent::Timeout) => CapturePhase::Streaming(r),
        (CapturePhase::Streaming(_), CaptureEvent::Disconnected) => CapturePhase::Exited,
        (CapturePhase::DrainingStream(_), CaptureEvent::Command(CaptureCommand::StartStreaming(n))) => CapturePhase::DrainingStream(n),
        (CapturePhase::DrainingStream(_), CaptureEvent::Command(CaptureCommand::StopStreaming)) => CapturePhase::Idle,
        (CapturePhase::DrainingStream(r), CaptureEvent::QueueEmpty)
        | (CapturePhase::DrainingStream(r), CaptureEvent::Disconnected) => CapturePhase::Streaming(r),
        (p, _) => p,
    }
}

impl CapturePhase {
    /// The phase after an event: a command received in idle is collected
    /// with every queued one and the latest decides; while streaming, a new
    /// request replaces the current one (later queued requests win), a stop
    /// returns to idle, and the interval elapsing captures again. Dropping
    /// either channel ends the thread.
    pub fn step(self, ev: CaptureEvent) -> (r: Self)
        ensures
            r == capture_step(self, ev),
    {
        match (self, ev) {
            (CapturePhase::Exited, _) => CapturePhase::Exited,
            (_, CaptureEvent::ResultDropped) => CapturePhase::Exited,
            (CapturePhase::Idle, CaptureEvent::Command(c)) => CapturePhase::DrainingIdle(c),
            (CapturePhase::Idle, CaptureEvent::Disconnected) => CapturePhase::Exited,
            (CapturePhase::DrainingIdle(_), CaptureEvent::Command(c)) => CapturePhase::DrainingIdle(c),
            (CapturePhase::DrainingIdle(latest), CaptureEvent::QueueEmpty)
            | (CapturePhase::DrainingIdle(latest), CaptureEvent::Disconnected) => match latest {
                CaptureCommand::StartStreaming(r) => CapturePhase::Streaming(r),
                CaptureCommand::StopStreaming => CapturePhase::Idle,
            },
            (CapturePhase::Streaming(_), CaptureEvent::Command(CaptureCommand::StartStreaming(n))) => CapturePhase::DrainingStream(n),
            (CapturePhase::Streaming(_), CaptureEvent::Command(CaptureCommand::StopStreaming)) => CapturePhase::Idle,
            (CapturePhase::Streaming(r), CaptureEvent::Timeout) => CapturePhase::Streaming(r),
            (CapturePhase::Streaming(_), CaptureEvent::Disconnected) => CapturePhase::Exited,
            (CapturePhase::DrainingStream(_), CaptureEvent::Command(CaptureCommand::StartStreaming(n))) => CapturePhase::DrainingStream(n),
            (CapturePhase::DrainingStream(_), CaptureEvent::Command(CaptureCommand::StopStreaming)) => CapturePhase::Idle,
            (CapturePhase::DrainingStream(r), CaptureEvent::QueueEmpty)
            | (CapturePhase::DrainingStream(r), CaptureEvent::Disconnected) => CapturePhase::Streaming(r),
            (p, _) => p,
        }
    }

    /// Whether the thread has ended.
    pub fn is_exited(&self) -> (r: bool)
        ensures
            r == (*self is Exited),
    {
        match self {
            CapturePhase::Exited => true,
            _ => false,
        }
    }
}

/// The phase after a sequence of events.
pub open spec fn capture_run(phase: CapturePhase, events: Seq<CaptureEvent>) -> CapturePhase
    decreases events.len(),
{
    if events.len() == 0 {
        phase
    } else {
        capture_run(capture_step(phase, events[0]), events.drop_first())
    }
}

/// The capture thread never resumes after it has ended.
pub proof fn law_capture_exit_is_final(events: Seq<CaptureEvent>)
    ensures
        capture_run(CapturePhase::Exited, events) is Exited,
    decreases events.len(),
{
    if events.len() > 0 {
        law_capture_exit_is_final(events.drop_first());
    }
}

/// Waking from idle, the thread acts on the most recent of the commands it
/// collected: it streams the last request, or stays idle if the last command
/// was a stop.
pub proof fn law_capture_latest_command_wins(first: CaptureCommand, queued: Seq<CaptureCommand>)
    ensures
        capture_run(
            CapturePhase::Idle,
            seq![CaptureEvent::Command(first)] + command_events(queued) + seq![
                CaptureEvent::QueueEmpty,
            ],
        ) == command_effect(
            if queued.len() == 0 {
                first
            } else {
                queued.last()
            },
        ),
{
    let evs = seq![CaptureEvent::Command(first)] + command_events(queued) + seq![
        CaptureEvent::QueueEmpty,
    ];
    assert(evs.drop_first() =~= command_events(queued) + seq![CaptureEvent::QueueEmpty]);
    lemma_drain_commands(CapturePhase::DrainingIdle(first), queued);
}

/// While streaming, a new command and the ones queued behind it are
/// collected and the latest decides: the thread streams the last request,
/// or returns to idle if the last command was a stop.
pub proof fn law_capture_latest_command_wins_streaming(
    current: CaptureRequest,
    first: CaptureCommand,
    queued: Seq<CaptureCommand>,
)
    ensures
        capture_run(
            CapturePhase::Streaming(current),
            seq![CaptureEvent::Command(first)] + command_events(queued) + seq![
                CaptureEvent::QueueEmpty,
            ],
        ) == command_effect(
            if queued.len() == 0 {
                first
            } else {
                queued.last()
            },
        ),
{
    let evs = seq![CaptureEvent::Command(first)] + command_events(queued) + seq![
        CaptureEvent::QueueEmpty,
    ];
    assert(evs.drop_first() =~= command_events(queued) + seq![CaptureEvent::QueueEmpty]);
    let next = capture_step(CapturePhase::Streaming(current), CaptureEvent::Command(first));
    assert(held_command(next) == Some(first));
    lemma_drain_commands(next, queued);
}

/// Whether a phase holds request `r` to stream, or to start streaming.
pub open spec fn carries_request(p: CapturePhase, r: CaptureRequest) -> bool {
    match p {
        CapturePhase::Streaming(x) => x == r,
        CapturePhase::DrainingStream(x) => x == r,
        CapturePhase::DrainingIdle(CaptureCommand::StartStreaming(x)) => x == r,
        _ => false,
    }
}

proof fn lemma_carries_after(p: CapturePhase, evs: Seq<CaptureEvent>, r: CaptureRequest)
    ensures
        carries_request(capture_run(p, evs), r) ==> carries_request(p, r) || exists|i: int|
            0 <= i < evs.len() && evs[i] == CaptureEvent::Command(
                CaptureCommand::StartStreaming(r),
            ),
    decreases evs.len(),
{
    if evs.len() > 0 {
        let next = capture_step(p, evs[0]);
        lemma_carries_after(next, evs.drop_first(), r);
        if carries_request(capture_run(p, evs), r) && !carries_request(p, r) {
            if carries_request(next, r) {
                assert(evs[0] == CaptureEvent::Command(CaptureCommand::StartStreaming(r)));
            } else {
                let i = choose|i: int|
                    0 <= i < evs.drop_first().len() && evs.drop_first()[i] == CaptureEvent::Command(
                        CaptureCommand::StartStreaming(r),
                    );
                assert(evs[i + 1] == evs.drop_first()[i]);
            }
        }
    }
}

/// The thread only ever streams a request that it was sent: whenever it
/// is streaming `r`, or about to, some earlier command was
/// `StartStreaming(r)`. Every result it sends is built from the request it
/// streams, so each result answers a request sent earlier.
pub proof fn law_capture_streams_only_requested(events: Seq<CaptureEvent>, r: CaptureRequest)
    ensures
        carries_request(capture_run(CapturePhase::Idle, events), r) ==> exists|i: int|
            0 <= i < events.len() && events[i] == CaptureEvent::Command(
                CaptureCommand::StartStreaming(r),
            ),
{
    lemma_carries_after(CapturePhase::Idle, events, r);
}

/// The command that decides where a phase goes once the queue is empty:
/// idle acts like a stop, a drain holds the latest command it collected.
pub open spec fn held_command(p: CapturePhase) -> Option<CaptureCommand> {
    match p {
        CapturePhase::Idle => Some(CaptureCommand::StopStreaming),
        CapturePhase::DrainingIdle(c) => Some(c),
        CapturePhase::DrainingStream(r) => Some(CaptureCommand::StartStreaming(r)),
        _ => None,
    }
}

/// The phase a command leads to once it is acted on.
pub open spec fn command_effect(c: CaptureCommand) -> CapturePhase {
    match c {
        CaptureCommand::StartStreaming(r) => CapturePhase::Streaming(r),
        CaptureCommand::StopStreaming => CapturePhase::Idle,
    }
}

/// The commands as events.
pub open spec fn command_events(cmds: Seq<CaptureCommand>) -> Seq<CaptureEvent> {
    cmds.map_values(|c: CaptureCommand| CaptureEvent::Command(c))
}

/// Draining a run of commands and finding the queue empty acts on the
/// latest command, from idle and from either drain.
proof fn lemma_drain_commands(p: CapturePhase, queued: Seq<CaptureCommand>)
    requires
        held_command(p) is Some,
    ensures
        capture_run(p, command_events(queued) + seq![CaptureEvent::QueueEmpty]) == command_effect(
            if queued.len() == 0 {
                held_command(p)->0
            } else {
                queued.last()
            },
        ),
    decreases queued.len(),
{
    let evs = command_events(queued) + seq![CaptureEvent::QueueEmpty];
    if queued.len() == 0 {
        assert(evs =~= seq![CaptureEvent::QueueEmpty]);
        assert(evs.drop_first() =~= Seq::<CaptureEvent>::empty());
        let next = capture_step(p, CaptureEvent::QueueEmpty);
        assert(capture_run(next, Seq::<CaptureEvent>::empty()) == next);
    } else {
        assert(evs[0] == CaptureEvent::Command(queued[0]));
        assert(evs.drop_first() =~= command_events(queued.drop_first()) + seq![
            CaptureEvent::QueueEmpty,
        ]);
        let next = capture_step(p, evs[0]);
        assert(held_command(next) == Some(queued[0]));
        lemma_drain_commands(next, queued.drop_first());
        if queued.len() > 1 {
            assert(queued.drop_first().last() == queued.last());
        }
    }
}

/// A stop command always returns a streaming thread to idle.
pub proof fn law_capture_stop_returns_idle(r: CaptureRequest)
    ensures
        capture_step(
            CapturePhase::Streaming(r),
            CaptureEvent::Command(CaptureCommand::StopStreaming),
        ) is Idle,
        capture_step(
            CapturePhase::DrainingStream(r),
            CaptureEvent::Command(CaptureCommand::StopStreaming),
        ) is Idle,
{
}

/// Dropping a channel ends the thread: a dropped result receiver ends it
/// from every phase, and a dropped command sender ends it whenever it waits
/// for a command, idle or streaming. A drain that finds the sender gone
/// first acts on the latest command it collected.
pub proof fn law_capture_disconnect_ends(p: CapturePhase, r: CaptureRequest, c: CaptureCommand)
    ensures
        capture_step(p, CaptureEvent::ResultDropped) is Exited,
        capture_step(CapturePhase::Idle, CaptureEvent::Disconnected) is Exited,
        capture_step(CapturePhase::Streaming(r), CaptureEvent::Disconnected) is Exited,
        capture_run(
            CapturePhase::Streaming(r),
            seq![CaptureEvent::Disconnected, CaptureEvent::Timeout],
        ) is Exited,
        capture_step(CapturePhase::DrainingStream(r), CaptureEvent::Disconnected)
            == CapturePhase::Streaming(r),
        capture_step(CapturePhase::DrainingIdle(c), CaptureEvent::Disconnected) == command_effect(c),
{
    let evs = seq![CaptureEvent::Disconnected, CaptureEvent::Timeout];
    assert(evs.drop_first() =~= seq![CaptureEvent::Timeout]);
    assert(evs.drop_first().drop_first() =~= Seq::<CaptureEvent>::empty());
    law_capture_exit_is_final(evs.drop_first());
}

} // verus!
