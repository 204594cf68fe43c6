//! Per-run session state, the session registry, and the per-tick decision
//! of the capture scheduler.
//!
//! The scheduler's loop itself (sleeping, calling the screen-capture
//! collaborator, running on a worker thread) lives outside this crate; the
//! decisions it takes each tick are all here, in [`SessionManager::tick`].

use vstd::prelude::*;
use vstd::pervasive::{arbitrary, unreached};
use vstd::string::StringExecFns;
use crate::compose::{append_image, append_spec};
use crate::detect::{calculate_overlap, detect_spec, DetectorConfig, OverlapKind};
use crate::encode::{
    b64_encoded, composite_to_data_url, data_url_prefix, parsed_image, png_bytes, png_encode_ok,
};
use crate::raster::{CompositeImage, Frame, RasterView};

verus! {

/// The screen rectangle a session captures, in global physical pixels.
#[derive(Clone, Copy, PartialEq, Eq, Structural, Debug)]
pub struct Region {
    pub x: i32,
    pub y: i32,
    pub width: u32,
    pub height: u32,
}

/// Limits a session is started with.
#[derive(Clone, Copy, PartialEq, Eq, Debug)]
pub struct CaptureOptions {
    /// Pause between two polls of the capture collaborator.
    pub poll_interval_ms: u32,
    /// The session finalizes once this many appends have happened.
    pub max_stitches: u32,
    /// When set, the session finalizes after more than this many
    /// consecutive ticks without movement.
    pub static_timeout_ticks: Option<u32>,
}

/// Why a session stopped.
#[derive(Clone, Copy, PartialEq, Eq, Structural, Debug)]
pub enum StopReason {
    /// An external stop request was observed.
    UserStop,
    /// The configured number of stitches was reached.
    LimitReached,
    /// The content stood still for longer than the configured timeout.
    IdleTimeout,
    /// The capture collaborator failed; fatal for the session.
    CaptureFailure,
}

/// What a tick decided.
#[derive(Clone, Copy, PartialEq, Eq, Structural, Debug)]
pub enum TickOutcome {
    /// Keep polling.
    Continue,
    /// Stop the loop and finalize the composite.
    Finalize(StopReason),
}

/// What one poll of the capture collaborator delivered.
pub enum FrameEvent {
    /// A frame was captured.
    Captured(Frame),
    /// The capture call failed.
    Failed,
}

/// Errors of the session entry points.
#[derive(Clone, Copy, PartialEq, Eq, Structural, Debug)]
pub enum SessionError {
    /// A start request arrived while a session was active.
    SessionAlreadyRunning,
    /// A stop request named an unknown or finished session.
    SessionNotFound,
}

/// Per-run state of one capture session.
pub struct CaptureSession {
    pub id: u64,
    pub region: Region,
    pub running: bool,
    /// The one cell written from outside the worker; observed once per
    /// tick.
    pub stop_requested: bool,
    pub stitch_count: u32,
    pub static_count: u32,
    pub limits: CaptureOptions,
}

impl CaptureSession {
    /// While a session runs its stitch counter stays within the limit.
    pub open spec fn wf(self) -> bool {
        self.running ==> self.stitch_count <= self.limits.max_stitches
    }
}

/// Movement was not detected on such a tick: the static counter grows.
pub open spec fn static_kind(k: OverlapKind) -> bool {
    k is NoOverlap || k is FullDuplicate
}

/// A counter that grows by one and pegs at the top instead of wrapping.
pub open spec fn bumped(c: u32) -> u32 {
    if c == u32::MAX {
        u32::MAX
    } else {
        (c + 1) as u32
    }
}

/// The frame a `Captured` event carries.
pub open spec fn captured_frame(e: FrameEvent) -> Frame
    recommends
        e is Captured,
{
    match e {
        FrameEvent::Captured(f) => f,
        FrameEvent::Failed => arbitrary(),
    }
}

/// The transition relation of the scheduler's state machine: how one tick
/// takes a running session, its composite and the poll's event to the
/// next state and the decision.
///
/// The stop flag is read first, so an external stop set before a tick is
/// honoured by that tick.  A failed capture is fatal for the session.  A
/// matched frame has its remainder appended and counts exactly one
/// stitch, and the session finalizes once the counter reaches the limit;
/// a session that begins a tick with the limit already met (one started
/// with a zero limit) finalizes without compositing or counting, so the
/// counter always equals the number of appends.  A tick without movement
/// only grows the static counter, up to the configured idle timeout.
pub open spec fn tick_transition(
    pre: CaptureSession,
    pre_c: RasterView,
    event: FrameEvent,
    cfg: DetectorConfig,
    post: CaptureSession,
    post_c: RasterView,
    out: TickOutcome,
) -> bool {
    &&& post.id == pre.id
    &&& post.region == pre.region
    &&& post.limits == pre.limits
    &&& post.stop_requested == pre.stop_requested
    &&& (post.running <==> out == TickOutcome::Continue)
    &&& if pre.stop_requested {
        &&& out == TickOutcome::Finalize(StopReason::UserStop)
        &&& post_c == pre_c
        &&& post.stitch_count == pre.stitch_count
        &&& post.static_count == pre.static_count
    } else {
        match event {
            FrameEvent::Failed => {
                &&& out == TickOutcome::Finalize(StopReason::CaptureFailure)
                &&& post_c == pre_c
                &&& post.stitch_count == pre.stitch_count
                &&& post.static_count == pre.static_count
            },
            FrameEvent::Captured(f) => {
                let d = detect_spec(pre_c, f@, cfg);
                if d.kind is Matched {
                    if pre.stitch_count >= pre.limits.max_stitches {
                        &&& post_c == pre_c
                        &&& post.stitch_count == pre.stitch_count
                        &&& post.static_count == pre.static_count
                        &&& out == TickOutcome::Finalize(StopReason::LimitReached)
                    } else {
                        &&& post_c == append_spec(pre_c, f@, d.offset as int)
                        &&& post.static_count == 0
                        &&& post.stitch_count == pre.stitch_count + 1
                        &&& out == (if post.stitch_count == pre.limits.max_stitches {
                            TickOutcome::Finalize(StopReason::LimitReached)
                        } else {
                            TickOutcome::Continue
                        })
                    }
                } else {
                    &&& post_c == pre_c
                    &&& post.stitch_count == pre.stitch_count
                    &&& post.static_count == bumped(pre.static_count)
                    &&& out == (match pre.limits.static_timeout_ticks {
                        Some(t) => if post.static_count > t {
                            TickOutcome::Finalize(StopReason::IdleTimeout)
                        } else {
                            TickOutcome::Continue
                        },
                        None => TickOutcome::Continue,
                    })
                }
            },
        }
    }
}

/// Owns the identifier-to-session mapping: at most one session is active
/// system-wide, and a second start request is rejected, never queued.
pub struct SessionManager {
    pub next_id: u64,
    pub active: Option<CaptureSession>,
}

impl SessionManager {
    pub open spec fn wf(self) -> bool {
        self.active matches Some(s) ==> s.wf()
    }

    /// The session of the manager, where one is active.
    pub open spec fn sess(self) -> CaptureSession {
        self.active->Some_0
    }

    pub fn new() -> (m: SessionManager)
        ensures
            m.active is None,
            m.next_id == 0,
            m.wf(),
    {
        SessionManager { next_id: 0, active: None }
    }

    /// Start a session: rejected with `SessionAlreadyRunning` while one is
    /// active, otherwise the new session starts in the running state with
    /// cleared counters and gets a fresh identifier.
    pub fn start(&mut self, region: Region, options: CaptureOptions) -> (r: Result<
        u64,
        SessionError,
    >)
        requires
            old(self).wf(),
        ensures
            final(self).wf(),
            old(self).active is Some ==> r == Err::<u64, SessionError>(
                SessionError::SessionAlreadyRunning,
            ) && final(self).active == old(self).active && final(self).next_id == old(
                self,
            ).next_id,
            old(self).active is None ==> r == Ok::<u64, SessionError>(old(self).next_id)
                && final(self).active == Some(
                CaptureSession {
                    id: old(self).next_id,
                    region,
                    running: true,
                    stop_requested: false,
                    stitch_count: 0,
                    static_count: 0,
                    limits: options,
                },
            ),
    {
        if self.active.is_some() {
            return Err(SessionError::SessionAlreadyRunning);
        }
        let id: u64 = self.next_id;
        if self.next_id < u64::MAX {
            self.next_id = self.next_id + 1;
        }
        self.active = Some(
            CaptureSession {
                id,
                region,
                running: true,
                stop_requested: false,
                stitch_count: 0,
                static_count: 0,
                limits: options,
            },
        );
        Ok(id)
    }

    /// Request a stop: sets the session's stop flag, which the worker
    /// observes within one tick.  `SessionNotFound` for an unknown or
    /// already removed identifier; reported, not fatal.
    pub fn stop(&mut self, id: u64) -> (r: Result<(), SessionError>)
        requires
            old(self).wf(),
        ensures
            final(self).wf(),
            final(self).next_id == old(self).next_id,
            old(self).active is Some && old(self).sess().id == id ==> r == Ok::<(), SessionError>(
                (),
            ) && final(self).active == Some(
                CaptureSession {
                    id: old(self).sess().id,
                    region: old(self).sess().region,
                    running: old(self).sess().running,
                    stop_requested: true,
                    stitch_count: old(self).sess().stitch_count,
                    static_count: old(self).sess().static_count,
                    limits: old(self).sess().limits,
                },
            ),
            !(old(self).active is Some && old(self).sess().id == id) ==> r == Err::<
                (),
                SessionError,
            >(SessionError::SessionNotFound) && final(self).active == old(self).active,
    {
        match &mut self.active {
            Some(s) => {
                if s.id == id {
                    s.stop_requested = true;
                    Ok(())
                } else {
                    Err(SessionError::SessionNotFound)
                }
            },
            None => Err(SessionError::SessionNotFound),
        }
    }

    /// Remove a finished session from the registry.
    pub fn finish(&mut self, id: u64) -> (r: Result<(), SessionError>)
        requires
            old(self).wf(),
        ensures
            final(self).wf(),
            final(self).next_id == old(self).next_id,
            old(self).active is Some && old(self).sess().id == id ==> r == Ok::<(), SessionError>(
                (),
            ) && final(self).active is None,
            !(old(self).active is Some && old(self).sess().id == id) ==> r == Err::<
                (),
                SessionError,
            >(SessionError::SessionNotFound) && final(self).active == old(self).active,
    {
        let matched: bool = match &self.active {
            Some(s) => s.id == id,
            None => false,
        };
        if matched {
            self.active = None;
            Ok(())
        } else {
            Err(SessionError::SessionNotFound)
        }
    }

    /// One tick of the capture scheduler while a session runs: observe
    /// the stop flag, then the poll's event, and decide per
    /// [`tick_transition`].  Whenever the outcome is not `Continue` the
    /// session is no longer running and the caller finalizes.
    pub fn tick(
        &mut self,
        composite: &mut CompositeImage,
        event: FrameEvent,
        cfg: &DetectorConfig,
    ) -> (out: TickOutcome)
        requires
            old(self).wf(),
            old(self).active is Some,
            old(self).sess().running,
            old(composite).wf(),
            cfg.wf(),
            event is Captured ==> captured_frame(event).wf() && old(composite)@.height
                + captured_frame(event)@.height <= u32::MAX,
        ensures
            final(self).wf(),
            final(composite).wf(),
            final(self).active is Some,
            final(self).next_id == old(self).next_id,
            tick_transition(
                old(self).sess(),
                old(composite)@,
                event,
                *cfg,
                final(self).sess(),
                final(composite)@,
                out,
            ),
    {
        match &mut self.active {
            Some(s) => {
                if s.stop_requested {
                    s.running = false;
                    return TickOutcome::Finalize(StopReason::UserStop);
                }
                match event {
                    FrameEvent::Failed => {
                        s.running = false;
                        TickOutcome::Finalize(StopReason::CaptureFailure)
                    },
                    FrameEvent::Captured(frame) => {
                        let det = calculate_overlap(&*composite, &frame, cfg);
                        match det.kind {
                            OverlapKind::Matched => {
                                if s.stitch_count >= s.limits.max_stitches {
                                    s.running = false;
                                    TickOutcome::Finalize(StopReason::LimitReached)
                                } else {
                                    s.static_count = 0;
                                    let appended = append_image(&*composite, &frame, &det);
                                    *composite = appended;
                                    s.stitch_count = s.stitch_count + 1;
                                    if s.stitch_count == s.limits.max_stitches {
                                        s.running = false;
                                        TickOutcome::Finalize(StopReason::LimitReached)
                                    } else {
                                        TickOutcome::Continue
                                    }
                                }
                            },
                            _ => {
                                s.static_count = if s.static_count == u32::MAX {
                                    u32::MAX
                                } else {
                                    s.static_count + 1
                                };
                                let timeout: bool = match s.limits.static_timeout_ticks {
                                    Some(t) => s.static_count > t,
                                    None => false,
                                };
                                if timeout {
                                    s.running = false;
                                    TickOutcome::Finalize(StopReason::IdleTimeout)
                                } else {
                                    TickOutcome::Continue
                                }
                            },
                        }
                    },
                }
            },
            None => unreached(),
        }
    }
}

/// The completion payload of a session: the finished composite as a PNG
/// data URL, with its final dimensions.
#[derive(Debug)]
pub struct CompletionEvent {
    pub session_id: u64,
    pub data_url: String,
    pub width: u32,
    pub height: u32,
}

/// Kind of a session-fatal error.
#[derive(Clone, Copy, PartialEq, Eq, Structural, Debug)]
pub enum ErrorKind {
    /// The capture collaborator failed mid-loop.
    CaptureFailure,
    /// The final serialization failed.
    EncodingFailure,
}

/// The error payload of a session.
#[derive(Debug)]
pub struct ErrorEvent {
    pub session_id: u64,
    pub kind: ErrorKind,
    pub message: String,
}

/// Finalize a session: encode whatever composite was accumulated as a
/// PNG data URL and build the completion event, or the error event when
/// the serialization fails.
///
/// The completion event is owed whenever the PNG encoder accepts the
/// composite and the base64 text fits in memory, and its payload, where
/// it parses at all, parses back to exactly the composite's pixels.
pub fn finalize(session_id: u64, composite: &CompositeImage) -> (r: Result<
    CompletionEvent,
    ErrorEvent,
>)
    requires
        composite.wf(),
    ensures
        r matches Ok(e) ==> e.session_id == session_id && e.width == composite@.width && e.height
            == composite@.height && e.data_url@ == data_url_prefix() + b64_encoded(
            png_bytes(composite@.width as u32, composite@.height as u32, composite@.data),
        ),
        r matches Ok(e) ==> (parsed_image(e.data_url@) is Some ==> parsed_image(e.data_url@)
            == Some((composite@.width as u32, composite@.height as u32, composite@.data))),
        r matches Err(e) ==> e.session_id == session_id && e.kind == ErrorKind::EncodingFailure,
        png_encode_ok(composite@.width as u32, composite@.height as u32, composite@.data)
            && png_bytes(composite@.width as u32, composite@.height as u32, composite@.data).len()
            <= usize::MAX / 4 * 3 - 2 ==> r is Ok,
{
    match composite_to_data_url(composite) {
        Ok(url) => Ok(
            CompletionEvent {
                session_id,
                data_url: url,
                width: composite.raster.width,
                height: composite.raster.height,
            },
        ),
        Err(_) => Err(
            ErrorEvent {
                session_id,
                kind: ErrorKind::EncodingFailure,
                message: String::from_str("the composite could not be encoded as PNG"),
            },
        ),
    }
}

/// The error event for a failed capture call, fatal for its session.
pub fn capture_error_event(session_id: u64) -> (e: ErrorEvent)
    ensures
        e.session_id == session_id,
        e.kind == ErrorKind::CaptureFailure,
{
    ErrorEvent {
        session_id,
        kind: ErrorKind::CaptureFailure,
        message: String::from_str("the capture collaborator failed; session aborted"),
    }
}

/// Composite height across one tick: it never shrinks, a matched tick
/// that appends a real remainder grows it strictly, and a tick without
/// movement leaves it unchanged.
pub proof fn lemma_tick_height(
    pre: CaptureSession,
    pre_c: RasterView,
    event: FrameEvent,
    cfg: DetectorConfig,
    post: CaptureSession,
    post_c: RasterView,
    out: TickOutcome,
)
    requires
        tick_transition(pre, pre_c, event, cfg, post, post_c, out),
    ensures
        post_c.height >= pre_c.height,
        !pre.stop_requested && event is Captured ==> ({
            let d = detect_spec(pre_c, captured_frame(event)@, cfg);
            &&& (d.kind is Matched && d.offset < captured_frame(event)@.height
                && pre.stitch_count < pre.limits.max_stitches ==> post_c.height > pre_c.height)
            &&& (static_kind(d.kind) ==> post_c.height == pre_c.height)
        }),
{
    if !pre.stop_requested && event is Captured {
        let f = captured_frame(event);
        let d = detect_spec(pre_c, f@, cfg);
        if d.kind is Matched && pre.stitch_count < pre.limits.max_stitches {
            assert(post_c == append_spec(pre_c, f@, d.offset as int));
            if d.offset < f@.height {
                assert(post_c.height == pre_c.height + (f@.height - d.offset));
            }
        }
    }
}

/// The stitch counter counts the appends exactly: it grows by one on a
/// tick that runs the append path and never otherwise, and a tick that
/// leaves the counter alone leaves the composite alone.
pub proof fn lemma_stitch_counts_appends(
    pre: CaptureSession,
    pre_c: RasterView,
    event: FrameEvent,
    cfg: DetectorConfig,
    post: CaptureSession,
    post_c: RasterView,
    out: TickOutcome,
)
    requires
        tick_transition(pre, pre_c, event, cfg, post, post_c, out),
    ensures
        post.stitch_count == pre.stitch_count || post.stitch_count == pre.stitch_count + 1,
        post.stitch_count == pre.stitch_count + 1 <==> (!pre.stop_requested && event is Captured
            && detect_spec(pre_c, captured_frame(event)@, cfg).kind is Matched
            && pre.stitch_count < pre.limits.max_stitches),
        post.stitch_count == pre.stitch_count + 1 ==> post_c == append_spec(
            pre_c,
            captured_frame(event)@,
            detect_spec(pre_c, captured_frame(event)@, cfg).offset as int,
        ),
        post.stitch_count == pre.stitch_count ==> post_c == pre_c,
{
}

} // verus!
