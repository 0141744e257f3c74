//! Video playback: opening, pacing, seeking, volume, and release.
use crate::actions::{Action, SeekTarget};
use crate::config::Setting;
use crate::decay::{decay_restarted, restart_decay};
use crate::files::FileId;
use crate::media::{failure_noted, note_failure};
use crate::media_tasks::{
    archive_thumb_fired, fire_archive_video_thumb, fit, fitted, same_screen, st, St,
};
use crate::paths::{join3, Source};
use crate::state::{
    lemma_with_config, with_config, DisplayedImage, DisplayedModel, Shared, SharedModel, Status,
    VideoSession, VideoState, Viewer, ViewerModel,
};
use crate::text::{load_error, load_error_text};
use crate::time::{later, Duration, Instant};
use crate::window::{push_toast, toasted, wt, ToastKind, Window, WindowState, Wt};
use crate::whole::{hold, whole};
use vstd::prelude::*;

verus! {

/// How long the video controls stay up after the last mouse movement.
pub open spec fn controls_timeout() -> Duration {
    Duration { nanos: 2_500_000_000 }
}

pub fn video_controls_timeout() -> (d: Duration)
    ensures
        d == controls_timeout(),
{
    Duration { nanos: 2_500_000_000 }
}

/// Playback begun for `file`: at once for a file on disk, after an extraction
/// for an archive entry, which is not started twice.
#[verifier::opaque]
pub open spec fn video_started(t: St, file: FileId, now: Instant) -> St {
    let shown = VideoState { controls_until: Some(later(now, controls_timeout())), ..t.v.video };
    match t.v.source {
        Source::Fs => St {
            v: ViewerModel {
                video: VideoState {
                    session: Some(
                        VideoSession {
                            playing: true,
                            looping: t.s.config.value.video_loop,
                            muted: t.s.config.value.video_muted,
                            temp: None,
                        },
                    ),
                    ..shown
                },
                ..t.v
            },
            ..t
        }.act(
            Action::OpenVideo {
                file,
                extracted: None,
                volume: t.s.config.value.video_volume,
                muted: t.s.config.value.video_muted,
                looping: t.s.config.value.video_loop,
                hardware: t.s.config.value.hardware_decode,
            },
        ),
        Source::Archive(_) => if t.v.video.extracting == Some(file) {
            St { v: ViewerModel { video: shown, ..t.v }, ..t }
        } else {
            St {
                v: ViewerModel {
                    video: VideoState { extracting: Some(file), ..shown },
                    ..t.v
                },
                ..t
            }.act(Action::ExtractVideo { file })
        },
    }
}

/// Begin playback of `file`: open a session for a file on disk, or extract an
/// archive entry first.
pub fn start_video(
    viewer: &mut Viewer,
    shared: &Shared,
    file: FileId,
    now: Instant,
    out: &mut Vec<Action>,
)
    ensures
        st(final(viewer)@, shared@, final(out)@) == video_started(
            st(old(viewer)@, shared@, old(out)@),
            file,
            now,
        ),
{
    proof {
        reveal(video_started);
    }
    viewer.video.controls_until = Some(now.after(video_controls_timeout()));
    match viewer.source {
        Source::Fs => {
            viewer.video.session = Some(
                VideoSession {
                    playing: true,
                    looping: shared.config.value.video_loop,
                    muted: shared.config.value.video_muted,
                    temp: None,
                },
            );
            out.push(
                Action::OpenVideo {
                    file,
                    extracted: None,
                    volume: shared.config.value.video_volume,
                    muted: shared.config.value.video_muted,
                    looping: shared.config.value.video_loop,
                    hardware: shared.config.value.hardware_decode,
                },
            );
        },
        Source::Archive(_) => {
            if viewer.video.extracting != Some(file) {
                viewer.video.extracting = Some(file);
                out.push(Action::ExtractVideo { file });
            }
        },
    }
}

pub proof fn lemma_video_frame(t: St, file: FileId, now: Instant)
    ensures
        same_screen(t, video_started(t, file, now)),
        video_started(t, file, now).s == t.s,
{
    reveal(video_started);
}

/// What a poll of the decode session found.
pub struct Poll {
    /// Why the decode could not be set up.
    pub failed: Option<String>,
    /// The dimensions of a frame due for display.
    pub frame: Option<(u32, u32)>,
    /// Whether the session has nothing left to show.
    pub finished: bool,
    /// Whether it ever showed a frame.
    pub showed_frame: bool,
}

/// Whether the controls are up: while paused, while seeking, and for a while
/// after the last mouse movement.
pub open spec fn controls_up(video: VideoState, now: Instant) -> bool {
    ||| !(video.session is Some && video.session->0.playing)
    ||| video.seek_drag
    ||| video.controls_until is Some && now.nanos < video.controls_until->0.nanos
}

/// The session torn down, its failure on screen and remembered.
pub open spec fn session_failed(t: St, err: Seq<char>) -> St {
    let file = t.v.current();
    let message = load_error_text(t.s, file, err);
    St {
        v: ViewerModel {
            displayed: DisplayedModel::Error { message },
            displayed_path: Some(file),
            pending_since: None,
            video: t.v.video.torn_down(),
            ..failure_noted(t.v, file, message)
        },
        ..t
    }
}

/// The session changed in place.
pub open spec fn with_session(t: St, session: VideoSession) -> St {
    St {
        v: ViewerModel { video: VideoState { session: Some(session), ..t.v.video }, ..t.v },
        ..t
    }
}

/// The end of a session: one that loops and ever showed a frame starts over, a
/// playing one pauses.
pub open spec fn session_ended(t: St, session: VideoSession, showed_frame: bool) -> St {
    if session.looping && showed_frame {
        t.act(Action::ReopenVideo { at: SeekTarget::Start })
    } else if session.playing {
        with_session(t, VideoSession { playing: false, ..session }).act(Action::PauseVideo)
    } else {
        t
    }
}

/// A frame on screen. The first one of a video chooses the zoom.
pub open spec fn frame_shown(t: St, size: (u32, u32)) -> St {
    let fit = if t.v.displayed is Video {
        t
    } else if crate::media_tasks::refits(t.v, t.s.config.value) {
        fitted(t, size).act(Action::ResetPan)
    } else {
        t
    };
    St {
        v: ViewerModel {
            displayed: DisplayedModel::Video { original_size: size },
            displayed_path: Some(t.v.current()),
            pending_since: None,
            video: VideoState { frame: Some(size), ..t.v.video },
            ..t.v
        },
        ..fit
    }
}

/// One tick of an open video.
#[verifier::opaque]
pub open spec fn frame_ticked(t: St, poll: Poll, now: Instant) -> St {
    let u = t.act(Action::EaseControls { visible: controls_up(t.v.video, now) });
    match t.v.video.session {
        Some(session) => match (poll.failed, poll.frame) {
            (Some(err), _) => session_failed(u, err@),
            (None, Some(size)) => frame_shown(u, size),
            (None, None) => if poll.finished {
                session_ended(u, session, poll.showed_frame)
            } else {
                u
            },
        },
        None => u,
    }
}

/// Pace the open video: surface a failed setup, show a due frame, or end.
pub fn tick_frame(
    viewer: &mut Viewer,
    shared: &Shared,
    poll: &Poll,
    now: Instant,
    out: &mut Vec<Action>,
)
    requires
        old(viewer)@.wf(),
    ensures
        st(final(viewer)@, shared@, final(out)@) == frame_ticked(
            st(old(viewer)@, shared@, old(out)@),
            *poll,
            now,
        ),
        final(viewer)@.wf(),
{
    proof {
        reveal(frame_ticked);
    }
    let playing: bool = match viewer.video.session {
        Some(session) => session.playing,
        None => false,
    };
    let alive: bool = match viewer.video.controls_until {
        Some(until) => now.nanos < until.nanos,
        None => false,
    };
    out.push(Action::EaseControls { visible: !playing || viewer.video.seek_drag || alive });
    let session = match viewer.video.session {
        Some(session) => session,
        None => {
            return ;
        },
    };
    let file = viewer.nav.current();
    match &poll.failed {
        Some(err) => {
            let message = load_error(shared, file, err.as_str());
            note_failure(viewer, file, message.clone());
            viewer.displayed = DisplayedImage::Error { message };
            viewer.displayed_path = Some(file);
            viewer.pending_since = None;
            viewer.video.reset();
            return ;
        },
        None => {},
    }
    match poll.frame {
        Some(size) => {
            let first: bool = match viewer.displayed {
                DisplayedImage::Video { .. } => false,
                _ => true,
            };
            if first && (!viewer.manual_zoom || shared.config.value.zoom_mode
                != crate::config::ZoomMode::LockZoomRatio) {
                fit(viewer, shared, size, out);
                out.push(Action::ResetPan);
            }
            viewer.video.frame = Some(size);
            viewer.displayed = DisplayedImage::Video { original_size: size };
            viewer.displayed_path = Some(file);
            viewer.pending_since = None;
        },
        None => {
            if poll.finished {
                if session.looping && poll.showed_frame {
                    out.push(Action::ReopenVideo { at: SeekTarget::Start });
                } else if session.playing {
                    viewer.video.session = Some(
                        VideoSession {
                            playing: false,
                            looping: session.looping,
                            muted: session.muted,
                            temp: session.temp,
                        },
                    );
                    out.push(Action::PauseVideo);
                }
            }
        },
    }
}

/// An extracted archive video opened, paused if the window was minimized
/// meanwhile and is set to pause.
#[verifier::opaque]
pub open spec fn extraction_opened(t: St, file: FileId, temp: u64, pause: bool) -> St {
    let config = t.s.config.value;
    let opened = with_session(
        t,
        VideoSession {
            playing: !pause,
            looping: config.video_loop,
            muted: config.video_muted,
            temp: Some(temp),
        },
    ).act(
        Action::OpenVideo {
            file,
            extracted: Some(temp),
            volume: config.video_volume,
            muted: config.video_muted,
            looping: config.video_loop,
            hardware: config.hardware_decode,
        },
    );
    archive_thumb_fired(
        if pause {
            opened.act(Action::PauseVideo)
        } else {
            opened
        },
        file,
        temp,
    )
}

fn open_extraction(
    viewer: &mut Viewer,
    shared: &Shared,
    file: FileId,
    temp: u64,
    pause: bool,
    out: &mut Vec<Action>,
)
    requires
        old(viewer)@.wf(),
    ensures
        st(final(viewer)@, shared@, final(out)@) == extraction_opened(
            st(old(viewer)@, shared@, old(out)@),
            file,
            temp,
            pause,
        ),
        final(viewer)@.wf(),
{
    proof {
        reveal(extraction_opened);
        reveal(archive_thumb_fired);
    }
    viewer.video.session = Some(
        VideoSession {
            playing: !pause,
            looping: shared.config.value.video_loop,
            muted: shared.config.value.video_muted,
            temp: Some(temp),
        },
    );
    out.push(
        Action::OpenVideo {
            file,
            extracted: Some(temp),
            volume: shared.config.value.video_volume,
            muted: shared.config.value.video_muted,
            looping: shared.config.value.video_loop,
            hardware: shared.config.value.hardware_decode,
        },
    );
    if pause {
        out.push(Action::PauseVideo);
    }
    fire_archive_video_thumb(viewer, shared, file, temp, out);
}

/// The extraction mark for `file` cleared.
pub open spec fn extraction_unmarked(v: ViewerModel, file: FileId) -> ViewerModel {
    ViewerModel {
        video: VideoState {
            extracting: if v.video.extracting == Some(file) {
                None
            } else {
                v.video.extracting
            },
            ..v.video
        },
        ..v
    }
}

/// An extraction taken in. One navigated away from is discarded, a failed one
/// is reported, and a good one plays. A window in the background re-arms its
/// decay, which until now took it for a still.
#[verifier::opaque]
pub open spec fn extraction_landed(t: Wt, file: FileId, result: Result<u64, String>) -> Wt {
    match t.w.viewer {
        Some(v) => {
            let state = t.w.state.value;
            let u = t.with_viewer(Some(extraction_unmarked(v, file)));
            if v.current() != file {
                match result {
                    Ok(temp) => u.act(Action::DiscardTemp { temp }),
                    Err(_) => u,
                }
            } else {
                match result {
                    Err(e) => toasted(
                        u.with_viewer(
                            Some(
                                ViewerModel {
                                    pending_since: None,
                                    ..extraction_unmarked(v, file)
                                },
                            ),
                        ),
                        ToastKind::Error,
                        "Couldn't play video: "@ + e@,
                    ),
                    Ok(temp) => {
                        let pause = state.minimized
                            && t.s.config.value.resource.value.pause_video_when_minimized;
                        let opened = u.with_inner(
                            extraction_opened(u.inner(), file, temp, pause),
                        ).with_state(
                            WindowState {
                                video_resumes_on_restore: pause || state.video_resumes_on_restore,
                                ..state
                            },
                        );
                        if state.minimized || !state.focused {
                            decay_restarted(opened)
                        } else {
                            opened
                        }
                    },
                }
            }
        },
        None => t,
    }
}

/// Clear the extraction mark for `file`. Says whether it is still current.
fn unmark_extraction(viewer: &mut Viewer, file: FileId, failed: bool) -> (current: bool)
    requires
        old(viewer)@.wf(),
    ensures
        current == (old(viewer)@.current() == file),
        final(viewer)@ == if current && failed {
            ViewerModel { pending_since: None, ..extraction_unmarked(old(viewer)@, file) }
        } else {
            extraction_unmarked(old(viewer)@, file)
        },
        final(viewer)@.wf(),
{
    if viewer.video.extracting == Some(file) {
        viewer.video.extracting = None;
    }
    let current: bool = viewer.nav.current() == file;
    if current && failed {
        viewer.pending_since = None;
    }
    current
}

/// Take in the extraction of an archive video.
pub fn extracted(
    win: &mut Window,
    shared: &mut Shared,
    file: FileId,
    result: Result<u64, String>,
    out: &mut Vec<Action>,
)
    requires
        old(win)@.wf(),
    ensures
        wt(final(win)@, final(shared)@, final(out)@) == extraction_landed(
            wt(old(win)@, old(shared)@, old(out)@),
            file,
            result,
        ),
        final(win)@.wf(),
{
    proof {
        reveal(extraction_landed);
    }
    let ghost before = wt(win@, shared@, out@);
    let minimized: bool = win.state.value.minimized;
    let focused: bool = win.state.value.focused;
    let pause: bool = minimized && shared.config.value.resource.value.pause_video_when_minimized;
    let failed: bool = result.is_err();
    let current: bool = match win.viewer_mut() {
        Some(viewer) => unmark_extraction(viewer, file, failed),
        None => {
            return ;
        },
    };
    match result {
        Ok(temp) => {
            if !current {
                out.push(Action::DiscardTemp { temp });
                return ;
            }
            let ghost u = wt(win@, shared@, out@);
            match win.viewer_mut() {
                Some(viewer) => {
                    open_extraction(viewer, shared, file, temp, pause, out);
                },
                None => {},
            }
            if pause {
                win.set_state(WindowState { video_resumes_on_restore: true, ..win.state.value });
            }
            assert(wt(win@, shared@, out@) == u.with_inner(
                extraction_opened(u.inner(), file, temp, pause),
            ).with_state(
                WindowState {
                    video_resumes_on_restore: pause || u.w.state.value.video_resumes_on_restore,
                    ..u.w.state.value
                },
            ));
            if minimized || !focused {
                restart_decay(win, shared, out);
            }
        },
        Err(e) => {
            if current {
                let text = join3("Couldn't play video: ", e.as_str(), "");
                proof {
                    reveal_strlit("");
                    assert("Couldn't play video: "@ + e@ + ""@ =~= "Couldn't play video: "@ + e@);
                }
                let ghost u = wt(win@, shared@, out@);
                push_toast(win, ToastKind::Error, text, out);
                assert(wt(win@, shared@, out@) == toasted(
                    u,
                    ToastKind::Error,
                    "Couldn't play video: "@ + e@,
                ));
            }
        },
    }
}

/// Play toggled.
pub open spec fn play_toggled(t: St) -> St {
    match t.v.video.session {
        Some(session) => with_session(
            t,
            VideoSession { playing: !session.playing, ..session },
        ).act(
            if session.playing {
                Action::PauseVideo
            } else {
                Action::PlayVideo
            },
        ),
        None => t,
    }
}

/// Toggle between playing and paused.
pub fn play_pause(viewer: &mut Viewer, out: &mut Vec<Action>)
    requires
        old(viewer)@.wf(),
    ensures
        forall|s: SharedModel|
            #![trigger st(old(viewer)@, s, old(out)@)]
            st(final(viewer)@, s, final(out)@) == play_toggled(st(old(viewer)@, s, old(out)@)),
        final(viewer)@.wf(),
{
    match viewer.video.session {
        Some(session) => {
            viewer.video.session = Some(
                VideoSession {
                    playing: !session.playing,
                    looping: session.looping,
                    muted: session.muted,
                    temp: session.temp,
                },
            );
            if session.playing {
                out.push(Action::PauseVideo);
            } else {
                out.push(Action::PlayVideo);
            }
        },
        None => {},
    }
}

/// Note that the seek slider is being dragged, while a session is open.
pub fn seek_drag(viewer: &mut Viewer)
    requires
        old(viewer)@.wf(),
    ensures
        final(viewer)@ == if old(viewer)@.video.session is Some {
            ViewerModel {
                video: VideoState { seek_drag: true, ..old(viewer)@.video },
                ..old(viewer)@
            }
        } else {
            old(viewer)@
        },
        final(viewer)@.wf(),
{
    if viewer.video.session.is_some() {
        viewer.video.seek_drag = true;
    }
}

/// A seek drag committed.
pub open spec fn seek_released(t: St) -> St {
    let u = St {
        v: ViewerModel { video: VideoState { seek_drag: false, ..t.v.video }, ..t.v },
        ..t
    };
    if t.v.video.seek_drag && t.v.video.session is Some {
        u.act(Action::ReopenVideo { at: SeekTarget::Dragged })
    } else {
        u
    }
}

/// Commit a seek drag.
pub fn seek_release(viewer: &mut Viewer, out: &mut Vec<Action>)
    requires
        old(viewer)@.wf(),
    ensures
        forall|s: SharedModel|
            #![trigger st(old(viewer)@, s, old(out)@)]
            st(final(viewer)@, s, final(out)@) == seek_released(st(old(viewer)@, s, old(out)@)),
        final(viewer)@.wf(),
{
    let dragged: bool = viewer.video.seek_drag;
    viewer.video.seek_drag = false;
    if dragged && viewer.video.session.is_some() {
        out.push(Action::ReopenVideo { at: SeekTarget::Dragged });
    }
}

/// A step by `dir` frames, paused.
pub open spec fn frame_stepped(t: St, dir: i32) -> St {
    match t.v.video.session {
        Some(session) => with_session(t, VideoSession { playing: false, ..session }).act(
            Action::ReopenVideo { at: SeekTarget::Frames(dir) },
        ).act(Action::PauseVideo),
        None => t,
    }
}

/// Step one frame forward or back, pausing.
pub fn step_frame(viewer: &mut Viewer, dir: i32, out: &mut Vec<Action>)
    requires
        old(viewer)@.wf(),
    ensures
        forall|s: SharedModel|
            #![trigger st(old(viewer)@, s, old(out)@)]
            st(final(viewer)@, s, final(out)@) == frame_stepped(
                st(old(viewer)@, s, old(out)@),
                dir,
            ),
        final(viewer)@.wf(),
{
    match viewer.video.session {
        Some(session) => {
            viewer.video.session = Some(
                VideoSession {
                    playing: false,
                    looping: session.looping,
                    muted: session.muted,
                    temp: session.temp,
                },
            );
            out.push(Action::ReopenVideo { at: SeekTarget::Frames(dir) });
            out.push(Action::PauseVideo);
        },
        None => {},
    }
}

/// The controls shown again, if a video is open.
pub open spec fn controls_shown(v: ViewerModel, now: Instant) -> ViewerModel {
    if v.video.session is Some {
        ViewerModel {
            video: VideoState {
                controls_until: Some(later(now, controls_timeout())),
                ..v.video
            },
            ..v
        }
    } else {
        v
    }
}

/// Keep the controls up for a while, if a video is open.
pub fn show_controls(viewer: &mut Viewer, now: Instant)
    requires
        old(viewer)@.wf(),
    ensures
        final(viewer)@ == controls_shown(old(viewer)@, now),
        final(viewer)@.wf(),
{
    if viewer.video.session.is_some() {
        viewer.video.controls_until = Some(now.after(video_controls_timeout()));
    }
}

/// Seek by the requested offset.
pub fn seek_by(viewer: &mut Viewer, seconds: i32, now: Instant, out: &mut Vec<Action>)
    requires
        old(viewer)@.wf(),
    ensures
        final(viewer)@ == controls_shown(old(viewer)@, now),
        final(out)@ == if old(viewer)@.video.session is Some {
            old(out)@.push(Action::ReopenVideo { at: SeekTarget::Offset(seconds) })
        } else {
            old(out)@
        },
        final(viewer)@.wf(),
{
    if viewer.video.session.is_some() {
        out.push(Action::ReopenVideo { at: SeekTarget::Offset(seconds) });
        show_controls(viewer, now);
    }
}

/// How long the volume must rest before it is saved.
pub open spec fn volume_settle() -> Duration {
    Duration { nanos: 400_000_000 }
}

/// Push the volume save out past the settle window, superseding a pending one,
/// so a burst of changes is saved once.
pub fn arm_volume_save(status: &mut Status, now: Instant)
    ensures
        *final(status) == (Status {
            volume_save_due: Some(later(now, volume_settle())),
            ..*old(status)
        }),
{
    status.volume_save_due = Some(now.after(Duration { nanos: 400_000_000 }));
}

pub open spec fn save_due(now: Instant, due: Option<Instant>) -> bool {
    due is Some && now.nanos >= due->0.nanos
}

/// Whether the armed volume save is due now, and the deadline to keep. A passed
/// deadline fires once and clears; a future one waits.
pub fn volume_save_due(now: Instant, due: Option<Instant>) -> (fire: (bool, Option<Instant>))
    ensures
        fire.0 == save_due(now, due),
        fire.1 == if save_due(now, due) {
            None
        } else {
            due
        },
{
    match due {
        Some(at) => if now.nanos >= at.nanos {
            (true, None)
        } else {
            (false, Some(at))
        },
        None => (false, None),
    }
}

pub open spec fn volume_polled(s: SharedModel, now: Instant) -> SharedModel {
    if save_due(now, s.status.value.volume_save_due) {
        SharedModel { status: whole(Status { volume_save_due: None, ..s.status.value }), ..s }
    } else {
        s
    }
}

/// Save the config if a settled volume is due.
pub fn poll_volume_save(shared: &mut Shared, now: Instant, out: &mut Vec<Action>)
    ensures
        final(shared)@ == volume_polled(old(shared)@, now),
        final(out)@ == if save_due(now, old(shared)@.status.value.volume_save_due) {
            old(out)@.push(Action::SaveConfig)
        } else {
            old(out)@
        },
{
    let (ready, keep) = volume_save_due(now, shared.status.value.volume_save_due);
    let mut status = shared.status.value;
    status.volume_save_due = keep;
    shared.status = hold(status);
    if ready {
        out.push(Action::SaveConfig);
    }
}

/// The bit pattern of 1.0.
pub const FULL_VOLUME: u32 = 0x3f80_0000;

/// A volume, by its bit pattern, brought between zero and one. Patterns of
/// non-negative numbers are ordered as the numbers are, up to infinity's; the top
/// bit is the sign. What is no number stays as it is.
pub open spec fn volume_within(volume: u32) -> u32 {
    if FULL_VOLUME < volume <= 0x7f80_0000 {
        FULL_VOLUME
    } else if 0x8000_0000 < volume <= 0xff80_0000 {
        0
    } else {
        volume
    }
}

fn clamp_volume(volume: u32) -> (within: u32)
    ensures
        within == volume_within(volume),
{
    if FULL_VOLUME < volume && volume <= 0x7f80_0000 {
        FULL_VOLUME
    } else if 0x8000_0000 < volume && volume <= 0xff80_0000 {
        0
    } else {
        volume
    }
}

/// The new volume remembered, the sound no longer muted, and the save put off
/// until the volume settles.
#[verifier::opaque]
pub open spec fn volume_noted(s: SharedModel, volume: u32, now: Instant) -> SharedModel {
    SharedModel {
        status: whole(
            Status { volume_save_due: Some(later(now, volume_settle())), ..s.status.value },
        ),
        ..with_config(s, Setting::VideoVolume(volume_within(volume)))
    }
}

fn note_volume(shared: &mut Shared, volume: u32, now: Instant)
    ensures
        final(shared)@ == volume_noted(old(shared)@, volume, now),
{
    let within: u32 = clamp_volume(volume);
    proof {
        reveal(volume_noted);
        lemma_with_config(shared@, Setting::VideoVolume(within));
    }
    shared.set(Setting::VideoVolume(within));
    let mut status = shared.status.value;
    arm_volume_save(&mut status, now);
    shared.status = hold(status);
}

/// A volume change taken in: it is noted, and an open session takes the new
/// volume at once.
pub open spec fn volume_set(t: Wt, volume: u32, now: Instant) -> Wt {
    let u = Wt { s: volume_noted(t.s, volume, now), ..t };
    (if t.w.viewer is Some && t.w.viewer->0.video.session is Some {
        u.act(Action::ApplyVideoVolume { volume })
    } else {
        u
    }).act(Action::WakeForVolumeSave { delay: Duration { nanos: 450_000_000 } })
}

/// Take in a new volume, given by its bit pattern.
pub fn set_volume(
    win: &Window,
    shared: &mut Shared,
    volume: u32,
    now: Instant,
    out: &mut Vec<Action>,
)
    ensures
        wt(win@, final(shared)@, final(out)@) == volume_set(
            wt(win@, old(shared)@, old(out)@),
            volume,
            now,
        ),
{
    let open: bool = match win.viewer() {
        Some(viewer) => viewer.video.session.is_some(),
        None => false,
    };
    note_volume(shared, volume, now);
    if open {
        out.push(Action::ApplyVideoVolume { volume });
    }
    out.push(Action::WakeForVolumeSave { delay: Duration { nanos: 450_000_000 } });
}

/// The mute of an open session flipped and remembered.
pub open spec fn mute_toggled(t: St) -> St {
    match t.v.video.session {
        Some(session) => {
            let muted = !session.muted;
            St {
                s: with_config(t.s, Setting::VideoMuted(muted)),
                ..with_session(t, VideoSession { muted, ..session })
            }.act(Action::SetVideoMuted { muted }).act(Action::SaveConfig)
        },
        None => t,
    }
}

/// Mute or unmute the open video.
pub fn toggle_mute(viewer: &mut Viewer, shared: &mut Shared, out: &mut Vec<Action>)
    requires
        old(viewer)@.wf(),
    ensures
        st(final(viewer)@, final(shared)@, final(out)@) == mute_toggled(
            st(old(viewer)@, old(shared)@, old(out)@),
        ),
        final(viewer)@.wf(),
{
    match viewer.video.session {
        Some(session) => {
            let muted: bool = !session.muted;
            viewer.video.session = Some(
                VideoSession {
                    playing: session.playing,
                    looping: session.looping,
                    muted,
                    temp: session.temp,
                },
            );
            shared.set(Setting::VideoMuted(muted));
            out.push(Action::SetVideoMuted { muted });
            out.push(Action::SaveConfig);
        },
        None => {},
    }
}

/// The looping of an open session flipped and remembered.
pub open spec fn loop_toggled(t: St) -> St {
    match t.v.video.session {
        Some(session) => {
            let looping = !session.looping;
            St {
                s: with_config(t.s, Setting::VideoLoop(looping)),
                ..with_session(t, VideoSession { looping, ..session })
            }.act(Action::SetVideoLooping { looping }).act(Action::SaveConfig)
        },
        None => t,
    }
}

/// Turn looping of the open video on or off.
pub fn toggle_loop(viewer: &mut Viewer, shared: &mut Shared, out: &mut Vec<Action>)
    requires
        old(viewer)@.wf(),
    ensures
        st(final(viewer)@, final(shared)@, final(out)@) == loop_toggled(
            st(old(viewer)@, old(shared)@, old(out)@),
        ),
        final(viewer)@.wf(),
{
    match viewer.video.session {
        Some(session) => {
            let looping: bool = !session.looping;
            viewer.video.session = Some(
                VideoSession {
                    playing: session.playing,
                    looping,
                    muted: session.muted,
                    temp: session.temp,
                },
            );
            shared.set(Setting::VideoLoop(looping));
            out.push(Action::SetVideoLooping { looping });
            out.push(Action::SaveConfig);
        },
        None => {},
    }
}

/// A burst of volume changes is saved exactly once: not before it has rested,
/// at the first poll after that, and not again.
pub proof fn law_volume_saves_once(s: SharedModel, now: Instant, then: Instant, again: Instant)
    requires
        s.status.value.volume_save_due == Some(later(now, volume_settle())),
        then.nanos >= later(now, volume_settle()).nanos,
    ensures
        save_due(then, s.status.value.volume_save_due),
        !save_due(again, volume_polled(s, then).status.value.volume_save_due),
        now.nanos < later(now, volume_settle()).nanos ==> !save_due(
            now,
            s.status.value.volume_save_due,
        ),
{
}

/// A session that never showed a frame is never started over, so a broken
/// looping video cannot respawn its decoder on every tick.
pub proof fn law_blank_session_never_reopens(t: St, session: VideoSession)
    ensures
        session_ended(t, session, false).out == t.out || session_ended(t, session, false).out
            == t.out.push(Action::PauseVideo),
{
}

/// Any volume that is a number ends up between zero, of either sign, and one,
/// and one that is there already is kept.
pub proof fn law_volume_stays_in_range(volume: u32)
    requires
        volume <= 0x7f80_0000 || 0x8000_0000 <= volume <= 0xff80_0000,
    ensures
        volume_within(volume) <= FULL_VOLUME || volume_within(volume) == 0x8000_0000,
        volume <= FULL_VOLUME ==> volume_within(volume) == volume,
{
}

} // verus!
