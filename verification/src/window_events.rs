//! Per-window system events: geometry tracking and persistence, focus, and
//! minimize. The decay they drive lives in `decay`.
use crate::actions::Action;
use crate::decay::{decay_restarted, restart_decay};
use crate::media_tasks::{st, St};
use crate::config::Setting;
use crate::state::{
    with_config, Shared, SharedModel, VideoSession, VideoState, Viewer, ViewerModel,
};
use crate::time::Duration;
use crate::whole::whole;
use crate::window::{bumped, next_number, wt, Coords, Window, WindowModel, WindowState, Wt};
use vstd::prelude::*;

verus! {

/// How a window fills the screen.
#[derive(Clone, Copy, PartialEq, Eq, Structural, Debug)]
pub enum WindowMode {
    Windowed,
    Fullscreen,
    Hidden,
}

/// What the windowing system says of a window.
#[derive(Clone, Copy, PartialEq, Eq, Structural, Debug)]
pub struct WindowReport {
    pub maximized: bool,
    pub minimized: bool,
    pub mode: WindowMode,
    pub snapped: bool,
}

/// A size worth remembering only when the window is plainly windowed: neither
/// maximized, minimized, fullscreen, nor snapped.
pub fn should_persist(report: WindowReport) -> (yes: bool)
    ensures
        yes == (!report.maximized && !report.minimized && !report.snapped && report.mode
            is Windowed),
{
    !report.maximized && !report.minimized && !report.snapped && report.mode
        == WindowMode::Windowed
}

/// The image refitted to a changed viewport: a zoom not set by hand is chosen
/// anew, and the pan is kept inside the image.
pub open spec fn refitted(t: Wt) -> Wt {
    match t.w.viewer {
        Some(v) => match v.displayed.original_size() {
            Some((width, height)) => (if v.manual_zoom {
                t
            } else {
                t.act(Action::FitZoom { width, height })
            }).act(Action::ClampPan { width, height }),
            None => t,
        },
        None => t,
    }
}

fn refit(win: &Window, out: &mut Vec<Action>)
    ensures
        forall|s: SharedModel|
            #![trigger wt(win@, s, old(out)@)]
            wt(win@, s, final(out)@) == refitted(wt(win@, s, old(out)@)),
{
    match win.viewer() {
        Some(viewer) => match viewer.displayed.original_size() {
            Some((width, height)) => {
                if !viewer.manual_zoom {
                    out.push(Action::FitZoom { width, height });
                }
                out.push(Action::ClampPan { width, height });
            },
            None => {},
        },
        None => {},
    }
}

/// A tile demand pass scheduled once the view rests, superseding earlier ones.
pub open spec fn tiles_settling(t: Wt) -> Wt {
    if t.w.viewer is Some {
        let epoch = next_number(t.w.state.value.tile_epoch);
        t.with_state(WindowState { tile_epoch: epoch, ..t.w.state.value }).act(
            Action::SettleTiles { epoch, delay: Duration { nanos: 120_000_000 } },
        )
    } else {
        t
    }
}

/// Schedule a tile demand pass for a changing view. Nothing while nothing is
/// open.
pub fn settle_tiles(win: &mut Window, out: &mut Vec<Action>)
    ensures
        forall|s: SharedModel|
            #![trigger wt(old(win)@, s, old(out)@)]
            wt(final(win)@, s, final(out)@) == tiles_settling(wt(old(win)@, s, old(out)@)),
{
    if win.viewer().is_none() {
        return ;
    }
    let epoch: u64 = bumped(win.state.value.tile_epoch);
    win.set_state(WindowState { tile_epoch: epoch, ..win.state.value });
    out.push(Action::SettleTiles { epoch, delay: Duration { nanos: 120_000_000 } });
}

/// A probe of the window's state scheduled once it sits still, superseding an
/// earlier one.
pub open spec fn probe_settling(t: Wt) -> Wt {
    let generation = next_number(t.w.state.value.probe_generation);
    t.with_state(WindowState { probe_generation: generation, ..t.w.state.value }).act(
        Action::ProbeWindowLater { generation, delay: Duration { nanos: 400_000_000 } },
    )
}

/// Arm the settle timer for a state probe.
pub fn debounce_window_state(win: &mut Window, out: &mut Vec<Action>)
    ensures
        forall|s: SharedModel|
            #![trigger wt(old(win)@, s, old(out)@)]
            wt(final(win)@, s, final(out)@) == probe_settling(wt(old(win)@, s, old(out)@)),
{
    let generation: u64 = bumped(win.state.value.probe_generation);
    win.set_state(WindowState { probe_generation: generation, ..win.state.value });
    out.push(Action::ProbeWindowLater { generation, delay: Duration { nanos: 400_000_000 } });
}

/// The filmstrip shifted evenly to a new width, unless fullscreen hides it.
pub open spec fn strip_shifted(t: Wt) -> Wt {
    match t.w.viewer {
        Some(v) if !t.w.state.value.fullscreen => t.act(
            Action::ShiftFilmstrip { len: v.nav.files.len() as usize },
        ),
        _ => t,
    }
}

/// A resize taken in. The empty size a minimize reports is ignored. The state
/// is probed before anything is persisted, and never in fullscreen.
#[verifier::opaque]
pub open spec fn window_resized(t: Wt, size: Coords, empty: bool) -> Wt {
    if empty {
        t
    } else {
        let sized = t.with_state(WindowState { window_size: size, ..t.w.state.value }).act(
            Action::RecalcViewport,
        );
        let settled = tiles_settling(strip_shifted(refitted(sized)));
        if t.w.state.value.fullscreen {
            settled
        } else {
            probe_settling(settled)
        }
    }
}

/// Take in a resize.
pub fn resized(win: &mut Window, shared: &Shared, size: Coords, empty: bool, out: &mut Vec<Action>)
    requires
        old(win)@.wf(),
    ensures
        wt(final(win)@, shared@, final(out)@) == window_resized(
            wt(old(win)@, shared@, old(out)@),
            size,
            empty,
        ),
        final(win)@.wf(),
{
    proof {
        reveal(window_resized);
    }
    if empty {
        return ;
    }
    win.set_state(WindowState { window_size: size, ..win.state.value });
    out.push(Action::RecalcViewport);
    let ghost sized = wt(win@, shared@, out@);
    refit(win, out);
    assert(wt(win@, shared@, out@) == refitted(sized));
    let fullscreen: bool = win.state.value.fullscreen;
    if !fullscreen {
        match win.viewer() {
            Some(viewer) => {
                out.push(Action::ShiftFilmstrip { len: viewer.nav.len() });
            },
            None => {},
        }
    }
    let ghost shifted = wt(win@, shared@, out@);
    assert(shifted == strip_shifted(refitted(sized)));
    settle_tiles(win, out);
    let ghost settled = wt(win@, shared@, out@);
    assert(settled == tiles_settling(shifted));
    if !fullscreen {
        debounce_window_state(win, out);
        assert(wt(win@, shared@, out@) == probe_settling(settled));
    }
}

/// A move taken in.
pub open spec fn window_moved(t: Wt, pos: Coords) -> Wt {
    let there = t.with_state(WindowState { window_pos: pos, ..t.w.state.value });
    if t.w.state.value.fullscreen {
        there
    } else {
        probe_settling(there)
    }
}

/// Take in a move. It is persisted only through the state probe.
pub fn moved(win: &mut Window, shared: &Shared, pos: Coords, out: &mut Vec<Action>)
    requires
        old(win)@.wf(),
    ensures
        wt(final(win)@, shared@, final(out)@) == window_moved(
            wt(old(win)@, shared@, old(out)@),
            pos,
        ),
        final(win)@.wf(),
{
    win.set_state(WindowState { window_pos: pos, ..win.state.value });
    if !win.state.value.fullscreen {
        let ghost there = wt(win@, shared@, out@);
        debounce_window_state(win, out);
        assert(wt(win@, shared@, out@) == probe_settling(there));
    }
}

/// Probe the window's state, unless a later move or resize superseded this.
pub fn probe_window_state(win: &Window, generation: u64, out: &mut Vec<Action>)
    ensures
        final(out)@ == if generation == win@.state.value.probe_generation {
            old(out)@.push(Action::CheckWindowState)
        } else {
            old(out)@
        },
{
    if generation == win.state.value.probe_generation {
        out.push(Action::CheckWindowState);
    }
}

/// The restore stack after a state report: a minimized window reports nothing
/// worth keeping, and only plain windowed bounds are remembered.
pub open spec fn reported(state: WindowState, report: WindowReport) -> WindowState {
    let plain = !report.maximized && !report.minimized && !report.snapped && report.mode
        is Windowed;
    if report.minimized {
        state
    } else if plain {
        WindowState {
            maximized: report.maximized,
            restored_size: state.window_size,
            restored_pos: state.window_pos,
            ..state
        }
    } else {
        WindowState { maximized: report.maximized, ..state }
    }
}

/// Take in a report of the window's state.
pub fn window_state(win: &mut Window, report: WindowReport)
    requires
        old(win)@.wf(),
    ensures
        final(win)@ == (WindowModel {
            state: whole(reported(old(win)@.state.value, report)),
            ..old(win)@
        }),
        final(win)@.wf(),
{
    if !report.minimized {
        let state = win.state.value;
        if should_persist(report) {
            win.set_state(
                WindowState {
                    maximized: report.maximized,
                    restored_size: state.window_size,
                    restored_pos: state.window_pos,
                    ..state
                },
            );
        } else {
            win.set_state(WindowState { maximized: report.maximized, ..state });
        }
    }
}

/// A focus report taken in. Losing focus dismisses the zoom pop-up; a change
/// restarts the decay and has the minimize state checked.
pub open spec fn focus_set(t: Wt, focused: bool) -> Wt {
    let u = t.with_state(
        WindowState {
            focused,
            zoom_slider_open: focused && t.w.state.value.zoom_slider_open,
            ..t.w.state.value
        },
    );
    if t.w.state.value.focused == focused {
        u
    } else {
        decay_restarted(u).act(Action::CheckMinimize)
    }
}

/// Take in a focus report.
pub fn focused(win: &mut Window, shared: &mut Shared, focused: bool, out: &mut Vec<Action>)
    requires
        old(win)@.wf(),
    ensures
        wt(final(win)@, final(shared)@, final(out)@) == focus_set(
            wt(old(win)@, old(shared)@, old(out)@),
            focused,
        ),
        final(win)@.wf(),
{
    let changed: bool = win.state.value.focused != focused;
    let state = win.state.value;
    win.set_state(
        WindowState {
            focused,
            zoom_slider_open: focused && state.zoom_slider_open,
            ..state
        },
    );
    if changed {
        restart_decay(win, shared, out);
        out.push(Action::CheckMinimize);
    }
}

/// The open video paused as its window minimizes, or played on as it returns
/// if that pause stopped it. Gives the flag to keep as well.
pub open spec fn video_follows(
    t: St,
    minimized: bool,
    pause: bool,
    resume: bool,
) -> (St, bool) {
    match t.v.video.session {
        Some(session) => if minimized && pause {
            (
                St {
                    v: ViewerModel {
                        video: VideoState {
                            session: Some(VideoSession { playing: false, ..session }),
                            ..t.v.video
                        },
                        ..t.v
                    },
                    ..t
                }.act(Action::PauseVideo),
                session.playing,
            )
        } else if !minimized && resume {
            (
                St {
                    v: ViewerModel {
                        video: VideoState {
                            session: Some(VideoSession { playing: true, ..session }),
                            ..t.v.video
                        },
                        ..t.v
                    },
                    ..t
                }.act(Action::PlayVideo),
                false,
            )
        } else {
            (t, resume)
        },
        None => (t, resume),
    }
}

fn follow_minimize(
    viewer: &mut Viewer,
    minimized: bool,
    pause: bool,
    resume: bool,
    out: &mut Vec<Action>,
) -> (keep: bool)
    requires
        old(viewer)@.wf(),
    ensures
        forall|s: SharedModel|
            #![trigger st(old(viewer)@, s, old(out)@)]
            (st(final(viewer)@, s, final(out)@), keep) == video_follows(
                st(old(viewer)@, s, old(out)@),
                minimized,
                pause,
                resume,
            ),
        final(viewer)@.wf(),
{
    match viewer.video.session {
        Some(session) => {
            if minimized && pause {
                viewer.video.session = Some(
                    VideoSession {
                        playing: false,
                        looping: session.looping,
                        muted: session.muted,
                        temp: session.temp,
                    },
                );
                out.push(Action::PauseVideo);
                session.playing
            } else if !minimized && resume {
                viewer.video.session = Some(
                    VideoSession {
                        playing: true,
                        looping: session.looping,
                        muted: session.muted,
                        temp: session.temp,
                    },
                );
                out.push(Action::PlayVideo);
                false
            } else {
                resume
            }
        },
        None => resume,
    }
}

/// A minimize report taken in. A change lets the video follow and restarts the
/// decay.
#[verifier::opaque]
pub open spec fn minimize_set(t: Wt, minimized: bool) -> Wt {
    let u = t.with_state(WindowState { minimized, ..t.w.state.value });
    if t.w.state.value.minimized == minimized {
        u
    } else {
        let followed = match t.w.viewer {
            Some(_) => {
                let (inner, resume) = video_follows(
                    u.inner(),
                    minimized,
                    t.s.config.value.resource.value.pause_video_when_minimized,
                    t.w.state.value.video_resumes_on_restore,
                );
                u.with_inner(inner).with_state(
                    WindowState { video_resumes_on_restore: resume, ..u.w.state.value },
                )
            },
            None => u,
        };
        decay_restarted(followed)
    }
}

/// Take in a minimize report.
pub fn minimized(win: &mut Window, shared: &mut Shared, minimized: bool, out: &mut Vec<Action>)
    requires
        old(win)@.wf(),
    ensures
        wt(final(win)@, final(shared)@, final(out)@) == minimize_set(
            wt(old(win)@, old(shared)@, old(out)@),
            minimized,
        ),
        final(win)@.wf(),
{
    proof {
        reveal(minimize_set);
    }
    let changed: bool = win.state.value.minimized != minimized;
    win.set_state(WindowState { minimized, ..win.state.value });
    if !changed {
        return ;
    }
    let ghost u = wt(win@, shared@, out@);
    let pause: bool = shared.config.value.resource.value.pause_video_when_minimized;
    let mut resume: bool = win.state.value.video_resumes_on_restore;
    match win.viewer_mut() {
        Some(viewer) => {
            let ghost before = st(viewer@, shared@, out@);
            resume = follow_minimize(viewer, minimized, pause, resume, out);
            assert((st(viewer@, shared@, out@), resume) == video_follows(
                before,
                minimized,
                pause,
                u.w.state.value.video_resumes_on_restore,
            ));
        },
        None => {},
    }
    win.set_state(WindowState { video_resumes_on_restore: resume, ..win.state.value });
    restart_decay(win, shared, out);
}

/// A measurement of the image area adopted, if it is for the current size and
/// differs from the estimate.
pub open spec fn area_measured(t: Wt, at: Coords, agrees: bool) -> Wt {
    if at != t.w.state.value.window_size || agrees {
        t
    } else {
        let learned = if t.w.state.value.fullscreen {
            t
        } else {
            t.act(Action::CalibrateChrome)
        };
        tiles_settling(refitted(learned.act(Action::AdoptMeasuredViewport)))
    }
}

/// Take in a measurement of the image area, taken at window size `at`.
pub fn image_area_measured(
    win: &mut Window,
    shared: &Shared,
    at: Coords,
    agrees: bool,
    out: &mut Vec<Action>,
)
    requires
        old(win)@.wf(),
    ensures
        wt(final(win)@, shared@, final(out)@) == area_measured(
            wt(old(win)@, shared@, old(out)@),
            at,
            agrees,
        ),
        final(win)@.wf(),
{
    if at != win.state.value.window_size || agrees {
        return ;
    }
    if !win.state.value.fullscreen {
        out.push(Action::CalibrateChrome);
    }
    out.push(Action::AdoptMeasuredViewport);
    let ghost adopted = wt(win@, shared@, out@);
    refit(win, out);
    assert(wt(win@, shared@, out@) == refitted(adopted));
    let ghost fit = wt(win@, shared@, out@);
    settle_tiles(win, out);
    assert(wt(win@, shared@, out@) == tiles_settling(fit));
}

/// The window's restore stack persisted as the next window's, then closed.
#[verifier::opaque]
pub open spec fn close_persisted(t: Wt) -> Wt {
    let state = t.w.state.value;
    Wt {
        s: with_config(
            t.s,
            Setting::RestoreStack {
                size: state.restored_size,
                pos: state.restored_pos,
                maximized: state.maximized,
                fullscreen: state.fullscreen,
            },
        ),
        ..t
    }.act(Action::SaveThenClose)
}

/// Persist this window's restore stack and close it.
pub fn close_requested(win: &Window, shared: &mut Shared, out: &mut Vec<Action>)
    ensures
        wt(win@, final(shared)@, final(out)@) == close_persisted(
            wt(win@, old(shared)@, old(out)@),
        ),
{
    proof {
        reveal(close_persisted);
    }
    shared.set(
        Setting::RestoreStack {
            size: win.state.value.restored_size,
            pos: win.state.value.restored_pos,
            maximized: win.state.value.maximized,
            fullscreen: win.state.value.fullscreen,
        },
    );
    out.push(Action::SaveThenClose);
}

/// A video paused by the minimize plays on when the window returns, and one
/// the user had paused stays paused.
pub proof fn law_minimize_round_trip(t: St, pause: bool)
    requires
        t.v.video.session is Some,
    ensures
        ({
            let (down, keep) = video_follows(t, true, pause, false);
            let (up, after) = video_follows(down, false, pause, keep);
            &&& up.v == t.v
            &&& !after
        }),
{
}

/// What is remembered for the next window is never the bounds of a maximized,
/// minimized, snapped, or fullscreen one.
pub proof fn law_only_plain_bounds_persist(state: WindowState, report: WindowReport)
    ensures
        report.maximized || report.minimized || report.snapped || !(report.mode is Windowed)
            ==> reported(state, report).restored_size == state.restored_size && reported(
            state,
            report,
        ).restored_pos == state.restored_pos,
{
}

} // verus!
