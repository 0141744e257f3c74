//! What the events of a window, and of what is opened in it, come to.
use crate::actions::Action;
use crate::config::{with_setting, Config, Setting};
use crate::decay::{decay_restarted, restored, window_restored};
use crate::dispatch::{dispatched, open_message, transient_dismissed, window_message};
use crate::files::FileId;
use crate::laws::arrival::{arrived_at, law_arrival};
use crate::laws::controls::picture_size;
use crate::laws::decaying::lemma_restored_tail;
use crate::laws::opening::lemma_released_entries;
use crate::laws::releasing::{law_released_claims_are_gone, law_released_frames_are_gone};
use crate::leases::{files_of, lemma_holds, want_of};
use crate::media_tasks::{Ctx, St};
use crate::message::{Message, OpenMessage, WindowMessage};
use crate::navigation::files_replaced;
use crate::open::{relisted, rescan_landed};
use crate::paths::{archive_extensions, dir_part, has_extension, name_part, path_text, Source};
use crate::state::{lemma_with_config, SharedModel, VideoSession, VideoState, ViewerModel};
use crate::store::Claim;
use crate::time::Duration;
use crate::whole::whole;
use crate::window::{next_number, session_closed, Coords, WindowState, Wt};
use crate::window_events::{
    close_persisted, minimize_set, refitted, strip_shifted, tiles_settling, video_follows,
    window_resized, WindowMode, WindowReport,
};
use vstd::prelude::*;

verus! {

/// Whether `before` takes the window event `msg`.
pub open spec fn happens(before: Wt, after: Wt, ctx: Ctx, msg: WindowMessage) -> bool {
    dispatched(before, after, ctx, Message::Window(msg))
}

/// The picture fitted to the window again, unless its zoom was set by hand, and
/// kept from scrolling past its edges.
pub open spec fn refit_actions(t: Wt) -> Seq<Action> {
    if t.w.viewer is None {
        Seq::empty()
    } else {
        match picture_size(t.w.viewer->0.displayed) {
            Some((width, height)) => if t.w.viewer->0.manual_zoom {
                seq![Action::ClampPan { width, height }]
            } else {
                seq![Action::FitZoom { width, height }, Action::ClampPan { width, height }]
            },
            None => Seq::empty(),
        }
    }
}

/// The tiles of the new view, asked for once it has rested for twelve hundredths
/// of a second.
pub open spec fn settle_actions(t: Wt) -> Seq<Action> {
    if t.w.viewer is Some {
        seq![
            Action::SettleTiles {
                epoch: (t.w.state.value.tile_epoch + 1) as u64,
                delay: Duration { nanos: 120_000_000 },
            },
        ]
    } else {
        Seq::empty()
    }
}

/// The look at the window's state, once it has rested for four tenths of a
/// second.
pub open spec fn probe_actions(t: Wt) -> Seq<Action> {
    if t.w.state.value.fullscreen {
        Seq::empty()
    } else {
        seq![
            Action::ProbeWindowLater {
                generation: (t.w.state.value.probe_generation + 1) as u64,
                delay: Duration { nanos: 400_000_000 },
            },
        ]
    }
}

proof fn lemma_refitted(t: Wt)
    ensures
        refitted(t) == (Wt { out: t.out + refit_actions(t), ..t }),
{
    assert(refitted(t).out =~= t.out + refit_actions(t));
}

proof fn lemma_tiles_settling(t: Wt)
    requires
        t.w.state.value.tile_epoch < u64::MAX,
    ensures
        tiles_settling(t).out == t.out + settle_actions(t),
        tiles_settling(t).s == t.s,
        tiles_settling(t).w.viewer == t.w.viewer,
        tiles_settling(t).w.modal == t.w.modal,
        tiles_settling(t).w.state.value == (WindowState {
            tile_epoch: if t.w.viewer is Some {
                (t.w.state.value.tile_epoch + 1) as u64
            } else {
                t.w.state.value.tile_epoch
            },
            ..t.w.state.value
        }),
{
    assert(tiles_settling(t).out =~= t.out + settle_actions(t));
}

/// The filmstrip kept where it is, for a listing of this length.
pub open spec fn strip_actions(t: Wt) -> Seq<Action> {
    if t.w.viewer is Some && !t.w.state.value.fullscreen {
        seq![Action::ShiftFilmstrip { len: t.w.viewer->0.nav.files.len() as usize }]
    } else {
        Seq::empty()
    }
}

proof fn lemma_strip_shifted(t: Wt)
    ensures
        strip_shifted(t) == (Wt { out: t.out + strip_actions(t), ..t }),
{
    assert(strip_shifted(t).out =~= t.out + strip_actions(t));
}

/// A resized window has its size noted and its picture, filmstrip and tiles laid
/// out for it; a size without area is ignored.
pub proof fn law_resize_lays_out_again(
    before: Wt,
    after: Wt,
    ctx: Ctx,
    size: Coords,
    empty: bool,
)
    requires
        happens(before, after, ctx, WindowMessage::Resized { size, empty }),
        before.w.state.value.tile_epoch < u64::MAX,
        before.w.state.value.probe_generation < u64::MAX,
    ensures
        after.w.viewer == before.w.viewer,
        after.s == before.s,
        after.w.modal == before.w.modal,
        empty ==> after.w.state == before.w.state && after.out == before.out,
        !empty ==> {
            let state = before.w.state.value;
            &&& after.w.state.value == (WindowState {
                window_size: size,
                tile_epoch: if before.w.viewer is Some {
                    (state.tile_epoch + 1) as u64
                } else {
                    state.tile_epoch
                },
                probe_generation: if state.fullscreen {
                    state.probe_generation
                } else {
                    (state.probe_generation + 1) as u64
                },
                ..state
            })
            &&& after.out == before.out + seq![Action::RecalcViewport] + refit_actions(before)
                + strip_actions(before) + settle_actions(before) + probe_actions(before)
        },
{
    reveal(window_message);
    reveal(window_resized);
    if !empty {
        let msg = Message::Window(WindowMessage::Resized { size, empty });
        let t = transient_dismissed(before, msg);
        let state = before.w.state.value;
        let sized = t.with_state(WindowState { window_size: size, ..t.w.state.value }).act(
            Action::RecalcViewport,
        );
        assert(sized.out =~= before.out + seq![Action::RecalcViewport]);
        lemma_refitted(sized);
        let fit = refitted(sized);
        lemma_strip_shifted(fit);
        let shifted = strip_shifted(fit);
        lemma_tiles_settling(shifted);
        let settled = tiles_settling(shifted);
        assert(refit_actions(sized) == refit_actions(before));
        assert(strip_actions(fit) == strip_actions(before));
        assert(settle_actions(shifted) == settle_actions(before));
        assert(settled.out == before.out + seq![Action::RecalcViewport] + refit_actions(before)
            + strip_actions(before) + settle_actions(before));
        assert(after.out =~= settled.out + probe_actions(before));
    }
}

/// A moved window has its place noted, and its state looked at once it rests.
pub proof fn law_move_is_noted(before: Wt, after: Wt, ctx: Ctx, pos: Coords)
    requires
        happens(before, after, ctx, WindowMessage::Moved(pos)),
        before.w.state.value.probe_generation < u64::MAX,
    ensures
        after.w.viewer == before.w.viewer,
        after.s == before.s,
        after.w.state.value == (WindowState {
            window_pos: pos,
            probe_generation: if before.w.state.value.fullscreen {
                before.w.state.value.probe_generation
            } else {
                (before.w.state.value.probe_generation + 1) as u64
            },
            ..before.w.state.value
        }),
        after.out == before.out + probe_actions(before),
{
    reveal(window_message);
    assert(after.out =~= before.out + probe_actions(before));
}

/// What the system reports of a window counts unless it is minimized. Its place
/// and size become those to restore only where it is plain: neither maximized,
/// nor snapped, nor on the whole screen.
pub proof fn law_only_a_plain_window_is_restored_as_it_is(
    before: Wt,
    after: Wt,
    ctx: Ctx,
    report: WindowReport,
)
    requires
        happens(before, after, ctx, WindowMessage::WindowState(report)),
    ensures
        after.w.viewer == before.w.viewer,
        after.s == before.s,
        after.out == before.out,
        ({
            let state = before.w.state.value;
            let plain = !report.minimized && !report.maximized && !report.snapped && report.mode
                == WindowMode::Windowed;
            after.w.state.value == WindowState {
                maximized: if report.minimized {
                    state.maximized
                } else {
                    report.maximized
                },
                restored_size: if plain {
                    state.window_size
                } else {
                    state.restored_size
                },
                restored_pos: if plain {
                    state.window_pos
                } else {
                    state.restored_pos
                },
                ..state
            }
        }),
{
    reveal(window_message);
}

/// Only the latest of the looks asked for is taken.
pub proof fn law_stale_look_is_dropped(before: Wt, after: Wt, ctx: Ctx, generation: u64)
    requires
        happens(before, after, ctx, WindowMessage::ProbeWindowState { generation }),
    ensures
        after.w.viewer == before.w.viewer,
        after.w.state == before.w.state,
        after.s == before.s,
        after.out == if generation == before.w.state.value.probe_generation {
            before.out.push(Action::CheckWindowState)
        } else {
            before.out
        },
{
    reveal(window_message);
}

/// A window that closes leaves the place and size to restore, and whether it was
/// maximized or on the whole screen, in the settings, which are saved before it
/// goes.
pub proof fn law_closing_window_leaves_its_bounds(before: Wt, after: Wt, ctx: Ctx)
    requires
        happens(before, after, ctx, WindowMessage::CloseRequested),
    ensures
        after.w.viewer == before.w.viewer,
        after.s.config.value == (Config {
            window_width: before.w.state.value.restored_size.first,
            window_height: before.w.state.value.restored_size.second,
            window_x: Some(before.w.state.value.restored_pos.first),
            window_y: Some(before.w.state.value.restored_pos.second),
            window_maximized: before.w.state.value.maximized,
            window_fullscreen: before.w.state.value.fullscreen,
            ..before.s.config.value
        }),
        after.out == before.out.push(Action::SaveThenClose),
{
    reveal(window_message);
    reveal(close_persisted);
    let state = before.w.state.value;
    let setting = Setting::RestoreStack {
        size: state.restored_size,
        pos: state.restored_pos,
        maximized: state.maximized,
        fullscreen: state.fullscreen,
    };
    lemma_with_config(before.s, setting);
    assert(with_setting(before.s.config.value, setting) == (Config {
        window_width: state.restored_size.first,
        window_height: state.restored_size.second,
        window_x: Some(state.restored_pos.first),
        window_y: Some(state.restored_pos.second),
        window_maximized: state.maximized,
        window_fullscreen: state.fullscreen,
        ..before.s.config.value
    })) by {
        reveal(with_setting);
    }
}

/// A measured image area is taken over where it was measured at the size the
/// window still has and the estimate was off.
pub proof fn law_measured_area_is_taken_over(
    before: Wt,
    after: Wt,
    ctx: Ctx,
    at: Coords,
    agrees: bool,
)
    requires
        happens(before, after, ctx, WindowMessage::ImageAreaMeasured { at, agrees }),
        before.w.state.value.tile_epoch < u64::MAX,
    ensures
        after.w.viewer == before.w.viewer,
        after.s == before.s,
        at != before.w.state.value.window_size || agrees ==> after.w.state == before.w.state
            && after.out == before.out,
        at == before.w.state.value.window_size && !agrees ==> {
            let learned: Seq<Action> = if before.w.state.value.fullscreen {
                Seq::empty()
            } else {
                seq![Action::CalibrateChrome]
            };
            after.out == before.out + learned + seq![Action::AdoptMeasuredViewport]
                + refit_actions(before) + settle_actions(before)
        },
{
    reveal(window_message);
    if at == before.w.state.value.window_size && !agrees {
        let learned: Seq<Action> = if before.w.state.value.fullscreen {
            Seq::empty()
        } else {
            seq![Action::CalibrateChrome]
        };
        assert(after.out =~= before.out + learned + seq![Action::AdoptMeasuredViewport]
            + refit_actions(before) + settle_actions(before));
    }
}

/// Focus is noted as it comes. A window that loses it takes its zoom popup down;
/// a change restarts its decay and has it looked at for a minimize.
pub proof fn law_focus_is_noted(before: Wt, after: Wt, ctx: Ctx, on: bool)
    requires
        happens(before, after, ctx, WindowMessage::Focused(on)),
    ensures
        after.w.state.value.focused == on,
        after.w.state.value.minimized == before.w.state.value.minimized,
        after.w.state.value.zoom_slider_open == (on
            && before.w.state.value.zoom_slider_open),
        on == before.w.state.value.focused ==> after.out == before.out && after.w.viewer
            == before.w.viewer && after.s == before.s && after.w.state.value.decay_generation
            == before.w.state.value.decay_generation,
        on != before.w.state.value.focused ==> after.out.len() > 0 && after.out.last()
            == Action::CheckMinimize && after.w.state.value.decay_generation
            != before.w.state.value.decay_generation,
{
    reveal(window_message);
    lemma_restart_state(
        transient_dismissed(before, Message::Window(WindowMessage::Focused(on))).with_state(
            WindowState {
                focused: on,
                zoom_slider_open: on && before.w.state.value.zoom_slider_open,
                ..transient_dismissed(
                    before,
                    Message::Window(WindowMessage::Focused(on)),
                ).w.state.value
            },
        ),
    );
}

proof fn lemma_restart_state(t: Wt)
    ensures
        decay_restarted(t).w.state.value == (WindowState {
            decay_generation: next_number(t.w.state.value.decay_generation),
            ..t.w.state.value
        }),
        decay_restarted(t).w.modal == t.w.modal,
{
    reveal(decay_restarted);
    reveal(window_restored);
}

/// A video follows its window: a minimize pauses it where that is configured and
/// remembers whether it played; the way back plays it on exactly if it did.
pub proof fn law_video_follows_a_minimize(before: Wt, after: Wt, ctx: Ctx, session: VideoSession)
    requires
        happens(before, after, ctx, WindowMessage::Minimized(true)),
        !before.w.state.value.minimized,
        before.w.viewer is Some,
        before.w.viewer->0.video.session == Some(session),
    ensures
        after.w.state.value.minimized,
        after.w.viewer is Some,
        ({
            let pauses = before.s.config.value.resource.value.pause_video_when_minimized;
            &&& after.w.viewer->0.video == (VideoState {
                session: Some(VideoSession { playing: session.playing && !pauses, ..session }),
                ..before.w.viewer->0.video
            })
            &&& pauses ==> after.w.state.value.video_resumes_on_restore == session.playing
            &&& pauses ==> after.out.len() > before.out.len()
                && after.out[before.out.len() as int] == Action::PauseVideo
            &&& !pauses ==> after.w.state.value.video_resumes_on_restore
                == before.w.state.value.video_resumes_on_restore
        }),
{
    reveal(window_message);
    reveal(minimize_set);
    reveal(decay_restarted);
    reveal(window_restored);
}

/// Whether the name of `file` is that of an archive.
pub open spec fn names_archive(s: SharedModel, file: FileId) -> bool {
    has_extension(name_part(path_text(s.paths, file), s.paths.style), archive_extensions())
}

/// A path that is dropped or picked is on its way from then on: an archive is
/// indexed, anything else leads to a scan of its directory. A dialog that was
/// cancelled changes nothing.
pub proof fn law_handed_path_is_opened(
    before: Wt,
    dropped: Wt,
    picked: Wt,
    cancelled: Wt,
    ctx: Ctx,
    file: FileId,
)
    requires
        dispatched(before, dropped, ctx, Message::Open(OpenMessage::FileDropped(file))),
        dispatched(
            before,
            picked,
            ctx,
            Message::Open(OpenMessage::FileDialogResult(Some(file))),
        ),
        dispatched(
            before,
            cancelled,
            ctx,
            Message::Open(OpenMessage::FileDialogResult(None)),
        ),
    ensures
        ({
            let scan = if names_archive(before.s, file) {
                Action::ScanArchive { file }
            } else {
                Action::ScanDirectory { file }
            };
            &&& dropped.w.state.value.opening_since == Some(ctx.now)
            &&& dropped.w.viewer == before.w.viewer
            &&& dropped.s == before.s
            &&& dropped.out == before.out.push(scan)
            &&& picked.w.state.value.opening_since == Some(ctx.now)
            &&& picked.w.viewer == before.w.viewer
            &&& picked.s == before.s
            &&& picked.out == before.out.push(scan)
            &&& cancelled.w.state.value.opening_since == before.w.state.value.opening_since
            &&& cancelled.w.viewer == before.w.viewer
            &&& cancelled.s == before.s
            &&& cancelled.out == before.out
        }),
{
    reveal(open_message);
}

/// The file menu: the dialog opens, the file closes, the program quits, and the
/// menu is gone.
pub proof fn law_file_menu_does_what_it_says(
    before: Wt,
    opened: Wt,
    closed: Wt,
    quit: Wt,
    ctx: Ctx,
)
    requires
        dispatched(before, opened, ctx, Message::Open(OpenMessage::OpenFile)),
        dispatched(before, closed, ctx, Message::Open(OpenMessage::CloseFile)),
        dispatched(before, quit, ctx, Message::Open(OpenMessage::Quit)),
    ensures
        opened.w.state.value.open_menu is None,
        opened.w.viewer == before.w.viewer,
        opened.s == before.s,
        opened.out == before.out.push(Action::OpenDialog),
        closed.w.state.value.open_menu is None,
        closed.w.viewer is None,
        closed.out == before.out,
        closed.s.config == before.s.config,
        closed.s.store.entries == before.s.store.entries,
        quit.w.viewer == before.w.viewer,
        quit.s == before.s,
        quit.out == before.out.push(Action::SaveThenClose),
{
    reveal(open_message);
    reveal(session_closed);
    if before.w.viewer is Some {
        lemma_released_entries(
            before.s.store,
            before.w.state.value.id,
            files_of(before.w.viewer->0.cache),
        );
    }
}

/// A closed file leaves no claim of its window on any image it held.
pub proof fn law_closed_file_lets_go_of_its_images(
    before: Wt,
    after: Wt,
    ctx: Ctx,
    c: Claim,
)
    requires
        dispatched(before, after, ctx, Message::Open(OpenMessage::CloseFile)),
        before.w.viewer is Some,
        c.window == before.w.state.value.id,
    ensures
        want_of(before.w.viewer->0.cache, c.file) is Some ==> !after.s.store.claims.contains(c)
            && after.s.store.dirty.contains(c.file),
        want_of(before.w.viewer->0.anim.cache, c.file) is Some
            ==> !after.s.anims.claims.contains(c) && after.s.anims.dirty.contains(c.file),
{
    reveal(open_message);
    reveal(session_closed);
    let cache = before.w.viewer->0.cache;
    let frames = before.w.viewer->0.anim.cache;
    law_released_claims_are_gone(before.s.store, c.window, files_of(cache), c);
    law_released_frames_are_gone(before.s.anims, c.window, files_of(frames), c);
    lemma_holds(cache, c.file);
    lemma_holds(frames, c.file);
    if want_of(cache, c.file) is Some {
        let i = choose|i: int| 0 <= i < cache.len() && (#[trigger] cache[i]).file == c.file;
        assert(files_of(cache)[i] == c.file);
    }
    if want_of(frames, c.file) is Some {
        let i = choose|i: int| 0 <= i < frames.len() && (#[trigger] frames[i]).file == c.file;
        assert(files_of(frames)[i] == c.file);
    }
}

/// A changed directory is scanned again, and the new listing takes the place of
/// the old where it is that of the open file. The cursor stays on its file; where
/// that is gone it arrives at the start. Past errors are forgotten.
pub proof fn law_rescanned_directory_is_relisted(
    before: Wt,
    changed: Wt,
    after: Wt,
    ctx: Ctx,
    dir: FileId,
    files: Vec<FileId>,
)
    requires
        dispatched(before, changed, ctx, Message::Open(OpenMessage::DirectoryChanged(dir))),
        dispatched(
            before,
            after,
            ctx,
            Message::Open(OpenMessage::DirectoryRescanned(dir, Some(files))),
        ),
        before.w.viewer is Some,
        before.w.viewer->0.wf(),
        before.w.viewer->0.pending_nav is None,
    ensures
        changed.w.viewer == before.w.viewer,
        changed.s == before.s,
        changed.out == before.out.push(Action::RescanDirectory { dir }),
        ({
            let v = before.w.viewer->0;
            let here = v.source == Source::Fs && dir_part(
                path_text(before.s.paths, v.current()),
                before.s.paths.style,
            ) == path_text(before.s.paths, dir);
            let now = after.w.viewer->0;
            &&& !here ==> after.w.viewer == before.w.viewer && after.s == before.s && after.out
                == before.out
            &&& here && files@.len() == 0 ==> after.w.viewer is None
            &&& here && files@.contains(v.current()) ==> {
                &&& after.w.viewer is Some
                &&& now.nav.files == files@
                &&& now.current() == v.current()
                &&& now.failed_loads == Map::<FileId, Seq<char>>::empty()
                &&& now.displayed == v.displayed
                &&& now.displayed_path == v.displayed_path
                &&& after.out == before.out
            }
            &&& here && files@.len() > 0 && !files@.contains(v.current()) ==> {
                &&& after.w.viewer is Some
                &&& now.nav.files == files@
                &&& now.nav.cursor == 0
                &&& now.failed_loads == Map::<FileId, Seq<char>>::empty()
                &&& now.rotation == 0
            }
        }),
{
    reveal(open_message);
    reveal(rescan_landed);
    reveal(relisted);
    reveal(session_closed);
    let v = before.w.viewer->0;
    assert(files.len() == files@.len());
    files@.index_of_first_ensures(v.current());
    let u = St {
        v: ViewerModel { failed_loads: Map::empty(), ..files_replaced(v, files@) },
        s: before.s,
        out: before.out,
    };
    if files@.len() > 0 && !files@.contains(v.current()) {
        assert(files@[0] != v.current());
        law_arrival(u, ctx, 0, true);
        reveal(arrived_at);
    }
}

/// A video that a minimize paused plays on when its window is back, and is
/// remembered no longer; one that was paused before stays paused.
pub proof fn law_video_follows_the_way_back(
    before: Wt,
    after: Wt,
    ctx: Ctx,
    session: VideoSession,
)
    requires
        happens(before, after, ctx, WindowMessage::Minimized(false)),
        before.w.state.value.minimized,
        before.w.viewer is Some,
        before.w.viewer->0.video.session == Some(session),
        before.w.viewer->0.video.suspended is None,
    ensures
        !after.w.state.value.minimized,
        after.w.viewer is Some,
        ({
            let resumes = before.w.state.value.video_resumes_on_restore;
            &&& after.w.viewer->0.video == (VideoState {
                session: Some(VideoSession { playing: session.playing || resumes, ..session }),
                ..before.w.viewer->0.video
            })
            &&& !after.w.state.value.video_resumes_on_restore
            &&& resumes ==> after.out.len() > before.out.len()
                && after.out[before.out.len() as int] == Action::PlayVideo
        }),
{
    reveal(window_message);
    reveal(minimize_set);
    let msg = Message::Window(WindowMessage::Minimized(false));
    let t = transient_dismissed(before, msg);
    let u = t.with_state(WindowState { minimized: false, ..t.w.state.value });
    let (inner, resume) = video_follows(
        u.inner(),
        false,
        t.s.config.value.resource.value.pause_video_when_minimized,
        t.w.state.value.video_resumes_on_restore,
    );
    let followed = u.with_inner(inner).with_state(
        WindowState { video_resumes_on_restore: resume, ..u.w.state.value },
    );
    lemma_restart_state(followed);
    let id = before.w.state.value.id;
    let focused = before.w.state.value.focused;
    let fresh = followed.with_state(
        WindowState {
            decay_generation: next_number(followed.w.state.value.decay_generation),
            ..followed.w.state.value
        },
    );
    lemma_restored_tail(fresh.inner(), fresh.inner(), id, focused);
    let shown = restored(fresh.inner(), id, focused);
    assert(after.w.viewer == Some(shown.v) && shown.out.len() <= after.out.len() && (forall|k: int|
        0 <= k < shown.out.len() ==> after.out[k] == #[trigger] shown.out[k])) by {
        reveal(decay_restarted);
        reveal(window_restored);
    }
    if before.w.state.value.video_resumes_on_restore {
        assert(shown.out.take(inner.out.len() as int)[before.out.len() as int]
            == Action::PlayVideo);
        assert(shown.out[before.out.len() as int] == Action::PlayVideo);
    }
}

} // verus!
