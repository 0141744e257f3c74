//! What holds of every window, whatever happens to it: the image area never
//! shows another file than the one under the cursor.
use crate::actions::{Action, JobZoom, Lane, ThumbUrgency};
use crate::anim::AnimMessage;
use crate::app::{
    adopted, config_adopted, first_holding, ids_of, invalid_reported, lemma_first_holding,
    orphaned, pumped, relaid, routed, routed_end, swept, trimmed_app, turned, window_added,
    window_closed, window_routed, AppModel, Envelope, Routed,
};
use crate::budget::cache_fitted;
use crate::components::{
    info_toggled, step_pressed, step_repeated, toolbar_message, viewer_message, viewer_stepped,
    zoom_mode_set,
};
use crate::decay::{
    decay_restarted, image_run, image_stage, restored, retargeted, shed_run, stage_run, video_run,
    video_suspended, window_restored, DecayStage,
};
use crate::dispatch::{
    anim_decoded, anim_message, decode_failed, decoded, dispatched, media_message, media_stepped,
    modal_message, open_message, transient_dismissed, uploaded, video_message, video_stepped,
    window_message,
};
use crate::file_ops::{
    delete_fired, delete_landed, file_removed, file_renamed, playback_resumed, rename_landed,
    thumb_purged,
};
use crate::files::FileId;
use crate::media::{
    anim_landed, anim_registered, anim_stepped, current_promoted, error_stopped, error_text,
    failure_empties, failure_landed, forgotten, given_up, is_pending_on, last_file, promoted,
    resorted, rotation_landed, still_landed, thumb_landed, unmarked, vanished,
};
use crate::media_tasks::{
    archive_thumb_fired, exif_fired, lemma_load_frame, lemma_placeholder_frame,
    lemma_prefetch_frame, lemma_probe_frame, lemma_shown_frame, lemma_thumb_frame,
    lemma_thumbnailer_frame, lemma_thumbs_frame, placeholder_shown, prefetch_fired, rotate_fired,
    size_probed, st, thumb_fired, thumbnailer_fired, thumbs_fired, visible_files, Ctx, St,
};
use crate::message::{
    FilmstripMessage, MediaMessage, Message, ModalMessage, OpenMessage, SliderMessage,
    VideoMessage, ViewerMessage, WindowMessage,
};
use crate::nav::NavModel;
use crate::navigation::{
    files_replaced, first_requested, lemma_first_requested, lemma_moved, lemma_navigated,
    lemma_target_in_range, moved, navigate_spec, opened, pending_resolved, scrubbed, sharp_size,
    target_index, NavTarget,
};
use crate::open::{
    archive_landed, listing_opened, menu_closed, open_settled, relisted, rescan_landed,
    scan_landed,
};
use crate::panels::{
    budget_set, context_message, settings_message, slider_moved, slider_released, strip_message,
};
use crate::paths::Source;
use crate::state::{fresh_viewer, Direction, SharedModel, Span, ViewerModel};
use crate::store::{Minted, Tier};
use crate::time::Instant;
use crate::video_flow::{extraction_landed, extraction_opened, frame_ticked};
use crate::window::{
    lemma_session_closed, session_closed, toasted, wt, WindowModel, WindowState, Wt,
};
use crate::window_events::{close_persisted, minimize_set, video_follows, window_resized};
use vstd::prelude::*;

verus! {

/// The image area shows the file under the cursor, or nothing.
pub open spec fn in_step(v: ViewerModel) -> bool {
    v.displayed is Nothing || v.displayed_path == Some(v.current())
}

/// The same of a window: nothing open, or in step.
pub open spec fn window_in_step(w: WindowModel) -> bool {
    w.viewer is Some ==> in_step(w.viewer->0)
}

/// `b` has the same cursor, listing, and screen as `a`.
pub open spec fn shows_same(a: ViewerModel, b: ViewerModel) -> bool {
    &&& b.nav == a.nav
    &&& b.displayed_path == a.displayed_path
    &&& b.displayed is Nothing == a.displayed is Nothing
}

proof fn lemma_navigate(t: St, ctx: Ctx, target: NavTarget)
    requires
        t.v.wf(),
        in_step(t.v),
    ensures
        in_step(navigate_spec(t, ctx, target).v),
{
    lemma_target_in_range(t.v.nav, target);
    let index = target_index(t.v.nav, target);
    let file = t.v.nav.files[index];
    lemma_navigated(t, ctx, index, true);
    let held = St {
        v: ViewerModel {
            pending_nav: Some(index as usize),
            pending_since: Some(ctx.now),
            ..t.v
        },
        ..t
    };
    lemma_thumb_frame(held, file, ThumbUrgency::Urgent);
    lemma_load_frame(
        thumb_fired(held, file, ThumbUrgency::Urgent),
        ctx.window,
        file,
        Tier::Full,
    );
}

proof fn lemma_resolved(t: St, ctx: Ctx)
    requires
        t.v.wf(),
        in_step(t.v),
    ensures
        in_step(pending_resolved(t, ctx).v),
{
    match t.v.pending_nav {
        Some(index) => {
            lemma_navigated(t, ctx, index as int, false);
        },
        None => {},
    }
}

proof fn lemma_scrubbed(t: St, index: int, now: Instant)
    requires
        t.v.wf(),
        0 <= index < t.v.nav.files.len(),
    ensures
        in_step(scrubbed(t, index, now).v),
{
    reveal(scrubbed);
    lemma_moved(t, index, false);
    let base = moved(t, index, false);
    let there = St { v: ViewerModel { exif: None, ..base.v }, ..base };
    let file = there.v.current();
    lemma_placeholder_frame(crate::navigation::awaiting(there, now), file);
    match sharp_size(there.v, there.s, file) {
        Some(size) => {
            lemma_shown_frame(there, file, size);
        },
        None => {},
    }
}

proof fn lemma_viewer_step(t: St, ctx: Ctx, msg: ViewerMessage)
    requires
        t.v.wf(),
        in_step(t.v),
    ensures
        in_step(viewer_stepped(t, ctx, msg).v),
{
    reveal(viewer_stepped);
    reveal(rotate_fired);
    let forward = Direction::Forward;
    let backward = Direction::Backward;
    match msg {
        ViewerMessage::Next | ViewerMessage::NextRepeat => {
            lemma_press(t, ctx, forward);
        },
        ViewerMessage::Prev | ViewerMessage::PrevRepeat => {
            lemma_press(t, ctx, backward);
        },
        ViewerMessage::EdgeRepeat => {
            lemma_press(t, ctx, forward);
            lemma_press(t, ctx, backward);
        },
        ViewerMessage::First => {
            lemma_navigate(t, ctx, NavTarget::Index(0));
        },
        ViewerMessage::Last => {
            lemma_navigate(t, ctx, NavTarget::Index((t.v.nav.files.len() - 1) as usize));
        },
        _ => {},
    }
}

proof fn lemma_press(t: St, ctx: Ctx, direction: Direction)
    requires
        t.v.wf(),
        in_step(t.v),
    ensures
        in_step(step_pressed(t, ctx, direction).v),
        in_step(step_repeated(t, ctx, direction).v),
{
    let held = St {
        v: ViewerModel {
            held_direction: Some(crate::state::Held { direction, since: ctx.now }),
            ..t.v
        },
        ..t
    };
    lemma_navigate(held, ctx, NavTarget::Delta(direction));
    lemma_navigate(t, ctx, NavTarget::Delta(direction));
}

proof fn lemma_viewer_message(t: Wt, ctx: Ctx, msg: ViewerMessage)
    requires
        t.w.wf(),
        window_in_step(t.w),
    ensures
        window_in_step(viewer_message(t, ctx, msg).w),
{
    reveal(info_toggled);
    if t.w.viewer is Some {
        lemma_viewer_step(t.inner(), ctx, msg);
        reveal(exif_fired);
    }
}

proof fn lemma_opened(
    nav: NavModel,
    source: Source,
    container: bool,
    s: SharedModel,
    ctx: Ctx,
    out: Seq<Action>,
)
    ensures
        in_step(opened(nav, source, container, s, ctx, out).v),
{
    reveal(opened);
    let fresh = st(fresh_viewer(nav, source, ctx.now), s, out);
    let reconciled = if s.status.value.disk_store {
        fresh.act(Action::ReconcileDiskThumbs)
    } else {
        fresh
    };
    let probed = size_probed(reconciled, nav.current());
    lemma_probe_frame(reconciled, nav.current());
    lemma_first_requested(probed, ctx);
    let first = first_requested(probed, ctx);
    lemma_prefetch_frame(first, ctx.window);
    let warmed = prefetch_fired(first, ctx.window);
    lemma_thumbs_frame(warmed, visible_files(warmed.v, ctx.visible));
    let row = thumbs_fired(warmed, visible_files(warmed.v, ctx.visible));
    lemma_thumbnailer_frame(row, ctx.visible, 3);
    let walked = thumbnailer_fired(row, ctx.visible, 3);
    let marked = St { v: ViewerModel { resort_to_first: container, ..walked.v }, ..walked };
    reveal(exif_fired);
}

proof fn lemma_listing(t: Wt, ctx: Ctx, nav: NavModel, source: Source, container: bool)
    ensures
        window_in_step(listing_opened(t, ctx, nav, source, container).w),
{
    reveal(listing_opened);
    let u = session_closed(t);
    lemma_opened(nav, source, container, u.s, ctx, u.out);
}

proof fn lemma_relisted(t: St, ctx: Ctx, files: Seq<FileId>)
    requires
        t.v.wf(),
        in_step(t.v),
        0 < files.len() <= usize::MAX,
    ensures
        in_step(relisted(t, ctx, files).v),
{
    reveal(relisted);
    let u = St {
        v: ViewerModel { failed_loads: Map::empty(), ..files_replaced(t.v, files) },
        ..t
    };
    files.index_of_first_ensures(t.v.current());
    if t.v.pending_nav is Some {
        files.index_of_first_ensures(t.v.nav.files[t.v.pending_nav->0 as int]);
    }
    lemma_navigated(u, ctx, u.v.nav.cursor, true);
}

proof fn lemma_open_message(t: Wt, ctx: Ctx, msg: OpenMessage)
    requires
        t.w.wf(),
        window_in_step(t.w),
    ensures
        window_in_step(open_message(t, ctx, msg).w),
{
    reveal(open_message);
    reveal(scan_landed);
    reveal(archive_landed);
    reveal(rescan_landed);
    lemma_session_closed(t);
    lemma_session_closed(menu_closed(t));
    let u = open_settled(t);
    match msg {
        OpenMessage::DirectoryScanned(scan) => match scan.listing {
            Ok(files) => match files@.index_of_first(scan.start) {
                Some(cursor) => {
                    lemma_listing(
                        u,
                        ctx,
                        NavModel { files: files@, cursor },
                        Source::Fs,
                        scan.opened_dir,
                    );
                },
                None => {},
            },
            Err(_) => {},
        },
        OpenMessage::ArchiveScanned(file, index) => match index {
            Ok(entries) => {
                lemma_listing(
                    u,
                    ctx,
                    NavModel { files: entries@, cursor: 0 },
                    Source::Archive(file),
                    true,
                );
            },
            Err(_) => {},
        },
        OpenMessage::DirectoryRescanned(dir, files) => match (files, t.w.viewer) {
            (Some(files), Some(_)) => {
                if files@.len() > 0 {
                    broadcast use vstd::std_specs::vec::group_vec_axioms;

                    assert(files@.len() <= usize::MAX) by {
                        assert(files.len() == files@.len());
                    }
                    lemma_relisted(t.inner(), ctx, files@);
                }
            },
            _ => {},
        },
        _ => {},
    }
}

proof fn lemma_still(t: St, file: FileId, size: (u32, u32), thumb: Option<crate::state::Thumb>)
    requires
        t.v.wf(),
        in_step(t.v),
    ensures
        in_step(still_landed(t, file, size, thumb).v),
        still_landed(t, file, size, thumb).v.wf(),
{
    reveal(still_landed);
    let u = St {
        v: unmarked(t.v, file),
        s: crate::media::thumb_kept(t.v, t.s, file, thumb),
        ..t
    };
    lemma_shown_frame(u, file, size);
}

proof fn lemma_promoted(t: St, file: FileId)
    requires
        t.v.wf(),
        in_step(t.v),
    ensures
        in_step(promoted(t, file).v),
        promoted(t, file).v.nav == t.v.nav,
{
    reveal(promoted);
    match t.s.store.ram(file) {
        Some(ram) => {
            lemma_shown_frame(t, file, (ram.width, ram.height));
        },
        None => {},
    }
}

proof fn lemma_failure(t: St, ctx: Ctx, file: FileId, err: Option<Seq<char>>, exists: bool)
    requires
        t.v.wf(),
        in_step(t.v),
        !failure_empties(t.v, file, err is Some, exists),
    ensures
        in_step(failure_landed(t, ctx, file, err, exists).v),
{
    reveal(vanished);
    reveal(error_stopped);
    let u = St { v: unmarked(t.v, file), ..t };
    let g = St {
        v: ViewerModel { pending_since: None, pending_nav: None, ..u.v },
        ..u
    };
    let f = forgotten(g, ctx.window, file);
    t.v.nav.files.index_of_first_ensures(file);
    if err is Some && t.v.source == Source::Fs && !exists {
        lemma_navigated(f, ctx, f.v.nav.cursor, true);
    } else if err is Some {
        let message = crate::text::load_error_text(t.s, file, err->0);
        let noted = St {
            v: crate::media::failure_noted(given_up(u.v, file), file, message),
            ..u
        };
        if is_pending_on(t.v, file) {
            lemma_navigated(noted, ctx, t.v.pending_nav->0 as int, false);
        }
    }
}

proof fn lemma_anim_landed(
    t: St,
    window: u64,
    file: FileId,
    frames: crate::store::AnimFrames,
    thumb: Option<crate::state::Thumb>,
)
    ensures
        shows_same(t.v, anim_landed(t, window, file, frames, thumb).v),
        anim_landed(t, window, file, frames, thumb).v.pending_nav == t.v.pending_nav,
        anim_landed(t, window, file, frames, thumb).v.rotation == t.v.rotation,
{
    reveal(anim_landed);
    reveal(anim_registered);
}

proof fn lemma_thumb_landed(
    t: St,
    file: FileId,
    urgency: ThumbUrgency,
    result: crate::media::ThumbResult,
)
    requires
        t.v.wf(),
        in_step(t.v),
    ensures
        in_step(thumb_landed(t, file, urgency, result).v),
        thumb_landed(t, file, urgency, result).v.wf(),
{
    reveal(thumb_landed);
    reveal(placeholder_shown);
}

proof fn lemma_resorted(t: St, ctx: Ctx, files: Seq<FileId>)
    requires
        t.v.wf(),
        in_step(t.v),
        files.len() <= usize::MAX,
        files.len() == 0 || files.contains(t.v.current()),
    ensures
        in_step(resorted(t, ctx, files).v),
{
    reveal(resorted);
    let u = St {
        v: ViewerModel { resort_to_first: false, ..files_replaced(t.v, files) },
        ..t
    };
    files.index_of_first_ensures(t.v.current());
    let nav = t.v.nav.replaced(files);
    if t.v.pending_nav is Some {
        nav.files.index_of_first_ensures(t.v.nav.files[t.v.pending_nav->0 as int]);
    }
    if t.v.resort_to_first && u.v.nav.cursor != 0 {
        lemma_navigated(u, ctx, 0, true);
    } else {
        let i = u.v.nav.cursor as usize;
        lemma_thumbnailer_frame(
            u.act(Action::CenterFilmstrip { index: i }),
            Span { start: i, end: (i + 1) as usize },
            3,
        );
    }
}

proof fn lemma_media_step(t: St, ctx: Ctx, msg: MediaMessage)
    requires
        t.v.wf(),
        in_step(t.v),
        msg is Resorted ==> msg->Resorted_0@.len() == 0 || msg->Resorted_0@.contains(
            t.v.current(),
        ),
    ensures
        in_step(media_stepped(t, ctx, msg).v),
{
    reveal(media_stepped);
    match msg {
        MediaMessage::ThumbLoaded { file, urgency, result } => {
            lemma_thumb_landed(t, file, urgency, result);
            let landed = thumb_landed(t, file, urgency, result);
            lemma_thumbnailer_frame(landed, ctx.visible, 1);
            lemma_resolved(thumbnailer_fired(landed, ctx.visible, 1), ctx);
        },
        MediaMessage::ViewRotated { .. } => {
            reveal(rotation_landed);
            reveal(rotate_fired);
        },
        MediaMessage::PromoteCurrent(_) => {
            reveal(current_promoted);
        },
        MediaMessage::Resorted(files) => {
            assert(files@.len() <= usize::MAX) by {
                assert(files.len() == files@.len());
            }
            lemma_resorted(t, ctx, files@);
        },
        _ => {},
    }
}

proof fn lemma_media_message(t: Wt, ctx: Ctx, msg: MediaMessage)
    requires
        t.w.wf(),
        window_in_step(t.w),
        msg is Resorted && t.w.viewer is Some ==> msg->Resorted_0@.len() == 0
            || msg->Resorted_0@.contains(t.w.viewer->0.current()),
    ensures
        window_in_step(media_message(t, ctx, msg).w),
{
    if t.w.viewer is None {
        reveal(decoded);
        reveal(uploaded);
        reveal(decode_failed);
        reveal(crate::tiles::tile_taken_in);
        reveal(anim_decoded);
    } else {
        match msg {
            MediaMessage::Decoded { file, ram, thumb } => {
                reveal(decoded);
                let landed = t.s.store.decoded(file, ram);
                let u = crate::dispatch::stored(t, landed.settled(file));
                lemma_still(u.inner(), file, (ram.width, ram.height), thumb);
                lemma_resolved(
                    still_landed(u.inner(), file, (ram.width, ram.height), thumb).run(
                        landed.missing_job(file),
                        Lane::Current,
                        JobZoom::Fit,
                    ),
                    ctx,
                );
            },
            MediaMessage::TextureReady { file, tier, texture } => {
                reveal(uploaded);
                reveal(rotate_fired);
                let landed = t.s.store.minted(file, crate::store::Minted { tier, texture });
                let u = crate::dispatch::stored(t, landed.settled(file));
                lemma_promoted(u.inner(), file);
            },
            MediaMessage::MintFailed { .. } => {},
            MediaMessage::DecodeFailed { file, err, exists } => {
                reveal(decode_failed);
                let e = error_text(err);
                let store = t.s.store;
                let u = if e is None {
                    crate::dispatch::run_current(
                        crate::dispatch::stored(t, store.idle(file).settled(file)),
                        store.idle(file).missing_job(file),
                    )
                } else {
                    crate::dispatch::stored(t, store.abandoned(file))
                };
                let landed = u.with_inner(failure_landed(u.inner(), ctx, file, e, exists));
                lemma_session_closed(landed);
                if !failure_empties(t.w.viewer->0, file, e is Some, exists) {
                    lemma_failure(u.inner(), ctx, file, e, exists);
                }
            },
            MediaMessage::AnimDecoded { file, frames, thumb, max_dim } => {
                reveal(anim_decoded);
                let u = crate::dispatch::stored(t, t.s.store.abandoned(file));
                lemma_anim_landed(u.inner(), ctx.window, file, frames, thumb);
                let landed = u.with_inner(
                    anim_landed(u.inner(), ctx.window, file, frames, thumb),
                );
                let told = if crate::dispatch::too_big(frames, max_dim) {
                    toasted(
                        landed,
                        crate::window::ToastKind::Error,
                        crate::text::too_large_text(frames.width, frames.height),
                    )
                } else {
                    landed
                };
                lemma_resolved(told.inner(), ctx);
            },
            MediaMessage::TileReady { .. } => {
                reveal(crate::tiles::tile_taken_in);
            },
            MediaMessage::ExactReady { .. } => {},
            MediaMessage::TilesSettled { .. } => {},
            _ => {
                lemma_media_step(t.inner(), ctx, msg);
            },
        }
    }
}

proof fn lemma_slider(t: St, ctx: Ctx, msg: SliderMessage)
    requires
        t.v.wf(),
        in_step(t.v),
    ensures
        msg is Changed ==> in_step(slider_moved(t, ctx, msg->Changed_0).v),
        in_step(slider_released(t, ctx).v),
{
    reveal(slider_moved);
    reveal(slider_released);
    let u = St { v: ViewerModel { slider_drag: None, ..t.v }, ..t };
    match t.v.slider_drag {
        Some(drag) => {
            if drag.target == t.v.nav.cursor {
                lemma_navigated(u, ctx, drag.target as int, true);
            } else {
                lemma_navigate(u, ctx, NavTarget::Index(drag.target));
            }
        },
        None => {},
    }
    match msg {
        SliderMessage::Changed(index) => {
            let target = index as int % t.v.nav.files.len() as int;
            vstd::arithmetic::div_mod::lemma_mod_bound(
                index as int,
                t.v.nav.files.len() as int,
            );
            let shown = crate::panels::scrubbable(t.v, t.s, t.v.nav.files[target]);
            let dragged = St {
                v: ViewerModel {
                    slider_drag: Some(
                        crate::state::SliderDrag {
                            target: target as usize,
                            since: ctx.now,
                            bubble: (t.v.slider_drag is Some && t.v.slider_drag->0.bubble)
                                || !shown,
                        },
                    ),
                    ..t.v
                },
                ..t
            };
            lemma_scrubbed(dragged, target, ctx.now);
        },
        SliderMessage::Released => {},
    }
}

proof fn lemma_strip(t: St, ctx: Ctx, msg: FilmstripMessage)
    requires
        t.v.wf(),
        in_step(t.v),
    ensures
        in_step(strip_message(t, ctx, msg).v),
{
    reveal(strip_message);
    match msg {
        FilmstripMessage::Clicked(index) => {
            lemma_navigate(t, ctx, NavTarget::Index(index));
        },
        FilmstripMessage::Scrolled(visible) => {
            lemma_thumbs_frame(t, visible_files(t.v, visible));
        },
        FilmstripMessage::Scroll => {},
    }
}

proof fn lemma_renamed(t: St, window: u64, from: FileId, to: FileId)
    requires
        t.v.wf(),
        in_step(t.v),
        t.v.nav.files.no_duplicates(),
    ensures
        in_step(file_renamed(t, window, from, to).v),
{
    reveal(file_renamed);
    t.v.nav.files.index_of_first_ensures(from);
}

proof fn lemma_modal(before: Wt, after: Wt, ctx: Ctx, msg: ModalMessage)
    requires
        before.w.wf(),
        window_in_step(before.w),
        modal_message(before, after, ctx, msg),
        msg is RenameFinished && before.w.viewer is Some
            ==> before.w.viewer->0.nav.files.no_duplicates(),
    ensures
        window_in_step(after.w),
{
    reveal(delete_fired);
    match msg {
        ModalMessage::DeleteFinished(file, result, _) => {
            reveal(delete_landed);
            reveal(playback_resumed);
            match (result, before.w.viewer) {
                (Ok(_), Some(v)) => {
                    let u = thumb_purged(before, file);
                    let removed = u.with_inner(file_removed(u.inner(), ctx, file));
                    lemma_session_closed(removed);
                    if !last_file(v, file) {
                        reveal(file_removed);
                        let cleared = St {
                            v: ViewerModel { pending_nav: None, ..u.inner().v },
                            ..u.inner()
                        };
                        let f = forgotten(cleared, ctx.window, file);
                        v.nav.files.index_of_first_ensures(file);
                        lemma_navigated(f, ctx, f.v.nav.cursor, true);
                    }
                },
                _ => {},
            }
        },
        ModalMessage::RenameFinished(from, to, result) => {
            reveal(rename_landed);
            match (result, before.w.viewer) {
                (Ok(_), Some(_)) => {
                    let u = thumb_purged(before, from);
                    lemma_renamed(u.inner(), ctx.window, from, to);
                },
                _ => {},
            }
        },
        _ => {},
    }
}

proof fn lemma_video_message(t: Wt, ctx: Ctx, msg: VideoMessage)
    requires
        t.w.wf(),
        window_in_step(t.w),
    ensures
        window_in_step(video_message(t, ctx, msg).w),
{
    reveal(video_message);
    reveal(video_stepped);
    reveal(frame_ticked);
    match msg {
        VideoMessage::Extracted(file, result) => {
            reveal(extraction_landed);
            reveal(extraction_opened);
            reveal(archive_thumb_fired);
            match (result, t.w.viewer) {
                (Ok(temp), Some(v)) => {
                    let state = t.w.state.value;
                    let u = t.with_viewer(
                        Some(crate::video_flow::extraction_unmarked(v, file)),
                    );
                    let pause = state.minimized
                        && t.s.config.value.resource.value.pause_video_when_minimized;
                    let o = u.with_inner(
                        extraction_opened(u.inner(), file, temp, pause),
                    ).with_state(
                        WindowState {
                            video_resumes_on_restore: pause || state.video_resumes_on_restore,
                            ..state
                        },
                    );
                    lemma_restarted(o);
                },
                _ => {},
            }
        },
        _ => {},
    }
}

proof fn lemma_restored_same(t: St, window: u64, focused: bool)
    ensures
        shows_same(t.v, restored(t, window, focused).v),
{
    crate::decay::lemma_restored(t, window, focused);
}

proof fn lemma_restarted(t: Wt)
    requires
        window_in_step(t.w),
    ensures
        window_in_step(decay_restarted(t).w),
{
    reveal(decay_restarted);
    reveal(window_restored);
    let generation = crate::window::next_number(t.w.state.value.decay_generation);
    let fresh = t.with_state(
        WindowState { decay_generation: generation, ..t.w.state.value },
    );
    if t.w.viewer is Some {
        lemma_restored_same(fresh.inner(), t.w.state.value.id, t.w.state.value.focused);
    }
}

proof fn lemma_stage(t: Wt, generation: u64, stage: DecayStage)
    requires
        window_in_step(t.w),
    ensures
        window_in_step(stage_run(t, generation, stage).w),
{
    reveal(shed_run);
    reveal(ViewerModel::shed);
    reveal(video_run);
    reveal(video_suspended);
    reveal(image_run);
    reveal(image_stage);
    reveal(retargeted);
}

proof fn lemma_window_message(t: Wt, msg: WindowMessage)
    requires
        t.w.wf(),
        window_in_step(t.w),
    ensures
        window_in_step(window_message(t, msg).w),
{
    reveal(window_message);
    match msg {
        WindowMessage::Resized { .. } => {
            reveal(window_resized);
        },
        WindowMessage::Focused(on) => {
            lemma_restarted(
                t.with_state(
                    WindowState {
                        focused: on,
                        zoom_slider_open: on && t.w.state.value.zoom_slider_open,
                        ..t.w.state.value
                    },
                ),
            );
        },
        WindowMessage::Decay { generation, stage } => {
            lemma_stage(t, generation, stage);
        },
        WindowMessage::Minimized(on) => {
            reveal(minimize_set);
            let u = t.with_state(WindowState { minimized: on, ..t.w.state.value });
            let followed = match t.w.viewer {
                Some(_) => {
                    let (inner, resume) = video_follows(
                        u.inner(),
                        on,
                        t.s.config.value.resource.value.pause_video_when_minimized,
                        t.w.state.value.video_resumes_on_restore,
                    );
                    u.with_inner(inner).with_state(
                        WindowState { video_resumes_on_restore: resume, ..u.w.state.value },
                    )
                },
                None => u,
            };
            lemma_restarted(followed);
        },
        WindowMessage::Reactivate => {
            lemma_restarted(t);
        },
        WindowMessage::CloseRequested => {
            reveal(close_persisted);
        },
        _ => {},
    }
}

proof fn lemma_anim_message(t: Wt, ctx: Ctx, msg: AnimMessage)
    requires
        t.w.wf(),
        window_in_step(t.w),
    ensures
        window_in_step(anim_message(t, ctx, msg).w),
{
    if t.w.viewer is Some {
        reveal(anim_stepped);
        lemma_resolved(anim_stepped(t.inner(), msg), ctx);
    }
}

/// What `msg` relies on of the listing in `w`: a rename, that every file is
/// listed once, and a new order, that it lists the current file still.
pub open spec fn takes_listing(w: WindowModel, msg: Message) -> bool {
    w.viewer is Some ==> {
        let v = w.viewer->0;
        match msg {
            Message::Modal(ModalMessage::RenameFinished(_, _, _)) => v.nav.files.no_duplicates(),
            Message::Media(MediaMessage::Resorted(files)) => files@.len() == 0
                || files@.contains(v.current()),
            _ => true,
        }
    }
}

/// Title, slider, and image never diverge: whatever message a window handles,
/// afterwards its image area shows the file under the cursor or nothing, if it
/// did before, and if the message finds the listing it relies on.
pub proof fn law_screen_follows_cursor(before: Wt, after: Wt, ctx: Ctx, msg: Message)
    requires
        before.w.wf(),
        window_in_step(before.w),
        dispatched(before, after, ctx, msg),
        takes_listing(before.w, msg),
    ensures
        window_in_step(after.w),
{
    let t = transient_dismissed(before, msg);
    if before.w.modal is None || !crate::message::modal_blocked(msg) {
        match msg {
            Message::Open(m) => lemma_open_message(t, ctx, m),
            Message::Media(m) => lemma_media_message(t, ctx, m),
            Message::Viewer(m) => lemma_viewer_message(t, ctx, m),
            Message::Toolbar(_) => {
                reveal(toolbar_message);
                reveal(zoom_mode_set);
            },
            Message::NavSlider(m) => {
                if t.w.viewer is Some {
                    lemma_slider(t.inner(), ctx, m);
                }
            },
            Message::Filmstrip(m) => {
                if t.w.viewer is Some {
                    lemma_strip(t.inner(), ctx, m);
                }
            },
            Message::Modal(m) => lemma_modal(t, after, ctx, m),
            Message::Settings(_) => {
                reveal(settings_message);
                reveal(budget_set);
                reveal(cache_fitted);
            },
            Message::ContextMenu(_) => {
                reveal(context_message);
            },
            Message::VideoControls(m) => lemma_video_message(t, ctx, m),
            Message::Window(m) => lemma_window_message(t, m),
            Message::DismissToast(_) => {},
            Message::Anim(m) => lemma_anim_message(t, ctx, m),
        }
    }
}

/// Every window of the program in step.
pub open spec fn app_in_step(a: AppModel) -> bool {
    forall|i: int| 0 <= i < a.windows.len() ==> window_in_step(#[trigger] a.windows[i])
}

proof fn lemma_swept(
    windows: Seq<WindowModel>,
    s: SharedModel,
    file: FileId,
    skip: int,
    n: nat,
)
    requires
        n <= windows.len(),
        forall|i: int| 0 <= i < windows.len() ==> window_in_step(#[trigger] windows[i]),
        forall|i: int|
            0 <= i < windows.len() && i != skip ==> (#[trigger] windows[i]).wf(),
    ensures
        swept(windows, s, file, skip, n).0.len() == windows.len(),
        forall|i: int|
            0 <= i < windows.len() ==> window_in_step(
                #[trigger] swept(windows, s, file, skip, n).0[i],
            ),
    decreases n,
{
    if n > 0 {
        lemma_swept(windows, s, file, skip, (n - 1) as nat);
        let w = windows[n - 1];
        if w.viewer is Some && n - 1 != skip {
            lemma_promoted(st(w.viewer->0, s, Seq::empty()), file);
        }
    }
}

proof fn lemma_relaid(windows: Seq<WindowModel>, s: SharedModel, n: nat)
    requires
        n <= windows.len(),
        forall|i: int| 0 <= i < windows.len() ==> window_in_step(#[trigger] windows[i]),
    ensures
        relaid(windows, s, n).0.len() == windows.len(),
        forall|i: int|
            0 <= i < windows.len() ==> window_in_step(#[trigger] relaid(windows, s, n).0[i]),
    decreases n,
{
    if n > 0 {
        lemma_relaid(windows, s, (n - 1) as nat);
    }
}

proof fn lemma_window_routed(
    before: AppModel,
    after: AppModel,
    acts: Seq<Routed>,
    ctx: Ctx,
    msg: Message,
)
    requires
        before.wf(),
        app_in_step(before),
        window_routed(before, after, acts, ctx, msg),
        forall|i: int|
            0 <= i < before.windows.len() ==> takes_listing(#[trigger] before.windows[i], msg),
    ensures
        app_in_step(after),
{
    ids_of(before.windows).index_of_first_ensures(ctx.window);
    match before.find(ctx.window) {
        Some(i) => {
            let w = wt(before.windows[i], before.s, Seq::empty());
            let t = choose|t: Wt|
                #![trigger dispatched(w, t, ctx, msg)]
                dispatched(w, t, ctx, msg) && routed_end(before, after, acts, ctx, msg, i, t);
            law_screen_follows_cursor(w, t, ctx, msg);
            let windows = before.windows.update(i, t.w);
            assert forall|k: int| 0 <= k < windows.len() implies window_in_step(
                #[trigger] windows[k],
            ) by {
                if k != i {
                    assert(windows[k] == before.windows[k]);
                }
            }
            assert forall|k: int| 0 <= k < windows.len() && k != i implies (#[trigger]
            windows[k]).wf() by {
                assert(windows[k] == before.windows[k]);
            }
            match msg {
                Message::Media(MediaMessage::TextureReady { file, .. }) => {
                    lemma_swept(windows, t.s, file, i, windows.len());
                },
                _ => {},
            }
        },
        None => lemma_orphaned(before, ctx, msg),
    }
}

proof fn lemma_orphaned(a: AppModel, ctx: Ctx, msg: Message)
    requires
        a.wf(),
        app_in_step(a),
    ensures
        app_in_step(orphaned(a, ctx, msg).0),
{
    match msg {
        Message::Media(MediaMessage::TextureReady { file, tier, texture }) => {
            let store = a.s.store.minted(file, Minted { tier, texture });
            let r = crate::app::restored(a, store.settled(file), store.missing_job(file));
            lemma_swept(r.0.windows, r.0.s, file, a.windows.len() as int, a.windows.len());
        },
        Message::Media(MediaMessage::AnimDecoded { file, .. }) => {
            lemma_first_holding(a.windows, file, 0);
            match first_holding(a.windows, file, 0) {
                Some(i) => {
                    let id = a.windows[i].state.value.id;
                    let w = wt(a.windows[i], a.s, Seq::empty());
                    let c = Ctx { window: id, ..ctx };
                    lemma_media_message(w, c, msg->Media_0);
                    let after = orphaned(a, ctx, msg).0;
                    assert forall|k: int| 0 <= k < after.windows.len() implies window_in_step(
                        #[trigger] after.windows[k],
                    ) by {
                        if k != i {
                            assert(after.windows[k] == a.windows[k]);
                        }
                    }
                },
                None => {},
            }
        },
        _ => {},
    }
}

/// The whole program keeps every window in step: after each turn, whatever it
/// was about, every image area shows the file under its window's cursor or
/// nothing, if they all did before.
pub proof fn law_every_screen_follows_its_cursor(
    before: AppModel,
    after: AppModel,
    acts: Seq<Routed>,
    envelope: Envelope,
    now: Instant,
    visible: Span,
    trims: bool,
)
    requires
        before.wf(),
        app_in_step(before),
        turned(before, after, acts, envelope, now, visible, trims),
        match envelope {
            Envelope::Win(_, msg) => forall|i: int|
                0 <= i < before.windows.len() ==> takes_listing(
                    #[trigger] before.windows[i],
                    msg,
                ),
            _ => true,
        },
    ensures
        app_in_step(after),
{
    let (mid, first) = choose|mid: AppModel, first: Seq<Routed>|
        #![trigger routed(before, mid, first, envelope, now, visible)]
        {
            &&& routed(before, mid, first, envelope, now, visible)
            &&& after == trimmed_app(pumped(mid).0, trims).0
        };
    assert(after.windows == mid.windows);
    match envelope {
        Envelope::Win(window, msg) => {
            lemma_window_routed(before, mid, first, Ctx { window, now, visible }, msg);
        },
        Envelope::Closed(id) => {
            reveal(window_closed);
            ids_of(before.windows).index_of_first_ensures(id);
            match before.find(id) {
                Some(i) => {
                    assert forall|k: int| 0 <= k < mid.windows.len() implies window_in_step(
                        #[trigger] mid.windows[k],
                    ) by {
                        if k < i {
                            assert(mid.windows[k] == before.windows[k]);
                        } else {
                            assert(mid.windows[k] == before.windows[k + 1]);
                        }
                    }
                },
                None => {},
            }
        },
        Envelope::Forwarded { window, path } => {
            reveal(window_added);
            assert forall|k: int| 0 <= k < mid.windows.len() implies window_in_step(
                #[trigger] mid.windows[k],
            ) by {
                if k < before.windows.len() {
                    assert(mid.windows[k] == before.windows[k]);
                }
            }
        },
        Envelope::ConfigReloaded(config) => {
            reveal(config_adopted);
            lemma_relaid(before.windows, adopted(before.s, config), before.windows.len());
        },
        Envelope::ConfigInvalid => {
            reveal(invalid_reported);
            before.windows.map_values(
                |w: WindowModel| w.state.value.focused,
            ).index_of_first_ensures(true);
            assert forall|k: int| 0 <= k < mid.windows.len() implies window_in_step(
                #[trigger] mid.windows[k],
            ) by {
                assert(window_in_step(before.windows[k]));
            }
        },
        _ => {},
    }
}

} // verus!
