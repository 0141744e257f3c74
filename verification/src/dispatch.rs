//! One message to one window: transient menus are dismissed, a dialog blocks
//! what it must, and the rest goes to the part that owns it.
use crate::actions::{Action, JobZoom, Lane};
use crate::anim::AnimMessage;
use crate::components::{toolbar_message, update_toolbar, update_viewer_message, viewer_message};
use crate::decay::{decay_restarted, restart_decay, run_decay_stage, stage_run};
use crate::file_ops::{
    commit_rename, confirm_delete, delete_confirmed, delete_finished, delete_landed,
    delete_requested, rename_committed, rename_finished, rename_input, rename_landed,
    rename_requested, request_delete, request_rename,
};
use crate::files::FileId;
use crate::media::{
    anim_landed, anim_stepped, current_promoted, error_text, failure_empties, failure_landed,
    land_animation, land_failure, land_resort, land_rotation, land_still, land_thumb,
    promote_current, promote_if_waiting, promoted, resorted, rotation_landed, step_animation,
    still_landed, thumb_landed, MediaError,
};
use crate::media_tasks::{
    fire_rotate, fire_thumbnailer, rotate_fired, run_job, st, thumbnailer_fired, Ctx, St,
};
use crate::message::{
    background, is_background_message, is_context_menu_message, is_menu_message, is_modal_blocked,
    keeps_context_menu, keeps_menu, modal_blocked, passive, MediaMessage, Message, ModalMessage,
    OpenMessage, VideoMessage, WindowMessage,
};
use crate::navigation::{pending_resolved, resolve_pending_nav};
use crate::open::{
    archive_landed, archive_scanned, close_file, directory_rescanned, directory_scanned, hand_path,
    menu_closed, open_file, path_handed, rescan_landed, scan_landed,
};
use crate::panels::{
    context_message, settings_message, slider_moved, slider_released, strip_message,
    update_context_menu, update_filmstrip, update_settings, update_slider,
};
use crate::state::{Shared, SharedModel, Thumb, Viewer, ViewerModel};
use crate::store::{AnimFrames, Job, Minted, RamImage, StoreModel, Texture, Tier};
use crate::text::{too_large, too_large_text};
use crate::tiles::{exact_landed, exact_ready, tile_ready, tile_taken_in};
use crate::video_flow::{
    controls_shown, extracted, extraction_landed, frame_stepped, frame_ticked, loop_toggled,
    mute_toggled, play_pause, play_toggled, poll_volume_save, save_due, seek_by, seek_drag,
    seek_release, seek_released, set_volume, show_controls, step_frame, tick_frame, toggle_loop,
    toggle_mute, volume_polled, volume_set,
};
use crate::window::{
    close_session, dismiss_toast, dismissed, lemma_session_closed, push_toast, session_closed,
    toasted, wt, Modal, ModalModel, ToastKind, Window, WindowModel, WindowState, Wt,
};
use crate::window_events::{
    area_measured, close_persisted, close_requested, focus_set, focused, image_area_measured,
    minimize_set, minimized, moved, probe_window_state, reported, resized, window_moved,
    window_resized, window_state,
};
use vstd::prelude::*;

verus! {

/// The store replaced.
pub open spec fn stored(t: Wt, store: StoreModel) -> Wt {
    Wt { s: SharedModel { store, ..t.s }, ..t }
}

/// A store job, if there is one.
pub open spec fn run_current(t: Wt, job: Option<Job>) -> Wt {
    match job {
        Some(job) => t.act(Action::RunJob { job, lane: Lane::Current, zoom: JobZoom::Fit }),
        None => t,
    }
}

/// A still decoded.
#[verifier::opaque]
pub open spec fn decoded(t: Wt, ctx: Ctx, file: FileId, ram: RamImage, thumb: Option<Thumb>) -> Wt {
    let landed = t.s.store.decoded(file, ram);
    let u = stored(t, landed.settled(file));
    let job = landed.missing_job(file);
    if t.w.viewer is Some {
        u.with_inner(
            pending_resolved(
                still_landed(u.inner(), file, (ram.width, ram.height), thumb).run(
                    job,
                    Lane::Current,
                    JobZoom::Fit,
                ),
                ctx,
            ),
        )
    } else {
        run_current(u, job)
    }
}

fn on_decoded(
    win: &mut Window,
    shared: &mut Shared,
    ctx: Ctx,
    file: FileId,
    ram: RamImage,
    thumb: Option<Thumb>,
    out: &mut Vec<Action>,
)
    requires
        old(win)@.wf(),
    ensures
        wt(final(win)@, final(shared)@, final(out)@) == decoded(
            wt(old(win)@, old(shared)@, old(out)@),
            ctx,
            file,
            ram,
            thumb,
        ),
        final(win)@.wf(),
{
    proof {
        reveal(decoded);
    }
    let job = shared.store.on_decoded(file, ram);
    match win.viewer_mut() {
        Some(viewer) => {
            land_still(viewer, shared, file, (ram.width, ram.height), thumb, out);
            run_job(job, Lane::Current, JobZoom::Fit, out);
            resolve_pending_nav(viewer, shared, ctx, out);
        },
        None => {
            run_job(job, Lane::Current, JobZoom::Fit, out);
        },
    }
}

/// A texture uploaded. A view that waits for it shows it, a rotation dropped by
/// decay is derived again, and a fresh tile pyramid is filled.
#[verifier::opaque]
pub open spec fn uploaded(t: Wt, file: FileId, tier: Tier, texture: Texture) -> Wt {
    let landed = t.s.store.minted(file, Minted { tier, texture });
    let u = stored(t, landed.settled(file));
    let job = landed.missing_job(file);
    if t.w.viewer is Some {
        let shown = u.with_inner(
            rotate_fired(promoted(u.inner(), file).run(job, Lane::Current, JobZoom::Fit)),
        );
        if texture.tiled {
            shown.act(Action::DemandTiles)
        } else {
            shown
        }
    } else {
        run_current(u, job)
    }
}

fn on_uploaded(
    win: &mut Window,
    shared: &mut Shared,
    file: FileId,
    tier: Tier,
    texture: Texture,
    out: &mut Vec<Action>,
)
    requires
        old(win)@.wf(),
    ensures
        wt(final(win)@, final(shared)@, final(out)@) == uploaded(
            wt(old(win)@, old(shared)@, old(out)@),
            file,
            tier,
            texture,
        ),
        final(win)@.wf(),
{
    proof {
        reveal(uploaded);
    }
    let job = shared.store.on_minted(file, tier, texture);
    match win.viewer_mut() {
        Some(viewer) => {
            promote_if_waiting(viewer, shared, file, out);
            run_job(job, Lane::Current, JobZoom::Fit, out);
            fire_rotate(viewer, shared, out);
            if texture.tiled {
                out.push(Action::DemandTiles);
            }
        },
        None => {
            run_job(job, Lane::Current, JobZoom::Fit, out);
        },
    }
}

/// A decode that failed. The store retries a cancelled one that is still
/// wanted and forgets any other.
#[verifier::opaque]
pub open spec fn decode_failed(
    t: Wt,
    ctx: Ctx,
    file: FileId,
    err: Option<Seq<char>>,
    exists: bool,
) -> Wt {
    let store = t.s.store;
    let u = if err is None {
        run_current(
            stored(t, store.idle(file).settled(file)),
            store.idle(file).missing_job(file),
        )
    } else {
        stored(t, store.abandoned(file))
    };
    match t.w.viewer {
        Some(v) => {
            let landed = u.with_inner(failure_landed(u.inner(), ctx, file, err, exists));
            if failure_empties(v, file, err is Some, exists) {
                session_closed(landed)
            } else {
                landed
            }
        },
        None => u,
    }
}

fn on_decode_failed(
    win: &mut Window,
    shared: &mut Shared,
    ctx: Ctx,
    file: FileId,
    err: &MediaError,
    exists: bool,
    out: &mut Vec<Action>,
)
    requires
        old(win)@.wf(),
    ensures
        wt(final(win)@, final(shared)@, final(out)@) == decode_failed(
            wt(old(win)@, old(shared)@, old(out)@),
            ctx,
            file,
            error_text(*err),
            exists,
        ),
        final(win)@.wf(),
{
    proof {
        reveal(decode_failed);
    }
    let retry: bool = match err {
        MediaError::Cancelled => true,
        MediaError::Failed(_) => false,
    };
    let job = shared.store.on_decode_failed(file, retry);
    run_job(job, Lane::Current, JobZoom::Fit, out);
    let ghost u = wt(win@, shared@, out@);
    let left: bool = match win.viewer_mut() {
        Some(viewer) => land_failure(viewer, shared, ctx, file, err, exists, out),
        None => true,
    };
    if !left {
        let ghost landed = wt(win@, shared@, out@);
        close_session(win, shared);
        assert(wt(win@, shared@, out@) == session_closed(landed));
        proof {
            lemma_session_closed(landed);
        }
    }
}

pub open spec fn too_big(frames: AnimFrames, max_dim: Option<u32>) -> bool {
    max_dim is Some && (frames.width > max_dim->0 || frames.height > max_dim->0)
}

/// A decode that turned out to be an animation. One no texture can hold is
/// reported.
#[verifier::opaque]
pub open spec fn anim_decoded(
    t: Wt,
    ctx: Ctx,
    file: FileId,
    frames: AnimFrames,
    thumb: Option<Thumb>,
    max_dim: Option<u32>,
) -> Wt {
    let u = stored(t, t.s.store.abandoned(file));
    if t.w.viewer is Some {
        let landed = u.with_inner(anim_landed(u.inner(), ctx.window, file, frames, thumb));
        let told = if too_big(frames, max_dim) {
            toasted(landed, ToastKind::Error, too_large_text(frames.width, frames.height))
        } else {
            landed
        };
        told.with_inner(pending_resolved(told.inner(), ctx))
    } else {
        u
    }
}

fn on_anim_decoded(
    win: &mut Window,
    shared: &mut Shared,
    ctx: Ctx,
    file: FileId,
    frames: AnimFrames,
    thumb: Option<Thumb>,
    max_dim: Option<u32>,
    out: &mut Vec<Action>,
)
    requires
        old(win)@.wf(),
    ensures
        wt(final(win)@, final(shared)@, final(out)@) == anim_decoded(
            wt(old(win)@, old(shared)@, old(out)@),
            ctx,
            file,
            frames,
            thumb,
            max_dim,
        ),
        final(win)@.wf(),
{
    proof {
        reveal(anim_decoded);
    }
    shared.store.abandon(file);
    let (width, height): (u32, u32) = (frames.width, frames.height);
    let too_big: bool = match max_dim {
        Some(max) => width > max || height > max,
        None => false,
    };
    match win.viewer_mut() {
        Some(viewer) => {
            land_animation(viewer, shared, ctx.window, file, frames, thumb, out);
        },
        None => {
            return ;
        },
    }
    if too_big {
        let ghost landed = wt(win@, shared@, out@);
        let text = too_large(width, height);
        push_toast(win, ToastKind::Error, text, out);
        assert(wt(win@, shared@, out@) == toasted(
            landed,
            ToastKind::Error,
            too_large_text(width, height),
        ));
    }
    match win.viewer_mut() {
        Some(viewer) => {
            resolve_pending_nav(viewer, shared, ctx, out);
        },
        None => {},
    }
}

/// A media message that concerns only the viewer.
#[verifier::opaque]
pub open spec fn media_stepped(t: St, ctx: Ctx, msg: MediaMessage) -> St {
    match msg {
        MediaMessage::ThumbLoaded { file, urgency, result } => pending_resolved(
            thumbnailer_fired(thumb_landed(t, file, urgency, result), ctx.visible, 1),
            ctx,
        ),
        MediaMessage::FileSizeProbed(file, size) => if t.v.current() == file {
            St { v: ViewerModel { current_file_size: Some(size), ..t.v }, ..t }
        } else {
            t
        },
        MediaMessage::ExifLoaded(file) => if t.v.current() == file {
            St { v: ViewerModel { exif: Some(file), ..t.v }, ..t }
        } else {
            t
        },
        MediaMessage::ViewRotated { file, baked, size, turned } => rotation_landed(
            t,
            file,
            baked,
            size,
            turned,
        ),
        MediaMessage::PromoteCurrent(file) => current_promoted(t, ctx.window, file),
        MediaMessage::Resorted(files) => resorted(t, ctx, files@),
        _ => t,
    }
}

fn step_media(
    viewer: &mut Viewer,
    shared: &mut Shared,
    ctx: Ctx,
    msg: MediaMessage,
    out: &mut Vec<Action>,
)
    requires
        old(viewer)@.wf(),
    ensures
        st(final(viewer)@, final(shared)@, final(out)@) == media_stepped(
            st(old(viewer)@, old(shared)@, old(out)@),
            ctx,
            msg,
        ),
        final(viewer)@.wf(),
{
    proof {
        reveal(media_stepped);
    }
    match msg {
        MediaMessage::ThumbLoaded { file, urgency, result } => {
            land_thumb(viewer, shared, file, urgency, result, out);
            fire_thumbnailer(viewer, shared, ctx.visible, 1, out);
            resolve_pending_nav(viewer, shared, ctx, out);
        },
        MediaMessage::FileSizeProbed(file, size) => {
            if viewer.nav.current() == file {
                viewer.current_file_size = Some(size);
            }
        },
        MediaMessage::ExifLoaded(file) => {
            if viewer.nav.current() == file {
                viewer.exif = Some(file);
            }
        },
        MediaMessage::ViewRotated { file, baked, size, turned } => land_rotation(
            viewer,
            shared,
            file,
            baked,
            size,
            turned,
            out,
        ),
        MediaMessage::PromoteCurrent(file) => promote_current(
            viewer,
            shared,
            ctx.window,
            file,
            out,
        ),
        MediaMessage::Resorted(files) => land_resort(viewer, shared, ctx, files, out),
        _ => {},
    }
}

/// Any media message.
pub open spec fn media_message(t: Wt, ctx: Ctx, msg: MediaMessage) -> Wt {
    match msg {
        MediaMessage::Decoded { file, ram, thumb } => decoded(t, ctx, file, ram, thumb),
        MediaMessage::TextureReady { file, tier, texture } => uploaded(t, file, tier, texture),
        MediaMessage::MintFailed { file } => stored(t, t.s.store.idle(file)),
        MediaMessage::DecodeFailed { file, err, exists } => decode_failed(
            t,
            ctx,
            file,
            error_text(err),
            exists,
        ),
        MediaMessage::AnimDecoded { file, frames, thumb, max_dim } => anim_decoded(
            t,
            ctx,
            file,
            frames,
            thumb,
            max_dim,
        ),
        MediaMessage::TileReady { file, pyramid, tile, outcome } => tile_taken_in(
            t,
            file,
            pyramid,
            tile,
            outcome,
        ),
        MediaMessage::ExactReady { file, pyramid, target, tile, landed } => Wt {
            s: exact_landed(t.s, file, pyramid, target, tile, landed),
            ..t
        },
        MediaMessage::TilesSettled { epoch } => if epoch == t.w.state.value.tile_epoch {
            t.act(Action::DemandTiles)
        } else {
            t
        },
        _ => if t.w.viewer is Some {
            t.with_inner(media_stepped(t.inner(), ctx, msg))
        } else {
            t
        },
    }
}

/// Handle a completion of media work.
pub fn update_media(
    win: &mut Window,
    shared: &mut Shared,
    ctx: Ctx,
    msg: MediaMessage,
    out: &mut Vec<Action>,
)
    requires
        old(win)@.wf(),
    ensures
        wt(final(win)@, final(shared)@, final(out)@) == media_message(
            wt(old(win)@, old(shared)@, old(out)@),
            ctx,
            msg,
        ),
        final(win)@.wf(),
{
    match msg {
        MediaMessage::Decoded { file, ram, thumb } => on_decoded(
            win,
            shared,
            ctx,
            file,
            ram,
            thumb,
            out,
        ),
        MediaMessage::TextureReady { file, tier, texture } => on_uploaded(
            win,
            shared,
            file,
            tier,
            texture,
            out,
        ),
        MediaMessage::MintFailed { file } => {
            shared.store.on_mint_failed(file);
        },
        MediaMessage::DecodeFailed { file, err, exists } => on_decode_failed(
            win,
            shared,
            ctx,
            file,
            &err,
            exists,
            out,
        ),
        MediaMessage::AnimDecoded { file, frames, thumb, max_dim } => on_anim_decoded(
            win,
            shared,
            ctx,
            file,
            frames,
            thumb,
            max_dim,
            out,
        ),
        MediaMessage::TileReady { file, pyramid, tile, outcome } => tile_ready(
            win,
            shared,
            file,
            pyramid,
            tile,
            outcome,
            out,
        ),
        MediaMessage::ExactReady { file, pyramid, target, tile, landed } => exact_ready(
            shared,
            file,
            pyramid,
            target,
            tile,
            landed,
        ),
        MediaMessage::TilesSettled { epoch } => {
            if epoch == win.state.value.tile_epoch {
                out.push(Action::DemandTiles);
            }
        },
        _ => match win.viewer_mut() {
            Some(viewer) => {
                step_media(viewer, shared, ctx, msg, out);
            },
            None => {},
        },
    }
}

/// A playback message, and a move onto the animation it makes displayable.
pub open spec fn anim_message(t: Wt, ctx: Ctx, msg: AnimMessage) -> Wt {
    if t.w.viewer is Some {
        t.with_inner(pending_resolved(anim_stepped(t.inner(), msg), ctx))
    } else {
        t
    }
}

/// Handle a playback message.
pub fn update_anim(
    win: &mut Window,
    shared: &mut Shared,
    ctx: Ctx,
    msg: AnimMessage,
    out: &mut Vec<Action>,
)
    requires
        old(win)@.wf(),
    ensures
        wt(final(win)@, final(shared)@, final(out)@) == anim_message(
            wt(old(win)@, old(shared)@, old(out)@),
            ctx,
            msg,
        ),
        final(win)@.wf(),
{
    match win.viewer_mut() {
        Some(viewer) => {
            step_animation(viewer, shared, msg, out);
            resolve_pending_nav(viewer, shared, ctx, out);
        },
        None => {},
    }
}

/// A video message that concerns only the viewer.
#[verifier::opaque]
pub open spec fn video_stepped(t: St, ctx: Ctx, msg: VideoMessage) -> St {
    match msg {
        VideoMessage::Tick(poll) => frame_ticked(t, poll, ctx.now),
        VideoMessage::PlayPause => play_toggled(t),
        VideoMessage::SeekDrag => if t.v.video.session is Some {
            St {
                v: ViewerModel {
                    video: crate::state::VideoState { seek_drag: true, ..t.v.video },
                    ..t.v
                },
                ..t
            }
        } else {
            t
        },
        VideoMessage::SeekRelease => seek_released(t),
        VideoMessage::SeekBy(seconds) => if t.v.video.session is Some {
            St { v: controls_shown(t.v, ctx.now), ..t }.act(
                Action::ReopenVideo { at: crate::actions::SeekTarget::Offset(seconds) },
            )
        } else {
            t
        },
        VideoMessage::StepFrame(dir) => frame_stepped(t, dir),
        VideoMessage::NudgeVolume(_) => St { v: controls_shown(t.v, ctx.now), ..t },
        VideoMessage::ToggleMute => mute_toggled(t),
        VideoMessage::ToggleLoop => loop_toggled(t),
        _ => t,
    }
}

fn step_video(
    viewer: &mut Viewer,
    shared: &mut Shared,
    ctx: Ctx,
    msg: &VideoMessage,
    out: &mut Vec<Action>,
)
    requires
        old(viewer)@.wf(),
    ensures
        st(final(viewer)@, final(shared)@, final(out)@) == video_stepped(
            st(old(viewer)@, old(shared)@, old(out)@),
            ctx,
            *msg,
        ),
        final(viewer)@.wf(),
{
    proof {
        reveal(video_stepped);
    }
    let ghost before = st(viewer@, shared@, out@);
    match msg {
        VideoMessage::Tick(poll) => tick_frame(viewer, shared, poll, ctx.now, out),
        VideoMessage::PlayPause => {
            play_pause(viewer, out);
            assert(st(viewer@, shared@, out@) == play_toggled(before));
        },
        VideoMessage::SeekDrag => seek_drag(viewer),
        VideoMessage::SeekRelease => {
            seek_release(viewer, out);
            assert(st(viewer@, shared@, out@) == seek_released(before));
        },
        VideoMessage::SeekBy(seconds) => seek_by(viewer, *seconds, ctx.now, out),
        VideoMessage::StepFrame(dir) => {
            step_frame(viewer, *dir, out);
            assert(st(viewer@, shared@, out@) == frame_stepped(before, *dir));
        },
        VideoMessage::NudgeVolume(_) => show_controls(viewer, ctx.now),
        VideoMessage::ToggleMute => toggle_mute(viewer, shared, out),
        VideoMessage::ToggleLoop => toggle_loop(viewer, shared, out),
        _ => {},
    }
}

/// A settled volume saved, if it is due.
pub open spec fn volume_checked(t: Wt, ctx: Ctx) -> Wt {
    let u = Wt { s: volume_polled(t.s, ctx.now), ..t };
    if save_due(ctx.now, t.s.status.value.volume_save_due) {
        u.act(Action::SaveConfig)
    } else {
        u
    }
}

pub open spec fn video_viewer_step(t: Wt, ctx: Ctx, msg: VideoMessage) -> Wt {
    if t.w.viewer is Some {
        t.with_inner(video_stepped(t.inner(), ctx, msg))
    } else {
        t
    }
}

/// Any video message.
#[verifier::opaque]
pub open spec fn video_message(t: Wt, ctx: Ctx, msg: VideoMessage) -> Wt {
    match msg {
        VideoMessage::Extracted(file, result) => extraction_landed(t, file, result),
        VideoMessage::SetVolume(volume) => volume_set(t, volume, ctx.now),
        VideoMessage::NudgeVolume(tenths) => video_viewer_step(t, ctx, msg).act(
            Action::NudgeVolume { tenths },
        ),
        VideoMessage::Tick(_) => video_viewer_step(volume_checked(t, ctx), ctx, msg),
        _ => video_viewer_step(t, ctx, msg),
    }
}

fn step_open_video(
    win: &mut Window,
    shared: &mut Shared,
    ctx: Ctx,
    msg: &VideoMessage,
    out: &mut Vec<Action>,
)
    requires
        old(win)@.wf(),
    ensures
        wt(final(win)@, final(shared)@, final(out)@) == video_viewer_step(
            wt(old(win)@, old(shared)@, old(out)@),
            ctx,
            *msg,
        ),
        final(win)@.wf(),
{
    match win.viewer_mut() {
        Some(viewer) => {
            step_video(viewer, shared, ctx, msg, out);
        },
        None => {},
    }
}

/// Handle a video message.
pub fn update_video(
    win: &mut Window,
    shared: &mut Shared,
    ctx: Ctx,
    msg: VideoMessage,
    out: &mut Vec<Action>,
)
    requires
        old(win)@.wf(),
    ensures
        wt(final(win)@, final(shared)@, final(out)@) == video_message(
            wt(old(win)@, old(shared)@, old(out)@),
            ctx,
            msg,
        ),
        final(win)@.wf(),
{
    proof {
        reveal(video_message);
    }
    match msg {
        VideoMessage::Extracted(file, result) => extracted(win, shared, file, result, out),
        VideoMessage::SetVolume(volume) => set_volume(win, shared, volume, ctx.now, out),
        VideoMessage::NudgeVolume(tenths) => {
            step_open_video(win, shared, ctx, &msg, out);
            out.push(Action::NudgeVolume { tenths });
        },
        VideoMessage::Tick(_) => {
            poll_volume_save(shared, ctx.now, out);
            step_open_video(win, shared, ctx, &msg, out);
        },
        _ => step_open_video(win, shared, ctx, &msg, out),
    }
}

/// Any message about opening.
#[verifier::opaque]
pub open spec fn open_message(t: Wt, ctx: Ctx, msg: OpenMessage) -> Wt {
    match msg {
        OpenMessage::FileDropped(file) => path_handed(t, ctx, file),
        OpenMessage::DirectoryScanned(scan) => scan_landed(t, ctx, scan),
        OpenMessage::ArchiveScanned(file, index) => archive_landed(t, ctx, file, index),
        OpenMessage::OpenFile => menu_closed(t).act(Action::OpenDialog),
        OpenMessage::FileDialogResult(picked) => match picked {
            Some(file) => path_handed(t, ctx, file),
            None => t,
        },
        OpenMessage::CloseFile => session_closed(menu_closed(t)),
        OpenMessage::Quit => t.act(Action::SaveThenClose),
        OpenMessage::DirectoryChanged(dir) => t.act(Action::RescanDirectory { dir }),
        OpenMessage::DirectoryRescanned(dir, files) => rescan_landed(t, ctx, dir, files),
    }
}

/// Handle a message about opening.
pub fn update_open(
    win: &mut Window,
    shared: &mut Shared,
    ctx: Ctx,
    msg: OpenMessage,
    out: &mut Vec<Action>,
)
    requires
        old(win)@.wf(),
    ensures
        wt(final(win)@, final(shared)@, final(out)@) == open_message(
            wt(old(win)@, old(shared)@, old(out)@),
            ctx,
            msg,
        ),
        final(win)@.wf(),
{
    proof {
        reveal(open_message);
    }
    match msg {
        OpenMessage::FileDropped(file) => hand_path(win, shared, ctx, file, out),
        OpenMessage::DirectoryScanned(scan) => directory_scanned(win, shared, ctx, scan, out),
        OpenMessage::ArchiveScanned(file, index) => archive_scanned(
            win,
            shared,
            ctx,
            file,
            index,
            out,
        ),
        OpenMessage::OpenFile => open_file(win, shared, out),
        OpenMessage::FileDialogResult(picked) => match picked {
            Some(file) => hand_path(win, shared, ctx, file, out),
            None => {},
        },
        OpenMessage::CloseFile => close_file(win, shared),
        OpenMessage::Quit => {
            out.push(Action::SaveThenClose);
        },
        OpenMessage::DirectoryChanged(dir) => {
            out.push(Action::RescanDirectory { dir });
        },
        OpenMessage::DirectoryRescanned(dir, files) => directory_rescanned(
            win,
            shared,
            ctx,
            dir,
            files,
            out,
        ),
    }
}

/// Any window-system message.
#[verifier::opaque]
pub open spec fn window_message(t: Wt, msg: WindowMessage) -> Wt {
    let state = t.w.state.value;
    match msg {
        WindowMessage::Resized { size, empty } => window_resized(t, size, empty),
        WindowMessage::Moved(pos) => window_moved(t, pos),
        WindowMessage::WindowState(report) => t.with_state(reported(state, report)),
        WindowMessage::ProbeWindowState { generation } => if generation
            == state.probe_generation {
            t.act(Action::CheckWindowState)
        } else {
            t
        },
        WindowMessage::Focused(on) => focus_set(t, on),
        WindowMessage::Decay { generation, stage } => stage_run(t, generation, stage),
        WindowMessage::CheckMinimize => t.act(Action::CheckMinimize),
        WindowMessage::Minimized(on) => minimize_set(t, on),
        WindowMessage::Reactivate => decay_restarted(t),
        WindowMessage::CloseRequested => close_persisted(t),
        WindowMessage::ImageAreaMeasured { at, agrees } => area_measured(t, at, agrees),
    }
}

/// Handle a window-system message.
pub fn update_window(
    win: &mut Window,
    shared: &mut Shared,
    msg: WindowMessage,
    out: &mut Vec<Action>,
)
    requires
        old(win)@.wf(),
    ensures
        wt(final(win)@, final(shared)@, final(out)@) == window_message(
            wt(old(win)@, old(shared)@, old(out)@),
            msg,
        ),
        final(win)@.wf(),
{
    proof {
        reveal(window_message);
    }
    match msg {
        WindowMessage::Resized { size, empty } => resized(win, shared, size, empty, out),
        WindowMessage::Moved(pos) => moved(win, shared, pos, out),
        WindowMessage::WindowState(report) => window_state(win, report),
        WindowMessage::ProbeWindowState { generation } => probe_window_state(
            win,
            generation,
            out,
        ),
        WindowMessage::Focused(on) => focused(win, shared, on, out),
        WindowMessage::Decay { generation, stage } => run_decay_stage(
            win,
            shared,
            generation,
            stage,
            out,
        ),
        WindowMessage::CheckMinimize => {
            out.push(Action::CheckMinimize);
        },
        WindowMessage::Minimized(on) => minimized(win, shared, on, out),
        WindowMessage::Reactivate => restart_decay(win, shared, out),
        WindowMessage::CloseRequested => close_requested(win, shared, out),
        WindowMessage::ImageAreaMeasured { at, agrees } => image_area_measured(
            win,
            shared,
            at,
            agrees,
            out,
        ),
    }
}

/// What a dialog message comes to. The enter key does what the open dialog is
/// for.
pub open spec fn modal_message(before: Wt, after: Wt, ctx: Ctx, msg: ModalMessage) -> bool {
    match msg {
        ModalMessage::RequestDelete => after == delete_requested(before),
        ModalMessage::ConfirmDeleteNow => after == delete_confirmed(before),
        ModalMessage::DeleteFinished(file, result, resume) => after == delete_landed(
            before,
            ctx,
            file,
            result,
            resume,
        ),
        ModalMessage::RequestRename => after == rename_requested(before),
        ModalMessage::RenameInput(text) => after == match before.w.modal {
            Some(ModalModel::Rename { .. }) => before.with_modal(
                Some(ModalModel::Rename { input: text@ }),
            ),
            _ => before,
        },
        ModalMessage::CommitRename => rename_committed(before, after),
        ModalMessage::RenameFinished(from, to, result) => after == rename_landed(
            before,
            ctx,
            from,
            to,
            result,
        ),
        ModalMessage::Submit => match before.w.modal {
            Some(ModalModel::ConfirmDelete(_)) => after == delete_confirmed(before),
            Some(ModalModel::Rename { .. }) => rename_committed(before, after),
            Some(ModalModel::Settings) => after == before.with_modal(None),
            None => after == before,
        },
        ModalMessage::Cancel => after == before.with_modal(None),
    }
}

/// Handle a dialog message.
pub fn update_modal(
    win: &mut Window,
    shared: &mut Shared,
    ctx: Ctx,
    msg: ModalMessage,
    out: &mut Vec<Action>,
)
    requires
        old(win)@.wf(),
    ensures
        modal_message(
            wt(old(win)@, old(shared)@, old(out)@),
            wt(final(win)@, final(shared)@, final(out)@),
            ctx,
            msg,
        ),
        final(win)@.wf(),
{
    match msg {
        ModalMessage::RequestDelete => request_delete(win, shared, out),
        ModalMessage::ConfirmDeleteNow => confirm_delete(win, shared, out),
        ModalMessage::DeleteFinished(file, result, resume) => delete_finished(
            win,
            shared,
            ctx,
            file,
            result,
            resume,
            out,
        ),
        ModalMessage::RequestRename => request_rename(win, shared, out),
        ModalMessage::RenameInput(text) => rename_input(win, text),
        ModalMessage::CommitRename => commit_rename(win, shared, out),
        ModalMessage::RenameFinished(from, to, result) => rename_finished(
            win,
            shared,
            ctx,
            from,
            to,
            result,
            out,
        ),
        ModalMessage::Submit => {
            let kind: u8 = match &win.modal {
                Some(Modal::ConfirmDelete(_)) => 0,
                Some(Modal::Rename { .. }) => 1,
                Some(Modal::Settings) => 2,
                None => 3,
            };
            if kind == 0 {
                confirm_delete(win, shared, out);
            } else if kind == 1 {
                commit_rename(win, shared, out);
            } else if kind == 2 {
                win.modal = None;
            }
        },
        ModalMessage::Cancel => {
            win.modal = None;
        },
    }
}

/// What the user did elsewhere closes an open dropdown and an open context
/// menu. Nothing that happens on its own does.
pub open spec fn transient_dismissed(t: Wt, msg: Message) -> Wt {
    let state = t.w.state.value;
    t.with_state(
        WindowState {
            open_menu: if keeps_menu(msg) || background(msg) {
                state.open_menu
            } else {
                None
            },
            context_menu_open: state.context_menu_open && (keeps_context_menu(msg)
                || background(msg)),
            ..state
        },
    )
}

fn dismiss_transient(win: &mut Window, shared: &Shared, msg: &Message, out: &Vec<Action>)
    requires
        old(win)@.wf(),
    ensures
        wt(final(win)@, shared@, out@) == transient_dismissed(
            wt(old(win)@, shared@, out@),
            *msg,
        ),
        final(win)@.wf(),
{
    let background: bool = is_background_message(msg);
    let open_menu: Option<crate::window::OpenMenu> = if is_menu_message(msg) || background {
        win.state.value.open_menu
    } else {
        None
    };
    let context_menu_open: bool = win.state.value.context_menu_open && (is_context_menu_message(msg)
        || background);
    win.set_state(WindowState { open_menu, context_menu_open, ..win.state.value });
}

/// What handling a message comes to, menus and dialogs aside.
pub open spec fn handled(before: Wt, after: Wt, ctx: Ctx, msg: Message) -> bool {
    match msg {
        Message::Open(m) => after == open_message(before, ctx, m),
        Message::Media(m) => after == media_message(before, ctx, m),
        Message::Viewer(m) => after == viewer_message(before, ctx, m),
        Message::Toolbar(m) => after == toolbar_message(before, m),
        Message::NavSlider(m) => after == if before.w.viewer is Some {
            before.with_inner(
                match m {
                    crate::message::SliderMessage::Changed(index) => slider_moved(
                        before.inner(),
                        ctx,
                        index,
                    ),
                    crate::message::SliderMessage::Released => slider_released(
                        before.inner(),
                        ctx,
                    ),
                },
            )
        } else {
            before
        },
        Message::Filmstrip(m) => after == if before.w.viewer is Some {
            before.with_inner(strip_message(before.inner(), ctx, m))
        } else {
            before
        },
        Message::Modal(m) => modal_message(before, after, ctx, m),
        Message::Settings(m) => after == settings_message(before, m),
        Message::ContextMenu(m) => after == context_message(before, m),
        Message::VideoControls(m) => after == video_message(before, ctx, m),
        Message::Window(m) => after == window_message(before, m),
        Message::DismissToast(id) => after == (Wt {
            w: WindowModel { toasts: dismissed(before.w.toasts, id), ..before.w },
            ..before
        }),
        Message::Anim(m) => after == anim_message(before, ctx, m),
    }
}

/// What a message to a window comes to: transient menus first, then a dialog
/// swallows what it blocks, then the message is handled.
pub open spec fn dispatched(before: Wt, after: Wt, ctx: Ctx, msg: Message) -> bool {
    let t = transient_dismissed(before, msg);
    if before.w.modal is Some && modal_blocked(msg) {
        after == t
    } else {
        handled(t, after, ctx, msg)
    }
}

fn handle(
    win: &mut Window,
    shared: &mut Shared,
    ctx: Ctx,
    msg: Message,
    out: &mut Vec<Action>,
)
    requires
        old(win)@.wf(),
    ensures
        handled(
            wt(old(win)@, old(shared)@, old(out)@),
            wt(final(win)@, final(shared)@, final(out)@),
            ctx,
            msg,
        ),
        final(win)@.wf(),
{
    match msg {
        Message::Open(m) => update_open(win, shared, ctx, m, out),
        Message::Media(m) => update_media(win, shared, ctx, m, out),
        Message::Viewer(m) => update_viewer_message(win, shared, ctx, m, out),
        Message::Toolbar(m) => update_toolbar(win, shared, m, out),
        Message::NavSlider(m) => match win.viewer_mut() {
            Some(viewer) => update_slider(viewer, shared, ctx, m, out),
            None => {},
        },
        Message::Filmstrip(m) => match win.viewer_mut() {
            Some(viewer) => update_filmstrip(viewer, shared, ctx, m, out),
            None => {},
        },
        Message::Modal(m) => update_modal(win, shared, ctx, m, out),
        Message::Settings(m) => update_settings(win, shared, m, out),
        Message::ContextMenu(m) => update_context_menu(win, shared, m, out),
        Message::VideoControls(m) => update_video(win, shared, ctx, m, out),
        Message::Window(m) => update_window(win, shared, m, out),
        Message::DismissToast(id) => dismiss_toast(win, id),
        Message::Anim(m) => update_anim(win, shared, ctx, m, out),
    }
}

/// Handle a message for one window.
pub fn dispatch(
    win: &mut Window,
    shared: &mut Shared,
    ctx: Ctx,
    msg: Message,
    out: &mut Vec<Action>,
)
    requires
        old(win)@.wf(),
    ensures
        dispatched(
            wt(old(win)@, old(shared)@, old(out)@),
            wt(final(win)@, final(shared)@, final(out)@),
            ctx,
            msg,
        ),
        final(win)@.wf(),
{
    dismiss_transient(win, shared, &msg, out);
    if win.modal.is_some() && is_modal_blocked(&msg) {
        return ;
    }
    handle(win, shared, ctx, msg, out);
}

/// While a dialog is open, the keys it blocks change nothing of what is viewed.
pub proof fn law_dialog_owns_the_keyboard(before: Wt, after: Wt, ctx: Ctx, msg: Message)
    requires
        before.w.modal is Some,
        modal_blocked(msg),
        dispatched(before, after, ctx, msg),
    ensures
        after.w.viewer == before.w.viewer,
        after.w.modal == before.w.modal,
        after.s == before.s,
        after.out == before.out,
{
}

/// A window-system event never closes a menu.
pub proof fn law_background_keeps_menus(t: Wt, msg: Message)
    requires
        background(msg) || passive(msg),
    ensures
        transient_dismissed(t, msg).w.state.value.open_menu == t.w.state.value.open_menu,
        transient_dismissed(t, msg).w.state.value.context_menu_open
            == t.w.state.value.context_menu_open,
{
}

} // verus!
