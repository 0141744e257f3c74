//! Completions of media work: decodes, uploads, thumbnails, and probes.
use crate::actions::{Action, JobZoom, Lane, ThumbUrgency};
use crate::anim::AnimMessage;
use crate::files::FileId;
use crate::leases::{holds, leased, leases_without};
use crate::media_tasks::{
    fire_rotate, fire_thumbnailer, fitted, kept, lemma_shown_frame, loaded_shown,
    placeholder_shown, refits, rotate_fired, run_job, show_loaded, show_placeholder, st,
    thumbnailer_fired, Ctx, St,
};
use crate::navigation::{
    complete_navigation, files_replaced, navigated, replace_files_keeping_pending,
};
use crate::paths::Source;
use crate::state::{
    texts, DisplayedImage, DisplayedModel, Shared, SharedModel, Span, Thumb, Viewer, ViewerModel,
};
use crate::store::{AnimFrames, Texture, Tier};
use crate::text::{load_error, load_error_text};
use crate::thumbs::THUMB_BUDGET_BYTES;
use vstd::prelude::*;

verus! {

/// Why a load produced nothing.
pub enum MediaError {
    /// A newer navigation cancelled it.
    Cancelled,
    /// It failed, for the reason given.
    Failed(String),
}

/// How a thumbnail job ended.
#[derive(Clone, Copy, PartialEq, Eq, Debug)]
pub enum ThumbResult {
    Loaded(Thumb),
    Cancelled,
    Failed,
}

/// A thumbnail kept, if there is one. The oldest others go while they take more
/// than their budget, but for the files `v` pins.
pub open spec fn thumb_kept(
    v: ViewerModel,
    s: SharedModel,
    file: FileId,
    thumb: Option<Thumb>,
) -> SharedModel {
    match thumb {
        Some(thumb) => SharedModel {
            thumbs: s.thumbs.insert(file, thumb).fitted(
                THUMB_BUDGET_BYTES,
                v.pinned(s.config.value.prefetch_depth as nat),
            ),
            ..s
        },
        None => s,
    }
}

fn keep_thumb(viewer: &Viewer, shared: &mut Shared, file: FileId, thumb: Option<Thumb>)
    requires
        viewer@.wf(),
    ensures
        final(shared)@ == thumb_kept(viewer@, old(shared)@, file, thumb),
{
    match thumb {
        Some(thumb) => {
            shared.thumbs.insert(file, thumb);
            let pinned = viewer.pinned_paths(shared.config.value.prefetch_depth);
            shared.thumbs.evict_over_budget(THUMB_BUDGET_BYTES, &pinned);
        },
        None => {},
    }
}

/// The marks of a finished load cleared. The thumbnail slot goes too: a cheap
/// probe may have parked it for this load to fill.
pub open spec fn unmarked(v: ViewerModel, file: FileId) -> ViewerModel {
    ViewerModel {
        in_flight: v.in_flight.remove(file),
        in_flight_thumbs: v.in_flight_thumbs.remove(file),
        ..v
    }
}

/// A still decoded for this window: its marks cleared, its thumbnail kept, and
/// the image on screen if it is the current one.
#[verifier::opaque]
pub open spec fn still_landed(t: St, file: FileId, size: (u32, u32), thumb: Option<Thumb>) -> St {
    let u = St { v: unmarked(t.v, file), s: thumb_kept(t.v, t.s, file, thumb), ..t };
    if t.v.current() == file {
        loaded_shown(u, file, size)
    } else {
        u
    }
}

/// Take in a decoded still.
pub fn land_still(
    viewer: &mut Viewer,
    shared: &mut Shared,
    file: FileId,
    size: (u32, u32),
    thumb: Option<Thumb>,
    out: &mut Vec<Action>,
)
    requires
        old(viewer)@.wf(),
    ensures
        st(final(viewer)@, final(shared)@, final(out)@) == still_landed(
            st(old(viewer)@, old(shared)@, old(out)@),
            file,
            size,
            thumb,
        ),
        final(viewer)@.wf(),
{
    proof {
        reveal(still_landed);
    }
    viewer.in_flight.remove(&file);
    viewer.in_flight_thumbs.remove(&file);
    keep_thumb(viewer, shared, file, thumb);
    if viewer.nav.current() == file {
        proof {
            lemma_shown_frame(st(viewer@, shared@, out@), file, size);
        }
        show_loaded(viewer, shared, file, size, out);
    }
}

/// The file whose sharp image this viewer waits for: the blurred one, or the
/// current one while nothing at all is on screen.
pub open spec fn waiting_for(v: ViewerModel) -> Option<FileId> {
    if v.displayed is Placeholder {
        v.displayed_path
    } else if v.displayed is Nothing {
        Some(v.current())
    } else {
        None
    }
}

/// The image behind a fresh upload on screen, if the viewer waits for it.
#[verifier::opaque]
pub open spec fn promoted(t: St, file: FileId) -> St {
    match t.s.store.ram(file) {
        Some(ram) if waiting_for(t.v) == Some(file) => loaded_shown(
            t,
            file,
            (ram.width, ram.height),
        ),
        _ => t,
    }
}

/// If the view still stands in with a blur, or nothing, for `file`, show it
/// now that a texture exists.
pub fn promote_if_waiting(
    viewer: &mut Viewer,
    shared: &Shared,
    file: FileId,
    out: &mut Vec<Action>,
)
    requires
        old(viewer)@.wf(),
    ensures
        st(final(viewer)@, shared@, final(out)@) == promoted(
            st(old(viewer)@, shared@, old(out)@),
            file,
        ),
        final(viewer)@.wf(),
{
    proof {
        reveal(promoted);
    }
    let target: Option<FileId> = match viewer.displayed {
        DisplayedImage::Placeholder(_) => viewer.displayed_path,
        DisplayedImage::Nothing => Some(viewer.nav.current()),
        _ => None,
    };
    if target == Some(file) {
        match shared.store.ram(file) {
            Some(ram) => {
                proof {
                    lemma_shown_frame(
                        st(viewer@, shared@, out@),
                        file,
                        (ram.width, ram.height),
                    );
                }
                show_loaded(viewer, shared, file, (ram.width, ram.height), out);
            },
            None => {},
        }
    }
}

/// Decoded frames registered in the shared store and leased by this window.
/// Playback starts if the animation is current and not already playing.
#[verifier::opaque]
pub open spec fn anim_registered(t: St, window: u64, file: FileId, frames: AnimFrames) -> St {
    let anims = t.s.anims.claim(window, file, Tier::InRam).settled(file).decoded(file, frames);
    let player = t.v.anim.leasing(file);
    let step = if t.v.current() == file && !player.is_active_on(file) {
        player.try_started(file, anims)
    } else {
        player.unchanged()
    };
    St {
        v: ViewerModel { anim: step.player, ..t.v },
        s: SharedModel { anims, ..t.s },
        out: t.out + step.acts,
    }
}

/// Register decoded frames in the shared animation store and lease them, so a
/// second window shares the one decode and its decay.
pub fn register_animation(
    viewer: &mut Viewer,
    shared: &mut Shared,
    window: u64,
    file: FileId,
    frames: AnimFrames,
    out: &mut Vec<Action>,
)
    requires
        old(viewer)@.wf(),
    ensures
        st(final(viewer)@, final(shared)@, final(out)@) == anim_registered(
            st(old(viewer)@, old(shared)@, old(out)@),
            window,
            file,
            frames,
        ),
        final(viewer)@.wf(),
{
    proof {
        reveal(anim_registered);
        assert(out@ + Seq::<Action>::empty() =~= out@);
    }
    shared.anim_store.request(window, file, Tier::InRam);
    shared.anim_store.on_decoded(file, frames);
    viewer.anim_player.insert(file);
    if viewer.nav.current() == file && !viewer.anim_player.is_active_on(file) {
        viewer.anim_player.try_start_from_cache(file, &shared.anim_store, out);
    }
}

/// A decode that turned out to be an animation: no still is held for it, its
/// thumbnail is kept, and its frames are registered.
#[verifier::opaque]
pub open spec fn anim_landed(
    t: St,
    window: u64,
    file: FileId,
    frames: AnimFrames,
    thumb: Option<Thumb>,
) -> St {
    let v = unmarked(t.v, file);
    anim_registered(
        St {
            v: ViewerModel { cache: leases_without(v.cache, set![file]), ..v },
            s: thumb_kept(t.v, t.s, file, thumb),
            ..t
        },
        window,
        file,
        frames,
    )
}

/// Take in a decoded animation.
pub fn land_animation(
    viewer: &mut Viewer,
    shared: &mut Shared,
    window: u64,
    file: FileId,
    frames: AnimFrames,
    thumb: Option<Thumb>,
    out: &mut Vec<Action>,
)
    requires
        old(viewer)@.wf(),
    ensures
        st(final(viewer)@, final(shared)@, final(out)@) == anim_landed(
            st(old(viewer)@, old(shared)@, old(out)@),
            window,
            file,
            frames,
            thumb,
        ),
        final(viewer)@.wf(),
{
    proof {
        reveal(anim_landed);
    }
    viewer.in_flight.remove(&file);
    viewer.in_flight_thumbs.remove(&file);
    viewer.cache.remove(file);
    keep_thumb(viewer, shared, file, thumb);
    register_animation(viewer, shared, window, file, frames, out);
}

pub open spec fn is_pending_on(v: ViewerModel, file: FileId) -> bool {
    v.pending_nav is Some && v.nav.files[v.pending_nav->0 as int] == file
}

/// The waiting for `file` given up.
pub open spec fn given_up(v: ViewerModel, file: FileId) -> ViewerModel {
    ViewerModel {
        pending_since: None,
        pending_nav: if is_pending_on(v, file) {
            None
        } else {
            v.pending_nav
        },
        ..v
    }
}

/// Everything remembered about a file that is gone.
pub open spec fn forgotten(t: St, window: u64, file: FileId) -> St {
    St {
        v: ViewerModel {
            nav: t.v.nav.without(file),
            cache: leases_without(t.v.cache, set![file]),
            anim: t.v.anim.removed(file),
            failed_thumbs: t.v.failed_thumbs.remove(file),
            failed_loads: t.v.failed_loads.remove(file),
            ..t.v
        },
        s: SharedModel {
            store: if holds(t.v.cache, file) {
                t.s.store.released(window, file)
            } else {
                t.s.store
            },
            anims: if holds(t.v.anim.cache, file) {
                t.s.anims.released(window, file)
            } else {
                t.s.anims
            },
            thumbs: t.s.thumbs.remove(file),
            ..t.s
        },
        ..t
    }
}

/// Whether dropping `file` leaves nothing to view.
pub open spec fn last_file(v: ViewerModel, file: FileId) -> bool {
    v.nav.files.len() == 1 && v.nav.files[0] == file
}

/// Forget a file that is gone. `false` when it was the only one. A move that
/// was pending is abandoned.
pub fn forget_file(viewer: &mut Viewer, shared: &mut Shared, window: u64, file: FileId) -> (left:
    bool)
    requires
        old(viewer)@.wf(),
        old(viewer)@.pending_nav is None,
    ensures
        forall|out: Seq<Action>|
            #![trigger st(old(viewer)@, old(shared)@, out)]
            st(final(viewer)@, final(shared)@, out) == forgotten(
                st(old(viewer)@, old(shared)@, out),
                window,
                file,
            ),
        left == !last_file(old(viewer)@, file),
        final(viewer)@.wf(),
{
    if viewer.cache.holds(file) {
        shared.store.release(window, file);
    }
    viewer.cache.remove(file);
    shared.thumbs.remove(file);
    viewer.anim_player.remove(file, window, &mut shared.anim_store);
    viewer.failed_thumbs.remove(&file);
    let ghost loads = viewer.failed_loads@;
    viewer.failed_loads.remove(&file);
    assert(texts(loads.remove(file)) =~= texts(loads).remove(file));
    viewer.nav.remove(file)
}

/// The message for `file` remembered.
pub open spec fn failure_noted(v: ViewerModel, file: FileId, message: Seq<char>) -> ViewerModel {
    ViewerModel { failed_loads: v.failed_loads.insert(file, message), ..v }
}

/// The message for `file` on screen, unless a good image of it already is.
pub open spec fn failure_shown(v: ViewerModel, file: FileId, message: Seq<char>) -> ViewerModel {
    if v.displayed is Full && v.displayed_path == Some(file) {
        v
    } else {
        ViewerModel {
            displayed: DisplayedModel::Error { message },
            displayed_path: Some(file),
            ..v
        }
    }
}

/// A file that vanished from disk dropped, and the display moved on to what
/// took its place.
#[verifier::opaque]
pub open spec fn vanished(t: St, ctx: Ctx, file: FileId) -> St {
    let g = St {
        v: ViewerModel { pending_since: None, pending_nav: None, ..t.v },
        ..t
    };
    let f = forgotten(g, ctx.window, file);
    if last_file(t.v, file) {
        f
    } else {
        navigated(f, ctx, f.v.nav.cursor, true)
    }
}

/// A file that will not decode remembered as an error stop: a move that waited
/// for it lands on it, and the current one shows its message.
#[verifier::opaque]
pub open spec fn error_stopped(t: St, ctx: Ctx, file: FileId, message: Seq<char>) -> St {
    let noted = St { v: failure_noted(given_up(t.v, file), file, message), ..t };
    if is_pending_on(t.v, file) {
        navigated(noted, ctx, t.v.pending_nav->0 as int, false)
    } else {
        St { v: failure_shown(noted.v, file, message), ..noted }
    }
}

/// A failed decode taken in. A cancelled one, or one nobody waits for, only
/// clears its marks. A file that vanished from disk is dropped and the display
/// moves on. Any other becomes an error stop the cursor can land on.
pub open spec fn failure_landed(
    t: St,
    ctx: Ctx,
    file: FileId,
    err: Option<Seq<char>>,
    exists_on_disk: bool,
) -> St {
    let u = St { v: unmarked(t.v, file), ..t };
    if err is None || (t.v.current() != file && !is_pending_on(t.v, file)) {
        u
    } else if t.v.source == Source::Fs && !exists_on_disk {
        vanished(u, ctx, file)
    } else {
        error_stopped(u, ctx, file, load_error_text(t.s, file, err->0))
    }
}

/// Whether a failed decode leaves nothing to view.
pub open spec fn failure_empties(
    v: ViewerModel,
    file: FileId,
    failed: bool,
    exists_on_disk: bool,
) -> bool {
    failed && v.source == Source::Fs && !exists_on_disk && last_file(v, file)
}

/// Remember the message of a file that failed to load.
pub fn note_failure(viewer: &mut Viewer, file: FileId, message: String)
    ensures
        final(viewer)@ == failure_noted(old(viewer)@, file, message@),
{
    let ghost loads = viewer.failed_loads@;
    let ghost text = message;
    viewer.failed_loads.insert(file, message);
    assert(texts(loads.insert(file, text)) =~= texts(loads).insert(file, text@));
}

/// Drop a file that vanished from disk. `false` when nothing is left to view.
fn drop_vanished(
    viewer: &mut Viewer,
    shared: &mut Shared,
    ctx: Ctx,
    file: FileId,
    out: &mut Vec<Action>,
) -> (left: bool)
    requires
        old(viewer)@.wf(),
    ensures
        st(final(viewer)@, final(shared)@, final(out)@) == vanished(
            st(old(viewer)@, old(shared)@, old(out)@),
            ctx,
            file,
        ),
        left == !last_file(old(viewer)@, file),
        final(viewer)@.wf(),
{
    proof {
        reveal(vanished);
    }
    viewer.pending_since = None;
    viewer.pending_nav = None;
    let ghost before = st(viewer@, shared@, out@);
    let left = forget_file(viewer, shared, ctx.window, file);
    assert(st(viewer@, shared@, out@) == forgotten(before, ctx.window, file));
    if left {
        let cursor: usize = viewer.nav.cursor();
        complete_navigation(viewer, shared, ctx, cursor, true, out);
    }
    left
}

/// Remember a file that will not decode, and show that if it is waited for.
fn stop_at_error(
    viewer: &mut Viewer,
    shared: &mut Shared,
    ctx: Ctx,
    file: FileId,
    message: String,
    out: &mut Vec<Action>,
)
    requires
        old(viewer)@.wf(),
    ensures
        st(final(viewer)@, final(shared)@, final(out)@) == error_stopped(
            st(old(viewer)@, old(shared)@, old(out)@),
            ctx,
            file,
            message@,
        ),
        final(viewer)@.wf(),
{
    proof {
        reveal(error_stopped);
    }
    let pending: Option<usize> = match viewer.pending_nav {
        Some(i) => if viewer.nav.files[i] == file {
            Some(i)
        } else {
            None
        },
        None => None,
    };
    viewer.pending_since = None;
    if pending.is_some() {
        viewer.pending_nav = None;
    }
    note_failure(viewer, file, message.clone());
    match pending {
        Some(index) => {
            complete_navigation(viewer, shared, ctx, index, false, out);
        },
        None => {
            let shown: bool = viewer.displayed_path == Some(file) && match viewer.displayed {
                DisplayedImage::Full { .. } => true,
                _ => false,
            };
            if !shown {
                viewer.displayed = DisplayedImage::Error { message };
                viewer.displayed_path = Some(file);
            }
        },
    }
}

pub open spec fn error_text(err: MediaError) -> Option<Seq<char>> {
    match err {
        MediaError::Cancelled => None,
        MediaError::Failed(text) => Some(text@),
    }
}

/// Take in a failed decode. `false` when nothing is left to view.
pub fn land_failure(
    viewer: &mut Viewer,
    shared: &mut Shared,
    ctx: Ctx,
    file: FileId,
    err: &MediaError,
    exists_on_disk: bool,
    out: &mut Vec<Action>,
) -> (left: bool)
    requires
        old(viewer)@.wf(),
    ensures
        st(final(viewer)@, final(shared)@, final(out)@) == failure_landed(
            st(old(viewer)@, old(shared)@, old(out)@),
            ctx,
            file,
            error_text(*err),
            exists_on_disk,
        ),
        left == !failure_empties(old(viewer)@, file, !(*err is Cancelled), exists_on_disk),
        final(viewer)@.wf(),
{
    viewer.in_flight.remove(&file);
    viewer.in_flight_thumbs.remove(&file);
    let text: &String = match err {
        MediaError::Cancelled => {
            return true;
        },
        MediaError::Failed(text) => text,
    };
    let pending: bool = match viewer.pending_nav {
        Some(i) => viewer.nav.files[i] == file,
        None => false,
    };
    if viewer.nav.current() != file && !pending {
        return true;
    }
    if viewer.source == Source::Fs && !exists_on_disk {
        return drop_vanished(viewer, shared, ctx, file, out);
    }
    let message = load_error(shared, file, text.as_str());
    stop_at_error(viewer, shared, ctx, file, message, out);
    true
}

/// A thumbnail job's end taken in: a thumbnail is kept and stands in for an
/// awaited current image; a cancel frees the slot unless a full decode owns
/// it; a background failure writes the file off.
#[verifier::opaque]
pub open spec fn thumb_landed(
    t: St,
    file: FileId,
    urgency: ThumbUrgency,
    result: ThumbResult,
) -> St {
    let freed = ViewerModel { in_flight_thumbs: t.v.in_flight_thumbs.remove(file), ..t.v };
    match result {
        ThumbResult::Loaded(thumb) => {
            let u = St { v: freed, s: thumb_kept(t.v, t.s, file, Some(thumb)), ..t };
            if t.v.current() == file && t.v.pending_since is Some && t.v.pending_nav is None {
                placeholder_shown(u, file, thumb)
            } else {
                u
            }
        },
        ThumbResult::Cancelled => if t.v.in_flight.contains(file) {
            t
        } else {
            St { v: freed, ..t }
        },
        ThumbResult::Failed => if urgency is Background {
            St {
                v: ViewerModel { failed_thumbs: t.v.failed_thumbs.insert(file), ..freed },
                ..t
            }
        } else {
            St { v: freed, ..t }
        },
    }
}

/// Take in the end of a thumbnail job.
pub fn land_thumb(
    viewer: &mut Viewer,
    shared: &mut Shared,
    file: FileId,
    urgency: ThumbUrgency,
    result: ThumbResult,
    out: &mut Vec<Action>,
)
    requires
        old(viewer)@.wf(),
    ensures
        st(final(viewer)@, final(shared)@, final(out)@) == thumb_landed(
            st(old(viewer)@, old(shared)@, old(out)@),
            file,
            urgency,
            result,
        ),
        final(viewer)@.wf(),
{
    proof {
        reveal(thumb_landed);
        reveal(placeholder_shown);
    }
    match result {
        ThumbResult::Loaded(thumb) => {
            viewer.in_flight_thumbs.remove(&file);
            keep_thumb(viewer, shared, file, Some(thumb));
            if viewer.nav.current() == file && viewer.pending_since.is_some()
                && viewer.pending_nav.is_none() {
                show_placeholder(viewer, shared, file, thumb, out);
            }
        },
        ThumbResult::Cancelled => {
            if !viewer.in_flight.contains(&file) {
                viewer.in_flight_thumbs.remove(&file);
            }
        },
        ThumbResult::Failed => {
            viewer.in_flight_thumbs.remove(&file);
            if urgency == ThumbUrgency::Background {
                viewer.failed_thumbs.insert(file);
            }
        },
    }
}

/// A new order taken in. A freshly opened folder or archive jumps to its first
/// file; otherwise the filmstrip recenters on the cursor.
#[verifier::opaque]
pub open spec fn resorted(t: St, ctx: Ctx, files: Seq<FileId>) -> St {
    let u = St {
        v: ViewerModel { resort_to_first: false, ..files_replaced(t.v, files) },
        ..t
    };
    if t.v.resort_to_first && u.v.nav.cursor != 0 {
        navigated(u, ctx, 0, true)
    } else if t.s.config.value.show_filmstrip {
        let i = u.v.nav.cursor as usize;
        thumbnailer_fired(
            u.act(Action::CenterFilmstrip { index: i }),
            Span { start: i, end: (i + 1) as usize },
            3,
        )
    } else {
        u
    }
}

/// Take in a reordered listing.
pub fn land_resort(
    viewer: &mut Viewer,
    shared: &mut Shared,
    ctx: Ctx,
    files: Vec<FileId>,
    out: &mut Vec<Action>,
)
    requires
        old(viewer)@.wf(),
    ensures
        st(final(viewer)@, final(shared)@, final(out)@) == resorted(
            st(old(viewer)@, old(shared)@, old(out)@),
            ctx,
            files@,
        ),
        final(viewer)@.wf(),
{
    proof {
        reveal(resorted);
    }
    replace_files_keeping_pending(viewer, files);
    let to_first: bool = viewer.resort_to_first;
    viewer.resort_to_first = false;
    let i: usize = viewer.nav.cursor();
    if to_first && i != 0 {
        complete_navigation(viewer, shared, ctx, 0, true, out);
    } else if shared.config.value.show_filmstrip {
        out.push(Action::CenterFilmstrip { index: i });
        fire_thumbnailer(viewer, shared, Span { start: i, end: i + 1 }, 3, out);
    }
}

/// A turned copy of the current still on screen. A failed upload, or one for
/// an image navigated away from, changes nothing.
#[verifier::opaque]
pub open spec fn rotation_landed(
    t: St,
    file: FileId,
    baked: u8,
    size: (u32, u32),
    texture: Option<Texture>,
) -> St {
    match texture {
        Some(_) if t.v.current() == file && t.v.displayed is Full => {
            let shown = St {
                v: ViewerModel {
                    displayed: DisplayedModel::Full { original_size: size, rotated: texture },
                    displayed_rotation: baked,
                    ..t.v
                },
                ..t
            }.act(Action::ResetPan);
            rotate_fired(fitted(shown, size))
        },
        _ => t,
    }
}

/// Take in a turned copy of the current still, catching up if more turns were
/// asked for meanwhile.
pub fn land_rotation(
    viewer: &mut Viewer,
    shared: &Shared,
    file: FileId,
    baked: u8,
    size: (u32, u32),
    texture: Option<Texture>,
    out: &mut Vec<Action>,
)
    requires
        old(viewer)@.wf(),
    ensures
        st(final(viewer)@, shared@, final(out)@) == rotation_landed(
            st(old(viewer)@, shared@, old(out)@),
            file,
            baked,
            size,
            texture,
        ),
        final(viewer)@.wf(),
{
    proof {
        reveal(rotation_landed);
    }
    let full: bool = match viewer.displayed {
        DisplayedImage::Full { .. } => true,
        _ => false,
    };
    if texture.is_none() || viewer.nav.current() != file || !full {
        return ;
    }
    viewer.displayed = DisplayedImage::Full { original_size: size, rotated: texture };
    viewer.displayed_rotation = baked;
    out.push(Action::ResetPan);
    crate::media_tasks::fit(viewer, shared, size, out);
    fire_rotate(viewer, shared, out);
}

/// The lease of the image on screen raised to full resolution, if navigation
/// still rests on it.
#[verifier::opaque]
pub open spec fn current_promoted(t: St, window: u64, file: FileId) -> St {
    if t.v.displayed_path == Some(file) && holds(t.v.cache, file) {
        let claimed = t.s.store.claim(window, file, Tier::Full);
        St {
            v: ViewerModel { cache: leased(t.v.cache, file, Tier::Full), ..t.v },
            s: SharedModel { store: claimed.settled(file), ..t.s },
            ..t
        }.run(claimed.missing_job(file), Lane::Current, JobZoom::Fit)
    } else {
        t
    }
}

/// Raise the image on screen to full resolution.
pub fn promote_current(
    viewer: &mut Viewer,
    shared: &mut Shared,
    window: u64,
    file: FileId,
    out: &mut Vec<Action>,
)
    requires
        old(viewer)@.wf(),
    ensures
        st(final(viewer)@, final(shared)@, final(out)@) == current_promoted(
            st(old(viewer)@, old(shared)@, old(out)@),
            window,
            file,
        ),
        final(viewer)@.wf(),
{
    proof {
        reveal(current_promoted);
    }
    if viewer.displayed_path == Some(file) && viewer.cache.holds(file) {
        let job = shared.store.request(window, file, Tier::Full);
        viewer.cache.insert(file, Tier::Full);
        run_job(job, Lane::Current, JobZoom::Fit, out);
    }
}

/// A playback message taken in. A frame that became ready goes on screen; the
/// first one of an animation chooses the zoom.
#[verifier::opaque]
pub open spec fn anim_stepped(t: St, msg: AnimMessage) -> St {
    let step = t.v.anim.updated(msg, t.v.current(), t.s.anims);
    let u = St { v: ViewerModel { anim: step.player, ..t.v }, out: t.out + step.acts, ..t };
    match step.ready {
        Some(size) => {
            let first = t.v.displayed is Nothing || (t.v.pending_since is Some
                && msg is FrameAllocated);
            let fit = if first && refits(t.v, t.s.config.value) {
                u.act(Action::FitZoom { width: size.0, height: size.1 }).act(Action::ResetPan)
            } else {
                u
            };
            St {
                v: ViewerModel {
                    displayed: DisplayedModel::Animated { original_size: size },
                    displayed_path: Some(t.v.current()),
                    pending_since: None,
                    ..fit.v
                },
                ..fit
            }
        },
        None => u,
    }
}

/// Take in a playback message.
pub fn step_animation(
    viewer: &mut Viewer,
    shared: &Shared,
    msg: AnimMessage,
    out: &mut Vec<Action>,
)
    requires
        old(viewer)@.wf(),
    ensures
        st(final(viewer)@, shared@, final(out)@) == anim_stepped(
            st(old(viewer)@, shared@, old(out)@),
            msg,
        ),
        final(viewer)@.wf(),
{
    proof {
        reveal(anim_stepped);
    }
    let allocated: bool = match msg {
        AnimMessage::FrameAllocated(_, _) => true,
        AnimMessage::Tick => false,
    };
    let empty: bool = match viewer.displayed {
        DisplayedImage::Nothing => true,
        _ => false,
    };
    let first: bool = empty || (viewer.pending_since.is_some() && allocated);
    let current = viewer.nav.current();
    match viewer.anim_player.update(msg, current, &shared.anim_store, out) {
        Some((width, height)) => {
            if first && (!viewer.manual_zoom || shared.config.value.zoom_mode
                != crate::config::ZoomMode::LockZoomRatio) {
                out.push(Action::FitZoom { width, height });
                out.push(Action::ResetPan);
            }
            viewer.displayed = DisplayedImage::Animated { original_size: (width, height) };
            viewer.displayed_path = Some(current);
            viewer.pending_since = None;
        },
        None => {},
    }
}

} // verus!
