//! Moving through the listing. A move happens at once when its target has
//! something to show, and waits for that otherwise, so the screen never goes
//! empty and never shows the wrong image.
use crate::actions::{Action, ThumbUrgency};
use crate::anim::anims_released;
use crate::config::{Config, SortKey, ZoomMode};
use crate::files::{find_file, FileId};
use crate::leases::{files_of, leases_within, leases_without, want_of};
use crate::media_tasks::{
    anim_at_hand, exif_fired, fire_exif, fire_load, fire_prefetch, fire_thumb, fire_thumbnailer,
    fire_visible_thumbs, kept, lemma_anim_frame, lemma_exif_frame, lemma_load_frame,
    lemma_placeholder_frame, lemma_prefetch_frame, lemma_probe_frame, lemma_shown_frame,
    lemma_thumb_frame, lemma_thumbnailer_frame, lemma_thumbs_frame, load_fired, loaded_shown,
    placeholder_or_clear, prefetch_fired, probe_size, same_screen, shared_anim_started,
    show_loaded, show_placeholder_or_clear, size_probed, st, thumb_fired, thumbnailer_fired,
    thumbs_fired, try_start_shared_anim, visible_files, Ctx, St,
};
use crate::nav::{Nav, NavModel};
use crate::paths::{
    archive_extensions, has_extension, is_archive, is_video, name_part, path_text, Source,
};
use crate::state::{
    fresh_viewer, release_stills, stills_released, Direction, DisplayedImage, DisplayedModel,
    Shared, SharedModel, Viewer, ViewerModel,
};
use crate::store::Tier;
use crate::time::Instant;
use crate::video_flow::{lemma_video_frame, start_video, video_started};
use vstd::prelude::*;

verus! {

/// Where a navigation lands: one step in a direction, or an absolute index.
#[derive(Clone, Copy, PartialEq, Eq, Structural, Debug)]
pub enum NavTarget {
    Delta(Direction),
    Index(usize),
}

/// The index `target` names: a step wraps at the ends, an index is taken
/// modulo the length.
pub open spec fn target_index(nav: NavModel, target: NavTarget) -> int {
    match target {
        NavTarget::Delta(Direction::Forward) => nav.next_index(),
        NavTarget::Delta(Direction::Backward) => nav.prev_index(),
        NavTarget::Index(index) => index as int % nav.files.len() as int,
    }
}

/// The viewer moved to `index`, everything of the old position reset. A
/// generation bump cancels the thumbnails in flight, so none stay marked. A zoom
/// set by hand is kept only while the zoom ratio is locked.
#[verifier::opaque]
pub open spec fn moved(t: St, index: int, bump_generation: bool) -> St {
    let bumped = if bump_generation {
        t.act(Action::BumpGeneration)
    } else {
        t
    };
    St {
        v: ViewerModel {
            nav: t.v.nav.at(index),
            pending_nav: None,
            anim: t.v.anim.stopped(),
            video: t.v.video.torn_down(),
            dragging: false,
            manual_zoom: t.v.manual_zoom && t.s.config.value.zoom_mode == ZoomMode::LockZoomRatio,
            current_file_size: None,
            in_flight_thumbs: if bump_generation {
                Set::empty()
            } else {
                t.v.in_flight_thumbs
            },
            rotation: 0,
            displayed_rotation: 0,
            ..t.v
        },
        ..bumped
    }.act(Action::ResetPan)
}

/// The leases outside the prefetch window let go of.
#[verifier::opaque]
pub open spec fn pruned(t: St, window: u64) -> St {
    let keep = t.v.pinned(t.s.config.value.prefetch_depth as nat).to_set();
    St {
        v: ViewerModel {
            anim: t.v.anim.pruned(keep),
            cache: leases_within(t.v.cache, keep),
            ..t.v
        },
        s: SharedModel {
            anims: anims_released(
                t.s.anims,
                window,
                files_of(leases_without(t.v.anim.cache, keep)),
            ),
            store: stills_released(t.s.store, window, files_of(leases_without(t.v.cache, keep))),
            ..t.s
        },
        ..t
    }
}

pub open spec fn awaiting(t: St, now: Instant) -> St {
    St { v: ViewerModel { pending_since: Some(now), ..t.v }, ..t }
}

/// A blur (or nothing) on screen while the current file is awaited.
pub open spec fn blurred(t: St, now: Instant) -> St {
    placeholder_or_clear(awaiting(t, now), t.v.current())
}

/// The message of a known-bad file on screen.
pub open spec fn error_shown(v: ViewerModel, file: FileId) -> ViewerModel {
    ViewerModel {
        displayed: DisplayedModel::Error { message: v.failed_loads[file] },
        displayed_path: Some(file),
        pending_since: None,
        ..v
    }
}

/// The sharp image already at hand for `file`, if its texture is resident:
/// its true dimensions.
pub open spec fn sharp_size(v: ViewerModel, s: SharedModel, file: FileId) -> Option<(u32, u32)> {
    match s.store.ram(file) {
        Some(ram) if v.has_texture(s, file) => Some((ram.width, ram.height)),
        _ => None,
    }
}

/// The current file put on screen as well as it can be right now: a video or
/// an animation starts behind its blur, a known-bad file shows its message, a
/// resident image shows at once, and anything else loads behind its blur.
#[verifier::opaque]
pub open spec fn current_shown(t: St, window: u64, now: Instant) -> St {
    let file = t.v.current();
    if is_video(t.s.paths, file) {
        video_started(blurred(t, now), file, now)
    } else if anim_at_hand(t, file) {
        blurred(shared_anim_started(t, window, file), now)
    } else {
        let u = shared_anim_started(t, window, file);
        if u.v.failed_loads.contains_key(file) {
            St { v: error_shown(u.v, file), ..u }
        } else {
            match sharp_size(u.v, u.s, file) {
                Some(size) => {
                    let shown = loaded_shown(u, file, size);
                    if want_of(u.v.cache, file) == Some(Tier::Full) {
                        shown
                    } else {
                        shown.act(Action::PromoteLater { file })
                    }
                },
                None => load_fired(blurred(u, now), window, file, Tier::Full),
            }
        }
    }
}

/// The filmstrip centered on the cursor, if shown (the cells then in view are
/// reported back and their thumbnails warmed); the info panel's fields fetched,
/// if shown.
#[verifier::opaque]
pub open spec fn panels_updated(t: St) -> St {
    let strip = if t.s.config.value.show_filmstrip {
        let i = t.v.nav.cursor as usize;
        t.act(Action::CenterFilmstrip { index: i })
    } else {
        t
    };
    if t.s.config.value.show_info {
        exif_fired(strip)
    } else {
        strip
    }
}

/// The move to `index` carried out.
#[verifier::opaque]
pub open spec fn navigated(t: St, ctx: Ctx, index: int, bump_generation: bool) -> St {
    let there = pruned(moved(t, index, bump_generation), ctx.window);
    let probed = size_probed(there, there.v.current());
    let shown = current_shown(probed, ctx.window, ctx.now);
    panels_updated(prefetch_fired(shown, ctx.window))
}

/// A navigation request: a step is dropped while a move is pending, a jump to
/// the cursor cancels it, a displayable target is moved to, any other becomes
/// the pending one and is loaded.
pub open spec fn navigate_spec(t: St, ctx: Ctx, target: NavTarget) -> St {
    let index = target_index(t.v.nav, target);
    let file = t.v.nav.files[index];
    if t.v.pending_nav is Some && target is Delta {
        t
    } else if target is Index && index == t.v.nav.cursor {
        St { v: ViewerModel { pending_nav: None, ..t.v }, ..t }
    } else if t.v.displayable(t.s, file) {
        navigated(t, ctx, index, true)
    } else {
        let held = St {
            v: ViewerModel {
                pending_nav: Some(index as usize),
                pending_since: Some(ctx.now),
                ..t.v
            },
            ..t
        };
        load_fired(
            thumb_fired(held, file, ThumbUrgency::Urgent),
            ctx.window,
            file,
            Tier::Full,
        )
    }
}

/// A pending move carried out once its target is displayable. The load in
/// flight for it survives: no generation bump.
pub open spec fn pending_resolved(t: St, ctx: Ctx) -> St {
    match t.v.pending_nav {
        Some(index) if t.v.displayable(t.s, t.v.nav.files[index as int]) => navigated(
            t,
            ctx,
            index as int,
            false,
        ),
        _ => t,
    }
}

pub proof fn lemma_target_in_range(nav: NavModel, target: NavTarget)
    requires
        nav.wf(),
    ensures
        0 <= target_index(nav, target) < nav.files.len(),
{
    let n = nav.files.len() as int;
    vstd::arithmetic::div_mod::lemma_mod_bound(nav.cursor + 1, n);
    vstd::arithmetic::div_mod::lemma_mod_bound(nav.cursor + n - 1, n);
    match target {
        NavTarget::Index(index) => {
            vstd::arithmetic::div_mod::lemma_mod_bound(index as int, n);
        },
        _ => {},
    }
}

pub proof fn lemma_moved(t: St, index: int, bump: bool)
    ensures
        moved(t, index, bump).s == t.s,
        moved(t, index, bump).v.nav == t.v.nav.at(index),
        moved(t, index, bump).v.pending_nav is None,
        moved(t, index, bump).v.rotation == 0,
        moved(t, index, bump).v.failed_loads == t.v.failed_loads,
        moved(t, index, bump).v.source == t.v.source,
{
    reveal(moved);
}

proof fn lemma_pruned(t: St, window: u64)
    ensures
        same_screen(t, pruned(t, window)),
{
    reveal(pruned);
}

proof fn lemma_current_shown(t: St, window: u64, now: Instant)
    ensures
        kept(t, current_shown(t, window, now)),
        ({
            let v = current_shown(t, window, now).v;
            v.displayed_path == Some(t.v.current()) || (v.displayed_path is None
                && v.displayed is Nothing)
        }),
{
    reveal(current_shown);
    let file = t.v.current();
    let u = shared_anim_started(t, window, file);
    lemma_anim_frame(t, window, file);
    lemma_placeholder_frame(awaiting(t, now), file);
    lemma_placeholder_frame(awaiting(u, now), file);
    lemma_video_frame(blurred(t, now), file, now);
    lemma_load_frame(blurred(u, now), window, file, Tier::Full);
    match sharp_size(u.v, u.s, file) {
        Some(size) => {
            lemma_shown_frame(u, file, size);
        },
        None => {},
    }
}

proof fn lemma_panels(t: St)
    ensures
        same_screen(t, panels_updated(t)),
{
    reveal(panels_updated);
    lemma_exif_frame(t.act(Action::CenterFilmstrip { index: t.v.nav.cursor as usize }));
    lemma_exif_frame(t);
}

/// A completed move changes the cursor and nothing else of the listing, leaves
/// no move pending, and puts the file under the cursor on screen or nothing.
pub proof fn lemma_navigated(t: St, ctx: Ctx, index: int, bump: bool)
    requires
        t.v.wf(),
        0 <= index < t.v.nav.files.len(),
    ensures
        ({
            let after = navigated(t, ctx, index, bump);
            &&& after.v.wf()
            &&& after.v.nav == t.v.nav.at(index)
            &&& after.v.pending_nav is None
            &&& after.v.failed_loads == t.v.failed_loads
            &&& after.v.source == t.v.source
            &&& after.s.paths == t.s.paths
            &&& after.s.config == t.s.config
            &&& after.s.status == t.s.status
            &&& after.s.thumbs == t.s.thumbs
            &&& after.v.displayed_path == Some(after.v.current()) || (
            after.v.displayed_path is None && after.v.displayed is Nothing)
        }),
{
    reveal(navigated);
    let there = pruned(moved(t, index, bump), ctx.window);
    let probed = size_probed(there, there.v.current());
    let shown = current_shown(probed, ctx.window, ctx.now);
    lemma_moved(t, index, bump);
    lemma_pruned(moved(t, index, bump), ctx.window);
    lemma_probe_frame(there, there.v.current());
    lemma_current_shown(probed, ctx.window, ctx.now);
    lemma_prefetch_frame(shown, ctx.window);
    lemma_panels(prefetch_fired(shown, ctx.window));
}

/// Let go of everything held outside the prefetch window.
fn prune(viewer: &mut Viewer, shared: &mut Shared, window: u64)
    requires
        old(viewer)@.wf(),
    ensures
        forall|out: Seq<Action>|
            #![trigger st(old(viewer)@, old(shared)@, out)]
            st(final(viewer)@, final(shared)@, out) == pruned(
                st(old(viewer)@, old(shared)@, out),
                window,
            ),
{
    proof {
        reveal(pruned);
    }
    let keep = viewer.pinned_paths(shared.config.value.prefetch_depth);
    viewer.anim_player.prune_cache(&keep, window, &mut shared.anim_store);
    let gone = viewer.cache.retain(&keep);
    release_stills(&gone, window, &mut shared.store);
}

/// Put the current file on screen as well as it can be right now.
fn show_current(
    viewer: &mut Viewer,
    shared: &mut Shared,
    window: u64,
    now: Instant,
    out: &mut Vec<Action>,
)
    requires
        old(viewer)@.wf(),
    ensures
        st(final(viewer)@, final(shared)@, final(out)@) == current_shown(
            st(old(viewer)@, old(shared)@, old(out)@),
            window,
            now,
        ),
{
    proof {
        reveal(current_shown);
        lemma_anim_frame(st(viewer@, shared@, out@), window, viewer@.current());
    }
    let file = viewer.nav.current();
    if shared.paths.is_video(file) {
        viewer.pending_since = Some(now);
        show_placeholder_or_clear(viewer, shared, file, out);
        start_video(viewer, shared, file, now, out);
    } else if try_start_shared_anim(viewer, shared, window, file, out) {
        viewer.pending_since = Some(now);
        show_placeholder_or_clear(viewer, shared, file, out);
    } else {
        match viewer.failed_loads.get(&file) {
            Some(message) => {
                viewer.displayed = DisplayedImage::Error { message: message.clone() };
                viewer.displayed_path = Some(file);
                viewer.pending_since = None;
            },
            None => {
                let sharp: Option<(u32, u32)> = if viewer.has_resident_texture(shared, file) {
                    match shared.store.ram(file) {
                        Some(ram) => Some((ram.width, ram.height)),
                        None => None,
                    }
                } else {
                    None
                };
                match sharp {
                    Some(size) => {
                        let full: bool = viewer.cache.want_of(file) == Some(Tier::Full);
                        show_loaded(viewer, shared, file, size, out);
                        if !full {
                            out.push(Action::PromoteLater { file });
                        }
                    },
                    None => {
                        viewer.pending_since = Some(now);
                        show_placeholder_or_clear(viewer, shared, file, out);
                        fire_load(viewer, shared, window, file, Tier::Full, out);
                    },
                }
            },
        }
    }
}

/// Move the cursor to `index`, then update display, prefetch, leases, and
/// filmstrip.
pub fn complete_navigation(
    viewer: &mut Viewer,
    shared: &mut Shared,
    ctx: Ctx,
    index: usize,
    bump_generation: bool,
    out: &mut Vec<Action>,
)
    requires
        old(viewer)@.wf(),
        index < old(viewer)@.nav.files.len(),
    ensures
        st(final(viewer)@, final(shared)@, final(out)@) == navigated(
            st(old(viewer)@, old(shared)@, old(out)@),
            ctx,
            index as int,
            bump_generation,
        ),
        final(viewer)@.wf(),
{
    let ghost before = st(viewer@, shared@, out@);
    depart(viewer, shared, index, bump_generation, out);
    proof {
        lemma_navigated(before, ctx, index as int, bump_generation);
        lemma_moved(before, index as int, bump_generation);
        lemma_pruned(moved(before, index as int, bump_generation), ctx.window);
        reveal(navigated);
    }
    prune(viewer, shared, ctx.window);
    let ghost there = st(viewer@, shared@, out@);
    assert(there == pruned(moved(before, index as int, bump_generation), ctx.window));
    let file = viewer.nav.current();
    probe_size(viewer, shared, file, out);
    let ghost probed = st(viewer@, shared@, out@);
    proof {
        lemma_probe_frame(there, file);
        lemma_current_shown(probed, ctx.window, ctx.now);
    }
    show_current(viewer, shared, ctx.window, ctx.now, out);
    proof {
        lemma_prefetch_frame(st(viewer@, shared@, out@), ctx.window);
    }
    fire_prefetch(viewer, shared, ctx.window, out);
    update_panels(viewer, shared, out);
}

/// Move the cursor and reset everything of the old position.
fn depart(
    viewer: &mut Viewer,
    shared: &Shared,
    index: usize,
    bump_generation: bool,
    out: &mut Vec<Action>,
)
    requires
        old(viewer)@.wf(),
        index < old(viewer)@.nav.files.len(),
    ensures
        st(final(viewer)@, shared@, final(out)@) == moved(
            st(old(viewer)@, shared@, old(out)@),
            index as int,
            bump_generation,
        ),
        final(viewer)@.wf(),
{
    proof {
        reveal(moved);
    }
    viewer.nav.set_cursor(index);
    viewer.pending_nav = None;
    if bump_generation {
        out.push(Action::BumpGeneration);
        viewer.in_flight_thumbs.clear();
    }
    viewer.anim_player.stop();
    viewer.video.reset();
    viewer.dragging = false;
    out.push(Action::ResetPan);
    if shared.config.value.zoom_mode != ZoomMode::LockZoomRatio {
        viewer.manual_zoom = false;
    }
    viewer.current_file_size = None;
    viewer.rotation = 0;
    viewer.displayed_rotation = 0;
}

/// Recenter the filmstrip and refresh the info panel, as far as they show.
fn update_panels(viewer: &mut Viewer, shared: &Shared, out: &mut Vec<Action>)
    requires
        old(viewer)@.wf(),
    ensures
        st(final(viewer)@, shared@, final(out)@) == panels_updated(
            st(old(viewer)@, shared@, old(out)@),
        ),
{
    proof {
        reveal(panels_updated);
    }
    let ghost before = st(viewer@, shared@, out@);
    if shared.config.value.show_filmstrip {
        let i: usize = viewer.nav.cursor();
        out.push(Action::CenterFilmstrip { index: i });
    }
    if shared.config.value.show_info {
        let ghost strip = st(viewer@, shared@, out@);
        fire_exif(viewer, out);
        assert(st(viewer@, shared@, out@) == exif_fired(strip));
    }
}

/// Move one step or to an absolute index. Never waits on anything.
pub fn navigate(
    viewer: &mut Viewer,
    shared: &mut Shared,
    ctx: Ctx,
    target: NavTarget,
    out: &mut Vec<Action>,
)
    requires
        old(viewer)@.wf(),
    ensures
        st(final(viewer)@, final(shared)@, final(out)@) == navigate_spec(
            st(old(viewer)@, old(shared)@, old(out)@),
            ctx,
            target,
        ),
        final(viewer)@.wf(),
{
    proof {
        lemma_target_in_range(viewer@.nav, target);
    }
    let index: usize = match target {
        NavTarget::Delta(direction) => {
            if viewer.pending_nav.is_some() {
                return ;
            }
            match direction {
                Direction::Forward => viewer.nav.next_index(),
                Direction::Backward => viewer.nav.prev_index(),
            }
        },
        NavTarget::Index(index) => {
            let index: usize = index % viewer.nav.len();
            if index == viewer.nav.cursor() {
                viewer.pending_nav = None;
                return ;
            }
            index
        },
    };
    let file = viewer.nav.files[index];
    if viewer.displayable(shared, file) {
        complete_navigation(viewer, shared, ctx, index, true, out);
        return ;
    }
    viewer.pending_nav = Some(index);
    viewer.pending_since = Some(ctx.now);
    proof {
        let held = st(viewer@, shared@, out@);
        lemma_thumb_frame(held, file, ThumbUrgency::Urgent);
        lemma_load_frame(
            thumb_fired(held, file, ThumbUrgency::Urgent),
            ctx.window,
            file,
            Tier::Full,
        );
    }
    fire_thumb(viewer, shared, file, ThumbUrgency::Urgent, out);
    fire_load(viewer, shared, ctx.window, file, Tier::Full, out);
}

/// Finish a pending move whose target became displayable.
pub fn resolve_pending_nav(
    viewer: &mut Viewer,
    shared: &mut Shared,
    ctx: Ctx,
    out: &mut Vec<Action>,
)
    requires
        old(viewer)@.wf(),
    ensures
        st(final(viewer)@, final(shared)@, final(out)@) == pending_resolved(
            st(old(viewer)@, old(shared)@, old(out)@),
            ctx,
        ),
        final(viewer)@.wf(),
{
    match viewer.pending_nav {
        Some(index) => {
            let file = viewer.nav.files[index];
            if viewer.displayable(shared, file) {
                complete_navigation(viewer, shared, ctx, index, false, out);
            }
        },
        None => {},
    }
}

/// A step of a slider drag: the display, the title, and the cursor move
/// together, and nothing is loaded or probed.
#[verifier::opaque]
pub open spec fn scrubbed(t: St, index: int, now: Instant) -> St {
    let base = moved(t, index, false);
    let there = St { v: ViewerModel { exif: None, ..base.v }, ..base };
    let file = there.v.current();
    match sharp_size(there.v, there.s, file) {
        Some(size) => loaded_shown(there, file, size),
        None => blurred(there, now),
    }
}

/// Mid-drag step onto a loaded file.
pub fn scrub_to(
    viewer: &mut Viewer,
    shared: &Shared,
    index: usize,
    now: Instant,
    out: &mut Vec<Action>,
)
    requires
        old(viewer)@.wf(),
        index < old(viewer)@.nav.files.len(),
    ensures
        st(final(viewer)@, shared@, final(out)@) == scrubbed(
            st(old(viewer)@, shared@, old(out)@),
            index as int,
            now,
        ),
        final(viewer)@.wf(),
{
    proof {
        reveal(scrubbed);
    }
    let ghost before = st(viewer@, shared@, out@);
    depart(viewer, shared, index, false, out);
    proof {
        lemma_moved(before, index as int, false);
    }
    viewer.exif = None;
    let ghost there = st(viewer@, shared@, out@);
    let file = viewer.nav.current();
    let sharp: Option<(u32, u32)> = if viewer.has_resident_texture(shared, file) {
        match shared.store.ram(file) {
            Some(ram) => Some((ram.width, ram.height)),
            None => None,
        }
    } else {
        None
    };
    match sharp {
        Some(size) => {
            proof {
                lemma_shown_frame(there, file, size);
            }
            show_loaded(viewer, shared, file, size, out);
        },
        None => {
            proof {
                lemma_placeholder_frame(awaiting(there, now), file);
            }
            viewer.pending_since = Some(now);
            show_placeholder_or_clear(viewer, shared, file, out);
        },
    }
}

/// Whether a sort by `key` needs dates or sizes.
pub open spec fn needs_metadata(key: SortKey) -> bool {
    key is DateModified || key is Size
}

/// Re-sort the listing by the configured key. Metadata is fetched only when
/// the key needs it.
pub fn fire_resort(config: &Config, out: &mut Vec<Action>)
    ensures
        final(out)@ == old(out)@.push(
            Action::Resort { needs_metadata: needs_metadata(config.sort_key) },
        ),
{
    let needs: bool = config.sort_key == SortKey::DateModified || config.sort_key == SortKey::Size;
    out.push(Action::Resort { needs_metadata: needs });
}

/// The first image of a freshly opened listing requested: a video starts, an
/// image gets an urgent thumbnail and its full load.
#[verifier::opaque]
pub open spec fn first_requested(t: St, ctx: Ctx) -> St {
    let file = t.v.current();
    if is_video(t.s.paths, file) {
        video_started(t, file, ctx.now)
    } else {
        load_fired(
            thumb_fired(t, file, ThumbUrgency::Urgent),
            ctx.window,
            file,
            Tier::Full,
        )
    }
}

/// A fresh viewer over `nav` with its initial loads fired.
#[verifier::opaque]
pub open spec fn opened(
    nav: NavModel,
    source: Source,
    opened_container: bool,
    s: SharedModel,
    ctx: Ctx,
    out: Seq<Action>,
) -> St {
    let fresh = st(fresh_viewer(nav, source, ctx.now), s, out);
    let reconciled = if s.status.value.disk_store {
        fresh.act(Action::ReconcileDiskThumbs)
    } else {
        fresh
    };
    let probed = size_probed(reconciled, nav.current());
    let warmed = prefetch_fired(first_requested(probed, ctx), ctx.window);
    let row = thumbs_fired(warmed, visible_files(warmed.v, ctx.visible));
    let walked = thumbnailer_fired(row, ctx.visible, 3);
    let marked = St {
        v: ViewerModel { resort_to_first: opened_container, ..walked.v },
        ..walked
    };
    let sorted = if s.config.value.sort_key != SortKey::Name || s.config.value.sort_desc {
        marked.act(Action::Resort { needs_metadata: needs_metadata(s.config.value.sort_key) })
    } else {
        marked
    };
    if s.config.value.show_info {
        exif_fired(sorted)
    } else {
        sorted
    }
}

/// Build a fresh viewer over `nav` and fire the initial loads. A custom sort
/// is applied once its metadata is gathered.
pub fn open_viewer(
    nav: Nav,
    source: Source,
    opened_container: bool,
    shared: &mut Shared,
    ctx: Ctx,
    out: &mut Vec<Action>,
) -> (viewer: Viewer)
    requires
        nav@.wf(),
    ensures
        st(viewer@, final(shared)@, final(out)@) == opened(
            nav@,
            source,
            opened_container,
            old(shared)@,
            ctx,
            old(out)@,
        ),
        viewer@.wf(),
{
    proof {
        reveal(opened);
    }
    if shared.status.value.disk_store {
        out.push(Action::ReconcileDiskThumbs);
    }
    let mut viewer = Viewer::new(nav, source, ctx.now);
    let file = viewer.nav.current();
    let ghost fresh = st(viewer@, shared@, out@);
    probe_size(&mut viewer, shared, file, out);
    let ghost probed = st(viewer@, shared@, out@);
    proof {
        lemma_probe_frame(fresh, file);
        lemma_first_requested(probed, ctx);
    }
    request_first(&mut viewer, shared, ctx, out);
    proof {
        lemma_prefetch_frame(st(viewer@, shared@, out@), ctx.window);
    }
    fire_prefetch(&mut viewer, shared, ctx.window, out);
    let ghost warmed = st(viewer@, shared@, out@);
    proof {
        lemma_thumbs_frame(warmed, visible_files(warmed.v, ctx.visible));
    }
    fire_visible_thumbs(&mut viewer, shared, ctx.visible, out);
    let ghost row = st(viewer@, shared@, out@);
    fire_thumbnailer(&mut viewer, shared, ctx.visible, 3, out);
    proof {
        lemma_thumbnailer_frame(row, ctx.visible, 3);
    }
    viewer.resort_to_first = opened_container;
    if shared.config.value.sort_key != SortKey::Name || shared.config.value.sort_desc {
        fire_resort(&shared.config.value, out);
    }
    if shared.config.value.show_info {
        let ghost sorted = st(viewer@, shared@, out@);
        fire_exif(&mut viewer, out);
        assert(st(viewer@, shared@, out@) == exif_fired(sorted));
        proof {
            lemma_exif_frame(sorted);
        }
    }
    viewer
}

pub proof fn lemma_first_requested(t: St, ctx: Ctx)
    ensures
        same_screen(t, first_requested(t, ctx)),
{
    reveal(first_requested);
    let file = t.v.current();
    lemma_video_frame(t, file, ctx.now);
    lemma_thumb_frame(t, file, ThumbUrgency::Urgent);
    lemma_load_frame(
        thumb_fired(t, file, ThumbUrgency::Urgent),
        ctx.window,
        file,
        Tier::Full,
    );
}

/// Request the file under the cursor of a freshly opened listing.
fn request_first(viewer: &mut Viewer, shared: &mut Shared, ctx: Ctx, out: &mut Vec<Action>)
    requires
        old(viewer)@.wf(),
    ensures
        st(final(viewer)@, final(shared)@, final(out)@) == first_requested(
            st(old(viewer)@, old(shared)@, old(out)@),
            ctx,
        ),
{
    proof {
        reveal(first_requested);
    }
    let file = viewer.nav.current();
    if shared.paths.is_video(file) {
        start_video(viewer, shared, file, ctx.now, out);
    } else {
        fire_thumb(viewer, shared, file, ThumbUrgency::Urgent, out);
        fire_load(viewer, shared, ctx.window, file, Tier::Full, out);
    }
}

/// How a path is opened: an archive is indexed, anything else leads to a
/// directory scan.
pub open spec fn open_action(s: SharedModel, file: FileId) -> Action {
    if has_extension(name_part(path_text(s.paths, file), s.paths.style), archive_extensions()) {
        Action::ScanArchive { file }
    } else {
        Action::ScanDirectory { file }
    }
}

/// Start opening a path from a drop, a dialog, or the command line.
pub fn open_path(shared: &Shared, file: FileId, out: &mut Vec<Action>)
    ensures
        final(out)@ == old(out)@.push(open_action(shared@, file)),
{
    let path = shared.paths.path(file);
    if is_archive(path.as_str(), shared.paths.style) {
        out.push(Action::ScanArchive { file });
    } else {
        out.push(Action::ScanDirectory { file });
    }
}

/// The listing swapped for `files`, with a pending move still aimed at the
/// same file, or abandoned if that file is gone.
pub open spec fn files_replaced(v: ViewerModel, files: Seq<FileId>) -> ViewerModel {
    let nav = v.nav.replaced(files);
    ViewerModel {
        nav,
        pending_nav: match v.pending_nav {
            Some(i) => match nav.files.index_of_first(v.nav.files[i as int]) {
                Some(j) => Some(j as usize),
                None => None,
            },
            None => None,
        },
        ..v
    }
}

/// Swap in a reordered listing, keeping a pending move aimed at the same file.
pub fn replace_files_keeping_pending(viewer: &mut Viewer, files: Vec<FileId>)
    requires
        old(viewer)@.wf(),
    ensures
        final(viewer)@ == files_replaced(old(viewer)@, files@),
        final(viewer)@.wf(),
{
    let pending: Option<FileId> = match viewer.pending_nav {
        Some(i) => Some(viewer.nav.files[i]),
        None => None,
    };
    viewer.nav.replace_files(files);
    viewer.pending_nav = match pending {
        Some(file) => find_file(&viewer.nav.files, file),
        None => None,
    };
}

/// Navigation only ever moves onto something displayable; otherwise the cursor
/// stays and the target is pending.
pub proof fn law_cursor_moves_only_onto_displayable(t: St, ctx: Ctx, target: NavTarget)
    requires
        t.v.wf(),
        t.v.nav.files.no_duplicates(),
    ensures
        ({
            let after = navigate_spec(t, ctx, target);
            let file = t.v.nav.files[target_index(t.v.nav, target)];
            &&& after.v.nav.files == t.v.nav.files
            &&& after.v.current() != t.v.current() ==> after.v.current() == file
                && t.v.displayable(t.s, file)
            &&& !t.v.displayable(t.s, file) ==> after.v.current() == t.v.current()
        }),
{
    lemma_target_in_range(t.v.nav, target);
    let index = target_index(t.v.nav, target);
    let file = t.v.nav.files[index];
    lemma_navigated(t, ctx, index, true);
    let held = St {
        v: ViewerModel {
            pending_nav: Some(index as usize),
            pending_since: Some(ctx.now),
            ..t.v
        },
        ..t
    };
    lemma_thumb_frame(held, file, ThumbUrgency::Urgent);
    lemma_load_frame(
        thumb_fired(held, file, ThumbUrgency::Urgent),
        ctx.window,
        file,
        Tier::Full,
    );
}

/// After a completed move the image area shows the file under the cursor or
/// nothing: never a previous image.
pub proof fn law_display_follows_cursor(t: St, ctx: Ctx, index: int, bump: bool)
    requires
        t.v.wf(),
        0 <= index < t.v.nav.files.len(),
    ensures
        ({
            let after = navigated(t, ctx, index, bump);
            ||| after.v.displayed_path == Some(after.v.current())
            ||| after.v.displayed_path is None && after.v.displayed is Nothing
        }),
{
    lemma_navigated(t, ctx, index, bump);
}

/// A reordering keeps the cursor and a pending move on their files, as long as
/// those are still listed.
pub proof fn law_resort_keeps_files(v: ViewerModel, files: Seq<FileId>)
    requires
        v.wf(),
        0 < files.len() <= usize::MAX,
        files.contains(v.current()),
    ensures
        files_replaced(v, files).current() == v.current(),
        v.pending_nav is Some && files.contains(v.nav.files[v.pending_nav->0 as int])
            ==> files_replaced(v, files).pending_nav is Some && files[files_replaced(
            v,
            files,
        ).pending_nav->0 as int] == v.nav.files[v.pending_nav->0 as int],
        v.pending_nav is Some && !files.contains(v.nav.files[v.pending_nav->0 as int])
            ==> files_replaced(v, files).pending_nav is None,
{
    files.index_of_first_ensures(v.current());
    if v.pending_nav is Some {
        files.index_of_first_ensures(v.nav.files[v.pending_nav->0 as int]);
    }
}

} // verus!
