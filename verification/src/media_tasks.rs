//! Media work fired from the handlers: loads and prefetch, thumbnails, and
//! metadata probes, plus what goes on screen meanwhile.
use crate::actions::{Action, JobZoom, Lane, ThumbUrgency};
use crate::anim::AnimModel;
use crate::config::{Config, PrefetchScaler, PrefetchVram, ZoomMode};
use crate::files::FileId;
use crate::leases::{holds, leased, want_of};
use crate::paths::{is_video, Source};
use crate::state::{
    DisplayedImage, DisplayedModel, Shared, SharedModel, Span, Status, Thumb, Viewer, ViewerModel,
};
use crate::store::{Job, Tier};
use crate::time::Instant;
use vstd::prelude::*;

verus! {

/// What a handler knows of the moment it runs in.
#[derive(Clone, Copy, PartialEq, Eq, Structural, Debug)]
pub struct Ctx {
    /// The window it runs for.
    pub window: u64,
    pub now: Instant,
    /// The filmstrip cells scrolled into view. For a message that opens a
    /// listing, those of its strip at rest.
    pub visible: Span,
}

/// A viewer, the shared state, and the actions asked for so far.
pub struct St {
    pub v: ViewerModel,
    pub s: SharedModel,
    pub out: Seq<Action>,
}

pub open spec fn st(v: ViewerModel, s: SharedModel, out: Seq<Action>) -> St {
    St { v, s, out }
}

impl St {
    pub open spec fn act(self, action: Action) -> St {
        St { out: self.out.push(action), ..self }
    }

    /// A store job, if there is one.
    pub open spec fn run(self, job: Option<Job>, lane: Lane, zoom: JobZoom) -> St {
        match job {
            Some(job) => self.act(Action::RunJob { job, lane, zoom }),
            None => self,
        }
    }
}

/// The store tier a prefetched neighbor is held at.
pub open spec fn prefetch_tier(prefetch_vram: PrefetchVram) -> Tier {
    match prefetch_vram {
        PrefetchVram::FullRes => Tier::Full,
        PrefetchVram::ViewRes => Tier::View,
        PrefetchVram::RamOnly => Tier::InRam,
    }
}

/// The store tier a prefetched neighbor is held at: a full-resolution texture,
/// a downscaled one, or decoded pixels only.
pub fn prefetch_want(prefetch_vram: PrefetchVram) -> (tier: Tier)
    ensures
        tier == prefetch_tier(prefetch_vram),
{
    match prefetch_vram {
        PrefetchVram::FullRes => Tier::Full,
        PrefetchVram::ViewRes => Tier::View,
        PrefetchVram::RamOnly => Tier::InRam,
    }
}

pub open spec fn lane_of(want: Tier) -> Lane {
    if want is Full {
        Lane::Current
    } else {
        Lane::Prefetch
    }
}

/// The decode lane for a wanted tier: the on-screen image wants full
/// resolution and is urgent, a neighbor rides the background lane.
pub fn lane_for(want: Tier) -> (lane: Lane)
    ensures
        lane == lane_of(want),
{
    if want == Tier::Full {
        Lane::Current
    } else {
        Lane::Prefetch
    }
}

/// Adopt the configured prefetch scaler.
pub fn set_prefetch_scaler(status: &mut Status, scaler: PrefetchScaler)
    ensures
        *final(status) == (Status { prefetch_gpu_bake: scaler is Gpu, ..*old(status) }),
{
    status.prefetch_gpu_bake = scaler == PrefetchScaler::Gpu;
}

/// Run a store job, if there is one.
pub fn run_job(job: Option<Job>, lane: Lane, zoom: JobZoom, out: &mut Vec<Action>)
    ensures
        final(out)@ == match job {
            Some(job) => old(out)@.push(Action::RunJob { job, lane, zoom }),
            None => old(out)@,
        },
{
    match job {
        Some(job) => {
            out.push(Action::RunJob { job, lane, zoom });
        },
        None => {},
    }
}

/// Whether an image newly shown gets the zoom its mode chooses. A zoom set by
/// hand survives only while the zoom ratio is locked.
pub open spec fn refits(v: ViewerModel, config: Config) -> bool {
    !v.manual_zoom || config.zoom_mode != ZoomMode::LockZoomRatio
}

pub open spec fn fitted(t: St, size: (u32, u32)) -> St {
    if refits(t.v, t.s.config.value) {
        t.act(Action::FitZoom { width: size.0, height: size.1 })
    } else {
        t
    }
}

pub fn fit(viewer: &Viewer, shared: &Shared, size: (u32, u32), out: &mut Vec<Action>)
    ensures
        st(viewer@, shared@, final(out)@) == fitted(st(viewer@, shared@, old(out)@), size),
{
    if !viewer.manual_zoom || shared.config.value.zoom_mode != ZoomMode::LockZoomRatio {
        out.push(Action::FitZoom { width: size.0, height: size.1 });
    }
}

/// `file` on screen as a sharp still of this size. The zoom and pan of an
/// image already on screen, blurred or sharp, are left alone.
#[verifier::opaque]
pub open spec fn loaded_shown(t: St, file: FileId, size: (u32, u32)) -> St {
    let resuming = t.v.displayed_path == Some(file) && (t.v.displayed is Placeholder
        || t.v.displayed is Full);
    let fit = if resuming {
        t
    } else {
        fitted(t, size).act(Action::ResetPan)
    };
    St {
        v: ViewerModel {
            displayed: DisplayedModel::Full { original_size: size, rotated: None },
            displayed_path: Some(file),
            pending_since: None,
            ..fit.v
        },
        ..fit
    }
}

/// Put a loaded still on screen.
pub fn show_loaded(
    viewer: &mut Viewer,
    shared: &Shared,
    file: FileId,
    size: (u32, u32),
    out: &mut Vec<Action>,
)
    ensures
        st(final(viewer)@, shared@, final(out)@) == loaded_shown(
            st(old(viewer)@, shared@, old(out)@),
            file,
            size,
        ),
{
    proof {
        reveal(loaded_shown);
    }
    let resuming: bool = viewer.displayed_path == Some(file) && match viewer.displayed {
        DisplayedImage::Placeholder(_) | DisplayedImage::Full { .. } => true,
        _ => false,
    };
    if !resuming {
        fit(viewer, shared, size, out);
        out.push(Action::ResetPan);
    }
    viewer.displayed = DisplayedImage::Full { original_size: size, rotated: None };
    viewer.displayed_path = Some(file);
    viewer.pending_since = None;
}

/// `file` on screen as its blurred thumbnail. The load stays pending.
#[verifier::opaque]
pub open spec fn placeholder_shown(t: St, file: FileId, thumb: Thumb) -> St {
    let fit = fitted(t, thumb.original_size).act(Action::ResetPan);
    St {
        v: ViewerModel {
            displayed: DisplayedModel::Placeholder(thumb),
            displayed_path: Some(file),
            ..fit.v
        },
        ..fit
    }
}

/// Show a thumbnail while the full image loads. The zoom follows the true
/// dimensions, so nothing jumps when the full image swaps in.
pub fn show_placeholder(
    viewer: &mut Viewer,
    shared: &Shared,
    file: FileId,
    thumb: Thumb,
    out: &mut Vec<Action>,
)
    ensures
        st(final(viewer)@, shared@, final(out)@) == placeholder_shown(
            st(old(viewer)@, shared@, old(out)@),
            file,
            thumb,
        ),
{
    proof {
        reveal(placeholder_shown);
    }
    fit(viewer, shared, thumb.original_size, out);
    out.push(Action::ResetPan);
    viewer.displayed = DisplayedImage::Placeholder(thumb);
    viewer.displayed_path = Some(file);
}

#[verifier::opaque]
pub open spec fn placeholder_or_clear(t: St, file: FileId) -> St {
    if t.s.thumbs.contains_key(file) {
        placeholder_shown(t, file, t.s.thumbs.at(file))
    } else {
        St {
            v: ViewerModel {
                displayed: DisplayedModel::Nothing,
                displayed_path: None,
                ..t.v
            },
            ..t
        }
    }
}

/// Show the thumbnail of `file` if there is one, else clear the image area.
/// Either way it no longer shows a previous image. Returns true when a
/// placeholder was shown.
pub fn show_placeholder_or_clear(
    viewer: &mut Viewer,
    shared: &Shared,
    file: FileId,
    out: &mut Vec<Action>,
) -> (shown: bool)
    ensures
        st(final(viewer)@, shared@, final(out)@) == placeholder_or_clear(
            st(old(viewer)@, shared@, old(out)@),
            file,
        ),
        shown == shared@.thumbs.contains_key(file),
{
    proof {
        reveal(placeholder_or_clear);
    }
    match shared.thumbs.get(file) {
        Some(thumb) => {
            show_placeholder(viewer, shared, file, thumb, out);
            true
        },
        None => {
            viewer.displayed = DisplayedImage::Nothing;
            viewer.displayed_path = None;
            false
        },
    }
}

/// The tier a load of `file` asks for: at least what is already held.
pub open spec fn raised(v: ViewerModel, file: FileId, want: Tier) -> Tier {
    match want_of(v.cache, file) {
        Some(held) => want.max_spec(held),
        None => want,
    }
}

/// `file` claimed at `want` or what it is already held at, whichever is
/// higher, with whatever job that misses fired. A first claim whose decode is
/// fired marks the file as loading. Animations at hand and videos need none of
/// this.
#[verifier::opaque]
pub open spec fn load_fired(t: St, window: u64, file: FileId, want: Tier) -> St {
    if t.v.anim.has_cached(t.s.anims, file) || is_video(t.s.paths, file) {
        t
    } else {
        let tier = raised(t.v, file, want);
        let claimed = t.s.store.claim(window, file, tier);
        let job = claimed.missing_job(file);
        St {
            v: ViewerModel {
                cache: leased(t.v.cache, file, tier),
                in_flight: if !holds(t.v.cache, file) && job is Some && job->0 is Decode {
                    t.v.in_flight.insert(file)
                } else {
                    t.v.in_flight
                },
                ..t.v
            },
            s: SharedModel { store: claimed.settled(file), ..t.s },
            out: t.out,
        }.run(job, lane_of(want), JobZoom::Fit)
    }
}

/// Claim `file` from the store at `want` for this window, firing whatever
/// decode or upload the store asks for. The store dedups across windows.
pub fn fire_load(
    viewer: &mut Viewer,
    shared: &mut Shared,
    window: u64,
    file: FileId,
    want: Tier,
    out: &mut Vec<Action>,
)
    ensures
        st(final(viewer)@, final(shared)@, final(out)@) == load_fired(
            st(old(viewer)@, old(shared)@, old(out)@),
            window,
            file,
            want,
        ),
{
    proof {
        reveal(load_fired);
    }
    if viewer.anim_player.has_cached(file, &shared.anim_store) || shared.paths.is_video(file) {
        return ;
    }
    let lane = lane_for(want);
    let held = viewer.cache.want_of(file);
    let tier = match held {
        Some(held) => want.max(held),
        None => want,
    };
    let job = shared.store.request(window, file, tier);
    if held.is_none() {
        match job {
            Some(Job::Decode { .. }) => {
                viewer.in_flight.insert(file);
            },
            _ => {},
        }
    }
    viewer.cache.insert(file, tier);
    run_job(job, lane, JobZoom::Fit, out);
}

/// [`load_fired`] for each of `files` in turn.
#[verifier::opaque]
pub open spec fn loads_fired(t: St, window: u64, files: Seq<FileId>, want: Tier) -> St
    decreases files.len(),
{
    if files.len() == 0 {
        t
    } else {
        load_fired(loads_fired(t, window, files.drop_last(), want), window, files.last(), want)
    }
}

/// The neighbors within the configured depth, warmed at the configured tier.
#[verifier::opaque]
pub open spec fn prefetch_fired(t: St, window: u64) -> St {
    loads_fired(
        t,
        window,
        t.v.nav.around(t.s.config.value.prefetch_depth as nat),
        prefetch_tier(t.s.config.value.resource.value.prefetch_vram),
    )
}

/// Warm the prefetch window around the cursor.
pub fn fire_prefetch(
    viewer: &mut Viewer,
    shared: &mut Shared,
    window: u64,
    out: &mut Vec<Action>,
)
    requires
        old(viewer)@.wf(),
    ensures
        st(final(viewer)@, final(shared)@, final(out)@) == prefetch_fired(
            st(old(viewer)@, old(shared)@, old(out)@),
            window,
        ),
{
    proof {
        reveal(prefetch_fired);
        reveal(loads_fired);
    }
    let want = prefetch_want(shared.config.value.resource.value.prefetch_vram);
    let files = viewer.nav.peek_around(shared.config.value.prefetch_depth);
    let ghost before = st(viewer@, shared@, out@);
    let mut i: usize = 0;
    assert(files@.take(0) =~= Seq::empty());
    while i < files.len()
        invariant
            i <= files@.len(),
            st(viewer@, shared@, out@) == loads_fired(
                before,
                window,
                files@.take(i as int),
                want,
            ),
        decreases files@.len() - i,
    {
        proof {
            reveal(loads_fired);
        }
        fire_load(viewer, shared, window, files[i], want, out);
        i = i + 1;
        assert(files@.take(i as int).drop_last() =~= files@.take(i - 1));
    }
    assert(files@.take(i as int) =~= files@);
}

/// `b` shows the same listing, cursor, pending move, and rotation as `a`, under
/// the same settings.
pub open spec fn kept(a: St, b: St) -> bool {
    &&& b.v.nav == a.v.nav
    &&& b.v.source == a.v.source
    &&& b.v.pending_nav == a.v.pending_nav
    &&& b.v.rotation == a.v.rotation
    &&& b.v.failed_loads == a.v.failed_loads
    &&& b.v.manual_zoom == a.v.manual_zoom
    &&& b.v.resort_to_first == a.v.resort_to_first
    &&& b.s.paths == a.s.paths
    &&& b.s.config == a.s.config
    &&& b.s.status == a.s.status
    &&& b.s.thumbs == a.s.thumbs
}

/// `b` moreover has the same image on screen as `a`, awaited just the same.
pub open spec fn same_screen(a: St, b: St) -> bool {
    &&& kept(a, b)
    &&& b.v.displayed == a.v.displayed
    &&& b.v.displayed_path == a.v.displayed_path
    &&& b.v.displayed_rotation == a.v.displayed_rotation
    &&& b.v.pending_since == a.v.pending_since
}

pub proof fn lemma_load_frame(t: St, window: u64, file: FileId, want: Tier)
    ensures
        same_screen(t, load_fired(t, window, file, want)),
        load_fired(t, window, file, want).v.in_flight_thumbs == t.v.in_flight_thumbs,
        load_fired(t, window, file, want).v.anim == t.v.anim,
        load_fired(t, window, file, want).v.video == t.v.video,
        load_fired(t, window, file, want).s.anims == t.s.anims,
{
    reveal(load_fired);
}

pub proof fn lemma_loads_frame(t: St, window: u64, files: Seq<FileId>, want: Tier)
    ensures
        same_screen(t, loads_fired(t, window, files, want)),
        loads_fired(t, window, files, want).v.video == t.v.video,
        loads_fired(t, window, files, want).v.anim == t.v.anim,
    decreases files.len(),
{
    reveal(loads_fired);
    if files.len() > 0 {
        lemma_loads_frame(t, window, files.drop_last(), want);
        lemma_load_frame(
            loads_fired(t, window, files.drop_last(), want),
            window,
            files.last(),
            want,
        );
    }
}

pub proof fn lemma_prefetch_frame(t: St, window: u64)
    ensures
        same_screen(t, prefetch_fired(t, window)),
        prefetch_fired(t, window).v.video == t.v.video,
        prefetch_fired(t, window).v.anim == t.v.anim,
{
    reveal(prefetch_fired);
    lemma_loads_frame(
        t,
        window,
        t.v.nav.around(t.s.config.value.prefetch_depth as nat),
        prefetch_tier(t.s.config.value.resource.value.prefetch_vram),
    );
}

pub proof fn lemma_shown_frame(t: St, file: FileId, size: (u32, u32))
    ensures
        kept(t, loaded_shown(t, file, size)),
        loaded_shown(t, file, size).s == t.s,
        loaded_shown(t, file, size).v.displayed_path == Some(file),
        loaded_shown(t, file, size).v.displayed == (DisplayedModel::Full {
            original_size: size,
            rotated: None,
        }),
        loaded_shown(t, file, size).v.pending_since is None,
{
    reveal(loaded_shown);
}

pub proof fn lemma_placeholder_frame(t: St, file: FileId)
    ensures
        kept(t, placeholder_or_clear(t, file)),
        placeholder_or_clear(t, file).s == t.s,
        placeholder_or_clear(t, file).v.pending_since == t.v.pending_since,
        placeholder_or_clear(t, file).v.displayed_path == Some(file) || (placeholder_or_clear(
            t,
            file,
        ).v.displayed_path is None && placeholder_or_clear(t, file).v.displayed is Nothing),
{
    reveal(placeholder_or_clear);
    reveal(placeholder_shown);
}

pub proof fn lemma_anim_frame(t: St, window: u64, file: FileId)
    ensures
        same_screen(t, shared_anim_started(t, window, file)),
        shared_anim_started(t, window, file).s.store == t.s.store,
        shared_anim_started(t, window, file).v.cache == t.v.cache,
        shared_anim_started(t, window, file).v.video == t.v.video,
{
    reveal(shared_anim_started);
}

pub proof fn lemma_thumb_frame(t: St, file: FileId, urgency: ThumbUrgency)
    ensures
        same_screen(t, thumb_fired(t, file, urgency)),
        thumb_fired(t, file, urgency).s == t.s,
        thumb_fired(t, file, urgency).v == (ViewerModel {
            in_flight_thumbs: thumb_fired(t, file, urgency).v.in_flight_thumbs,
            ..t.v
        }),
{
    reveal(thumb_fired);
}

pub proof fn lemma_probe_frame(t: St, file: FileId)
    ensures
        same_screen(t, size_probed(t, file)),
        size_probed(t, file).s == t.s,
{
    reveal(size_probed);
}

pub proof fn lemma_exif_frame(t: St)
    ensures
        same_screen(t, exif_fired(t)),
        exif_fired(t).s == t.s,
{
    reveal(exif_fired);
}

/// Whether frames of `file` are at hand anywhere, so no decode is needed.
pub open spec fn anim_at_hand(t: St, file: FileId) -> bool {
    t.s.anims.resident(file)
}

/// `file` leased from the shared animation store and playing. A playback that
/// is already on `file` resumes where it is instead of starting over. Without
/// resident frames only a stale lease is dropped.
#[verifier::opaque]
pub open spec fn shared_anim_started(t: St, window: u64, file: FileId) -> St {
    let held = holds(t.v.anim.cache, file);
    let anims = if t.v.anim.has_cached(t.s.anims, file) || !held {
        t.s.anims
    } else {
        t.s.anims.released(window, file)
    };
    let player: AnimModel = if t.v.anim.has_cached(t.s.anims, file) {
        t.v.anim.leasing(file)
    } else if anim_at_hand(t, file) {
        t.v.anim.removed(file).leasing(file)
    } else {
        t.v.anim.removed(file)
    };
    if !anim_at_hand(t, file) {
        St {
            v: ViewerModel { anim: player, ..t.v },
            s: SharedModel { anims, ..t.s },
            ..t
        }
    } else {
        let claimed = anims.claim(window, file, Tier::InRam).settled(file);
        let step = if player.is_active_on(file) {
            player.unchanged()
        } else {
            player.try_started(file, claimed)
        };
        St {
            v: ViewerModel { anim: step.player, ..t.v },
            s: SharedModel { anims: claimed, ..t.s },
            out: t.out + step.acts,
        }
    }
}

/// If the frames of `file` are resident in the shared animation store, lease
/// them and play, with no decode. `false` means they are resident nowhere.
pub fn try_start_shared_anim(
    viewer: &mut Viewer,
    shared: &mut Shared,
    window: u64,
    file: FileId,
    out: &mut Vec<Action>,
) -> (started: bool)
    ensures
        started == anim_at_hand(st(old(viewer)@, old(shared)@, old(out)@), file),
        st(final(viewer)@, final(shared)@, final(out)@) == shared_anim_started(
            st(old(viewer)@, old(shared)@, old(out)@),
            window,
            file,
        ),
{
    proof {
        reveal(shared_anim_started);
    }
    let at_hand = shared.anim_store.resident(file);
    if viewer.anim_player.has_cached(file, &shared.anim_store) {
        shared.anim_store.request(window, file, Tier::InRam);
        viewer.anim_player.retarget(file, Tier::InRam);
    } else {
        viewer.anim_player.remove(file, window, &mut shared.anim_store);
        if !at_hand {
            return false;
        }
        shared.anim_store.request(window, file, Tier::InRam);
        viewer.anim_player.insert(file);
    }
    proof {
        assert(out@ + Seq::<Action>::empty() =~= out@);
    }
    if !viewer.anim_player.is_active_on(file) {
        viewer.anim_player.try_start_from_cache(file, &shared.anim_store, out);
    }
    true
}

pub open spec fn clamped(span: Span, len: int) -> Span {
    let start = if span.start <= len {
        span.start
    } else {
        len as usize
    };
    Span {
        start,
        end: if span.end <= start {
            start
        } else if span.end <= len {
            span.end
        } else {
            len as usize
        },
    }
}

/// Where background thumbnailing aims: the cursor across the whole listing, or
/// the middle of the visible row once the cursor has scrolled off it.
pub open spec fn focus_of(v: ViewerModel, visible: Span, filmstrip_shown: bool) -> (usize, Span) {
    if !filmstrip_shown || visible.has(v.nav.cursor) {
        (v.nav.cursor as usize, Span { start: 0, end: v.nav.files.len() as usize })
    } else {
        let range = clamped(visible, v.nav.files.len() as int);
        ((range.start + (range.end - range.start) / 2) as usize, range)
    }
}

/// Where background thumbnailing aims, as a center and the range around it.
pub fn thumb_focus(viewer: &Viewer, visible: Span, filmstrip_shown: bool) -> (focus: (usize, Span))
    requires
        viewer@.wf(),
    ensures
        focus == focus_of(viewer@, visible, filmstrip_shown),
        focus.1.end <= viewer@.nav.files.len(),
{
    let len: usize = viewer.nav.len();
    let cursor: usize = viewer.nav.cursor();
    if !filmstrip_shown || (visible.start <= cursor && cursor < visible.end) {
        (cursor, Span { start: 0, end: len })
    } else {
        let start: usize = if visible.start <= len {
            visible.start
        } else {
            len
        };
        let end: usize = if visible.end <= start {
            start
        } else if visible.end <= len {
            visible.end
        } else {
            len
        };
        (start + (end - start) / 2, Span { start, end })
    }
}

/// Whether a thumbnail of `file` is cached, in flight, or known to fail.
pub open spec fn thumb_known(v: ViewerModel, s: SharedModel, file: FileId) -> bool {
    s.thumbs.contains_key(file) || v.in_flight_thumbs.contains(file) || v.failed_thumbs.contains(
        file,
    )
}

/// A thumbnail job for `file`, unless one is known or it is a video inside an
/// archive. While a full decode runs only the cheap lookups are worth it.
#[verifier::opaque]
pub open spec fn thumb_fired(t: St, file: FileId, urgency: ThumbUrgency) -> St {
    if thumb_known(t.v, t.s, file) || (is_video(t.s.paths, file) && t.v.source != Source::Fs) {
        t
    } else {
        St {
            v: ViewerModel {
                in_flight_thumbs: t.v.in_flight_thumbs.insert(file),
                ..t.v
            },
            ..t
        }.act(
            Action::LoadThumb {
                file,
                urgency,
                cheap_only: !is_video(t.s.paths, file) && t.v.in_flight.contains(file),
            },
        )
    }
}

/// Fire a thumbnail job for `file` unless one is cached, in flight, or known
/// to fail.
pub fn fire_thumb(
    viewer: &mut Viewer,
    shared: &Shared,
    file: FileId,
    urgency: ThumbUrgency,
    out: &mut Vec<Action>,
)
    ensures
        st(final(viewer)@, shared@, final(out)@) == thumb_fired(
            st(old(viewer)@, shared@, old(out)@),
            file,
            urgency,
        ),
{
    proof {
        reveal(thumb_fired);
    }
    if shared.thumbs.contains_key(file) || viewer.in_flight_thumbs.contains(&file)
        || viewer.failed_thumbs.contains(&file) {
        return ;
    }
    let video = shared.paths.is_video(file);
    if video && viewer.source != Source::Fs {
        return ;
    }
    let cheap_only: bool = !video && viewer.in_flight.contains(&file);
    viewer.in_flight_thumbs.insert(file);
    out.push(Action::LoadThumb { file, urgency, cheap_only });
}

#[verifier::opaque]
pub open spec fn archive_thumb_fired(t: St, file: FileId, temp: u64) -> St {
    if thumb_known(t.v, t.s, file) {
        t
    } else {
        St {
            v: ViewerModel {
                in_flight_thumbs: t.v.in_flight_thumbs.insert(file),
                ..t.v
            },
            ..t
        }.act(Action::LoadArchiveVideoThumb { file, temp })
    }
}

/// Fire a first-frame thumbnail for an archive video from its extracted copy,
/// unless one is cached, in flight, or known to fail.
pub fn fire_archive_video_thumb(
    viewer: &mut Viewer,
    shared: &Shared,
    file: FileId,
    temp: u64,
    out: &mut Vec<Action>,
)
    ensures
        st(final(viewer)@, shared@, final(out)@) == archive_thumb_fired(
            st(old(viewer)@, shared@, old(out)@),
            file,
            temp,
        ),
{
    proof {
        reveal(archive_thumb_fired);
    }
    if shared.thumbs.contains_key(file) || viewer.in_flight_thumbs.contains(&file)
        || viewer.failed_thumbs.contains(&file) {
        return ;
    }
    viewer.in_flight_thumbs.insert(file);
    out.push(Action::LoadArchiveVideoThumb { file, temp });
}

/// Up to `chains` background thumbnail jobs from the current focus, stopping
/// when nothing is left to pick.
#[verifier::opaque]
pub open spec fn thumbnailer_fired(t: St, visible: Span, chains: nat) -> St
    decreases chains,
{
    let (center, range) = focus_of(t.v, visible, t.s.config.value.show_filmstrip);
    if chains == 0 {
        t
    } else {
        let walked = St { v: t.v.scanned(t.s, center, range), ..t };
        match t.v.next_unthumbed(t.s, center, range) {
            Some(file) => thumbnailer_fired(
                thumb_fired(walked, file, ThumbUrgency::Background),
                visible,
                (chains - 1) as nat,
            ),
            None => walked,
        }
    }
}

/// Start or continue background thumbnailing with up to `chains` jobs.
pub fn fire_thumbnailer(
    viewer: &mut Viewer,
    shared: &Shared,
    visible: Span,
    chains: usize,
    out: &mut Vec<Action>,
)
    requires
        old(viewer)@.wf(),
    ensures
        st(final(viewer)@, shared@, final(out)@) == thumbnailer_fired(
            st(old(viewer)@, shared@, old(out)@),
            visible,
            chains as nat,
        ),
        final(viewer)@.wf(),
{
    proof {
        reveal(thumbnailer_fired);
    }
    let mut left: usize = chains;
    let ghost before = st(viewer@, shared@, out@);
    while left > 0
        invariant
            viewer@.wf(),
            before == st(old(viewer)@, shared@, old(out)@),
            thumbnailer_fired(st(viewer@, shared@, out@), visible, left as nat)
                == thumbnailer_fired(before, visible, chains as nat),
        decreases left,
    {
        let (center, range) = thumb_focus(viewer, visible, shared.config.value.show_filmstrip);
        proof {
            reveal(thumbnailer_fired);
            reveal(ViewerModel::scanned);
        }
        match viewer.next_unthumbed_in(shared, center, range) {
            Some(file) => {
                proof {
                    lemma_thumb_frame(
                        st(viewer@, shared@, out@),
                        file,
                        ThumbUrgency::Background,
                    );
                }
                fire_thumb(viewer, shared, file, ThumbUrgency::Background, out);
            },
            None => {
                return ;
            },
        }
        left = left - 1;
    }
}

pub proof fn lemma_thumbnailer_frame(t: St, visible: Span, chains: nat)
    ensures
        same_screen(t, thumbnailer_fired(t, visible, chains)),
        thumbnailer_fired(t, visible, chains).s == t.s,
    decreases chains,
{
    reveal(thumbnailer_fired);
    reveal(ViewerModel::scanned);
    if chains > 0 {
        let (center, range) = focus_of(t.v, visible, t.s.config.value.show_filmstrip);
        let walked = St { v: t.v.scanned(t.s, center, range), ..t };
        match t.v.next_unthumbed(t.s, center, range) {
            Some(file) => {
                lemma_thumb_frame(walked, file, ThumbUrgency::Background);
                lemma_thumbnailer_frame(
                    thumb_fired(walked, file, ThumbUrgency::Background),
                    visible,
                    (chains - 1) as nat,
                );
            },
            None => {},
        }
    }
}

/// A turn of the displayed still to the desired rotation, re-derived from the
/// unrotated original, if its pixels are resident.
#[verifier::opaque]
pub open spec fn rotate_fired(t: St) -> St {
    if t.v.rotation == t.v.displayed_rotation || !(t.v.displayed is Full) || t.s.store.ram(
        t.v.current(),
    ) is None {
        t
    } else {
        t.act(Action::Rotate { file: t.v.current(), turns: t.v.rotation })
    }
}

/// Rotate the displayed image to the desired view rotation.
pub fn fire_rotate(viewer: &Viewer, shared: &Shared, out: &mut Vec<Action>)
    requires
        viewer@.wf(),
    ensures
        st(viewer@, shared@, final(out)@) == rotate_fired(st(viewer@, shared@, old(out)@)),
{
    proof {
        reveal(rotate_fired);
    }
    if viewer.rotation == viewer.displayed_rotation {
        return ;
    }
    match viewer.displayed {
        DisplayedImage::Full { .. } => {
            let file = viewer.nav.current();
            if shared.store.ram(file).is_some() {
                out.push(Action::Rotate { file, turns: viewer.rotation });
            }
        },
        _ => {},
    }
}

/// The info panel's fields: kept if they describe the current file, else
/// cleared and loaded.
#[verifier::opaque]
pub open spec fn exif_fired(t: St) -> St {
    if t.v.exif == Some(t.v.current()) {
        t
    } else {
        St { v: ViewerModel { exif: None, ..t.v }, ..t }.act(
            Action::LoadExif { file: t.v.current() },
        )
    }
}

/// Fetch the info panel's fields for the current image.
pub fn fire_exif(viewer: &mut Viewer, out: &mut Vec<Action>)
    requires
        old(viewer)@.wf(),
    ensures
        forall|s: SharedModel|
            #![trigger st(old(viewer)@, s, old(out)@)]
            st(final(viewer)@, s, final(out)@) == exif_fired(st(old(viewer)@, s, old(out)@)),
{
    proof {
        reveal(exif_fired);
    }
    let file = viewer.nav.current();
    if viewer.exif == Some(file) {
        return ;
    }
    viewer.exif = None;
    out.push(Action::LoadExif { file });
}

/// The byte size of `file`: from the archive's index at once, or probed.
#[verifier::opaque]
pub open spec fn size_probed(t: St, file: FileId) -> St {
    match t.v.source {
        Source::Fs => t.act(Action::ProbeSize { file }),
        Source::Archive(_) => St {
            v: ViewerModel {
                current_file_size: if t.s.entry_sizes.contains_key(file) {
                    Some(t.s.entry_sizes[file])
                } else {
                    None
                },
                ..t.v
            },
            ..t
        },
    }
}

/// Resolve the current image's byte size.
pub fn probe_size(viewer: &mut Viewer, shared: &Shared, file: FileId, out: &mut Vec<Action>)
    ensures
        st(final(viewer)@, shared@, final(out)@) == size_probed(
            st(old(viewer)@, shared@, old(out)@),
            file,
        ),
{
    proof {
        reveal(size_probed);
    }
    match viewer.source {
        Source::Fs => {
            out.push(Action::ProbeSize { file });
        },
        Source::Archive(_) => {
            viewer.current_file_size = match shared.entry_sizes.get(&file) {
                Some(size) => Some(*size),
                None => None,
            };
        },
    }
}

/// A load never lowers what the window already asks for: the tier it claims is
/// at least the one it held.
pub proof fn law_load_never_lowers_demand(t: St, window: u64, file: FileId, want: Tier)
    requires
        holds(t.v.cache, file),
    ensures
        ({
            let after = load_fired(t, window, file, want);
            &&& holds(after.v.cache, file)
            &&& want_of(after.v.cache, file)->0.rank_spec() >= want_of(
                t.v.cache,
                file,
            )->0.rank_spec()
            &&& (after.v == t.v || want_of(after.v.cache, file)->0.rank_spec()
                >= want.rank_spec())
        }),
{
    reveal(load_fired);
    let tier = raised(t.v, file, want);
    let rest = crate::leases::leases_without(t.v.cache, set![file]);
    let lease = crate::leases::Lease { file, want: tier };
    assert(rest.push(lease).last() == lease);
}

/// Background thumbnails fired for the listed `files` in turn.
#[verifier::opaque]
pub open spec fn thumbs_fired(t: St, files: Seq<FileId>) -> St
    decreases files.len(),
{
    if files.len() == 0 {
        t
    } else {
        thumb_fired(
            thumbs_fired(t, files.drop_last()),
            files.last(),
            ThumbUrgency::Background,
        )
    }
}

pub proof fn lemma_thumbs_frame(t: St, files: Seq<FileId>)
    ensures
        same_screen(t, thumbs_fired(t, files)),
        thumbs_fired(t, files).s == t.s,
    decreases files.len(),
{
    reveal(thumbs_fired);
    if files.len() > 0 {
        lemma_thumbs_frame(t, files.drop_last());
        lemma_thumb_frame(
            thumbs_fired(t, files.drop_last()),
            files.last(),
            ThumbUrgency::Background,
        );
    }
}

/// The files in the filmstrip cells `visible`.
pub open spec fn visible_files(v: ViewerModel, visible: Span) -> Seq<FileId> {
    let range = clamped(visible, v.nav.files.len() as int);
    v.nav.files.subrange(range.start as int, range.end as int)
}

/// Fire thumbnail jobs for every filmstrip cell in view.
pub fn fire_visible_thumbs(
    viewer: &mut Viewer,
    shared: &Shared,
    visible: Span,
    out: &mut Vec<Action>,
)
    requires
        old(viewer)@.wf(),
    ensures
        st(final(viewer)@, shared@, final(out)@) == thumbs_fired(
            st(old(viewer)@, shared@, old(out)@),
            visible_files(old(viewer)@, visible),
        ),
        final(viewer)@.wf(),
{
    let len: usize = viewer.nav.len();
    let start: usize = if visible.start <= len {
        visible.start
    } else {
        len
    };
    let end: usize = if visible.end <= start {
        start
    } else if visible.end <= len {
        visible.end
    } else {
        len
    };
    let ghost before = st(viewer@, shared@, out@);
    let ghost files = visible_files(viewer@, visible);
    let mut i: usize = start;
    proof {
        reveal(thumbs_fired);
        assert(files.take(0) =~= Seq::empty());
    }
    while i < end
        invariant
            start <= i <= end <= len,
            len == viewer@.nav.files.len(),
            viewer@.wf(),
            viewer@.nav == before.v.nav,
            files == before.v.nav.files.subrange(start as int, end as int),
            st(viewer@, shared@, out@) == thumbs_fired(before, files.take(i - start)),
        decreases end - i,
    {
        let file = viewer.nav.files[i];
        proof {
            reveal(thumbs_fired);
            lemma_thumb_frame(
                st(viewer@, shared@, out@),
                file,
                ThumbUrgency::Background,
            );
        }
        fire_thumb(viewer, shared, file, ThumbUrgency::Background, out);
        i = i + 1;
        assert(files.take(i - start).drop_last() =~= files.take(i - start - 1));
        assert(files.take(i - start).last() == file);
    }
    assert(files.take(i - start) =~= files);
}

} // verus!
