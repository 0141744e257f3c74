//! What a window is like right after its cursor moved.
use crate::actions::Action;
use crate::anim::{anims_released, ActiveAnim, AnimModel};
use crate::config::ZoomMode;
use crate::config::PrefetchVram::{FullRes, RamOnly, ViewRes};
use crate::files::FileId;
use crate::laws::loading::{
    added, asks_in_full, extends, lemma_added_since, lemma_added_stays, lemma_asks_kept_by_load,
    lemma_asks_kept_by_prefetch, lemma_extends_push, lemma_extends_self, lemma_extends_trans,
    lemma_leased, urgent_decode, urgent_upload,
};
use crate::laws::opening::lemma_released_entries;
use crate::laws::releasing::{law_released_claims_are_gone, law_released_frames_are_gone};
use crate::laws::restoring::{lemma_load_starts, work_started};
use crate::leases::{files_of, holds, leases_without, lemma_filtered_holds, lemma_holds, want_of};
use crate::media_tasks::{
    exif_fired, load_fired, loaded_shown, loads_fired, placeholder_or_clear, placeholder_shown,
    prefetch_fired, prefetch_tier, raised, shared_anim_started, size_probed, Ctx, St,
};
use crate::navigation::{
    blurred, current_shown, moved, navigated, panels_updated, pruned, sharp_size,
};
use crate::paths::{is_video, Source};
use crate::state::{DisplayedModel, SharedModel, VideoSession, VideoState, ViewerModel};
use crate::store::{lemma_demand_covers, others, AnimStoreModel, Claim, Tier};
use crate::time::Instant;
use crate::video_flow::video_started;
use vstd::prelude::*;

verus! {

/// The blurred stand-in for `file`: its thumbnail, or nothing while there is
/// none.
pub open spec fn stands_in(s: SharedModel, v: ViewerModel, file: FileId, now: Instant) -> bool {
    &&& v.pending_since == Some(now)
    &&& if s.thumbs.contains_key(file) {
        v.displayed == DisplayedModel::Placeholder(s.thumbs.at(file)) && v.displayed_path
            == Some(file)
    } else {
        v.displayed is Nothing && v.displayed_path is None
    }
}

/// Whether a window that holds `file` finds its pixels and a texture of it in
/// the store.
pub open spec fn sharp(v: ViewerModel, s: SharedModel, file: FileId) -> bool {
    &&& want_of(v.cache, file) is Some
    &&& s.store.entry(file).ram is Some
    &&& s.store.entry(file).minted is Some
}

/// A video on disk plays at once, with the saved settings; one in an archive is
/// extracted first.
pub open spec fn plays_video(
    before: St,
    after: St,
    now: Instant,
    base: Seq<Action>,
    file: FileId,
) -> bool {
    let config = before.s.config.value;
    let video = after.v.video;
    &&& video.suspended is None
    &&& video.frame is None
    &&& !video.seek_drag
    &&& now.nanos <= u128::MAX - 2_500_000_000 ==> video.controls_until == Some(
        Instant { nanos: (now.nanos + 2_500_000_000) as u128 },
    )
    &&& before.v.source == Source::Fs ==> {
        &&& video.session == Some(
            VideoSession {
                playing: true,
                looping: config.video_loop,
                muted: config.video_muted,
                temp: None,
            },
        )
        &&& added(base, after.out).contains(
            Action::OpenVideo {
                file,
                extracted: None,
                volume: config.video_volume,
                muted: config.video_muted,
                looping: config.video_loop,
                hardware: config.hardware_decode,
            },
        )
    }
    &&& before.v.source != Source::Fs ==> {
        &&& video.session is None
        &&& video.extracting == Some(file)
        &&& added(base, after.out).contains(Action::ExtractVideo { file })
    }
}

/// Whether no video is open.
pub open spec fn no_video(video: VideoState) -> bool {
    &&& video.session is None
    &&& video.suspended is None
    &&& video.frame is None
    &&& video.extracting is None
    &&& !video.seek_drag
}

/// Frames that are at hand play from the first one.
pub open spec fn plays_animation(
    before: St,
    after: St,
    window: u64,
    base: Seq<Action>,
    file: FileId,
) -> bool {
    let frames = before.s.anims.frames[file];
    &&& want_of(after.v.anim.cache, file) == Some(Tier::InRam)
    &&& after.s.anims.claims.contains(Claim { window, file, want: Tier::InRam })
    &&& after.s.anims.frames.contains_key(file)
    &&& frames.delays@.len() > 0 ==> {
        &&& after.v.anim.active == Some(
            ActiveAnim {
                file,
                canvas_width: frames.width,
                canvas_height: frames.height,
                frame_index: 0,
                frame_texture: None,
                upload_retry_spent: false,
            },
        )
        &&& added(base, after.out).contains(Action::CanvasComposite { file, frame: 0 })
        &&& added(base, after.out).contains(Action::FrameUpload { file })
    }
}

/// What is on screen for `file` right after the cursor came to it: the best
/// that can be shown at once, with the rest requested.
pub open spec fn shows_best(
    before: St,
    after: St,
    ctx: Ctx,
    base: Seq<Action>,
    file: FileId,
) -> bool {
    let v = after.v;
    if is_video(before.s.paths, file) {
        stands_in(before.s, v, file, ctx.now) && plays_video(
            before,
            after,
            ctx.now,
            base,
            file,
        ) && v.anim.active is None
    } else if before.s.anims.frames.contains_key(file) {
        stands_in(before.s, v, file, ctx.now) && plays_animation(
            before,
            after,
            ctx.window,
            base,
            file,
        ) && no_video(v.video)
    } else {
        &&& no_video(v.video)
        &&& v.anim.active is None
        &&& want_of(v.anim.cache, file) is None
        &&& if before.v.failed_loads.contains_key(file) {
            &&& v.displayed == DisplayedModel::Error { message: before.v.failed_loads[file] }
            &&& v.displayed_path == Some(file)
            &&& v.pending_since is None
        } else if sharp(before.v, before.s, file) {
            let ram = before.s.store.entry(file).ram->0;
            let fit = Action::FitZoom { width: ram.width, height: ram.height };
            &&& v.displayed == DisplayedModel::Full {
                original_size: (ram.width, ram.height),
                rotated: None,
            }
            &&& v.displayed_path == Some(file)
            &&& v.pending_since is None
            &&& want_of(before.v.cache, file) != Some(Tier::Full) ==> added(
                base,
                after.out,
            ).contains(Action::PromoteLater { file })
            &&& before.v.displayed_path != Some(file) && !before.v.manual_zoom ==> added(
                base,
                after.out,
            ).contains(fit)
        } else {
            &&& stands_in(before.s, v, file, ctx.now)
            &&& asks_in_full(v.cache, after.s.store, ctx.window, file)
            &&& work_started(before.s, file, added(base, after.out))
        }
    }
}

/// What the files next to the cursor are to their window: those that are
/// neither videos nor animations at hand are held, at the configured tier at
/// least.
pub open spec fn holds_neighbors(before: St, after: St) -> bool {
    let near = after.v.nav.around(before.s.config.value.prefetch_depth as nat);
    let least = match before.s.config.value.resource.value.prefetch_vram {
        FullRes => 3int,
        ViewRes => 2int,
        RamOnly => 1int,
    };
    forall|k: int|
        #![trigger near[k]]
        0 <= k < near.len() && !is_video(before.s.paths, near[k])
            && !after.v.anim.has_cached(after.s.anims, near[k]) ==> want_of(
            after.v.cache,
            near[k],
        ) is Some && want_of(after.v.cache, near[k])->0.rank_spec() >= least
}

/// What a window lets go of when its cursor moves: everything but the files
/// next to the cursor and the one under it.
pub open spec fn holds_nothing_else(before: St, after: St) -> bool {
    let near = after.v.nav.around(before.s.config.value.prefetch_depth as nat);
    forall|file: FileId|
        #![trigger want_of(after.v.cache, file)]
        file != after.v.current() && !near.contains(file) ==> want_of(after.v.cache, file) is None
}

/// The window `before` with its cursor arrived at `index`: everything that
/// belonged to the file it left is gone, and the new file is shown as well as
/// can be.
#[verifier::opaque]
pub open spec fn arrived_at(before: St, after: St, ctx: Ctx, index: int, bump: bool) -> bool {
    let file = before.v.nav.files[index];
    let config = before.s.config.value;
    let news = added(before.out, after.out);
    &&& after.v.nav.files == before.v.nav.files
    &&& after.v.nav.cursor == index
    &&& after.v.pending_nav is None
    &&& after.v.rotation == 0
    &&& after.v.displayed_rotation == 0
    &&& !after.v.dragging
    &&& after.v.manual_zoom == (before.v.manual_zoom && config.zoom_mode
        == ZoomMode::LockZoomRatio)
    &&& after.v.source == before.v.source
    &&& after.v.slider_drag == before.v.slider_drag
    &&& after.v.held_direction == before.v.held_direction
    &&& after.v.edge_held == before.v.edge_held
    &&& after.v.failed_loads == before.v.failed_loads
    &&& after.v.failed_thumbs == before.v.failed_thumbs
    &&& after.v.resort_to_first == before.v.resort_to_first
    &&& after.v.in_flight_thumbs == if bump {
        Set::empty()
    } else {
        before.v.in_flight_thumbs
    }
    &&& after.s.config == before.s.config
    &&& after.s.paths == before.s.paths
    &&& after.s.thumbs == before.s.thumbs
    &&& after.s.status == before.s.status
    &&& extends(before.out, after.out)
    &&& bump ==> news.len() >= 2 && news[0] == Action::BumpGeneration && news[1]
        == Action::ResetPan
    &&& !bump ==> news.len() >= 1 && news[0] == Action::ResetPan
    &&& match before.v.source {
        Source::Fs => news.contains(Action::ProbeSize { file }) && after.v.current_file_size
            is None,
        Source::Archive(_) => after.v.current_file_size == if before.s.entry_sizes.contains_key(
            file,
        ) {
            Some(before.s.entry_sizes[file])
        } else {
            None
        },
    }
    &&& config.show_filmstrip ==> news.contains(
        Action::CenterFilmstrip { index: index as usize },
    )
    &&& if config.show_info && before.v.exif != Some(file) {
        news.contains(Action::LoadExif { file }) && after.v.exif is None
    } else {
        after.v.exif == before.v.exif
    }
    &&& shows_best(before, after, ctx, before.out, file)
    &&& holds_neighbors(before, after)
    &&& holds_nothing_else(before, after)
}

/// Where the cursor is after an arrival, in short.
pub proof fn lemma_arrived(before: St, after: St, ctx: Ctx, index: int, bump: bool)
    requires
        arrived_at(before, after, ctx, index, bump),
    ensures
        after.v.nav.files == before.v.nav.files,
        after.v.nav.cursor == index,
        after.v.pending_nav is None,
        after.v.rotation == 0,
        after.s.paths == before.s.paths,
        after.s.config == before.s.config,
        extends(before.out, after.out),
{
    reveal(arrived_at);
}

/// Whether at most leases, the marks of decodes under way, the store and the
/// actions differ.
pub open spec fn only_loads(a: St, b: St) -> bool {
    &&& b.v == (ViewerModel { cache: b.v.cache, in_flight: b.v.in_flight, ..a.v })
    &&& b.s == (SharedModel { store: b.s.store, ..a.s })
    &&& extends(a.out, b.out)
}

pub proof fn lemma_load_only(t: St, window: u64, file: FileId, want: Tier)
    ensures
        only_loads(t, load_fired(t, window, file, want)),
{
    lemma_asks_kept_by_load(t, window, file, file, want);
    reveal(load_fired);
}

/// What loads in turn do to the leases: those of the loaded files rise to the
/// wanted tier at least, the others stay.
pub proof fn lemma_loads_only(t: St, window: u64, files: Seq<FileId>, want: Tier, other: FileId)
    ensures
        ({
            let after = loads_fired(t, window, files, want);
            &&& only_loads(t, after)
            &&& !files.contains(other) ==> want_of(after.v.cache, other) == want_of(
                t.v.cache,
                other,
            )
            &&& want_of(t.v.cache, other) is Some ==> want_of(after.v.cache, other) is Some
                && want_of(after.v.cache, other)->0.rank_spec() >= want_of(
                t.v.cache,
                other,
            )->0.rank_spec()
            &&& files.contains(other) && !is_video(t.s.paths, other) && !t.v.anim.has_cached(
                t.s.anims,
                other,
            ) ==> want_of(after.v.cache, other) is Some && want_of(
                after.v.cache,
                other,
            )->0.rank_spec() >= want.rank_spec()
        }),
    decreases files.len(),
{
    reveal(loads_fired);
    if files.len() == 0 {
        lemma_extends_self(t.out);
    } else {
        let rest = files.drop_last();
        let u = loads_fired(t, window, rest, want);
        let after = load_fired(u, window, files.last(), want);
        lemma_loads_only(t, window, rest, want, other);
        lemma_load_only(u, window, files.last(), want);
        lemma_extends_trans(t.out, u.out, after.out);
        let tier = raised(u.v, files.last(), want);
        lemma_leased(u.v.cache, files.last(), tier, other);
        assert(want_of(after.v.cache, other) == want_of(u.v.cache, other) || other
            == files.last() && want_of(after.v.cache, other) == Some(tier)) by {
            reveal(load_fired);
        }
        assert(other == files.last() && !is_video(t.s.paths, other) && !t.v.anim.has_cached(
            t.s.anims,
            other,
        ) ==> want_of(after.v.cache, other) == Some(tier)) by {
            reveal(load_fired);
        }
        assert(files.contains(other) ==> rest.contains(other) || files.last() == other) by {
            if files.contains(other) {
                let i = choose|i: int| 0 <= i < files.len() && files[i] == other;
                if i < rest.len() {
                    assert(rest[i] == other);
                }
            }
        }
        assert(files[files.len() - 1] == files.last());
        if rest.contains(other) {
            let i = choose|i: int| 0 <= i < rest.len() && rest[i] == other;
            assert(files[i] == other);
        }
    }
}

/// Whether `q` is the window `t` on its way to `index`, with nothing shown of the
/// file there yet.
pub open spec fn under_way(t: St, q: St, index: int, bump: bool) -> bool {
    let file = t.v.nav.files[index];
    let keep = q.v.pinned(t.s.config.value.prefetch_depth as nat).to_set();
    let bumped: Seq<Action> = if bump {
        seq![Action::BumpGeneration, Action::ResetPan]
    } else {
        seq![Action::ResetPan]
    };
    &&& q.v.nav.files == t.v.nav.files
    &&& q.v.nav.cursor == index
    &&& q.v == (ViewerModel {
        nav: q.v.nav,
        pending_nav: None,
        anim: AnimModel { cache: q.v.anim.cache, active: None },
        cache: q.v.cache,
        video: VideoState {
            session: None,
            suspended: None,
            frame: None,
            seek_drag: false,
            extracting: None,
            ..t.v.video
        },
        dragging: false,
        manual_zoom: t.v.manual_zoom && t.s.config.value.zoom_mode == ZoomMode::LockZoomRatio,
        current_file_size: q.v.current_file_size,
        in_flight_thumbs: if bump {
            Set::empty()
        } else {
            t.v.in_flight_thumbs
        },
        rotation: 0,
        displayed_rotation: 0,
        ..t.v
    })
    &&& forall|other: FileId|
        #![trigger want_of(q.v.cache, other)]
        want_of(q.v.cache, other) == if keep.contains(other) {
            want_of(t.v.cache, other)
        } else {
            None
        }
    &&& q.s == (SharedModel { store: q.s.store, anims: q.s.anims, ..t.s })
    &&& q.s.store.entries == t.s.store.entries
    &&& q.s.anims.frames == t.s.anims.frames
    &&& q.out == t.out + bumped + match t.v.source {
        Source::Fs => seq![Action::ProbeSize { file }],
        Source::Archive(_) => Seq::empty(),
    }
    &&& q.v.current_file_size == match t.v.source {
        Source::Fs => None,
        Source::Archive(_) => if t.s.entry_sizes.contains_key(file) {
            Some(t.s.entry_sizes[file])
        } else {
            None
        },
    }
}

proof fn lemma_anims_released_frames(
    store: AnimStoreModel,
    window: u64,
    files: Seq<FileId>,
)
    ensures
        anims_released(store, window, files).frames == store.frames,
    decreases files.len(),
{
    if files.len() > 0 {
        lemma_anims_released_frames(store, window, files.drop_last());
    }
}

pub open spec fn set_out(t: St, index: int, bump: bool, window: u64) -> St {
    let there = pruned(moved(t, index, bump), window);
    size_probed(there, there.v.current())
}

proof fn lemma_set_out(t: St, index: int, bump: bool, window: u64)
    requires
        t.v.wf(),
        0 <= index < t.v.nav.files.len(),
    ensures
        under_way(t, set_out(t, index, bump, window), index, bump),
{
    reveal(moved);
    reveal(pruned);
    reveal(size_probed);
    let m = moved(t, index, bump);
    let keep = m.v.pinned(t.s.config.value.prefetch_depth as nat).to_set();
    let q = set_out(t, index, bump, window);
    lemma_released_entries(
        t.s.store,
        window,
        files_of(leases_without(t.v.cache, keep)),
    );
    lemma_anims_released_frames(
        t.s.anims,
        window,
        files_of(leases_without(t.v.anim.cache, keep)),
    );
    assert forall|other: FileId|
        #![trigger want_of(q.v.cache, other)]
        want_of(q.v.cache, other) == if keep.contains(other) {
            want_of(t.v.cache, other)
        } else {
            None
        } by {
        lemma_filtered_holds(t.v.cache, keep, other);
    }
    let file = t.v.nav.files[index];
    let bumped: Seq<Action> = if bump {
        seq![Action::BumpGeneration, Action::ResetPan]
    } else {
        seq![Action::ResetPan]
    };
    assert(m.out =~= t.out + bumped);
    assert((t.out + bumped).push(Action::ProbeSize { file }) =~= t.out + bumped + seq![
        Action::ProbeSize { file },
    ]);
    assert(t.out + bumped + Seq::<Action>::empty() =~= t.out + bumped);
}

/// Whether at most what stands for the current file differs.
pub open spec fn only_display(a: St, b: St) -> bool {
    &&& b.v == (ViewerModel {
        displayed: b.v.displayed,
        displayed_path: b.v.displayed_path,
        pending_since: b.v.pending_since,
        cache: b.v.cache,
        in_flight: b.v.in_flight,
        anim: b.v.anim,
        video: b.v.video,
        ..a.v
    })
    &&& b.s == (SharedModel { store: b.s.store, anims: b.s.anims, ..a.s })
    &&& extends(a.out, b.out)
    &&& forall|other: FileId|
        #![trigger want_of(b.v.cache, other)]
        other != a.v.current() ==> want_of(b.v.cache, other) == want_of(a.v.cache, other)
}

proof fn lemma_blurred(t: St, now: Instant)
    ensures
        stands_in(t.s, blurred(t, now).v, t.v.current(), now),
        blurred(t, now).v == (ViewerModel {
            displayed: blurred(t, now).v.displayed,
            displayed_path: blurred(t, now).v.displayed_path,
            pending_since: Some(now),
            ..t.v
        }),
        blurred(t, now).s == t.s,
        extends(t.out, blurred(t, now).out),
{
    reveal(placeholder_or_clear);
    reveal(placeholder_shown);
    lemma_extends_self(t.out);
    if t.s.thumbs.contains_key(t.v.current()) {
        let size = t.s.thumbs.at(t.v.current()).original_size;
        let fit = Action::FitZoom { width: size.0, height: size.1 };
        lemma_extends_push(t.out, t.out, fit);
        lemma_extends_push(t.out, t.out, Action::ResetPan);
        lemma_extends_push(t.out, t.out.push(fit), Action::ResetPan);
    }
}

proof fn lemma_video_shown(q: St, ctx: Ctx)
    requires
        no_video(q.v.video),
        q.v.anim.active is None,
        is_video(q.s.paths, q.v.current()),
    ensures
        ({
            let c = current_shown(q, ctx.window, ctx.now);
            &&& shows_best(q, c, ctx, q.out, q.v.current())
            &&& only_display(q, c)
        }),
{
    reveal(current_shown);
    reveal(video_started);
    let file = q.v.current();
    let b = blurred(q, ctx.now);
    lemma_blurred(q, ctx.now);
    let c = current_shown(q, ctx.window, ctx.now);
    assert(c.out.len() == b.out.len() + 1);
    lemma_extends_self(b.out);
    lemma_extends_push(b.out, b.out, c.out.last());
    assert(c.out =~= b.out.push(c.out.last()));
    lemma_extends_trans(q.out, b.out, c.out);
    assert(added(b.out, c.out)[0] == c.out.last());
    lemma_added_since(q.out, b.out, c.out, c.out.last());
}

proof fn lemma_animation_shown(q: St, ctx: Ctx)
    requires
        no_video(q.v.video),
        q.v.anim.active is None,
        !is_video(q.s.paths, q.v.current()),
        q.s.anims.frames.contains_key(q.v.current()),
    ensures
        ({
            let c = current_shown(q, ctx.window, ctx.now);
            &&& shows_best(q, c, ctx, q.out, q.v.current())
            &&& only_display(q, c)
        }),
{
    reveal(current_shown);
    reveal(shared_anim_started);
    let file = q.v.current();
    let u = shared_anim_started(q, ctx.window, file);
    lemma_blurred(u, ctx.now);
    let c = current_shown(q, ctx.window, ctx.now);
    assert(u.out.take(q.out.len() as int) =~= q.out);
    lemma_extends_trans(q.out, u.out, c.out);
    let frames = q.s.anims.frames[file];
    let player: AnimModel = if q.v.anim.has_cached(q.s.anims, file) {
        q.v.anim.leasing(file)
    } else {
        q.v.anim.removed(file).leasing(file)
    };
    lemma_leased(q.v.anim.cache, file, Tier::InRam, file);
    lemma_leased(q.v.anim.removed(file).cache, file, Tier::InRam, file);
    let anims = if q.v.anim.has_cached(q.s.anims, file) || !holds(
        q.v.anim.cache,
        file,
    ) {
        q.s.anims
    } else {
        q.s.anims.released(ctx.window, file)
    };
    let claims = anims.claim(ctx.window, file, Tier::InRam).claims;
    assert(claims.last() == (Claim { window: ctx.window, file, want: Tier::InRam }));
    assert(claims[claims.len() - 1] == (Claim {
        window: ctx.window,
        file,
        want: Tier::InRam,
    }));
    lemma_demand_covers(claims, claims.len() - 1);
    if frames.delays@.len() > 0 {
        let k = q.out.len() as int;
        let composite = Action::CanvasComposite { file, frame: 0 };
        let upload = Action::FrameUpload { file };
        assert(added(q.out, u.out)[1] == composite);
        assert(added(q.out, u.out)[2] == upload);
        lemma_added_stays(q.out, u.out, c.out, composite);
        lemma_added_stays(q.out, u.out, c.out, upload);
    }
}

proof fn lemma_still_shown(q: St, ctx: Ctx)
    requires
        no_video(q.v.video),
        q.v.anim.active is None,
        !is_video(q.s.paths, q.v.current()),
        !q.s.anims.frames.contains_key(q.v.current()),
    ensures
        ({
            let c = current_shown(q, ctx.window, ctx.now);
            &&& shows_best(q, c, ctx, q.out, q.v.current())
            &&& only_display(q, c)
        }),
{
    reveal(current_shown);
    let file = q.v.current();
    let u = shared_anim_started(q, ctx.window, file);
    let c = current_shown(q, ctx.window, ctx.now);
    assert(u.v == (ViewerModel { anim: AnimModel { cache: u.v.anim.cache, ..q.v.anim }, ..q.v })
        && u.s == (SharedModel { anims: u.s.anims, ..q.s }) && u.out == q.out
        && u.s.anims.frames == q.s.anims.frames) by {
        reveal(shared_anim_started);
    }
    assert(want_of(u.v.anim.cache, file) is None) by {
        reveal(shared_anim_started);
        lemma_filtered_holds(q.v.anim.cache, set![file], file);
    }
    lemma_extends_self(q.out);
    if u.v.failed_loads.contains_key(file) {
    } else if sharp(q.v, q.s, file) {
        let ram = q.s.store.entry(file).ram->0;
        let fit = Action::FitZoom { width: ram.width, height: ram.height };
        let later = Action::PromoteLater { file };
        let shown = loaded_shown(u, file, (ram.width, ram.height));
        assert(shown.v == (ViewerModel {
            displayed: DisplayedModel::Full {
                original_size: (ram.width, ram.height),
                rotated: None,
            },
            displayed_path: Some(file),
            pending_since: None,
            ..u.v
        }) && shown.s == u.s && (shown.out == q.out || shown.out == q.out.push(
            Action::ResetPan,
        ) || shown.out == q.out.push(fit).push(Action::ResetPan)) && (
        q.v.displayed_path != Some(file) && !q.v.manual_zoom ==> shown.out == q.out.push(
            fit,
        ).push(Action::ResetPan))) by {
            reveal(loaded_shown);
        }
        lemma_extends_push(q.out, q.out, fit);
        lemma_extends_push(q.out, q.out, Action::ResetPan);
        lemma_extends_push(q.out, q.out.push(fit), Action::ResetPan);
        lemma_extends_self(shown.out);
        lemma_extends_push(shown.out, shown.out, later);
        lemma_extends_trans(q.out, shown.out, c.out);
        if c.out == shown.out.push(later) {
            assert(added(shown.out, c.out)[0] == later);
            lemma_added_since(q.out, shown.out, c.out, later);
        }
        if q.v.displayed_path != Some(file) && !q.v.manual_zoom {
            assert(added(q.out, shown.out)[0] == fit);
            lemma_added_stays(q.out, shown.out, c.out, fit);
        }
    } else {
        let b = blurred(u, ctx.now);
        lemma_blurred(u, ctx.now);
        lemma_load_only(b, ctx.window, file, Tier::Full);
        lemma_load_starts(b, ctx.window, file);
        assert(sharp_size(u.v, u.s, file) is None);
        assert(c == load_fired(b, ctx.window, file, Tier::Full));
        lemma_extends_trans(q.out, b.out, c.out);
        if added(b.out, c.out).contains(urgent_decode(file)) {
            lemma_added_since(q.out, b.out, c.out, urgent_decode(file));
        }
        if added(b.out, c.out).contains(urgent_upload(file)) {
            lemma_added_since(q.out, b.out, c.out, urgent_upload(file));
        }
        assert forall|other: FileId|
            #![trigger want_of(c.v.cache, other)]
            other != file implies want_of(c.v.cache, other) == want_of(q.v.cache, other) by {
            reveal(load_fired);
            let tier = raised(b.v, file, Tier::Full);
            lemma_leased(b.v.cache, file, tier, other);
        }
    }
}

proof fn lemma_best_carries(t: St, q: St, c: St, a: St, ctx: Ctx, index: int, bump: bool)
    requires
        t.v.wf(),
        0 <= index < t.v.nav.files.len(),
        under_way(t, q, index, bump),
        shows_best(q, c, ctx, q.out, q.v.current()),
        a.v.displayed == c.v.displayed,
        a.v.displayed_path == c.v.displayed_path,
        a.v.pending_since == c.v.pending_since,
        a.v.video == c.v.video,
        a.v.anim == c.v.anim,
        a.s.anims == c.s.anims,
        extends(t.out, q.out),
        extends(q.out, c.out),
        extends(c.out, a.out),
        asks_in_full(c.v.cache, c.s.store, ctx.window, q.v.current()) ==> asks_in_full(
            a.v.cache,
            a.s.store,
            ctx.window,
            q.v.current(),
        ),
    ensures
        shows_best(t, a, ctx, t.out, t.v.nav.files[index]),
{
    let file = t.v.nav.files[index];
    let near = q.v.nav.around(t.s.config.value.prefetch_depth as nat);
    let pinned = near.push(file);
    assert(pinned[near.len() as int] == file);
    assert(pinned.to_set().contains(file));
    assert(want_of(q.v.cache, file) == want_of(t.v.cache, file));
    assert forall|x: Action| #[trigger]
        added(q.out, c.out).contains(x) implies added(t.out, a.out).contains(x) by {
        lemma_added_stays(q.out, c.out, a.out, x);
        lemma_extends_trans(q.out, c.out, a.out);
        lemma_added_since(t.out, q.out, a.out, x);
    }
    assert(q.s.store.entry(file) == t.s.store.entry(file));
}

proof fn lemma_panels_shown(f: St)
    ensures
        ({
            let a = panels_updated(f);
            let news = added(f.out, a.out);
            let file = f.v.current();
            let config = f.s.config.value;
            &&& extends(f.out, a.out)
            &&& a.s == f.s
            &&& a.v == (ViewerModel { exif: a.v.exif, ..f.v })
            &&& config.show_filmstrip ==> news.contains(
                Action::CenterFilmstrip { index: f.v.nav.cursor as usize },
            )
            &&& if config.show_info && f.v.exif != Some(file) {
                news.contains(Action::LoadExif { file }) && a.v.exif is None
            } else {
                a.v.exif == f.v.exif
            }
        }),
{
    reveal(panels_updated);
    reveal(exif_fired);
    let a = panels_updated(f);
    let file = f.v.current();
    let center = Action::CenterFilmstrip { index: f.v.nav.cursor as usize };
    let exif = Action::LoadExif { file };
    lemma_extends_self(f.out);
    lemma_extends_push(f.out, f.out, center);
    lemma_extends_push(f.out, f.out, exif);
    lemma_extends_push(f.out, f.out.push(center), exif);
    if f.s.config.value.show_filmstrip {
        assert(added(f.out, a.out)[0] == center);
    }
    if f.s.config.value.show_info && f.v.exif != Some(file) {
        assert(added(f.out, a.out).last() == exif);
    }
}

/// A completed move leaves the file it came from behind (its rotation, its
/// video, its animation, its metadata, every image held for its neighbors alone)
/// and shows the file it arrived at as well as it can right away.
pub proof fn law_arrival(t: St, ctx: Ctx, index: int, bump: bool)
    requires
        t.v.wf(),
        0 <= index < t.v.nav.files.len(),
    ensures
        arrived_at(t, navigated(t, ctx, index, bump), ctx, index, bump),
{
    reveal(navigated);
    reveal(arrived_at);
    let file = t.v.nav.files[index];
    let q = set_out(t, index, bump, ctx.window);
    lemma_set_out(t, index, bump, ctx.window);
    let c = current_shown(q, ctx.window, ctx.now);
    if is_video(q.s.paths, file) {
        lemma_video_shown(q, ctx);
    } else if q.s.anims.frames.contains_key(file) {
        lemma_animation_shown(q, ctx);
    } else {
        lemma_still_shown(q, ctx);
    }
    let f = prefetch_fired(c, ctx.window);
    let a = panels_updated(f);
    lemma_panels_shown(f);
    lemma_prefetch_leases(c, ctx.window);
    lemma_asks_kept_by_prefetch(c, ctx.window, file);
    assert(q.out.take(t.out.len() as int) =~= t.out);
    lemma_extends_trans(c.out, f.out, a.out);
    lemma_extends_trans(q.out, c.out, a.out);
    lemma_extends_trans(t.out, q.out, a.out);
    lemma_extends_trans(q.out, c.out, f.out);
    lemma_extends_trans(t.out, q.out, f.out);
    lemma_best_carries(t, q, c, a, ctx, index, bump);
    let news = added(t.out, a.out);
    assert forall|x: Action| #[trigger]
        added(f.out, a.out).contains(x) implies news.contains(x) by {
        lemma_added_since(t.out, f.out, a.out, x);
    }
    assert(added(t.out, q.out).len() == q.out.len() - t.out.len());
    assert forall|k: int| 0 <= k < q.out.len() - t.out.len() implies news[k] == #[trigger] added(
        t.out,
        q.out,
    )[k] by {
        assert(a.out.take(q.out.len() as int)[t.out.len() + k] == q.out[t.out.len() + k]);
    }
    assert(added(t.out, q.out)[0] == q.out[t.out.len() as int]);
    if bump {
        assert(added(t.out, q.out)[1] == q.out[t.out.len() as int + 1]);
    }
    if t.v.source == Source::Fs {
        let probe = Action::ProbeSize { file };
        assert(added(t.out, q.out).last() == probe);
        lemma_added_stays(t.out, q.out, a.out, probe);
    }
    lemma_lets_go(t, q, c, f, a, index, bump);
}

pub proof fn lemma_prefetch_leases(c: St, window: u64)
    ensures
        ({
            let f = prefetch_fired(c, window);
            let near = c.v.nav.around(c.s.config.value.prefetch_depth as nat);
            let least = prefetch_tier(
                c.s.config.value.resource.value.prefetch_vram,
            ).rank_spec();
            &&& only_loads(c, f)
            &&& forall|other: FileId|
                #![trigger want_of(f.v.cache, other)]
                !near.contains(other) ==> want_of(f.v.cache, other) == want_of(
                    c.v.cache,
                    other,
                )
            &&& forall|other: FileId|
                #![trigger want_of(f.v.cache, other)]
                near.contains(other) && !is_video(c.s.paths, other) && !c.v.anim.has_cached(
                    c.s.anims,
                    other,
                ) ==> want_of(f.v.cache, other) is Some && want_of(
                    f.v.cache,
                    other,
                )->0.rank_spec() >= least
        }),
{
    reveal(prefetch_fired);
    let near = c.v.nav.around(c.s.config.value.prefetch_depth as nat);
    let tier = prefetch_tier(c.s.config.value.resource.value.prefetch_vram);
    let f = prefetch_fired(c, window);
    lemma_loads_only(c, window, near, tier, 0);
    assert forall|other: FileId|
        #![trigger want_of(f.v.cache, other)]
        !near.contains(other) implies want_of(f.v.cache, other) == want_of(c.v.cache, other) by {
        lemma_loads_only(c, window, near, tier, other);
    }
    assert forall|other: FileId|
        #![trigger want_of(f.v.cache, other)]
        near.contains(other) && !is_video(c.s.paths, other) && !c.v.anim.has_cached(
            c.s.anims,
            other,
        ) implies want_of(f.v.cache, other) is Some && want_of(
        f.v.cache,
        other,
    )->0.rank_spec() >= tier.rank_spec() by {
        lemma_loads_only(c, window, near, tier, other);
    }
}

proof fn lemma_lets_go(t: St, q: St, c: St, f: St, a: St, index: int, bump: bool)
    requires
        under_way(t, q, index, bump),
        only_display(q, c),
        only_loads(c, f),
        a.v == (ViewerModel { exif: a.v.exif, ..f.v }),
        a.s == f.s,
        ({
            let near = c.v.nav.around(c.s.config.value.prefetch_depth as nat);
            let least = prefetch_tier(
                c.s.config.value.resource.value.prefetch_vram,
            ).rank_spec();
            &&& forall|other: FileId|
                #![trigger want_of(f.v.cache, other)]
                !near.contains(other) ==> want_of(f.v.cache, other) == want_of(
                    c.v.cache,
                    other,
                )
            &&& forall|other: FileId|
                #![trigger want_of(f.v.cache, other)]
                near.contains(other) && !is_video(c.s.paths, other) && !c.v.anim.has_cached(
                    c.s.anims,
                    other,
                ) ==> want_of(f.v.cache, other) is Some && want_of(
                    f.v.cache,
                    other,
                )->0.rank_spec() >= least
        }),
    ensures
        holds_neighbors(t, a),
        holds_nothing_else(t, a),
{
    let near = a.v.nav.around(t.s.config.value.prefetch_depth as nat);
    assert forall|k: int|
        #![trigger near[k]]
        0 <= k < near.len() implies near.contains(near[k]) by {}
    let pinned = near.push(a.v.current());
    assert forall|file: FileId|
        #![trigger want_of(a.v.cache, file)]
        file != a.v.current() && !near.contains(file) implies want_of(a.v.cache, file) is None by {
        assert(want_of(f.v.cache, file) == want_of(c.v.cache, file));
        assert(want_of(c.v.cache, file) == want_of(q.v.cache, file));
        if pinned.to_set().contains(file) {
            let k = choose|k: int| 0 <= k < pinned.len() && pinned[k] == file;
            if k < near.len() {
                assert(near[k] == file);
            }
        }
    }
}

/// What a move lets go of is off the store's record, stills and frames alike, and
/// is looked at by the store at the end of the turn.
pub proof fn law_left_files_are_released(t: St, window: u64, c: Claim)
    requires
        c.window == window,
        !t.v.nav.around(t.s.config.value.prefetch_depth as nat).contains(c.file),
        c.file != t.v.current(),
    ensures
        ({
            let after = pruned(t, window);
            &&& want_of(after.v.cache, c.file) is None
            &&& want_of(after.v.anim.cache, c.file) is None
            &&& want_of(t.v.cache, c.file) is Some ==> !after.s.store.claims.contains(c)
                && after.s.store.dirty.contains(c.file)
            &&& want_of(t.v.anim.cache, c.file) is Some ==> !after.s.anims.claims.contains(c)
                && after.s.anims.dirty.contains(c.file)
        }),
{
    reveal(pruned);
    let near = t.v.nav.around(t.s.config.value.prefetch_depth as nat);
    let pinned = near.push(t.v.current());
    let keep = pinned.to_set();
    if keep.contains(c.file) {
        let k = choose|k: int| 0 <= k < pinned.len() && pinned[k] == c.file;
        if k < near.len() {
            assert(near[k] == c.file);
        }
    }
    lemma_filtered_holds(t.v.cache, keep, c.file);
    lemma_filtered_holds(t.v.anim.cache, keep, c.file);
    let stills = leases_without(t.v.cache, keep);
    let frames = leases_without(t.v.anim.cache, keep);
    law_released_claims_are_gone(t.s.store, window, files_of(stills), c);
    law_released_frames_are_gone(t.s.anims, window, files_of(frames), c);
    lemma_holds(stills, c.file);
    lemma_holds(frames, c.file);
    if want_of(stills, c.file) is Some {
        let i = choose|i: int| 0 <= i < stills.len() && (#[trigger] stills[i]).file == c.file;
        assert(files_of(stills)[i] == c.file);
    }
    if want_of(frames, c.file) is Some {
        let i = choose|i: int| 0 <= i < frames.len() && (#[trigger] frames[i]).file == c.file;
        assert(files_of(frames)[i] == c.file);
    }
}

} // verus!
