//! Which images a window asks for, and at which quality.

use crate::actions::{Action, JobZoom, Lane, ThumbUrgency};
use crate::config::{Config, ZoomMode};
use crate::files::FileId;
use crate::leases::{leased, leases_without, lemma_filtered_holds, want_of, Lease};
use crate::media_tasks::{
    exif_fired, focus_of, lane_of, load_fired, loads_fired, prefetch_fired, prefetch_tier, raised,
    rotate_fired, size_probed, thumb_fired, thumbnailer_fired, thumbs_fired, St,
};
use crate::paths::is_video;
use crate::state::{Span, ViewerModel};
use crate::store::{
    claimed, demand, lemma_demand_covers, others, Claim, Entry, Job, StoreModel, Tier,
};
use vstd::prelude::*;

verus! {

/// Whether `out` grew out of `base` by appending.
pub open spec fn extends(base: Seq<Action>, out: Seq<Action>) -> bool {
    base.len() <= out.len() && out.take(base.len() as int) == base
}

/// The actions of `out` behind those of `base`.
pub open spec fn added(base: Seq<Action>, out: Seq<Action>) -> Seq<Action> {
    out.skip(base.len() as int)
}

/// Whether `window` asks for `file` in full: its lease says so, and the store
/// has it on record as a claim of that window.
pub open spec fn asks_in_full(
    cache: Seq<Lease>,
    store: StoreModel,
    window: u64,
    file: FileId,
) -> bool {
    &&& want_of(cache, file) == Some(Tier::Full)
    &&& store.claims.contains(Claim { window, file, want: Tier::Full })
}

/// The decode of `file`, ahead of background work.
pub open spec fn urgent_decode(file: FileId) -> Action {
    Action::RunJob { job: Job::Decode { file }, lane: Lane::Current, zoom: JobZoom::Fit }
}

/// The upload of `file` in full, ahead of background work.
pub open spec fn urgent_upload(file: FileId) -> Action {
    Action::RunJob {
        job: Job::Upload { file, tier: Tier::Full },
        lane: Lane::Current,
        zoom: JobZoom::Fit,
    }
}

/// Whether a zoom set by hand carries over to the next picture.
pub open spec fn keeps_zoom(v: ViewerModel, config: Config) -> bool {
    v.manual_zoom && config.zoom_mode == ZoomMode::LockZoomRatio
}

/// What puts a new picture of this size in place: it is fitted, unless the zoom
/// carries over, and centered.
pub open spec fn place_actions(v: ViewerModel, config: Config, size: (u32, u32)) -> Seq<Action> {
    if keeps_zoom(v, config) {
        seq![Action::ResetPan]
    } else {
        seq![Action::FitZoom { width: size.0, height: size.1 }, Action::ResetPan]
    }
}

/// Whether the store's texture of an image is the full-resolution one.
pub open spec fn full_texture(entry: Entry) -> bool {
    entry.minted is Some && entry.minted->0.tier == Tier::Full
}

pub proof fn lemma_extends_trans(a: Seq<Action>, b: Seq<Action>, c: Seq<Action>)
    requires
        extends(a, b),
        extends(b, c),
    ensures
        extends(a, c),
{
    assert(c.take(a.len() as int) =~= c.take(b.len() as int).take(a.len() as int));
}

pub proof fn lemma_extends_push(a: Seq<Action>, b: Seq<Action>, x: Action)
    requires
        extends(a, b),
    ensures
        extends(a, b.push(x)),
{
    assert(b.push(x).take(a.len() as int) =~= b.take(a.len() as int));
}

pub proof fn lemma_extends_self(a: Seq<Action>)
    ensures
        extends(a, a),
{
    assert(a.take(a.len() as int) =~= a);
}

/// What was appended early on is still among what was appended in the end.
pub proof fn lemma_added_stays(a: Seq<Action>, b: Seq<Action>, c: Seq<Action>, x: Action)
    requires
        extends(a, b),
        extends(b, c),
        added(a, b).contains(x),
    ensures
        added(a, c).contains(x),
{
    let i = choose|i: int| 0 <= i < added(a, b).len() && added(a, b)[i] == x;
    assert(added(a, c)[i] == c.take(b.len() as int)[a.len() + i]);
}

/// What is behind a later mark is behind an earlier one.
pub proof fn lemma_added_since(a: Seq<Action>, b: Seq<Action>, c: Seq<Action>, x: Action)
    requires
        extends(a, b),
        extends(b, c),
        added(b, c).contains(x),
    ensures
        added(a, c).contains(x),
{
    let i = choose|i: int| 0 <= i < added(b, c).len() && added(b, c)[i] == x;
    assert(added(a, c)[b.len() - a.len() + i] == x);
}

/// A lease taken is the one on record for its file; the others stay.
pub proof fn lemma_leased(leases: Seq<Lease>, file: FileId, want: Tier, other: FileId)
    ensures
        want_of(leased(leases, file, want), other) == if other == file {
            Some(want)
        } else {
            want_of(leases, other)
        },
{
    lemma_filtered_holds(leases, set![file], other);
    let rest = leases_without(leases, set![file]);
    assert(rest.push(Lease { file, want }).drop_last() =~= rest);
}

/// A claim of full quality makes full quality the demand.
pub proof fn lemma_full_demand(claims: Seq<Claim>, window: u64, file: FileId)
    requires
        claims.contains(Claim { window, file, want: Tier::Full }),
    ensures
        demand(claims, file) == Tier::Full,
{
    let i = choose|i: int|
        0 <= i < claims.len() && claims[i] == Claim { window, file, want: Tier::Full };
    lemma_demand_covers(claims, i);
}

/// Another claim of the same window leaves the claim on `file` alone.
pub proof fn lemma_claim_stays(
    claims: Seq<Claim>,
    window: u64,
    file: FileId,
    other: FileId,
    want: Tier,
)
    requires
        claims.contains(Claim { window, file, want: Tier::Full }),
        other != file || want == Tier::Full,
    ensures
        claimed(claims, window, other, want).contains(Claim { window, file, want: Tier::Full }),
{
    let mine = Claim { window, file, want: Tier::Full };
    let rest = others(claims, window, other);
    if other == file {
        assert(rest.push(mine)[rest.len() as int] == mine);
    } else {
        let i = choose|i: int| 0 <= i < claims.len() && claims[i] == mine;
        claims.lemma_filter_contains(
            |c: Claim| !(c.window == window && c.file == other),
            i,
        );
        let j = choose|j: int| 0 <= j < rest.len() && rest[j] == mine;
        assert(claimed(claims, window, other, want)[j] == mine);
    }
}

/// A full load of a still asks for it in full, and puts the first missing step
/// towards that to work at once: the decode where the pixels are missing, the
/// upload where only the full texture is, nothing where a step is under way.
pub proof fn law_full_load(t: St, window: u64, file: FileId)
    requires
        !is_video(t.s.paths, file),
        !t.v.anim.has_cached(t.s.anims, file),
    ensures
        ({
            let after = load_fired(t, window, file, Tier::Full);
            let entry = t.s.store.entry(file);
            &&& asks_in_full(after.v.cache, after.s.store, window, file)
            &&& after.out == if entry.pending {
                t.out
            } else if entry.ram is None {
                t.out.push(urgent_decode(file))
            } else if !full_texture(entry) {
                t.out.push(urgent_upload(file))
            } else {
                t.out
            }
            &&& after.v.in_flight == if want_of(t.v.cache, file) is None && !entry.pending
                && entry.ram is None {
                t.v.in_flight.insert(file)
            } else {
                t.v.in_flight
            }
            &&& after.s.store.entry(file) == (Entry {
                pending: entry.pending || entry.ram is None || !full_texture(entry),
                ..entry
            })
        }),
{
    reveal(load_fired);
    lemma_leased(t.v.cache, file, Tier::Full, file);
    let claims = claimed(t.s.store.claims, window, file, Tier::Full);
    let rest = others(t.s.store.claims, window, file);
    let mine = Claim { window, file, want: Tier::Full };
    assert(rest.push(mine)[rest.len() as int] == mine);
    assert(claims.contains(mine));
    lemma_full_demand(claims, window, file);
}

/// Whether `b` comes after `a` with the same leases and store, and with
/// actions appended at most.
pub open spec fn carried(a: St, b: St) -> bool {
    &&& b.v.cache == a.v.cache
    &&& b.s.store == a.s.store
    &&& extends(a.out, b.out)
}

pub proof fn lemma_asks_kept_by_load(t: St, window: u64, file: FileId, other: FileId, want: Tier)
    ensures
        extends(t.out, load_fired(t, window, other, want).out),
        asks_in_full(t.v.cache, t.s.store, window, file) ==> ({
            let after = load_fired(t, window, other, want);
            asks_in_full(after.v.cache, after.s.store, window, file)
        }),
{
    reveal(load_fired);
    let tier = raised(t.v, other, want);
    lemma_leased(t.v.cache, other, tier, file);
    lemma_extends_self(t.out);
    let job = t.s.store.claim(window, other, tier).missing_job(other);
    if job is Some {
        lemma_extends_push(
            t.out,
            t.out,
            Action::RunJob { job: job->0, lane: lane_of(want), zoom: JobZoom::Fit },
        );
    }
    if asks_in_full(t.v.cache, t.s.store, window, file) {
        lemma_claim_stays(t.s.store.claims, window, file, other, tier);
    }
}

pub proof fn lemma_asks_kept_by_loads(
    t: St,
    window: u64,
    file: FileId,
    files: Seq<FileId>,
    want: Tier,
)
    ensures
        extends(t.out, loads_fired(t, window, files, want).out),
        asks_in_full(t.v.cache, t.s.store, window, file) ==> ({
            let after = loads_fired(t, window, files, want);
            asks_in_full(after.v.cache, after.s.store, window, file)
        }),
    decreases files.len(),
{
    reveal(loads_fired);
    if files.len() == 0 {
        lemma_extends_self(t.out);
    } else {
        let u = loads_fired(t, window, files.drop_last(), want);
        lemma_asks_kept_by_loads(t, window, file, files.drop_last(), want);
        lemma_asks_kept_by_load(u, window, file, files.last(), want);
        lemma_extends_trans(t.out, u.out, load_fired(u, window, files.last(), want).out);
    }
}

pub proof fn lemma_asks_kept_by_prefetch(t: St, window: u64, file: FileId)
    ensures
        extends(t.out, prefetch_fired(t, window).out),
        asks_in_full(t.v.cache, t.s.store, window, file) ==> ({
            let after = prefetch_fired(t, window);
            asks_in_full(after.v.cache, after.s.store, window, file)
        }),
{
    reveal(prefetch_fired);
    lemma_asks_kept_by_loads(
        t,
        window,
        file,
        t.v.nav.around(t.s.config.value.prefetch_depth as nat),
        prefetch_tier(t.s.config.value.resource.value.prefetch_vram),
    );
}

pub proof fn lemma_thumb_carried(t: St, file: FileId, urgency: ThumbUrgency)
    ensures
        carried(t, thumb_fired(t, file, urgency)),
        thumb_fired(t, file, urgency).v.anim == t.v.anim,
        thumb_fired(t, file, urgency).s == t.s,
{
    reveal(thumb_fired);
    lemma_extends_self(t.out);
    let cheap_only = !is_video(t.s.paths, file) && t.v.in_flight.contains(file);
    lemma_extends_push(t.out, t.out, Action::LoadThumb { file, urgency, cheap_only });
}

pub proof fn lemma_thumbs_carried(t: St, files: Seq<FileId>)
    ensures
        carried(t, thumbs_fired(t, files)),
    decreases files.len(),
{
    reveal(thumbs_fired);
    if files.len() == 0 {
        lemma_extends_self(t.out);
    } else {
        let u = thumbs_fired(t, files.drop_last());
        lemma_thumbs_carried(t, files.drop_last());
        lemma_thumb_carried(u, files.last(), ThumbUrgency::Background);
        lemma_extends_trans(
            t.out,
            u.out,
            thumb_fired(u, files.last(), ThumbUrgency::Background).out,
        );
    }
}

pub proof fn lemma_thumbnailer_carried(t: St, visible: Span, chains: nat)
    ensures
        carried(t, thumbnailer_fired(t, visible, chains)),
    decreases chains,
{
    reveal(thumbnailer_fired);
    reveal(ViewerModel::scanned);
    lemma_extends_self(t.out);
    if chains > 0 {
        let (center, range) = focus_of(t.v, visible, t.s.config.value.show_filmstrip);
        let walked = St { v: t.v.scanned(t.s, center, range), ..t };
        match t.v.next_unthumbed(t.s, center, range) {
            Some(file) => {
                let u = thumb_fired(walked, file, ThumbUrgency::Background);
                lemma_thumb_carried(walked, file, ThumbUrgency::Background);
                lemma_thumbnailer_carried(u, visible, (chains - 1) as nat);
                lemma_extends_trans(
                    t.out,
                    u.out,
                    thumbnailer_fired(u, visible, (chains - 1) as nat).out,
                );
            },
            None => {},
        }
    }
}

pub proof fn lemma_rotate_carried(t: St)
    ensures
        carried(t, rotate_fired(t)),
        rotate_fired(t).v == t.v,
        rotate_fired(t).s == t.s,
{
    reveal(rotate_fired);
    lemma_extends_self(t.out);
    lemma_extends_push(
        t.out,
        t.out,
        Action::Rotate { file: t.v.current(), turns: t.v.rotation },
    );
}

pub proof fn lemma_exif_carried(t: St)
    ensures
        carried(t, exif_fired(t)),
{
    reveal(exif_fired);
    lemma_extends_self(t.out);
    lemma_extends_push(t.out, t.out, Action::LoadExif { file: t.v.current() });
}

pub proof fn lemma_probe_carried(t: St, file: FileId)
    ensures
        carried(t, size_probed(t, file)),
        size_probed(t, file).v.anim == t.v.anim,
        size_probed(t, file).s == t.s,
{
    reveal(size_probed);
    lemma_extends_self(t.out);
    lemma_extends_push(t.out, t.out, Action::ProbeSize { file });
}

} // verus!
