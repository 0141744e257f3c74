//! Resource decay for backgrounded windows: ordered stages demote, drop, and
//! evict the on-screen media, shed the prefetched neighbors, and restore
//! everything when the window returns.
use crate::actions::{Action, JobZoom, Lane};
use crate::config::{
    DecayPipeline, EvictConfig, PrefetchDecay, PrefetchDropAnchor, StateDecay, VideoDecay,
};
use crate::leases::{holds, leased};
use crate::media_tasks::{
    anim_at_hand, fire_load, fire_prefetch, fire_rotate, lemma_anim_frame, lemma_load_frame,
    lemma_prefetch_frame, load_fired, prefetch_fired, rotate_fired, run_job, same_screen,
    shared_anim_started, st, try_start_shared_anim, St,
};
use crate::state::{
    DisplayedImage, DisplayedModel, Shared, SharedModel, VideoSession, VideoState, Viewer,
    ViewerModel,
};
use crate::store::Tier;
use crate::time::{longer, Duration, MAX_NANOS};
use crate::window::{bumped, next_number, wt, Window, WindowState, Wt};
use vstd::prelude::*;

verus! {

/// One stage of a backgrounded window's decay pipeline, run in this order and
/// each at its own delay from when the window entered the state. Which stages
/// apply depends on the on-screen media: a still runs demote/drop/evict, an
/// animation only evict, a video only its session release.
#[derive(Clone, Copy, PartialEq, Eq, Structural, Debug)]
pub enum DecayStage {
    /// Demote the on-screen image to view resolution.
    Demote,
    /// Drop the on-screen image's texture; its decoded pixels survive.
    DropVram,
    /// Free the decoded pixels, so they are read again on return.
    EvictRam,
    /// Release an open video's decode session, freezing the last frame.
    EvictVideo,
    /// Release the furthest remaining ring of prefetched neighbors, then come
    /// back while any remain.
    ShedPrefetch,
}

/// A stage and its delay from state entry.
pub type Armed = (DecayStage, Duration);

/// Which decay pipeline the on-screen media runs.
#[derive(Clone, Copy, PartialEq, Eq, Structural, Debug)]
pub enum DecayMedia {
    Still,
    Animated,
    Video,
}

/// A stage's position in the decay pipeline. A video's session release stands
/// in for its evict.
pub open spec fn rank_of(stage: DecayStage) -> u8 {
    match stage {
        DecayStage::Demote => 0,
        DecayStage::DropVram => 1,
        DecayStage::EvictRam | DecayStage::EvictVideo => 2,
        DecayStage::ShedPrefetch => 255,
    }
}

/// A stage's position in the decay pipeline, for the anchor fall-through.
pub fn stage_rank(stage: DecayStage) -> (rank: u8)
    ensures
        rank == rank_of(stage),
{
    match stage {
        DecayStage::Demote => 0,
        DecayStage::DropVram => 1,
        DecayStage::EvictRam | DecayStage::EvictVideo => 2,
        DecayStage::ShedPrefetch => 255,
    }
}

/// `a` and then `b`, capped at the longest duration.
pub open spec fn then_after(a: Duration, b: Duration) -> Duration {
    Duration {
        nanos: if a.nanos + b.nanos <= MAX_NANOS {
            (a.nanos + b.nanos) as u128
        } else {
            MAX_NANOS
        },
    }
}

fn delay_after(a: Duration, b: Duration) -> (d: Duration)
    ensures
        d == then_after(a, b),
{
    if a.nanos <= MAX_NANOS && b.nanos <= MAX_NANOS - a.nanos {
        Duration { nanos: a.nanos + b.nanos }
    } else {
        Duration { nanos: MAX_NANOS }
    }
}

/// The shortest `delay + after` over the stages ranked `anchor` or later.
pub open spec fn earliest(stages: Seq<Armed>, anchor: u8, after: Duration) -> Option<Duration>
    decreases stages.len(),
{
    if stages.len() == 0 {
        None
    } else {
        let before = earliest(stages.drop_last(), anchor, after);
        let (stage, delay) = stages.last();
        if rank_of(stage) < anchor {
            before
        } else {
            match before {
                Some(d) if d.nanos <= then_after(delay, after).nanos => Some(d),
                _ => Some(then_after(delay, after)),
            }
        }
    }
}

/// When the prefetch shedding starts, from state entry.
pub open spec fn shed_at(cfg: PrefetchDecay, stages: Seq<Armed>) -> Option<Duration> {
    match cfg.drop_on {
        PrefetchDropAnchor::Immediately => Some(cfg.drop_after),
        PrefetchDropAnchor::Demote => earliest(stages, 0, cfg.drop_after),
        PrefetchDropAnchor::Drop => earliest(stages, 1, cfg.drop_after),
        PrefetchDropAnchor::Evict => earliest(stages, 2, cfg.drop_after),
    }
}

/// When the prefetch shedding starts, measured from state entry: the earliest
/// armed stage at or after the anchor, plus the configured delay. `None`, which
/// keeps the prefetch, when no such stage is armed.
pub fn shed_start(cfg: &PrefetchDecay, stages: &[Armed]) -> (start: Option<Duration>)
    ensures
        start == shed_at(*cfg, stages@),
{
    let anchor: u8 = match cfg.drop_on {
        PrefetchDropAnchor::Immediately => {
            return Some(cfg.drop_after);
        },
        PrefetchDropAnchor::Demote => 0,
        PrefetchDropAnchor::Drop => 1,
        PrefetchDropAnchor::Evict => 2,
    };
    let mut start: Option<Duration> = None;
    let mut i: usize = 0;
    while i < stages.len()
        invariant
            i <= stages@.len(),
            start == earliest(stages@.take(i as int), anchor, cfg.drop_after),
        decreases stages@.len() - i,
    {
        let (stage, delay) = stages[i];
        assert(stages@.take(i + 1).drop_last() =~= stages@.take(i as int));
        if stage_rank(stage) >= anchor {
            let at = delay_after(delay, cfg.drop_after);
            start = match start {
                Some(d) if d.nanos <= at.nanos => Some(d),
                _ => Some(at),
            };
        }
        i = i + 1;
    }
    assert(stages@.take(i as int) =~= stages@);
    start
}

pub open spec fn raised_to(delay: Option<Duration>, floor: Duration) -> Option<Duration> {
    match delay {
        Some(d) => Some(longer(d, floor)),
        None => None,
    }
}

pub open spec fn floor_after(delay: Option<Duration>, floor: Duration) -> Duration {
    match delay {
        Some(d) => d,
        None => floor,
    }
}

/// Each enabled delay raised to the last enabled one before it.
pub open spec fn clamped_decay(
    demote: Option<Duration>,
    drop_vram: Option<Duration>,
    evict: Option<Duration>,
) -> (Option<Duration>, Option<Duration>, Option<Duration>) {
    let first = demote;
    let second = raised_to(drop_vram, floor_after(first, Duration { nanos: 0 }));
    let third = raised_to(
        evict,
        floor_after(second, floor_after(first, Duration { nanos: 0 })),
    );
    (first, second, third)
}

/// Clamp the pipeline deadlines so a later stage never runs before an earlier
/// one: each enabled delay is at least the previous enabled one.
pub fn clamp_decay(
    demote: Option<Duration>,
    drop_vram: Option<Duration>,
    evict: Option<Duration>,
) -> (delays: (Option<Duration>, Option<Duration>, Option<Duration>))
    ensures
        delays == clamped_decay(demote, drop_vram, evict),
{
    let mut floor = Duration::zero();
    match demote {
        Some(d) => {
            floor = d;
        },
        None => {},
    }
    let second: Option<Duration> = match drop_vram {
        Some(d) => {
            floor = d.max(floor);
            Some(floor)
        },
        None => None,
    };
    let third: Option<Duration> = match evict {
        Some(d) => Some(d.max(floor)),
        None => None,
    };
    (demote, second, third)
}

/// `stage` armed at its delay, if it has one.
pub open spec fn armed(stage: DecayStage, delay: Option<Duration>) -> Seq<Armed> {
    match delay {
        Some(d) => seq![(stage, d)],
        None => Seq::empty(),
    }
}

fn arm_in(stages: &mut Vec<Armed>, stage: DecayStage, delay: Option<Duration>)
    ensures
        final(stages)@ == old(stages)@ + armed(stage, delay),
{
    match delay {
        Some(d) => {
            stages.push((stage, d));
        },
        None => {},
    }
    assert(stages@ =~= old(stages)@ + armed(stage, delay));
}

/// The stages a still arms: the enabled ones in pipeline order, clamped.
pub open spec fn still_stages(cfg: DecayPipeline, decode: Option<Duration>) -> Seq<Armed> {
    let (demote, drop_vram, evict) = clamped_decay(
        cfg.demote_vram_after,
        cfg.drop_vram_after,
        cfg.evict.delay_spec(decode),
    );
    armed(DecayStage::Demote, demote) + armed(DecayStage::DropVram, drop_vram) + armed(
        DecayStage::EvictRam,
        evict,
    )
}

/// The enabled decay stages of a still and their delays from state entry.
pub fn decay_schedule(cfg: &DecayPipeline, decode: Option<Duration>) -> (stages: Vec<Armed>)
    ensures
        stages@ == still_stages(*cfg, decode),
{
    let (demote, drop_vram, evict) = clamp_decay(
        cfg.demote_vram_after,
        cfg.drop_vram_after,
        cfg.evict.evict_delay(decode),
    );
    let mut stages: Vec<Armed> = Vec::new();
    arm_in(&mut stages, DecayStage::Demote, demote);
    arm_in(&mut stages, DecayStage::DropVram, drop_vram);
    arm_in(&mut stages, DecayStage::EvictRam, evict);
    assert(stages@ =~= still_stages(*cfg, decode));
    stages
}

/// The stage an animation arms: it has no texture tier, so only the evict.
pub fn anim_decay_schedule(cfg: &EvictConfig, decode: Option<Duration>) -> (stages: Vec<Armed>)
    ensures
        stages@ == armed(DecayStage::EvictRam, cfg.delay_spec(decode)),
{
    let mut stages: Vec<Armed> = Vec::new();
    arm_in(&mut stages, DecayStage::EvictRam, cfg.evict_delay(decode));
    assert(stages@ =~= armed(DecayStage::EvictRam, cfg.delay_spec(decode)));
    stages
}

/// The stage a video arms: the release of its whole decode session.
pub fn video_decay_schedule(cfg: &VideoDecay) -> (stages: Vec<Armed>)
    ensures
        stages@ == armed(DecayStage::EvictVideo, cfg.evict_session_after),
{
    let mut stages: Vec<Armed> = Vec::new();
    arm_in(&mut stages, DecayStage::EvictVideo, cfg.evict_session_after);
    assert(stages@ =~= armed(DecayStage::EvictVideo, cfg.evict_session_after));
    stages
}

pub open spec fn stages_for(
    media: DecayMedia,
    state: StateDecay,
    decode: Option<Duration>,
) -> Seq<Armed> {
    match media {
        DecayMedia::Video => armed(DecayStage::EvictVideo, state.video.evict_session_after),
        DecayMedia::Animated => armed(DecayStage::EvictRam, state.animated.delay_spec(decode)),
        DecayMedia::Still => still_stages(state.still, decode),
    }
}

/// The stages the given media kind arms in the given state.
pub fn schedule_for(
    media: DecayMedia,
    state: StateDecay,
    decode: Option<Duration>,
) -> (stages: Vec<Armed>)
    ensures
        stages@ == stages_for(media, state, decode),
{
    match media {
        DecayMedia::Video => video_decay_schedule(&state.video),
        DecayMedia::Animated => anim_decay_schedule(&state.animated, decode),
        DecayMedia::Still => decay_schedule(&state.still, decode),
    }
}

/// The media kind whose decay pipeline governs a viewer. A video is told by
/// its session, open or suspended, since one minimized early never showed.
pub open spec fn media_of(v: ViewerModel) -> DecayMedia {
    if v.video.session is Some || v.video.suspended is Some {
        DecayMedia::Video
    } else if v.displayed is Animated {
        DecayMedia::Animated
    } else {
        DecayMedia::Still
    }
}

/// The media kind whose decay pipeline governs the window right now.
pub fn decay_media(win: &Window) -> (media: DecayMedia)
    ensures
        media == match win@.viewer {
            Some(v) => media_of(v),
            None => DecayMedia::Still,
        },
{
    match win.viewer() {
        Some(viewer) => {
            if viewer.video.session.is_some() || viewer.video.suspended.is_some() {
                return DecayMedia::Video;
            }
            match viewer.displayed {
                DisplayedImage::Animated { .. } => DecayMedia::Animated,
                _ => DecayMedia::Still,
            }
        },
        None => DecayMedia::Still,
    }
}

/// The on-screen image's claim moved to `tier`, with the re-mint that asks for
/// fired at the zoom it is shown at. Nothing without a lease on it.
#[verifier::opaque]
pub open spec fn retargeted(t: St, window: u64, tier: Tier) -> St {
    match t.v.displayed_path {
        Some(file) if holds(t.v.cache, file) => {
            let claimed = t.s.store.claim(window, file, tier);
            St {
                v: ViewerModel { cache: leased(t.v.cache, file, tier), ..t.v },
                s: SharedModel { store: claimed.settled(file), ..t.s },
                out: t.out,
            }.run(claimed.missing_job(file), Lane::Prefetch, JobZoom::Current)
        },
        _ => t,
    }
}

/// Move the on-screen image's lease to `tier`.
fn retarget_displayed(
    viewer: &mut Viewer,
    shared: &mut Shared,
    window: u64,
    tier: Tier,
    out: &mut Vec<Action>,
)
    ensures
        st(final(viewer)@, final(shared)@, final(out)@) == retargeted(
            st(old(viewer)@, old(shared)@, old(out)@),
            window,
            tier,
        ),
{
    proof {
        reveal(retargeted);
    }
    match viewer.displayed_path {
        Some(file) => {
            if viewer.cache.holds(file) {
                let job = shared.store.request(window, file, tier);
                viewer.cache.insert(file, tier);
                run_job(job, Lane::Prefetch, JobZoom::Current, out);
            }
        },
        None => {},
    }
}

/// The on-screen animation's lease and claim lowered to nothing. The lease and
/// the dormant playback are kept, so aggregate demand alone decides.
pub open spec fn anim_evicted(t: St, window: u64) -> St {
    match t.v.displayed_path {
        Some(file) if holds(t.v.anim.cache, file) => St {
            v: ViewerModel { anim: t.v.anim.retargeted(file, Tier::Evicted), ..t.v },
            s: SharedModel {
                anims: t.s.anims.claim(window, file, Tier::Evicted).settled(file),
                ..t.s
            },
            ..t
        },
        _ => t,
    }
}

/// A viewer without its rotation override, if it has one.
pub open spec fn unrotated(v: ViewerModel) -> ViewerModel {
    match v.displayed {
        DisplayedModel::Full { original_size, rotated: Some(_) } => ViewerModel {
            displayed: DisplayedModel::Full { original_size, rotated: None },
            displayed_rotation: 0,
            ..v
        },
        _ => v,
    }
}

/// A still or animation stage run. A minimized window shows nothing, so its
/// rotation override goes too.
#[verifier::opaque]
pub open spec fn image_stage(t: St, window: u64, minimized: bool, stage: DecayStage) -> St {
    let u = if minimized {
        St { v: unrotated(t.v), ..t }
    } else {
        t
    };
    match stage {
        DecayStage::Demote => retargeted(u, window, Tier::View),
        DecayStage::DropVram => retargeted(u, window, Tier::InRam),
        _ => if u.v.displayed is Animated {
            anim_evicted(u, window)
        } else {
            retargeted(u, window, Tier::Evicted)
        },
    }
}

fn run_image_stage(
    viewer: &mut Viewer,
    shared: &mut Shared,
    window: u64,
    minimized: bool,
    stage: DecayStage,
    out: &mut Vec<Action>,
)
    ensures
        st(final(viewer)@, final(shared)@, final(out)@) == image_stage(
            st(old(viewer)@, old(shared)@, old(out)@),
            window,
            minimized,
            stage,
        ),
{
    proof {
        reveal(image_stage);
    }
    if minimized {
        let shown: Option<(u32, u32)> = match viewer.displayed {
            DisplayedImage::Full { original_size, rotated: Some(_) } => Some(original_size),
            _ => None,
        };
        match shown {
            Some(original_size) => {
                viewer.displayed = DisplayedImage::Full { original_size, rotated: None };
                viewer.displayed_rotation = 0;
            },
            None => {},
        }
    }
    let animated: bool = match viewer.displayed {
        DisplayedImage::Animated { .. } => true,
        _ => false,
    };
    match stage {
        DecayStage::Demote => retarget_displayed(viewer, shared, window, Tier::View, out),
        DecayStage::DropVram => retarget_displayed(viewer, shared, window, Tier::InRam, out),
        _ => {
            if animated {
                match viewer.displayed_path {
                    Some(file) => {
                        if viewer.anim_player.cache.holds(file) {
                            viewer.anim_player.retarget(file, Tier::Evicted);
                            shared.anim_store.request(window, file, Tier::Evicted);
                        }
                    },
                    None => {},
                }
            } else {
                retarget_displayed(viewer, shared, window, Tier::Evicted, out);
            }
        },
    }
}

/// An open session put aside for a later re-open. A minimized window also
/// drops the frozen frame.
#[verifier::opaque]
pub open spec fn video_suspended(t: St, resume: bool, minimized: bool) -> St {
    match t.v.video.session {
        Some(session) => {
            let playing = session.playing || resume;
            St {
                v: ViewerModel {
                    video: VideoState {
                        session: None,
                        suspended: Some(VideoSession { playing, ..session }),
                        frame: if minimized {
                            None
                        } else {
                            t.v.video.frame
                        },
                        ..t.v.video
                    },
                    ..t.v
                },
                ..t
            }.act(Action::SuspendVideo { playing })
        },
        None => t,
    }
}

fn suspend_video(viewer: &mut Viewer, resume: bool, minimized: bool, out: &mut Vec<Action>)
    ensures
        forall|s: SharedModel|
            #![trigger st(old(viewer)@, s, old(out)@)]
            st(final(viewer)@, s, final(out)@) == video_suspended(
                st(old(viewer)@, s, old(out)@),
                resume,
                minimized,
            ),
{
    proof {
        reveal(video_suspended);
    }
    match viewer.video.session {
        Some(session) => {
            let playing: bool = session.playing || resume;
            viewer.video.suspended = Some(
                VideoSession {
                    playing,
                    looping: session.looping,
                    muted: session.muted,
                    temp: session.temp,
                },
            );
            viewer.video.session = None;
            if minimized {
                viewer.video.frame = None;
            }
            out.push(Action::SuspendVideo { playing });
        },
        None => {},
    }
}

/// The outer prefetch ring shed, coming back after the configured interval
/// while neighbors remain.
#[verifier::opaque]
pub open spec fn shed_run(t: Wt, generation: u64) -> Wt {
    let state = t.w.state.value;
    match t.w.viewer {
        Some(v) => {
            let shed = Wt { s: v.shed_shared(state.id, t.s), ..t }.with_viewer(Some(v.shed()));
            if v.shed().prefetched().len() > 0 {
                shed.act(
                    Action::ArmDecay {
                        generation,
                        stage: DecayStage::ShedPrefetch,
                        delay: t.s.config.value.resource.value.state_spec(
                            state.minimized,
                        ).prefetch.drop_interval,
                    },
                )
            } else {
                shed
            }
        },
        None => t,
    }
}

/// The video put aside, to play on later if it was playing or was paused by
/// the minimize.
#[verifier::opaque]
pub open spec fn video_run(t: Wt) -> Wt {
    let state = t.w.state.value;
    let put_aside = match t.w.viewer {
        Some(_) => t.with_inner(
            video_suspended(t.inner(), state.video_resumes_on_restore, state.minimized),
        ),
        None => t,
    };
    put_aside.with_state(WindowState { video_resumes_on_restore: false, ..state })
}

#[verifier::opaque]
pub open spec fn image_run(t: Wt, stage: DecayStage) -> Wt {
    let state = t.w.state.value;
    match t.w.viewer {
        Some(_) => t.with_inner(image_stage(t.inner(), state.id, state.minimized, stage)),
        None => t,
    }
}

/// One decay stage run, unless it was armed under another generation.
pub open spec fn stage_run(t: Wt, generation: u64, stage: DecayStage) -> Wt {
    if generation != t.w.state.value.decay_generation {
        t
    } else {
        match stage {
            DecayStage::ShedPrefetch => shed_run(t, generation),
            DecayStage::EvictVideo => video_run(t),
            _ => image_run(t, stage),
        }
    }
}

fn run_shed(win: &mut Window, shared: &mut Shared, generation: u64, out: &mut Vec<Action>)
    requires
        old(win)@.wf(),
    ensures
        wt(final(win)@, final(shared)@, final(out)@) == shed_run(
            wt(old(win)@, old(shared)@, old(out)@),
            generation,
        ),
        final(win)@.wf(),
{
    proof {
        reveal(shed_run);
        reveal(ViewerModel::shed);
    }
    let window: u64 = win.state.value.id;
    let stage = DecayStage::ShedPrefetch;
    let state = shared.config.value.resource.value.for_state(win.state.value.minimized);
    let delay = state.prefetch.drop_interval;
    match win.viewer_mut() {
        Some(viewer) => {
            if viewer.drop_prefetch_ring(window, shared) {
                out.push(Action::ArmDecay { generation, stage, delay });
            }
        },
        None => {},
    }
}

fn run_video(win: &mut Window, shared: &Shared, out: &mut Vec<Action>)
    requires
        old(win)@.wf(),
    ensures
        wt(final(win)@, shared@, final(out)@) == video_run(wt(old(win)@, shared@, old(out)@)),
        final(win)@.wf(),
{
    proof {
        reveal(video_run);
    }
    let minimized: bool = win.state.value.minimized;
    let resume: bool = win.state.value.video_resumes_on_restore;
    match win.viewer_mut() {
        Some(viewer) => {
            let ghost before = st(viewer@, shared@, out@);
            suspend_video(viewer, resume, minimized, out);
            assert(st(viewer@, shared@, out@) == video_suspended(before, resume, minimized));
            proof {
                lemma_video_suspended(before, resume, minimized);
            }
        },
        None => {},
    }
    win.set_state(WindowState { video_resumes_on_restore: false, ..win.state.value });
}

fn run_image(
    win: &mut Window,
    shared: &mut Shared,
    stage: DecayStage,
    out: &mut Vec<Action>,
)
    requires
        old(win)@.wf(),
    ensures
        wt(final(win)@, final(shared)@, final(out)@) == image_run(
            wt(old(win)@, old(shared)@, old(out)@),
            stage,
        ),
        final(win)@.wf(),
{
    proof {
        reveal(image_run);
    }
    let window: u64 = win.state.value.id;
    let minimized: bool = win.state.value.minimized;
    match win.viewer_mut() {
        Some(viewer) => {
            proof {
                lemma_image_stage(st(viewer@, shared@, out@), window, minimized, stage);
            }
            run_image_stage(viewer, shared, window, minimized, stage, out);
        },
        None => {},
    }
}

/// Run one decay stage, unless a focus or minimize change has since bumped the
/// generation it was armed under.
pub fn run_decay_stage(
    win: &mut Window,
    shared: &mut Shared,
    generation: u64,
    stage: DecayStage,
    out: &mut Vec<Action>,
)
    requires
        old(win)@.wf(),
    ensures
        wt(final(win)@, final(shared)@, final(out)@) == stage_run(
            wt(old(win)@, old(shared)@, old(out)@),
            generation,
            stage,
        ),
        final(win)@.wf(),
{
    if generation != win.state.value.decay_generation {
        return ;
    }
    match stage {
        DecayStage::ShedPrefetch => run_shed(win, shared, generation, out),
        DecayStage::EvictVideo => run_video(win, shared, out),
        DecayStage::Demote | DecayStage::DropVram | DecayStage::EvictRam => run_image(
            win,
            shared,
            stage,
            out,
        ),
    }
}

proof fn lemma_video_suspended(t: St, resume: bool, minimized: bool)
    ensures
        same_screen(t, video_suspended(t, resume, minimized)),
        video_suspended(t, resume, minimized).s == t.s,
{
    reveal(video_suspended);
}

proof fn lemma_image_stage(t: St, window: u64, minimized: bool, stage: DecayStage)
    ensures
        image_stage(t, window, minimized, stage).v.nav == t.v.nav,
        image_stage(t, window, minimized, stage).v.pending_nav == t.v.pending_nav,
        image_stage(t, window, minimized, stage).v.rotation == t.v.rotation,
{
    reveal(image_stage);
    reveal(retargeted);
}

/// The on-screen image brought back to what a visible window needs: a released
/// video re-opens, the image returns to full resolution, a rotation override
/// is derived again, and a focused window re-warms its neighbors.
#[verifier::opaque]
pub open spec fn restored(t: St, window: u64, focused: bool) -> St {
    let reopened = match t.v.video.suspended {
        Some(session) => St {
            v: ViewerModel {
                video: VideoState { session: Some(session), suspended: None, ..t.v.video },
                ..t.v
            },
            ..t
        }.act(Action::ResumeVideo),
        None => t,
    };
    let sharpened = match t.v.displayed_path {
        Some(file) => if t.v.displayed is Animated {
            let leased = shared_anim_started(reopened, window, file);
            if anim_at_hand(reopened, file) {
                leased
            } else {
                load_fired(leased, window, file, Tier::Full)
            }
        } else {
            rotate_fired(load_fired(reopened, window, file, Tier::Full))
        },
        None => reopened,
    };
    if focused {
        prefetch_fired(sharpened, window)
    } else {
        sharpened
    }
}

pub proof fn lemma_restored(t: St, window: u64, focused: bool)
    ensures
        restored(t, window, focused).v.nav == t.v.nav,
        restored(t, window, focused).v.pending_nav == t.v.pending_nav,
        restored(t, window, focused).v.rotation == t.v.rotation,
        restored(t, window, focused).v.displayed_path == t.v.displayed_path,
        restored(t, window, focused).v.displayed == t.v.displayed,
        restored(t, window, focused).s.config == t.s.config,
{
    reveal(restored);
    reveal(rotate_fired);
    let reopened = match t.v.video.suspended {
        Some(session) => St {
            v: ViewerModel {
                video: VideoState { session: Some(session), suspended: None, ..t.v.video },
                ..t.v
            },
            ..t
        }.act(Action::ResumeVideo),
        None => t,
    };
    match t.v.displayed_path {
        Some(file) => {
            lemma_anim_frame(reopened, window, file);
            let leased = shared_anim_started(reopened, window, file);
            lemma_load_frame(leased, window, file, Tier::Full);
            lemma_load_frame(reopened, window, file, Tier::Full);
            lemma_prefetch_frame(leased, window);
            lemma_prefetch_frame(load_fired(leased, window, file, Tier::Full), window);
            lemma_prefetch_frame(
                rotate_fired(load_fired(reopened, window, file, Tier::Full)),
                window,
            );
        },
        None => {
            lemma_prefetch_frame(reopened, window);
        },
    }
}

/// Restore the on-screen image to what the window's new state needs.
fn restore_display(
    viewer: &mut Viewer,
    shared: &mut Shared,
    window: u64,
    focused: bool,
    out: &mut Vec<Action>,
)
    requires
        old(viewer)@.wf(),
    ensures
        st(final(viewer)@, final(shared)@, final(out)@) == restored(
            st(old(viewer)@, old(shared)@, old(out)@),
            window,
            focused,
        ),
        final(viewer)@.wf(),
{
    let ghost before = st(viewer@, shared@, out@);
    proof {
        reveal(restored);
        lemma_restored(before, window, focused);
    }
    match viewer.video.suspended {
        Some(session) => {
            viewer.video.session = Some(session);
            viewer.video.suspended = None;
            out.push(Action::ResumeVideo);
        },
        None => {},
    }
    let ghost reopened = st(viewer@, shared@, out@);
    let animated: bool = match viewer.displayed {
        DisplayedImage::Animated { .. } => true,
        _ => false,
    };
    match viewer.displayed_path {
        Some(file) => {
            proof {
                lemma_anim_frame(reopened, window, file);
                lemma_load_frame(
                    shared_anim_started(reopened, window, file),
                    window,
                    file,
                    Tier::Full,
                );
                lemma_load_frame(reopened, window, file, Tier::Full);
            }
            if animated {
                if !try_start_shared_anim(viewer, shared, window, file, out) {
                    fire_load(viewer, shared, window, file, Tier::Full, out);
                }
            } else {
                fire_load(viewer, shared, window, file, Tier::Full, out);
                fire_rotate(viewer, shared, out);
            }
        },
        None => {},
    }
    if focused {
        fire_prefetch(viewer, shared, window, out);
    }
}

/// The decode time of the on-screen image, measured by the store that owns it.
pub open spec fn decode_time_of(v: ViewerModel, s: SharedModel) -> Option<Duration> {
    match v.displayed_path {
        Some(file) => if media_of(v) is Animated {
            s.anims.decode_time(file)
        } else {
            s.store.decode_time(file)
        },
        None => None,
    }
}

/// One timer for each of the first `n` stages.
pub open spec fn arming(stages: Seq<Armed>, generation: u64) -> Seq<Action> {
    stages.map_values(
        |a: Armed| Action::ArmDecay { generation, stage: a.0, delay: a.1 },
    )
}

/// The timers a background window arms: the shedding first, then the stages of
/// its media.
#[verifier::opaque]
pub open spec fn background_timers(t: Wt, generation: u64) -> Seq<Action> {
    let state = t.s.config.value.resource.value.state_spec(t.w.state.value.minimized);
    let stages = match t.w.viewer {
        Some(v) => stages_for(media_of(v), state, decode_time_of(v, t.s)),
        None => stages_for(DecayMedia::Still, state, None),
    };
    let shed: Seq<Action> = match shed_at(state.prefetch, stages) {
        Some(delay) => seq![
            Action::ArmDecay { generation, stage: DecayStage::ShedPrefetch, delay },
        ],
        None => Seq::empty(),
    };
    shed + arming(stages, generation)
}

/// What a visible window shows, restored.
#[verifier::opaque]
pub open spec fn window_restored(t: Wt) -> Wt {
    match t.w.viewer {
        Some(_) if !t.w.state.value.minimized => t.with_inner(
            restored(t.inner(), t.w.state.value.id, t.w.state.value.focused),
        ),
        _ => t,
    }
}

proof fn lemma_window_restored(t: Wt)
    ensures
        window_restored(t).w.state == t.w.state,
        window_restored(t).w.modal == t.w.modal,
        window_restored(t).w.toasts == t.w.toasts,
        window_restored(t).s.config == t.s.config,
{
    reveal(window_restored);
    if t.w.viewer is Some {
        lemma_restored(t.inner(), t.w.state.value.id, t.w.state.value.focused);
    }
}

/// The window re-evaluated under a fresh decay generation, which cancels every
/// earlier timer: what a visible window shows is restored, and a window in the
/// background arms its stages.
#[verifier::opaque]
pub open spec fn decay_restarted(t: Wt) -> Wt {
    let generation = next_number(t.w.state.value.decay_generation);
    let shown = window_restored(
        t.with_state(WindowState { decay_generation: generation, ..t.w.state.value }),
    );
    if t.w.state.value.focused && !t.w.state.value.minimized {
        shown
    } else {
        Wt { out: shown.out + background_timers(shown, generation), ..shown }
    }
}

/// Restore what a visible window shows.
fn restore_window(win: &mut Window, shared: &mut Shared, out: &mut Vec<Action>)
    requires
        old(win)@.wf(),
    ensures
        wt(final(win)@, final(shared)@, final(out)@) == window_restored(
            wt(old(win)@, old(shared)@, old(out)@),
        ),
        final(win)@.wf(),
{
    proof {
        reveal(window_restored);
    }
    let window: u64 = win.state.value.id;
    let focused: bool = win.state.value.focused;
    if !win.state.value.minimized {
        match win.viewer_mut() {
            Some(viewer) => {
                restore_display(viewer, shared, window, focused, out);
            },
            None => {},
        }
    }
}

/// Arm the shedding and the stages of a window in the background.
fn arm_stages(win: &Window, shared: &Shared, generation: u64, out: &mut Vec<Action>)
    ensures
        final(out)@ == old(out)@ + background_timers(
            wt(win@, shared@, old(out)@),
            generation,
        ),
{
    proof {
        reveal(background_timers);
    }
    let media = decay_media(win);
    let decode: Option<Duration> = match win.viewer() {
        Some(viewer) => match viewer.displayed_path {
            Some(file) => if media == DecayMedia::Animated {
                shared.anim_store.decode_time(file)
            } else {
                shared.store.decode_time(file)
            },
            None => None,
        },
        None => None,
    };
    let ghost shown = wt(win@, shared@, out@);
    let state = shared.config.value.resource.value.for_state(win.state.value.minimized);
    let stages = schedule_for(media, state, decode);
    match shed_start(&state.prefetch, stages.as_slice()) {
        Some(delay) => {
            out.push(Action::ArmDecay { generation, stage: DecayStage::ShedPrefetch, delay });
        },
        None => {},
    }
    let ghost shed = out@;
    let mut i: usize = 0;
    assert(shed =~= shed + arming(stages@.take(0), generation));
    while i < stages.len()
        invariant
            i <= stages@.len(),
            out@ == shed + arming(stages@.take(i as int), generation),
        decreases stages@.len() - i,
    {
        let (stage, delay) = stages[i];
        out.push(Action::ArmDecay { generation, stage, delay });
        i = i + 1;
        assert(arming(stages@.take(i as int), generation) =~= arming(
            stages@.take(i - 1),
            generation,
        ).push(Action::ArmDecay { generation, stage, delay }));
        assert(out@ =~= shed + arming(stages@.take(i as int), generation));
    }
    assert(stages@.take(i as int) =~= stages@);
    assert(out@ =~= shown.out + background_timers(shown, generation));
}

/// Re-evaluate the window's resource state after a focus or minimize change.
pub fn restart_decay(win: &mut Window, shared: &mut Shared, out: &mut Vec<Action>)
    requires
        old(win)@.wf(),
    ensures
        wt(final(win)@, final(shared)@, final(out)@) == decay_restarted(
            wt(old(win)@, old(shared)@, old(out)@),
        ),
        final(win)@.wf(),
{
    let ghost before = wt(win@, shared@, out@);
    let generation: u64 = bumped(win.state.value.decay_generation);
    win.set_state(WindowState { decay_generation: generation, ..win.state.value });
    let ghost fresh = wt(win@, shared@, out@);
    assert(fresh == before.with_state(
        WindowState { decay_generation: generation, ..before.w.state.value },
    ));
    restore_window(win, shared, out);
    let ghost shown = wt(win@, shared@, out@);
    proof {
        lemma_window_restored(fresh);
    }
    if win.state.value.focused && !win.state.value.minimized {
        assert(shown == decay_restarted(before)) by {
            reveal(decay_restarted);
        }
        return ;
    }
    arm_stages(win, shared, generation, out);
    assert(wt(win@, shared@, out@) == decay_restarted(before)) by {
        reveal(decay_restarted);
    }
}

/// Whatever is configured, the delays of a still's stages never decrease along
/// the pipeline.
pub proof fn law_stages_run_forward(cfg: DecayPipeline, decode: Option<Duration>, i: int, j: int)
    requires
        0 <= i <= j < still_stages(cfg, decode).len(),
    ensures
        still_stages(cfg, decode)[i].1.nanos <= still_stages(cfg, decode)[j].1.nanos,
        rank_of(still_stages(cfg, decode)[i].0) <= rank_of(still_stages(cfg, decode)[j].0),
{
}

/// Clamping neither enables nor disables a stage, nor brings one forward.
pub proof fn law_clamping_only_delays(
    demote: Option<Duration>,
    drop_vram: Option<Duration>,
    evict: Option<Duration>,
)
    ensures
        ({
            let (a, b, c) = clamped_decay(demote, drop_vram, evict);
            &&& a == demote
            &&& b is Some <==> drop_vram is Some
            &&& c is Some <==> evict is Some
            &&& b is Some ==> b->0.nanos >= drop_vram->0.nanos
            &&& c is Some ==> c->0.nanos >= evict->0.nanos
            &&& clamped_decay(a, b, c) == (a, b, c)
        }),
{
}

/// Restarting the decay makes every timer armed before it stale: such a timer
/// then changes nothing.
pub proof fn law_restart_supersedes_earlier_timers(t: Wt, stage: DecayStage)
    ensures
        stage_run(decay_restarted(t), t.w.state.value.decay_generation, stage)
            == decay_restarted(t),
{
    reveal(decay_restarted);
    let generation = next_number(t.w.state.value.decay_generation);
    lemma_window_restored(
        t.with_state(WindowState { decay_generation: generation, ..t.w.state.value }),
    );
}

/// Running a stage under the current generation keeps that generation, so the
/// later stages armed with it stay valid.
pub proof fn law_stages_share_a_generation(t: Wt, generation: u64, stage: DecayStage)
    ensures
        stage_run(t, generation, stage).w.state.value.decay_generation
            == t.w.state.value.decay_generation,
{
    reveal(shed_run);
    reveal(video_run);
    reveal(image_run);
}

/// A background window's decay never takes the texture or the pixels of an
/// image that another window still claims as a texture.
pub proof fn law_decay_spares_shared_images(
    t: St,
    i: int,
    window: u64,
    minimized: bool,
    stage: DecayStage,
)
    requires
        0 <= i < t.s.store.claims.len(),
        t.s.store.claims[i].window != window,
        t.s.store.claims[i].want.rank_spec() >= Tier::View.rank_spec(),
    ensures
        ({
            let file = t.s.store.claims[i].file;
            let after = image_stage(t, window, minimized, stage);
            &&& after.s.store.ram(file) == t.s.store.ram(file)
            &&& after.s.store.texture(file) == t.s.store.texture(file)
        }),
{
    reveal(image_stage);
    reveal(retargeted);
    crate::store::law_shared_image_never_blanks(t.s.store, i, window, Tier::View);
    crate::store::law_shared_image_never_blanks(t.s.store, i, window, Tier::InRam);
    crate::store::law_shared_image_never_blanks(t.s.store, i, window, Tier::Evicted);
}

} // verus!
