//! What a window in the background gives up, and when.
use crate::actions::{Action, JobZoom, Lane};
use crate::config::{EvictPolicy, PrefetchDecay, PrefetchDropAnchor, PrefetchVram};
use crate::decay::{
    arming, background_timers, decay_restarted, decode_time_of, earliest, image_run, image_stage,
    lemma_restored, media_of, rank_of, restored, retargeted, shed_at, shed_run, still_stages,
    then_after, video_run, video_suspended, window_restored, Armed, DecayMedia, DecayStage,
};
use crate::dispatch::{dispatched, window_message};
use crate::files::FileId;
use crate::laws::arrival::lemma_prefetch_leases;
use crate::laws::loading::{
    added, extends, lemma_added_since, lemma_asks_kept_by_load, lemma_extends_push,
    lemma_extends_self, lemma_extends_trans, lemma_leased, lemma_rotate_carried,
};
use crate::laws::opening::lemma_released_entries;
use crate::leases::{files_of, leases_within, lemma_filtered_holds, want_of};
use crate::media_tasks::{
    anim_at_hand, lemma_anim_frame, lemma_load_frame, load_fired, prefetch_fired, rotate_fired,
    shared_anim_started, Ctx, St,
};
use crate::message::{Message, WindowMessage};
use crate::paths::is_video;
use crate::state::{DisplayedModel, SharedModel, VideoSession, VideoState, ViewerModel};
use crate::store::{claimed, demand, others, Claim, Job, Tier};
use crate::time::Duration;
use crate::window::{WindowState, Wt};
use vstd::prelude::*;

verus! {

/// The tier a stage leaves a still at.
pub open spec fn tier_of(stage: DecayStage) -> Tier {
    match stage {
        DecayStage::Demote => Tier::View,
        DecayStage::DropVram => Tier::InRam,
        _ => Tier::Evicted,
    }
}

/// Whether nobody but `window` has a claim on `file`.
pub open spec fn sole_claimant(claims: Seq<Claim>, window: u64, file: FileId) -> bool {
    forall|k: int|
        0 <= k < claims.len() && (#[trigger] claims[k]).file == file ==> claims[k].window == window
}

proof fn lemma_no_demand(claims: Seq<Claim>, file: FileId)
    requires
        forall|k: int| 0 <= k < claims.len() ==> (#[trigger] claims[k]).file != file,
    ensures
        demand(claims, file) == Tier::Evicted,
    decreases claims.len(),
{
    if claims.len() > 0 {
        assert(claims[claims.len() - 1].file != file);
        assert forall|k: int| 0 <= k < claims.drop_last().len() implies (
        #[trigger] claims.drop_last()[k]).file != file by {
            assert(claims[k].file != file);
        }
        lemma_no_demand(claims.drop_last(), file);
    }
}

/// A sole claimant's claim is the demand.
pub proof fn lemma_sole_demand(claims: Seq<Claim>, window: u64, file: FileId, want: Tier)
    requires
        sole_claimant(claims, window, file),
    ensures
        demand(claimed(claims, window, file, want), file) == want,
{
    let rest = others(claims, window, file);
    let keep = |c: Claim| !(c.window == window && c.file == file);
    assert forall|k: int| 0 <= k < rest.len() implies (#[trigger] rest[k]).file != file by {
        claims.lemma_filter_pred(keep, k);
        if rest[k].file == file {
            assert(rest.contains(rest[k]));
            claims.lemma_filter_contains_rev(keep, rest[k]);
            let j = choose|j: int| 0 <= j < claims.len() && claims[j] == rest[k];
            assert(claims[j].window == window);
        }
    }
    lemma_no_demand(rest, file);
    let all = claimed(claims, window, file, want);
    assert(all.drop_last() =~= rest);
}

/// Whether a decay stage applies to the window and has a held still on display.
pub open spec fn decays(before: Wt, file: FileId) -> bool {
    &&& before.w.viewer is Some
    &&& before.w.viewer->0.displayed_path == Some(file)
    &&& want_of(before.w.viewer->0.cache, file) is Some
    &&& !(before.w.viewer->0.displayed is Animated)
}

/// Each decay stage of a still takes the window's hold on its display one step
/// down: to a texture of the size shown, to the pixels alone, to nothing. Where
/// no other window holds the image, the store drops what is then too much and
/// remakes the texture at the size shown. The other leases stay as they are.
pub proof fn law_stage_lowers_the_display(
    before: Wt,
    after: Wt,
    ctx: Ctx,
    stage: DecayStage,
    file: FileId,
)
    requires
        dispatched(
            before,
            after,
            ctx,
            Message::Window(
                WindowMessage::Decay {
                    generation: before.w.state.value.decay_generation,
                    stage,
                },
            ),
        ),
        stage == DecayStage::Demote || stage == DecayStage::DropVram || stage
            == DecayStage::EvictRam,
        decays(before, file),
    ensures
        ({
            let v = before.w.viewer->0;
            let now = after.w.viewer->0;
            let id = before.w.state.value.id;
            let entry = before.s.store.entry(file);
            let left = after.s.store.entry(file);
            &&& after.w.viewer is Some
            &&& want_of(now.cache, file) == Some(tier_of(stage))
            &&& after.s.store.claims.contains(Claim { window: id, file, want: tier_of(stage) })
            &&& forall|other: FileId|
                #![trigger want_of(now.cache, other)]
                other != file ==> want_of(now.cache, other) == want_of(v.cache, other)
            &&& now.nav == v.nav
            &&& now.displayed_path == v.displayed_path
            &&& match v.displayed {
                DisplayedModel::Full { original_size, rotated: Some(_) } =>
                    if before.w.state.value.minimized {
                        now.displayed == DisplayedModel::Full { original_size, rotated: None }
                            && now.displayed_rotation == 0
                    } else {
                        now.displayed == v.displayed && now.displayed_rotation
                            == v.displayed_rotation
                    },
                _ => now.displayed == v.displayed && now.displayed_rotation
                    == v.displayed_rotation,
            }
            &&& sole_claimant(before.s.store.claims, id, file) ==> match stage {
                DecayStage::Demote => {
                    let redo = !entry.pending && entry.ram is Some && !(entry.minted is Some
                        && entry.minted->0.tier == Tier::View);
                    &&& left.ram == entry.ram
                    &&& left.minted == entry.minted
                    &&& redo ==> after.out == before.out.push(
                        Action::RunJob {
                            job: Job::Upload { file, tier: Tier::View },
                            lane: Lane::Prefetch,
                            zoom: JobZoom::Current,
                        },
                    )
                },
                DecayStage::DropVram => left.ram == entry.ram && left.minted is None,
                _ => left.ram is None && left.minted is None && after.out == before.out,
            }
        }),
{
    reveal(window_message);
    reveal(image_run);
    reveal(image_stage);
    reveal(retargeted);
    let v = before.w.viewer->0;
    let id = before.w.state.value.id;
    let tier = tier_of(stage);
    let claims = claimed(before.s.store.claims, id, file, tier);
    let mine = Claim { window: id, file, want: tier };
    assert(claims.last() == mine);
    assert(claims[claims.len() - 1] == mine);
    lemma_leased(v.cache, file, tier, file);
    assert forall|other: FileId|
        #![trigger want_of(after.w.viewer->0.cache, other)]
        other != file implies want_of(after.w.viewer->0.cache, other) == want_of(
        v.cache,
        other,
    ) by {
        lemma_leased(v.cache, file, tier, other);
    }
    if sole_claimant(before.s.store.claims, id, file) {
        lemma_sole_demand(before.s.store.claims, id, file, tier);
    }
}

/// The evict stage of an animation lets go of its frames; where no other window
/// holds it they are gone.
pub proof fn law_evict_lets_the_frames_go(before: Wt, after: Wt, ctx: Ctx, file: FileId)
    requires
        dispatched(
            before,
            after,
            ctx,
            Message::Window(
                WindowMessage::Decay {
                    generation: before.w.state.value.decay_generation,
                    stage: DecayStage::EvictRam,
                },
            ),
        ),
        before.w.viewer is Some,
        before.w.viewer->0.displayed is Animated,
        before.w.viewer->0.displayed_path == Some(file),
        want_of(before.w.viewer->0.anim.cache, file) is Some,
    ensures
        after.w.viewer is Some,
        want_of(after.w.viewer->0.anim.cache, file) == Some(Tier::Evicted),
        after.w.viewer->0.cache == before.w.viewer->0.cache,
        after.w.viewer->0.displayed == before.w.viewer->0.displayed,
        after.s.store == before.s.store,
        after.out == before.out,
        sole_claimant(before.s.anims.claims, before.w.state.value.id, file)
            ==> !after.s.anims.frames.contains_key(file),
{
    reveal(window_message);
    reveal(image_run);
    reveal(image_stage);
    let id = before.w.state.value.id;
    lemma_leased(before.w.viewer->0.anim.cache, file, Tier::Evicted, file);
    if sole_claimant(before.s.anims.claims, id, file) {
        lemma_sole_demand(before.s.anims.claims, id, file, Tier::Evicted);
    }
}

/// The evict stage of a video puts its session aside, to play on where it was
/// playing or was paused by the minimize alone; a minimized window lets go of
/// the frame as well. Nothing happens without an open session.
pub proof fn law_evict_puts_the_session_aside(before: Wt, after: Wt, ctx: Ctx)
    requires
        dispatched(
            before,
            after,
            ctx,
            Message::Window(
                WindowMessage::Decay {
                    generation: before.w.state.value.decay_generation,
                    stage: DecayStage::EvictVideo,
                },
            ),
        ),
        before.w.viewer is Some,
    ensures
        after.w.viewer is Some,
        after.s == before.s,
        !after.w.state.value.video_resumes_on_restore,
        before.w.viewer->0.video.session is None ==> after.w.viewer == before.w.viewer
            && after.out == before.out,
        before.w.viewer->0.video.session is Some ==> {
            let v = before.w.viewer->0;
            let session = v.video.session->0;
            let playing = session.playing || before.w.state.value.video_resumes_on_restore;
            &&& after.w.viewer->0 == (ViewerModel {
                video: VideoState {
                    session: None,
                    suspended: Some(VideoSession { playing, ..session }),
                    frame: if before.w.state.value.minimized {
                        None
                    } else {
                        v.video.frame
                    },
                    ..v.video
                },
                ..v
            })
            &&& after.out == before.out.push(Action::SuspendVideo { playing })
        },
{
    reveal(window_message);
    reveal(video_run);
    reveal(video_suspended);
}

/// A stage armed under another generation changes nothing.
pub proof fn law_stale_stage_changes_nothing(
    before: Wt,
    after: Wt,
    ctx: Ctx,
    generation: u64,
    stage: DecayStage,
)
    requires
        dispatched(
            before,
            after,
            ctx,
            Message::Window(WindowMessage::Decay { generation, stage }),
        ),
        generation != before.w.state.value.decay_generation,
    ensures
        after.w.viewer == before.w.viewer,
        after.s == before.s,
        after.out == before.out,
{
    reveal(window_message);
}

/// Whether the timer for `stage` is set in `acts`.
pub open spec fn sets_timer(
    acts: Seq<Action>,
    generation: u64,
    stage: DecayStage,
    delay: Duration,
) -> bool {
    acts.contains(Action::ArmDecay { generation, stage, delay })
}

/// The longer of two lengths of time.
pub open spec fn at_least(d: Duration, floor: Option<Duration>) -> Duration {
    if floor is Some && floor->0.nanos > d.nanos {
        floor->0
    } else {
        d
    }
}

/// Whether a window with nothing but a still on display has the timers its
/// settings ask for: each enabled stage once, none before the one ahead of it.
pub open spec fn still_timers(
    acts: Seq<Action>,
    generation: u64,
    demote: Option<Duration>,
    drop_vram: Option<Duration>,
    evict: Option<Duration>,
) -> bool {
    let texture_gone = match drop_vram {
        Some(d) => Some(at_least(d, demote)),
        None => demote,
    };
    &&& demote is Some ==> sets_timer(acts, generation, DecayStage::Demote, demote->0)
    &&& drop_vram is Some ==> sets_timer(
        acts,
        generation,
        DecayStage::DropVram,
        at_least(drop_vram->0, demote),
    )
    &&& evict is Some ==> sets_timer(
        acts,
        generation,
        DecayStage::EvictRam,
        at_least(evict->0, texture_gone),
    )
}

/// The fixed time after which an unused image is given up, where there is one.
pub open spec fn fixed_evict(policy: EvictPolicy) -> Option<Duration> {
    match policy {
        EvictPolicy::Fixed(d) => Some(d),
        _ => None,
    }
}

/// Whether a window has the timers its settings ask for: those of a video where
/// one is open or put aside, those of an animation where one is on screen, and
/// those of a still otherwise.
pub open spec fn timers_set(t: Wt, acts: Seq<Action>, generation: u64) -> bool {
    let resource = t.s.config.value.resource.value;
    let state = if t.w.state.value.minimized {
        resource.minimized
    } else {
        resource.unfocused
    };
    let v = t.w.viewer->0;
    if t.w.viewer is Some && (v.video.session is Some || v.video.suspended is Some) {
        state.video.evict_session_after is Some ==> sets_timer(
            acts,
            generation,
            DecayStage::EvictVideo,
            state.video.evict_session_after->0,
        )
    } else if t.w.viewer is Some && v.displayed is Animated {
        let evict = fixed_evict(state.animated.evict_ram);
        evict is Some ==> sets_timer(acts, generation, DecayStage::EvictRam, evict->0)
    } else {
        still_timers(
            acts,
            generation,
            state.still.demote_vram_after,
            state.still.drop_vram_after,
            fixed_evict(state.still.evict.evict_ram),
        )
    }
}

/// A window that is out of focus or minimized sets a timer for each decay stage
/// its settings enable, under a fresh generation. The settings are those of a
/// minimized window where it is minimized, and of an unfocused one otherwise.
pub proof fn law_background_window_sets_its_timers(t: Wt)
    requires
        t.w.state.value.minimized || !t.w.state.value.focused,
        t.w.state.value.decay_generation < u64::MAX,
    ensures
        ({
            let after = decay_restarted(t);
            let generation = (t.w.state.value.decay_generation + 1) as u64;
            &&& after.w.state.value.decay_generation == generation
            &&& extends(t.out, after.out)
            &&& timers_set(t, added(t.out, after.out), generation)
        }),
{
    reveal(decay_restarted);
    reveal(window_restored);
    let generation = (t.w.state.value.decay_generation + 1) as u64;
    let resource = t.s.config.value.resource.value;
    let state = if t.w.state.value.minimized {
        resource.minimized
    } else {
        resource.unfocused
    };
    let fresh = t.with_state(WindowState { decay_generation: generation, ..t.w.state.value });
    let shown = window_restored(fresh);
    let after = decay_restarted(t);
    let timers = background_timers(shown, generation);
    let id = t.w.state.value.id;
    lemma_extends_self(t.out);
    if t.w.viewer is Some && !t.w.state.value.minimized {
        let v = t.w.viewer->0;
        let inner = fresh.inner();
        let reopened = match v.video.suspended {
            Some(session) => St {
                v: ViewerModel {
                    video: VideoState { session: Some(session), suspended: None, ..v.video },
                    ..v
                },
                ..inner
            }.act(Action::ResumeVideo),
            None => inner,
        };
        lemma_restored_tail(reopened, inner, id, false);
        lemma_restored(inner, id, false);
        lemma_extends_push(t.out, t.out, Action::ResumeVideo);
        lemma_extends_trans(t.out, reopened.out, shown.out);
    }
    assert(extends(shown.out, after.out)) by {
        assert(after.out.take(shown.out.len() as int) =~= shown.out);
    }
    lemma_extends_trans(t.out, shown.out, after.out);
    assert(after.out == shown.out + timers);
    assert forall|x: Action| timers.contains(x) implies #[trigger] added(
        t.out,
        after.out,
    ).contains(x) by {
        assert(added(shown.out, after.out) =~= timers);
        lemma_added_since(t.out, shown.out, after.out, x);
    }
    if shown.w.viewer is None || media_of(shown.w.viewer->0) == DecayMedia::Still {
        let decode = match shown.w.viewer {
            Some(v) => decode_time_of(v, shown.s),
            None => None,
        };
        lemma_still_timers(
            shown,
            generation,
            state.still.demote_vram_after,
            state.still.drop_vram_after,
            state.still.evict.delay_spec(decode),
        );
    } else {
        reveal(background_timers);
        if media_of(shown.w.viewer->0) == DecayMedia::Video {
            if state.video.evict_session_after is Some {
                assert(timers.last() == (Action::ArmDecay {
                    generation,
                    stage: DecayStage::EvictVideo,
                    delay: state.video.evict_session_after->0,
                }));
            }
        } else {
            let evict = fixed_evict(state.animated.evict_ram);
            if evict is Some {
                assert(timers.last() == (Action::ArmDecay {
                    generation,
                    stage: DecayStage::EvictRam,
                    delay: evict->0,
                }));
            }
        }
    }
}

proof fn lemma_still_timers(
    shown: Wt,
    generation: u64,
    demote: Option<Duration>,
    drop_vram: Option<Duration>,
    evict: Option<Duration>,
)
    requires
        ({
            let resource = shown.s.config.value.resource.value;
            let state = if shown.w.state.value.minimized {
                resource.minimized
            } else {
                resource.unfocused
            };
            let decode = match shown.w.viewer {
                Some(v) => decode_time_of(v, shown.s),
                None => None,
            };
            &&& state.still.demote_vram_after == demote
            &&& state.still.drop_vram_after == drop_vram
            &&& state.still.evict.delay_spec(decode) == evict
        }),
        shown.w.viewer is Some ==> media_of(shown.w.viewer->0)
            == DecayMedia::Still,
    ensures
        still_timers(background_timers(shown, generation), generation, demote, drop_vram, evict),
{
    reveal(background_timers);
    let timers = background_timers(shown, generation);
    let resource = shown.s.config.value.resource.value;
    let state = if shown.w.state.value.minimized {
        resource.minimized
    } else {
        resource.unfocused
    };
    let decode = match shown.w.viewer {
        Some(v) => decode_time_of(v, shown.s),
        None => None,
    };
    let stages = still_stages(state.still, decode);
    let tail = arming(stages, generation);
    let k = timers.len() - tail.len();
    assert forall|i: int| 0 <= i < stages.len() implies timers[k + i] == (Action::ArmDecay {
        generation,
        stage: #[trigger] stages[i].0,
        delay: stages[i].1,
    }) by {}
    let d: int = if demote is Some {
        1
    } else {
        0
    };
    let e: int = if drop_vram is Some {
        d + 1
    } else {
        d
    };
    if demote is Some {
        assert(stages[0].0 == DecayStage::Demote);
        assert(timers[k] == timers[k + 0]);
    }
    if drop_vram is Some {
        assert(stages[d].0 == DecayStage::DropVram);
    }
    if evict is Some {
        assert(stages[e].0 == DecayStage::EvictRam);
    }
}

/// A window in view that is put back takes up the session that was put aside,
/// as it was: it is open again and to be resumed.
pub proof fn law_restored_display_resumes_its_video(
    t: St,
    window: u64,
    focused: bool,
    session: VideoSession,
)
    requires
        t.v.video.suspended == Some(session),
    ensures
        ({
            let after = restored(t, window, focused);
            &&& after.v.video == (VideoState {
                session: Some(session),
                suspended: None,
                ..t.v.video
            })
            &&& after.out.len() > t.out.len()
            &&& after.out[t.out.len() as int] == Action::ResumeVideo
        }),
{
    reveal(restored);
    let reopened = St {
        v: ViewerModel {
            video: VideoState { session: Some(session), suspended: None, ..t.v.video },
            ..t.v
        },
        ..t
    }.act(Action::ResumeVideo);
    let after = restored(t, window, focused);
    lemma_restored_tail(reopened, t, window, focused);
    assert(after.out.take(reopened.out.len() as int)[t.out.len() as int]
        == Action::ResumeVideo);
}

pub proof fn lemma_restored_tail(reopened: St, t: St, window: u64, focused: bool)
    requires
        t.v.video.suspended is None ==> reopened == t,
        t.v.video.suspended is Some ==> reopened == (St {
            v: ViewerModel {
                video: VideoState {
                    session: t.v.video.suspended,
                    suspended: None,
                    ..t.v.video
                },
                ..t.v
            },
            ..t
        }.act(Action::ResumeVideo)),
    ensures
        restored(t, window, focused).v.video == reopened.v.video,
        extends(reopened.out, restored(t, window, focused).out),
{
    reveal(restored);
    lemma_extends_self(reopened.out);
    let sharpened = match t.v.displayed_path {
        Some(file) => if t.v.displayed is Animated {
            let leased = shared_anim_started(reopened, window, file);
            lemma_anim_frame(reopened, window, file);
            assert(extends(reopened.out, leased.out)) by {
                reveal(shared_anim_started);
                assert(leased.out.take(reopened.out.len() as int) =~= reopened.out);
            }
            lemma_load_frame(leased, window, file, Tier::Full);
            lemma_asks_kept_by_load(leased, window, file, file, Tier::Full);
            lemma_extends_trans(
                reopened.out,
                leased.out,
                load_fired(leased, window, file, Tier::Full).out,
            );
            if anim_at_hand(reopened, file) {
                leased
            } else {
                load_fired(leased, window, file, Tier::Full)
            }
        } else {
            let loaded = load_fired(reopened, window, file, Tier::Full);
            lemma_load_frame(reopened, window, file, Tier::Full);
            lemma_asks_kept_by_load(
                reopened,
                window,
                file,
                file,
                Tier::Full,
            );
            lemma_rotate_carried(loaded);
            lemma_extends_trans(reopened.out, loaded.out, rotate_fired(loaded).out);
            rotate_fired(loaded)
        },
        None => reopened,
    };
    lemma_prefetch_leases(sharpened, window);
    lemma_extends_trans(reopened.out, sharpened.out, prefetch_fired(sharpened, window).out);
}

/// The stages that count for an anchor: itself and those after it.
pub open spec fn counts(stage: DecayStage, anchor: PrefetchDropAnchor) -> bool {
    match anchor {
        PrefetchDropAnchor::Immediately => true,
        PrefetchDropAnchor::Demote => true,
        PrefetchDropAnchor::Drop => stage != DecayStage::Demote,
        PrefetchDropAnchor::Evict => stage == DecayStage::EvictRam || stage
            == DecayStage::EvictVideo || stage == DecayStage::ShedPrefetch,
    }
}

proof fn lemma_earliest(stages: Seq<Armed>, anchor: u8, after: Duration)
    ensures
        match earliest(stages, anchor, after) {
            None => forall|i: int|
                #![trigger stages[i]]
                0 <= i < stages.len() ==> rank_of(stages[i].0) < anchor,
            Some(d) => {
                &&& exists|i: int|
                    #![trigger stages[i]]
                    0 <= i < stages.len() && rank_of(stages[i].0) >= anchor && d == then_after(
                        stages[i].1,
                        after,
                    )
                &&& forall|i: int|
                    #![trigger stages[i]]
                    0 <= i < stages.len() && rank_of(stages[i].0) >= anchor ==> d.nanos
                        <= then_after(stages[i].1, after).nanos
            },
        },
    decreases stages.len(),
{
    if stages.len() > 0 {
        let rest = stages.drop_last();
        lemma_earliest(rest, anchor, after);
        let n = stages.len() - 1;
        assert(stages[n] == stages.last());
        assert forall|i: int| #![trigger stages[i]] 0 <= i < n implies stages[i] == rest[i] by {}
        match earliest(rest, anchor, after) {
            Some(d) => {
                let i = choose|i: int|
                    #![trigger rest[i]]
                    0 <= i < rest.len() && rank_of(rest[i].0) >= anchor && d == then_after(
                        rest[i].1,
                        after,
                    );
                assert(stages[i] == rest[i]);
            },
            None => {},
        }
    }
}

/// Prefetched images are shed some time after the anchor they are tied to: the
/// earliest stage that counts for it. Tied to none, they are shed that time after
/// the window went to the background; tied to a stage that never comes, never.
pub proof fn law_shedding_follows_its_anchor(cfg: PrefetchDecay, stages: Seq<Armed>)
    requires
        cfg.drop_after.nanos <= u32::MAX,
        forall|i: int| 0 <= i < stages.len() ==> (#[trigger] stages[i]).1.nanos <= u32::MAX,
    ensures
        cfg.drop_on == PrefetchDropAnchor::Immediately ==> shed_at(cfg, stages) == Some(
            cfg.drop_after,
        ),
        cfg.drop_on != PrefetchDropAnchor::Immediately ==> match shed_at(cfg, stages) {
            None => forall|i: int|
                #![trigger stages[i]]
                0 <= i < stages.len() ==> !counts(stages[i].0, cfg.drop_on),
            Some(d) => {
                &&& exists|i: int|
                    #![trigger stages[i]]
                    0 <= i < stages.len() && counts(stages[i].0, cfg.drop_on) && d.nanos
                        == stages[i].1.nanos + cfg.drop_after.nanos
                &&& forall|i: int|
                    #![trigger stages[i]]
                    0 <= i < stages.len() && counts(stages[i].0, cfg.drop_on) ==> d.nanos
                        <= stages[i].1.nanos + cfg.drop_after.nanos
            },
        },
{
    lemma_earliest(stages, 0, cfg.drop_after);
    lemma_earliest(stages, 1, cfg.drop_after);
    lemma_earliest(stages, 2, cfg.drop_after);
    let anchor: u8 = match cfg.drop_on {
        PrefetchDropAnchor::Drop => 1,
        PrefetchDropAnchor::Evict => 2,
        _ => 0,
    };
    assert forall|i: int| #![trigger stages[i]] 0 <= i < stages.len() implies counts(
        stages[i].0,
        cfg.drop_on,
    ) == (rank_of(stages[i].0) >= anchor) by {}
    match shed_at(cfg, stages) {
        Some(d) if cfg.drop_on != PrefetchDropAnchor::Immediately => {
            let i = choose|i: int|
                #![trigger stages[i]]
                0 <= i < stages.len() && rank_of(stages[i].0) >= anchor && d == then_after(
                    stages[i].1,
                    cfg.drop_after,
                );
            assert(counts(stages[i].0, cfg.drop_on));
            assert(d.nanos == stages[i].1.nanos + cfg.drop_after.nanos);
        },
        _ => {},
    }
}

/// A background window has its prefetched images shed where its settings say
/// so at once.
pub proof fn law_background_window_sheds(t: Wt, generation: u64)
    ensures
        ({
            let resource = t.s.config.value.resource.value;
            let state = if t.w.state.value.minimized {
                resource.minimized
            } else {
                resource.unfocused
            };
            state.prefetch.drop_on == PrefetchDropAnchor::Immediately ==> sets_timer(
                background_timers(t, generation),
                generation,
                DecayStage::ShedPrefetch,
                state.prefetch.drop_after,
            )
        }),
{
    reveal(background_timers);
    let timers = background_timers(t, generation);
    let resource = t.s.config.value.resource.value;
    let state = if t.w.state.value.minimized {
        resource.minimized
    } else {
        resource.unfocused
    };
    if state.prefetch.drop_on == PrefetchDropAnchor::Immediately {
        assert(timers[0] == (Action::ArmDecay {
            generation,
            stage: DecayStage::ShedPrefetch,
            delay: state.prefetch.drop_after,
        }));
    }
}

/// Shedding lets go of the ring furthest out and comes back for the next after
/// the configured interval, as long as one is left; what is on screen stays.
pub proof fn law_shedding_goes_on_until_nothing_is_left(t: Wt, generation: u64)
    requires
        t.w.viewer is Some,
    ensures
        ({
            let after = shed_run(t, generation);
            let resource = t.s.config.value.resource.value;
            let state = if t.w.state.value.minimized {
                resource.minimized
            } else {
                resource.unfocused
            };
            let v = t.w.viewer->0;
            let now = after.w.viewer->0;
            &&& after.w.viewer is Some
            &&& now.nav == v.nav
            &&& now.displayed == v.displayed
            &&& now.displayed_path == v.displayed_path
            &&& want_of(now.cache, v.current()) == want_of(v.cache, v.current())
            &&& after.s.store.entries == t.s.store.entries
            &&& now.prefetched().len() == 0 ==> after.out == t.out
            &&& now.prefetched().len() > 0 ==> after.out == t.out.push(
                Action::ArmDecay {
                    generation,
                    stage: DecayStage::ShedPrefetch,
                    delay: state.prefetch.drop_interval,
                },
            )
        }),
{
    reveal(shed_run);
    reveal(ViewerModel::shed);
    reveal(ViewerModel::shed_shared);
    let v = t.w.viewer->0;
    let files = v.shed_files();
    let drop = files.to_set();
    assert(!drop.contains(v.current())) by {
        if drop.contains(v.current()) {
            reveal(ViewerModel::prefetched);
            let all = files_of(v.cache) + files_of(v.anim.cache);
            let loose = |f: FileId| !v.on_screen(f);
            let outer = |f: FileId| Some(v.reach(f)) == v.outer_ring();
            v.prefetched().lemma_filter_contains_rev(outer, v.current());
            let k = choose|k: int|
                0 <= k < v.prefetched().len() && v.prefetched()[k] == v.current();
            all.lemma_filter_pred(loose, k);
        }
    }
    lemma_filtered_holds(v.cache, drop, v.current());
    lemma_released_entries(
        t.s.store,
        t.w.state.value.id,
        files_of(leases_within(v.cache, drop)),
    );
}

/// A window in focus that is put back holds the files next to its cursor again,
/// at the configured tier at least.
pub proof fn law_focused_window_warms_its_neighbors(t: St, window: u64, file: FileId)
    requires
        t.v.nav.around(t.s.config.value.prefetch_depth as nat).contains(file),
        !is_video(t.s.paths, file),
    ensures
        ({
            let after = restored(t, window, true);
            let least = match t.s.config.value.resource.value.prefetch_vram {
                PrefetchVram::FullRes => 3int,
                PrefetchVram::ViewRes => 2int,
                PrefetchVram::RamOnly => 1int,
            };
            !after.v.anim.has_cached(after.s.anims, file) ==> want_of(after.v.cache, file) is Some
                && want_of(after.v.cache, file)->0.rank_spec() >= least
        }),
{
    let reopened = match t.v.video.suspended {
        Some(session) => St {
            v: ViewerModel {
                video: VideoState { session: Some(session), suspended: None, ..t.v.video },
                ..t.v
            },
            ..t
        }.act(Action::ResumeVideo),
        None => t,
    };
    let sharpened = match t.v.displayed_path {
        Some(shown) => if t.v.displayed is Animated {
            let leased = shared_anim_started(reopened, window, shown);
            lemma_anim_frame(reopened, window, shown);
            lemma_load_frame(leased, window, shown, Tier::Full);
            if anim_at_hand(reopened, shown) {
                leased
            } else {
                load_fired(leased, window, shown, Tier::Full)
            }
        } else {
            let loaded = load_fired(reopened, window, shown, Tier::Full);
            lemma_load_frame(reopened, window, shown, Tier::Full);
            lemma_rotate_carried(loaded);
            rotate_fired(loaded)
        },
        None => reopened,
    };
    assert(restored(t, window, true) == prefetch_fired(sharpened, window)) by {
        reveal(restored);
    }
    lemma_prefetch_leases(sharpened, window);
}

/// A dynamic delay goes by how long the picture on screen took to decode.
pub proof fn law_decay_goes_by_the_shown_decode(v: ViewerModel, s: SharedModel)
    ensures
        v.displayed_path is None ==> decode_time_of(v, s) is None,
        v.displayed_path is Some && v.video.session is None && v.video.suspended is None
            && v.displayed is Animated ==> decode_time_of(v, s) == if s.anims.frames.contains_key(
            v.displayed_path->0,
        ) {
            s.anims.frames[v.displayed_path->0].decode_time
        } else {
            None
        },
        v.displayed_path is Some && !(v.displayed is Animated) ==> decode_time_of(v, s) == match
        s.store.entry(v.displayed_path->0).ram {
            Some(ram) => ram.decode_time,
            None => None,
        },
{
}

/// A window in focus and in view sets no timer, and the ones it had set no
/// longer count.
pub proof fn law_focused_window_sets_no_timer(t: Wt)
    requires
        t.w.state.value.focused,
        !t.w.state.value.minimized,
        t.w.state.value.decay_generation < u64::MAX,
    ensures
        decay_restarted(t).w.state.value.decay_generation == t.w.state.value.decay_generation + 1,
        t.w.viewer is None ==> decay_restarted(t).out == t.out,
        t.w.viewer is Some ==> decay_restarted(t).out == restored(
            t.inner(),
            t.w.state.value.id,
            true,
        ).out,
{
    reveal(decay_restarted);
    reveal(window_restored);
}

} // verus!
