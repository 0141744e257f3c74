//! Background decay: which stages are armed, when, and what each one frees.
use scryglass::actions::Action;
use scryglass::config::{
    Config, DecayPipeline, EvictConfig, EvictPolicy, PrefetchDecay, PrefetchDropAnchor,
    ResourceConfig, VideoDecay,
};
use scryglass::decay::{
    anim_decay_schedule, clamp_decay, decay_schedule, schedule_for, shed_start, stage_rank,
    video_decay_schedule, DecayMedia, DecayStage,
};
use scryglass::dispatch::update_window;
use scryglass::message::WindowMessage;
use scryglass::nav::Nav;
use scryglass::paths::{PathStyle, Source};
use scryglass::state::{DisplayedImage, Shared, VideoSession, Viewer};
use scryglass::store::{RamImage, Texture, Tier};
use scryglass::time::{Duration, Instant, MAX_NANOS};
use scryglass::window::{Coords, Session, Window};

struct Fixture {
    window: Window,
    shared: Shared,
    out: Vec<Action>,
}

const NOW: Instant = Instant { nanos: 5_000_000_000 };

impl Fixture {
    fn file(&mut self, name: &str) -> u64 {
        self.shared.paths.intern(Source::Fs, name).unwrap()
    }

    fn viewer(&self) -> &Viewer {
        self.window.viewer().unwrap()
    }

    fn viewer_mut(&mut self) -> &mut Viewer {
        self.window.viewer_mut().unwrap()
    }
}

fn empty_app() -> Fixture {
    let size = Coords { first: 800f32.to_bits(), second: 600f32.to_bits() };
    let origin = Coords { first: 0, second: 0 };
    Fixture {
        window: Window::new(1, size, origin, false, false),
        shared: Shared::new(Config::default(), false, false, PathStyle::Unix),
        out: Vec::new(),
    }
}

fn viewing_app(names: &[&str], cursor: usize) -> Fixture {
    let mut app = empty_app();
    let files: Vec<u64> = names.iter().map(|n| app.file(n)).collect();
    let start = files[cursor];
    let nav = match Nav::new(files, start) {
        Ok(nav) => nav,
        Err(_) => unreachable!(),
    };
    app.window.session = Session::Viewing(Box::new(Viewer::new(nav, Source::Fs, NOW)));
    app
}

fn ram() -> RamImage {
    RamImage { width: 2, height: 2, decode_time: None }
}

fn texture() -> Texture {
    Texture { id: 9, width: 2, height: 2, tiled: false }
}

/// Lease `name` in this window with its pixels and full texture resident.
fn cache_image(app: &mut Fixture, name: &str) {
    let file = app.file(name);
    let window = app.window.state.value.id;
    let _ = app.shared.store.request(window, file, Tier::Full);
    let _ = app.shared.store.on_decoded(file, ram());
    let _ = app.shared.store.on_minted(file, Tier::Full, texture());
    app.viewer_mut().cache.insert(file, Tier::Full);
}

fn send(app: &mut Fixture, msg: WindowMessage) {
    update_window(&mut app.window, &mut app.shared, msg, &mut app.out);
    // Completed stages settle the store as the turn's end does.
    let _ = app.shared.store.pump();
}

fn run_stage(app: &mut Fixture, stage: DecayStage) {
    let generation = app.window.state.value.decay_generation;
    send(app, WindowMessage::Decay { generation, stage });
}

fn show(app: &mut Fixture, name: &str) {
    let file = app.file(name);
    app.viewer_mut().displayed_path = Some(file);
}

fn holds(app: &mut Fixture, name: &str) -> bool {
    let file = app.file(name);
    app.viewer().cache.holds(file)
}

fn rank(app: &mut Fixture, name: &str) -> u8 {
    let file = app.file(name);
    app.shared.store.tier(file).rank()
}

fn s(secs: u64) -> Duration {
    Duration::from_secs(secs)
}

#[test]
fn schedule_for_dispatches_by_media_kind() {
    let res = ResourceConfig::default();
    let min = res.for_state(true);

    let video = schedule_for(DecayMedia::Video, min, None);
    assert!(matches!(video.as_slice(), [(DecayStage::EvictVideo, _)]));

    let anim = schedule_for(DecayMedia::Animated, min, Some(Duration::zero()));
    assert!(matches!(anim.as_slice(), [(DecayStage::EvictRam, _)]));

    let still = schedule_for(DecayMedia::Still, min, Some(Duration::zero()));
    assert!(still.iter().any(|(s, _)| *s == DecayStage::DropVram));
    assert!(still.iter().all(|(s, _)| *s != DecayStage::EvictVideo));
}

#[test]
fn minimizing_drops_the_texture_but_keeps_the_ram() {
    let mut app = viewing_app(&["a.png"], 0);
    cache_image(&mut app, "a.png");
    show(&mut app, "a.png");

    send(&mut app, WindowMessage::Minimized(true));
    run_stage(&mut app, DecayStage::DropVram);

    assert!(rank(&mut app, "a.png") >= Tier::InRam.rank());
    assert!(holds(&mut app, "a.png"));
    let a = app.file("a.png");
    assert!(app.shared.store.texture(a).is_none());
}

fn rotated_app() -> Fixture {
    let mut app = viewing_app(&["a.png"], 0);
    cache_image(&mut app, "a.png");
    show(&mut app, "a.png");
    let viewer = app.viewer_mut();
    viewer.displayed =
        DisplayedImage::Full { original_size: (2, 2), rotated: Some(texture()) };
    viewer.rotation = 1;
    viewer.displayed_rotation = 1;
    app
}

#[test]
fn minimizing_drops_the_rotation_override() {
    let mut app = rotated_app();
    send(&mut app, WindowMessage::Minimized(true));
    run_stage(&mut app, DecayStage::DropVram);

    let v = app.viewer();
    assert!(matches!(v.displayed, DisplayedImage::Full { rotated: None, .. }));
    assert_eq!(v.displayed_rotation, 0);
    assert_eq!(v.rotation, 1);
}

#[test]
fn an_unfocused_window_keeps_the_rotation_override() {
    let mut app = rotated_app();
    send(&mut app, WindowMessage::Focused(false));
    run_stage(&mut app, DecayStage::Demote);

    let v = app.viewer();
    assert!(matches!(v.displayed, DisplayedImage::Full { rotated: Some(_), .. }));
    assert_eq!(v.displayed_rotation, 1);
}

#[test]
fn focus_changes_advance_the_decay_generation() {
    let mut app = viewing_app(&["a.png", "b.png"], 0);
    let armed = app.window.state.value.decay_generation;
    send(&mut app, WindowMessage::Focused(false));
    assert_ne!(app.window.state.value.decay_generation, armed);
    let unfocused = app.window.state.value.decay_generation;
    send(&mut app, WindowMessage::Focused(true));
    assert_ne!(app.window.state.value.decay_generation, unfocused);
}

#[test]
fn the_shed_timer_drops_prefetch_when_still_unfocused() {
    let mut app = viewing_app(&["a.png", "b.png", "c.png"], 1);
    for name in ["a.png", "b.png", "c.png"] {
        cache_image(&mut app, name);
    }
    show(&mut app, "b.png");

    send(&mut app, WindowMessage::Focused(false));
    run_stage(&mut app, DecayStage::ShedPrefetch);

    assert!(holds(&mut app, "b.png"));
    assert!(!holds(&mut app, "a.png"));
    assert!(!holds(&mut app, "c.png"));
}

#[test]
fn shedding_walks_in_from_the_furthest_ring_while_minimized() {
    let mut app = viewing_app(&["a.png", "b.png", "c.png", "d.png", "e.png"], 2);
    for name in ["a.png", "b.png", "c.png", "d.png", "e.png"] {
        cache_image(&mut app, name);
    }
    show(&mut app, "c.png");

    send(&mut app, WindowMessage::Minimized(true));
    let generation = app.window.state.value.decay_generation;
    let shed = WindowMessage::Decay { generation, stage: DecayStage::ShedPrefetch };

    send(&mut app, shed);
    assert!(!holds(&mut app, "a.png"));
    assert!(!holds(&mut app, "e.png"));
    assert!(holds(&mut app, "b.png"));
    assert!(holds(&mut app, "d.png"));

    send(&mut app, shed);
    assert!(!holds(&mut app, "b.png"));
    assert!(!holds(&mut app, "d.png"));
    assert!(holds(&mut app, "c.png"));
}

#[test]
fn shed_start_resolves_its_anchor_against_the_armed_stages() {
    let cfg = |drop_on| PrefetchDecay { drop_on, drop_after: s(3), drop_interval: s(1) };
    let full = [
        (DecayStage::Demote, s(10)),
        (DecayStage::DropVram, s(20)),
        (DecayStage::EvictRam, s(30)),
    ];

    assert_eq!(shed_start(&cfg(PrefetchDropAnchor::Demote), &full), Some(s(13)));
    assert_eq!(shed_start(&cfg(PrefetchDropAnchor::Drop), &full), Some(s(23)));
    assert_eq!(shed_start(&cfg(PrefetchDropAnchor::Evict), &full), Some(s(33)));

    let drop_only = [(DecayStage::DropVram, Duration::zero())];
    assert_eq!(shed_start(&cfg(PrefetchDropAnchor::Demote), &drop_only), Some(s(3)));

    let demote_only = [(DecayStage::Demote, s(15))];
    assert_eq!(shed_start(&cfg(PrefetchDropAnchor::Evict), &demote_only), None);
    assert_eq!(shed_start(&cfg(PrefetchDropAnchor::Demote), &[]), None);

    let video = [(DecayStage::EvictVideo, s(5))];
    assert_eq!(shed_start(&cfg(PrefetchDropAnchor::Demote), &video), Some(s(8)));
    assert_eq!(shed_start(&cfg(PrefetchDropAnchor::Evict), &video), Some(s(8)));

    assert_eq!(shed_start(&cfg(PrefetchDropAnchor::Immediately), &[]), Some(s(3)));
}

#[test]
fn a_stale_idle_timer_keeps_the_prefetch() {
    let mut app = viewing_app(&["a.png", "b.png"], 0);
    cache_image(&mut app, "a.png");
    cache_image(&mut app, "b.png");
    show(&mut app, "a.png");

    send(&mut app, WindowMessage::Focused(false));
    let stale = app.window.state.value.decay_generation;
    send(&mut app, WindowMessage::Focused(true));
    send(
        &mut app,
        WindowMessage::Decay { generation: stale, stage: DecayStage::ShedPrefetch },
    );
    assert!(holds(&mut app, "b.png"));
}

#[test]
fn minimizing_supersedes_the_pending_idle_drop() {
    let mut app = viewing_app(&["a.png", "b.png"], 0);
    cache_image(&mut app, "a.png");
    cache_image(&mut app, "b.png");
    show(&mut app, "a.png");

    send(&mut app, WindowMessage::Focused(false));
    let armed = app.window.state.value.decay_generation;
    send(&mut app, WindowMessage::Minimized(true));
    send(
        &mut app,
        WindowMessage::Decay { generation: armed, stage: DecayStage::ShedPrefetch },
    );
    assert!(holds(&mut app, "b.png"));
}

#[test]
fn the_evict_stage_frees_the_displayed_ram_and_leaves_prefetch_alone() {
    let mut app = viewing_app(&["a.png", "b.png"], 0);
    cache_image(&mut app, "a.png");
    cache_image(&mut app, "b.png");
    app.window.state.value.minimized = true;
    show(&mut app, "a.png");

    run_stage(&mut app, DecayStage::EvictRam);

    assert!(rank(&mut app, "a.png") < Tier::InRam.rank());
    assert!(holds(&mut app, "a.png"));
    assert!(holds(&mut app, "b.png"));
    assert_eq!(rank(&mut app, "b.png"), Tier::Full.rank());
}

#[test]
fn clamp_decay_never_runs_a_later_stage_first() {
    assert_eq!(
        clamp_decay(Some(s(15)), Some(s(5)), Some(s(1))),
        (Some(s(15)), Some(s(15)), Some(s(15)))
    );
    assert_eq!(
        clamp_decay(Some(s(10)), None, Some(s(3))),
        (Some(s(10)), None, Some(s(10)))
    );
    assert_eq!(
        clamp_decay(Some(s(5)), Some(s(10)), Some(s(20))),
        (Some(s(5)), Some(s(10)), Some(s(20)))
    );
}

#[test]
fn decay_schedule_maps_config_to_enabled_clamped_stages() {
    let pipe = |demote, drop_vram, evict_ram| DecayPipeline {
        demote_vram_after: demote,
        drop_vram_after: drop_vram,
        evict: EvictConfig { evict_ram, ..Default::default() },
    };

    assert_eq!(
        decay_schedule(&pipe(Some(s(15)), None, EvictPolicy::Fixed(s(60))), None),
        vec![(DecayStage::Demote, s(15)), (DecayStage::EvictRam, s(60))]
    );
    assert_eq!(
        decay_schedule(&pipe(Some(s(15)), None, EvictPolicy::Never), None),
        vec![(DecayStage::Demote, s(15))]
    );
    assert_eq!(
        decay_schedule(&pipe(Some(s(15)), Some(s(5)), EvictPolicy::Never), None),
        vec![(DecayStage::Demote, s(15)), (DecayStage::DropVram, s(15))]
    );
    assert!(decay_schedule(&pipe(None, None, EvictPolicy::Never), None).is_empty());

    let dynamic = pipe(None, None, EvictPolicy::Dynamic);
    assert!(decay_schedule(&dynamic, None).is_empty());
    let sched = decay_schedule(&dynamic, Some(Duration::from_millis(20)));
    assert_eq!(sched.len(), 1);
    assert_eq!(sched[0].0, DecayStage::EvictRam);
}

#[test]
fn anim_decay_schedule_arms_only_the_evict_stage() {
    let cfg = EvictConfig { evict_ram: EvictPolicy::Fixed(s(30)), ..Default::default() };
    assert_eq!(anim_decay_schedule(&cfg, None), vec![(DecayStage::EvictRam, s(30))]);

    let cfg = EvictConfig { evict_ram: EvictPolicy::Never, ..Default::default() };
    assert!(anim_decay_schedule(&cfg, None).is_empty());
}

#[test]
fn video_decay_schedule_arms_only_the_session_release() {
    assert_eq!(
        video_decay_schedule(&VideoDecay { evict_session_after: Some(s(5)) }),
        vec![(DecayStage::EvictVideo, s(5))]
    );
    assert!(video_decay_schedule(&VideoDecay { evict_session_after: None }).is_empty());
}

fn app_with_video() -> Fixture {
    let mut app = viewing_app(&["a.mp4"], 0);
    show(&mut app, "a.mp4");
    let viewer = app.viewer_mut();
    viewer.video.session =
        Some(VideoSession { playing: true, looping: false, muted: false, temp: None });
    viewer.video.frame = Some((2, 2));
    app
}

#[test]
fn minimizing_then_evicting_releases_the_session_and_frame() {
    let mut app = app_with_video();
    send(&mut app, WindowMessage::Minimized(true));
    run_stage(&mut app, DecayStage::EvictVideo);
    let v = app.viewer();
    assert!(v.video.session.is_none());
    assert!(v.video.suspended.is_some());
    assert!(v.video.frame.is_none());
}

#[test]
fn a_stale_evict_video_keeps_the_session() {
    let mut app = app_with_video();
    send(&mut app, WindowMessage::Minimized(true));
    send(&mut app, WindowMessage::Decay { generation: 0, stage: DecayStage::EvictVideo });
    assert!(app.viewer().video.session.is_some());
}

#[test]
fn restoring_re_opens_a_suspended_video() {
    let mut app = app_with_video();
    send(&mut app, WindowMessage::Minimized(true));
    run_stage(&mut app, DecayStage::EvictVideo);
    assert!(app.viewer().video.suspended.is_some());

    send(&mut app, WindowMessage::Minimized(false));
    let v = app.viewer();
    assert!(v.video.session.is_some());
    assert!(v.video.suspended.is_none());
}

#[test]
fn reset_clears_a_suspended_video() {
    let mut app = app_with_video();
    send(&mut app, WindowMessage::Minimized(true));
    run_stage(&mut app, DecayStage::EvictVideo);
    assert!(app.viewer().video.suspended.is_some());
    app.viewer_mut().video.reset();
    assert!(app.viewer().video.suspended.is_none());
}

#[test]
fn decay_sheds_prefetch_then_evicts_the_rest() {
    let mut app = viewing_app(&["a.png", "b.png", "c.png"], 1);
    for name in ["a.png", "b.png", "c.png"] {
        cache_image(&mut app, name);
    }
    show(&mut app, "b.png");

    run_stage(&mut app, DecayStage::ShedPrefetch);
    assert!(holds(&mut app, "b.png"));
    assert!(!holds(&mut app, "a.png"));
    assert!(!holds(&mut app, "c.png"));

    run_stage(&mut app, DecayStage::EvictRam);
    assert!(rank(&mut app, "b.png") < Tier::InRam.rank());
    assert!(holds(&mut app, "b.png"));
}

#[test]
fn drop_vram_drops_the_texture_but_keeps_ram() {
    let mut app = viewing_app(&["a.png"], 0);
    cache_image(&mut app, "a.png");
    show(&mut app, "a.png");
    run_stage(&mut app, DecayStage::DropVram);

    assert!(rank(&mut app, "a.png") >= Tier::InRam.rank());
    let a = app.file("a.png");
    assert!(app.shared.store.texture(a).is_none());
}

#[test]
fn a_dynamic_evict_scales_with_the_decode() {
    let cfg = EvictConfig {
        evict_ram: EvictPolicy::Dynamic,
        dynamic_base: s(60),
        dynamic_factor: 1000,
    };
    assert_eq!(cfg.evict_delay(None), None);
    assert_eq!(cfg.evict_delay(Some(Duration::from_millis(20))), Some(s(80)));
    let forever = Duration { nanos: u128::MAX };
    assert_eq!(cfg.evict_delay(Some(forever)), Some(Duration { nanos: MAX_NANOS }));
}

#[test]
fn later_stages_rank_higher() {
    assert!(stage_rank(DecayStage::Demote) < stage_rank(DecayStage::DropVram));
    assert!(stage_rank(DecayStage::DropVram) < stage_rank(DecayStage::EvictRam));
}

#[test]
fn losing_focus_arms_every_stage_under_one_generation() {
    let mut app = viewing_app(&["a.png", "b.png"], 0);
    cache_image(&mut app, "a.png");
    show(&mut app, "a.png");
    send(&mut app, WindowMessage::Focused(false));
    let current = app.window.state.value.decay_generation;
    let armed: Vec<(u64, DecayStage, Duration)> = app
        .out
        .iter()
        .filter_map(|a| match a {
            Action::ArmDecay { generation, stage, delay } => Some((*generation, *stage, *delay)),
            _ => None,
        })
        .collect();
    assert_eq!(
        armed,
        vec![
            (current, DecayStage::ShedPrefetch, s(45)),
            (current, DecayStage::Demote, s(15)),
        ]
    );
}

#[test]
fn decay_spares_an_image_another_window_holds() {
    let mut app = viewing_app(&["a.png"], 0);
    cache_image(&mut app, "a.png");
    show(&mut app, "a.png");
    let a = app.file("a.png");
    let _ = app.shared.store.request(2, a, Tier::Full);
    run_stage(&mut app, DecayStage::EvictRam);
    assert!(app.shared.store.texture(a).is_some());
}
