//! The animation player and the shared frames it plays.
use scryglass::actions::Action;
use scryglass::anim::{should_reuse, AnimMessage, AnimPlayer};
use scryglass::store::{AnimFrames, AnimStore, Texture, Tier};
use scryglass::time::Duration;

/// The window whose player is under test, and one beside it.
const HERE: u64 = 1;
const ELSEWHERE: u64 = 2;
const GIF: u64 = 10;
const OTHER: u64 = 11;

fn anim(frames: usize) -> AnimFrames {
    sized_anim(frames, 2, 2)
}

fn sized_anim(frames: usize, width: u32, height: u32) -> AnimFrames {
    AnimFrames {
        width,
        height,
        delays: vec![Duration::from_millis(100); frames],
        decode_time: None,
    }
}

fn hold(player: &mut AnimPlayer, store: &mut AnimStore, file: u64, frames: usize) {
    store.request(HERE, file, Tier::InRam);
    store.on_decoded(file, anim(frames));
    player.insert(file);
}

fn start(player: &mut AnimPlayer, store: &AnimStore, file: u64) -> Vec<Action> {
    let mut out = Vec::new();
    assert!(player.try_start_from_cache(file, store, &mut out));
    out
}

fn tick(player: &mut AnimPlayer, store: &AnimStore) -> Vec<Action> {
    let mut out = Vec::new();
    let _ = player.update(AnimMessage::Tick, GIF, store, &mut out);
    out
}

fn texture(id: u64, width: u32, height: u32) -> Texture {
    Texture { id, width, height, tiled: false }
}

#[test]
fn reuse_decision_matches_on_dimensions() {
    assert!(!should_reuse(None, (2, 2)));
    assert!(should_reuse(Some((2, 2)), (2, 2)));
    assert!(!should_reuse(Some((3, 3)), (2, 2)));
    assert!(!should_reuse(Some((2, 3)), (2, 2)));
}

#[test]
fn empty_player_derives_nothing() {
    let store = AnimStore::new();
    let player = AnimPlayer::new();
    assert!(player.current_texture(&store).is_none());
    assert!(player.current_handle(&store).is_none());
    assert!(!player.is_animating(&store));
    assert!(player.current_delay(&store).is_none());
}

#[test]
fn starting_from_cache_is_active_with_texture_pending() {
    let mut store = AnimStore::new();
    let mut player = AnimPlayer::new();
    hold(&mut player, &mut store, GIF, 3);
    assert!(player.has_cached(GIF, &store));

    let _ = start(&mut player, &store, GIF);
    assert!(player.current_handle(&store).is_some());
    assert!(player.current_texture(&store).is_none());
    assert!(player.current_delay(&store).is_some());
    assert!(!player.is_animating(&store));
}

#[test]
fn evicting_the_active_animation_frees_it() {
    let mut store = AnimStore::new();
    let mut player = AnimPlayer::new();
    hold(&mut player, &mut store, GIF, 3);
    let _ = start(&mut player, &store, GIF);
    assert!(player.current_handle(&store).is_some());
    assert!(player.has_cached(GIF, &store));

    store.request(HERE, GIF, Tier::Evicted);
    assert!(player.current_handle(&store).is_none());
    assert!(player.current_texture(&store).is_none());
    assert!(!player.has_cached(GIF, &store));
}

#[test]
fn evicting_another_path_keeps_the_active_one() {
    let mut store = AnimStore::new();
    let mut player = AnimPlayer::new();
    hold(&mut player, &mut store, GIF, 2);
    hold(&mut player, &mut store, OTHER, 2);
    let _ = start(&mut player, &store, GIF);

    store.request(HERE, OTHER, Tier::Evicted);
    assert!(player.current_handle(&store).is_some());
    assert!(player.has_cached(GIF, &store));
    assert!(!player.has_cached(OTHER, &store));
}

#[test]
fn a_backgrounded_window_keeps_showing_a_gif_another_window_holds() {
    let mut store = AnimStore::new();
    store.request(ELSEWHERE, GIF, Tier::InRam);
    store.on_decoded(GIF, anim(3));

    let mut backgrounded = AnimPlayer::new();
    store.request(HERE, GIF, Tier::InRam);
    backgrounded.insert(GIF);
    let _ = start(&mut backgrounded, &store, GIF);
    assert!(backgrounded.current_handle(&store).is_some());

    store.request(HERE, GIF, Tier::Evicted);
    assert!(backgrounded.current_handle(&store).is_some());
    assert!(backgrounded.has_cached(GIF, &store));

    store.release(ELSEWHERE, GIF);
    store.pump();
    assert!(backgrounded.current_handle(&store).is_none());
    assert!(!backgrounded.has_cached(GIF, &store));
}

#[test]
fn a_dormant_window_resumes_when_the_gif_returns() {
    let mut store = AnimStore::new();
    let mut player = AnimPlayer::new();
    hold(&mut player, &mut store, GIF, 3);
    let _ = start(&mut player, &store, GIF);
    assert!(player.current_handle(&store).is_some());
    assert!(player.is_active_on(GIF));

    store.request(HERE, GIF, Tier::Evicted);
    assert!(player.current_handle(&store).is_none());
    assert!(player.is_active_on(GIF));

    store.request(HERE, GIF, Tier::InRam);
    store.on_decoded(GIF, anim(3));
    assert!(player.current_handle(&store).is_some());
    assert!(player.is_active_on(GIF));
}

#[test]
fn stopping_derives_nothing_again() {
    let mut store = AnimStore::new();
    let mut player = AnimPlayer::new();
    hold(&mut player, &mut store, GIF, 2);
    let _ = start(&mut player, &store, GIF);
    player.stop();
    assert!(player.current_handle(&store).is_none());
    assert!(player.current_texture(&store).is_none());
    assert!(player.has_cached(GIF, &store));
}

#[test]
fn a_shorter_redecode_resets_the_dormant_frame_index() {
    let mut store = AnimStore::new();
    let mut player = AnimPlayer::new();
    hold(&mut player, &mut store, GIF, 3);
    let _ = start(&mut player, &store, GIF);
    let _ = tick(&mut player, &store);
    let _ = tick(&mut player, &store);
    store.request(HERE, GIF, Tier::Evicted);

    store.request(HERE, GIF, Tier::InRam);
    store.on_decoded(GIF, anim(2));

    let _ = tick(&mut player, &store);
    assert!(player.is_active_on(GIF));
    assert!(player.active.unwrap().frame_index < 2);
}

#[test]
fn a_resized_redecode_rebuilds_the_canvas() {
    let mut store = AnimStore::new();
    let mut player = AnimPlayer::new();
    hold(&mut player, &mut store, GIF, 3);
    let _ = start(&mut player, &store, GIF);
    let _ = tick(&mut player, &store);
    store.request(HERE, GIF, Tier::Evicted);

    store.request(HERE, GIF, Tier::InRam);
    store.on_decoded(GIF, sized_anim(3, 4, 4));

    let out = tick(&mut player, &store);
    assert!(out.contains(&Action::CanvasReset { width: 4, height: 4 }));
    assert_eq!(player.current_handle(&store), Some((4, 4)));
}

#[test]
fn the_delay_reads_safely_past_a_shorter_redecode() {
    let mut store = AnimStore::new();
    let mut player = AnimPlayer::new();
    hold(&mut player, &mut store, GIF, 3);
    let _ = start(&mut player, &store, GIF);
    let _ = tick(&mut player, &store);
    let _ = tick(&mut player, &store);
    store.request(HERE, GIF, Tier::Evicted);
    store.request(HERE, GIF, Tier::InRam);
    store.on_decoded(GIF, anim(2));

    assert!(player.current_delay(&store).is_some());
}

#[test]
fn an_empty_decode_starts_nothing_instead_of_panicking() {
    let mut store = AnimStore::new();
    let mut player = AnimPlayer::new();
    hold(&mut player, &mut store, GIF, 0);
    let mut out = Vec::new();
    assert!(player.try_start_from_cache(GIF, &store, &mut out));
    assert!(!player.is_active_on(GIF));
    assert!(player.current_texture(&store).is_none());
    assert!(out.is_empty());
}

#[test]
fn playback_comes_back_to_its_first_frame() {
    let mut store = AnimStore::new();
    let mut player = AnimPlayer::new();
    hold(&mut player, &mut store, GIF, 3);
    let _ = start(&mut player, &store, GIF);
    let mut seen = Vec::new();
    for _ in 0..4 {
        seen.push(player.active.unwrap().frame_index);
        let _ = tick(&mut player, &store);
    }
    assert_eq!(seen, vec![0, 1, 2, 0]);
}

#[test]
fn the_first_frame_lands_once_and_then_is_written_into() {
    let mut store = AnimStore::new();
    let mut player = AnimPlayer::new();
    hold(&mut player, &mut store, GIF, 2);
    assert!(start(&mut player, &store, GIF).contains(&Action::FrameUpload { file: GIF }));

    let first = texture(7, 2, 2);
    let mut out = Vec::new();
    let ready =
        player.update(AnimMessage::FrameAllocated(GIF, Some(first)), GIF, &store, &mut out);
    assert_eq!(ready, Some((2, 2)));
    assert!(player.is_animating(&store));
    assert_eq!(player.current_texture(&store), Some(first));

    let out = tick(&mut player, &store);
    assert!(out.contains(&Action::FrameWrite { file: GIF, into: first }));
}

#[test]
fn a_failed_first_upload_is_retried_once() {
    let mut store = AnimStore::new();
    let mut player = AnimPlayer::new();
    hold(&mut player, &mut store, GIF, 2);
    let _ = start(&mut player, &store, GIF);

    let mut out = Vec::new();
    let _ = player.update(AnimMessage::FrameAllocated(GIF, None), GIF, &store, &mut out);
    assert_eq!(out, vec![Action::FrameUpload { file: GIF }]);
    let mut again = Vec::new();
    let _ = player.update(AnimMessage::FrameAllocated(GIF, None), GIF, &store, &mut again);
    assert!(again.is_empty());
}

#[test]
fn a_frame_for_a_file_left_behind_is_dropped() {
    let mut store = AnimStore::new();
    let mut player = AnimPlayer::new();
    hold(&mut player, &mut store, GIF, 2);
    let _ = start(&mut player, &store, GIF);
    let mut out = Vec::new();
    let stale = AnimMessage::FrameAllocated(OTHER, Some(texture(7, 2, 2)));
    assert_eq!(player.update(stale, GIF, &store, &mut out), None);
    assert!(player.current_texture(&store).is_none());
}

#[test]
fn pruning_releases_the_frames_nobody_keeps() {
    let mut store = AnimStore::new();
    let mut player = AnimPlayer::new();
    hold(&mut player, &mut store, GIF, 2);
    hold(&mut player, &mut store, OTHER, 2);
    player.prune_cache(&vec![GIF], HERE, &mut store);
    store.pump();
    assert!(player.has_cached(GIF, &store));
    assert!(player.lease(OTHER).is_none());
    assert!(!store.resident(OTHER));
}
