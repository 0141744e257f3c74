//! One window's handlers: navigation, media completions, opening, window
//! events, video, toasts, and the title.
use scryglass::actions::{Action, ThumbUrgency};
use scryglass::boot::{boot, initial_open_path, new_window, PathKind, ProbedPath};
use scryglass::config::{Config, PrefetchVram};
use scryglass::dispatch::{update_media, update_open, update_video, update_window};
use scryglass::media::{MediaError, ThumbResult};
use scryglass::media_tasks::{
    fire_archive_video_thumb, fire_load, prefetch_want, thumb_focus, try_start_shared_anim, Ctx,
};
use scryglass::message::{MediaMessage, OpenMessage, VideoMessage, WindowMessage};
use scryglass::nav::Nav;
use scryglass::navigation::{navigate, resolve_pending_nav, NavTarget};
use scryglass::open::{scan_outcome, Scan};
use scryglass::paths::{PathStyle, Source};
use scryglass::state::{Direction, DisplayedImage, Shared, Span, Thumb, VideoSession, Viewer};
use scryglass::store::{AnimFrames, RamImage, Texture, Tier};
use scryglass::time::{Duration, Instant};
use scryglass::video_flow::{extracted, set_volume, tick_frame, volume_save_due, Poll};
use scryglass::view::{title, TitleParts};
use scryglass::window::{push_toast, Coords, OpenMenu, Session, ToastKind, Window};
use scryglass::window_events::{should_persist, WindowMode, WindowReport};

struct Fixture {
    window: Window,
    shared: Shared,
    out: Vec<Action>,
}

const NOW: Instant = Instant { nanos: 5_000_000_000 };

impl Fixture {
    fn file(&mut self, name: &str) -> u64 {
        self.shared.paths.intern(Source::Fs, name).unwrap()
    }

    fn viewer(&self) -> &Viewer {
        self.window.viewer().unwrap()
    }

    fn viewer_mut(&mut self) -> &mut Viewer {
        self.window.viewer_mut().unwrap()
    }

    fn ctx(&self) -> Ctx {
        Ctx { window: self.window.state.value.id, now: NOW, visible: Span { start: 0, end: 8 } }
    }
}

fn empty_app() -> Fixture {
    let size = Coords { first: 800f32.to_bits(), second: 600f32.to_bits() };
    let origin = Coords { first: 0, second: 0 };
    Fixture {
        window: Window::new(1, size, origin, false, false),
        shared: Shared::new(Config::default(), false, false, PathStyle::Unix),
        out: Vec::new(),
    }
}

fn viewing_app(names: &[&str], cursor: usize) -> Fixture {
    let mut app = empty_app();
    let files: Vec<u64> = names.iter().map(|n| app.file(n)).collect();
    let start = files[cursor];
    let nav = match Nav::new(files, start) {
        Ok(nav) => nav,
        Err(_) => unreachable!(),
    };
    app.window.session = Session::Viewing(Box::new(Viewer::new(nav, Source::Fs, NOW)));
    app
}

fn thumb(w: u32, h: u32) -> Thumb {
    Thumb { id: 1, size: (w, h), original_size: (w, h) }
}

fn cache_thumb(app: &mut Fixture, name: &str, w: u32, h: u32) {
    let file = app.file(name);
    app.shared.thumbs.insert(file, thumb(w, h));
}

fn ram() -> RamImage {
    RamImage { width: 2, height: 2, decode_time: None }
}

fn texture() -> Texture {
    Texture { id: 9, width: 2, height: 2, tiled: false }
}

/// Lease `name` in this window with its pixels and full texture resident.
fn cache_image(app: &mut Fixture, name: &str) {
    let file = app.file(name);
    let window = app.window.state.value.id;
    let _ = app.shared.store.request(window, file, Tier::Full);
    let _ = app.shared.store.on_decoded(file, ram());
    let _ = app.shared.store.on_minted(file, Tier::Full, texture());
    app.viewer_mut().cache.insert(file, Tier::Full);
}

fn media(app: &mut Fixture, msg: MediaMessage) {
    let ctx = app.ctx();
    update_media(&mut app.window, &mut app.shared, ctx, msg, &mut app.out);
}

fn open(app: &mut Fixture, msg: OpenMessage) {
    let ctx = app.ctx();
    update_open(&mut app.window, &mut app.shared, ctx, msg, &mut app.out);
}

fn window(app: &mut Fixture, msg: WindowMessage) {
    update_window(&mut app.window, &mut app.shared, msg, &mut app.out);
}

fn go(app: &mut Fixture, target: NavTarget) {
    let ctx = app.ctx();
    let viewer = app.window.viewer_mut().unwrap();
    navigate(viewer, &mut app.shared, ctx, target, &mut app.out);
}

fn resolve(app: &mut Fixture) {
    let ctx = app.ctx();
    let viewer = app.window.viewer_mut().unwrap();
    resolve_pending_nav(viewer, &mut app.shared, ctx, &mut app.out);
}

// Navigation.

#[test]
fn a_step_is_dropped_while_a_move_is_pending() {
    let mut app = viewing_app(&["a.png", "b.png", "c.png"], 0);
    app.viewer_mut().pending_nav = Some(1);
    go(&mut app, NavTarget::Delta(Direction::Forward));
    assert_eq!(app.viewer().nav.cursor(), 0);
    assert_eq!(app.viewer().pending_nav, Some(1));
}

#[test]
fn an_absolute_jump_replaces_a_pending_target() {
    let mut app = viewing_app(&["a.png", "b.png", "c.png"], 0);
    app.viewer_mut().pending_nav = Some(1);
    go(&mut app, NavTarget::Index(2));
    assert_eq!(app.viewer().pending_nav, Some(2));
}

#[test]
fn jumping_to_the_current_index_clears_the_pending_move() {
    let mut app = viewing_app(&["a.png", "b.png"], 0);
    app.viewer_mut().pending_nav = Some(1);
    go(&mut app, NavTarget::Index(0));
    assert_eq!(app.viewer().nav.cursor(), 0);
    assert!(app.viewer().pending_nav.is_none());
}

#[test]
fn a_cache_miss_holds_position_and_defers_the_move() {
    let mut app = viewing_app(&["a.png", "b.png"], 0);
    go(&mut app, NavTarget::Delta(Direction::Forward));
    assert_eq!(app.viewer().nav.cursor(), 0);
    assert_eq!(app.viewer().pending_nav, Some(1));
}

#[test]
fn resolve_pending_waits_until_the_target_is_displayable() {
    let mut app = viewing_app(&["a.png", "b.png"], 0);
    app.viewer_mut().pending_nav = Some(1);
    resolve(&mut app);
    assert_eq!(app.viewer().nav.cursor(), 0);
    assert_eq!(app.viewer().pending_nav, Some(1));
}

#[test]
fn a_step_moves_at_once_when_the_target_has_a_blur() {
    let mut app = viewing_app(&["a.png", "b.png"], 0);
    cache_thumb(&mut app, "b.png", 4, 4);
    go(&mut app, NavTarget::Delta(Direction::Forward));
    assert_eq!(app.viewer().nav.cursor(), 1);
    assert!(app.viewer().pending_nav.is_none());
    let b = app.file("b.png");
    assert_eq!(app.viewer().displayed_path, Some(b));
}

#[test]
fn resolve_pending_completes_once_a_blur_arrives() {
    let mut app = viewing_app(&["a.png", "b.png"], 0);
    app.viewer_mut().pending_nav = Some(1);
    cache_thumb(&mut app, "b.png", 4, 4);
    resolve(&mut app);
    assert_eq!(app.viewer().nav.cursor(), 1);
    assert!(app.viewer().pending_nav.is_none());
}

// Media completions.

#[test]
fn thumb_loaded_caches_the_blur_and_clears_in_flight() {
    let mut app = viewing_app(&["a.png", "b.png"], 0);
    let a = app.file("a.png");
    app.viewer_mut().in_flight_thumbs.insert(a);
    media(
        &mut app,
        MediaMessage::ThumbLoaded {
            file: a,
            urgency: ThumbUrgency::Urgent,
            result: ThumbResult::Loaded(thumb(4, 4)),
        },
    );
    assert!(app.shared.thumbs.contains_key(a));
    assert!(!app.viewer().in_flight_thumbs.contains(&a));
}

#[test]
fn a_failed_rotate_upload_leaves_the_view_untouched() {
    let mut app = viewing_app(&["a.png"], 0);
    {
        let v = app.viewer_mut();
        v.displayed = DisplayedImage::Full { original_size: (4, 2), rotated: None };
        v.rotation = 1;
        v.displayed_rotation = 0;
        v.manual_zoom = true;
    }
    let a = app.file("a.png");
    media(
        &mut app,
        MediaMessage::ViewRotated { file: a, baked: 1, size: (2, 4), turned: None },
    );
    let v = app.viewer();
    assert_eq!(v.displayed_rotation, 0);
    // Pan and zoom stay: nothing that would move them was asked for.
    assert!(v.manual_zoom);
    assert!(!app.out.iter().any(|act| matches!(
        act,
        Action::FitZoom { .. } | Action::ResetPan | Action::ClampPan { .. }
    )));
    assert!(matches!(
        v.displayed,
        DisplayedImage::Full { original_size: (4, 2), rotated: None }
    ));
}

#[test]
fn texture_ready_puts_a_first_image_on_screen_without_a_thumb() {
    let mut app = viewing_app(&["a.png", "b.png"], 0);
    let a = app.file("a.png");
    let _ = app.shared.store.request(1, a, Tier::Full);
    let _ = app.shared.store.on_decoded(a, ram());
    app.viewer_mut().cache.insert(a, Tier::Full);
    assert!(matches!(app.viewer().displayed, DisplayedImage::Nothing));

    media(
        &mut app,
        MediaMessage::TextureReady { file: a, tier: Tier::Full, texture: texture() },
    );
    assert!(matches!(app.viewer().displayed, DisplayedImage::Full { .. }));
    assert_eq!(app.viewer().displayed_path, Some(a));
}

#[test]
fn a_failed_background_thumb_is_remembered() {
    let mut app = viewing_app(&["a.png", "b.png"], 0);
    let b = app.file("b.png");
    media(
        &mut app,
        MediaMessage::ThumbLoaded {
            file: b,
            urgency: ThumbUrgency::Background,
            result: ThumbResult::Failed,
        },
    );
    assert!(app.viewer().failed_thumbs.contains(&b));
}

fn cancelled_thumb(file: u64) -> MediaMessage {
    MediaMessage::ThumbLoaded {
        file,
        urgency: ThumbUrgency::Background,
        result: ThumbResult::Cancelled,
    }
}

#[test]
fn a_cancelled_thumb_keeps_its_slot_while_a_decode_owns_it() {
    let mut app = viewing_app(&["a.png", "b.png"], 0);
    let b = app.file("b.png");
    app.viewer_mut().in_flight.insert(b);
    app.viewer_mut().in_flight_thumbs.insert(b);
    media(&mut app, cancelled_thumb(b));
    assert!(app.viewer().in_flight_thumbs.contains(&b));
    assert!(!app.viewer().failed_thumbs.contains(&b));
}

#[test]
fn a_cancelled_thumb_with_no_decode_releases_its_slot() {
    let mut app = viewing_app(&["a.png", "b.png"], 0);
    let b = app.file("b.png");
    app.viewer_mut().in_flight_thumbs.insert(b);
    media(&mut app, cancelled_thumb(b));
    assert!(!app.viewer().in_flight_thumbs.contains(&b));
    assert!(!app.viewer().failed_thumbs.contains(&b));
}

#[test]
fn file_size_probe_updates_the_current_file() {
    let mut app = viewing_app(&["a.png"], 0);
    let a = app.file("a.png");
    media(&mut app, MediaMessage::FileSizeProbed(a, 4096));
    assert_eq!(app.viewer().current_file_size, Some(4096));
}

#[test]
fn a_stale_file_size_probe_is_ignored() {
    let mut app = viewing_app(&["a.png", "b.png"], 0);
    let b = app.file("b.png");
    media(&mut app, MediaMessage::FileSizeProbed(b, 4096));
    assert_eq!(app.viewer().current_file_size, None);
}

fn files(app: &mut Fixture, names: &[&str]) -> Vec<u64> {
    names.iter().map(|n| app.file(n)).collect()
}

#[test]
fn resort_replaces_the_file_order() {
    let mut app = viewing_app(&["a.png", "b.png", "c.png"], 0);
    let order = files(&mut app, &["c.png", "b.png", "a.png"]);
    media(&mut app, MediaMessage::Resorted(order));
    let c = app.file("c.png");
    assert_eq!(app.viewer().nav.files[0], c);
}

#[test]
fn spinner_tick_changes_nothing() {
    let mut app = viewing_app(&["a.png"], 0);
    media(&mut app, MediaMessage::SpinnerTick);
    assert_eq!(app.viewer().nav.cursor(), 0);
    assert!(app.out.is_empty());
}

fn broken(file: u64, exists: bool) -> MediaMessage {
    MediaMessage::DecodeFailed { file, err: MediaError::Failed("bad".to_string()), exists }
}

#[test]
fn a_broken_file_becomes_a_navigable_error_stop() {
    let mut app = viewing_app(&["a.png", "b.png"], 0);
    app.viewer_mut().pending_nav = Some(1);
    app.viewer_mut().pending_since = Some(NOW);
    let b = app.file("b.png");
    media(&mut app, broken(b, true));

    let v = app.viewer();
    assert_eq!(v.nav.cursor(), 1);
    assert!(matches!(v.displayed, DisplayedImage::Error { .. }));
    assert!(v.failed_loads.contains_key(&b));
}

#[test]
fn a_file_deleted_before_its_decode_leaves_the_listing() {
    let mut app = viewing_app(&["a.png", "b.png"], 0);
    let a = app.file("a.png");
    let b = app.file("b.png");
    media(&mut app, broken(a, false));
    assert_eq!(app.viewer().nav.len(), 1);
    assert_eq!(app.viewer().nav.current(), b);
    assert!(!app.viewer().failed_loads.contains_key(&a));
}

#[test]
fn a_finished_decode_releases_the_thumb_slot() {
    let mut app = viewing_app(&["a.png", "b.png"], 0);
    let b = app.file("b.png");
    let _ = app.shared.store.request(1, b, Tier::Full);
    {
        let v = app.viewer_mut();
        v.cache.insert(b, Tier::Full);
        v.in_flight.insert(b);
        v.in_flight_thumbs.insert(b);
    }
    media(
        &mut app,
        MediaMessage::Decoded { file: b, ram: ram(), thumb: Some(thumb(2, 2)) },
    );
    assert!(!app.viewer().in_flight.contains(&b));
    assert!(!app.viewer().in_flight_thumbs.contains(&b));
}

#[test]
fn a_failed_decode_releases_the_thumb_slot() {
    let mut app = viewing_app(&["a.png", "b.png"], 0);
    let b = app.file("b.png");
    app.viewer_mut().in_flight.insert(b);
    app.viewer_mut().in_flight_thumbs.insert(b);
    media(&mut app, broken(b, true));
    assert!(!app.viewer().in_flight.contains(&b));
    assert!(!app.viewer().in_flight_thumbs.contains(&b));
}

#[test]
fn an_archive_entry_that_fails_to_decode_stays_listed_with_an_error() {
    let mut app = empty_app();
    let zip = app.file("photos.zip");
    let source = Source::Archive(zip);
    let entries: Vec<u64> = ["a.png", "b.png"]
        .iter()
        .map(|n| app.shared.paths.intern(source, n).unwrap())
        .collect();
    let entry = entries[0];
    let nav = match Nav::new(entries, entry) {
        Ok(nav) => nav,
        Err(_) => unreachable!(),
    };
    app.window.session = Session::Viewing(Box::new(Viewer::new(nav, source, NOW)));

    // The entry's name never exists on disk.
    media(&mut app, broken(entry, false));
    let v = app.viewer();
    assert_eq!(v.nav.len(), 2);
    assert!(v.failed_loads.contains_key(&entry));
    assert!(matches!(v.displayed, DisplayedImage::Error { .. }));
}

#[test]
fn a_resort_remaps_a_pending_move_to_the_same_file() {
    let mut app = viewing_app(&["a.png", "b.png", "c.png"], 0);
    app.viewer_mut().pending_nav = Some(1);
    let order = files(&mut app, &["c.png", "a.png", "b.png"]);
    media(&mut app, MediaMessage::Resorted(order));
    assert_eq!(app.viewer().pending_nav, Some(2));
}

#[test]
fn a_resort_abandons_a_pending_move_whose_target_vanished() {
    let mut app = viewing_app(&["a.png", "b.png", "c.png"], 0);
    app.viewer_mut().pending_nav = Some(1);
    let order = files(&mut app, &["a.png", "c.png"]);
    media(&mut app, MediaMessage::Resorted(order));
    assert!(app.viewer().pending_nav.is_none());
}

#[test]
fn thumbnails_past_their_budget_make_room_oldest_first() {
    let names: Vec<String> = (0..12).map(|i| format!("{i:02}.png")).collect();
    let refs: Vec<&str> = names.iter().map(String::as_str).collect();
    let mut app = viewing_app(&refs, 0);
    // Eight of the older ones fill the budget. The new one takes half as much.
    let big = thumb(1448, 1448);
    assert_eq!(big.byte_cost(), 1448 * 1448 * 4);
    for name in &names[..11] {
        let file = app.file(name);
        app.shared.thumbs.insert(file, thumb(2048, 2048));
    }
    let last = app.file("11.png");
    media(
        &mut app,
        MediaMessage::ThumbLoaded {
            file: last,
            urgency: ThumbUrgency::Background,
            result: ThumbResult::Loaded(big),
        },
    );
    // The cursor's file and its neighbors are pinned: 00, 01, 02, 10, 11.
    for pinned in ["00.png", "01.png", "02.png", "10.png", "11.png"] {
        let file = app.file(pinned);
        assert!(app.shared.thumbs.contains_key(file), "{pinned}");
    }
    // Four of the others go before the rest fits.
    for (name, kept) in [
        ("03.png", false),
        ("04.png", false),
        ("05.png", false),
        ("06.png", false),
        ("07.png", true),
    ] {
        let file = app.file(name);
        assert_eq!(app.shared.thumbs.contains_key(file), kept, "{name}");
    }
}

// Loading.

fn wants_follow_the_setting() {
    assert_eq!(prefetch_want(PrefetchVram::FullRes), Tier::Full);
    assert_eq!(prefetch_want(PrefetchVram::ViewRes), Tier::View);
    assert_eq!(prefetch_want(PrefetchVram::RamOnly), Tier::InRam);
}

#[test]
fn media_tasks_prefetch_want_resolves_the_prefetch_vram_mode() {
    wants_follow_the_setting();
}

#[test]
fn mod_prefetch_want_resolves_the_prefetch_vram_mode() {
    wants_follow_the_setting();
}

#[test]
fn fire_load_never_lowers_a_lease_demand() {
    let mut app = viewing_app(&["a.png"], 0);
    cache_image(&mut app, "a.png");
    let a = app.file("a.png");
    let viewer = app.window.viewer_mut().unwrap();
    fire_load(viewer, &mut app.shared, 1, a, Tier::View, &mut app.out);
    assert_eq!(app.viewer().cache.want_of(a), Some(Tier::Full));
}

fn claim_then_skip() {
    let mut app = viewing_app(&["clip.mp4"], 0);
    let entry = app.file("clip.mp4");
    let temp = 77;
    let viewer = app.window.viewer_mut().unwrap();
    fire_archive_video_thumb(viewer, &app.shared, entry, temp, &mut app.out);
    assert!(app.viewer().in_flight_thumbs.contains(&entry));
    assert_eq!(app.out, vec![Action::LoadArchiveVideoThumb { file: entry, temp }]);

    app.viewer_mut().in_flight_thumbs.remove(&entry);
    cache_thumb(&mut app, "clip.mp4", 4, 2);
    app.out.clear();
    let viewer = app.window.viewer_mut().unwrap();
    fire_archive_video_thumb(viewer, &app.shared, entry, temp, &mut app.out);
    assert!(!app.viewer().in_flight_thumbs.contains(&entry));
    assert!(app.out.is_empty());
}

#[test]
fn media_tasks_archive_video_thumb_claims_the_slot_then_skips_when_present() {
    claim_then_skip();
}

#[test]
fn thumbs_archive_video_thumb_claims_the_slot_then_skips_when_present() {
    claim_then_skip();
}

fn frames() -> AnimFrames {
    AnimFrames {
        width: 2,
        height: 2,
        delays: vec![Duration::from_millis(100)],
        decode_time: None,
    }
}

fn share_one_decode() {
    let mut a = viewing_app(&["a.gif"], 0);
    let gif = a.file("a.gif");
    // Both windows look at the one shared state.
    let mut b = viewing_app(&["a.gif"], 0);
    let shared = &mut a.shared;

    shared.anim_store.request(1, gif, Tier::InRam);
    shared.anim_store.on_decoded(gif, frames());
    a.window.viewer_mut().unwrap().anim_player.insert(gif);
    assert!(shared.anim_store.resident(gif));

    let viewer_b = b.window.viewer_mut().unwrap();
    assert!(try_start_shared_anim(viewer_b, shared, 2, gif, &mut b.out));
    assert!(viewer_b.anim_player.has_cached(gif, &shared.anim_store));

    // One set of frames, leased by both.
    assert_eq!(shared.anim_store.frames.len(), 1);
    assert!(a.window.viewer().unwrap().anim_player.lease(gif).is_some());
    assert!(viewer_b.anim_player.lease(gif).is_some());

    shared.anim_store.request(1, gif, Tier::Evicted);
    shared.anim_store.pump();
    assert!(shared.anim_store.resident(gif), "the other window still holds the frames");
    assert!(a.window.viewer().unwrap().anim_player.has_cached(gif, &shared.anim_store));

    shared.anim_store.request(2, gif, Tier::Evicted);
    shared.anim_store.pump();
    assert!(!shared.anim_store.resident(gif), "nobody wants the frames");
    assert!(!a.window.viewer().unwrap().anim_player.has_cached(gif, &shared.anim_store));
}

#[test]
fn media_tasks_two_windows_share_one_gif_decode_and_its_decay() {
    share_one_decode();
}

#[test]
fn load_two_windows_share_one_gif_decode_and_its_decay() {
    share_one_decode();
}

fn fifty(cursor: usize) -> Fixture {
    let names: Vec<String> = (0..50).map(|i| format!("{i:04}.png")).collect();
    let refs: Vec<&str> = names.iter().map(String::as_str).collect();
    viewing_app(&refs, cursor)
}

const WHOLE: Span = Span { start: 0, end: 50 };

fn focus_on_screen() {
    let app = fifty(2);
    let visible = Span { start: 0, end: 12 };
    assert_eq!(thumb_focus(app.viewer(), visible, true), (2, WHOLE));
}

fn focus_off_screen() {
    let app = fifty(2);
    let visible = Span { start: 40, end: 50 };
    let (center, range) = thumb_focus(app.viewer(), visible, true);
    assert_eq!(range, visible);
    assert_eq!(center, visible.start + (visible.end - visible.start) / 2);
    assert_ne!(center, 2);
}

fn focus_with_a_hidden_filmstrip() {
    let app = fifty(2);
    let visible = Span { start: 40, end: 50 };
    assert_eq!(thumb_focus(app.viewer(), visible, false), (2, WHOLE));
}

#[test]
fn media_tasks_thumb_focus_follows_the_cursor_when_on_screen() {
    focus_on_screen();
}

#[test]
fn thumbs_thumb_focus_follows_the_cursor_when_on_screen() {
    focus_on_screen();
}

#[test]
fn media_tasks_thumb_focus_switches_to_the_visible_row_off_screen() {
    focus_off_screen();
}

#[test]
fn thumbs_thumb_focus_switches_to_the_visible_row_off_screen() {
    focus_off_screen();
}

#[test]
fn media_tasks_thumb_focus_ignores_the_scroll_when_the_filmstrip_is_hidden() {
    focus_with_a_hidden_filmstrip();
}

#[test]
fn thumbs_thumb_focus_ignores_the_scroll_when_the_filmstrip_is_hidden() {
    focus_with_a_hidden_filmstrip();
}

// Opening.

#[test]
fn close_file_empties_the_session() {
    let mut app = viewing_app(&["a.png"], 0);
    open(&mut app, OpenMessage::CloseFile);
    assert!(matches!(app.window.session, Session::Empty));
}

#[test]
fn cancelled_file_dialog_is_a_noop() {
    let mut app = empty_app();
    open(&mut app, OpenMessage::FileDialogResult(None));
    assert!(app.window.state.value.opening_since.is_none());
}

#[test]
fn open_file_closes_the_menu_and_builds_a_dialog() {
    let mut app = empty_app();
    app.window.state.value.open_menu = Some(OpenMenu::File);
    open(&mut app, OpenMessage::OpenFile);
    assert!(app.window.state.value.open_menu.is_none());
    assert_eq!(app.out, vec![Action::OpenDialog]);
}

#[test]
fn quit_builds_an_exit_task() {
    let mut app = empty_app();
    open(&mut app, OpenMessage::Quit);
    assert_eq!(app.out, vec![Action::SaveThenClose]);
}

#[test]
fn file_dropped_marks_the_open_as_in_flight() {
    let mut app = empty_app();
    let x = app.file("x.png");
    open(&mut app, OpenMessage::FileDropped(x));
    assert!(app.window.state.value.opening_since.is_some());
}

#[test]
fn picked_file_marks_the_open_as_in_flight() {
    let mut app = empty_app();
    let x = app.file("x.png");
    open(&mut app, OpenMessage::FileDialogResult(Some(x)));
    assert!(app.window.state.value.opening_since.is_some());
    assert_eq!(app.out, vec![Action::ScanDirectory { file: x }]);
}

#[test]
fn rescan_that_drops_the_current_file_moves_the_display() {
    let mut app = viewing_app(&["a.png", "b.png"], 1);
    let a = app.file("a.png");
    let b = app.file("b.png");
    {
        let v = app.viewer_mut();
        v.displayed = DisplayedImage::Full { original_size: (2, 2), rotated: None };
        v.displayed_path = Some(b);
    }
    let here = app.file("");
    open(&mut app, OpenMessage::DirectoryRescanned(here, Some(vec![a])));
    let v = app.viewer();
    assert_eq!(v.nav.current(), a);
    assert_ne!(v.displayed_path, Some(b));
    assert!(!matches!(v.displayed, DisplayedImage::Full { .. }));
}

#[test]
fn rescan_with_no_files_left_empties_the_session() {
    let mut app = viewing_app(&["a.png"], 0);
    let here = app.file("");
    open(&mut app, OpenMessage::DirectoryRescanned(here, Some(vec![])));
    assert!(matches!(app.window.session, Session::Empty));
}

#[test]
fn rescan_remaps_a_pending_move_by_file() {
    let mut app = viewing_app(&["a.png", "b.png", "c.png"], 0);
    app.viewer_mut().pending_nav = Some(2);
    let order = files(&mut app, &["c.png", "a.png", "b.png"]);
    let here = app.file("");
    open(&mut app, OpenMessage::DirectoryRescanned(here, Some(order)));
    assert_eq!(app.viewer().pending_nav, Some(0));
}

#[test]
fn directory_rescanned_reconciles_the_file_list() {
    let mut app = viewing_app(&["a.png", "b.png"], 0);
    let order = files(&mut app, &["a.png", "b.png", "c.png"]);
    let here = app.file("");
    open(&mut app, OpenMessage::DirectoryRescanned(here, Some(order)));
    assert_eq!(app.viewer().nav.len(), 3);
    let elsewhere = app.file("elsewhere");
    let z = app.file("z");
    open(&mut app, OpenMessage::DirectoryRescanned(elsewhere, Some(vec![z])));
    assert_eq!(app.viewer().nav.len(), 3);
}

#[test]
fn directory_scanned_opens_a_viewer() {
    let mut app = empty_app();
    app.window.state.value.opening_since = Some(NOW);
    let listing = files(&mut app, &["a.png", "b.png"]);
    let start = listing[0];
    open(
        &mut app,
        OpenMessage::DirectoryScanned(Scan { start, opened_dir: true, listing: Ok(listing) }),
    );
    assert!(app.window.state.value.opening_since.is_none());
    assert!(app.window.viewer().is_some());
}

#[test]
fn directory_scan_error_clears_progress_and_toasts() {
    let mut app = empty_app();
    app.window.state.value.opening_since = Some(NOW);
    let a = app.file("a.png");
    open(
        &mut app,
        OpenMessage::DirectoryScanned(Scan {
            start: a,
            opened_dir: true,
            listing: Err("nope".to_string()),
        }),
    );
    assert!(app.window.state.value.opening_since.is_none());
    assert_eq!(app.window.toasts.len(), 1);
    assert_eq!(app.window.toasts[0].text, "Couldn't open: nope");
}

#[test]
fn archive_scan_error_clears_progress_and_toasts() {
    let mut app = empty_app();
    app.window.state.value.opening_since = Some(NOW);
    let zip = app.file("a.zip");
    open(&mut app, OpenMessage::ArchiveScanned(zip, Err("bad".to_string())));
    assert!(app.window.state.value.opening_since.is_none());
    assert_eq!(app.window.toasts.len(), 1);
}

#[test]
fn dropping_an_archive_indexes_it() {
    let mut app = empty_app();
    let zip = app.file("photos.zip");
    open(&mut app, OpenMessage::FileDropped(zip));
    assert_eq!(app.out, vec![Action::ScanArchive { file: zip }]);
}

#[test]
fn an_archive_without_images_is_reported_by_name() {
    let mut app = empty_app();
    let zip = app.file("dir/a.zip");
    open(&mut app, OpenMessage::ArchiveScanned(zip, Ok(vec![])));
    assert_eq!(app.window.toasts[0].text, "a.zip: archive contains no supported images");
    assert!(app.window.viewer().is_none());
}

#[test]
fn a_scanned_directory_starts_on_its_first_file() {
    let scan = scan_outcome(9, true, 9, Ok(vec![4, 5]));
    assert_eq!(scan.start, 4);
    assert!(scan.opened_dir);
    let scan = scan_outcome(5, false, 9, Ok(vec![4, 5]));
    assert_eq!(scan.start, 5);
    assert!(!scan.opened_dir);
}

// Windows.

fn coords(first: f32, second: f32) -> Coords {
    Coords { first: first.to_bits(), second: second.to_bits() }
}

fn resize(app: &mut Fixture, width: f32, height: f32) {
    let empty = width <= 0.0 || height <= 0.0;
    window(app, WindowMessage::Resized { size: coords(width, height), empty });
}

fn report(maximized: bool, minimized: bool, mode: WindowMode, snapped: bool) -> WindowReport {
    WindowReport { maximized, minimized, mode, snapped }
}

fn probe(app: &mut Fixture, maximized: bool, minimized: bool, mode: WindowMode, snapped: bool) {
    window(app, WindowMessage::WindowState(report(maximized, minimized, mode, snapped)));
}

fn place(app: &mut Fixture, size: Coords, pos: Coords) {
    app.window.state.value.window_size = size;
    app.window.state.value.window_pos = pos;
}

#[test]
fn resize_updates_the_window_size() {
    let mut app = empty_app();
    resize(&mut app, 1024.0, 768.0);
    assert_eq!(app.window.state.value.window_size, coords(1024.0, 768.0));
}

#[test]
fn the_zero_size_resize_of_a_minimize_is_ignored() {
    let mut app = viewing_app(&["a.png", "b.png"], 0);
    app.viewer_mut().manual_zoom = true;
    let before = app.window.state.value.window_size;
    resize(&mut app, 0.0, 0.0);
    assert_eq!(app.window.state.value.window_size, before);
    // Neither the strip nor the view is moved.
    assert!(app.out.is_empty());
    assert!(app.viewer().manual_zoom);
}

#[test]
fn focus_change_is_tracked_and_dismisses_the_zoom_popup() {
    let mut app = empty_app();
    app.window.state.value.zoom_slider_open = true;
    window(&mut app, WindowMessage::Focused(false));
    assert!(!app.window.state.value.focused);
    assert!(!app.window.state.value.zoom_slider_open);
    window(&mut app, WindowMessage::Focused(true));
    assert!(app.window.state.value.focused);
}

#[test]
fn minimize_poll_result_updates_the_flag() {
    let mut app = empty_app();
    window(&mut app, WindowMessage::Minimized(true));
    assert!(app.window.state.value.minimized);
    window(&mut app, WindowMessage::Minimized(false));
    assert!(!app.window.state.value.minimized);
}

/// A window probed at 1024 by 768 at (120, 80) while plain.
fn placed_app() -> Fixture {
    let mut app = empty_app();
    place(&mut app, coords(1024.0, 768.0), coords(120.0, 80.0));
    probe(&mut app, false, false, WindowMode::Windowed, false);
    app
}

fn assert_placed(app: &Fixture) {
    assert_eq!(app.window.state.value.restored_size, coords(1024.0, 768.0));
    assert_eq!(app.window.state.value.restored_pos, coords(120.0, 80.0));
}

#[test]
fn the_windowed_gate_saves_the_live_geometry() {
    assert_placed(&placed_app());
}

#[test]
fn a_snapped_gate_keeps_the_windowed_geometry() {
    let mut app = placed_app();
    place(&mut app, coords(1280.0, 1400.0), coords(1280.0, 0.0));
    probe(&mut app, false, false, WindowMode::Windowed, true);
    assert_placed(&app);
}

#[test]
fn a_maximized_gate_keeps_the_windowed_geometry() {
    let mut app = placed_app();
    place(&mut app, coords(2560.0, 1440.0), coords(0.0, 0.0));
    for (maximized, mode) in [(true, WindowMode::Windowed), (false, WindowMode::Fullscreen)] {
        probe(&mut app, maximized, false, mode, false);
    }
    assert_placed(&app);
}

#[test]
fn moves_supersede_the_pending_state_probe() {
    let mut app = empty_app();
    let before = app.window.state.value.probe_generation;
    window(&mut app, WindowMessage::Moved(coords(10.0, 10.0)));
    let mid = app.window.state.value.probe_generation;
    assert_ne!(before, mid);
    resize(&mut app, 800.0, 600.0);
    assert_ne!(mid, app.window.state.value.probe_generation);
}

#[test]
fn only_a_normal_window_persists_its_size() {
    assert!(should_persist(report(false, false, WindowMode::Windowed, false)));
    assert!(!should_persist(report(true, false, WindowMode::Windowed, false)));
    assert!(!should_persist(report(false, true, WindowMode::Windowed, false)));
    assert!(!should_persist(report(false, false, WindowMode::Fullscreen, false)));
    assert!(!should_persist(report(false, false, WindowMode::Windowed, true)));
}

#[test]
fn a_minimized_window_keeps_its_restored_geometry() {
    let mut app = placed_app();
    place(&mut app, coords(0.0, 0.0), coords(-32000.0, -32000.0));
    probe(&mut app, false, true, WindowMode::Windowed, false);
    assert_placed(&app);
}

#[test]
fn a_minimized_window_keeps_its_maximized_flag() {
    let mut app = empty_app();
    probe(&mut app, true, false, WindowMode::Windowed, false);
    assert!(app.window.state.value.maximized);
    probe(&mut app, false, true, WindowMode::Windowed, false);
    assert!(app.window.state.value.maximized);
}

#[test]
fn a_move_updates_the_tracked_position() {
    let mut app = empty_app();
    window(&mut app, WindowMessage::Moved(coords(300.0, 200.0)));
    assert_eq!(app.window.state.value.window_pos, coords(300.0, 200.0));
}

#[test]
fn window_state_records_the_maximized_flag() {
    let mut app = empty_app();
    probe(&mut app, true, false, WindowMode::Windowed, false);
    assert!(app.window.state.value.maximized);
}

#[test]
fn close_persists_this_windows_restore_stack() {
    let mut app = empty_app();
    {
        let state = &mut app.window.state.value;
        state.restored_size = coords(1024.0, 768.0);
        state.restored_pos = coords(120.0, 80.0);
        state.maximized = true;
        state.fullscreen = true;
    }
    window(&mut app, WindowMessage::CloseRequested);
    let config = app.shared.config.value;
    assert_eq!(config.window_width, 1024f32.to_bits());
    assert_eq!(config.window_height, 768f32.to_bits());
    assert_eq!(config.window_x, Some(120f32.to_bits()));
    assert_eq!(config.window_y, Some(80f32.to_bits()));
    assert!(config.window_maximized);
    assert!(config.window_fullscreen);

    // The next window opens there.
    let next = new_window(2, &config).state.value;
    assert_eq!(next.window_size, coords(1024.0, 768.0));
    assert_eq!(next.restored_pos, coords(120.0, 80.0));
    assert!(next.maximized && next.fullscreen);
}

#[test]
fn an_open_windows_move_does_not_change_the_saved_geometry() {
    let mut app = empty_app();
    app.shared.config.value.window_x = Some(10f32.to_bits());
    place(&mut app, coords(1024.0, 768.0), coords(500.0, 400.0));
    probe(&mut app, false, false, WindowMode::Windowed, false);
    assert_eq!(app.shared.config.value.window_x, Some(10f32.to_bits()));
}

#[test]
fn resize_refits_an_auto_zoomed_image() {
    let mut app = viewing_app(&["a.png"], 0);
    app.viewer_mut().displayed = DisplayedImage::Placeholder(thumb(2000, 1000));
    app.viewer_mut().manual_zoom = false;
    resize(&mut app, 800.0, 600.0);
    assert!(app.out.contains(&Action::FitZoom { width: 2000, height: 1000 }));
}

#[test]
fn close_requested_builds_a_save_then_close_task() {
    let mut app = empty_app();
    window(&mut app, WindowMessage::CloseRequested);
    assert_eq!(app.out, vec![Action::SaveThenClose]);
}

// Video.

#[test]
fn set_volume_applies_at_once_and_only_defers_the_save() {
    let mut app = viewing_app(&["a.mp4"], 0);
    app.shared.config.value.video_muted = true;
    set_volume(&app.window, &mut app.shared, 0.3f32.to_bits(), NOW, &mut app.out);
    assert_eq!(app.shared.config.value.video_volume, 0.3f32.to_bits());
    assert!(!app.shared.config.value.video_muted);
    assert!(app.shared.status.value.volume_save_due.is_some());
    assert!(!app.out.contains(&Action::SaveConfig));
}

#[test]
fn a_volume_save_fires_once_after_its_deadline_passes() {
    let now = Instant { nanos: 5_000_000 };
    let past = Instant { nanos: 4_000_000 };
    assert_eq!(volume_save_due(now, Some(past)), (true, None));
    let future = Instant { nanos: 6_000_000 };
    assert_eq!(volume_save_due(now, Some(future)), (false, Some(future)));
    assert_eq!(volume_save_due(now, None), (false, None));
}

#[test]
fn set_volume_clamps_into_range() {
    let mut app = viewing_app(&["a.mp4"], 0);
    set_volume(&app.window, &mut app.shared, 1.7f32.to_bits(), NOW, &mut app.out);
    assert_eq!(f32::from_bits(app.shared.config.value.video_volume), 1.0);
    set_volume(&app.window, &mut app.shared, (-0.5f32).to_bits(), NOW, &mut app.out);
    assert_eq!(f32::from_bits(app.shared.config.value.video_volume), 0.0);
}

#[test]
fn volumes_are_brought_into_range_as_numbers_are() {
    let mut app = viewing_app(&["a.mp4"], 0);
    let values = [
        0.0f32, -0.0, 0.25, 0.999, 1.0, 1.0001, 9.5e20, f32::INFINITY, -1e-30, -3.0,
        f32::NEG_INFINITY, f32::MIN_POSITIVE,
    ];
    for value in values {
        set_volume(&app.window, &mut app.shared, value.to_bits(), NOW, &mut app.out);
        let expected = value.clamp(0.0, 1.0).to_bits();
        assert_eq!(app.shared.config.value.video_volume, expected, "{value}");
    }
    set_volume(&app.window, &mut app.shared, f32::NAN.to_bits(), NOW, &mut app.out);
    assert!(f32::from_bits(app.shared.config.value.video_volume).is_nan());
}

fn poll(failed: Option<&str>, finished: bool, showed_frame: bool) -> Poll {
    Poll { failed: failed.map(|s| s.to_string()), frame: None, finished, showed_frame }
}

#[test]
fn a_zero_frame_looping_session_never_reopens() {
    let mut app = viewing_app(&["a.mp4"], 0);
    app.viewer_mut().video.session =
        Some(VideoSession { playing: true, looping: true, muted: false, temp: Some(3) });
    let ctx = app.ctx();
    update_video(
        &mut app.window,
        &mut app.shared,
        ctx,
        VideoMessage::Tick(poll(None, true, false)),
        &mut app.out,
    );
    assert!(app.viewer().video.session.unwrap().temp.is_some());
    assert!(!matches!(app.viewer().displayed, DisplayedImage::Error { .. }));
    assert!(!app.out.iter().any(|a| matches!(a, Action::ReopenVideo { .. })));
}

#[test]
fn a_finished_looping_session_starts_over() {
    let mut app = viewing_app(&["a.mp4"], 0);
    app.viewer_mut().video.session =
        Some(VideoSession { playing: true, looping: true, muted: false, temp: None });
    let viewer = app.window.viewer_mut().unwrap();
    tick_frame(viewer, &app.shared, &poll(None, true, true), NOW, &mut app.out);
    assert!(app.out.iter().any(|a| matches!(a, Action::ReopenVideo { .. })));
}

#[test]
fn a_failed_open_shows_the_error_and_tears_the_session_down() {
    let mut app = viewing_app(&["missing.mp4"], 0);
    let missing = app.file("missing.mp4");
    app.shared.config.value.video_loop = true;
    app.viewer_mut().video.session =
        Some(VideoSession { playing: true, looping: true, muted: true, temp: None });
    app.viewer_mut().pending_since = Some(NOW);
    let viewer = app.window.viewer_mut().unwrap();
    tick_frame(viewer, &app.shared, &poll(Some("gone"), false, false), NOW, &mut app.out);
    let v = app.viewer();
    assert!(v.video.session.is_none());
    assert!(v.pending_since.is_none());
    assert!(matches!(v.displayed, DisplayedImage::Error { .. }));
    assert!(v.failed_loads.contains_key(&missing));
}

#[test]
fn extraction_landing_while_minimized_pauses_and_rearms_decay() {
    let mut app = viewing_app(&["clip.mp4"], 0);
    app.window.state.value.minimized = true;
    app.window.state.value.focused = false;
    app.shared.config.value.resource.value.pause_video_when_minimized = true;
    let before = app.window.state.value.decay_generation;
    let clip = app.file("clip.mp4");
    extracted(&mut app.window, &mut app.shared, clip, Ok(5), &mut app.out);
    assert!(app.viewer().video.session.is_some_and(|s| !s.playing));
    assert!(app.window.state.value.video_resumes_on_restore);
    assert_ne!(app.window.state.value.decay_generation, before);
}

#[test]
fn extraction_landing_focused_does_not_rearm_decay() {
    let mut app = viewing_app(&["clip.mp4"], 0);
    let before = app.window.state.value.decay_generation;
    let clip = app.file("clip.mp4");
    extracted(&mut app.window, &mut app.shared, clip, Ok(5), &mut app.out);
    assert!(app.viewer().video.session.is_some());
    assert!(!app.window.state.value.video_resumes_on_restore);
    assert_eq!(app.window.state.value.decay_generation, before);
}

// Toasts, titles, and starting up.

#[test]
fn push_toast_appends_and_increments_the_id() {
    let mut app = empty_app();
    push_toast(&mut app.window, ToastKind::Info, "hello".to_string(), &mut app.out);
    assert_eq!(app.window.toasts.len(), 1);
    assert_eq!(app.window.toasts[0].text, "hello");
    assert_eq!(app.window.state.value.next_toast_id, 1);
    push_toast(&mut app.window, ToastKind::Error, "oops".to_string(), &mut app.out);
    assert_eq!(app.window.state.value.next_toast_id, 2);
    assert_ne!(app.window.toasts[0].id, app.window.toasts[1].id);
}

#[test]
fn viewer_accessors_track_the_session() {
    assert!(empty_app().window.viewer().is_none());
    let mut viewing = viewing_app(&["a.png"], 0);
    assert!(viewing.window.viewer().is_some());
    assert!(viewing.window.viewer_mut().is_some());
}

fn parts() -> TitleParts {
    TitleParts {
        position: "1 / 1".to_string(),
        zoom_percent: 50,
        dimensions: "4 x 2".to_string(),
        size: "1 KB".to_string(),
    }
}

#[test]
fn title_is_the_filename_when_the_footer_is_shown() {
    let mut app = viewing_app(&["photo.png", "b.png"], 0);
    app.shared.config.value.show_footer = true;
    assert_eq!(title(&app.window, &app.shared, &parts()), "photo.png");
}

#[test]
fn title_without_footer_shows_placeholders_for_unknown_dimensions() {
    let mut app = viewing_app(&["photo.png"], 0);
    app.shared.config.value.show_footer = false;
    let text = title(&app.window, &app.shared, &parts());
    assert!(text.contains("photo.png"));
    assert!(text.contains('…'));
    app.viewer_mut().displayed = DisplayedImage::Placeholder(thumb(4, 2));
    assert_eq!(
        title(&app.window, &app.shared, &parts()),
        "photo.png  |  1 / 1  |  50%  |  4 x 2  |  1 KB"
    );
}

#[test]
fn title_is_empty_without_a_viewer() {
    let app = empty_app();
    assert_eq!(title(&app.window, &app.shared, &parts()), "");
}

#[test]
fn initial_open_path_returns_existing_file() {
    let file = ProbedPath { path: 4, kind: PathKind::File };
    assert_eq!(initial_open_path(Some(file)), Some(4));
}

#[test]
fn initial_open_path_returns_existing_directory() {
    let dir = ProbedPath { path: 4, kind: PathKind::Directory };
    assert_eq!(initial_open_path(Some(dir)), Some(4));
}

#[test]
fn initial_open_path_rejects_missing_path() {
    let missing = ProbedPath { path: 4, kind: PathKind::Missing };
    assert_eq!(initial_open_path(Some(missing)), None);
}

#[test]
fn initial_open_path_without_path_returns_none() {
    assert_eq!(initial_open_path(None), None);
}

#[test]
fn starting_on_a_path_opens_one_loading_window() {
    let mut shared = Shared::new(Config::default(), true, false, PathStyle::Unix);
    let photo = shared.paths.intern(Source::Fs, "photo.png").unwrap();
    let probed = ProbedPath { path: photo, kind: PathKind::File };
    let (app, acts) = boot(shared, 1, Some(probed), NOW);
    assert_eq!(app.windows.len(), 1);
    assert!(app.windows[0].state.value.opening_since.is_some());
    let kinds: Vec<Action> = acts.iter().map(|r| r.action).collect();
    assert_eq!(
        kinds,
        vec![
            Action::HousekeepDiskThumbs,
            Action::CleanExtractions,
            Action::OpenWindow { window: 1 },
            Action::RecalcViewport,
            Action::ScanDirectory { file: photo },
        ]
    );
}
