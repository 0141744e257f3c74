//! The whole program: routing between windows, file operations, settings, and
//! the background work around them.
use scryglass::actions::Action;
use scryglass::app::{replay_window_state, update, App, Envelope, Routed};
use scryglass::config::{Config, RamBudget, ThemeChoice, WorkingSetTrim};
use scryglass::decay::DecayStage;
use scryglass::dispatch::dispatch;
use scryglass::file_ops::retry_trash;
use scryglass::jobs::{
    covers, decode_message, frame_patience, mint_plan, polled, still_patience, tried,
    upload_message, DecodeResult, MintPlan, Upload, UploadStep,
};
use scryglass::media::MediaError;
use scryglass::media_tasks::Ctx;
use scryglass::message::{
    ContextMenuMessage, FilmstripMessage, MediaMessage, Message, ModalMessage, SettingsMessage,
    SliderMessage, ToolbarMessage, ViewerMessage, WindowMessage,
};
use scryglass::nav::Nav;
use scryglass::paths::{PathStyle, Source};
use scryglass::state::{DisplayedImage, Shared, Span, Thumb, VideoSession, Viewer};
use scryglass::store::{AnimFrames, RamImage, Texture, Tier};
use scryglass::subscription::{timers, watch_step, WatchEvent};
use scryglass::text::copied_path;
use scryglass::tiles::{
    begin_production, demand_tiles, fire_tiles, tile_outcome, TileKey, TileOutcome, TileSet,
    TileView,
};
use scryglass::time::{Duration, Instant};
use scryglass::view::{view, Backdrop, Content};
use scryglass::window::{Coords, Modal, OpenMenu, Session, Window};
use scryglass::working_set::{condition_met, reconcile};

struct Fixture {
    window: Window,
    shared: Shared,
    out: Vec<Action>,
}

const NOW: Instant = Instant { nanos: 5_000_000_000 };

impl Fixture {
    fn file(&mut self, name: &str) -> u64 {
        self.shared.paths.intern(Source::Fs, name).unwrap()
    }

    fn viewer(&self) -> &Viewer {
        self.window.viewer().unwrap()
    }

    fn viewer_mut(&mut self) -> &mut Viewer {
        self.window.viewer_mut().unwrap()
    }

    fn ctx(&self) -> Ctx {
        Ctx { window: self.window.state.value.id, now: NOW, visible: Span { start: 0, end: 8 } }
    }
}

fn empty_app() -> Fixture {
    let size = Coords { first: 800f32.to_bits(), second: 600f32.to_bits() };
    let origin = Coords { first: 0, second: 0 };
    Fixture {
        window: Window::new(1, size, origin, false, false),
        shared: Shared::new(Config::default(), false, false, PathStyle::Unix),
        out: Vec::new(),
    }
}

fn viewing_app(names: &[&str], cursor: usize) -> Fixture {
    let mut app = empty_app();
    let files: Vec<u64> = names.iter().map(|n| app.file(n)).collect();
    let start = files[cursor];
    let nav = match Nav::new(files, start) {
        Ok(nav) => nav,
        Err(_) => unreachable!(),
    };
    app.window.session = Session::Viewing(Box::new(Viewer::new(nav, Source::Fs, NOW)));
    app
}

fn ram() -> RamImage {
    RamImage { width: 2, height: 2, decode_time: None }
}

fn texture() -> Texture {
    Texture { id: 9, width: 2, height: 2, tiled: false }
}

/// Lease `name` in this window with its pixels and full texture resident.
fn cache_image(app: &mut Fixture, name: &str) {
    let file = app.file(name);
    let window = app.window.state.value.id;
    let _ = app.shared.store.request(window, file, Tier::Full);
    let _ = app.shared.store.on_decoded(file, ram());
    let _ = app.shared.store.on_minted(file, Tier::Full, texture());
    app.viewer_mut().cache.insert(file, Tier::Full);
}

fn into_app(fixture: Fixture) -> (App, u64) {
    let id = fixture.window.state.value.id;
    (App { shared: fixture.shared, windows: vec![fixture.window] }, id)
}

fn turn(app: &mut App, envelope: Envelope) -> Vec<Routed> {
    update(app, envelope, NOW, Span { start: 0, end: 8 }, false)
}

fn send(app: &mut Fixture, msg: Message) {
    let ctx = app.ctx();
    dispatch(&mut app.window, &mut app.shared, ctx, msg, &mut app.out);
}

fn next() -> Message {
    Message::Viewer(ViewerMessage::Next)
}

#[test]
fn a_cache_miss_defers_navigation_instead_of_dropping_it() {
    let (mut app, id) = into_app(viewing_app(&["a.png", "b.png"], 0));
    let _ = turn(&mut app, Envelope::Win(id, next()));
    assert!(app.windows[0].viewer().unwrap().pending_nav.is_some());
}

#[test]
fn a_modal_makes_viewer_navigation_inert() {
    let mut t = viewing_app(&["a.png", "b.png"], 0);
    t.window.modal = Some(Modal::Settings);
    let (mut app, id) = into_app(t);
    let _ = turn(&mut app, Envelope::Win(id, next()));
    assert!(app.windows[0].viewer().unwrap().pending_nav.is_none());
}

#[test]
fn a_store_completion_survives_its_window_closing() {
    let mut t = viewing_app(&["a.png"], 0);
    let a = t.file("a.png");
    let (mut app, id) = into_app(t);
    // Another window still claims the image while the upload is in flight.
    let _ = app.shared.store.request(2, a, Tier::Full);
    let _ = app.shared.store.on_decoded(a, ram());

    app.windows.clear();
    let landed = MediaMessage::TextureReady { file: a, tier: Tier::Full, texture: texture() };
    let _ = turn(&mut app, Envelope::Win(id, Message::Media(landed)));

    assert!(app.shared.store.texture(a).is_some());
    assert_eq!(app.shared.store.tier(a), Tier::Full);
    assert!(!app.shared.store.entry(a).pending);
}

#[test]
fn a_bare_relaunch_opens_an_empty_window() {
    let (mut app, _id) = into_app(empty_app());
    let _ = turn(&mut app, Envelope::Forwarded { window: 2, path: None });
    assert_eq!(app.windows.len(), 2);
    let win = &app.windows[1];
    assert!(matches!(win.session, Session::Empty));
    assert!(win.state.value.opening_since.is_none());
}

#[test]
fn a_config_reload_applies_new_settings_across_windows() {
    let (mut app, _id) = into_app(viewing_app(&["a.png"], 0));
    let edited =
        Config { theme: ThemeChoice::Light, prefetch_depth: 7, ..app.shared.config.value };
    let _ = turn(&mut app, Envelope::ConfigReloaded(edited));
    assert_eq!(app.shared.config.value.theme, ThemeChoice::Light);
    assert_eq!(app.shared.config.value.prefetch_depth, 7);
}

#[test]
fn an_unchanged_config_asks_for_nothing() {
    let (mut app, _id) = into_app(viewing_app(&["a.png"], 0));
    let same = app.shared.config.value;
    assert!(turn(&mut app, Envelope::ConfigReloaded(same)).is_empty());
}

#[test]
fn a_config_that_does_not_parse_is_reported() {
    let (mut app, _id) = into_app(empty_app());
    let _ = turn(&mut app, Envelope::ConfigInvalid);
    assert_eq!(app.windows[0].toasts.len(), 1);
}

#[test]
fn a_forwarded_path_opens_a_loading_window() {
    let mut t = empty_app();
    let photo = t.file("photo.png");
    let (mut app, _id) = into_app(t);
    let acts = turn(&mut app, Envelope::Forwarded { window: 2, path: Some(photo) });
    assert_eq!(app.windows.len(), 2);
    assert!(app.windows[1].state.value.opening_since.is_some());
    assert!(acts
        .contains(&Routed { window: Some(2), action: Action::ScanDirectory { file: photo } }));
}

#[test]
fn new_windows_take_the_saved_size_not_the_open_window() {
    let (mut app, _id) = into_app(empty_app());
    let large = Coords { first: 3000f32.to_bits(), second: 2000f32.to_bits() };
    app.windows[0].state.value.window_size = large;
    app.shared.config.value.window_width = 800f32.to_bits();
    app.shared.config.value.window_height = 600f32.to_bits();
    let _ = turn(&mut app, Envelope::Forwarded { window: 2, path: None });
    assert_eq!(
        app.windows[1].state.value.window_size,
        Coords { first: 800f32.to_bits(), second: 600f32.to_bits() }
    );
}

#[test]
fn a_saved_state_is_replayed_maximized_first() {
    assert_eq!(
        replay_window_state(true, true),
        vec![Action::Maximize, Action::SetFullscreen { on: true }]
    );
    assert!(replay_window_state(false, false).is_empty());
}

#[test]
fn closing_the_last_window_exits() {
    let (mut app, id) = into_app(viewing_app(&["a.png"], 0));
    let acts = turn(&mut app, Envelope::Closed(id));
    assert!(app.windows.is_empty());
    assert!(acts.iter().any(|r| r.action == Action::Exit));
}

#[test]
fn a_landed_texture_shows_in_every_window_waiting_for_it() {
    let mut t = viewing_app(&["a.png"], 0);
    let a = t.file("a.png");
    let (mut app, id) = into_app(t);
    let nav = match Nav::new(vec![a], a) {
        Ok(nav) => nav,
        Err(_) => unreachable!(),
    };
    let mut second = Window::new(
        2,
        Coords { first: 0, second: 0 },
        Coords { first: 0, second: 0 },
        false,
        false,
    );
    second.session = Session::Viewing(Box::new(Viewer::new(nav, Source::Fs, NOW)));
    app.windows.push(second);
    for (i, window) in [(0usize, 1u64), (1, 2)] {
        let _ = app.shared.store.request(window, a, Tier::Full);
        app.windows[i].viewer_mut().unwrap().cache.insert(a, Tier::Full);
    }
    let _ = app.shared.store.on_decoded(a, ram());
    let landed = MediaMessage::TextureReady { file: a, tier: Tier::Full, texture: texture() };
    let _ = turn(&mut app, Envelope::Win(id, Message::Media(landed)));
    for win in &app.windows {
        let v = win.viewer().unwrap();
        assert!(matches!(v.displayed, DisplayedImage::Full { .. }));
        assert_eq!(v.displayed_path, Some(a));
    }
}

#[test]
fn a_message_leaves_the_other_windows_alone() {
    let (mut app, id) = into_app(viewing_app(&["a.png", "b.png"], 0));
    let other = viewing_app(&["c.png", "d.png"], 1).window;
    app.windows.push(other);
    app.windows[1].state.value.id = 2;
    app.windows[1].state.value.open_menu = Some(OpenMenu::Sort);
    let before = app.windows[1].state.value;
    let _ = turn(&mut app, Envelope::Win(id, next()));
    assert_eq!(app.windows[1].state.value, before);
    let v = app.windows[1].viewer().unwrap();
    assert_eq!(v.nav.cursor(), 1);
    assert!(v.pending_nav.is_none());
}

#[test]
fn a_chrome_toggle_measures_again_and_a_resize_does_not() {
    let (mut app, id) = into_app(viewing_app(&["a.png"], 0));
    let toggle = Message::Toolbar(ToolbarMessage::ToggleToolbar);
    let acts = turn(&mut app, Envelope::Win(id, toggle));
    let again = Action::MeasureImageArea { if_moved: true };
    assert_eq!(acts.last().unwrap().action, again);
    let size = Coords { first: 700f32.to_bits(), second: 500f32.to_bits() };
    let resize = Message::Window(WindowMessage::Resized { size, empty: false });
    let acts = turn(&mut app, Envelope::Win(id, resize));
    assert!(acts.iter().any(|r| r.action == Action::RecalcViewport));
    assert!(!acts.iter().any(|r| matches!(r.action, Action::MeasureImageArea { .. })));
}

#[test]
fn a_closed_windows_texture_shows_where_it_is_waited_for() {
    let mut t = viewing_app(&["a.png"], 0);
    let a = t.file("a.png");
    let (mut app, _id) = into_app(t);
    let _ = app.shared.store.request(1, a, Tier::Full);
    app.windows[0].viewer_mut().unwrap().cache.insert(a, Tier::Full);
    let _ = app.shared.store.on_decoded(a, ram());
    let landed = MediaMessage::TextureReady { file: a, tier: Tier::Full, texture: texture() };
    let _ = turn(&mut app, Envelope::Win(99, Message::Media(landed)));
    let v = app.windows[0].viewer().unwrap();
    assert!(matches!(v.displayed, DisplayedImage::Full { .. }));
    assert_eq!(v.displayed_path, Some(a));
}

#[test]
fn a_closed_windows_animation_lands_where_it_is_waited_for() {
    let mut t = viewing_app(&["a.gif"], 0);
    let gif = t.file("a.gif");
    let (mut app, id) = into_app(t);
    let _ = app.shared.store.request(1, gif, Tier::Full);
    app.windows[0].viewer_mut().unwrap().cache.insert(gif, Tier::Full);
    let frames = AnimFrames {
        width: 2,
        height: 2,
        delays: vec![Duration::from_millis(100); 2],
        decode_time: None,
    };
    let landed = MediaMessage::AnimDecoded { file: gif, frames, thumb: None, max_dim: None };
    let acts = turn(&mut app, Envelope::Win(99, Message::Media(landed)));
    let v = app.windows[0].viewer().unwrap();
    assert!(v.anim_player.has_cached(gif, &app.shared.anim_store));
    assert!(v.anim_player.is_active_on(gif));
    assert!(!v.cache.holds(gif));
    let upload = Routed { window: Some(id), action: Action::FrameUpload { file: gif } };
    assert!(acts.contains(&upload));
}

// The working set.

#[test]
fn all_unfocused_tracks_window_focus() {
    let (mut app, _id) = into_app(empty_app());
    assert!(!condition_met(&app.windows, WorkingSetTrim::AllUnfocused));
    app.windows[0].state.value.focused = false;
    assert!(condition_met(&app.windows, WorkingSetTrim::AllUnfocused));
}

#[test]
fn all_minimized_tracks_minimize() {
    let (mut app, _id) = into_app(empty_app());
    assert!(!condition_met(&app.windows, WorkingSetTrim::AllMinimized));
    app.windows[0].state.value.focused = false;
    assert!(!condition_met(&app.windows, WorkingSetTrim::AllMinimized));
    app.windows[0].state.value.minimized = true;
    assert!(condition_met(&app.windows, WorkingSetTrim::AllMinimized));
}

#[test]
fn never_is_never_met() {
    let (mut app, _id) = into_app(empty_app());
    app.windows[0].state.value.focused = false;
    app.windows[0].state.value.minimized = true;
    assert!(!condition_met(&app.windows, WorkingSetTrim::Never));
}

#[test]
fn reconcile_arms_on_transition_then_stays_put_on_a_poll() {
    let (mut app, _id) = into_app(empty_app());
    app.shared.config.value.resource.value.trim_when = WorkingSetTrim::AllUnfocused;
    let mut out = Vec::new();

    reconcile(&app.windows, &mut app.shared, &mut out);
    assert!(!app.shared.status.value.trim_armed);

    app.windows[0].state.value.focused = false;
    reconcile(&app.windows, &mut app.shared, &mut out);
    assert!(app.shared.status.value.trim_armed);
    let armed = app.shared.status.value.trim_generation;
    assert_eq!(out.len(), 1);

    reconcile(&app.windows, &mut app.shared, &mut out);
    assert_eq!(app.shared.status.value.trim_generation, armed);
    assert_eq!(out.len(), 1);

    app.windows[0].state.value.focused = true;
    reconcile(&app.windows, &mut app.shared, &mut out);
    assert!(!app.shared.status.value.trim_armed);
    assert_eq!(app.shared.status.value.trim_generation, armed + 1);
}

#[test]
fn only_the_current_trim_timer_trims() {
    let (mut app, _id) = into_app(empty_app());
    app.shared.config.value.resource.value.trim_when = WorkingSetTrim::AllUnfocused;
    app.windows[0].state.value.focused = false;
    let generation = app.shared.status.value.trim_generation;
    let acts = turn(&mut app, Envelope::TrimWorkingSet(generation));
    assert_eq!(acts, vec![Routed { window: None, action: Action::TrimWorkingSet }]);
    assert!(turn(&mut app, Envelope::TrimWorkingSet(generation + 1)).is_empty());
}

// Menus and dialogs.

#[test]
fn a_window_event_leaves_menus_open_and_a_key_closes_them() {
    let mut app = viewing_app(&["a.png", "b.png"], 0);
    app.window.state.value.open_menu = Some(OpenMenu::Zoom);
    send(&mut app, Message::Window(WindowMessage::CheckMinimize));
    assert_eq!(app.window.state.value.open_menu, Some(OpenMenu::Zoom));
    send(&mut app, next());
    assert_eq!(app.window.state.value.open_menu, None);
}

#[test]
fn a_dialog_swallows_the_keys_it_blocks() {
    let mut app = viewing_app(&["a.png", "b.png"], 0);
    cache_image(&mut app, "b.png");
    app.window.modal = Some(Modal::Settings);
    send(&mut app, next());
    assert_eq!(app.viewer().nav.cursor(), 0);
    assert!(app.out.is_empty());
}

#[test]
fn deleting_asks_first_and_then_drops_the_file() {
    let mut app = viewing_app(&["a.png", "b.png"], 0);
    let a = app.file("a.png");
    let b = app.file("b.png");
    send(&mut app, Message::Modal(ModalMessage::RequestDelete));
    assert!(matches!(app.window.modal, Some(Modal::ConfirmDelete(_))));
    send(&mut app, Message::Modal(ModalMessage::ConfirmDeleteNow));
    assert!(app.window.modal.is_none());
    assert!(app.out.contains(&Action::Trash { file: a, resume: None }));
    send(&mut app, Message::Modal(ModalMessage::DeleteFinished(a, Ok(()), None)));
    assert_eq!(app.viewer().nav.len(), 1);
    assert_eq!(app.viewer().nav.current(), b);
}

#[test]
fn read_only_mode_refuses_file_operations() {
    let mut app = viewing_app(&["a.png"], 0);
    app.shared.config.value.read_only = true;
    send(&mut app, Message::Modal(ModalMessage::RequestDelete));
    assert!(app.window.modal.is_none());
    assert_eq!(app.window.toasts[0].text, "Read-only mode is on");
}

#[test]
fn renaming_moves_the_file_under_its_new_name() {
    let mut app = viewing_app(&["dir/a.png", "dir/b.png"], 0);
    let a = app.file("dir/a.png");
    send(&mut app, Message::Modal(ModalMessage::RequestRename));
    send(&mut app, Message::Modal(ModalMessage::RenameInput("c.png".to_string())));
    app.out.clear();
    send(&mut app, Message::Modal(ModalMessage::CommitRename));
    let c = app.file("dir/c.png");
    assert_eq!(app.out, vec![Action::RenameFile { from: a, to: c }]);
    send(&mut app, Message::Modal(ModalMessage::RenameFinished(a, c, Ok(()))));
    assert_eq!(app.viewer().nav.current(), c);
    assert_eq!(app.viewer().nav.len(), 2);
}

#[test]
fn a_renamed_video_is_still_a_video() {
    let mut app = viewing_app(&["clip.mp4"], 0);
    send(&mut app, Message::Modal(ModalMessage::RequestRename));
    send(&mut app, Message::Modal(ModalMessage::RenameInput("film.MP4".to_string())));
    send(&mut app, Message::Modal(ModalMessage::CommitRename));
    let film = app.file("film.MP4");
    assert!(app.shared.paths.is_video(film));
}

#[test]
fn a_bad_name_keeps_the_dialog_open() {
    let mut app = viewing_app(&["a.png"], 0);
    send(&mut app, Message::Modal(ModalMessage::RequestRename));
    send(&mut app, Message::Modal(ModalMessage::RenameInput("a/b.png".to_string())));
    send(&mut app, Message::Modal(ModalMessage::CommitRename));
    assert!(matches!(app.window.modal, Some(Modal::Rename { .. })));
    assert_eq!(app.window.toasts[0].text, "Name contains invalid characters");
}

#[test]
fn trashing_is_retried_a_few_times() {
    assert!(retry_trash(0));
    assert!(retry_trash(3));
    assert!(!retry_trash(4));
    assert!(!retry_trash(u32::MAX));
}

#[test]
fn save_and_probe_build_background_tasks() {
    let mut app = empty_app();
    app.shared.status.value.disk_store = true;
    send(&mut app, Message::Settings(SettingsMessage::OpenSettings(true)));
    assert!(app.out.contains(&Action::ProbeDiskCache));
    send(&mut app, Message::Settings(SettingsMessage::ToggleConfirmDelete));
    assert!(app.out.contains(&Action::SaveConfig));
    assert!(!app.shared.config.value.confirm_delete);
}

#[test]
fn settings_stay_in_their_ranges() {
    let mut app = empty_app();
    send(&mut app, Message::Settings(SettingsMessage::SetPrefetchDepth(usize::MAX)));
    let most = app.shared.config.value.prefetch_depth;
    send(&mut app, Message::Settings(SettingsMessage::SetPrefetchDepth(most)));
    assert_eq!(app.shared.config.value.prefetch_depth, most);
    assert!(most < usize::MAX);
}

#[test]
fn the_context_menu_copies_the_current_path() {
    let mut app = viewing_app(&["a.png"], 0);
    let a = app.file("a.png");
    send(&mut app, Message::ContextMenu(ContextMenuMessage::Show));
    assert!(app.window.state.value.context_menu_open);
    send(&mut app, Message::ContextMenu(ContextMenuMessage::CopyFilePath));
    assert!(!app.window.state.value.context_menu_open);
    assert!(app.out.contains(&Action::WritePath { source: Source::Fs, file: a }));
    assert_eq!(copied_path(&app.shared, Source::Fs, a), "a.png");
}

fn copy_what_is_shown(app: &mut Fixture) -> Vec<Action> {
    app.out.clear();
    send(app, Message::ContextMenu(ContextMenuMessage::CopyImage));
    app.out.clone()
}

#[test]
fn a_playing_animation_is_copied() {
    let mut app = viewing_app(&["a.gif"], 0);
    let gif = app.file("a.gif");
    app.viewer_mut().displayed = DisplayedImage::Animated { original_size: (2, 2) };
    app.viewer_mut().displayed_path = Some(gif);
    // Without resident frames there are no pixels.
    assert!(!copy_what_is_shown(&mut app).contains(&Action::CopyImage));
    assert_eq!(app.window.toasts[0].text, "Image is still loading");
    app.shared.anim_store.request(1, gif, Tier::InRam);
    let frames = AnimFrames {
        width: 2,
        height: 2,
        delays: vec![Duration::from_millis(100); 2],
        decode_time: None,
    };
    app.shared.anim_store.on_decoded(gif, frames);
    app.viewer_mut().anim_player.insert(gif);
    let mut out = Vec::new();
    let viewer = app.window.viewer_mut().unwrap();
    assert!(viewer.anim_player.try_start_from_cache(gif, &app.shared.anim_store, &mut out));
    assert_eq!(copy_what_is_shown(&mut app), vec![Action::CopyImage]);
}

#[test]
fn a_videos_latest_frame_is_copied() {
    let mut app = viewing_app(&["clip.mp4"], 0);
    app.viewer_mut().displayed = DisplayedImage::Video { original_size: (4, 2) };
    assert!(!copy_what_is_shown(&mut app).contains(&Action::CopyImage));
    app.viewer_mut().video.frame = Some((4, 2));
    assert_eq!(copy_what_is_shown(&mut app), vec![Action::CopyImage]);
}

#[test]
fn crisp_pixels_hold_for_every_sharp_picture() {
    let mut app = viewing_app(&["a.gif"], 0);
    app.shared.config.value.crisp_pixels = true;
    assert!(!view(&app.window, &app.shared, NOW).crisp);
    assert_eq!(view(&app.window, &app.shared, NOW).dimensions, None);
    for shown in [
        DisplayedImage::Full { original_size: (4, 2), rotated: None },
        DisplayedImage::Animated { original_size: (4, 2) },
        DisplayedImage::Video { original_size: (4, 2) },
    ] {
        app.viewer_mut().displayed = shown;
        let plan = view(&app.window, &app.shared, NOW);
        assert!(plan.crisp);
        assert_eq!(plan.dimensions, Some((4, 2)));
    }
}

#[test]
fn an_evicted_animations_lease_says_so() {
    let mut app = viewing_app(&["a.gif"], 0);
    let gif = app.file("a.gif");
    app.shared.anim_store.request(1, gif, Tier::InRam);
    app.viewer_mut().anim_player.insert(gif);
    app.viewer_mut().displayed = DisplayedImage::Animated { original_size: (2, 2) };
    app.viewer_mut().displayed_path = Some(gif);
    let generation = app.window.state.value.decay_generation;
    let evict = WindowMessage::Decay { generation, stage: DecayStage::EvictRam };
    send(&mut app, Message::Window(evict));
    assert_eq!(app.viewer().anim_player.lease(gif).unwrap().want, Tier::Evicted);
}

#[test]
fn the_disk_store_is_there_once_it_says_so() {
    let mut app = empty_app();
    app.shared.config.value.disk_thumbs = false;
    send(&mut app, Message::Settings(SettingsMessage::ToggleDiskThumbs));
    assert!(app.out.contains(&Action::SwapDiskThumbs { on: true }));
    assert!(!app.shared.status.value.disk_store);
    send(&mut app, Message::Settings(SettingsMessage::DiskStoreSwapped(true)));
    assert!(app.shared.status.value.disk_store);
}

#[test]
fn a_reload_of_any_setting_is_adopted() {
    let (mut app, _id) = into_app(viewing_app(&["a.png"], 0));
    let config = app.shared.config.value;
    let mut resource = config.resource;
    resource.value.prefetch_parallelism = 5;
    resource.value.large_image_ram_budget = RamBudget::Megabytes(2048);
    let edited = Config { resource, ..config };
    assert!(!turn(&mut app, Envelope::ConfigReloaded(edited)).is_empty());
    assert_eq!(app.shared.config.value, edited);
    let louder = Config { video_volume: 0.5f32.to_bits(), ..edited };
    assert!(!turn(&mut app, Envelope::ConfigReloaded(louder)).is_empty());
    assert_eq!(app.shared.config.value.video_volume, 0.5f32.to_bits());
}

#[test]
fn a_folder_is_refreshed_once_its_changes_rest() {
    let mut dirty = false;
    let mut refreshes = Vec::new();
    for event in [
        WatchEvent::Quiet,
        WatchEvent::Changed,
        WatchEvent::Changed,
        WatchEvent::Quiet,
        WatchEvent::Quiet,
        WatchEvent::Changed,
        WatchEvent::Ended,
    ] {
        let (next, refresh) = watch_step(dirty, event);
        dirty = next;
        refreshes.push(refresh);
    }
    assert_eq!(refreshes, vec![false, false, false, true, false, false, false]);
}

#[test]
fn an_archive_entry_is_copied_with_its_archive() {
    let mut app = empty_app();
    let zip = app.file("dir/photos.zip");
    let source = Source::Archive(zip);
    let entry = app.shared.paths.intern(source, "in/a.png").unwrap();
    assert_eq!(copied_path(&app.shared, source, entry), "dir/photos.zip/in/a.png");
}

#[test]
fn a_deleted_video_lets_go_of_its_file_and_resumes_if_that_fails() {
    let mut app = viewing_app(&["clip.mp4", "b.png"], 0);
    let clip = app.file("clip.mp4");
    let session = VideoSession { playing: true, looping: false, muted: true, temp: None };
    app.viewer_mut().video.session = Some(session);
    app.shared.config.value.confirm_delete = false;
    send(&mut app, Message::Modal(ModalMessage::RequestDelete));
    assert!(app.viewer().video.session.is_none());
    assert_eq!(
        app.out,
        vec![
            Action::SuspendVideo { playing: true },
            Action::Trash { file: clip, resume: Some(session) },
        ]
    );
    app.out.clear();
    let failed = ModalMessage::DeleteFinished(clip, Err("in use".to_string()), Some(session));
    send(&mut app, Message::Modal(failed));
    assert_eq!(app.viewer().video.session, Some(session));
    assert!(app.out.contains(&Action::ResumeVideo));
    assert_eq!(app.window.toasts[0].text, "Couldn't delete: in use");
}

#[test]
fn a_smaller_image_budget_lets_go_of_loose_images() {
    let mut app = viewing_app(&["a.png", "b.png", "c.png", "d.png", "e.png", "f.png"], 0);
    for name in ["a.png", "c.png", "d.png"] {
        cache_image(&mut app, name);
        let file = app.file(name);
        // Sixty-four megabytes of pixels each.
        let large = RamImage { width: 4096, height: 4096, decode_time: None };
        let _ = app.shared.store.on_decoded(file, large);
    }
    app.shared.config.value.prefetch_depth = 1;
    send(&mut app, Message::Settings(SettingsMessage::SetCacheBudget(1)));
    assert_eq!(app.shared.config.value.cache_budget_mb, 128);
    let held = |app: &mut Fixture, name: &str| {
        let file = app.file(name);
        app.viewer().cache.holds(file)
    };
    assert!(held(&mut app, "a.png"));
    assert!(!held(&mut app, "c.png"));
    assert!(held(&mut app, "d.png"));
}

#[test]
fn the_filmstrip_and_the_slider_jump() {
    let mut app = viewing_app(&["a.png", "b.png", "c.png"], 0);
    cache_image(&mut app, "c.png");
    send(&mut app, Message::Filmstrip(FilmstripMessage::Clicked(2)));
    assert_eq!(app.viewer().nav.cursor(), 2);
    cache_image(&mut app, "a.png");
    send(&mut app, Message::NavSlider(SliderMessage::Changed(0)));
    send(&mut app, Message::NavSlider(SliderMessage::Released));
    assert_eq!(app.viewer().nav.cursor(), 0);
    assert!(app.viewer().slider_drag.is_none());
    let a = app.file("a.png");
    assert_eq!(app.viewer().displayed_path, Some(a));
}

#[test]
fn the_screen_follows_the_cursor_through_a_walk() {
    let mut app = viewing_app(&["a.png", "b.png", "c.png"], 0);
    for name in ["a.png", "b.png", "c.png"] {
        cache_image(&mut app, name);
    }
    for _ in 0..4 {
        send(&mut app, next());
        assert_eq!(app.viewer().displayed_path, Some(app.viewer().nav.current()));
    }
}

#[test]
fn toggling_the_toolbar_saves_and_lays_out_again() {
    let mut app = viewing_app(&["a.png"], 0);
    send(&mut app, Message::Toolbar(ToolbarMessage::ToggleToolbar));
    assert!(!app.shared.config.value.show_toolbar);
    assert!(app.out.contains(&Action::RecalcViewport));
    assert!(app.out.contains(&Action::SaveConfig));
}

#[test]
fn a_toast_leaves_when_its_time_is_up() {
    let mut app = viewing_app(&["a.png"], 0);
    app.shared.config.value.read_only = true;
    send(&mut app, Message::Modal(ModalMessage::RequestDelete));
    let id = app.window.toasts[0].id;
    send(&mut app, Message::DismissToast(id + 1));
    assert_eq!(app.window.toasts.len(), 1);
    send(&mut app, Message::DismissToast(id));
    assert!(app.window.toasts.is_empty());
}

// What a window shows.

#[test]
fn fullscreen_hides_all_chrome() {
    let mut app = viewing_app(&["a.png"], 0);
    app.window.state.value.fullscreen = true;
    let plan = view(&app.window, &app.shared, NOW);
    assert!(!plan.toolbar && !plan.filmstrip && !plan.footer && plan.slider.is_none());
}

#[test]
fn spinners_wait_out_a_grace_period() {
    let mut app = viewing_app(&["a.png"], 0);
    app.viewer_mut().pending_since = Some(NOW);
    let early = Instant { nanos: NOW.nanos + 100_000_000 };
    let late = Instant { nanos: NOW.nanos + 200_000_000 };
    assert!(view(&app.window, &app.shared, early).center_spinner.is_none());
    assert!(view(&app.window, &app.shared, late).center_spinner.is_some());
    app.viewer_mut().displayed =
        DisplayedImage::Placeholder(Thumb { id: 1, size: (1, 1), original_size: (1, 1) });
    let plan = view(&app.window, &app.shared, late);
    assert!(plan.center_spinner.is_none());
    assert_eq!(plan.content, Content::Blur);
}

#[test]
fn an_open_menu_takes_the_clicks_beside_it() {
    let mut app = empty_app();
    assert_eq!(view(&app.window, &app.shared, NOW).content, Content::DropPrompt);
    assert_eq!(view(&app.window, &app.shared, NOW).backdrop, Backdrop::Inert);
    app.window.state.value.open_menu = Some(OpenMenu::File);
    assert_eq!(view(&app.window, &app.shared, NOW).backdrop, Backdrop::DismissOverlay);
    app.window.state.value.context_menu_open = true;
    assert_eq!(view(&app.window, &app.shared, NOW).backdrop, Backdrop::DismissContextMenu);
}

#[test]
fn an_idle_window_runs_no_timers() {
    let mut app = empty_app();
    let idle = timers(&app.window, &app.shared);
    assert!(!idle.spinner && !idle.video && !idle.edge && idle.frame.is_none());
    app.window.state.value.opening_since = Some(NOW);
    assert!(timers(&app.window, &app.shared).spinner);
}

// Decodes, uploads, and tiles.

#[test]
fn decodes_report_what_they_found() {
    let took = Duration::from_millis(20);
    let still = DecodeResult::Still { width: 4, height: 2, preview: None };
    match decode_message(3, still, took, true, None) {
        MediaMessage::Decoded { file, ram, thumb } => {
            assert_eq!(file, 3);
            assert_eq!(ram, RamImage { width: 4, height: 2, decode_time: Some(took) });
            assert!(thumb.is_none());
        }
        _ => panic!("expected a still"),
    }
    let delays = vec![Duration::from_millis(100)];
    let moving = DecodeResult::Animated { width: 4, height: 2, delays, thumb: None };
    match decode_message(3, moving, took, true, Some(8192)) {
        MediaMessage::AnimDecoded { frames, max_dim, .. } => {
            assert_eq!(frames.decode_time, Some(took));
            assert_eq!(max_dim, Some(8192));
        }
        _ => panic!("expected an animation"),
    }
    let failed = DecodeResult::Nothing { err: MediaError::Cancelled };
    assert!(matches!(
        decode_message(3, failed, took, false, None),
        MediaMessage::DecodeFailed { file: 3, err: MediaError::Cancelled, exists: false }
    ));
}

#[test]
fn uploads_follow_the_tier_and_the_texture_limit() {
    let base = texture();
    assert_eq!(mint_plan(Tier::Full, 100, 100, 8192, None), MintPlan::Whole);
    assert_eq!(mint_plan(Tier::Full, 9000, 100, 8192, None), MintPlan::TiledScaled);
    assert_eq!(
        mint_plan(Tier::Full, 9000, 100, 8192, Some(base)),
        MintPlan::TiledOver { base }
    );
    assert_eq!(mint_plan(Tier::View, 9000, 100, 8192, None), MintPlan::Scaled);
    assert_eq!(
        mint_plan(Tier::View, 100, 100, 8192, Some(base)),
        MintPlan::Rendered { from: base }
    );
    assert!(covers((8, 8), (4, 4)));
    assert!(!covers((4, 3), (8, 6)));
}

#[test]
fn an_upload_gives_up_after_its_attempts() {
    let patience = still_patience();
    assert_ne!(patience, frame_patience());
    let (mut upload, step) = polled(Upload::Waiting { polled: 0 }, patience, true);
    assert_eq!(step, UploadStep::TryAfter(Duration::zero()));
    let mut attempts = 0;
    let outcome = loop {
        let (after, step) = tried(upload, patience, None);
        upload = after;
        attempts += 1;
        if let UploadStep::Report(outcome) = step {
            break outcome;
        }
    };
    assert_eq!(attempts, 30);
    assert_eq!(outcome, None);
    assert!(matches!(
        upload_message(3, Tier::Full, outcome),
        MediaMessage::MintFailed { file: 3 }
    ));
    let (_, step) = tried(Upload::Trying { tried: 0 }, patience, Some(texture()));
    assert_eq!(step, UploadStep::Report(Some(texture())));
}

fn tile(lod: u32, col: u32) -> TileKey {
    TileKey { lod, col, row: 0 }
}

#[test]
fn a_demand_pass_claims_each_missing_tile_once() {
    let mut set = TileSet::new();
    let wanted = TileView {
        fits: false,
        shown: (9000, 9000),
        base: None,
        level: 1,
        tiles: vec![tile(1, 0), tile(1, 1)],
    };
    let ttl = Duration::from_secs(10);
    assert_eq!(set.claim_tiles(&wanted, 64, NOW, ttl).len(), 2);
    assert!(set.claim_tiles(&wanted, 64, NOW, ttl).is_empty());
    assert!(set.still_wanted(tile(1, 0)));
    assert!(!set.still_wanted(tile(0, 0)));
    // An abandoned production may be claimed anew once it is old.
    let later = Instant { nanos: NOW.nanos + 20_000_000_000 };
    assert_eq!(set.claim_tiles(&wanted, 64, later, ttl).len(), 2);
}

#[test]
fn a_view_that_fits_is_cut_at_its_exact_size() {
    let mut set = TileSet::new();
    let wanted = TileView {
        fits: true,
        shown: (900, 700),
        base: Some((450, 350)),
        level: 0,
        tiles: vec![tile(0, 0)],
    };
    let jobs = set.claim_tiles(&wanted, 64, NOW, Duration::from_secs(10));
    assert_eq!(jobs.len(), 1);
    assert_eq!(jobs[0].exact, Some((900, 700)));
    assert!(set.exact_current((900, 700)));
    set.settle_exact((900, 700), tile(0, 0), true);
    assert!(set.exact.has(tile(0, 0)));
    let served = TileView { base: Some((900, 700)), ..wanted };
    assert!(set.claim_tiles(&served, 64, NOW, Duration::from_secs(10)).is_empty());
}

#[test]
fn a_finished_tile_lands_in_its_own_pyramid_only() {
    let mut app = viewing_app(&["a.png"], 0);
    let a = app.file("a.png");
    let pyramid = Texture { id: 40, width: 4096, height: 4096, tiled: true };
    let _ = app.shared.store.request(1, a, Tier::Full);
    let huge = RamImage { width: 20000, height: 20000, decode_time: None };
    let _ = app.shared.store.on_decoded(a, huge);
    let _ = app.shared.store.on_minted(a, Tier::Full, pyramid);
    app.viewer_mut().cache.insert(a, Tier::Full);
    app.viewer_mut().displayed =
        DisplayedImage::Full { original_size: (20000, 20000), rotated: None };
    app.viewer_mut().displayed_path = Some(a);
    assert_eq!(fire_tiles(app.viewer(), &app.shared, 8192), Some(pyramid));
    assert_eq!(fire_tiles(app.viewer(), &app.shared, 32768), None);

    let land = |app: &mut Fixture, pyramid: u64, tile: TileKey, outcome: TileOutcome| {
        app.out.clear();
        send(app, Message::Media(MediaMessage::TileReady { file: a, pyramid, tile, outcome }));
        app.out.clone()
    };
    let has = |app: &Fixture, tile: TileKey| {
        app.shared.tiles.get(a, 40).is_some_and(|set| set.levels.has(tile))
    };
    assert!(land(&mut app, 39, tile(0, 0), TileOutcome::Ready).is_empty());
    assert!(!has(&app, tile(0, 0)));
    assert!(land(&mut app, 40, tile(0, 0), TileOutcome::Ready).is_empty());
    assert!(has(&app, tile(0, 0)));
    assert_eq!(
        land(&mut app, 40, tile(0, 1), TileOutcome::Canceled),
        vec![Action::DemandTiles]
    );
    assert!(land(&mut app, 40, tile(3, 1), TileOutcome::Canceled).is_empty());
    assert_eq!(
        land(&mut app, 40, tile(0, 2), TileOutcome::Failed),
        vec![Action::SettleTiles {
            epoch: app.window.state.value.tile_epoch,
            delay: Duration::from_millis(250),
        }]
    );
}

#[test]
fn a_queued_production_bails_once_the_view_moved_on() {
    let mut app = empty_app();
    let (file, pyramid) = (5, 40);
    let wanted = TileView {
        fits: false,
        shown: (9000, 9000),
        base: None,
        level: 1,
        tiles: vec![tile(1, 0)],
    };
    let ttl = Duration::from_secs(10);
    let jobs = demand_tiles(&mut app.shared, file, pyramid, &wanted, 64, NOW, ttl);
    assert_eq!(jobs.len(), 1);
    assert!(begin_production(&mut app.shared, file, pyramid, jobs[0], NOW));
    let closer = TileView { level: 0, tiles: vec![tile(0, 0)], ..wanted };
    let _ = demand_tiles(&mut app.shared, file, pyramid, &closer, 64, NOW, ttl);
    assert!(!begin_production(&mut app.shared, file, pyramid, jobs[0], NOW));
    assert_eq!(tile_outcome(false, false, false), TileOutcome::Canceled);
    assert_eq!(tile_outcome(true, true, true), TileOutcome::Ready);
    assert_eq!(tile_outcome(true, true, false), TileOutcome::Failed);
}
