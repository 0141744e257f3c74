//! Which messages count as the user interacting, the keyboard map, and the
//! events behind them.
use scryglass::message::{
    displays_image, is_background_message, is_context_menu_message, is_menu_message,
    is_modal_blocked, is_passive_message, ContextMenuMessage, MediaMessage, Message, ModalMessage,
    OpenMessage, SettingsMessage, ToolbarMessage, VideoMessage, ViewerMessage, WindowMessage,
};
use scryglass::shortcuts::{map_press, Key};
use scryglass::store::{Texture, Tier};
use scryglass::subscription::{
    handle_event, is_backward_key, is_forward_key, shortcut_suppressed, Event,
};
use scryglass::video_flow::Poll;
use scryglass::window::Coords;

fn size(width: f32, height: f32) -> Coords {
    Coords { first: width.to_bits(), second: height.to_bits() }
}

fn viewer(m: ViewerMessage) -> Message {
    Message::Viewer(m)
}

fn video_tick() -> Message {
    Message::VideoControls(VideoMessage::Tick(Poll {
        failed: None,
        frame: None,
        finished: false,
        showed_frame: false,
    }))
}

fn resized() -> Message {
    Message::Window(WindowMessage::Resized { size: size(800.0, 600.0), empty: false })
}

#[test]
fn modal_blocks_hotkey_actions() {
    assert!(is_modal_blocked(&viewer(ViewerMessage::Next)));
    assert!(is_modal_blocked(&viewer(ViewerMessage::ZoomStep(1))));
    assert!(is_modal_blocked(&Message::VideoControls(VideoMessage::NudgeVolume(1))));
    assert!(is_modal_blocked(&Message::Toolbar(ToolbarMessage::ToggleToolbar)));
    assert!(is_modal_blocked(&Message::Modal(ModalMessage::RequestRename)));
    let typed = ModalMessage::RenameInput("photo.png".to_string());
    assert!(!is_modal_blocked(&Message::Modal(typed)));
    assert!(!is_modal_blocked(&Message::Modal(ModalMessage::Submit)));
    assert!(!is_modal_blocked(&video_tick()));
}

#[test]
fn passive_messages_do_not_close_menus() {
    assert!(is_menu_message(&Message::Media(MediaMessage::SpinnerTick)));
    assert!(is_menu_message(&Message::DismissToast(7)));
    assert!(is_menu_message(&Message::Open(OpenMessage::FileDialogResult(None))));
}

#[test]
fn background_window_events_do_not_close_menus() {
    assert!(is_background_message(&Message::Window(WindowMessage::CheckMinimize)));
    assert!(is_background_message(&Message::Window(WindowMessage::Focused(false))));
    assert!(is_background_message(&resized()));
    assert!(!is_menu_message(&Message::Window(WindowMessage::CheckMinimize)));
    assert!(!is_background_message(&Message::Window(WindowMessage::CloseRequested)));
}

#[test]
fn active_viewer_messages_close_menus() {
    assert!(!is_menu_message(&viewer(ViewerMessage::Next)));
    assert!(!is_menu_message(&viewer(ViewerMessage::Prev)));
    assert!(!is_menu_message(&viewer(ViewerMessage::ScrollZoom(true))));
    assert!(!is_menu_message(&viewer(ViewerMessage::ZoomActual)));
}

#[test]
fn layout_toggles_keep_the_menu_open() {
    assert!(is_menu_message(&viewer(ViewerMessage::ToggleInfo)));
    assert!(is_menu_message(&viewer(ViewerMessage::ToggleCheckerboard)));
}

#[test]
fn passive_completions_flow_through_both_menu_predicates() {
    for msg in [
        Message::Media(MediaMessage::SpinnerTick),
        Message::DismissToast(1),
        video_tick(),
        viewer(ViewerMessage::CursorLeft),
        Message::Open(OpenMessage::FileDialogResult(None)),
    ] {
        assert!(is_passive_message(&msg));
        assert!(is_menu_message(&msg));
        assert!(is_context_menu_message(&msg));
    }
}

#[test]
fn drag_end_keeps_the_dropdown_but_closes_the_context_menu() {
    let msg = viewer(ViewerMessage::DragEnd);
    assert!(is_menu_message(&msg));
    assert!(!is_context_menu_message(&msg));
}

#[test]
fn file_menu_actions_keep_the_dropdown_but_close_the_context_menu() {
    for msg in [
        Message::Open(OpenMessage::OpenFile),
        Message::Open(OpenMessage::CloseFile),
        viewer(ViewerMessage::ToggleInfo),
    ] {
        assert!(is_menu_message(&msg));
        assert!(!is_context_menu_message(&msg));
    }
}

#[test]
fn context_menu_keeps_its_own_flow_and_passive_updates() {
    assert!(is_context_menu_message(&Message::ContextMenu(ContextMenuMessage::CopyFilename)));
    assert!(is_context_menu_message(&Message::ContextMenu(
        ContextMenuMessage::OpenImageLocation
    )));
    assert!(is_context_menu_message(&Message::Media(MediaMessage::SpinnerTick)));
    assert!(is_background_message(&resized()));
}

#[test]
fn non_context_actions_close_context_menu() {
    assert!(!is_context_menu_message(&viewer(ViewerMessage::Next)));
    assert!(!is_context_menu_message(&Message::Toolbar(ToolbarMessage::ToggleZoomMenu)));
    assert!(!is_context_menu_message(&Message::Settings(SettingsMessage::OpenSettings(false))));
}

#[test]
fn landed_images_ask_for_a_fresh_measurement() {
    let texture = Texture { id: 1, width: 2, height: 2, tiled: false };
    let landed = MediaMessage::TextureReady { file: 3, tier: Tier::Full, texture };
    assert!(displays_image(&Message::Media(landed)));
    assert!(!displays_image(&Message::Media(MediaMessage::SpinnerTick)));
}

fn ch(s: &str) -> Key {
    Key::Text(s.to_string())
}

/// A bare press, one with the command key, one with shift, one with both.
fn bare(key: Key) -> Option<Message> {
    map_press(&key, false, false)
}

fn cmd(key: Key) -> Option<Message> {
    map_press(&key, true, false)
}

fn shift(key: Key) -> Option<Message> {
    map_press(&key, false, true)
}

#[test]
fn fullscreen_keys() {
    assert!(matches!(bare(Key::F11), Some(Message::Viewer(ViewerMessage::ToggleFullscreen))));
    assert!(matches!(bare(ch("f")), Some(Message::Viewer(ViewerMessage::ToggleFullscreen))));
}

#[test]
fn zoom_keys() {
    assert!(matches!(bare(ch("+")), Some(Message::Viewer(ViewerMessage::ZoomStep(1)))));
    assert!(matches!(bare(ch("-")), Some(Message::Viewer(ViewerMessage::ZoomStep(-1)))));
    assert!(matches!(cmd(ch("0")), Some(Message::Viewer(ViewerMessage::ResetZoom))));
    assert!(matches!(cmd(ch("1")), Some(Message::Viewer(ViewerMessage::ZoomActual))));
    assert!(bare(ch("0")).is_none());
}

#[test]
fn home_end_navigate() {
    assert!(matches!(bare(Key::Home), Some(Message::Viewer(ViewerMessage::First))));
    assert!(matches!(bare(Key::End), Some(Message::Viewer(ViewerMessage::Last))));
}

#[test]
fn rotation_distinguishes_shift() {
    assert!(matches!(bare(ch("r")), Some(Message::Viewer(ViewerMessage::Rotate(1)))));
    assert!(matches!(shift(ch("R")), Some(Message::Viewer(ViewerMessage::Rotate(3)))));
}

#[test]
fn help_key() {
    assert!(matches!(shift(ch("?")), Some(Message::Viewer(ViewerMessage::ToggleHelp))));
}

#[test]
fn info_panel_key() {
    assert!(matches!(bare(ch("i")), Some(Message::Viewer(ViewerMessage::ToggleInfo))));
}

#[test]
fn escape_maps() {
    assert!(matches!(bare(Key::Escape), Some(Message::Viewer(ViewerMessage::Escape))));
}

#[test]
fn clipboard_and_open_shortcuts() {
    assert!(matches!(
        cmd(ch("c")),
        Some(Message::ContextMenu(ContextMenuMessage::CopyImage))
    ));
    assert!(matches!(
        map_press(&ch("C"), true, true),
        Some(Message::ContextMenu(ContextMenuMessage::CopyFilePath))
    ));
    assert!(matches!(cmd(ch("o")), Some(Message::Open(OpenMessage::OpenFile))));
    assert!(matches!(bare(ch("t")), Some(Message::Toolbar(ToolbarMessage::ToggleToolbar))));
    assert!(bare(ch("c")).is_none());
}

#[test]
fn frame_step_keys() {
    assert!(matches!(bare(ch(".")), Some(Message::VideoControls(VideoMessage::StepFrame(1)))));
    assert!(matches!(bare(ch(",")), Some(Message::VideoControls(VideoMessage::StepFrame(-1)))));
}

#[test]
fn unmapped_keys_are_none() {
    assert!(bare(ch("q")).is_none());
    assert!(cmd(ch("f")).is_none());
}

fn handle(event: Event) -> Option<Message> {
    handle_event(&event, false)
}

#[test]
fn forward_keys_are_arrow_right_and_d() {
    assert!(is_forward_key(&Key::ArrowRight));
    assert!(is_forward_key(&ch("d")));
    assert!(!is_forward_key(&Key::ArrowLeft));
    assert!(!is_forward_key(&ch("x")));
}

#[test]
fn backward_keys_are_arrow_left_and_a() {
    assert!(is_backward_key(&Key::ArrowLeft));
    assert!(is_backward_key(&ch("a")));
    assert!(!is_backward_key(&Key::ArrowRight));
}

#[test]
fn mouse_forward_and_back_buttons_navigate() {
    let fwd = handle(Event::MouseForward);
    assert!(matches!(fwd, Some(Message::Viewer(ViewerMessage::Next))));
    let back = handle(Event::MouseBack);
    assert!(matches!(back, Some(Message::Viewer(ViewerMessage::Prev))));
}

#[test]
fn cursor_motion_drives_drag_panning() {
    let moved = handle(Event::CursorMoved);
    assert!(matches!(moved, Some(Message::Viewer(ViewerMessage::DragMove))));
    let left = handle(Event::CursorLeft);
    assert!(matches!(left, Some(Message::Viewer(ViewerMessage::CursorLeft))));
    let up = handle(Event::LeftReleased);
    assert!(matches!(up, Some(Message::Viewer(ViewerMessage::DragEnd))));
}

#[test]
fn window_resize_maps_to_a_resize_message() {
    let at = size(640.0, 480.0);
    let msg = handle(Event::Resized { size: at, empty: false });
    match msg {
        Some(Message::Window(WindowMessage::Resized { size, empty })) => {
            assert_eq!(size, at);
            assert!(!empty);
        }
        _ => panic!("expected a resize"),
    }
}

#[test]
fn file_drop_maps_to_an_open_message() {
    let msg = handle(Event::FileDropped(4));
    assert!(matches!(msg, Some(Message::Open(OpenMessage::FileDropped(4)))));
}

#[test]
fn unhandled_events_produce_no_message() {
    assert!(handle(Event::Unhandled).is_none());
}

#[test]
fn captured_keyboard_events_are_suppressed() {
    let key = Event::ModifiersChanged;
    assert!(shortcut_suppressed(&key, true));
    assert!(!shortcut_suppressed(&key, false));
    assert!(!shortcut_suppressed(&Event::CursorLeft, true));
}

fn pressed(key: Key, repeat: bool) -> Event {
    let modified = match &key {
        Key::Text(s) => Key::Text(s.clone()),
        _ => Key::Unmapped,
    };
    Event::KeyPressed { key, modified, ctrl: false, shift: false, repeat }
}

#[test]
fn held_arrows_repeat_and_release() {
    assert!(matches!(
        handle(pressed(Key::ArrowRight, true)),
        Some(Message::Viewer(ViewerMessage::NextRepeat))
    ));
    assert!(matches!(
        handle(pressed(ch("a"), false)),
        Some(Message::Viewer(ViewerMessage::Prev))
    ));
    assert!(matches!(
        handle(Event::KeyReleased { key: Key::ArrowLeft }),
        Some(Message::Viewer(ViewerMessage::PrevReleased))
    ));
    assert!(handle_event(&pressed(Key::ArrowRight, false), true).is_none());
}
