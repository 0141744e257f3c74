//! Which system events become messages, and which timers run.
use crate::files::FileId;
use crate::message::{Message, OpenMessage, ViewerMessage, WindowMessage};
use crate::paths::{text_eq, Source};
use crate::shortcuts::{map_press, pressed, Key};
use crate::state::Shared;
use crate::time::Duration;
use crate::window::{Coords, Window};
use vstd::prelude::*;

verus! {

/// What the windowing system reports.
pub enum Event {
    /// `modified` is the key as the modifiers change it.
    KeyPressed { key: Key, modified: Key, ctrl: bool, shift: bool, repeat: bool },
    KeyReleased { key: Key },
    ModifiersChanged,
    /// The mouse's own back and forward buttons.
    MouseForward,
    MouseBack,
    CursorMoved,
    CursorLeft,
    LeftReleased,
    FileDropped(FileId),
    Resized { size: Coords, empty: bool },
    Unfocused,
    Unhandled,
}

pub open spec fn forward_key(key: Key) -> bool {
    match key {
        Key::ArrowRight => true,
        Key::Text(c) => c@ == "d"@,
        _ => false,
    }
}

pub open spec fn backward_key(key: Key) -> bool {
    match key {
        Key::ArrowLeft => true,
        Key::Text(c) => c@ == "a"@,
        _ => false,
    }
}

/// The right arrow, or D.
pub fn is_forward_key(key: &Key) -> (yes: bool)
    ensures
        yes == forward_key(*key),
{
    match key {
        Key::ArrowRight => true,
        Key::Text(c) => text_eq(c.as_str(), "d"),
        _ => false,
    }
}

/// The left arrow, or A.
pub fn is_backward_key(key: &Key) -> (yes: bool)
    ensures
        yes == backward_key(*key),
{
    match key {
        Key::ArrowLeft => true,
        Key::Text(c) => text_eq(c.as_str(), "a"),
        _ => false,
    }
}

pub open spec fn from_keyboard(event: Event) -> bool {
    event is KeyPressed || event is KeyReleased || event is ModifiersChanged
}

/// Whether a focused widget took this keyboard event for itself.
pub fn shortcut_suppressed(event: &Event, captured: bool) -> (yes: bool)
    ensures
        yes == (captured && from_keyboard(*event)),
{
    captured && match event {
        Event::KeyPressed { .. } | Event::KeyReleased { .. } | Event::ModifiersChanged => true,
        _ => false,
    }
}

pub open spec fn viewer(msg: ViewerMessage) -> Option<Message> {
    Some(Message::Viewer(msg))
}

/// What an event that nothing else took means.
pub open spec fn event_message(event: Event) -> Option<Message> {
    match event {
        Event::KeyPressed { key, modified, ctrl, shift, repeat } => if forward_key(key) {
            viewer(
                if repeat {
                    ViewerMessage::NextRepeat
                } else {
                    ViewerMessage::Next
                },
            )
        } else if backward_key(key) {
            viewer(
                if repeat {
                    ViewerMessage::PrevRepeat
                } else {
                    ViewerMessage::Prev
                },
            )
        } else if repeat {
            None
        } else {
            pressed(modified, ctrl, shift)
        },
        Event::KeyReleased { key } => if forward_key(key) {
            viewer(ViewerMessage::NextReleased)
        } else if backward_key(key) {
            viewer(ViewerMessage::PrevReleased)
        } else {
            None
        },
        Event::MouseForward => viewer(ViewerMessage::Next),
        Event::MouseBack => viewer(ViewerMessage::Prev),
        Event::CursorMoved => viewer(ViewerMessage::DragMove),
        Event::CursorLeft => viewer(ViewerMessage::CursorLeft),
        Event::LeftReleased => viewer(ViewerMessage::DragEnd),
        Event::FileDropped(file) => Some(Message::Open(OpenMessage::FileDropped(file))),
        Event::Resized { size, empty } => Some(
            Message::Window(WindowMessage::Resized { size, empty }),
        ),
        Event::Unfocused => viewer(ViewerMessage::CloseZoomSlider),
        Event::ModifiersChanged | Event::Unhandled => None,
    }
}

/// The message an event becomes, if any. Keys a widget took for itself become
/// none.
pub fn handle_event(event: &Event, captured: bool) -> (msg: Option<Message>)
    ensures
        msg == if captured && from_keyboard(*event) {
            None
        } else {
            event_message(*event)
        },
{
    if shortcut_suppressed(event, captured) {
        return None;
    }
    match event {
        Event::KeyPressed { key, modified, ctrl, shift, repeat } => {
            if is_forward_key(key) {
                if *repeat {
                    Some(Message::Viewer(ViewerMessage::NextRepeat))
                } else {
                    Some(Message::Viewer(ViewerMessage::Next))
                }
            } else if is_backward_key(key) {
                if *repeat {
                    Some(Message::Viewer(ViewerMessage::PrevRepeat))
                } else {
                    Some(Message::Viewer(ViewerMessage::Prev))
                }
            } else if *repeat {
                None
            } else {
                map_press(modified, *ctrl, *shift)
            }
        },
        Event::KeyReleased { key } => {
            if is_forward_key(key) {
                Some(Message::Viewer(ViewerMessage::NextReleased))
            } else if is_backward_key(key) {
                Some(Message::Viewer(ViewerMessage::PrevReleased))
            } else {
                None
            }
        },
        Event::MouseForward => Some(Message::Viewer(ViewerMessage::Next)),
        Event::MouseBack => Some(Message::Viewer(ViewerMessage::Prev)),
        Event::CursorMoved => Some(Message::Viewer(ViewerMessage::DragMove)),
        Event::CursorLeft => Some(Message::Viewer(ViewerMessage::CursorLeft)),
        Event::LeftReleased => Some(Message::Viewer(ViewerMessage::DragEnd)),
        Event::FileDropped(file) => Some(Message::Open(OpenMessage::FileDropped(*file))),
        Event::Resized { size, empty } => Some(
            Message::Window(WindowMessage::Resized { size: *size, empty: *empty }),
        ),
        Event::Unfocused => Some(Message::Viewer(ViewerMessage::CloseZoomSlider)),
        Event::ModifiersChanged | Event::Unhandled => None,
    }
}

/// The timers and watches a window needs right now.
#[derive(Clone, Copy, PartialEq, Eq, Structural, Debug)]
pub struct Timers {
    /// Redraws for a spinner, while something is awaited.
    pub spinner: bool,
    /// The next animation frame, after this long.
    pub frame: Option<Duration>,
    /// Video pacing, while a session is open.
    pub video: bool,
    /// Repeats of a held edge press.
    pub edge: bool,
    /// The file whose folder is watched for changes.
    pub watched: Option<FileId>,
}

/// The timers and watches a window needs right now.
pub fn timers(win: &Window, shared: &Shared) -> (timers: Timers)
    requires
        win@.wf(),
    ensures
        timers.spinner == (win@.state.value.opening_since is Some || (win@.viewer is Some
            && win@.viewer->0.pending_since is Some)),
        timers.video == (win@.viewer is Some && win@.viewer->0.video.session is Some),
        timers.edge == (win@.viewer is Some && win@.viewer->0.edge_held is Some),
        timers.watched == match win@.viewer {
            Some(v) if v.source == Source::Fs => Some(v.current()),
            _ => None,
        },
        timers.frame is Some <==> {
            &&& win@.viewer is Some
            &&& win@.viewer->0.pending_since is None
            &&& win@.viewer->0.anim.playable(shared@.anims)
            &&& win@.viewer->0.anim.frames(shared@.anims).delays@.len() > 1
            &&& win@.viewer->0.anim.active->0.frame_texture is Some
        },
        timers.frame is Some ==> {
            let anim = win@.viewer->0.anim;
            let delays = anim.frames(shared@.anims).delays@;
            let i = anim.active->0.frame_index as int;
            timers.frame == Some(
                if i < delays.len() {
                    delays[i]
                } else {
                    delays[0]
                },
            )
        },
{
    let opening: bool = win.state.value.opening_since.is_some();
    match win.viewer() {
        Some(viewer) => {
            let pending: bool = viewer.pending_since.is_some();
            let frame: Option<Duration> = if !pending && viewer.anim_player.is_animating(
                &shared.anim_store,
            ) {
                viewer.anim_player.current_delay(&shared.anim_store)
            } else {
                None
            };
            Timers {
                spinner: opening || pending,
                frame,
                video: viewer.video.session.is_some(),
                edge: viewer.edge_held.is_some(),
                watched: if viewer.source == Source::Fs {
                    Some(viewer.nav.current())
                } else {
                    None
                },
            }
        },
        None => Timers { spinner: opening, frame: None, video: false, edge: false, watched: None },
    }
}

/// What a watched folder reports.
#[derive(Clone, Copy, PartialEq, Eq, Structural, Debug)]
pub enum WatchEvent {
    Changed,
    /// Nothing changed for a while.
    Quiet,
    /// The watch is over.
    Ended,
}

/// One step of watching a folder: whether it has changed since the last refresh,
/// and whether a refresh is due. A burst of changes is refreshed once, when it
/// goes quiet.
pub fn watch_step(dirty: bool, event: WatchEvent) -> (next: (bool, bool))
    ensures
        next.0 == (event is Changed || (dirty && event is Ended)),
        next.1 == (dirty && event is Quiet),
{
    match event {
        WatchEvent::Changed => (true, false),
        WatchEvent::Quiet => (false, dirty),
        WatchEvent::Ended => (dirty, false),
    }
}

} // verus!
