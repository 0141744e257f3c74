//! Keyboard shortcuts, in one table.
//!
//! The arrows and A/D are not here: their press, repeat, and release drive
//! hold-to-scroll and belong to the event handler.
use crate::message::{
    ContextMenuMessage, Message, ModalMessage, OpenMessage, ToolbarMessage, VideoMessage,
    ViewerMessage,
};
use crate::paths::text_eq;
use vstd::prelude::*;

verus! {

/// A key, by name or by the text it types.
pub enum Key {
    Escape,
    Home,
    End,
    F2,
    F11,
    Delete,
    Enter,
    Space,
    ArrowUp,
    ArrowDown,
    ArrowLeft,
    ArrowRight,
    Text(String),
    /// Any other key.
    Unmapped,
}

/// What typing `c` with these modifiers means.
pub open spec fn typed(c: Seq<char>, ctrl: bool, shift: bool) -> Option<Message> {
    if (c == "f"@ || c == "F"@) && !ctrl {
        Some(Message::Viewer(ViewerMessage::ToggleFullscreen))
    } else if (c == "i"@ || c == "I"@) && !ctrl {
        Some(Message::Viewer(ViewerMessage::ToggleInfo))
    } else if (c == "t"@ || c == "T"@) && !ctrl {
        Some(Message::Toolbar(ToolbarMessage::ToggleToolbar))
    } else if c == "r"@ && !ctrl {
        Some(Message::Viewer(ViewerMessage::Rotate(1)))
    } else if c == "R"@ && !ctrl {
        Some(Message::Viewer(ViewerMessage::Rotate(3)))
    } else if c == "?"@ {
        Some(Message::Viewer(ViewerMessage::ToggleHelp))
    } else if c == "+"@ || c == "="@ {
        Some(Message::Viewer(ViewerMessage::ZoomStep(1)))
    } else if c == "-"@ {
        Some(Message::Viewer(ViewerMessage::ZoomStep((-1) as i32)))
    } else if c == "0"@ && ctrl {
        Some(Message::Viewer(ViewerMessage::ResetZoom))
    } else if c == "1"@ && ctrl {
        Some(Message::Viewer(ViewerMessage::ZoomActual))
    } else if (c == "c"@ || c == "C"@) && ctrl && shift {
        Some(Message::ContextMenu(ContextMenuMessage::CopyFilePath))
    } else if c == "c"@ && ctrl {
        Some(Message::ContextMenu(ContextMenuMessage::CopyImage))
    } else if (c == "o"@ || c == "O"@) && ctrl {
        Some(Message::Open(OpenMessage::OpenFile))
    } else if (c == "m"@ || c == "M"@) && !ctrl {
        Some(Message::VideoControls(VideoMessage::ToggleMute))
    } else if (c == "j"@ || c == "J"@) && !ctrl {
        Some(Message::VideoControls(VideoMessage::SeekBy((-10) as i32)))
    } else if (c == "l"@ || c == "L"@) && !ctrl {
        Some(Message::VideoControls(VideoMessage::SeekBy(10)))
    } else if c == "."@ && !ctrl {
        Some(Message::VideoControls(VideoMessage::StepFrame(1)))
    } else if c == ","@ && !ctrl {
        Some(Message::VideoControls(VideoMessage::StepFrame((-1) as i32)))
    } else {
        None
    }
}

/// What a fresh press of `key` means.
pub open spec fn pressed(key: Key, ctrl: bool, shift: bool) -> Option<Message> {
    match key {
        Key::Escape => Some(Message::Viewer(ViewerMessage::Escape)),
        Key::Home => Some(Message::Viewer(ViewerMessage::First)),
        Key::End => Some(Message::Viewer(ViewerMessage::Last)),
        Key::F11 => Some(Message::Viewer(ViewerMessage::ToggleFullscreen)),
        Key::Delete => Some(Message::Modal(ModalMessage::RequestDelete)),
        Key::F2 => Some(Message::Modal(ModalMessage::RequestRename)),
        Key::Enter => Some(Message::Modal(ModalMessage::Submit)),
        Key::Space => Some(Message::VideoControls(VideoMessage::PlayPause)),
        Key::ArrowUp => Some(Message::VideoControls(VideoMessage::NudgeVolume(1))),
        Key::ArrowDown => Some(Message::VideoControls(VideoMessage::NudgeVolume((-1) as i32))),
        Key::Text(c) => typed(c@, ctrl, shift),
        Key::ArrowLeft | Key::ArrowRight | Key::Unmapped => None,
    }
}

fn map_text(c: &str, ctrl: bool, shift: bool) -> (msg: Option<Message>)
    ensures
        msg == typed(c@, ctrl, shift),
{
    if (text_eq(c, "f") || text_eq(c, "F")) && !ctrl {
        Some(Message::Viewer(ViewerMessage::ToggleFullscreen))
    } else if (text_eq(c, "i") || text_eq(c, "I")) && !ctrl {
        Some(Message::Viewer(ViewerMessage::ToggleInfo))
    } else if (text_eq(c, "t") || text_eq(c, "T")) && !ctrl {
        Some(Message::Toolbar(ToolbarMessage::ToggleToolbar))
    } else if text_eq(c, "r") && !ctrl {
        Some(Message::Viewer(ViewerMessage::Rotate(1)))
    } else if text_eq(c, "R") && !ctrl {
        Some(Message::Viewer(ViewerMessage::Rotate(3)))
    } else if text_eq(c, "?") {
        Some(Message::Viewer(ViewerMessage::ToggleHelp))
    } else if text_eq(c, "+") || text_eq(c, "=") {
        Some(Message::Viewer(ViewerMessage::ZoomStep(1)))
    } else if text_eq(c, "-") {
        Some(Message::Viewer(ViewerMessage::ZoomStep(-1)))
    } else if text_eq(c, "0") && ctrl {
        Some(Message::Viewer(ViewerMessage::ResetZoom))
    } else if text_eq(c, "1") && ctrl {
        Some(Message::Viewer(ViewerMessage::ZoomActual))
    } else if (text_eq(c, "c") || text_eq(c, "C")) && ctrl && shift {
        Some(Message::ContextMenu(ContextMenuMessage::CopyFilePath))
    } else if text_eq(c, "c") && ctrl {
        Some(Message::ContextMenu(ContextMenuMessage::CopyImage))
    } else if (text_eq(c, "o") || text_eq(c, "O")) && ctrl {
        Some(Message::Open(OpenMessage::OpenFile))
    } else if (text_eq(c, "m") || text_eq(c, "M")) && !ctrl {
        Some(Message::VideoControls(VideoMessage::ToggleMute))
    } else if (text_eq(c, "j") || text_eq(c, "J")) && !ctrl {
        Some(Message::VideoControls(VideoMessage::SeekBy(-10)))
    } else if (text_eq(c, "l") || text_eq(c, "L")) && !ctrl {
        Some(Message::VideoControls(VideoMessage::SeekBy(10)))
    } else if text_eq(c, ".") && !ctrl {
        Some(Message::VideoControls(VideoMessage::StepFrame(1)))
    } else if text_eq(c, ",") && !ctrl {
        Some(Message::VideoControls(VideoMessage::StepFrame(-1)))
    } else {
        None
    }
}

/// Map a fresh key press to a message.
pub fn map_press(key: &Key, ctrl: bool, shift: bool) -> (msg: Option<Message>)
    ensures
        msg == pressed(*key, ctrl, shift),
{
    match key {
        Key::Escape => Some(Message::Viewer(ViewerMessage::Escape)),
        Key::Home => Some(Message::Viewer(ViewerMessage::First)),
        Key::End => Some(Message::Viewer(ViewerMessage::Last)),
        Key::F11 => Some(Message::Viewer(ViewerMessage::ToggleFullscreen)),
        Key::Delete => Some(Message::Modal(ModalMessage::RequestDelete)),
        Key::F2 => Some(Message::Modal(ModalMessage::RequestRename)),
        Key::Enter => Some(Message::Modal(ModalMessage::Submit)),
        Key::Space => Some(Message::VideoControls(VideoMessage::PlayPause)),
        Key::ArrowUp => Some(Message::VideoControls(VideoMessage::NudgeVolume(1))),
        Key::ArrowDown => Some(Message::VideoControls(VideoMessage::NudgeVolume(-1))),
        Key::Text(c) => map_text(c.as_str(), ctrl, shift),
        Key::ArrowLeft | Key::ArrowRight | Key::Unmapped => None,
    }
}

} // verus!
