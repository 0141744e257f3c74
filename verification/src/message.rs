//! Everything that can happen to a window, and which of it counts as the user
//! interacting outside an open menu or dialog.
use crate::anim::AnimMessage;
use crate::config::{SortKey, ZoomMode};
use crate::decay::DecayStage;
use crate::files::FileId;
use crate::actions::ThumbUrgency;
use crate::media::{MediaError, ThumbResult};
use crate::open::Scan;
use crate::state::{Span, Thumb, VideoSession};
use crate::store::{AnimFrames, RamImage, Texture, Tier};
use crate::tiles::{TileKey, TileOutcome};
use crate::video_flow::Poll;
use crate::window::Coords;
use crate::window_events::WindowReport;
use vstd::prelude::*;

verus! {

pub enum OpenMessage {
    FileDropped(FileId),
    DirectoryScanned(Scan),
    ArchiveScanned(FileId, Result<Vec<FileId>, String>),
    OpenFile,
    FileDialogResult(Option<FileId>),
    CloseFile,
    Quit,
    /// The open folder changed on disk.
    DirectoryChanged(FileId),
    DirectoryRescanned(FileId, Option<Vec<FileId>>),
}

pub enum MediaMessage {
    Decoded { file: FileId, ram: RamImage, thumb: Option<Thumb> },
    TextureReady { file: FileId, tier: Tier, texture: Texture },
    MintFailed { file: FileId },
    /// `exists` is whether the path is still there on disk.
    DecodeFailed { file: FileId, err: MediaError, exists: bool },
    /// `max_dim` is the largest texture the device takes, when known.
    AnimDecoded { file: FileId, frames: AnimFrames, thumb: Option<Thumb>, max_dim: Option<u32> },
    ThumbLoaded { file: FileId, urgency: ThumbUrgency, result: ThumbResult },
    /// A tile cut for this pyramid is done.
    TileReady { file: FileId, pyramid: u64, tile: TileKey, outcome: TileOutcome },
    /// A tile cut at the exact size shown is done; `landed` is whether it made it
    /// to the device.
    ExactReady { file: FileId, pyramid: u64, target: (u32, u32), tile: TileKey, landed: bool },
    /// A view change has rested.
    TilesSettled { epoch: u64 },
    FileSizeProbed(FileId, u64),
    ExifLoaded(FileId),
    ViewRotated { file: FileId, baked: u8, size: (u32, u32), turned: Option<Texture> },
    /// Navigation has rested on a file held below full resolution.
    PromoteCurrent(FileId),
    Resorted(Vec<FileId>),
    SpinnerTick,
}

#[derive(Clone, Copy, PartialEq, Eq, Structural, Debug)]
pub enum ViewerMessage {
    Next,
    Prev,
    NextRepeat,
    PrevRepeat,
    NextReleased,
    PrevReleased,
    First,
    Last,
    ToggleFullscreen,
    Escape,
    /// The wheel turned, zooming in or out about the cursor.
    ScrollZoom(bool),
    ZoomStep(i32),
    ZoomActual,
    ResetZoom,
    DragStart,
    DragMove,
    DragEnd,
    CursorLeft,
    EdgeRepeat,
    Rotate(u8),
    ToggleInfo,
    ToggleCheckerboard,
    ToggleHelp,
    CloseZoomSlider,
}

#[derive(Clone, Copy, PartialEq, Eq, Structural, Debug)]
pub enum ToolbarMessage {
    ToggleFileMenu,
    ToggleZoomMenu,
    ToggleLayoutMenu,
    ToggleSortMenu,
    DismissOverlay,
    SetSortKey(SortKey),
    ToggleSortDirection,
    SetZoomMode(ZoomMode),
    ToggleFilmstrip,
    ToggleSlider,
    ToggleFooter,
    ToggleToolbar,
    ToggleTheme,
}

#[derive(Clone, Copy, PartialEq, Eq, Structural, Debug)]
pub enum SliderMessage {
    Changed(usize),
    Released,
}

#[derive(Clone, Copy, PartialEq, Eq, Structural, Debug)]
pub enum FilmstripMessage {
    Clicked(usize),
    /// The strip came to rest with these cells in view.
    Scrolled(Span),
    /// The wheel turned over the strip.
    Scroll,
}

pub enum ModalMessage {
    RequestDelete,
    ConfirmDeleteNow,
    /// Carries the playback that was released for the delete.
    DeleteFinished(FileId, Result<(), String>, Option<VideoSession>),
    RequestRename,
    RenameInput(String),
    CommitRename,
    RenameFinished(FileId, FileId, Result<(), String>),
    Submit,
    Cancel,
}

pub enum SettingsMessage {
    /// Carries whether the viewer is registered with the system.
    OpenSettings(bool),
    ToggleFileAssociations,
    AssociationsChanged(Result<bool, String>),
    DiskCacheSize(u64),
    /// The disk thumbnail store was switched; whether there is one now.
    DiskStoreSwapped(bool),
    ClearDiskThumbs,
    SetPrefetchDepth(usize),
    SetCacheBudget(usize),
    ToggleReadOnly,
    ToggleConfirmDelete,
    ToggleDiskThumbs,
    ToggleCrispPixels,
}

pub enum ContextMenuMessage {
    Show,
    Dismiss,
    CopyImage,
    CopyImageFinished(Result<(), String>),
    CopyFile,
    CopyFilePath,
    CopyFilename,
    OpenImageLocation,
    ImageProperties,
}

pub enum VideoMessage {
    Tick(Poll),
    Extracted(FileId, Result<u64, String>),
    PlayPause,
    SeekDrag,
    SeekRelease,
    /// Seconds forward or back.
    SeekBy(i32),
    StepFrame(i32),
    /// The new volume, by its bit pattern.
    SetVolume(u32),
    /// Tenths louder or softer.
    NudgeVolume(i32),
    ToggleMute,
    ToggleLoop,
}

#[derive(Clone, Copy, PartialEq, Eq, Structural, Debug)]
pub enum WindowMessage {
    /// `empty` marks a size with no area, as a minimize reports.
    Resized { size: Coords, empty: bool },
    Moved(Coords),
    WindowState(WindowReport),
    ProbeWindowState { generation: u64 },
    Focused(bool),
    Decay { generation: u64, stage: DecayStage },
    CheckMinimize,
    Minimized(bool),
    /// A scroll reached an unfocused window.
    Reactivate,
    CloseRequested,
    /// The image area was laid out at window size `at`; `agrees` is whether the
    /// estimate already matched.
    ImageAreaMeasured { at: Coords, agrees: bool },
}

/// A message for one window.
pub enum Message {
    Open(OpenMessage),
    Media(MediaMessage),
    Viewer(ViewerMessage),
    Toolbar(ToolbarMessage),
    NavSlider(SliderMessage),
    Filmstrip(FilmstripMessage),
    Modal(ModalMessage),
    Settings(SettingsMessage),
    ContextMenu(ContextMenuMessage),
    VideoControls(VideoMessage),
    Window(WindowMessage),
    /// The toast with this id has had its time.
    DismissToast(u64),
    Anim(AnimMessage),
}

/// What a dialog suppresses so the keyboard stays with its text input: the
/// viewer, video, and toolbar actions that have a key.
pub open spec fn modal_blocked(msg: Message) -> bool {
    match msg {
        Message::Viewer(m) => match m {
            ViewerMessage::Next
            | ViewerMessage::Prev
            | ViewerMessage::NextRepeat
            | ViewerMessage::PrevRepeat
            | ViewerMessage::First
            | ViewerMessage::Last
            | ViewerMessage::ZoomStep(_)
            | ViewerMessage::ZoomActual
            | ViewerMessage::ResetZoom
            | ViewerMessage::Rotate(_)
            | ViewerMessage::ToggleFullscreen
            | ViewerMessage::ToggleInfo
            | ViewerMessage::ToggleHelp => true,
            _ => false,
        },
        Message::VideoControls(m) => match m {
            VideoMessage::PlayPause
            | VideoMessage::NudgeVolume(_)
            | VideoMessage::ToggleMute
            | VideoMessage::SeekBy(_)
            | VideoMessage::StepFrame(_) => true,
            _ => false,
        },
        Message::Toolbar(m) => m is ToggleToolbar,
        Message::Modal(m) => m is RequestDelete || m is RequestRename,
        _ => false,
    }
}

/// Messages a modal dialog suppresses.
pub fn is_modal_blocked(msg: &Message) -> (yes: bool)
    ensures
        yes == modal_blocked(*msg),
{
    match msg {
        Message::Viewer(m) => match m {
            ViewerMessage::Next
            | ViewerMessage::Prev
            | ViewerMessage::NextRepeat
            | ViewerMessage::PrevRepeat
            | ViewerMessage::First
            | ViewerMessage::Last
            | ViewerMessage::ZoomStep(_)
            | ViewerMessage::ZoomActual
            | ViewerMessage::ResetZoom
            | ViewerMessage::Rotate(_)
            | ViewerMessage::ToggleFullscreen
            | ViewerMessage::ToggleInfo
            | ViewerMessage::ToggleHelp => true,
            _ => false,
        },
        Message::VideoControls(m) => match m {
            VideoMessage::PlayPause
            | VideoMessage::NudgeVolume(_)
            | VideoMessage::ToggleMute
            | VideoMessage::SeekBy(_)
            | VideoMessage::StepFrame(_) => true,
            _ => false,
        },
        Message::Toolbar(m) => match m {
            ToolbarMessage::ToggleToolbar => true,
            _ => false,
        },
        Message::Modal(m) => match m {
            ModalMessage::RequestDelete | ModalMessage::RequestRename => true,
            _ => false,
        },
        _ => false,
    }
}

/// Window-system events and timers, which are never the user interacting.
pub open spec fn background(msg: Message) -> bool {
    msg is Window && !(msg->Window_0 is CloseRequested)
}

/// Window-system events and periodic polls. None of these are the user
/// interacting, so they never dismiss a menu.
pub fn is_background_message(msg: &Message) -> (yes: bool)
    ensures
        yes == background(*msg),
{
    match msg {
        Message::Window(m) => match m {
            WindowMessage::CloseRequested => false,
            _ => true,
        },
        _ => false,
    }
}

/// Completions and ticks, which are never the user interacting.
pub open spec fn passive(msg: Message) -> bool {
    match msg {
        Message::Open(m) => match m {
            OpenMessage::DirectoryScanned(_)
            | OpenMessage::DirectoryChanged(_)
            | OpenMessage::DirectoryRescanned(_, _)
            | OpenMessage::ArchiveScanned(_, _)
            | OpenMessage::FileDialogResult(_) => true,
            _ => false,
        },
        Message::Media(_) => true,
        Message::DismissToast(_) => true,
        Message::Filmstrip(m) => m is Scrolled,
        Message::VideoControls(m) => m is Tick || m is Extracted,
        Message::Anim(_) => true,
        Message::Viewer(m) => match m {
            ViewerMessage::DragMove
            | ViewerMessage::CursorLeft
            | ViewerMessage::NextReleased
            | ViewerMessage::PrevReleased => true,
            _ => false,
        },
        _ => false,
    }
}

/// Completions and timer ticks, shared by both menus.
pub fn is_passive_message(msg: &Message) -> (yes: bool)
    ensures
        yes == passive(*msg),
{
    match msg {
        Message::Open(m) => match m {
            OpenMessage::DirectoryScanned(_)
            | OpenMessage::DirectoryChanged(_)
            | OpenMessage::DirectoryRescanned(_, _)
            | OpenMessage::ArchiveScanned(_, _)
            | OpenMessage::FileDialogResult(_) => true,
            _ => false,
        },
        Message::Media(_) => true,
        Message::DismissToast(_) => true,
        Message::Filmstrip(m) => match m {
            FilmstripMessage::Scrolled(_) => true,
            _ => false,
        },
        Message::VideoControls(m) => match m {
            VideoMessage::Tick(_) | VideoMessage::Extracted(_, _) => true,
            _ => false,
        },
        Message::Anim(_) => true,
        Message::Viewer(m) => match m {
            ViewerMessage::DragMove
            | ViewerMessage::CursorLeft
            | ViewerMessage::NextReleased
            | ViewerMessage::PrevReleased => true,
            _ => false,
        },
        _ => false,
    }
}

/// What leaves an open toolbar dropdown open. Its own opening click ends in a
/// drag end, and layout toggles live in the Layout menu.
pub open spec fn keeps_menu(msg: Message) -> bool {
    ||| passive(msg)
    ||| match msg {
        Message::Toolbar(_) | Message::Settings(_) | Message::ContextMenu(_) => true,
        Message::Open(m) => m is OpenFile || m is CloseFile || m is Quit,
        Message::Viewer(m) => m is DragEnd || m is ToggleInfo || m is ToggleCheckerboard,
        Message::Modal(m) => m is RequestDelete || m is RequestRename,
        _ => false,
    }
}

/// Messages that leave an open toolbar dropdown open.
pub fn is_menu_message(msg: &Message) -> (yes: bool)
    ensures
        yes == keeps_menu(*msg),
{
    is_passive_message(msg) || match msg {
        Message::Toolbar(_) | Message::Settings(_) | Message::ContextMenu(_) => true,
        Message::Open(m) => match m {
            OpenMessage::OpenFile | OpenMessage::CloseFile | OpenMessage::Quit => true,
            _ => false,
        },
        Message::Viewer(m) => match m {
            ViewerMessage::DragEnd
            | ViewerMessage::ToggleInfo
            | ViewerMessage::ToggleCheckerboard => true,
            _ => false,
        },
        Message::Modal(m) => match m {
            ModalMessage::RequestDelete | ModalMessage::RequestRename => true,
            _ => false,
        },
        _ => false,
    }
}

/// What leaves an open context menu open.
pub open spec fn keeps_context_menu(msg: Message) -> bool {
    ||| passive(msg)
    ||| match msg {
        Message::ContextMenu(_) => true,
        Message::Toolbar(m) => m is ToggleToolbar,
        Message::Modal(m) => m is RequestDelete || m is RequestRename,
        _ => false,
    }
}

/// Messages that leave an open context menu open.
pub fn is_context_menu_message(msg: &Message) -> (yes: bool)
    ensures
        yes == keeps_context_menu(*msg),
{
    is_passive_message(msg) || match msg {
        Message::ContextMenu(_) => true,
        Message::Toolbar(m) => match m {
            ToolbarMessage::ToggleToolbar => true,
            _ => false,
        },
        Message::Modal(m) => match m {
            ModalMessage::RequestDelete | ModalMessage::RequestRename => true,
            _ => false,
        },
        _ => false,
    }
}

/// What puts a possibly first image on screen.
pub open spec fn shows_image(msg: Message) -> bool {
    match msg {
        Message::Media(m) => m is TextureReady || m is Decoded || m is AnimDecoded || m
            is ViewRotated || m is PromoteCurrent,
        _ => false,
    }
}

/// Whether a message puts an image on screen, so the image area should be
/// measured again.
pub fn displays_image(msg: &Message) -> (yes: bool)
    ensures
        yes == shows_image(*msg),
{
    match msg {
        Message::Media(m) => match m {
            MediaMessage::TextureReady { .. }
            | MediaMessage::Decoded { .. }
            | MediaMessage::AnimDecoded { .. }
            | MediaMessage::ViewRotated { .. }
            | MediaMessage::PromoteCurrent(_) => true,
            _ => false,
        },
        _ => false,
    }
}

/// Nothing that happens on its own ever dismisses a menu: completions and
/// ticks leave both open, and neither they nor window events are blocked by a
/// dialog.
pub proof fn law_passive_messages_disturb_nothing(msg: Message)
    requires
        passive(msg) || background(msg),
    ensures
        passive(msg) ==> keeps_menu(msg) && keeps_context_menu(msg),
        !modal_blocked(msg),
{
}

/// Whatever keeps the context menu open keeps the dropdown open too.
pub proof fn law_context_menu_closes_first(msg: Message)
    requires
        keeps_context_menu(msg),
    ensures
        keeps_menu(msg),
{
}

} // verus!
