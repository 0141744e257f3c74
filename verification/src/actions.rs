//! What the surrounding program has to do after a handler ran.
use crate::decay::DecayStage;
use crate::files::FileId;
use crate::paths::Source;
use crate::state::VideoSession;
use crate::store::{Job, Texture};
use crate::time::Duration;
use vstd::prelude::*;

verus! {

/// Decode priority.
#[derive(Clone, Copy, PartialEq, Eq, Structural, Debug)]
pub enum Lane {
    /// The image on screen.
    Current,
    /// A neighbor warmed in the background.
    Prefetch,
}

/// How urgent a thumbnail is.
#[derive(Clone, Copy, PartialEq, Eq, Structural, Debug)]
pub enum ThumbUrgency {
    Urgent,
    Background,
}

/// The zoom a view-resolution texture is sized for.
#[derive(Clone, Copy, PartialEq, Eq, Structural, Debug)]
pub enum JobZoom {
    /// The zoom the image opens at.
    Fit,
    /// The zoom it is shown at now.
    Current,
}

/// The point a zoom step keeps fixed.
#[derive(Clone, Copy, PartialEq, Eq, Structural, Debug)]
pub enum ZoomAnchor {
    Cursor,
    Center,
}

/// Where a video seek lands. The position itself stays outside the library.
#[derive(Clone, Copy, PartialEq, Eq, Structural, Debug)]
pub enum SeekTarget {
    Start,
    /// Where the seek slider was dragged to.
    Dragged,
    /// So many seconds from the current position.
    Offset(i32),
    /// So many frames from the current position.
    Frames(i32),
}

/// One effect, performed by the surrounding program in the order given.
#[derive(Clone, Copy, PartialEq, Eq, Structural, Debug)]
pub enum Action {
    // Loading.
    /// Cancel what is in flight for the window's old position.
    BumpGeneration,
    RunJob { job: Job, lane: Lane, zoom: JobZoom },
    LoadThumb { file: FileId, urgency: ThumbUrgency, cheap_only: bool },
    /// First frame of an archive video, from its extracted copy.
    LoadArchiveVideoThumb { file: FileId, temp: u64 },
    ProbeSize { file: FileId },
    LoadExif { file: FileId },
    /// Turn the original pixels clockwise by quarter turns and upload them.
    Rotate { file: FileId, turns: u8 },
    ReconcileDiskThumbs,
    /// Work out which tiles the view misses and claim them.
    DemandTiles,
    PurgeDiskThumb { file: FileId },
    // Animation.
    CanvasReset { width: u32, height: u32 },
    CanvasComposite { file: FileId, frame: usize },
    CanvasDispose { file: FileId, frame: usize },
    /// Upload the canvas as a new texture.
    FrameUpload { file: FileId },
    /// Write the canvas into an existing texture.
    FrameWrite { file: FileId, into: Texture },
    // Video.
    OpenVideo {
        file: FileId,
        extracted: Option<u64>,
        volume: u32,
        muted: bool,
        looping: bool,
        hardware: bool,
    },
    ReopenVideo { at: SeekTarget },
    PlayVideo,
    PauseVideo,
    SuspendVideo { playing: bool },
    ResumeVideo,
    SetVideoMuted { muted: bool },
    SetVideoLooping { looping: bool },
    /// Set the open session's volume, given by its bit pattern.
    ApplyVideoVolume { volume: u32 },
    /// Add so many tenths to the volume and set it.
    NudgeVolume { tenths: i32 },
    EaseControls { visible: bool },
    ExtractVideo { file: FileId },
    DiscardTemp { temp: u64 },
    /// Sweep extracted videos that an earlier run left behind.
    CleanExtractions,
    // Timers.
    ArmDecay { generation: u64, stage: DecayStage, delay: Duration },
    SettleTiles { epoch: u64, delay: Duration },
    ProbeWindowLater { generation: u64, delay: Duration },
    ExpireToast { id: u64, delay: Duration },
    WakeForVolumeSave { delay: Duration },
    PromoteLater { file: FileId },
    TrimLater { generation: u64, delay: Duration },
    TrimWorkingSet,
    // Geometry.
    /// Choose the zoom the configured mode gives an image of this size.
    FitZoom { width: u32, height: u32 },
    ResetPan,
    /// Keep an image of this size from scrolling past its edges.
    ClampPan { width: u32, height: u32 },
    StepZoom { closer: bool, about: ZoomAnchor },
    ActualZoom,
    BeginDrag,
    DragPan { width: u32, height: u32 },
    RecalcViewport,
    CalibrateChrome,
    AdoptMeasuredViewport,
    /// Read the laid-out image area; with `if_moved`, only if the viewport is no
    /// longer what it was when the message came in.
    MeasureImageArea { if_moved: bool },
    // Filmstrip.
    /// Scroll this cell to the middle of the strip, then report the cells in
    /// view.
    CenterFilmstrip { index: usize },
    ShiftFilmstrip { len: usize },
    ScrollFilmstrip,
    // Window.
    SetFullscreen { on: bool },
    Maximize,
    CheckMinimize,
    CheckWindowState,
    FocusWindow,
    SaveThenClose,
    OpenWindow { window: u64 },
    Exit,
    // Opening.
    OpenDialog,
    ScanArchive { file: FileId },
    ScanDirectory { file: FileId },
    RescanDirectory { dir: FileId },
    Resort { needs_metadata: bool },
    // Settings, clipboard, and files.
    SaveConfig,
    /// Expire long-unused disk thumbnails and trim the store to its cap.
    HousekeepDiskThumbs,
    ProbeDiskCache,
    ClearDiskThumbs,
    SwapDiskThumbs { on: bool },
    SetAssociations { on: bool },
    AdoptResourceLimits,
    CopyImage,
    CopyFile { file: FileId },
    /// Put the path of a file of this source on the clipboard.
    WritePath { source: Source, file: FileId },
    WriteName { file: FileId },
    Reveal { file: FileId },
    ShowProperties { file: FileId },
    /// Move a file to the recycle bin. `resume` is the playback that was released
    /// to free it, to be handed back with the result.
    Trash { file: FileId, resume: Option<VideoSession> },
    RenameFile { from: FileId, to: FileId },
    FocusRenameInput,
}

} // verus!
