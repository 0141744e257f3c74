//! What a window is viewing.
use crate::anim::{anims_released, release_anims, AnimModel, AnimPlayer};
use crate::budget::picture_bytes;
use crate::config::{with_setting, Config, Setting};
use crate::files::FileId;
use crate::leases::{
    files_of, holds, leases_within, leases_without, lemma_filtered_holds, lemma_holds, Lease,
    Leases,
};
use crate::nav::{Nav, NavModel};
use crate::paths::{is_video, PathStyle, PathTable, PathsModel, Source};
use crate::store::{AnimStore, AnimStoreModel, Store, StoreModel, Texture};
use crate::thumbs::{Thumbs, ThumbsModel};
use crate::tiles::{PyramidModel, Pyramids};
use crate::time::Instant;
use std::collections::{HashMap, HashSet};
use crate::whole::{hold, whole, Whole};
use vstd::prelude::*;

verus! {

/// A half-open range of listing indices.
#[derive(Clone, Copy, PartialEq, Eq, Structural, Debug)]
pub struct Span {
    pub start: usize,
    pub end: usize,
}

impl Span {
    pub open spec fn has(self, i: int) -> bool {
        self.start <= i < self.end
    }
}

/// A small preview, used by the filmstrip and as the blurred placeholder while
/// the full image decodes. `id` is the number its pixels are kept under.
#[derive(Clone, Copy, PartialEq, Eq, Debug)]
pub struct Thumb {
    pub id: u64,
    /// Dimensions of the preview itself.
    pub size: (u32, u32),
    /// True dimensions of the previewed image.
    pub original_size: (u32, u32),
}

impl Thumb {
    /// Approximate memory cost in bytes, at four bytes a pixel.
    pub fn byte_cost(&self) -> (bytes: usize)
        requires
            picture_bytes(self.size.0, self.size.1) <= usize::MAX,
        ensures
            bytes == picture_bytes(self.size.0, self.size.1),
    {
        assert(self.size.0 * self.size.1 <= self.size.0 * self.size.1 * 4) by (nonlinear_arith)
            requires
                self.size.0 * self.size.1 >= 0,
        ;
        assert(self.size.0 * self.size.1 >= 0) by (nonlinear_arith);
        self.size.0 as usize * self.size.1 as usize * 4
    }
}

/// What the image area is showing.
pub enum DisplayedImage {
    /// Nothing yet.
    Nothing,
    /// A blurred stand-in while the full image decodes.
    Placeholder(Thumb),
    /// A decoded still, drawn from the shared store, or from `rotated` while
    /// the view is turned.
    Full { original_size: (u32, u32), rotated: Option<Texture> },
    /// An animation, drawn from the player's current frame.
    Animated { original_size: (u32, u32) },
    /// Live video.
    Video { original_size: (u32, u32) },
    /// The file could not be decoded.
    Error { message: String },
}

/// A [`DisplayedImage`] with its message as plain text.
pub enum DisplayedModel {
    Nothing,
    Placeholder(Thumb),
    Full { original_size: (u32, u32), rotated: Option<Texture> },
    Animated { original_size: (u32, u32) },
    Video { original_size: (u32, u32) },
    Error { message: Seq<char> },
}

impl DisplayedModel {
    pub open spec fn original_size(self) -> Option<(u32, u32)> {
        match self {
            DisplayedModel::Nothing => None,
            DisplayedModel::Placeholder(thumb) => Some(thumb.original_size),
            DisplayedModel::Full { original_size, .. } => Some(original_size),
            DisplayedModel::Animated { original_size } => Some(original_size),
            DisplayedModel::Video { original_size } => Some(original_size),
            DisplayedModel::Error { .. } => None,
        }
    }
}

impl View for DisplayedImage {
    type V = DisplayedModel;

    open spec fn view(&self) -> DisplayedModel {
        match *self {
            DisplayedImage::Nothing => DisplayedModel::Nothing,
            DisplayedImage::Placeholder(thumb) => DisplayedModel::Placeholder(thumb),
            DisplayedImage::Full { original_size, rotated } => DisplayedModel::Full {
                original_size,
                rotated,
            },
            DisplayedImage::Animated { original_size } => DisplayedModel::Animated {
                original_size,
            },
            DisplayedImage::Video { original_size } => DisplayedModel::Video { original_size },
            DisplayedImage::Error { message } => DisplayedModel::Error { message: message@ },
        }
    }
}

impl DisplayedImage {
    /// True image dimensions, if an image is displayed.
    pub fn original_size(&self) -> (size: Option<(u32, u32)>)
        ensures
            size == self@.original_size(),
    {
        match self {
            DisplayedImage::Nothing => None,
            DisplayedImage::Placeholder(thumb) => Some(thumb.original_size),
            DisplayedImage::Full { original_size, .. } => Some(*original_size),
            DisplayedImage::Animated { original_size } => Some(*original_size),
            DisplayedImage::Video { original_size } => Some(*original_size),
            DisplayedImage::Error { .. } => None,
        }
    }
}

/// An open decode session. The decoder itself is kept by the surrounding
/// program, which has one exactly while this exists.
#[derive(Clone, Copy, PartialEq, Eq, Structural, Debug)]
pub struct VideoSession {
    pub playing: bool,
    pub looping: bool,
    pub muted: bool,
    /// The extracted copy of an archive entry it plays from.
    pub temp: Option<u64>,
}

/// All video playback state of a viewer.
#[derive(Clone, Copy, PartialEq, Eq, Debug)]
pub struct VideoState {
    pub session: Option<VideoSession>,
    /// A released session a returning window re-opens.
    pub suspended: Option<VideoSession>,
    /// Dimensions of the latest decoded frame, if one is kept.
    pub frame: Option<(u32, u32)>,
    /// Whether the seek slider is being dragged.
    pub seek_drag: bool,
    /// The archive entry being extracted.
    pub extracting: Option<FileId>,
    /// Controls stay visible until then.
    pub controls_until: Option<Instant>,
}

impl VideoState {
    pub open spec fn torn_down(self) -> VideoState {
        VideoState {
            session: None,
            suspended: None,
            frame: None,
            seek_drag: false,
            extracting: None,
            ..self
        }
    }

    pub fn new() -> (video: VideoState)
        ensures
            video == (VideoState {
                session: None,
                suspended: None,
                frame: None,
                seek_drag: false,
                extracting: None,
                controls_until: None,
            }),
    {
        VideoState {
            session: None,
            suspended: None,
            frame: None,
            seek_drag: false,
            extracting: None,
            controls_until: None,
        }
    }

    /// Tear down the active video, as navigating away from it does. The
    /// controls are left to fade out on their own.
    pub fn reset(&mut self)
        ensures
            *final(self) == old(self).torn_down(),
    {
        self.session = None;
        self.suspended = None;
        self.frame = None;
        self.seek_drag = false;
        self.extracting = None;
    }
}

#[derive(Clone, Copy, PartialEq, Eq, Structural, Debug)]
pub enum Direction {
    Forward,
    Backward,
}

/// A slider drag in progress.
#[derive(Clone, Copy, PartialEq, Eq, Structural, Debug)]
pub struct SliderDrag {
    /// The index under the hand.
    pub target: usize,
    /// When `target` was last set.
    pub since: Instant,
    /// Whether the preview bubble is up: once shown it stays for the drag.
    pub bubble: bool,
}

/// A key held down since some time.
#[derive(Clone, Copy, PartialEq, Eq, Structural, Debug)]
pub struct Held {
    pub direction: Direction,
    pub since: Instant,
}

/// Frontier of one background thumbnail walk. Valid only for the focus it was
/// computed for: any change of center, range, or center file resets it.
#[derive(Clone, Copy, PartialEq, Eq, Structural, Debug)]
pub struct ThumbScan {
    pub center: usize,
    pub range: Span,
    pub center_file: Option<FileId>,
    /// Fan steps below this hold nothing to pick until the focus moves.
    pub next_d: usize,
}

/// All state tied to an open directory or archive.
pub struct Viewer {
    pub nav: Nav,
    pub source: Source,
    pub displayed: DisplayedImage,
    /// This window's leases on stills: the one on screen and its neighbors.
    pub cache: Leases,
    /// Files with a full load in flight.
    pub in_flight: HashSet<FileId>,
    /// Files with a thumbnail job in flight.
    pub in_flight_thumbs: HashSet<FileId>,
    /// Files whose background thumbnail failed.
    pub failed_thumbs: HashSet<FileId>,
    /// Files whose decode failed, with the message to show.
    pub failed_loads: HashMap<FileId, String>,
    /// Which file the image area shows.
    pub displayed_path: Option<FileId>,
    /// Since when the current image is awaited.
    pub pending_since: Option<Instant>,
    /// A move waiting for its target to become displayable.
    pub pending_nav: Option<usize>,
    pub slider_drag: Option<SliderDrag>,
    pub held_direction: Option<Held>,
    pub edge_held: Option<Direction>,
    pub anim_player: AnimPlayer,
    pub current_file_size: Option<u64>,
    /// Whether the user set the zoom by hand.
    pub manual_zoom: bool,
    /// Whether the image is being dragged.
    pub dragging: bool,
    /// The file the info panel's fields describe.
    pub exif: Option<FileId>,
    /// Desired view rotation in quarter turns clockwise.
    pub rotation: u8,
    /// Rotation of the displayed texture.
    pub displayed_rotation: u8,
    pub video: VideoState,
    /// Jump to the first file once the next sort lands.
    pub resort_to_first: bool,
    pub thumb_scan: Option<ThumbScan>,
}

/// What a [`Viewer`] holds.
pub struct ViewerModel {
    pub nav: NavModel,
    pub source: Source,
    pub displayed: DisplayedModel,
    pub cache: Seq<Lease>,
    pub in_flight: Set<FileId>,
    pub in_flight_thumbs: Set<FileId>,
    pub failed_thumbs: Set<FileId>,
    pub failed_loads: Map<FileId, Seq<char>>,
    pub displayed_path: Option<FileId>,
    pub pending_since: Option<Instant>,
    pub pending_nav: Option<usize>,
    pub slider_drag: Option<SliderDrag>,
    pub held_direction: Option<Held>,
    pub edge_held: Option<Direction>,
    pub anim: AnimModel,
    pub current_file_size: Option<u64>,
    pub manual_zoom: bool,
    pub dragging: bool,
    pub exif: Option<FileId>,
    pub rotation: u8,
    pub displayed_rotation: u8,
    pub video: VideoState,
    pub resort_to_first: bool,
    pub thumb_scan: Option<ThumbScan>,
}

/// The messages of a map as plain text.
pub open spec fn texts(map: Map<FileId, String>) -> Map<FileId, Seq<char>> {
    map.map_values(|s: String| s@)
}

/// Bookkeeping common to every window.
#[derive(Clone, Copy, PartialEq, Eq, Structural, Debug)]
pub struct Status {
    /// Measured size of the disk thumbnail store.
    pub disk_cache_size: Option<u64>,
    /// Whether there is a disk thumbnail store.
    pub disk_store: bool,
    pub associations_registered: bool,
    /// Supersedes earlier working-set timers.
    pub trim_generation: u64,
    /// Whether the working-set condition held when last looked at.
    pub trim_armed: bool,
    /// When a settled volume is due to be saved.
    pub volume_save_due: Option<Instant>,
    /// Whether prefetched copies are scaled on the graphics device.
    pub prefetch_gpu_bake: bool,
}

/// State common to every window.
pub struct Shared {
    pub paths: PathTable,
    pub config: Whole<Config>,
    pub store: Store,
    pub anim_store: AnimStore,
    pub thumbs: Thumbs,
    /// Sizes of archive entries, known from the archive's index.
    pub entry_sizes: HashMap<FileId, u64>,
    pub tiles: Pyramids,
    pub status: Whole<Status>,
}

/// What [`Shared`] holds.
pub struct SharedModel {
    pub paths: PathsModel,
    pub config: Whole<Config>,
    pub store: StoreModel,
    pub anims: AnimStoreModel,
    pub thumbs: ThumbsModel,
    pub entry_sizes: Map<FileId, u64>,
    pub tiles: Map<FileId, PyramidModel>,
    pub status: Whole<Status>,
}

impl View for Shared {
    type V = SharedModel;

    open spec fn view(&self) -> SharedModel {
        SharedModel {
            paths: self.paths@,
            config: self.config,
            store: self.store@,
            anims: self.anim_store@,
            thumbs: self.thumbs@,
            entry_sizes: self.entry_sizes@,
            tiles: self.tiles@,
            status: self.status,
        }
    }
}

impl Shared {
    /// Fresh shared state under `config`.
    pub fn new(
        config: Config,
        disk_store: bool,
        associations_registered: bool,
        style: PathStyle,
    ) -> (shared: Shared)
        ensures
            shared@.paths == (PathsModel { entries: Seq::empty(), style }),
            shared@.config == whole(config),
            shared@.store.claims == Seq::<crate::store::Claim>::empty(),
            shared@.store.dirty == Seq::<FileId>::empty(),
            shared@.store.entries == Map::<FileId, crate::store::Entry>::empty(),
            shared@.anims.claims == Seq::<crate::store::Claim>::empty(),
            shared@.anims.dirty == Seq::<FileId>::empty(),
            shared@.anims.frames == Map::<FileId, crate::store::AnimFrames>::empty(),
            shared@.thumbs == (ThumbsModel { list: Seq::empty() }),
            shared@.entry_sizes == Map::<FileId, u64>::empty(),
            shared@.tiles == Map::<FileId, PyramidModel>::empty(),
            shared@.status == whole(Status {
                disk_cache_size: None,
                disk_store,
                associations_registered,
                trim_generation: 0,
                trim_armed: false,
                volume_save_due: None,
                prefetch_gpu_bake: config.resource.value.prefetch_scaler
                    == crate::config::PrefetchScaler::Gpu,
            }),
    {
        Shared {
            paths: PathTable::new(style),
            config: Whole { value: config },
            store: Store::new(),
            anim_store: AnimStore::new(),
            thumbs: Thumbs::new(),
            entry_sizes: HashMap::new(),
            tiles: Pyramids::new(),
            status: Whole {
                value: Status {
                disk_cache_size: None,
                disk_store,
                associations_registered,
                trim_generation: 0,
                trim_armed: false,
                volume_save_due: None,
                prefetch_gpu_bake: config.resource.value.prefetch_scaler
                    == crate::config::PrefetchScaler::Gpu,
            },
            },
        }
    }
}

/// The shared state with one setting changed.
#[verifier::opaque]
pub open spec fn with_config(s: SharedModel, setting: Setting) -> SharedModel {
    SharedModel { config: whole(with_setting(s.config.value, setting)), ..s }
}

/// What a changed setting leaves alone.
pub proof fn lemma_with_config(s: SharedModel, setting: Setting)
    ensures
        with_config(s, setting) == (SharedModel { config: with_config(s, setting).config, ..s }),
        with_config(s, setting).config.value == with_setting(s.config.value, setting),
{
    reveal(with_config);
}

impl Shared {
    /// Change one setting.
    pub fn set(&mut self, setting: Setting)
        ensures
            final(self)@ == with_config(old(self)@, setting),
    {
        proof {
            reveal(with_config);
        }
        let mut config = self.config.value;
        config.set(setting);
        self.config = hold(config);
    }
}

/// The store once `window` let go of each of `files` in turn.
pub open spec fn stills_released(store: StoreModel, window: u64, files: Seq<FileId>) -> StoreModel
    decreases files.len(),
{
    if files.len() == 0 {
        store
    } else {
        stills_released(store, window, files.drop_last()).released(window, files.last())
    }
}

/// `window` lets go of each of `files`.
pub fn release_stills(files: &Vec<FileId>, window: u64, store: &mut Store)
    ensures
        final(store)@ == stills_released(old(store)@, window, files@),
{
    let mut i: usize = 0;
    while i < files.len()
        invariant
            i <= files@.len(),
            store@ == stills_released(old(store)@, window, files@.take(i as int)),
        decreases files@.len() - i,
    {
        store.release(window, files[i]);
        i = i + 1;
        assert(files@.take(i as int).drop_last() =~= files@.take(i - 1));
    }
    assert(files@.take(i as int) =~= files@);
}

/// The greatest of `reach(f)` over `files`.
pub open spec fn furthest(files: Seq<FileId>, reach: spec_fn(FileId) -> usize) -> Option<usize>
    decreases files.len(),
{
    if files.len() == 0 {
        None
    } else {
        match furthest(files.drop_last(), reach) {
            Some(d) if d >= reach(files.last()) => Some(d),
            _ => Some(reach(files.last())),
        }
    }
}

/// The first `d` from `lo` below `hi` satisfying `p`, or `hi` (or `lo` when
/// the range is empty).
pub open spec fn first_from(lo: int, hi: int, p: spec_fn(int) -> bool) -> int
    decreases hi - lo,
{
    if lo >= hi || p(lo) {
        lo
    } else {
        first_from(lo + 1, hi, p)
    }
}

proof fn lemma_first_from(lo: int, hi: int, p: spec_fn(int) -> bool, at: int)
    requires
        lo <= at,
        at <= hi || at == lo,
        at < hi ==> p(at),
        forall|d: int| lo <= d < at ==> !(#[trigger] p(d)),
    ensures
        first_from(lo, hi, p) == at,
    decreases hi - lo,
{
    if lo < at {
        lemma_first_from(lo + 1, hi, p, at);
    }
}

/// What the thumbnail walk makes of one file.
pub enum Pick {
    /// Nothing to do until something changes for good.
    Settled,
    /// A job is under way.
    InFlight,
    /// Wants a thumbnail.
    Open,
}

impl ViewerModel {
    /// The listing is usable and a pending move aims inside it.
    pub open spec fn wf(self) -> bool {
        &&& self.nav.wf()
        &&& self.pending_nav is Some ==> self.pending_nav->0 < self.nav.files.len()
        &&& self.rotation < 4
    }

    pub open spec fn current(self) -> FileId {
        self.nav.current()
    }

    /// The files held around the cursor: the neighbors and the file itself.
    pub open spec fn pinned(self, depth: nat) -> Seq<FileId> {
        self.nav.around(depth).push(self.current())
    }

    /// Whether `file` has a texture this window can draw right now.
    pub open spec fn has_texture(self, s: SharedModel, file: FileId) -> bool {
        holds(self.cache, file) && s.store.texture(file) is Some
    }

    /// Whether the sharp image for `file` is in hand.
    pub open spec fn has_full(self, s: SharedModel, file: FileId) -> bool {
        ||| self.has_texture(s, file)
        ||| self.anim.has_cached(s.anims, file)
        ||| is_video(s.paths, file)
        ||| self.failed_loads.contains_key(file)
    }

    /// Whether anything can be put on screen for `file`.
    #[verifier::opaque]
    pub open spec fn displayable(self, s: SharedModel, file: FileId) -> bool {
        self.has_full(s, file) || s.thumbs.contains_key(file)
    }

    /// How far `file` is from the cursor; one that is not listed is furthest.
    pub open spec fn reach(self, file: FileId) -> usize {
        match self.nav.distance(file) {
            Some(d) => d,
            None => usize::MAX,
        }
    }

    pub open spec fn on_screen(self, file: FileId) -> bool {
        file == self.current() || self.displayed_path == Some(file)
    }

    /// The held files other than the one on screen.
    #[verifier::opaque]
    pub open spec fn prefetched(self) -> Seq<FileId> {
        (files_of(self.cache) + files_of(self.anim.cache)).filter(
            |f: FileId| !self.on_screen(f),
        )
    }

    /// The distance of the furthest prefetched file.
    pub open spec fn outer_ring(self) -> Option<usize> {
        furthest(self.prefetched(), |f: FileId| self.reach(f))
    }

    /// The prefetched files furthest from the cursor.
    pub open spec fn shed_files(self) -> Seq<FileId> {
        self.prefetched().filter(|f: FileId| Some(self.reach(f)) == self.outer_ring())
    }

    #[verifier::opaque]
    pub open spec fn shed(self) -> ViewerModel {
        let drop = self.shed_files().to_set();
        ViewerModel {
            cache: leases_without(self.cache, drop),
            anim: AnimModel { cache: leases_without(self.anim.cache, drop), ..self.anim },
            ..self
        }
    }

    /// What the shared state becomes when this viewer sheds its outer ring.
    #[verifier::opaque]
    pub open spec fn shed_shared(self, window: u64, s: SharedModel) -> SharedModel {
        let drop = self.shed_files().to_set();
        SharedModel {
            store: stills_released(s.store, window, files_of(leases_within(self.cache, drop))),
            anims: anims_released(s.anims, window, files_of(leases_within(self.anim.cache, drop))),
            ..s
        }
    }

    /// How the thumbnail walk sees the file at `index`.
    pub open spec fn pick(self, s: SharedModel, index: int) -> Pick {
        let file = self.nav.files[index];
        if self.failed_thumbs.contains(file) || (is_video(s.paths, file) && self.source
            != Source::Fs) {
            Pick::Settled
        } else if self.in_flight_thumbs.contains(file) {
            Pick::InFlight
        } else if s.thumbs.contains_key(file) {
            Pick::Settled
        } else {
            Pick::Open
        }
    }

    /// The file the walk picks `d` steps from `center`: the one ahead, else
    /// the one behind.
    pub open spec fn open_at(self, s: SharedModel, center: int, range: Span, d: int) -> Option<
        FileId,
    > {
        if range.has(center + d) && self.pick(s, center + d) is Open {
            Some(self.nav.files[center + d])
        } else if d > 0 && range.has(center - d) && self.pick(s, center - d) is Open {
            Some(self.nav.files[center - d])
        } else {
            None
        }
    }

    /// Whether a job is under way `d` steps from `center`.
    pub open spec fn busy_at(self, s: SharedModel, center: int, range: Span, d: int) -> bool {
        ||| range.has(center + d) && self.pick(s, center + d) is InFlight
        ||| d > 0 && range.has(center - d) && self.pick(s, center - d) is InFlight
    }

    pub open spec fn center_file(self, center: usize) -> Option<FileId> {
        if center < self.nav.files.len() {
            Some(self.nav.files[center as int])
        } else {
            None
        }
    }

    /// Where a walk from `center` over `range` resumes.
    pub open spec fn resume_at(self, center: usize, range: Span) -> int {
        match self.thumb_scan {
            Some(scan) if scan.center == center && scan.range == range && scan.center_file
                == self.center_file(center) => scan.next_d as int,
            _ => 0,
        }
    }

    /// The first step from the frontier on that has a file to pick.
    pub open spec fn pick_step(self, s: SharedModel, center: usize, range: Span) -> int {
        first_from(
            self.resume_at(center, range),
            range.end - range.start,
            |d: int| self.open_at(s, center as int, range, d) is Some,
        )
    }

    /// The file the background thumbnailer takes next.
    #[verifier::opaque]
    pub open spec fn next_unthumbed(self, s: SharedModel, center: usize, range: Span) -> Option<
        FileId,
    > {
        let d = self.pick_step(s, center, range);
        if d < range.end - range.start {
            self.open_at(s, center as int, range, d)
        } else {
            None
        }
    }

    /// The frontier the walk leaves: everything before it is settled for good.
    pub open spec fn next_frontier(self, s: SharedModel, center: usize, range: Span) -> int {
        first_from(
            self.resume_at(center, range),
            self.pick_step(s, center, range),
            |d: int| self.busy_at(s, center as int, range, d),
        )
    }

    #[verifier::opaque]
    pub open spec fn scanned(self, s: SharedModel, center: usize, range: Span) -> ViewerModel {
        ViewerModel {
            thumb_scan: Some(
                ThumbScan {
                    center,
                    range,
                    center_file: self.center_file(center),
                    next_d: self.next_frontier(s, center, range) as usize,
                },
            ),
            ..self
        }
    }
}

impl View for Viewer {
    type V = ViewerModel;

    open spec fn view(&self) -> ViewerModel {
        ViewerModel {
            nav: self.nav@,
            source: self.source,
            displayed: self.displayed@,
            cache: self.cache@,
            in_flight: self.in_flight@,
            in_flight_thumbs: self.in_flight_thumbs@,
            failed_thumbs: self.failed_thumbs@,
            failed_loads: texts(self.failed_loads@),
            displayed_path: self.displayed_path,
            pending_since: self.pending_since,
            pending_nav: self.pending_nav,
            slider_drag: self.slider_drag,
            held_direction: self.held_direction,
            edge_held: self.edge_held,
            anim: self.anim_player@,
            current_file_size: self.current_file_size,
            manual_zoom: self.manual_zoom,
            dragging: self.dragging,
            exif: self.exif,
            rotation: self.rotation,
            displayed_rotation: self.displayed_rotation,
            video: self.video,
            resort_to_first: self.resort_to_first,
            thumb_scan: self.thumb_scan,
        }
    }
}

/// A viewer over `nav` with nothing loaded and its first image awaited since
/// `now`.
pub open spec fn fresh_viewer(nav: NavModel, source: Source, now: Instant) -> ViewerModel {
    ViewerModel {
        nav,
        source,
        displayed: DisplayedModel::Nothing,
        cache: Seq::empty(),
        in_flight: Set::empty(),
        in_flight_thumbs: Set::empty(),
        failed_thumbs: Set::empty(),
        failed_loads: Map::empty(),
        displayed_path: None,
        pending_since: Some(now),
        pending_nav: None,
        slider_drag: None,
        held_direction: None,
        edge_held: None,
        anim: AnimModel { cache: Seq::empty(), active: None },
        current_file_size: None,
        manual_zoom: false,
        dragging: false,
        exif: None,
        rotation: 0,
        displayed_rotation: 0,
        video: VideoState {
            session: None,
            suspended: None,
            frame: None,
            seek_drag: false,
            extracting: None,
            controls_until: None,
        },
        resort_to_first: false,
        thumb_scan: None,
    }
}

impl Viewer {
    /// Fresh viewer for a newly scanned directory or archive.
    pub fn new(nav: Nav, source: Source, now: Instant) -> (viewer: Viewer)
        ensures
            viewer@ == fresh_viewer(nav@, source, now),
    {
        let viewer = Viewer {
            nav,
            source,
            displayed: DisplayedImage::Nothing,
            cache: Leases::new(),
            in_flight: HashSet::new(),
            in_flight_thumbs: HashSet::new(),
            failed_thumbs: HashSet::new(),
            failed_loads: HashMap::new(),
            displayed_path: None,
            pending_since: Some(now),
            pending_nav: None,
            slider_drag: None,
            held_direction: None,
            edge_held: None,
            anim_player: AnimPlayer::new(),
            current_file_size: None,
            manual_zoom: false,
            dragging: false,
            exif: None,
            rotation: 0,
            displayed_rotation: 0,
            video: VideoState::new(),
            resort_to_first: false,
            thumb_scan: None,
        };
        assert(viewer@.failed_loads =~= Map::empty());
        viewer
    }

    /// Release the furthest ring of prefetched neighbors, at most one per
    /// side. A file no longer listed counts as furthest of all. Returns true
    /// while prefetched files remain held.
    pub fn drop_prefetch_ring(&mut self, window: u64, shared: &mut Shared) -> (more: bool)
        requires
            old(self)@.wf(),
        ensures
            final(self)@ == old(self)@.shed(),
            final(shared)@ == old(self)@.shed_shared(window, old(shared)@),
            more == (old(self)@.shed().prefetched().len() > 0),
    {
        proof {
            reveal(ViewerModel::shed);
            reveal(ViewerModel::shed_shared);
        }
        let loose = self.prefetched();
        let mut ring: Option<usize> = None;
        let mut i: usize = 0;
        let ghost reach = |f: FileId| self@.reach(f);
        while i < loose.len()
            invariant
                i <= loose@.len(),
                self@.wf(),
                reach == (|f: FileId| self@.reach(f)),
                ring == furthest(loose@.take(i as int), reach),
            decreases loose@.len() - i,
        {
            let d: usize = self.reach(loose[i]);
            assert(loose@.take(i + 1).drop_last() =~= loose@.take(i as int));
            ring = match ring {
                Some(r) if r >= d => Some(r),
                _ => Some(d),
            };
            i = i + 1;
        }
        assert(loose@.take(i as int) =~= loose@);
        let mut drop: Vec<FileId> = Vec::new();
        let mut j: usize = 0;
        let ghost outer = |f: FileId| Some(self@.reach(f)) == self@.outer_ring();
        while j < loose.len()
            invariant
                j <= loose@.len(),
                self@.wf(),
                ring == self@.outer_ring(),
                outer == (|f: FileId| Some(self@.reach(f)) == self@.outer_ring()),
                drop@ == loose@.take(j as int).filter(outer),
            decreases loose@.len() - j,
        {
            let file = loose[j];
            let d: usize = self.reach(file);
            proof {
                reveal(Seq::filter);
                assert(loose@.take(j + 1).drop_last() =~= loose@.take(j as int));
                assert(loose@.take(j + 1).last() == file);
            }
            if ring == Some(d) {
                drop.push(file);
            }
            j = j + 1;
        }
        assert(loose@.take(j as int) =~= loose@);
        let stills = self.cache.remove_all(&drop);
        release_stills(&stills, window, &mut shared.store);
        let anims = self.anim_player.cache.remove_all(&drop);
        release_anims(&anims, window, &mut shared.anim_store);
        self.prefetched().len() > 0
    }

    /// The held files other than the one on screen.
    fn prefetched(&self) -> (files: Vec<FileId>)
        requires
            self@.wf(),
        ensures
            files@ == self@.prefetched(),
    {
        proof {
            reveal(ViewerModel::prefetched);
        }
        let current = self.nav.current();
        let mut held: Vec<FileId> = self.cache.files();
        let mut anims: Vec<FileId> = self.anim_player.cache.files();
        held.append(&mut anims);
        let mut out: Vec<FileId> = Vec::new();
        let mut i: usize = 0;
        let ghost loose = |f: FileId| !self@.on_screen(f);
        while i < held.len()
            invariant
                i <= held@.len(),
                current == self@.current(),
                loose == (|f: FileId| !self@.on_screen(f)),
                out@ == held@.take(i as int).filter(loose),
            decreases held@.len() - i,
        {
            let file = held[i];
            proof {
                reveal(Seq::filter);
                assert(held@.take(i + 1).drop_last() =~= held@.take(i as int));
                assert(held@.take(i + 1).last() == file);
            }
            if file != current && self.displayed_path != Some(file) {
                out.push(file);
            }
            i = i + 1;
        }
        assert(held@.take(i as int) =~= held@);
        out
    }

    fn reach(&self, file: FileId) -> (d: usize)
        requires
            self@.wf(),
        ensures
            d == self@.reach(file),
    {
        match self.nav.distance(file) {
            Some(d) => d,
            None => usize::MAX,
        }
    }

    /// The files that stay held: the neighbors within `depth` steps and the
    /// current one.
    pub fn pinned_paths(&self, depth: usize) -> (files: Vec<FileId>)
        requires
            self@.wf(),
        ensures
            files@ == self@.pinned(depth as nat),
    {
        let mut files = self.nav.peek_around(depth);
        files.push(self.nav.current());
        files
    }

    /// True when this session navigates real files, not archive entries.
    pub fn is_fs(&self) -> (yes: bool)
        ensures
            yes == (self@.source == Source::Fs),
    {
        self.source == Source::Fs
    }

    /// Whether `file` has a texture this window can draw right now.
    pub fn has_resident_texture(&self, shared: &Shared, file: FileId) -> (yes: bool)
        ensures
            yes == self@.has_texture(shared@, file),
    {
        self.cache.holds(file) && shared.store.texture(file).is_some()
    }

    /// Whether anything can be put on screen for `file`: a resident image, a
    /// thumbnail, decoded frames, a video, or a known error.
    pub fn displayable(&self, shared: &Shared, file: FileId) -> (yes: bool)
        ensures
            yes == self@.displayable(shared@, file),
    {
        proof {
            reveal(ViewerModel::displayable);
        }
        self.has_full(shared, file) || shared.thumbs.contains_key(file)
    }

    /// Whether the sharp image for `file` is in hand. A thumbnail does not
    /// count.
    pub fn has_full(&self, shared: &Shared, file: FileId) -> (yes: bool)
        ensures
            yes == self@.has_full(shared@, file),
    {
        self.has_resident_texture(shared, file) || self.anim_player.has_cached(
            file,
            &shared.anim_store,
        ) || shared.paths.is_video(file) || self.failed_loads.contains_key(&file)
    }

    fn pick(&self, shared: &Shared, index: usize) -> (pick: Pick)
        requires
            index < self@.nav.files.len(),
        ensures
            pick == self@.pick(shared@, index as int),
    {
        let file = self.nav.files[index];
        if self.failed_thumbs.contains(&file) || (shared.paths.is_video(file) && self.source
            != Source::Fs) {
            Pick::Settled
        } else if self.in_flight_thumbs.contains(&file) {
            Pick::InFlight
        } else if shared.thumbs.contains_key(file) {
            Pick::Settled
        } else {
            Pick::Open
        }
    }

    /// The next file for the background thumbnailer within `range`, fanning
    /// outward from `center` (center, +1, -1, +2, -2, ...): one with no
    /// thumbnail and no job for one under way. Resumes from the frontier of
    /// the last walk, so a settled span is never rescanned.
    pub fn next_unthumbed_in(&mut self, shared: &Shared, center: usize, range: Span) -> (found:
        Option<FileId>)
        requires
            range.end <= old(self)@.nav.files.len(),
        ensures
            found == old(self)@.next_unthumbed(shared@, center, range),
            final(self)@ == old(self)@.scanned(shared@, center, range),
    {
        proof {
            reveal(ViewerModel::next_unthumbed);
            reveal(ViewerModel::scanned);
        }
        let center_file: Option<FileId> = if center < self.nav.files.len() {
            Some(self.nav.files[center])
        } else {
            None
        };
        let resume: usize = match self.thumb_scan {
            Some(scan) => if scan.center == center && scan.range == range && scan.center_file
                == center_file {
                scan.next_d
            } else {
                0
            },
            None => 0,
        };
        let span: usize = if range.end >= range.start {
            range.end - range.start
        } else {
            0
        };
        let ghost v = self@;
        let ghost s = shared@;
        let ghost opens = |d: int| v.open_at(s, center as int, range, d) is Some;
        let ghost busy = |d: int| v.busy_at(s, center as int, range, d);
        let mut settled: usize = resume;
        let mut found: Option<FileId> = None;
        let mut d: usize = resume;
        let mut blocked: bool = false;
        while d < span && found.is_none()
            invariant
                v == self@,
                s == shared@,
                v == old(self)@,
                range.end <= v.nav.files.len(),
                span == if range.end >= range.start {
                    range.end - range.start
                } else {
                    0
                },
                resume <= d,
                d <= span || d == resume,
                opens == (|d: int| v.open_at(s, center as int, range, d) is Some),
                busy == (|d: int| v.busy_at(s, center as int, range, d)),
                forall|e: int| resume <= e < d ==> !(#[trigger] opens(e)),
                found is Some ==> d < span && found == v.open_at(s, center as int, range, d as int),
                resume <= settled <= d,
                forall|e: int| resume <= e < settled ==> !(#[trigger] busy(e)),
                blocked ==> settled < d && busy(settled as int),
                !blocked ==> settled == d,
            decreases span - d + if found is None {
                1int
            } else {
                0int
            },
        {
            let ahead: Option<usize> = if d <= usize::MAX - center && range.start <= center + d
                && center + d < range.end {
                Some(center + d)
            } else {
                None
            };
            let behind: Option<usize> = if d > 0 && d <= center && range.start <= center - d
                && center - d < range.end {
                Some(center - d)
            } else {
                None
            };
            let first: Pick = match ahead {
                Some(i) => self.pick(shared, i),
                None => Pick::Settled,
            };
            let second: Pick = match behind {
                Some(i) => self.pick(shared, i),
                None => Pick::Settled,
            };
            let mut step_settled: bool = true;
            match (first, ahead) {
                (Pick::Open, Some(i)) => {
                    found = Some(self.nav.files[i]);
                },
                (Pick::InFlight, _) => {
                    step_settled = false;
                },
                _ => {},
            }
            if found.is_none() {
                match (second, behind) {
                    (Pick::Open, Some(i)) => {
                        found = Some(self.nav.files[i]);
                    },
                    (Pick::InFlight, _) => {
                        step_settled = false;
                    },
                    _ => {},
                }
            }
            if found.is_none() {
                assert(!opens(d as int));
                assert(step_settled <==> !busy(d as int));
                if step_settled && settled == d {
                    settled = d + 1;
                } else {
                    blocked = true;
                }
                d = d + 1;
            } else {
                assert(opens(d as int));
            }
        }
        proof {
            if found is None {
                assert(d == span || d == resume);
                lemma_first_from(resume as int, range.end - range.start, opens, d as int);
            } else {
                lemma_first_from(resume as int, range.end - range.start, opens, d as int);
            }
            lemma_first_from(resume as int, d as int, busy, settled as int);
        }
        self.thumb_scan = Some(ThumbScan { center, range, center_file, next_d: settled });
        found
    }

    /// The on-disk file behind the current image: the file itself, or the
    /// archive containing it.
    pub fn current_disk_path(&self) -> (file: FileId)
        requires
            self@.wf(),
        ensures
            file == match self@.source {
                Source::Fs => self@.current(),
                Source::Archive(archive) => archive,
            },
    {
        match self.source {
            Source::Fs => self.nav.current(),
            Source::Archive(archive) => archive,
        }
    }
}

proof fn lemma_first_hit(lo: int, hi: int, p: spec_fn(int) -> bool)
    ensures
        lo <= first_from(lo, hi, p),
        lo <= hi ==> first_from(lo, hi, p) <= hi,
        first_from(lo, hi, p) < hi ==> p(first_from(lo, hi, p)),
        forall|d: int| lo <= d < first_from(lo, hi, p) ==> !(#[trigger] p(d)),
    decreases hi - lo,
{
    if lo < hi && !p(lo) {
        lemma_first_hit(lo + 1, hi, p);
    }
}

proof fn lemma_furthest(files: Seq<FileId>, reach: spec_fn(FileId) -> usize, i: int)
    requires
        0 <= i < files.len(),
    ensures
        furthest(files, reach) is Some,
        reach(files[i]) <= furthest(files, reach)->0,
        exists|j: int|
            0 <= j < files.len() && Some(reach(#[trigger] files[j])) == furthest(files, reach),
    decreases files.len(),
{
    let rest = files.drop_last();
    if i < rest.len() {
        lemma_furthest(rest, reach, i);
        assert(rest[i] == files[i]);
    }
    if rest.len() > 0 {
        lemma_furthest(rest, reach, 0);
        let j = choose|j: int|
            0 <= j < rest.len() && Some(reach(#[trigger] rest[j])) == furthest(rest, reach);
        assert(files[j] == rest[j]);
    }
    assert(files[files.len() - 1] == files.last());
}

proof fn lemma_filter_members(s: Seq<FileId>, p: spec_fn(FileId) -> bool, x: FileId)
    ensures
        s.filter(p).contains(x) <==> s.contains(x) && p(x),
    decreases s.len(),
{
    reveal(Seq::filter);
    if s.len() > 0 {
        let rest = s.drop_last();
        lemma_filter_members(rest, p, x);
        if s.contains(x) {
            let i = choose|i: int| 0 <= i < s.len() && s[i] == x;
            if i < rest.len() {
                assert(rest[i] == x);
            }
        }
        if rest.contains(x) {
            let i = choose|i: int| 0 <= i < rest.len() && rest[i] == x;
            assert(s[i] == x);
        }
        assert(s[s.len() - 1] == s.last());
        let kept = rest.filter(p);
        if p(s.last()) {
            assert(kept.push(s.last())[kept.len() as int] == s.last());
            if kept.contains(x) {
                let i = choose|i: int| 0 <= i < kept.len() && kept[i] == x;
                assert(kept.push(s.last())[i] == x);
            }
        }
    }
}

proof fn lemma_files_of(leases: Seq<Lease>, file: FileId)
    ensures
        files_of(leases).contains(file) <==> holds(leases, file),
{
    lemma_holds(leases, file);
    if holds(leases, file) {
        let i = choose|i: int| 0 <= i < leases.len() && (#[trigger] leases[i]).file == file;
        assert(files_of(leases)[i] == file);
    }
    if files_of(leases).contains(file) {
        let i = choose|i: int| 0 <= i < files_of(leases).len() && files_of(leases)[i] == file;
        assert(leases[i].file == file);
    }
}

proof fn lemma_prefetched(v: ViewerModel, file: FileId)
    ensures
        v.prefetched().contains(file) <==> (holds(v.cache, file) || holds(v.anim.cache, file))
            && !v.on_screen(file),
{
    reveal(ViewerModel::prefetched);
    let stills = files_of(v.cache);
    let anims = files_of(v.anim.cache);
    lemma_files_of(v.cache, file);
    lemma_files_of(v.anim.cache, file);
    lemma_filter_members(stills + anims, |f: FileId| !v.on_screen(f), file);
    if stills.contains(file) {
        let i = choose|i: int| 0 <= i < stills.len() && stills[i] == file;
        assert((stills + anims)[i] == file);
    }
    if anims.contains(file) {
        let i = choose|i: int| 0 <= i < anims.len() && anims[i] == file;
        assert((stills + anims)[stills.len() + i] == file);
    }
    if (stills + anims).contains(file) {
        let i = choose|i: int|
            0 <= i < (stills + anims).len() && (stills + anims)[i] == file;
        if i < stills.len() {
            assert(stills[i] == file);
        } else {
            assert(anims[i - stills.len()] == file);
        }
    }
}

/// Shedding takes exactly the prefetched files furthest from the cursor: what
/// stays prefetched is nearer than all of them, and what is on screen stays
/// held as it was.
pub proof fn law_shed_takes_the_outer_ring(v: ViewerModel, file: FileId)
    ensures
        v.shed().prefetched().contains(file) <==> v.prefetched().contains(file) && Some(
            v.reach(file),
        ) != v.outer_ring(),
        v.shed().prefetched().contains(file) ==> v.reach(file) < v.outer_ring()->0,
        v.on_screen(file) ==> holds(v.shed().cache, file) == holds(v.cache, file) && holds(
            v.shed().anim.cache,
            file,
        ) == holds(v.anim.cache, file),
{
    reveal(ViewerModel::shed);
    let drop = v.shed_files().to_set();
    lemma_filter_members(
        v.prefetched(),
        |f: FileId| Some(v.reach(f)) == v.outer_ring(),
        file,
    );
    lemma_filtered_holds(v.cache, drop, file);
    lemma_filtered_holds(v.anim.cache, drop, file);
    lemma_prefetched(v, file);
    lemma_prefetched(v.shed(), file);
    assert(v.shed().on_screen(file) == v.on_screen(file));
    if v.prefetched().contains(file) {
        let i = choose|i: int| 0 <= i < v.prefetched().len() && v.prefetched()[i] == file;
        lemma_furthest(v.prefetched(), |f: FileId| v.reach(f), i);
    }
}

/// While anything is prefetched, shedding lets go of something.
pub proof fn law_shed_makes_progress(v: ViewerModel)
    requires
        v.prefetched().len() > 0,
    ensures
        exists|file: FileId|
            #[trigger] v.prefetched().contains(file) && !v.shed().prefetched().contains(file),
{
    let files = v.prefetched();
    lemma_furthest(files, |f: FileId| v.reach(f), 0);
    let j = choose|j: int|
        0 <= j < files.len() && Some((|f: FileId| v.reach(f))(#[trigger] files[j])) == furthest(
            files,
            |f: FileId| v.reach(f),
        );
    law_shed_takes_the_outer_ring(v, files[j]);
    assert(files.contains(files[j]));
}

/// The background thumbnailer only ever picks a file inside its range that has
/// no thumbnail, no job under way, and is not known to fail; and nothing nearer
/// to the center, from the frontier on, was left to pick.
pub proof fn law_thumbnailer_picks_the_nearest(
    v: ViewerModel,
    s: SharedModel,
    center: usize,
    range: Span,
    d: int,
)
    ensures
        v.next_unthumbed(s, center, range) is Some ==> exists|i: int|
            range.has(i) && #[trigger] v.nav.files[i] == v.next_unthumbed(s, center, range)->0
                && v.pick(s, i) is Open,
        v.resume_at(center, range) <= d < v.pick_step(s, center, range) ==> v.open_at(
            s,
            center as int,
            range,
            d,
        ) is None,
{
    reveal(ViewerModel::next_unthumbed);
    let opens = |d: int| v.open_at(s, center as int, range, d) is Some;
    lemma_first_hit(v.resume_at(center, range), range.end - range.start, opens);
    let step = v.pick_step(s, center, range);
    assert(v.resume_at(center, range) <= d < step ==> !opens(d));
    if v.next_unthumbed(s, center, range) is Some {
        assert(opens(step));
        if range.has(center + step) && v.pick(s, center + step) is Open {
            assert(v.nav.files[center + step] == v.next_unthumbed(s, center, range)->0);
        } else {
            assert(v.nav.files[center - step] == v.next_unthumbed(s, center, range)->0);
        }
    }
}

} // verus!
