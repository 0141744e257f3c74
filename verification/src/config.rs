//! The settings the decisions read.
use crate::time::{Duration, MAX_NANOS};
use crate::whole::Whole;
use crate::window::Coords;
use vstd::prelude::*;

verus! {

/// How an image is scaled when it first goes on screen.
#[derive(Clone, Copy, PartialEq, Eq, Structural, Debug)]
pub enum ZoomMode {
    Auto,
    LockZoomRatio,
    ScaleToWidth,
    ScaleToHeight,
    ScaleToFit,
    ScaleToFill,
}

#[derive(Clone, Copy, PartialEq, Eq, Structural, Debug)]
pub enum SortKey {
    Name,
    DateModified,
    Size,
    Kind,
}

#[derive(Clone, Copy, PartialEq, Eq, Structural, Debug)]
pub enum ThemeChoice {
    Dark,
    Light,
}

/// How prefetched neighbors are held.
#[derive(Clone, Copy, PartialEq, Eq, Structural, Debug)]
pub enum PrefetchVram {
    /// With a full-resolution texture.
    FullRes,
    /// With a texture at the displayed resolution.
    ViewRes,
    /// As decoded pixels only, uploaded on navigation.
    RamOnly,
}

/// Where a prefetched neighbor's view-resolution copy is scaled.
#[derive(Clone, Copy, PartialEq, Eq, Structural, Debug)]
pub enum PrefetchScaler {
    Gpu,
    Cpu,
}

/// When a backgrounded window's decoded pixels are freed.
#[derive(Clone, Copy, PartialEq, Eq, Structural, Debug)]
pub enum EvictPolicy {
    /// After a fixed delay.
    Fixed(Duration),
    /// Not at all.
    Never,
    /// After a delay that grows with the time the decode took, so what is
    /// expensive to reproduce stays longer.
    Dynamic,
}

/// The eviction timer of one kind of media.
#[derive(Clone, Copy, PartialEq, Eq, Structural, Debug)]
pub struct EvictConfig {
    pub evict_ram: EvictPolicy,
    /// The dynamic delay of a decode that took no time.
    pub dynamic_base: Duration,
    /// How much longer a decoded image stays per unit of decode time.
    pub dynamic_factor: u32,
}

/// The dynamic eviction delay: the base plus `factor` times the decode time,
/// capped at the longest duration.
pub open spec fn dynamic_delay(base: Duration, factor: u32, decode: Duration) -> Duration {
    Duration {
        nanos: if base.nanos + decode.nanos * factor <= MAX_NANOS {
            (base.nanos + decode.nanos * factor) as u128
        } else {
            MAX_NANOS
        },
    }
}

impl EvictConfig {
    /// The delay before eviction, `None` when it never happens. A dynamic
    /// delay needs a measured decode time.
    pub open spec fn delay_spec(self, decode: Option<Duration>) -> Option<Duration> {
        match (self.evict_ram, decode) {
            (EvictPolicy::Fixed(d), _) => Some(d),
            (EvictPolicy::Never, _) => None,
            (EvictPolicy::Dynamic, None) => None,
            (EvictPolicy::Dynamic, Some(t)) => Some(
                dynamic_delay(self.dynamic_base, self.dynamic_factor, t),
            ),
        }
    }

    pub fn evict_delay(&self, decode: Option<Duration>) -> (delay: Option<Duration>)
        ensures
            delay == self.delay_spec(decode),
    {
        match self.evict_ram {
            EvictPolicy::Fixed(d) => Some(d),
            EvictPolicy::Never => None,
            EvictPolicy::Dynamic => match decode {
                None => None,
                Some(t) => {
                    let scaled: Option<u128> = t.nanos.checked_mul(self.dynamic_factor as u128);
                    match scaled {
                        Some(extra) => {
                            if self.dynamic_base.nanos <= MAX_NANOS && extra <= MAX_NANOS
                                - self.dynamic_base.nanos {
                                Some(Duration { nanos: self.dynamic_base.nanos + extra })
                            } else {
                                Some(Duration { nanos: MAX_NANOS })
                            }
                        },
                        None => Some(Duration { nanos: MAX_NANOS }),
                    }
                },
            },
        }
    }
}

/// Eviction scaled to the decode: a minute, plus a thousand times what the
/// decode took.
pub open spec fn default_evict() -> EvictConfig {
    EvictConfig {
        evict_ram: EvictPolicy::Dynamic,
        dynamic_base: Duration { nanos: 60_000_000_000 },
        dynamic_factor: 1000,
    }
}

impl Default for EvictConfig {
    fn default() -> (cfg: EvictConfig)
        ensures
            cfg == default_evict(),
    {
        EvictConfig {
            evict_ram: EvictPolicy::Dynamic,
            dynamic_base: Duration::from_secs(60),
            dynamic_factor: 1000,
        }
    }
}

/// The decay timers of a still image, from state entry. `None` skips a stage.
#[derive(Clone, Copy, PartialEq, Eq, Structural, Debug)]
pub struct DecayPipeline {
    pub demote_vram_after: Option<Duration>,
    pub drop_vram_after: Option<Duration>,
    pub evict: EvictConfig,
}

/// The decay timer of a video. `None` keeps its decode session.
#[derive(Clone, Copy, PartialEq, Eq, Structural, Debug)]
pub struct VideoDecay {
    pub evict_session_after: Option<Duration>,
}

/// The event the prefetch shedding counts from.
#[derive(Clone, Copy, PartialEq, Eq, Structural, Debug)]
pub enum PrefetchDropAnchor {
    Immediately,
    Demote,
    Drop,
    Evict,
}

/// When the prefetched neighbors are shed.
#[derive(Clone, Copy, PartialEq, Eq, Structural, Debug)]
pub struct PrefetchDecay {
    pub drop_on: PrefetchDropAnchor,
    pub drop_after: Duration,
    pub drop_interval: Duration,
}

/// The decay settings of one background state.
#[derive(Clone, Copy, PartialEq, Eq, Structural, Debug)]
pub struct StateDecay {
    pub still: DecayPipeline,
    pub animated: EvictConfig,
    pub video: VideoDecay,
    pub prefetch: PrefetchDecay,
}

/// When the whole process may return its working set to the system.
#[derive(Clone, Copy, PartialEq, Eq, Structural, Debug)]
pub enum WorkingSetTrim {
    Never,
    AllUnfocused,
    AllMinimized,
}

/// An amount of memory.
#[derive(Clone, Copy, PartialEq, Eq, Structural, Debug)]
pub enum RamBudget {
    /// A share of what the system has.
    Share,
    Megabytes(u64),
}

/// Resource retention settings.
#[derive(Clone, Copy, PartialEq, Eq, Structural, Debug)]
pub struct ResourceConfig {
    pub unfocused: StateDecay,
    pub minimized: StateDecay,
    pub pause_video_when_minimized: bool,
    pub prefetch_vram: PrefetchVram,
    pub prefetch_scaler: PrefetchScaler,
    pub trim_when: WorkingSetTrim,
    pub trim_after: Duration,
    /// What the pixels of large images may take.
    pub large_image_ram_budget: RamBudget,
    /// How many neighbors are decoded at once.
    pub prefetch_parallelism: usize,
}

impl ResourceConfig {
    pub open spec fn state_spec(self, minimized: bool) -> StateDecay {
        if minimized {
            self.minimized
        } else {
            self.unfocused
        }
    }

    /// The settings governing a minimized, or a merely unfocused, window.
    pub fn for_state(&self, minimized: bool) -> (state: StateDecay)
        ensures
            state == self.state_spec(minimized),
    {
        if minimized {
            self.minimized
        } else {
            self.unfocused
        }
    }
}

/// The default background behavior.
pub open spec fn default_resource() -> ResourceConfig {
    let prefetch = PrefetchDecay {
        drop_on: PrefetchDropAnchor::Demote,
        drop_after: Duration { nanos: 30_000_000_000 },
        drop_interval: Duration { nanos: 5_000_000_000 },
    };
    ResourceConfig {
        unfocused: StateDecay {
            still: DecayPipeline {
                demote_vram_after: Some(Duration { nanos: 15_000_000_000 }),
                drop_vram_after: None,
                evict: default_evict(),
            },
            animated: default_evict(),
            video: VideoDecay { evict_session_after: None },
            prefetch,
        },
        minimized: StateDecay {
            still: DecayPipeline {
                demote_vram_after: None,
                drop_vram_after: Some(Duration { nanos: 0 }),
                evict: default_evict(),
            },
            animated: default_evict(),
            video: VideoDecay { evict_session_after: Some(Duration { nanos: 30_000_000_000 }) },
            prefetch,
        },
        pause_video_when_minimized: true,
        prefetch_vram: PrefetchVram::ViewRes,
        prefetch_scaler: PrefetchScaler::Gpu,
        trim_when: WorkingSetTrim::Never,
        trim_after: Duration { nanos: 60_000_000_000 },
        large_image_ram_budget: RamBudget::Share,
        prefetch_parallelism: 2,
    }
}

impl Default for ResourceConfig {
    fn default() -> (cfg: ResourceConfig)
        ensures
            cfg == default_resource(),
    {
        let prefetch = PrefetchDecay {
            drop_on: PrefetchDropAnchor::Demote,
            drop_after: Duration::from_secs(30),
            drop_interval: Duration::from_secs(5),
        };
        ResourceConfig {
            unfocused: StateDecay {
                still: DecayPipeline {
                    demote_vram_after: Some(Duration::from_secs(15)),
                    drop_vram_after: None,
                    evict: EvictConfig::default(),
                },
                animated: EvictConfig::default(),
                video: VideoDecay { evict_session_after: None },
                prefetch,
            },
            minimized: StateDecay {
                still: DecayPipeline {
                    demote_vram_after: None,
                    drop_vram_after: Some(Duration::zero()),
                    evict: EvictConfig::default(),
                },
                animated: EvictConfig::default(),
                video: VideoDecay { evict_session_after: Some(Duration::from_secs(30)) },
                prefetch,
            },
            pause_video_when_minimized: true,
            prefetch_vram: PrefetchVram::ViewRes,
            prefetch_scaler: PrefetchScaler::Gpu,
            trim_when: WorkingSetTrim::Never,
            trim_after: Duration::from_secs(60),
            large_image_ram_budget: RamBudget::Share,
            prefetch_parallelism: 2,
        }
    }
}

/// The persisted settings, apart from the fractional ones (window geometry and
/// volume), which live beside the widgets that use them.
#[derive(Clone, Copy, PartialEq, Eq, Structural, Debug)]
pub struct Config {
    pub zoom_mode: ZoomMode,
    pub theme: ThemeChoice,
    pub sort_key: SortKey,
    pub sort_desc: bool,
    pub prefetch_depth: usize,
    pub cache_budget_mb: usize,
    pub show_toolbar: bool,
    pub show_filmstrip: bool,
    pub show_slider: bool,
    pub show_footer: bool,
    pub show_info: bool,
    pub crisp_pixels: bool,
    pub show_checkerboard: bool,
    pub read_only: bool,
    pub confirm_delete: bool,
    pub disk_thumbs: bool,
    pub video_muted: bool,
    pub video_loop: bool,
    /// The volume, by its bit pattern.
    pub video_volume: u32,
    pub hardware_decode: bool,
    /// The saved plain windowed bounds of the last closed window, by the bit
    /// patterns they are stored as. The position is missing until one is saved.
    pub window_width: u32,
    pub window_height: u32,
    pub window_x: Option<u32>,
    pub window_y: Option<u32>,
    pub window_maximized: bool,
    pub window_fullscreen: bool,
    pub resource: Whole<ResourceConfig>,
}

/// One setting and the value it takes.
#[derive(Clone, Copy, PartialEq, Eq, Structural, Debug)]
pub enum Setting {
    ZoomMode(ZoomMode),
    Theme(ThemeChoice),
    SortKey(SortKey),
    SortDesc(bool),
    PrefetchDepth(usize),
    CacheBudgetMb(usize),
    ShowToolbar(bool),
    ShowFilmstrip(bool),
    ShowSlider(bool),
    ShowFooter(bool),
    ShowInfo(bool),
    CrispPixels(bool),
    ShowCheckerboard(bool),
    ReadOnly(bool),
    ConfirmDelete(bool),
    DiskThumbs(bool),
    VideoMuted(bool),
    VideoLoop(bool),
    /// A new volume, which also unmutes.
    VideoVolume(u32),
    /// How the next window starts: maximized, fullscreen.
    RestoreStack { size: Coords, pos: Coords, maximized: bool, fullscreen: bool },
}

/// `config` with one setting changed.
#[verifier::opaque]
pub open spec fn with_setting(config: Config, setting: Setting) -> Config {
    match setting {
        Setting::ZoomMode(zoom_mode) => Config { zoom_mode, ..config },
        Setting::Theme(theme) => Config { theme, ..config },
        Setting::SortKey(sort_key) => Config { sort_key, ..config },
        Setting::SortDesc(sort_desc) => Config { sort_desc, ..config },
        Setting::PrefetchDepth(prefetch_depth) => Config { prefetch_depth, ..config },
        Setting::CacheBudgetMb(cache_budget_mb) => Config { cache_budget_mb, ..config },
        Setting::ShowToolbar(show_toolbar) => Config { show_toolbar, ..config },
        Setting::ShowFilmstrip(show_filmstrip) => Config { show_filmstrip, ..config },
        Setting::ShowSlider(show_slider) => Config { show_slider, ..config },
        Setting::ShowFooter(show_footer) => Config { show_footer, ..config },
        Setting::ShowInfo(show_info) => Config { show_info, ..config },
        Setting::CrispPixels(crisp_pixels) => Config { crisp_pixels, ..config },
        Setting::ShowCheckerboard(show_checkerboard) => Config { show_checkerboard, ..config },
        Setting::ReadOnly(read_only) => Config { read_only, ..config },
        Setting::ConfirmDelete(confirm_delete) => Config { confirm_delete, ..config },
        Setting::DiskThumbs(disk_thumbs) => Config { disk_thumbs, ..config },
        Setting::VideoMuted(video_muted) => Config { video_muted, ..config },
        Setting::VideoLoop(video_loop) => Config { video_loop, ..config },
        Setting::VideoVolume(video_volume) => Config {
            video_volume,
            video_muted: false,
            ..config
        },
        Setting::RestoreStack { size, pos, maximized, fullscreen } => Config {
            window_width: size.first,
            window_height: size.second,
            window_x: Some(pos.first),
            window_y: Some(pos.second),
            window_maximized: maximized,
            window_fullscreen: fullscreen,
            ..config
        },
    }
}

impl Config {
    /// Change one setting.
    pub fn set(&mut self, setting: Setting)
        ensures
            *final(self) == with_setting(*old(self), setting),
    {
        proof {
            reveal(with_setting);
        }
        let config: Config = *self;
        *self = match setting {
            Setting::ZoomMode(zoom_mode) => Config { zoom_mode, ..config },
            Setting::Theme(theme) => Config { theme, ..config },
            Setting::SortKey(sort_key) => Config { sort_key, ..config },
            Setting::SortDesc(sort_desc) => Config { sort_desc, ..config },
            Setting::PrefetchDepth(prefetch_depth) => Config { prefetch_depth, ..config },
            Setting::CacheBudgetMb(cache_budget_mb) => Config { cache_budget_mb, ..config },
            Setting::ShowToolbar(show_toolbar) => Config { show_toolbar, ..config },
            Setting::ShowFilmstrip(show_filmstrip) => Config { show_filmstrip, ..config },
            Setting::ShowSlider(show_slider) => Config { show_slider, ..config },
            Setting::ShowFooter(show_footer) => Config { show_footer, ..config },
            Setting::ShowInfo(show_info) => Config { show_info, ..config },
            Setting::CrispPixels(crisp_pixels) => Config { crisp_pixels, ..config },
            Setting::ShowCheckerboard(show_checkerboard) => Config { show_checkerboard, ..config },
            Setting::ReadOnly(read_only) => Config { read_only, ..config },
            Setting::ConfirmDelete(confirm_delete) => Config { confirm_delete, ..config },
            Setting::DiskThumbs(disk_thumbs) => Config { disk_thumbs, ..config },
            Setting::VideoMuted(video_muted) => Config { video_muted, ..config },
            Setting::VideoLoop(video_loop) => Config { video_loop, ..config },
            Setting::VideoVolume(video_volume) => Config {
                video_volume,
                video_muted: false,
                ..config
            },
            Setting::RestoreStack { size, pos, maximized, fullscreen } => Config {
                window_width: size.first,
                window_height: size.second,
                window_x: Some(pos.first),
                window_y: Some(pos.second),
                window_maximized: maximized,
                window_fullscreen: fullscreen,
                ..config
            },
        };
    }
}

/// The settings of a first launch.
pub open spec fn default_config() -> Config {
    Config {
        zoom_mode: ZoomMode::Auto,
        theme: ThemeChoice::Dark,
        sort_key: SortKey::Name,
        sort_desc: false,
        prefetch_depth: 2,
        cache_budget_mb: 512,
        show_toolbar: true,
        show_filmstrip: true,
        show_slider: true,
        show_footer: true,
        show_info: false,
        crisp_pixels: false,
        show_checkerboard: true,
        read_only: false,
        confirm_delete: true,
        disk_thumbs: true,
        video_muted: false,
        video_loop: false,
        // 1.0.
        video_volume: 0x3f80_0000,
        hardware_decode: true,
        // 1280.0 by 800.0.
        window_width: 0x44A0_0000,
        window_height: 0x4448_0000,
        window_x: None,
        window_y: None,
        window_maximized: false,
        window_fullscreen: false,
        resource: Whole { value: default_resource() },
    }
}

impl Default for Config {
    fn default() -> (cfg: Config)
        ensures
            cfg == default_config(),
    {
        Config {
            zoom_mode: ZoomMode::Auto,
            theme: ThemeChoice::Dark,
            sort_key: SortKey::Name,
            sort_desc: false,
            prefetch_depth: 2,
            cache_budget_mb: 512,
            show_toolbar: true,
            show_filmstrip: true,
            show_slider: true,
            show_footer: true,
            show_info: false,
            crisp_pixels: false,
            show_checkerboard: true,
            read_only: false,
            confirm_delete: true,
            disk_thumbs: true,
            video_muted: false,
            video_loop: false,
            // 1.0.
            video_volume: 0x3f80_0000,
            hardware_decode: true,
            // 1280.0 by 800.0.
            window_width: 0x44A0_0000,
            window_height: 0x4448_0000,
            window_x: None,
            window_y: None,
            window_maximized: false,
            window_fullscreen: false,
            resource: Whole { value: ResourceConfig::default() },
        }
    }
}

} // verus!
