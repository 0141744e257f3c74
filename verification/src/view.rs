//! What the view draws, decided apart from the widgets that draw it.
use crate::state::{DisplayedImage, DisplayedModel, Shared, SharedModel, Viewer, ViewerModel};
use crate::text::{decimal, decimal_text, name_of, name_text};
use crate::time::{elapsed, Duration, Instant};
use crate::window::{OpenMenu, Window, WindowModel};
use vstd::prelude::*;
use vstd::string::*;

verus! {

/// What fills the content area.
#[derive(Clone, Copy, PartialEq, Eq, Structural, Debug)]
pub enum Content {
    /// Nothing is open.
    DropPrompt,
    /// Something is open and nothing of it is ready.
    EmptyViewport,
    /// A blurred stand-in, always drawn smooth.
    Blur,
    Still,
    Animation,
    Video,
    ErrorMessage,
}

/// What a click on the backdrop does.
#[derive(Clone, Copy, PartialEq, Eq, Structural, Debug)]
pub enum Backdrop {
    Inert,
    DismissContextMenu,
    DismissOverlay,
}

/// Everything the view decides.
#[derive(Clone, Copy, PartialEq, Eq, Debug)]
pub struct ViewPlan {
    pub content: Content,
    /// Whether pixels are drawn without smoothing.
    pub crisp: bool,
    /// The dimensions of what is on screen, where they are known. The footer and
    /// the info panel give them and the zoom, or an ellipsis.
    pub dimensions: Option<(u32, u32)>,
    pub toolbar: bool,
    pub info_panel: bool,
    /// Whether the info panel has fields for the file on screen.
    pub info_fields: bool,
    pub filmstrip: bool,
    /// Where the slider's thumb is, if the slider shows.
    pub slider: Option<usize>,
    pub footer: bool,
    /// How long the footer's spinner has been turning, if it shows.
    pub footer_spinner: Option<Duration>,
    /// The same for the centered one, for a viewport with nothing to show.
    pub center_spinner: Option<Duration>,
    /// The file the scrub bubble previews, if it is up.
    pub bubble: Option<usize>,
    pub dropdown: Option<OpenMenu>,
    pub context_menu: bool,
    pub backdrop: Backdrop,
}

/// How long a load may take before a spinner appears.
pub open spec fn spinner_delay() -> Duration {
    Duration { nanos: 150_000_000 }
}

pub open spec fn content_of(w: WindowModel) -> Content {
    match w.viewer {
        None => Content::DropPrompt,
        Some(v) => match v.displayed {
            DisplayedModel::Nothing => Content::EmptyViewport,
            DisplayedModel::Placeholder(_) => Content::Blur,
            DisplayedModel::Full { .. } => Content::Still,
            DisplayedModel::Animated { .. } => Content::Animation,
            DisplayedModel::Video { .. } => Content::Video,
            DisplayedModel::Error { .. } => Content::ErrorMessage,
        },
    }
}

/// Whether this is a picture at its own resolution, not a stand-in.
pub open spec fn sharp(content: Content) -> bool {
    content is Still || content is Animation || content is Video
}

/// How long the current image has been awaited, once that is long enough to
/// show.
pub open spec fn overdue(v: ViewerModel, now: Instant) -> Option<Duration> {
    match v.pending_since {
        Some(since) if elapsed(now, since).nanos >= spinner_delay().nanos => Some(
            elapsed(now, since),
        ),
        _ => None,
    }
}

pub open spec fn plan_of(w: WindowModel, s: SharedModel, now: Instant) -> ViewPlan {
    let state = w.state.value;
    let config = s.config.value;
    let chrome = w.viewer is Some && !state.fullscreen;
    let v = w.viewer->0;
    ViewPlan {
        content: content_of(w),
        crisp: config.crisp_pixels && w.viewer is Some && sharp(content_of(w)),
        dimensions: if w.viewer is Some {
            v.displayed.original_size()
        } else {
            None
        },
        toolbar: config.show_toolbar && !state.fullscreen,
        info_panel: chrome && config.show_info,
        info_fields: chrome && config.show_info && v.exif == Some(v.current()),
        filmstrip: chrome && config.show_filmstrip,
        slider: if chrome && config.show_slider {
            Some(
                match v.slider_drag {
                    Some(drag) => drag.target,
                    None => v.nav.cursor as usize,
                },
            )
        } else {
            None
        },
        footer: chrome && config.show_footer,
        footer_spinner: if chrome && config.show_footer {
            overdue(v, now)
        } else {
            None
        },
        center_spinner: if w.viewer is Some && v.displayed is Nothing {
            overdue(v, now)
        } else {
            None
        },
        bubble: match v.slider_drag {
            Some(drag) if w.viewer is Some && drag.bubble => Some(drag.target),
            _ => None,
        },
        dropdown: state.open_menu,
        context_menu: state.context_menu_open,
        backdrop: if state.context_menu_open {
            Backdrop::DismissContextMenu
        } else if state.open_menu is Some {
            Backdrop::DismissOverlay
        } else {
            Backdrop::Inert
        },
    }
}

fn waiting(viewer: &Viewer, now: Instant) -> (shown: Option<Duration>)
    ensures
        shown == overdue(viewer@, now),
{
    match viewer.pending_since {
        Some(since) => {
            let d = now.since(since);
            if d.nanos >= 150_000_000 {
                Some(d)
            } else {
                None
            }
        },
        None => None,
    }
}

fn content(viewer: &Viewer) -> (content: Content)
    ensures
        content == match viewer@.displayed {
            DisplayedModel::Nothing => Content::EmptyViewport,
            DisplayedModel::Placeholder(_) => Content::Blur,
            DisplayedModel::Full { .. } => Content::Still,
            DisplayedModel::Animated { .. } => Content::Animation,
            DisplayedModel::Video { .. } => Content::Video,
            DisplayedModel::Error { .. } => Content::ErrorMessage,
        },
{
    match viewer.displayed {
        DisplayedImage::Nothing => Content::EmptyViewport,
        DisplayedImage::Placeholder(_) => Content::Blur,
        DisplayedImage::Full { .. } => Content::Still,
        DisplayedImage::Animated { .. } => Content::Animation,
        DisplayedImage::Video { .. } => Content::Video,
        DisplayedImage::Error { .. } => Content::ErrorMessage,
    }
}

/// Decide what a window shows: chrome hides in fullscreen, spinners appear
/// after a grace period, and an open menu takes the clicks beside it.
pub fn view(win: &Window, shared: &Shared, now: Instant) -> (plan: ViewPlan)
    requires
        win@.wf(),
    ensures
        plan == plan_of(win@, shared@, now),
{
    let state = win.state.value;
    let backdrop = if state.context_menu_open {
        Backdrop::DismissContextMenu
    } else if state.open_menu.is_some() {
        Backdrop::DismissOverlay
    } else {
        Backdrop::Inert
    };
    let toolbar: bool = shared.config.value.show_toolbar && !state.fullscreen;
    match win.viewer() {
        Some(viewer) => {
            let chrome: bool = !state.fullscreen;
            let info: bool = chrome && shared.config.value.show_info;
            let footer: bool = chrome && shared.config.value.show_footer;
            let content = content(viewer);
            let target: usize = match viewer.slider_drag {
                Some(drag) => drag.target,
                None => viewer.nav.cursor(),
            };
            let bubble: Option<usize> = match viewer.slider_drag {
                Some(drag) => if drag.bubble {
                    Some(drag.target)
                } else {
                    None
                },
                None => None,
            };
            ViewPlan {
                content,
                crisp: shared.config.value.crisp_pixels && (content == Content::Still || content
                    == Content::Animation || content == Content::Video),
                dimensions: viewer.displayed.original_size(),
                toolbar,
                info_panel: info,
                info_fields: info && viewer.exif == Some(viewer.nav.current()),
                filmstrip: chrome && shared.config.value.show_filmstrip,
                slider: if chrome && shared.config.value.show_slider {
                    Some(target)
                } else {
                    None
                },
                footer,
                footer_spinner: if footer {
                    waiting(viewer, now)
                } else {
                    None
                },
                center_spinner: if content == Content::EmptyViewport {
                    waiting(viewer, now)
                } else {
                    None
                },
                bubble,
                dropdown: state.open_menu,
                context_menu: state.context_menu_open,
                backdrop,
            }
        },
        None => ViewPlan {
            content: Content::DropPrompt,
            crisp: false,
            dimensions: None,
            toolbar,
            info_panel: false,
            info_fields: false,
            filmstrip: false,
            slider: None,
            footer: false,
            footer_spinner: None,
            center_spinner: None,
            bubble: None,
            dropdown: state.open_menu,
            context_menu: state.context_menu_open,
            backdrop,
        },
    }
}

/// The parts of a title that are formatted elsewhere.
pub struct TitleParts {
    pub position: String,
    /// The zoom in whole percent.
    pub zoom_percent: u32,
    pub dimensions: String,
    pub size: String,
}

/// The window title: nothing without a viewer, the file name while the footer
/// shows the rest, and otherwise the footer's facts too. Zoom and dimensions
/// nobody knows yet are an ellipsis.
pub open spec fn title_text(w: WindowModel, s: SharedModel, parts: TitleParts) -> Seq<char> {
    match w.viewer {
        None => Seq::empty(),
        Some(v) => {
            let name = name_text(s, v.current());
            let known = v.displayed.original_size() is Some;
            if s.config.value.show_footer {
                name
            } else {
                name + "  |  "@ + parts.position@ + "  |  "@ + (if known {
                    decimal_text(parts.zoom_percent as nat) + "%"@
                } else {
                    "…"@
                }) + "  |  "@ + (if known {
                    parts.dimensions@
                } else {
                    "…"@
                }) + "  |  "@ + parts.size@
            }
        },
    }
}

/// The window title.
pub fn title(win: &Window, shared: &Shared, parts: &TitleParts) -> (title: String)
    requires
        win@.wf(),
    ensures
        title@ == title_text(win@, shared@, *parts),
{
    match win.viewer() {
        None => String::new(),
        Some(viewer) => {
            let mut title = name_of(shared, viewer.nav.current());
            if shared.config.value.show_footer {
                return title;
            }
            let known: bool = viewer.displayed.original_size().is_some();
            title.append("  |  ");
            title.append(parts.position.as_str());
            title.append("  |  ");
            if known {
                let percent = decimal(parts.zoom_percent as u64);
                title.append(percent.as_str());
                title.append("%");
            } else {
                title.append("…");
            }
            title.append("  |  ");
            if known {
                title.append(parts.dimensions.as_str());
            } else {
                title.append("…");
            }
            title.append("  |  ");
            title.append(parts.size.as_str());
            assert(title@ =~= title_text(win@, shared@, *parts));
            title
        },
    }
}

/// Nothing but an image covers the image: the centered spinner only ever shows
/// on an empty viewport, and in fullscreen there is no chrome at all.
pub proof fn law_view_keeps_clear(w: WindowModel, s: SharedModel, now: Instant)
    ensures
        plan_of(w, s, now).center_spinner is Some ==> plan_of(w, s, now).content
            is EmptyViewport,
        w.state.value.fullscreen ==> {
            let plan = plan_of(w, s, now);
            !plan.toolbar && !plan.info_panel && !plan.filmstrip && !plan.footer && plan.slider
                is None
        },
{
}

} // verus!
