//! What the user does to the view: navigating, zooming, and the toolbar.
use crate::actions::{Action, ZoomAnchor};
use crate::config::{Setting, ThemeChoice, ZoomMode};
use crate::media_tasks::{exif_fired, fire_exif, fire_rotate, rotate_fired, st, Ctx, St};
use crate::message::{ToolbarMessage, ViewerMessage};
use crate::navigation::{fire_resort, navigate, navigate_spec, needs_metadata, NavTarget};
use crate::state::{
    with_config, Direction, DisplayedImage, Held, Shared, VideoState, Viewer, ViewerModel,
};
use crate::time::{elapsed, Duration, Instant};
use crate::video_flow::{controls_shown, show_controls};
use crate::window::{wt, OpenMenu, Window, WindowState, Wt};
use vstd::prelude::*;

verus! {

/// How long an arrow key must be held before continuous scrolling begins.
pub open spec fn hold_threshold() -> Duration {
    Duration { nanos: 300_000_000 }
}

/// Whether a key has been held past the threshold.
pub open spec fn held_long(v: ViewerModel, now: Instant) -> bool {
    v.held_direction is Some && elapsed(now, v.held_direction->0.since).nanos
        >= hold_threshold().nanos
}

fn held_past(viewer: &Viewer, now: Instant) -> (yes: bool)
    ensures
        yes == held_long(viewer@, now),
{
    match viewer.held_direction {
        Some(held) => now.since(held.since).nanos >= 300_000_000,
        None => false,
    }
}

/// A navigation key pressed: the hold starts and one step is taken.
pub open spec fn step_pressed(t: St, ctx: Ctx, direction: Direction) -> St {
    navigate_spec(
        St {
            v: ViewerModel {
                held_direction: Some(Held { direction, since: ctx.now }),
                ..t.v
            },
            ..t
        },
        ctx,
        NavTarget::Delta(direction),
    )
}

/// A navigation key repeated by the system: a step only once it has been held
/// long enough, so a short press moves exactly one image.
pub open spec fn step_repeated(t: St, ctx: Ctx, direction: Direction) -> St {
    if held_long(t.v, ctx.now) {
        navigate_spec(t, ctx, NavTarget::Delta(direction))
    } else {
        t
    }
}

/// A navigation key released: its hold ends.
pub open spec fn step_released(v: ViewerModel, direction: Direction) -> ViewerModel {
    if v.held_direction is Some && v.held_direction->0.direction == direction {
        ViewerModel { held_direction: None, ..v }
    } else {
        v
    }
}

/// The pan of an image on screen kept inside it.
pub open spec fn pan_clamped(t: St) -> St {
    match t.v.displayed.original_size() {
        Some((width, height)) => t.act(Action::ClampPan { width, height }),
        None => t,
    }
}

/// A zoom by hand.
pub open spec fn zoomed(t: St, action: Action) -> St {
    pan_clamped(St { v: ViewerModel { manual_zoom: true, ..t.v }, ..t }.act(action))
}

/// The zoom chosen by the mode again, centered.
pub open spec fn zoom_reset(t: St) -> St {
    let u = St { v: ViewerModel { manual_zoom: false, ..t.v }, ..t };
    (match t.v.displayed.original_size() {
        Some((width, height)) => u.act(Action::FitZoom { width, height }),
        None => u,
    }).act(Action::ResetPan)
}

/// The mouse moved: an open video keeps its controls up, a drag pans.
pub open spec fn drag_moved(t: St, now: Instant) -> St {
    let u = St { v: controls_shown(t.v, now), ..t };
    match t.v.displayed.original_size() {
        Some((width, height)) if t.v.dragging => u.act(Action::DragPan { width, height }),
        _ => u,
    }
}

/// A still turned by quarter turns clockwise. Anything else stays.
pub open spec fn turned(t: St, turns: u8) -> St {
    if t.v.displayed is Full {
        rotate_fired(
            St {
                v: ViewerModel {
                    rotation: ((t.v.rotation + turns % 4) % 4) as u8,
                    ..t.v
                },
                ..t
            },
        )
    } else {
        t
    }
}

/// A viewer message that concerns only the viewer.
#[verifier::opaque]
pub open spec fn viewer_stepped(t: St, ctx: Ctx, msg: ViewerMessage) -> St {
    match msg {
        ViewerMessage::Next => step_pressed(t, ctx, Direction::Forward),
        ViewerMessage::Prev => step_pressed(t, ctx, Direction::Backward),
        ViewerMessage::NextRepeat => step_repeated(t, ctx, Direction::Forward),
        ViewerMessage::PrevRepeat => step_repeated(t, ctx, Direction::Backward),
        ViewerMessage::NextReleased => St { v: step_released(t.v, Direction::Forward), ..t },
        ViewerMessage::PrevReleased => St { v: step_released(t.v, Direction::Backward), ..t },
        ViewerMessage::First => navigate_spec(t, ctx, NavTarget::Index(0)),
        ViewerMessage::Last => navigate_spec(
            t,
            ctx,
            NavTarget::Index((t.v.nav.files.len() - 1) as usize),
        ),
        ViewerMessage::EdgeRepeat => match t.v.edge_held {
            Some(direction) => step_repeated(t, ctx, direction),
            None => t,
        },
        ViewerMessage::ScrollZoom(closer) => zoomed(
            t,
            Action::StepZoom { closer, about: ZoomAnchor::Cursor },
        ),
        ViewerMessage::ZoomStep(direction) => zoomed(
            t,
            Action::StepZoom { closer: direction > 0, about: ZoomAnchor::Center },
        ),
        ViewerMessage::ZoomActual => zoomed(t, Action::ActualZoom),
        ViewerMessage::ResetZoom => zoom_reset(t),
        ViewerMessage::DragStart => St { v: ViewerModel { dragging: true, ..t.v }, ..t }.act(
            Action::BeginDrag,
        ),
        ViewerMessage::DragMove => drag_moved(t, ctx.now),
        ViewerMessage::DragEnd => St { v: ViewerModel { dragging: false, ..t.v }, ..t },
        ViewerMessage::CursorLeft => St {
            v: ViewerModel {
                video: VideoState { controls_until: None, ..t.v.video },
                ..t.v
            },
            ..t
        },
        ViewerMessage::Rotate(turns) => turned(t, turns),
        _ => t,
    }
}

fn press_step(
    viewer: &mut Viewer,
    shared: &mut Shared,
    ctx: Ctx,
    direction: Direction,
    out: &mut Vec<Action>,
)
    requires
        old(viewer)@.wf(),
    ensures
        st(final(viewer)@, final(shared)@, final(out)@) == step_pressed(
            st(old(viewer)@, old(shared)@, old(out)@),
            ctx,
            direction,
        ),
        final(viewer)@.wf(),
{
    viewer.held_direction = Some(Held { direction, since: ctx.now });
    navigate(viewer, shared, ctx, NavTarget::Delta(direction), out);
}

fn repeat_step(
    viewer: &mut Viewer,
    shared: &mut Shared,
    ctx: Ctx,
    direction: Direction,
    out: &mut Vec<Action>,
)
    requires
        old(viewer)@.wf(),
    ensures
        st(final(viewer)@, final(shared)@, final(out)@) == step_repeated(
            st(old(viewer)@, old(shared)@, old(out)@),
            ctx,
            direction,
        ),
        final(viewer)@.wf(),
{
    if held_past(viewer, ctx.now) {
        navigate(viewer, shared, ctx, NavTarget::Delta(direction), out);
    }
}

fn release_step(viewer: &mut Viewer, direction: Direction)
    requires
        old(viewer)@.wf(),
    ensures
        final(viewer)@ == step_released(old(viewer)@, direction),
        final(viewer)@.wf(),
{
    match viewer.held_direction {
        Some(held) => {
            if held.direction == direction {
                viewer.held_direction = None;
            }
        },
        None => {},
    }
}

fn zoom_by_hand(viewer: &mut Viewer, shared: &Shared, action: Action, out: &mut Vec<Action>)
    requires
        old(viewer)@.wf(),
    ensures
        st(final(viewer)@, shared@, final(out)@) == zoomed(
            st(old(viewer)@, shared@, old(out)@),
            action,
        ),
        final(viewer)@.wf(),
{
    viewer.manual_zoom = true;
    out.push(action);
    match viewer.displayed.original_size() {
        Some((width, height)) => {
            out.push(Action::ClampPan { width, height });
        },
        None => {},
    }
}

fn reset_zoom(viewer: &mut Viewer, shared: &Shared, out: &mut Vec<Action>)
    requires
        old(viewer)@.wf(),
    ensures
        st(final(viewer)@, shared@, final(out)@) == zoom_reset(
            st(old(viewer)@, shared@, old(out)@),
        ),
        final(viewer)@.wf(),
{
    viewer.manual_zoom = false;
    match viewer.displayed.original_size() {
        Some((width, height)) => {
            out.push(Action::FitZoom { width, height });
        },
        None => {},
    }
    out.push(Action::ResetPan);
}

fn move_drag(viewer: &mut Viewer, shared: &Shared, now: Instant, out: &mut Vec<Action>)
    requires
        old(viewer)@.wf(),
    ensures
        st(final(viewer)@, shared@, final(out)@) == drag_moved(
            st(old(viewer)@, shared@, old(out)@),
            now,
        ),
        final(viewer)@.wf(),
{
    let size = viewer.displayed.original_size();
    let dragging: bool = viewer.dragging;
    show_controls(viewer, now);
    match size {
        Some((width, height)) => {
            if dragging {
                out.push(Action::DragPan { width, height });
            }
        },
        None => {},
    }
}

fn turn(viewer: &mut Viewer, shared: &Shared, turns: u8, out: &mut Vec<Action>)
    requires
        old(viewer)@.wf(),
    ensures
        st(final(viewer)@, shared@, final(out)@) == turned(
            st(old(viewer)@, shared@, old(out)@),
            turns,
        ),
        final(viewer)@.wf(),
{
    let full: bool = match viewer.displayed {
        DisplayedImage::Full { .. } => true,
        _ => false,
    };
    if full {
        viewer.rotation = (viewer.rotation + turns % 4) % 4;
        fire_rotate(viewer, shared, out);
    }
}

/// Handle a message that concerns only the viewer.
pub fn update_viewer(
    viewer: &mut Viewer,
    shared: &mut Shared,
    ctx: Ctx,
    msg: ViewerMessage,
    out: &mut Vec<Action>,
)
    requires
        old(viewer)@.wf(),
    ensures
        st(final(viewer)@, final(shared)@, final(out)@) == viewer_stepped(
            st(old(viewer)@, old(shared)@, old(out)@),
            ctx,
            msg,
        ),
        final(viewer)@.wf(),
{
    proof {
        reveal(viewer_stepped);
    }
    match msg {
        ViewerMessage::Next => press_step(viewer, shared, ctx, Direction::Forward, out),
        ViewerMessage::Prev => press_step(viewer, shared, ctx, Direction::Backward, out),
        ViewerMessage::NextRepeat => repeat_step(viewer, shared, ctx, Direction::Forward, out),
        ViewerMessage::PrevRepeat => repeat_step(viewer, shared, ctx, Direction::Backward, out),
        ViewerMessage::NextReleased => release_step(viewer, Direction::Forward),
        ViewerMessage::PrevReleased => release_step(viewer, Direction::Backward),
        ViewerMessage::First => navigate(viewer, shared, ctx, NavTarget::Index(0), out),
        ViewerMessage::Last => {
            let last: usize = viewer.nav.len() - 1;
            navigate(viewer, shared, ctx, NavTarget::Index(last), out);
        },
        ViewerMessage::EdgeRepeat => match viewer.edge_held {
            Some(direction) => repeat_step(viewer, shared, ctx, direction, out),
            None => {},
        },
        ViewerMessage::ScrollZoom(closer) => zoom_by_hand(
            viewer,
            shared,
            Action::StepZoom { closer, about: ZoomAnchor::Cursor },
            out,
        ),
        ViewerMessage::ZoomStep(direction) => zoom_by_hand(
            viewer,
            shared,
            Action::StepZoom { closer: direction > 0, about: ZoomAnchor::Center },
            out,
        ),
        ViewerMessage::ZoomActual => zoom_by_hand(viewer, shared, Action::ActualZoom, out),
        ViewerMessage::ResetZoom => reset_zoom(viewer, shared, out),
        ViewerMessage::DragStart => {
            viewer.dragging = true;
            out.push(Action::BeginDrag);
        },
        ViewerMessage::DragMove => move_drag(viewer, shared, ctx.now, out),
        ViewerMessage::DragEnd => {
            viewer.dragging = false;
        },
        ViewerMessage::CursorLeft => {
            viewer.video.controls_until = None;
        },
        ViewerMessage::Rotate(turns) => turn(viewer, shared, turns, out),
        _ => {},
    }
}

/// One setting changed.
pub open spec fn configured(t: Wt, setting: Setting) -> Wt {
    Wt { s: with_config(t.s, setting), ..t }
}

/// Fullscreen entered or left.
pub open spec fn fullscreen_toggled(t: Wt) -> Wt {
    let on = !t.w.state.value.fullscreen;
    t.with_state(WindowState { fullscreen: on, ..t.w.state.value }).act(
        Action::RecalcViewport,
    ).act(Action::SetFullscreen { on })
}

/// The escape key: closes the dialog, else the help, else fullscreen, else the
/// menus.
pub open spec fn escaped(t: Wt) -> Wt {
    let state = t.w.state.value;
    if t.w.modal is Some {
        t.with_modal(None)
    } else if state.help_open {
        t.with_state(WindowState { help_open: false, ..state })
    } else if state.fullscreen {
        fullscreen_toggled(t)
    } else {
        t.with_state(WindowState { open_menu: None, context_menu_open: false, ..state })
    }
}

/// The info panel shown or hidden; shown, it fetches its fields.
#[verifier::opaque]
pub open spec fn info_toggled(t: Wt) -> Wt {
    let on = !t.s.config.value.show_info;
    let u = configured(t, Setting::ShowInfo(on)).act(
        Action::RecalcViewport,
    ).act(Action::SaveConfig);
    if on && t.w.viewer is Some {
        u.with_inner(exif_fired(u.inner()))
    } else {
        u
    }
}

/// Any viewer message.
pub open spec fn viewer_message(t: Wt, ctx: Ctx, msg: ViewerMessage) -> Wt {
    let state = t.w.state.value;
    match msg {
        ViewerMessage::ToggleFullscreen => fullscreen_toggled(t),
        ViewerMessage::Escape => escaped(t),
        ViewerMessage::ToggleInfo => info_toggled(t),
        ViewerMessage::ToggleCheckerboard => configured(
            t,
            Setting::ShowCheckerboard(!t.s.config.value.show_checkerboard),
        ).act(Action::SaveConfig),
        ViewerMessage::ToggleHelp => t.with_state(
            WindowState { help_open: !state.help_open, ..state },
        ),
        ViewerMessage::CloseZoomSlider => t.with_state(
            WindowState { zoom_slider_open: false, ..state },
        ),
        _ => if t.w.viewer is Some {
            t.with_inner(viewer_stepped(t.inner(), ctx, msg))
        } else {
            t
        },
    }
}

fn toggle_fullscreen(win: &mut Window, shared: &Shared, out: &mut Vec<Action>)
    requires
        old(win)@.wf(),
    ensures
        wt(final(win)@, shared@, final(out)@) == fullscreen_toggled(
            wt(old(win)@, shared@, old(out)@),
        ),
        final(win)@.wf(),
{
    let on: bool = !win.state.value.fullscreen;
    win.set_state(WindowState { fullscreen: on, ..win.state.value });
    out.push(Action::RecalcViewport);
    out.push(Action::SetFullscreen { on });
}

fn escape(win: &mut Window, shared: &Shared, out: &mut Vec<Action>)
    requires
        old(win)@.wf(),
    ensures
        wt(final(win)@, shared@, final(out)@) == escaped(wt(old(win)@, shared@, old(out)@)),
        final(win)@.wf(),
{
    if win.modal.is_some() {
        win.modal = None;
    } else if win.state.value.help_open {
        win.set_state(WindowState { help_open: false, ..win.state.value });
    } else if win.state.value.fullscreen {
        toggle_fullscreen(win, shared, out);
    } else {
        win.set_state(
            WindowState { open_menu: None, context_menu_open: false, ..win.state.value },
        );
    }
}

fn toggle_info(win: &mut Window, shared: &mut Shared, out: &mut Vec<Action>)
    requires
        old(win)@.wf(),
    ensures
        wt(final(win)@, final(shared)@, final(out)@) == info_toggled(
            wt(old(win)@, old(shared)@, old(out)@),
        ),
        final(win)@.wf(),
{
    proof {
        reveal(info_toggled);
    }
    let on: bool = !shared.config.value.show_info;
    shared.set(Setting::ShowInfo(on));
    out.push(Action::RecalcViewport);
    out.push(Action::SaveConfig);
    if on {
        match win.viewer_mut() {
            Some(viewer) => {
                let ghost u = st(viewer@, shared@, out@);
                fire_exif(viewer, out);
                assert(st(viewer@, shared@, out@) == exif_fired(u));
                proof {
                    crate::media_tasks::lemma_exif_frame(u);
                }
            },
            None => {},
        }
    }
}

/// Handle a viewer message.
pub fn update_viewer_message(
    win: &mut Window,
    shared: &mut Shared,
    ctx: Ctx,
    msg: ViewerMessage,
    out: &mut Vec<Action>,
)
    requires
        old(win)@.wf(),
    ensures
        wt(final(win)@, final(shared)@, final(out)@) == viewer_message(
            wt(old(win)@, old(shared)@, old(out)@),
            ctx,
            msg,
        ),
        final(win)@.wf(),
{
    match msg {
        ViewerMessage::ToggleFullscreen => toggle_fullscreen(win, shared, out),
        ViewerMessage::Escape => escape(win, shared, out),
        ViewerMessage::ToggleInfo => toggle_info(win, shared, out),
        ViewerMessage::ToggleCheckerboard => {
            let on: bool = !shared.config.value.show_checkerboard;
            shared.set(Setting::ShowCheckerboard(on));
            out.push(Action::SaveConfig);
        },
        ViewerMessage::ToggleHelp => {
            let on: bool = !win.state.value.help_open;
            win.set_state(WindowState { help_open: on, ..win.state.value });
        },
        ViewerMessage::CloseZoomSlider => {
            win.set_state(WindowState { zoom_slider_open: false, ..win.state.value });
        },
        _ => match win.viewer_mut() {
            Some(viewer) => {
                update_viewer(viewer, shared, ctx, msg, out);
            },
            None => {},
        },
    }
}

/// The dropdown `menu` opened, or closed if it was the open one.
pub open spec fn menu_toggled(t: Wt, menu: OpenMenu) -> Wt {
    t.with_state(
        WindowState {
            open_menu: if t.w.state.value.open_menu == Some(menu) {
                None
            } else {
                Some(menu)
            },
            ..t.w.state.value
        },
    )
}

fn toggle_menu(win: &mut Window, shared: &Shared, menu: OpenMenu, out: &Vec<Action>)
    requires
        old(win)@.wf(),
    ensures
        wt(final(win)@, shared@, out@) == menu_toggled(wt(old(win)@, shared@, out@), menu),
        final(win)@.wf(),
{
    let open_menu: Option<OpenMenu> = if win.state.value.open_menu == Some(menu) {
        None
    } else {
        Some(menu)
    };
    win.set_state(WindowState { open_menu, ..win.state.value });
}

/// A layout change saved and the viewport measured again.
pub open spec fn relaid_out(t: Wt, setting: Setting) -> Wt {
    configured(t, setting).act(Action::RecalcViewport).act(Action::SaveConfig)
}

fn relay_out(win: &Window, shared: &mut Shared, setting: Setting, out: &mut Vec<Action>)
    ensures
        wt(win@, final(shared)@, final(out)@) == relaid_out(
            wt(win@, old(shared)@, old(out)@),
            setting,
        ),
{
    shared.set(setting);
    out.push(Action::RecalcViewport);
    out.push(Action::SaveConfig);
}

/// A new sort saved and applied to what is open.
pub open spec fn sort_changed(t: Wt, setting: Setting) -> Wt {
    let saved = configured(t, setting).act(Action::SaveConfig);
    if t.w.viewer is Some {
        saved.act(
            Action::Resort { needs_metadata: needs_metadata(saved.s.config.value.sort_key) },
        )
    } else {
        saved
    }
}

fn change_sort(win: &Window, shared: &mut Shared, setting: Setting, out: &mut Vec<Action>)
    ensures
        wt(win@, final(shared)@, final(out)@) == sort_changed(
            wt(win@, old(shared)@, old(out)@),
            setting,
        ),
{
    shared.set(setting);
    out.push(Action::SaveConfig);
    if win.viewer().is_some() {
        fire_resort(&shared.config.value, out);
    }
}

/// The zoom chosen by a new mode, the pan kept inside the image.
pub open spec fn mode_applied(t: St) -> St {
    let u = St { v: ViewerModel { manual_zoom: false, ..t.v }, ..t };
    match t.v.displayed.original_size() {
        Some((width, height)) => u.act(Action::FitZoom { width, height }).act(
            Action::ClampPan { width, height },
        ),
        None => u,
    }
}

fn apply_mode(viewer: &mut Viewer, shared: &Shared, out: &mut Vec<Action>)
    requires
        old(viewer)@.wf(),
    ensures
        st(final(viewer)@, shared@, final(out)@) == mode_applied(
            st(old(viewer)@, shared@, old(out)@),
        ),
        final(viewer)@.wf(),
{
    viewer.manual_zoom = false;
    match viewer.displayed.original_size() {
        Some((width, height)) => {
            out.push(Action::FitZoom { width, height });
            out.push(Action::ClampPan { width, height });
        },
        None => {},
    }
}

/// A zoom mode chosen.
#[verifier::opaque]
pub open spec fn zoom_mode_set(t: Wt, mode: ZoomMode) -> Wt {
    let u = configured(
        t.with_state(WindowState { open_menu: None, ..t.w.state.value }),
        Setting::ZoomMode(mode),
    );
    (if t.w.viewer is Some {
        u.with_inner(mode_applied(u.inner()))
    } else {
        u
    }).act(Action::SaveConfig)
}

fn set_zoom_mode(win: &mut Window, shared: &mut Shared, mode: ZoomMode, out: &mut Vec<Action>)
    requires
        old(win)@.wf(),
    ensures
        wt(final(win)@, final(shared)@, final(out)@) == zoom_mode_set(
            wt(old(win)@, old(shared)@, old(out)@),
            mode,
        ),
        final(win)@.wf(),
{
    proof {
        reveal(zoom_mode_set);
    }
    win.set_state(WindowState { open_menu: None, ..win.state.value });
    shared.set(Setting::ZoomMode(mode));
    match win.viewer_mut() {
        Some(viewer) => {
            apply_mode(viewer, shared, out);
        },
        None => {},
    }
    out.push(Action::SaveConfig);
}

/// Any toolbar message.
#[verifier::opaque]
pub open spec fn toolbar_message(t: Wt, msg: ToolbarMessage) -> Wt {
    let state = t.w.state.value;
    let config = t.s.config.value;
    match msg {
        ToolbarMessage::ToggleFileMenu => menu_toggled(t, OpenMenu::File),
        ToolbarMessage::ToggleZoomMenu => menu_toggled(t, OpenMenu::Zoom),
        ToolbarMessage::ToggleLayoutMenu => menu_toggled(t, OpenMenu::Layout),
        ToolbarMessage::ToggleSortMenu => menu_toggled(t, OpenMenu::Sort),
        ToolbarMessage::DismissOverlay => t.with_state(WindowState { open_menu: None, ..state }),
        ToolbarMessage::SetSortKey(sort_key) => sort_changed(
            t.with_state(WindowState { open_menu: None, ..state }),
            Setting::SortKey(sort_key),
        ),
        ToolbarMessage::ToggleSortDirection => sort_changed(
            t,
            Setting::SortDesc(!config.sort_desc),
        ),
        ToolbarMessage::SetZoomMode(mode) => zoom_mode_set(t, mode),
        ToolbarMessage::ToggleFilmstrip => relaid_out(
            t,
            Setting::ShowFilmstrip(!config.show_filmstrip),
        ),
        ToolbarMessage::ToggleSlider => relaid_out(
            t,
            Setting::ShowSlider(!config.show_slider),
        ),
        ToolbarMessage::ToggleFooter => relaid_out(
            t,
            Setting::ShowFooter(!config.show_footer),
        ),
        ToolbarMessage::ToggleToolbar => relaid_out(
            t.with_state(WindowState { context_menu_open: false, ..state }),
            Setting::ShowToolbar(!config.show_toolbar),
        ),
        ToolbarMessage::ToggleTheme => configured(
            t,
            Setting::Theme(
                match config.theme {
                    ThemeChoice::Dark => ThemeChoice::Light,
                    ThemeChoice::Light => ThemeChoice::Dark,
                },
            ),
        ).act(Action::SaveConfig),
    }
}

/// Handle a toolbar message.
pub fn update_toolbar(
    win: &mut Window,
    shared: &mut Shared,
    msg: ToolbarMessage,
    out: &mut Vec<Action>,
)
    requires
        old(win)@.wf(),
    ensures
        wt(final(win)@, final(shared)@, final(out)@) == toolbar_message(
            wt(old(win)@, old(shared)@, old(out)@),
            msg,
        ),
        final(win)@.wf(),
{
    proof {
        reveal(toolbar_message);
    }
    match msg {
        ToolbarMessage::ToggleFileMenu => toggle_menu(win, shared, OpenMenu::File, out),
        ToolbarMessage::ToggleZoomMenu => toggle_menu(win, shared, OpenMenu::Zoom, out),
        ToolbarMessage::ToggleLayoutMenu => toggle_menu(win, shared, OpenMenu::Layout, out),
        ToolbarMessage::ToggleSortMenu => toggle_menu(win, shared, OpenMenu::Sort, out),
        ToolbarMessage::DismissOverlay => {
            win.set_state(WindowState { open_menu: None, ..win.state.value });
        },
        ToolbarMessage::SetSortKey(key) => {
            win.set_state(WindowState { open_menu: None, ..win.state.value });
            change_sort(win, shared, Setting::SortKey(key), out);
        },
        ToolbarMessage::ToggleSortDirection => {
            let desc: bool = !shared.config.value.sort_desc;
            change_sort(win, shared, Setting::SortDesc(desc), out);
        },
        ToolbarMessage::SetZoomMode(mode) => set_zoom_mode(win, shared, mode, out),
        ToolbarMessage::ToggleFilmstrip => {
            let on: bool = !shared.config.value.show_filmstrip;
            relay_out(win, shared, Setting::ShowFilmstrip(on), out);
        },
        ToolbarMessage::ToggleSlider => {
            let on: bool = !shared.config.value.show_slider;
            relay_out(win, shared, Setting::ShowSlider(on), out);
        },
        ToolbarMessage::ToggleFooter => {
            let on: bool = !shared.config.value.show_footer;
            relay_out(win, shared, Setting::ShowFooter(on), out);
        },
        ToolbarMessage::ToggleToolbar => {
            win.set_state(WindowState { context_menu_open: false, ..win.state.value });
            let on: bool = !shared.config.value.show_toolbar;
            relay_out(win, shared, Setting::ShowToolbar(on), out);
        },
        ToolbarMessage::ToggleTheme => {
            let theme = match shared.config.value.theme {
                ThemeChoice::Dark => ThemeChoice::Light,
                ThemeChoice::Light => ThemeChoice::Dark,
            };
            shared.set(Setting::Theme(theme));
            out.push(Action::SaveConfig);
        },
    }
}

} // verus!
