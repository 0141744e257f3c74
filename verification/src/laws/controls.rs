//! What the keys, the pointer and the toolbar do to a window.
use crate::actions::{Action, ZoomAnchor};
use crate::components::{info_toggled, toolbar_message, viewer_stepped, zoom_mode_set};
use crate::config::{with_setting, Config, Setting, SortKey, ThemeChoice, ZoomMode};
use crate::dispatch::{dispatched, transient_dismissed};
use crate::media_tasks::{exif_fired, rotate_fired, Ctx};
use crate::message::{FilmstripMessage, Message, ModalMessage, ToolbarMessage, ViewerMessage};
use crate::panels::strip_message;
use crate::state::{
    lemma_with_config, with_config, DisplayedModel, SharedModel, VideoState, ViewerModel,
};
use crate::time::Instant;
use crate::window::{OpenMenu, Wt};
use vstd::prelude::*;

verus! {

/// Whether `before` takes `msg` from its keys or pointer, with a viewer open and
/// no dialog up.
pub open spec fn steered(before: Wt, after: Wt, ctx: Ctx, msg: ViewerMessage) -> bool {
    &&& dispatched(before, after, ctx, Message::Viewer(msg))
    &&& before.w.modal is None
    &&& before.w.viewer is Some
}

/// The size of the picture on screen, where there is one.
pub open spec fn picture_size(displayed: DisplayedModel) -> Option<(u32, u32)> {
    match displayed {
        DisplayedModel::Placeholder(thumb) => Some(thumb.original_size),
        DisplayedModel::Full { original_size, .. } => Some(original_size),
        DisplayedModel::Animated { original_size } => Some(original_size),
        DisplayedModel::Video { original_size } => Some(original_size),
        _ => None,
    }
}

/// A turn adds its quarters to the rotation of a still, around the circle, and
/// has the original pixels turned by the sum wherever that is not what is on
/// screen. Anything but a still is not turned.
pub proof fn law_turns_accumulate(before: Wt, after: Wt, ctx: Ctx, turns: u8)
    requires
        steered(before, after, ctx, ViewerMessage::Rotate(turns)),
        before.w.viewer->0.rotation < 4,
    ensures
        ({
            let v = before.w.viewer->0;
            let sum = ((v.rotation + turns) % 4) as u8;
            &&& after.s == before.s
            &&& v.displayed is Full ==> {
                &&& after.w.viewer == Some(ViewerModel { rotation: sum, ..v })
                &&& after.out == if sum != v.displayed_rotation && before.s.store.ram(
                    v.current(),
                ) is Some {
                    before.out.push(Action::Rotate { file: v.current(), turns: sum })
                } else {
                    before.out
                }
            }
            &&& !(v.displayed is Full) ==> after.w.viewer == before.w.viewer && after.out
                == before.out
        }),
{
    reveal(viewer_stepped);
    reveal(rotate_fired);
}

/// A turn and its opposite leave the rotation as it was.
pub proof fn law_opposite_turns_cancel(
    before: Wt,
    between: Wt,
    after: Wt,
    ctx: Ctx,
    later: Ctx,
    turns: u8,
)
    requires
        steered(before, between, ctx, ViewerMessage::Rotate(turns)),
        steered(between, after, later, ViewerMessage::Rotate((4 - turns) as u8)),
        turns <= 4,
        before.w.viewer->0.rotation < 4,
    ensures
        after.w.viewer == before.w.viewer,
{
    law_turns_accumulate(before, between, ctx, turns);
    if before.w.viewer->0.displayed is Full {
        law_turns_accumulate(between, after, later, (4 - turns) as u8);
    } else {
        reveal(viewer_stepped);
    }
}

/// The zoom a message asks for.
pub open spec fn zoom_asked(msg: ViewerMessage) -> Option<Action> {
    match msg {
        ViewerMessage::ScrollZoom(closer) => Some(
            Action::StepZoom { closer, about: ZoomAnchor::Cursor },
        ),
        ViewerMessage::ZoomStep(direction) => Some(
            Action::StepZoom { closer: direction > 0, about: ZoomAnchor::Center },
        ),
        ViewerMessage::ZoomActual => Some(Action::ActualZoom),
        _ => None,
    }
}

/// A zoom by hand is carried out and marked as one, with the picture kept from
/// scrolling past its edges.
pub proof fn law_zoom_by_hand_is_marked(
    before: Wt,
    after: Wt,
    ctx: Ctx,
    msg: ViewerMessage,
    action: Action,
)
    requires
        steered(before, after, ctx, msg),
        zoom_asked(msg) == Some(action),
    ensures
        ({
            let v = before.w.viewer->0;
            &&& after.s == before.s
            &&& after.w.viewer == Some(ViewerModel { manual_zoom: true, ..v })
            &&& after.out == match picture_size(v.displayed) {
                Some((width, height)) => before.out.push(action).push(
                    Action::ClampPan { width, height },
                ),
                None => before.out.push(action),
            }
        }),
{
    reveal(viewer_stepped);
}

/// A reset of the zoom goes back to the fit, in the middle, and is none by hand.
pub proof fn law_zoom_reset_fits(before: Wt, after: Wt, ctx: Ctx)
    requires
        steered(before, after, ctx, ViewerMessage::ResetZoom),
    ensures
        ({
            let v = before.w.viewer->0;
            &&& after.s == before.s
            &&& after.w.viewer == Some(ViewerModel { manual_zoom: false, ..v })
            &&& after.out == match picture_size(v.displayed) {
                Some((width, height)) => before.out.push(
                    Action::FitZoom { width, height },
                ).push(Action::ResetPan),
                None => before.out.push(Action::ResetPan),
            }
        }),
{
    reveal(viewer_stepped);
}

/// A drag begins at the press, pans with the pointer while it lasts, and ends
/// at the release.
pub proof fn law_drag_lasts_from_press_to_release(
    before: Wt,
    pressed: Wt,
    released: Wt,
    ctx: Ctx,
)
    requires
        steered(before, pressed, ctx, ViewerMessage::DragStart),
        steered(before, released, ctx, ViewerMessage::DragEnd),
    ensures
        pressed.w.viewer == Some(ViewerModel { dragging: true, ..before.w.viewer->0 }),
        pressed.out == before.out.push(Action::BeginDrag),
        pressed.s == before.s,
        released.w.viewer == Some(ViewerModel { dragging: false, ..before.w.viewer->0 }),
        released.out == before.out,
        released.s == before.s,
{
    reveal(viewer_stepped);
}

/// A move of the pointer pans a picture that is being dragged, and brings the
/// controls of an open video up for two and a half seconds.
pub proof fn law_pointer_pans_only_while_dragging(before: Wt, after: Wt, ctx: Ctx)
    requires
        steered(before, after, ctx, ViewerMessage::DragMove),
        ctx.now.nanos <= u128::MAX - 2_500_000_000,
    ensures
        ({
            let v = before.w.viewer->0;
            let until = Instant { nanos: (ctx.now.nanos + 2_500_000_000) as u128 };
            &&& after.s == before.s
            &&& after.w.viewer == Some(
                if v.video.session is Some {
                    ViewerModel {
                        video: VideoState { controls_until: Some(until), ..v.video },
                        ..v
                    }
                } else {
                    v
                },
            )
            &&& after.out == match picture_size(v.displayed) {
                Some((width, height)) => if v.dragging {
                    before.out.push(Action::DragPan { width, height })
                } else {
                    before.out
                },
                None => before.out,
            }
        }),
{
    reveal(viewer_stepped);
}

/// A pointer that leaves takes the controls down at once.
pub proof fn law_leaving_pointer_hides_the_controls(before: Wt, after: Wt, ctx: Ctx)
    requires
        steered(before, after, ctx, ViewerMessage::CursorLeft),
    ensures
        after.s == before.s,
        after.out == before.out,
        after.w.viewer->0.video.controls_until is None,
        after.w.viewer == Some(
            ViewerModel {
                video: VideoState { controls_until: None, ..before.w.viewer->0.video },
                ..before.w.viewer->0
            },
        ),
{
    reveal(viewer_stepped);
}

/// Fullscreen goes on and off again, and the program is told which.
pub proof fn law_fullscreen_alternates(
    before: Wt,
    once: Wt,
    twice: Wt,
    ctx: Ctx,
    later: Ctx,
)
    requires
        steered(before, once, ctx, ViewerMessage::ToggleFullscreen),
        steered(once, twice, later, ViewerMessage::ToggleFullscreen),
    ensures
        once.w.state.value.fullscreen == !before.w.state.value.fullscreen,
        twice.w.state.value.fullscreen == before.w.state.value.fullscreen,
        once.w.viewer == before.w.viewer,
        once.s == before.s,
        once.out == before.out.push(Action::RecalcViewport).push(
            Action::SetFullscreen { on: !before.w.state.value.fullscreen },
        ),
{
}

/// Escape closes one thing: a dialog if there is one, else the help, else
/// fullscreen, else the menus.
pub proof fn law_escape_closes_one_thing(before: Wt, after: Wt, ctx: Ctx)
    requires
        dispatched(before, after, ctx, Message::Viewer(ViewerMessage::Escape)),
    ensures
        after.w.modal is None,
        after.w.viewer == before.w.viewer,
        after.s == before.s,
        ({
            let state = before.w.state.value;
            let now = after.w.state.value;
            if before.w.modal is Some {
                now.help_open == state.help_open && now.fullscreen == state.fullscreen
                    && after.out == before.out
            } else if state.help_open {
                !now.help_open && now.fullscreen == state.fullscreen && after.out == before.out
            } else if state.fullscreen {
                !now.fullscreen && !now.help_open && after.out == before.out.push(
                    Action::RecalcViewport,
                ).push(Action::SetFullscreen { on: false })
            } else {
                now.open_menu is None && !now.context_menu_open && !now.fullscreen
                    && !now.help_open && after.out == before.out
            }
        }),
{
}

/// The help goes up and down again; the zoom popup only down.
pub proof fn law_help_alternates(before: Wt, helped: Wt, closed: Wt, ctx: Ctx)
    requires
        steered(before, helped, ctx, ViewerMessage::ToggleHelp),
        steered(before, closed, ctx, ViewerMessage::CloseZoomSlider),
    ensures
        helped.w.state.value.help_open == !before.w.state.value.help_open,
        helped.w.state.value.fullscreen == before.w.state.value.fullscreen,
        helped.w.viewer == before.w.viewer,
        helped.s == before.s,
        helped.out == before.out,
        !closed.w.state.value.zoom_slider_open,
        closed.w.state.value.help_open == before.w.state.value.help_open,
        closed.w.viewer == before.w.viewer,
        closed.s == before.s,
        closed.out == before.out,
{
}

/// The information panel goes on and off, is remembered, and has the metadata
/// of the current file read when it comes on, unless it has been.
pub proof fn law_information_panel_reads_metadata(before: Wt, after: Wt, ctx: Ctx)
    requires
        steered(before, after, ctx, ViewerMessage::ToggleInfo),
    ensures
        ({
            let v = before.w.viewer->0;
            let on = !before.s.config.value.show_info;
            let saved = before.out.push(Action::RecalcViewport).push(Action::SaveConfig);
            let reads = on && v.exif != Some(v.current());
            &&& after.s.config.value == (Config { show_info: on, ..before.s.config.value })
            &&& after.w.viewer == Some(
                ViewerModel {
                    exif: if reads {
                        None
                    } else {
                        v.exif
                    },
                    ..v
                },
            )
            &&& after.out == if reads {
                saved.push(Action::LoadExif { file: v.current() })
            } else {
                saved
            }
        }),
{
    reveal(info_toggled);
    reveal(exif_fired);
    let on = !before.s.config.value.show_info;
    lemma_with_config(before.s, Setting::ShowInfo(on));
    assert(with_setting(before.s.config.value, Setting::ShowInfo(on)) == (Config {
        show_info: on,
        ..before.s.config.value
    })) by {
        reveal(with_setting);
    }
}

/// The checkerboard goes on and off and is remembered.
pub proof fn law_checkerboard_alternates(before: Wt, after: Wt, ctx: Ctx)
    requires
        steered(before, after, ctx, ViewerMessage::ToggleCheckerboard),
    ensures
        after.s.config.value == (Config {
            show_checkerboard: !before.s.config.value.show_checkerboard,
            ..before.s.config.value
        }),
        after.w.viewer == before.w.viewer,
        after.out == before.out.push(Action::SaveConfig),
{
    let on = !before.s.config.value.show_checkerboard;
    lemma_with_config(before.s, Setting::ShowCheckerboard(on));
    assert(with_setting(before.s.config.value, Setting::ShowCheckerboard(on)) == (Config {
        show_checkerboard: on,
        ..before.s.config.value
    })) by {
        reveal(with_setting);
    }
}

/// The menu a toolbar button opens.
pub open spec fn menu_of(msg: ToolbarMessage) -> Option<OpenMenu> {
    match msg {
        ToolbarMessage::ToggleFileMenu => Some(OpenMenu::File),
        ToolbarMessage::ToggleZoomMenu => Some(OpenMenu::Zoom),
        ToolbarMessage::ToggleLayoutMenu => Some(OpenMenu::Layout),
        ToolbarMessage::ToggleSortMenu => Some(OpenMenu::Sort),
        _ => None,
    }
}

/// A menu button opens its menu in place of any other, and closes it if it is
/// the one that is open.
pub proof fn law_one_menu_is_open_at_a_time(
    before: Wt,
    after: Wt,
    ctx: Ctx,
    msg: ToolbarMessage,
    menu: OpenMenu,
)
    requires
        dispatched(before, after, ctx, Message::Toolbar(msg)),
        menu_of(msg) == Some(menu),
    ensures
        after.w.state.value.open_menu == if before.w.state.value.open_menu == Some(menu) {
            None
        } else {
            Some(menu)
        },
        after.w.viewer == before.w.viewer,
        after.s == before.s,
        after.out == before.out,
{
    reveal(toolbar_message);
}

/// What the settings are after a toolbar button that changes one of them.
pub open spec fn retooled(config: Config, msg: ToolbarMessage) -> Option<Config> {
    match msg {
        ToolbarMessage::SetSortKey(key) => Some(Config { sort_key: key, ..config }),
        ToolbarMessage::ToggleSortDirection => Some(
            Config { sort_desc: !config.sort_desc, ..config },
        ),
        ToolbarMessage::SetZoomMode(mode) => Some(Config { zoom_mode: mode, ..config }),
        ToolbarMessage::ToggleFilmstrip => Some(
            Config { show_filmstrip: !config.show_filmstrip, ..config },
        ),
        ToolbarMessage::ToggleSlider => Some(
            Config { show_slider: !config.show_slider, ..config },
        ),
        ToolbarMessage::ToggleFooter => Some(
            Config { show_footer: !config.show_footer, ..config },
        ),
        ToolbarMessage::ToggleToolbar => Some(
            Config { show_toolbar: !config.show_toolbar, ..config },
        ),
        ToolbarMessage::ToggleTheme => Some(
            Config {
                theme: if config.theme == ThemeChoice::Dark {
                    ThemeChoice::Light
                } else {
                    ThemeChoice::Dark
                },
                ..config
            },
        ),
        _ => None,
    }
}

/// What a toolbar button has the program do: whatever it changes is saved; a
/// change of the layout is laid out, a change of the order sorts an open
/// listing, and a zoom mode fits the picture on screen.
pub open spec fn tool_actions(before: Wt, config: Config, msg: ToolbarMessage) -> Seq<Action> {
    let sort = Action::Resort {
        needs_metadata: config.sort_key == SortKey::DateModified || config.sort_key
            == SortKey::Size,
    };
    match msg {
        ToolbarMessage::SetSortKey(_) | ToolbarMessage::ToggleSortDirection =>
            if before.w.viewer is Some {
                seq![Action::SaveConfig, sort]
            } else {
                seq![Action::SaveConfig]
            },
        ToolbarMessage::SetZoomMode(_) => if before.w.viewer is Some {
            match picture_size(before.w.viewer->0.displayed) {
                Some((width, height)) => seq![
                    Action::FitZoom { width, height },
                    Action::ClampPan { width, height },
                    Action::SaveConfig,
                ],
                None => seq![Action::SaveConfig],
            }
        } else {
            seq![Action::SaveConfig]
        },
        ToolbarMessage::ToggleTheme => seq![Action::SaveConfig],
        _ => seq![Action::RecalcViewport, Action::SaveConfig],
    }
}

/// Every toolbar button that changes a setting changes that one, saves it, and
/// has done what makes the change show. A zoom mode takes the place of a zoom by
/// hand; nothing else of the viewer changes.
pub proof fn law_toolbar_changes_one_setting(
    before: Wt,
    after: Wt,
    ctx: Ctx,
    msg: ToolbarMessage,
)
    requires
        dispatched(before, after, ctx, Message::Toolbar(msg)),
        before.w.modal is None,
        retooled(before.s.config.value, msg) is Some,
    ensures
        after.s.config.value == retooled(before.s.config.value, msg)->0,
        after.out == before.out + tool_actions(before, after.s.config.value, msg),
        after.w.viewer is Some <==> before.w.viewer is Some,
        after.w.viewer is Some ==> after.w.viewer->0 == (ViewerModel {
            manual_zoom: before.w.viewer->0.manual_zoom && !(msg is SetZoomMode),
            ..before.w.viewer->0
        }),
        msg is SetSortKey || msg is SetZoomMode ==> after.w.state.value.open_menu is None,
        msg is ToggleToolbar ==> !after.w.state.value.context_menu_open,
{
    reveal(toolbar_message);
    reveal(zoom_mode_set);
    lemma_retooled(before.s, msg);
    assert(after.out =~= before.out + tool_actions(before, after.s.config.value, msg));
}

/// The setting a toolbar button changes.
pub open spec fn setting_of(config: Config, msg: ToolbarMessage) -> Setting {
    match msg {
        ToolbarMessage::SetSortKey(key) => Setting::SortKey(key),
        ToolbarMessage::ToggleSortDirection => Setting::SortDesc(!config.sort_desc),
        ToolbarMessage::SetZoomMode(mode) => Setting::ZoomMode(mode),
        ToolbarMessage::ToggleFilmstrip => Setting::ShowFilmstrip(!config.show_filmstrip),
        ToolbarMessage::ToggleSlider => Setting::ShowSlider(!config.show_slider),
        ToolbarMessage::ToggleFooter => Setting::ShowFooter(!config.show_footer),
        ToolbarMessage::ToggleToolbar => Setting::ShowToolbar(!config.show_toolbar),
        _ => Setting::Theme(
            if config.theme == ThemeChoice::Dark {
                ThemeChoice::Light
            } else {
                ThemeChoice::Dark
            },
        ),
    }
}

proof fn lemma_retooled(s: SharedModel, msg: ToolbarMessage)
    requires
        retooled(s.config.value, msg) is Some,
    ensures
        with_config(s, setting_of(s.config.value, msg)).config.value == retooled(
            s.config.value,
            msg,
        )->0,
{
    let config = s.config.value;
    lemma_with_config(s, setting_of(config, msg));
    match msg {
        ToolbarMessage::SetSortKey(key) => {
            assert(with_setting(config, Setting::SortKey(key)) == (Config {
                sort_key: key,
                ..config
            })) by {
                reveal(with_setting);
            }
        },
        ToolbarMessage::ToggleSortDirection => {
            assert(with_setting(config, Setting::SortDesc(!config.sort_desc)) == (Config {
                sort_desc: !config.sort_desc,
                ..config
            })) by {
                reveal(with_setting);
            }
        },
        ToolbarMessage::SetZoomMode(mode) => {
            assert(with_setting(config, Setting::ZoomMode(mode)) == (Config {
                zoom_mode: mode,
                ..config
            })) by {
                reveal(with_setting);
            }
        },
        ToolbarMessage::ToggleFilmstrip => {
            assert(with_setting(config, Setting::ShowFilmstrip(!config.show_filmstrip)) == (Config {
                show_filmstrip: !config.show_filmstrip,
                ..config
            })) by {
                reveal(with_setting);
            }
        },
        ToolbarMessage::ToggleSlider => {
            assert(with_setting(config, Setting::ShowSlider(!config.show_slider)) == (Config {
                show_slider: !config.show_slider,
                ..config
            })) by {
                reveal(with_setting);
            }
        },
        ToolbarMessage::ToggleFooter => {
            assert(with_setting(config, Setting::ShowFooter(!config.show_footer)) == (Config {
                show_footer: !config.show_footer,
                ..config
            })) by {
                reveal(with_setting);
            }
        },
        ToolbarMessage::ToggleToolbar => {
            assert(with_setting(config, Setting::ShowToolbar(!config.show_toolbar)) == (Config {
                show_toolbar: !config.show_toolbar,
                ..config
            })) by {
                reveal(with_setting);
            }
        },
        _ => {
            let theme = if config.theme == ThemeChoice::Dark {
                ThemeChoice::Light
            } else {
                ThemeChoice::Dark
            };
            assert(with_setting(config, Setting::Theme(theme)) == (Config { theme, ..config })) by {
                reveal(with_setting);
            }
        },
    }
}

/// A click beside an open menu closes it and does nothing else.
pub proof fn law_dismissed_menu_closes(before: Wt, after: Wt, ctx: Ctx)
    requires
        dispatched(before, after, ctx, Message::Toolbar(ToolbarMessage::DismissOverlay)),
    ensures
        after.w.state.value.open_menu is None,
        after.w.viewer == before.w.viewer,
        after.s == before.s,
        after.out == before.out,
{
    reveal(toolbar_message);
}

/// The wheel over the filmstrip scrolls it and does nothing else.
pub proof fn law_filmstrip_scrolls(before: Wt, after: Wt, ctx: Ctx)
    requires
        dispatched(before, after, ctx, Message::Filmstrip(FilmstripMessage::Scroll)),
        before.w.viewer is Some,
    ensures
        after.w.viewer == before.w.viewer,
        after.s == before.s,
        after.out == before.out.push(Action::ScrollFilmstrip),
{
    reveal(strip_message);
}

/// The enter key closes the settings, and does nothing without a dialog.
pub proof fn law_enter_closes_the_settings(before: Wt, after: Wt, ctx: Ctx)
    requires
        dispatched(before, after, ctx, Message::Modal(ModalMessage::Submit)),
        before.w.modal is None || before.w.modal->0 is Settings,
    ensures
        after.w.modal is None,
        after.w.viewer == before.w.viewer,
        after.s == before.s,
        after.out == before.out,
{
}

/// Moving through the listing, zooming and turning close the menus; what happens
/// by itself leaves them open.
pub proof fn law_menus_close_at_the_next_step(t: Wt, msg: Message)
    ensures
        ({
            let state = transient_dismissed(t, msg).w.state.value;
            let steps = match msg {
                Message::Viewer(m) => m is Next || m is Prev || m is First || m is Last || m
                    is ScrollZoom || m is ZoomStep || m is ZoomActual || m is ResetZoom || m
                    is DragStart || m is Rotate,
                Message::NavSlider(_) => true,
                Message::Filmstrip(m) => m is Clicked,
                _ => false,
            };
            let by_itself = match msg {
                Message::Media(_) | Message::Anim(_) | Message::DismissToast(_) => true,
                Message::Window(m) => !(m is CloseRequested),
                Message::VideoControls(m) => m is Tick || m is Extracted,
                _ => false,
            };
            &&& steps ==> state.open_menu is None && !state.context_menu_open
            &&& by_itself ==> state == t.w.state.value
            &&& state.help_open == t.w.state.value.help_open
            &&& state.fullscreen == t.w.state.value.fullscreen
            &&& transient_dismissed(t, msg).w.viewer == t.w.viewer
            &&& transient_dismissed(t, msg).s == t.s
            &&& transient_dismissed(t, msg).out == t.out
        }),
{
}

} // verus!
