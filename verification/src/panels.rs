//! The slider, the filmstrip, the settings card, and the context menu.
use crate::actions::Action;
use crate::budget::{cache_fitted, fit_cache};
use crate::components::configured;
use crate::config::Setting;
use crate::files::FileId;
use crate::media_tasks::{fire_visible_thumbs, st, thumbs_fired, visible_files, Ctx, St};
use crate::message::{ContextMenuMessage, FilmstripMessage, SettingsMessage, SliderMessage};
use crate::navigation::{
    complete_navigation, navigate, navigate_spec, navigated, scrub_to, scrubbed, NavTarget,
};
use crate::paths::Source;
use crate::state::{DisplayedImage, Shared, SharedModel, SliderDrag, Status, Viewer, ViewerModel};
use crate::whole::{hold, whole};
use crate::window::{
    push_notice, push_text, toasted, wt, Modal, ModalModel, ToastKind, Window, WindowState, Wt,
};
use vstd::prelude::*;

verus! {

/// Whether a drag can show `file` as it passes: its texture or its thumbnail is
/// at hand. Animations count by their thumbnail alone; they play on release.
pub open spec fn scrubbable(v: ViewerModel, s: SharedModel, file: FileId) -> bool {
    v.has_texture(s, file) || s.thumbs.contains_key(file)
}

/// The slider moved: the thumb follows the hand, the display follows through
/// loaded files, and the bubble, once up, covers the rest of the drag.
#[verifier::opaque]
pub open spec fn slider_moved(t: St, ctx: Ctx, index: usize) -> St {
    let target = index as int % t.v.nav.files.len() as int;
    let shown = scrubbable(t.v, t.s, t.v.nav.files[target]);
    let u = St {
        v: ViewerModel {
            slider_drag: Some(
                SliderDrag {
                    target: target as usize,
                    since: ctx.now,
                    bubble: (t.v.slider_drag is Some && t.v.slider_drag->0.bubble) || !shown,
                },
            ),
            ..t.v
        },
        ..t
    };
    if shown && target != t.v.nav.cursor {
        scrubbed(u, target, ctx.now)
    } else {
        u
    }
}

fn move_slider(
    viewer: &mut Viewer,
    shared: &Shared,
    ctx: Ctx,
    index: usize,
    out: &mut Vec<Action>,
)
    requires
        old(viewer)@.wf(),
    ensures
        st(final(viewer)@, shared@, final(out)@) == slider_moved(
            st(old(viewer)@, shared@, old(out)@),
            ctx,
            index,
        ),
        final(viewer)@.wf(),
{
    proof {
        reveal(slider_moved);
        vstd::arithmetic::div_mod::lemma_mod_bound(index as int, viewer@.nav.files.len() as int);
    }
    let target: usize = index % viewer.nav.len();
    let file = viewer.nav.files[target];
    let shown: bool = viewer.has_resident_texture(shared, file) || shared.thumbs.contains_key(file);
    let bubbled: bool = match viewer.slider_drag {
        Some(drag) => drag.bubble,
        None => false,
    };
    viewer.slider_drag = Some(SliderDrag { target, since: ctx.now, bubble: bubbled || !shown });
    if shown && target != viewer.nav.cursor() {
        scrub_to(viewer, shared, target, ctx.now, out);
    }
}

/// The slider released: the deferred work runs where the display already is,
/// and a target still elsewhere is navigated to.
#[verifier::opaque]
pub open spec fn slider_released(t: St, ctx: Ctx) -> St {
    let u = St { v: ViewerModel { slider_drag: None, ..t.v }, ..t };
    match t.v.slider_drag {
        Some(drag) => if drag.target == t.v.nav.cursor {
            navigated(u, ctx, drag.target as int, true)
        } else {
            navigate_spec(u, ctx, NavTarget::Index(drag.target))
        },
        None => u,
    }
}

fn release_slider(viewer: &mut Viewer, shared: &mut Shared, ctx: Ctx, out: &mut Vec<Action>)
    requires
        old(viewer)@.wf(),
    ensures
        st(final(viewer)@, final(shared)@, final(out)@) == slider_released(
            st(old(viewer)@, old(shared)@, old(out)@),
            ctx,
        ),
        final(viewer)@.wf(),
{
    proof {
        reveal(slider_released);
    }
    match viewer.slider_drag {
        Some(drag) => {
            viewer.slider_drag = None;
            if drag.target == viewer.nav.cursor() {
                complete_navigation(viewer, shared, ctx, drag.target, true, out);
            } else {
                navigate(viewer, shared, ctx, NavTarget::Index(drag.target), out);
            }
        },
        None => {},
    }
}

/// Handle a slider message.
pub fn update_slider(
    viewer: &mut Viewer,
    shared: &mut Shared,
    ctx: Ctx,
    msg: SliderMessage,
    out: &mut Vec<Action>,
)
    requires
        old(viewer)@.wf(),
    ensures
        st(final(viewer)@, final(shared)@, final(out)@) == match msg {
            SliderMessage::Changed(index) => slider_moved(
                st(old(viewer)@, old(shared)@, old(out)@),
                ctx,
                index,
            ),
            SliderMessage::Released => slider_released(
                st(old(viewer)@, old(shared)@, old(out)@),
                ctx,
            ),
        },
        final(viewer)@.wf(),
{
    match msg {
        SliderMessage::Changed(index) => move_slider(viewer, shared, ctx, index, out),
        SliderMessage::Released => release_slider(viewer, shared, ctx, out),
    }
}

/// Any filmstrip message.
#[verifier::opaque]
pub open spec fn strip_message(t: St, ctx: Ctx, msg: FilmstripMessage) -> St {
    match msg {
        FilmstripMessage::Clicked(index) => navigate_spec(t, ctx, NavTarget::Index(index)),
        FilmstripMessage::Scrolled(visible) => thumbs_fired(t, visible_files(t.v, visible)),
        FilmstripMessage::Scroll => t.act(Action::ScrollFilmstrip),
    }
}

/// Handle a filmstrip message.
pub fn update_filmstrip(
    viewer: &mut Viewer,
    shared: &mut Shared,
    ctx: Ctx,
    msg: FilmstripMessage,
    out: &mut Vec<Action>,
)
    requires
        old(viewer)@.wf(),
    ensures
        st(final(viewer)@, final(shared)@, final(out)@) == strip_message(
            st(old(viewer)@, old(shared)@, old(out)@),
            ctx,
            msg,
        ),
        final(viewer)@.wf(),
{
    proof {
        reveal(strip_message);
    }
    match msg {
        FilmstripMessage::Clicked(index) => navigate(
            viewer,
            shared,
            ctx,
            NavTarget::Index(index),
            out,
        ),
        FilmstripMessage::Scrolled(visible) => fire_visible_thumbs(viewer, shared, visible, out),
        FilmstripMessage::Scroll => {
            out.push(Action::ScrollFilmstrip);
        },
    }
}

/// The bookkeeping replaced.
pub open spec fn with_status(t: Wt, status: Status) -> Wt {
    Wt { s: SharedModel { status: whole(status), ..t.s }, ..t }
}

fn set_status(win: &Window, shared: &mut Shared, status: Status, out: &Vec<Action>)
    ensures
        wt(win@, final(shared)@, out@) == with_status(wt(win@, old(shared)@, out@), status),
{
    shared.status = hold(status);
}

pub open spec fn within(n: usize, lo: usize, hi: usize) -> usize {
    if n < lo {
        lo
    } else if n > hi {
        hi
    } else {
        n
    }
}

fn bounded(n: usize, lo: usize, hi: usize) -> (m: usize)
    ensures
        m == within(n, lo, hi),
{
    if n < lo {
        lo
    } else if n > hi {
        hi
    } else {
        n
    }
}

/// A setting changed and saved.
pub open spec fn saved(t: Wt, setting: Setting) -> Wt {
    configured(t, setting).act(Action::SaveConfig)
}

fn save(win: &Window, shared: &mut Shared, setting: Setting, out: &mut Vec<Action>)
    ensures
        wt(win@, final(shared)@, final(out)@) == saved(
            wt(win@, old(shared)@, old(out)@),
            setting,
        ),
{
    shared.set(setting);
    out.push(Action::SaveConfig);
}

/// The image budget changed and saved. What the open viewer holds is fitted to
/// it.
#[verifier::opaque]
pub open spec fn budget_set(t: Wt, megabytes: usize) -> Wt {
    let mb = within(megabytes, 128, 4096);
    let u = configured(t, Setting::CacheBudgetMb(mb));
    (match t.w.viewer {
        Some(v) => {
            let (after, s) = cache_fitted(
                v,
                u.s,
                t.w.state.value.id,
                (mb * 1_048_576) as u64,
            );
            Wt { s, ..u.with_viewer(Some(after)) }
        },
        None => u,
    }).act(Action::SaveConfig)
}

fn set_budget(win: &mut Window, shared: &mut Shared, megabytes: usize, out: &mut Vec<Action>)
    requires
        old(win)@.wf(),
    ensures
        wt(final(win)@, final(shared)@, final(out)@) == budget_set(
            wt(old(win)@, old(shared)@, old(out)@),
            megabytes,
        ),
        final(win)@.wf(),
{
    proof {
        reveal(budget_set);
    }
    let mb: usize = bounded(megabytes, 128, 4096);
    shared.set(Setting::CacheBudgetMb(mb));
    let window: u64 = win.state.value.id;
    match win.viewer_mut() {
        Some(viewer) => {
            fit_cache(viewer, shared, window, mb as u64 * 1_048_576);
        },
        None => {},
    }
    out.push(Action::SaveConfig);
}

/// The settings card opened, its facts refreshed.
pub open spec fn settings_opened(t: Wt, registered: bool) -> Wt {
    with_status(
        t.with_state(WindowState { open_menu: None, ..t.w.state.value }).with_modal(
            Some(ModalModel::Settings),
        ),
        Status {
            disk_cache_size: None,
            associations_registered: registered,
            ..t.s.status.value
        },
    ).act(Action::ProbeDiskCache)
}

/// The answer to a change of the system registration.
pub open spec fn associations_answered(t: Wt, result: Result<bool, String>) -> Wt {
    match result {
        Ok(registered) => toasted(
            with_status(t, Status { associations_registered: registered, ..t.s.status.value }),
            ToastKind::Info,
            if registered {
                "Done. To make scryglass the default, pick it under Windows Settings > Default apps."@
            } else {
                "scryglass no longer appears in the Open with menu."@
            },
        ),
        Err(e) => toasted(t, ToastKind::Error, "Couldn't update: "@ + e@),
    }
}

/// The disk thumbnails cleared, if there is a store.
pub open spec fn disk_cleared(t: Wt) -> Wt {
    if t.s.status.value.disk_store {
        toasted(
            with_status(t, Status { disk_cache_size: None, ..t.s.status.value }).act(
                Action::ClearDiskThumbs,
            ),
            ToastKind::Info,
            "Thumbnail store cleared"@,
        )
    } else {
        t
    }
}

/// The disk thumbnail store switched on or off. Whether there is one now is
/// known once the switch was made.
pub open spec fn disk_switched(t: Wt) -> Wt {
    let on = !t.s.config.value.disk_thumbs;
    let u = configured(t, Setting::DiskThumbs(on)).act(Action::SwapDiskThumbs { on });
    with_status(u, Status { disk_cache_size: None, disk_store: false, ..t.s.status.value }).act(
        Action::SaveConfig,
    ).act(Action::ProbeDiskCache)
}

/// Any settings message.
#[verifier::opaque]
pub open spec fn settings_message(t: Wt, msg: SettingsMessage) -> Wt {
    let config = t.s.config.value;
    match msg {
        SettingsMessage::OpenSettings(registered) => settings_opened(t, registered),
        SettingsMessage::ToggleFileAssociations => t.act(
            Action::SetAssociations { on: !t.s.status.value.associations_registered },
        ),
        SettingsMessage::AssociationsChanged(result) => associations_answered(t, result),
        SettingsMessage::DiskCacheSize(bytes) => with_status(
            t,
            Status { disk_cache_size: Some(bytes), ..t.s.status.value },
        ),
        SettingsMessage::DiskStoreSwapped(present) => with_status(
            t,
            Status { disk_store: present, ..t.s.status.value },
        ),
        SettingsMessage::ClearDiskThumbs => disk_cleared(t),
        SettingsMessage::SetPrefetchDepth(depth) => saved(
            t,
            Setting::PrefetchDepth(within(depth, 1, 10)),
        ),
        SettingsMessage::SetCacheBudget(megabytes) => budget_set(t, megabytes),
        SettingsMessage::ToggleReadOnly => saved(t, Setting::ReadOnly(!config.read_only)),
        SettingsMessage::ToggleConfirmDelete => saved(
            t,
            Setting::ConfirmDelete(!config.confirm_delete),
        ),
        SettingsMessage::ToggleDiskThumbs => disk_switched(t),
        SettingsMessage::ToggleCrispPixels => saved(t, Setting::CrispPixels(!config.crisp_pixels)),
    }
}

fn open_settings(win: &mut Window, shared: &mut Shared, registered: bool, out: &mut Vec<Action>)
    requires
        old(win)@.wf(),
    ensures
        wt(final(win)@, final(shared)@, final(out)@) == settings_opened(
            wt(old(win)@, old(shared)@, old(out)@),
            registered,
        ),
        final(win)@.wf(),
{
    win.set_state(WindowState { open_menu: None, ..win.state.value });
    win.modal = Some(Modal::Settings);
    let status = Status {
        disk_cache_size: None,
        associations_registered: registered,
        ..shared.status.value
    };
    set_status(win, shared, status, out);
    out.push(Action::ProbeDiskCache);
}

fn answer_associations(
    win: &mut Window,
    shared: &mut Shared,
    result: Result<bool, String>,
    out: &mut Vec<Action>,
)
    requires
        old(win)@.wf(),
    ensures
        wt(final(win)@, final(shared)@, final(out)@) == associations_answered(
            wt(old(win)@, old(shared)@, old(out)@),
            result,
        ),
        final(win)@.wf(),
{
    let ghost before = wt(win@, shared@, out@);
    match result {
        Ok(registered) => {
            let status = Status { associations_registered: registered, ..shared.status.value };
            set_status(win, shared, status, out);
            let ghost u = wt(win@, shared@, out@);
            let note = if registered {
                "Done. To make scryglass the default, pick it under Windows Settings > Default apps."
            } else {
                "scryglass no longer appears in the Open with menu."
            };
            push_text(win, ToastKind::Info, note, out);
            assert(wt(win@, shared@, out@) == toasted(u, ToastKind::Info, note@));
        },
        Err(e) => {
            push_notice(win, ToastKind::Error, "Couldn't update: ", e.as_str(), out);
            assert(wt(win@, shared@, out@) == toasted(
                before,
                ToastKind::Error,
                "Couldn't update: "@ + e@,
            ));
        },
    }
}

fn clear_disk(win: &mut Window, shared: &mut Shared, out: &mut Vec<Action>)
    requires
        old(win)@.wf(),
    ensures
        wt(final(win)@, final(shared)@, final(out)@) == disk_cleared(
            wt(old(win)@, old(shared)@, old(out)@),
        ),
        final(win)@.wf(),
{
    if shared.status.value.disk_store {
        let status = Status { disk_cache_size: None, ..shared.status.value };
        set_status(win, shared, status, out);
        out.push(Action::ClearDiskThumbs);
        let ghost u = wt(win@, shared@, out@);
        push_text(win, ToastKind::Info, "Thumbnail store cleared", out);
        assert(wt(win@, shared@, out@) == toasted(
            u,
            ToastKind::Info,
            "Thumbnail store cleared"@,
        ));
    }
}

fn switch_disk(win: &mut Window, shared: &mut Shared, out: &mut Vec<Action>)
    requires
        old(win)@.wf(),
    ensures
        wt(final(win)@, final(shared)@, final(out)@) == disk_switched(
            wt(old(win)@, old(shared)@, old(out)@),
        ),
        final(win)@.wf(),
{
    let on: bool = !shared.config.value.disk_thumbs;
    proof {
        crate::state::lemma_with_config(shared@, Setting::DiskThumbs(on));
    }
    shared.set(Setting::DiskThumbs(on));
    out.push(Action::SwapDiskThumbs { on });
    let status = Status { disk_cache_size: None, disk_store: false, ..shared.status.value };
    set_status(win, shared, status, out);
    out.push(Action::SaveConfig);
    out.push(Action::ProbeDiskCache);
}

/// Handle a settings message.
pub fn update_settings(
    win: &mut Window,
    shared: &mut Shared,
    msg: SettingsMessage,
    out: &mut Vec<Action>,
)
    requires
        old(win)@.wf(),
    ensures
        wt(final(win)@, final(shared)@, final(out)@) == settings_message(
            wt(old(win)@, old(shared)@, old(out)@),
            msg,
        ),
        final(win)@.wf(),
{
    proof {
        reveal(settings_message);
    }
    match msg {
        SettingsMessage::OpenSettings(registered) => open_settings(win, shared, registered, out),
        SettingsMessage::ToggleFileAssociations => {
            out.push(
                Action::SetAssociations { on: !shared.status.value.associations_registered },
            );
        },
        SettingsMessage::AssociationsChanged(result) => answer_associations(
            win,
            shared,
            result,
            out,
        ),
        SettingsMessage::DiskStoreSwapped(present) => {
            let status = Status { disk_store: present, ..shared.status.value };
            set_status(win, shared, status, out);
        },
        SettingsMessage::DiskCacheSize(bytes) => {
            let status = Status { disk_cache_size: Some(bytes), ..shared.status.value };
            set_status(win, shared, status, out);
        },
        SettingsMessage::ClearDiskThumbs => clear_disk(win, shared, out),
        SettingsMessage::SetPrefetchDepth(depth) => save(
            win,
            shared,
            Setting::PrefetchDepth(bounded(depth, 1, 10)),
            out,
        ),
        SettingsMessage::SetCacheBudget(megabytes) => set_budget(win, shared, megabytes, out),
        SettingsMessage::ToggleReadOnly => {
            let on: bool = !shared.config.value.read_only;
            save(win, shared, Setting::ReadOnly(on), out);
        },
        SettingsMessage::ToggleConfirmDelete => {
            let on: bool = !shared.config.value.confirm_delete;
            save(win, shared, Setting::ConfirmDelete(on), out);
        },
        SettingsMessage::ToggleDiskThumbs => switch_disk(win, shared, out),
        SettingsMessage::ToggleCrispPixels => {
            let on: bool = !shared.config.value.crisp_pixels;
            save(win, shared, Setting::CrispPixels(on), out);
        },
    }
}

pub open spec fn disk_file(v: ViewerModel) -> FileId {
    match v.source {
        Source::Fs => v.current(),
        Source::Archive(archive) => archive,
    }
}

pub open spec fn context_closed(t: Wt) -> Wt {
    t.with_state(WindowState { context_menu_open: false, ..t.w.state.value })
}

/// Whether there are pixels on screen to copy: a sharp still, the current frame
/// of an animation whose frames are resident, or a video's latest frame.
pub open spec fn copyable(v: ViewerModel, s: SharedModel) -> bool {
    ||| v.displayed is Full
    ||| v.displayed is Animated && v.anim.playable(s.anims)
    ||| v.displayed is Video && v.video.frame is Some
}

/// What is on screen put on the clipboard, once there is something sharp.
pub open spec fn image_copied(t: Wt) -> Wt {
    let u = context_closed(t);
    match t.w.viewer {
        Some(v) => if copyable(v, t.s) {
            u.act(Action::CopyImage)
        } else {
            toasted(u, ToastKind::Info, "Image is still loading"@)
        },
        None => u,
    }
}

/// An action on the current file, with a note that it was done.
pub open spec fn noted(t: Wt, action: Action, note: Seq<char>) -> Wt {
    toasted(context_closed(t).act(action), ToastKind::Info, note)
}

/// Any context menu message. Each closes the menu.
#[verifier::opaque]
pub open spec fn context_message(t: Wt, msg: ContextMenuMessage) -> Wt {
    match (msg, t.w.viewer) {
        (ContextMenuMessage::Show, _) => t.with_state(
            WindowState { context_menu_open: true, ..t.w.state.value },
        ),
        (ContextMenuMessage::CopyImageFinished(result), _) => match result {
            Ok(_) => toasted(t, ToastKind::Info, "Image copied"@),
            Err(e) => toasted(t, ToastKind::Error, "Couldn't copy: "@ + e@),
        },
        (ContextMenuMessage::CopyImage, _) => image_copied(t),
        (ContextMenuMessage::CopyFile, Some(v)) => noted(
            t,
            Action::CopyFile { file: disk_file(v) },
            "File copied"@,
        ),
        (ContextMenuMessage::CopyFilePath, Some(v)) => noted(
            t,
            Action::WritePath { source: v.source, file: v.current() },
            "Path copied"@,
        ),
        (ContextMenuMessage::CopyFilename, Some(v)) => noted(
            t,
            Action::WriteName { file: v.current() },
            "Filename copied"@,
        ),
        (ContextMenuMessage::OpenImageLocation, Some(v)) => context_closed(t).act(
            Action::Reveal { file: disk_file(v) },
        ),
        (ContextMenuMessage::ImageProperties, Some(v)) => context_closed(t).act(
            Action::ShowProperties { file: disk_file(v) },
        ),
        _ => context_closed(t),
    }
}

fn copy_image(win: &mut Window, shared: &Shared, out: &mut Vec<Action>)
    requires
        old(win)@.wf(),
    ensures
        wt(final(win)@, shared@, final(out)@) == image_copied(wt(old(win)@, shared@, old(out)@)),
        final(win)@.wf(),
{
    win.set_state(WindowState { context_menu_open: false, ..win.state.value });
    let sharp: bool = match win.viewer() {
        Some(viewer) => match viewer.displayed {
            DisplayedImage::Full { .. } => true,
            DisplayedImage::Animated { .. } => viewer.anim_player.current_handle(
                &shared.anim_store,
            ).is_some(),
            DisplayedImage::Video { .. } => viewer.video.frame.is_some(),
            _ => false,
        },
        None => {
            return ;
        },
    };
    if sharp {
        out.push(Action::CopyImage);
    } else {
        let ghost u = wt(win@, shared@, out@);
        push_text(win, ToastKind::Info, "Image is still loading", out);
        assert(wt(win@, shared@, out@) == toasted(
            u,
            ToastKind::Info,
            "Image is still loading"@,
        ));
    }
}

fn note_action(
    win: &mut Window,
    shared: &Shared,
    action: Action,
    note: &str,
    out: &mut Vec<Action>,
)
    requires
        old(win)@.wf(),
    ensures
        wt(final(win)@, shared@, final(out)@) == noted(
            wt(old(win)@, shared@, old(out)@),
            action,
            note@,
        ),
        final(win)@.wf(),
{
    win.set_state(WindowState { context_menu_open: false, ..win.state.value });
    out.push(action);
    let ghost u = wt(win@, shared@, out@);
    push_text(win, ToastKind::Info, note, out);
    assert(wt(win@, shared@, out@) == toasted(u, ToastKind::Info, note@));
}

fn report_copy(
    win: &mut Window,
    shared: &Shared,
    result: Result<(), String>,
    out: &mut Vec<Action>,
)
    requires
        old(win)@.wf(),
    ensures
        wt(final(win)@, shared@, final(out)@) == match result {
            Ok(_) => toasted(
                wt(old(win)@, shared@, old(out)@),
                ToastKind::Info,
                "Image copied"@,
            ),
            Err(e) => toasted(
                wt(old(win)@, shared@, old(out)@),
                ToastKind::Error,
                "Couldn't copy: "@ + e@,
            ),
        },
        final(win)@.wf(),
{
    let ghost before = wt(win@, shared@, out@);
    match result {
        Ok(_) => {
            push_text(win, ToastKind::Info, "Image copied", out);
            assert(wt(win@, shared@, out@) == toasted(
                before,
                ToastKind::Info,
                "Image copied"@,
            ));
        },
        Err(e) => {
            push_notice(win, ToastKind::Error, "Couldn't copy: ", e.as_str(), out);
            assert(wt(win@, shared@, out@) == toasted(
                before,
                ToastKind::Error,
                "Couldn't copy: "@ + e@,
            ));
        },
    }
}

/// Handle a context menu message.
pub fn update_context_menu(
    win: &mut Window,
    shared: &Shared,
    msg: ContextMenuMessage,
    out: &mut Vec<Action>,
)
    requires
        old(win)@.wf(),
    ensures
        wt(final(win)@, shared@, final(out)@) == context_message(
            wt(old(win)@, shared@, old(out)@),
            msg,
        ),
        final(win)@.wf(),
{
    proof {
        reveal(context_message);
    }
    let files: Option<(FileId, FileId, Source)> = match win.viewer() {
        Some(viewer) => Some((viewer.nav.current(), viewer.current_disk_path(), viewer.source)),
        None => None,
    };
    match (msg, files) {
        (ContextMenuMessage::Show, _) => {
            win.set_state(WindowState { context_menu_open: true, ..win.state.value });
        },
        (ContextMenuMessage::CopyImageFinished(result), _) => report_copy(
            win,
            shared,
            result,
            out,
        ),
        (ContextMenuMessage::CopyImage, _) => copy_image(win, shared, out),
        (ContextMenuMessage::CopyFile, Some((_, disk, _))) => note_action(
            win,
            shared,
            Action::CopyFile { file: disk },
            "File copied",
            out,
        ),
        (ContextMenuMessage::CopyFilePath, Some((current, _, source))) => note_action(
            win,
            shared,
            Action::WritePath { source, file: current },
            "Path copied",
            out,
        ),
        (ContextMenuMessage::CopyFilename, Some((current, _, _))) => note_action(
            win,
            shared,
            Action::WriteName { file: current },
            "Filename copied",
            out,
        ),
        (ContextMenuMessage::OpenImageLocation, Some((_, disk, _))) => {
            win.set_state(WindowState { context_menu_open: false, ..win.state.value });
            out.push(Action::Reveal { file: disk });
        },
        (ContextMenuMessage::ImageProperties, Some((_, disk, _))) => {
            win.set_state(WindowState { context_menu_open: false, ..win.state.value });
            out.push(Action::ShowProperties { file: disk });
        },
        _ => {
            win.set_state(WindowState { context_menu_open: false, ..win.state.value });
        },
    }
}

} // verus!
