//! One viewer window and its overlays.
use crate::actions::Action;
use crate::anim::{anims_released, release_anims};
use crate::files::FileId;
use crate::leases::files_of;
use crate::media_tasks::{st, St};
use crate::state::{release_stills, stills_released, Shared, SharedModel, Viewer, ViewerModel};
use crate::time::{Duration, Instant};
use crate::whole::{hold, whole, Whole};
use vstd::prelude::*;
use vstd::string::*;

verus! {

/// Whether a window is idle or viewing something.
pub enum Session {
    /// Waiting for a file drop or open.
    Empty,
    /// Viewing images.
    Viewing(Box<Viewer>),
}

/// A toolbar dropdown.
#[derive(Clone, Copy, PartialEq, Eq, Structural, Debug)]
pub enum OpenMenu {
    File,
    Zoom,
    Layout,
    Sort,
}

/// A blocking dialog over the viewer.
pub enum Modal {
    /// Confirm moving the file to the recycle bin.
    ConfirmDelete(FileId),
    /// Rename the file in place.
    Rename { input: String },
    /// The settings card.
    Settings,
}

/// A [`Modal`] with its input as plain text.
pub enum ModalModel {
    ConfirmDelete(FileId),
    Rename { input: Seq<char> },
    Settings,
}

impl View for Modal {
    type V = ModalModel;

    open spec fn view(&self) -> ModalModel {
        match *self {
            Modal::ConfirmDelete(file) => ModalModel::ConfirmDelete(file),
            Modal::Rename { input } => ModalModel::Rename { input: input@ },
            Modal::Settings => ModalModel::Settings,
        }
    }
}

#[derive(Clone, Copy, PartialEq, Eq, Structural, Debug)]
pub enum ToastKind {
    Info,
    Error,
}

/// A transient notification.
pub struct Toast {
    pub id: u64,
    pub kind: ToastKind,
    pub text: String,
}

/// A [`Toast`] with plain text.
pub struct ToastModel {
    pub id: u64,
    pub kind: ToastKind,
    pub text: Seq<char>,
}

impl View for Toast {
    type V = ToastModel;

    open spec fn view(&self) -> ToastModel {
        ToastModel { id: self.id, kind: self.kind, text: self.text@ }
    }
}

/// A pair of window coordinates, by the bit patterns they are stored as. The
/// library only compares and hands them on.
#[derive(Clone, Copy, PartialEq, Eq, Structural, Debug)]
pub struct Coords {
    pub first: u32,
    pub second: u32,
}

/// Everything tied to one window except what it views and its texts.
#[derive(Clone, Copy, PartialEq, Eq, Structural, Debug)]
pub struct WindowState {
    pub id: u64,
    pub open_menu: Option<OpenMenu>,
    pub context_menu_open: bool,
    pub zoom_slider_open: bool,
    pub help_open: bool,
    pub fullscreen: bool,
    pub focused: bool,
    pub minimized: bool,
    pub maximized: bool,
    pub window_size: Coords,
    pub window_pos: Coords,
    /// The plain windowed bounds, remembered through maximize and fullscreen.
    pub restored_size: Coords,
    pub restored_pos: Coords,
    /// Supersedes earlier tile timers.
    pub tile_epoch: u64,
    /// Supersedes earlier window-state probes.
    pub probe_generation: u64,
    /// Supersedes earlier decay timers.
    pub decay_generation: u64,
    /// Whether an open video plays on when the window un-minimizes.
    pub video_resumes_on_restore: bool,
    /// Since when a directory or archive is being opened.
    pub opening_since: Option<Instant>,
    pub next_toast_id: u64,
}

/// One window.
pub struct Window {
    pub state: Whole<WindowState>,
    pub session: Session,
    pub modal: Option<Modal>,
    pub toasts: Vec<Toast>,
}

/// What a [`Window`] holds.
pub struct WindowModel {
    pub state: Whole<WindowState>,
    pub viewer: Option<ViewerModel>,
    pub modal: Option<ModalModel>,
    pub toasts: Seq<ToastModel>,
}

pub open spec fn toast_models(toasts: Seq<Toast>) -> Seq<ToastModel> {
    toasts.map_values(|t: Toast| t@)
}

impl View for Session {
    type V = Option<ViewerModel>;

    open spec fn view(&self) -> Option<ViewerModel> {
        match *self {
            Session::Empty => None,
            Session::Viewing(viewer) => Some(viewer@),
        }
    }
}

impl View for Window {
    type V = WindowModel;

    open spec fn view(&self) -> WindowModel {
        WindowModel {
            state: self.state,
            viewer: self.session@,
            modal: match self.modal {
                Some(modal) => Some(modal@),
                None => None,
            },
            toasts: toast_models(self.toasts@),
        }
    }
}

impl WindowModel {
    pub open spec fn wf(self) -> bool {
        self.viewer is Some ==> self.viewer->0.wf()
    }
}

/// A window, the shared state, and the actions asked for so far.
pub struct Wt {
    pub w: WindowModel,
    pub s: SharedModel,
    pub out: Seq<Action>,
}

pub open spec fn wt(w: WindowModel, s: SharedModel, out: Seq<Action>) -> Wt {
    Wt { w, s, out }
}

impl Wt {
    pub open spec fn act(self, action: Action) -> Wt {
        Wt { out: self.out.push(action), ..self }
    }

    /// The viewer side of the state.
    pub open spec fn inner(self) -> St {
        st(self.w.viewer->0, self.s, self.out)
    }

    /// The viewer side replaced.
    pub open spec fn with_inner(self, t: St) -> Wt {
        Wt { w: WindowModel { viewer: Some(t.v), ..self.w }, s: t.s, out: t.out }
    }

    pub open spec fn with_state(self, state: WindowState) -> Wt {
        Wt { w: WindowModel { state: whole(state), ..self.w }, ..self }
    }

    pub open spec fn with_modal(self, modal: Option<ModalModel>) -> Wt {
        Wt { w: WindowModel { modal, ..self.w }, ..self }
    }

    pub open spec fn with_viewer(self, viewer: Option<ViewerModel>) -> Wt {
        Wt { w: WindowModel { viewer, ..self.w }, ..self }
    }
}

pub open spec fn next_number(n: u64) -> u64 {
    if n == u64::MAX {
        0
    } else {
        (n + 1) as u64
    }
}

/// The number after `n`, starting over at zero past the last one.
pub fn bumped(n: u64) -> (m: u64)
    ensures
        m == next_number(n),
{
    if n == u64::MAX {
        0
    } else {
        n + 1
    }
}

/// How long a toast stays up.
pub open spec fn toast_lifetime() -> Duration {
    Duration { nanos: 4_000_000_000 }
}

/// A toast appended under the next id, to be dismissed after its lifetime.
pub open spec fn toasted(t: Wt, kind: ToastKind, text: Seq<char>) -> Wt {
    let id = t.w.state.value.next_toast_id;
    Wt {
        w: WindowModel {
            state: whole(WindowState { next_toast_id: next_number(id), ..t.w.state.value }),
            toasts: t.w.toasts.push(ToastModel { id, kind, text }),
            ..t.w
        },
        ..t
    }.act(Action::ExpireToast { id, delay: toast_lifetime() })
}

/// A focused, empty window with the given bounds and flags.
pub open spec fn fresh_window(
    id: u64,
    size: Coords,
    pos: Coords,
    maximized: bool,
    fullscreen: bool,
) -> WindowModel {
    WindowModel {
        state: whole(WindowState {
            id,
            open_menu: None,
            context_menu_open: false,
            zoom_slider_open: false,
            help_open: false,
            fullscreen,
            focused: true,
            minimized: false,
            maximized,
            window_size: size,
            window_pos: pos,
            restored_size: size,
            restored_pos: pos,
            tile_epoch: 0,
            probe_generation: 0,
            decay_generation: 0,
            video_resumes_on_restore: false,
            opening_since: None,
            next_toast_id: 0,
        }),
        viewer: None,
        modal: None,
        toasts: Seq::empty(),
    }
}

impl Window {
    /// A fresh, focused, empty window, seeded from the saved geometry.
    pub fn new(
        id: u64,
        size: Coords,
        pos: Coords,
        maximized: bool,
        fullscreen: bool,
    ) -> (win: Window)
        ensures
            win@ == fresh_window(id, size, pos, maximized, fullscreen),
    {
        let win = Window {
            state: hold(WindowState {
                id,
                open_menu: None,
                context_menu_open: false,
                zoom_slider_open: false,
                help_open: false,
                fullscreen,
                focused: true,
                minimized: false,
                maximized,
                window_size: size,
                window_pos: pos,
                restored_size: size,
                restored_pos: pos,
                tile_epoch: 0,
                probe_generation: 0,
                decay_generation: 0,
                video_resumes_on_restore: false,
                opening_since: None,
                next_toast_id: 0,
            }),
            session: Session::Empty,
            modal: None,
            toasts: Vec::new(),
        };
        assert(win@.toasts =~= Seq::empty());
        win
    }

    pub fn set_state(&mut self, state: WindowState)
        ensures
            final(self)@ == (WindowModel { state: whole(state), ..old(self)@ }),
    {
        self.state = hold(state);
    }

    /// The active viewer, if any.
    pub fn viewer(&self) -> (viewer: Option<&Viewer>)
        ensures
            match viewer {
                Some(v) => self@.viewer == Some(v@),
                None => self@.viewer is None,
            },
    {
        match &self.session {
            Session::Viewing(viewer) => Some(viewer),
            Session::Empty => None,
        }
    }

    /// The active viewer, mutably, if any.
    pub fn viewer_mut(&mut self) -> (viewer: Option<&mut Viewer>)
        ensures
            match viewer {
                Some(v) => old(self)@.viewer == Some((*v)@) && final(self)@ == (WindowModel {
                    viewer: Some((*final(v))@),
                    ..old(self)@
                }),
                None => old(self)@.viewer is None && final(self)@ == old(self)@,
            },
    {
        match &mut self.session {
            Session::Viewing(viewer) => Some(viewer),
            Session::Empty => None,
        }
    }
}

/// Show a transient notification that dismisses itself after a few seconds.
pub fn push_toast(win: &mut Window, kind: ToastKind, text: String, out: &mut Vec<Action>)
    ensures
        forall|s: SharedModel|
            #![trigger wt(old(win)@, s, old(out)@)]
            wt(final(win)@, s, final(out)@) == toasted(wt(old(win)@, s, old(out)@), kind, text@),
{
    let id: u64 = win.state.value.next_toast_id;
    win.set_state(WindowState { next_toast_id: bumped(id), ..win.state.value });
    let ghost before = win.toasts@;
    let toast = Toast { id, kind, text };
    let ghost pushed = toast;
    win.toasts.push(toast);
    assert(toast_models(before.push(pushed)) =~= toast_models(before).push(pushed@));
    out.push(Action::ExpireToast { id, delay: Duration { nanos: 4_000_000_000 } });
}

/// Show a notification made of two parts.
pub fn push_notice(
    win: &mut Window,
    kind: ToastKind,
    head: &str,
    tail: &str,
    out: &mut Vec<Action>,
)
    ensures
        forall|s: SharedModel|
            #![trigger wt(old(win)@, s, old(out)@)]
            wt(final(win)@, s, final(out)@) == toasted(
                wt(old(win)@, s, old(out)@),
                kind,
                head@ + tail@,
            ),
{
    let mut text: String = head.to_owned();
    text.append(tail);
    push_toast(win, kind, text, out);
}

/// Show a fixed notification.
pub fn push_text(win: &mut Window, kind: ToastKind, text: &str, out: &mut Vec<Action>)
    ensures
        forall|s: SharedModel|
            #![trigger wt(old(win)@, s, old(out)@)]
            wt(final(win)@, s, final(out)@) == toasted(
                wt(old(win)@, s, old(out)@),
                kind,
                text@,
            ),
{
    push_toast(win, kind, text.to_owned(), out);
}

/// The window emptied, everything its viewer held let go of.
#[verifier::opaque]
pub open spec fn session_closed(t: Wt) -> Wt {
    match t.w.viewer {
        Some(v) => Wt {
            w: WindowModel { viewer: None, ..t.w },
            s: SharedModel {
                store: stills_released(t.s.store, t.w.state.value.id, files_of(v.cache)),
                anims: anims_released(t.s.anims, t.w.state.value.id, files_of(v.anim.cache)),
                ..t.s
            },
            ..t
        },
        None => t,
    }
}

pub proof fn lemma_session_closed(t: Wt)
    ensures
        session_closed(t).w.viewer is None,
        session_closed(t).w.state == t.w.state,
        session_closed(t).w.modal == t.w.modal,
        session_closed(t).w.toasts == t.w.toasts,
        session_closed(t).out == t.out,
        session_closed(t).s.config == t.s.config,
        session_closed(t).s.paths == t.s.paths,
        session_closed(t).s.status == t.s.status,
        session_closed(t).s.thumbs == t.s.thumbs,
{
    reveal(session_closed);
}

/// Empty the window, letting go of everything its viewer held.
pub fn close_session(win: &mut Window, shared: &mut Shared)
    ensures
        forall|out: Seq<Action>|
            #![trigger wt(old(win)@, old(shared)@, out)]
            wt(final(win)@, final(shared)@, out) == session_closed(
                wt(old(win)@, old(shared)@, out),
            ),
{
    proof {
        reveal(session_closed);
    }
    let window: u64 = win.state.value.id;
    match win.viewer() {
        Some(viewer) => {
            let stills = viewer.cache.files();
            let anims = viewer.anim_player.cache.files();
            release_stills(&stills, window, &mut shared.store);
            release_anims(&anims, window, &mut shared.anim_store);
        },
        None => {
            return ;
        },
    }
    win.session = Session::Empty;
}

/// The toasts without the one numbered `id`.
pub open spec fn dismissed(toasts: Seq<ToastModel>, id: u64) -> Seq<ToastModel> {
    toasts.filter(|t: ToastModel| t.id != id)
}

/// Take down the toast numbered `id`.
pub fn dismiss_toast(win: &mut Window, id: u64)
    ensures
        final(win)@ == (WindowModel { toasts: dismissed(old(win)@.toasts, id), ..old(win)@ }),
{
    let ghost keep = |t: ToastModel| t.id != id;
    let ghost all = toast_models(win.toasts@);
    let mut kept: Vec<Toast> = Vec::new();
    let mut rest: Vec<Toast> = Vec::new();
    rest.append(&mut win.toasts);
    assert(toast_models(rest@) =~= all);
    assert(all.take(all.len() as int) =~= all);
    // Taken from the back and put in order again below.
    while rest.len() > 0
        invariant
            keep == (|t: ToastModel| t.id != id),
            rest@.len() <= all.len(),
            toast_models(rest@) == all.take(rest@.len() as int),
            toast_models(rest@).filter(keep) + toast_models(kept@.reverse()) == all.filter(keep),
        decreases rest@.len(),
    {
        let ghost left = rest@;
        let ghost taken = kept@;
        match rest.pop() {
            Some(toast) => {
                proof {
                    reveal(Seq::filter);
                    let m = toast_models(left);
                    assert(m.drop_last() =~= toast_models(rest@));
                    assert(m.last() == toast@);
                    assert(all.take(left.len() as int).drop_last() =~= all.take(left.len() - 1));
                }
                if toast.id != id {
                    let ghost pushed = toast;
                    kept.push(toast);
                    proof {
                        assert(kept@.reverse() =~= seq![pushed] + taken.reverse());
                        assert(toast_models(kept@.reverse()) =~= seq![pushed@] + toast_models(
                            taken.reverse(),
                        ));
                        assert(toast_models(rest@).filter(keep) + (seq![pushed@] + toast_models(
                            taken.reverse(),
                        )) =~= toast_models(rest@).filter(keep).push(pushed@) + toast_models(
                            taken.reverse(),
                        ));
                    }
                }
            },
            None => {},
        }
    }
    proof {
        reveal(Seq::filter);
        assert(toast_models(rest@) =~= Seq::empty());
        assert(toast_models(kept@.reverse()) =~= all.filter(keep));
    }
    let mut ordered: Vec<Toast> = Vec::new();
    let ghost full = kept@;
    while kept.len() > 0
        invariant
            ordered@ + kept@.reverse() == full.reverse(),
        decreases kept@.len(),
    {
        let ghost left = kept@;
        let ghost done = ordered@;
        match kept.pop() {
            Some(toast) => {
                let ghost pushed = toast;
                ordered.push(toast);
                proof {
                    assert(left.reverse() =~= seq![pushed] + kept@.reverse());
                    assert(ordered@ + kept@.reverse() =~= done + left.reverse());
                }
            },
            None => {},
        }
    }
    assert(ordered@ =~= full.reverse());
    win.toasts = ordered;
}

/// Every toast shown has an id below the next one to be handed out.
pub open spec fn toasts_numbered(w: WindowModel) -> bool {
    forall|i: int|
        0 <= i < w.toasts.len() ==> (#[trigger] w.toasts[i]).id < w.state.value.next_toast_id
}

/// A new toast's id is no other toast's, so dismissing one never takes another
/// down, until the numbers run out.
pub proof fn law_toast_ids_are_fresh(t: Wt, kind: ToastKind, text: Seq<char>)
    requires
        toasts_numbered(t.w),
        t.w.state.value.next_toast_id < u64::MAX,
    ensures
        toasts_numbered(toasted(t, kind, text).w),
        toasted(t, kind, text).w.toasts.last().id == t.w.state.value.next_toast_id,
        forall|i: int|
            0 <= i < t.w.toasts.len() ==> (#[trigger] t.w.toasts[i]).id != toasted(
                t,
                kind,
                text,
            ).w.toasts.last().id,
{
    let after = toasted(t, kind, text).w;
    assert forall|i: int| 0 <= i < after.toasts.len() implies (#[trigger] after.toasts[i]).id
        < after.state.value.next_toast_id by {
        if i < t.w.toasts.len() {
            assert(after.toasts[i] == t.w.toasts[i]);
        }
    }
}

} // verus!
