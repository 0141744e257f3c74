//! Deleting and renaming the file on screen.
use crate::actions::Action;
use crate::files::FileId;
use crate::leases::{holds, leased, leases_without, want_of};
use crate::media::{forget_file, forgotten, last_file};
use crate::media_tasks::{st, Ctx, St};
use crate::navigation::{complete_navigation, navigated};
use crate::paths::{
    chars_of, has_extension, interned, is_supported_name, lemma_trimmed_twice, media_extensions,
    path_text, sibling, sibling_text, text_eq, trim, trimmed, Source,
};
use crate::state::{Shared, SharedModel, VideoSession, VideoState, Viewer, ViewerModel};
use crate::text::{name_of, name_text};
use crate::window::{
    close_session, lemma_session_closed, push_notice, push_text, session_closed, toasted, wt,
    Modal, ModalModel, ToastKind, Window, WindowModel, Wt,
};
use vstd::prelude::*;
use vstd::string::*;

verus! {

/// A character no file name may hold.
pub open spec fn is_invalid(c: char) -> bool {
    c == '<' || c == '>' || c == ':' || c == '"' || c == '/' || c == '\\' || c == '|' || c == '?'
        || c == '*'
}

pub open spec fn has_invalid(name: Seq<char>) -> bool {
    exists|i: int| 0 <= i < name.len() && is_invalid(#[trigger] name[i])
}

fn any_invalid(name: &str) -> (yes: bool)
    ensures
        yes == has_invalid(name@),
{
    let chars = chars_of(name);
    let mut i: usize = 0;
    while i < chars.len()
        invariant
            i <= chars@.len(),
            chars@ == name@,
            forall|j: int| 0 <= j < i ==> !is_invalid(#[trigger] chars@[j]),
        decreases chars@.len() - i,
    {
        let c = chars[i];
        if c == '<' || c == '>' || c == ':' || c == '"' || c == '/' || c == '\\' || c == '|' || c
            == '?' || c == '*' {
            assert(is_invalid(name@[i as int]));
            return true;
        }
        i = i + 1;
    }
    false
}

/// What is wrong with the new name `input`, if anything.
pub open spec fn rename_problem(input: Seq<char>) -> Option<Seq<char>> {
    let name = trimmed(input);
    if name.len() == 0 {
        Some("Name can't be empty"@)
    } else if has_invalid(name) {
        Some("Name contains invalid characters"@)
    } else if !has_extension(name, media_extensions()) {
        Some("Name must keep a supported image extension"@)
    } else {
        None
    }
}

/// Validate a rename input: non-empty, no path or invalid characters, and a
/// supported extension (anything else would vanish from the list). Gives the
/// name without surrounding white space.
pub fn validate_rename(input: &str) -> (result: Result<String, String>)
    ensures
        match result {
            Ok(name) => rename_problem(input@) is None && name@ == trimmed(input@),
            Err(problem) => rename_problem(input@) == Some(problem@),
        },
{
    let name = trim(input);
    if name.as_str().is_empty() {
        return Err("Name can't be empty".to_owned());
    }
    if any_invalid(name.as_str()) {
        return Err("Name contains invalid characters".to_owned());
    }
    if !is_supported_name(name.as_str()) {
        return Err("Name must keep a supported image extension".to_owned());
    }
    Ok(name)
}

/// The file that may be operated on: the current one, of a filesystem source,
/// with read-only mode off.
pub open spec fn op_target(w: WindowModel, s: SharedModel) -> Option<FileId> {
    match w.viewer {
        Some(v) if v.source == Source::Fs && !s.config.value.read_only => Some(v.current()),
        _ => None,
    }
}

/// The refusal of a file operation, explained if something is open.
pub open spec fn op_refused(t: Wt) -> Wt {
    match t.w.viewer {
        Some(v) => if v.source != Source::Fs {
            toasted(t, ToastKind::Info, "Archive entries can't be modified"@)
        } else if t.s.config.value.read_only {
            toasted(t, ToastKind::Info, "Read-only mode is on"@)
        } else {
            t
        },
        None => t,
    }
}

/// The current file, if file operations are allowed on it; otherwise a notice
/// says why not.
pub fn file_op_target(win: &mut Window, shared: &Shared, out: &mut Vec<Action>) -> (target: Option<
    FileId,
>)
    requires
        old(win)@.wf(),
    ensures
        target == op_target(old(win)@, shared@),
        wt(final(win)@, shared@, final(out)@) == op_refused(wt(old(win)@, shared@, old(out)@)),
        final(win)@.wf(),
{
    let ghost before = wt(win@, shared@, out@);
    let (fs, current): (bool, FileId) = match win.viewer() {
        Some(viewer) => (viewer.is_fs(), viewer.nav.current()),
        None => {
            return None;
        },
    };
    if !fs {
        push_text(win, ToastKind::Info, "Archive entries can't be modified", out);
        assert(wt(win@, shared@, out@) == toasted(
            before,
            ToastKind::Info,
            "Archive entries can't be modified"@,
        ));
        return None;
    }
    if shared.config.value.read_only {
        push_text(win, ToastKind::Info, "Read-only mode is on", out);
        assert(wt(win@, shared@, out@) == toasted(
            before,
            ToastKind::Info,
            "Read-only mode is on"@,
        ));
        return None;
    }
    Some(current)
}

fn set_modal(win: &mut Window, modal: Option<Modal>)
    ensures
        final(win)@ == (WindowModel {
            modal: match modal {
                Some(m) => Some(m@),
                None => None,
            },
            ..old(win)@
        }),
{
    win.modal = modal;
}

/// The playback a delete of `file` has to release, so that nothing keeps the
/// file open.
pub open spec fn playback_of(w: WindowModel, file: FileId) -> Option<VideoSession> {
    match w.viewer {
        Some(v) if v.current() == file => v.video.session,
        _ => None,
    }
}

/// A file sent to the recycle bin. An open playback of it is released first and
/// sent along, to be taken up again should the delete fail.
#[verifier::opaque]
pub open spec fn delete_fired(t: Wt, file: FileId) -> Wt {
    let resume = playback_of(t.w, file);
    let closed = t.with_modal(None);
    (match resume {
        Some(session) => {
            let v = t.w.viewer->0;
            closed.with_viewer(
                Some(
                    ViewerModel {
                        video: VideoState { session: None, seek_drag: false, ..v.video },
                        ..v
                    },
                ),
            ).act(Action::SuspendVideo { playing: session.playing })
        },
        None => closed,
    }).act(Action::Trash { file, resume })
}

/// Send a file to the recycle bin.
pub fn fire_delete(win: &mut Window, shared: &Shared, file: FileId, out: &mut Vec<Action>)
    requires
        old(win)@.wf(),
    ensures
        wt(final(win)@, shared@, final(out)@) == delete_fired(
            wt(old(win)@, shared@, old(out)@),
            file,
        ),
        final(win)@.wf(),
{
    proof {
        reveal(delete_fired);
    }
    set_modal(win, None);
    let resume: Option<VideoSession> = match win.viewer_mut() {
        Some(viewer) => if viewer.nav.current() == file {
            match viewer.video.session {
                Some(session) => {
                    viewer.video.session = None;
                    viewer.video.seek_drag = false;
                    out.push(Action::SuspendVideo { playing: session.playing });
                    Some(session)
                },
                None => None,
            }
        } else {
            None
        },
        None => None,
    };
    out.push(Action::Trash { file, resume });
}

/// A delete asked for: confirmed first if so configured.
pub open spec fn delete_requested(t: Wt) -> Wt {
    match op_target(t.w, t.s) {
        Some(file) => if t.s.config.value.confirm_delete {
            t.with_modal(Some(ModalModel::ConfirmDelete(file)))
        } else {
            delete_fired(t, file)
        },
        None => op_refused(t),
    }
}

/// Ask to delete the current file.
pub fn request_delete(win: &mut Window, shared: &Shared, out: &mut Vec<Action>)
    requires
        old(win)@.wf(),
    ensures
        wt(final(win)@, shared@, final(out)@) == delete_requested(
            wt(old(win)@, shared@, old(out)@),
        ),
        final(win)@.wf(),
{
    match file_op_target(win, shared, out) {
        Some(file) => {
            if shared.config.value.confirm_delete {
                set_modal(win, Some(Modal::ConfirmDelete(file)));
            } else {
                fire_delete(win, shared, file, out);
            }
        },
        None => {},
    }
}

/// A confirmed delete. Any other dialog is closed without one.
pub open spec fn delete_confirmed(t: Wt) -> Wt {
    match t.w.modal {
        Some(ModalModel::ConfirmDelete(file)) => delete_fired(t, file),
        _ => t.with_modal(None),
    }
}

/// Delete the file the dialog asks about.
pub fn confirm_delete(win: &mut Window, shared: &Shared, out: &mut Vec<Action>)
    requires
        old(win)@.wf(),
    ensures
        wt(final(win)@, shared@, final(out)@) == delete_confirmed(
            wt(old(win)@, shared@, old(out)@),
        ),
        final(win)@.wf(),
{
    let file: Option<FileId> = match &win.modal {
        Some(Modal::ConfirmDelete(file)) => Some(*file),
        _ => None,
    };
    match file {
        Some(file) => fire_delete(win, shared, file, out),
        None => set_modal(win, None),
    }
}

/// The disk thumbnail of a file that is gone purged, if there is a store.
pub open spec fn thumb_purged(t: Wt, file: FileId) -> Wt {
    if t.s.status.value.disk_store {
        t.act(Action::PurgeDiskThumb { file })
    } else {
        t
    }
}

/// A viewer without a deleted file, moved on to what took its place.
#[verifier::opaque]
pub open spec fn file_removed(t: St, ctx: Ctx, file: FileId) -> St {
    let u = St { v: ViewerModel { pending_nav: None, ..t.v }, ..t };
    let f = forgotten(u, ctx.window, file);
    if last_file(t.v, file) {
        f
    } else {
        navigated(f, ctx, f.v.nav.cursor, true)
    }
}

fn remove_file(
    viewer: &mut Viewer,
    shared: &mut Shared,
    ctx: Ctx,
    file: FileId,
    out: &mut Vec<Action>,
) -> (left: bool)
    requires
        old(viewer)@.wf(),
    ensures
        st(final(viewer)@, final(shared)@, final(out)@) == file_removed(
            st(old(viewer)@, old(shared)@, old(out)@),
            ctx,
            file,
        ),
        left == !last_file(old(viewer)@, file),
        final(viewer)@.wf(),
{
    proof {
        reveal(file_removed);
    }
    viewer.pending_nav = None;
    let ghost u = st(viewer@, shared@, out@);
    let left = forget_file(viewer, shared, ctx.window, file);
    assert(st(viewer@, shared@, out@) == forgotten(u, ctx.window, file));
    if left {
        let cursor: usize = viewer.nav.cursor();
        complete_navigation(viewer, shared, ctx, cursor, true, out);
    }
    left
}

/// The playback released for a delete taken up again, if its file is still the
/// current one and nothing else plays.
#[verifier::opaque]
pub open spec fn playback_resumed(t: Wt, file: FileId, resume: Option<VideoSession>) -> Wt {
    match (resume, t.w.viewer) {
        (Some(session), Some(v)) => if v.current() == file && v.video.session is None
            && v.video.suspended is None {
            t.with_viewer(
                Some(
                    ViewerModel {
                        video: VideoState { session: Some(session), ..v.video },
                        ..v
                    },
                ),
            ).act(Action::ResumeVideo)
        } else {
            t
        },
        _ => t,
    }
}

fn resume_playback(
    win: &mut Window,
    shared: &Shared,
    file: FileId,
    resume: Option<VideoSession>,
    out: &mut Vec<Action>,
)
    requires
        old(win)@.wf(),
    ensures
        wt(final(win)@, shared@, final(out)@) == playback_resumed(
            wt(old(win)@, shared@, old(out)@),
            file,
            resume,
        ),
        final(win)@.wf(),
{
    proof {
        reveal(playback_resumed);
    }
    match (resume, win.viewer_mut()) {
        (Some(session), Some(viewer)) => {
            if viewer.nav.current() == file && viewer.video.session.is_none()
                && viewer.video.suspended.is_none() {
                viewer.video.session = Some(session);
                out.push(Action::ResumeVideo);
            }
        },
        _ => {},
    }
}

/// The end of a delete taken in: the file leaves the listing and the display
/// moves on, or the window empties with its last file. After a failure the
/// playback released for it goes on.
#[verifier::opaque]
pub open spec fn delete_landed(
    t: Wt,
    ctx: Ctx,
    file: FileId,
    result: Result<(), String>,
    resume: Option<VideoSession>,
) -> Wt {
    match result {
        Err(e) => toasted(
            playback_resumed(t, file, resume),
            ToastKind::Error,
            "Couldn't delete: "@ + e@,
        ),
        Ok(_) => {
            let u = thumb_purged(t, file);
            match t.w.viewer {
                Some(v) => {
                    let removed = u.with_inner(file_removed(u.inner(), ctx, file));
                    toasted(
                        if last_file(v, file) {
                            session_closed(removed)
                        } else {
                            removed
                        },
                        ToastKind::Info,
                        "Moved to Recycle Bin"@,
                    )
                },
                None => u,
            }
        },
    }
}

/// Take in the end of a delete.
pub fn delete_finished(
    win: &mut Window,
    shared: &mut Shared,
    ctx: Ctx,
    file: FileId,
    result: Result<(), String>,
    resume: Option<VideoSession>,
    out: &mut Vec<Action>,
)
    requires
        old(win)@.wf(),
    ensures
        wt(final(win)@, final(shared)@, final(out)@) == delete_landed(
            wt(old(win)@, old(shared)@, old(out)@),
            ctx,
            file,
            result,
            resume,
        ),
        final(win)@.wf(),
{
    proof {
        reveal(delete_landed);
    }
    match result {
        Err(e) => {
            resume_playback(win, shared, file, resume, out);
            let ghost before = wt(win@, shared@, out@);
            push_notice(win, ToastKind::Error, "Couldn't delete: ", e.as_str(), out);
            assert(wt(win@, shared@, out@) == toasted(
                before,
                ToastKind::Error,
                "Couldn't delete: "@ + e@,
            ));
        },
        Ok(_) => {
            if shared.status.value.disk_store {
                out.push(Action::PurgeDiskThumb { file });
            }
            let ghost u = wt(win@, shared@, out@);
            let left: bool = match win.viewer_mut() {
                Some(viewer) => remove_file(viewer, shared, ctx, file, out),
                None => {
                    return ;
                },
            };
            let ghost removed = wt(win@, shared@, out@);
            assert(removed == u.with_inner(file_removed(u.inner(), ctx, file)));
            if !left {
                close_session(win, shared);
                assert(wt(win@, shared@, out@) == session_closed(removed));
                proof {
                    lemma_session_closed(removed);
                }
            }
            let ghost gone = wt(win@, shared@, out@);
            push_text(win, ToastKind::Info, "Moved to Recycle Bin", out);
            assert(wt(win@, shared@, out@) == toasted(
                gone,
                ToastKind::Info,
                "Moved to Recycle Bin"@,
            ));
        },
    }
}

/// A rename asked for: the dialog opens on the current name.
pub open spec fn rename_requested(t: Wt) -> Wt {
    match op_target(t.w, t.s) {
        Some(file) => t.with_modal(
            Some(ModalModel::Rename { input: name_text(t.s, file) }),
        ).act(Action::FocusRenameInput),
        None => op_refused(t),
    }
}

/// Ask to rename the current file.
pub fn request_rename(win: &mut Window, shared: &Shared, out: &mut Vec<Action>)
    requires
        old(win)@.wf(),
    ensures
        wt(final(win)@, shared@, final(out)@) == rename_requested(
            wt(old(win)@, shared@, old(out)@),
        ),
        final(win)@.wf(),
{
    match file_op_target(win, shared, out) {
        Some(file) => {
            let input = name_of(shared, file);
            set_modal(win, Some(Modal::Rename { input }));
            out.push(Action::FocusRenameInput);
        },
        None => {},
    }
}

/// The text of the rename dialog replaced. Nothing without one.
pub fn rename_input(win: &mut Window, text: String)
    requires
        old(win)@.wf(),
    ensures
        final(win)@ == match old(win)@.modal {
            Some(ModalModel::Rename { .. }) => WindowModel {
                modal: Some(ModalModel::Rename { input: text@ }),
                ..old(win)@
            },
            _ => old(win)@,
        },
        final(win)@.wf(),
{
    let renaming: bool = match &win.modal {
        Some(Modal::Rename { .. }) => true,
        _ => false,
    };
    if renaming {
        set_modal(win, Some(Modal::Rename { input: text }));
    }
}

/// What committing a rename comes to: an invalid name is explained with the
/// dialog left open, an unchanged one only closes it, and a new one is handed
/// on under the number of its path.
pub open spec fn rename_committed(before: Wt, after: Wt) -> bool {
    match (before.w.modal, before.w.viewer) {
        (Some(ModalModel::Rename { input }), viewer) => match rename_problem(input) {
            Some(problem) => after == toasted(before, ToastKind::Error, problem),
            None => match viewer {
                Some(v) => {
                    let from = path_text(before.s.paths, v.current());
                    let to = sibling_text(from, trimmed(input), before.s.paths.style);
                    if to == from {
                        after == before.with_modal(None)
                    } else {
                        exists|file: Option<FileId>, paths: crate::paths::PathsModel|
                            #![trigger interned(before.s.paths, paths, Source::Fs, to, file)]
                            {
                                &&& interned(before.s.paths, paths, Source::Fs, to, file)
                                &&& after == match file {
                                    Some(to) => Wt {
                                        s: SharedModel { paths, ..before.s },
                                        ..before.with_modal(None)
                                    }.act(Action::RenameFile { from: v.current(), to }),
                                    None => before.with_modal(None),
                                }
                            }
                    }
                },
                None => after == before,
            },
        },
        _ => after == before,
    }
}

/// Rename the current file to what the dialog says.
pub fn commit_rename(win: &mut Window, shared: &mut Shared, out: &mut Vec<Action>)
    requires
        old(win)@.wf(),
    ensures
        rename_committed(
            wt(old(win)@, old(shared)@, old(out)@),
            wt(final(win)@, final(shared)@, final(out)@),
        ),
        final(win)@.wf(),
        crate::paths::distinct(old(shared)@.paths) ==> crate::paths::distinct(
            final(shared)@.paths,
        ),
{
    let ghost before = wt(win@, shared@, out@);
    let checked: Result<String, String> = match &win.modal {
        Some(Modal::Rename { input }) => validate_rename(input.as_str()),
        _ => {
            return ;
        },
    };
    let name: String = match checked {
        Ok(name) => name,
        Err(problem) => {
            push_text(win, ToastKind::Error, problem.as_str(), out);
            assert(wt(win@, shared@, out@) == toasted(before, ToastKind::Error, problem@));
            return ;
        },
    };
    let from: FileId = match win.viewer() {
        Some(viewer) => viewer.nav.current(),
        None => {
            return ;
        },
    };
    let old_path = shared.paths.path(from);
    let new_path = sibling(old_path.as_str(), name.as_str(), shared.paths.style);
    set_modal(win, None);
    if text_eq(new_path.as_str(), old_path.as_str()) {
        return ;
    }
    let file = shared.paths.intern(Source::Fs, new_path.as_str());
    assert(interned(before.s.paths, shared@.paths, Source::Fs, new_path@, file));
    match file {
        Some(to) => {
            out.push(Action::RenameFile { from, to });
        },
        None => {
            assert(shared@ == before.s);
        },
    }
}

/// A viewer whose file `from` is now called `to`: what was held of it stays
/// held, and what was on screen stays on screen.
#[verifier::opaque]
pub open spec fn file_renamed(t: St, window: u64, from: FileId, to: FileId) -> St {
    let held = want_of(t.v.cache, from);
    St {
        v: ViewerModel {
            nav: t.v.nav.renamed(from, to),
            cache: match held {
                Some(want) => leased(leases_without(t.v.cache, set![from]), to, want),
                None => t.v.cache,
            },
            anim: t.v.anim.removed(from),
            displayed_path: if t.v.displayed_path == Some(from) {
                Some(to)
            } else {
                t.v.displayed_path
            },
            exif: if t.v.exif == Some(from) {
                Some(to)
            } else {
                t.v.exif
            },
            ..t.v
        },
        s: SharedModel {
            store: match held {
                Some(want) => t.s.store.rekeyed(window, from, to, want),
                None => t.s.store,
            },
            anims: if holds(t.v.anim.cache, from) {
                t.s.anims.released(window, from)
            } else {
                t.s.anims
            },
            thumbs: if t.s.thumbs.contains_key(from) {
                t.s.thumbs.remove(from).insert(to, t.s.thumbs.at(from))
            } else {
                t.s.thumbs
            },
            ..t.s
        },
        ..t
    }
}

fn carry_over(viewer: &mut Viewer, shared: &mut Shared, window: u64, from: FileId, to: FileId)
    requires
        old(viewer)@.wf(),
    ensures
        forall|out: Seq<Action>|
            #![trigger st(old(viewer)@, old(shared)@, out)]
            st(final(viewer)@, final(shared)@, out) == file_renamed(
                st(old(viewer)@, old(shared)@, out),
                window,
                from,
                to,
            ),
        final(viewer)@.wf(),
{
    proof {
        reveal(file_renamed);
    }
    viewer.nav.rename(from, to);
    match viewer.cache.want_of(from) {
        Some(want) => {
            shared.store.rekey(window, from, to, want);
            viewer.cache.remove(from);
            viewer.cache.insert(to, want);
        },
        None => {},
    }
    match shared.thumbs.get(from) {
        Some(thumb) => {
            shared.thumbs.remove(from);
            shared.thumbs.insert(to, thumb);
        },
        None => {},
    }
    viewer.anim_player.remove(from, window, &mut shared.anim_store);
    if viewer.displayed_path == Some(from) {
        viewer.displayed_path = Some(to);
    }
    if viewer.exif == Some(from) {
        viewer.exif = Some(to);
    }
}

/// The end of a rename taken in.
#[verifier::opaque]
pub open spec fn rename_landed(
    t: Wt,
    ctx: Ctx,
    from: FileId,
    to: FileId,
    result: Result<(), String>,
) -> Wt {
    match result {
        Err(e) => toasted(t, ToastKind::Error, "Couldn't rename: "@ + e@),
        Ok(_) => {
            let u = thumb_purged(t, from);
            match t.w.viewer {
                Some(_) => u.with_inner(file_renamed(u.inner(), ctx.window, from, to)),
                None => u,
            }
        },
    }
}

/// Take in the end of a rename.
pub fn rename_finished(
    win: &mut Window,
    shared: &mut Shared,
    ctx: Ctx,
    from: FileId,
    to: FileId,
    result: Result<(), String>,
    out: &mut Vec<Action>,
)
    requires
        old(win)@.wf(),
    ensures
        wt(final(win)@, final(shared)@, final(out)@) == rename_landed(
            wt(old(win)@, old(shared)@, old(out)@),
            ctx,
            from,
            to,
            result,
        ),
        final(win)@.wf(),
{
    proof {
        reveal(rename_landed);
    }
    let ghost before = wt(win@, shared@, out@);
    match result {
        Err(e) => {
            push_notice(win, ToastKind::Error, "Couldn't rename: ", e.as_str(), out);
            assert(wt(win@, shared@, out@) == toasted(
                before,
                ToastKind::Error,
                "Couldn't rename: "@ + e@,
            ));
        },
        Ok(_) => {
            if shared.status.value.disk_store {
                out.push(Action::PurgeDiskThumb { file: from });
            }
            match win.viewer_mut() {
                Some(viewer) => {
                    let ghost u = st(viewer@, shared@, out@);
                    carry_over(viewer, shared, ctx.window, from, to);
                    assert(st(viewer@, shared@, out@) == file_renamed(u, ctx.window, from, to));
                },
                None => {},
            }
        },
    }
}

/// How many times a refused move to the recycle bin is tried.
pub const TRASH_ATTEMPTS: u32 = 5;

/// Whether to try again after the attempt numbered `attempt` (from zero)
/// failed. A video decoder can keep the file open for a moment.
pub fn retry_trash(attempt: u32) -> (again: bool)
    ensures
        again == (attempt + 1 < TRASH_ATTEMPTS),
{
    attempt < TRASH_ATTEMPTS - 1
}

/// A name that passed is left as it is: trimming it again changes nothing, and
/// it passes again.
pub proof fn law_valid_names_stay_valid(input: Seq<char>)
    requires
        rename_problem(input) is None,
    ensures
        trimmed(trimmed(input)) == trimmed(input),
        rename_problem(trimmed(input)) is None,
{
    lemma_trimmed_twice(input);
}

/// A failed delete leaves playback as it was: what was released for it is taken
/// up again.
pub proof fn law_failed_delete_restores_playback(t: Wt, file: FileId)
    requires
        t.w.viewer is Some,
        t.w.viewer->0.video.suspended is None,
    ensures
        ({
            let fired = delete_fired(t, file);
            let after = playback_resumed(fired, file, playback_of(t.w, file));
            &&& after.w.viewer is Some
            &&& after.w.viewer->0.video.session == t.w.viewer->0.video.session
            &&& after.w.viewer->0.nav == t.w.viewer->0.nav
            &&& after.w.viewer->0.displayed == t.w.viewer->0.displayed
        }),
{
    reveal(delete_fired);
    reveal(playback_resumed);
}

} // verus!
