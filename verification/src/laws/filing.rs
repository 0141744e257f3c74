//! What deleting and renaming do to a window.
use crate::actions::Action;
use crate::dispatch::{dispatched, transient_dismissed};
use crate::file_ops::{
    delete_fired, delete_landed, file_removed, file_renamed, has_invalid, is_invalid,
    playback_resumed, rename_landed, rename_problem, thumb_purged,
};
use crate::files::FileId;
use crate::laws::arrival::{law_arrival, lemma_arrived};
use crate::laws::loading::{
    extends, lemma_extends_push, lemma_extends_self, lemma_extends_trans, lemma_leased,
};
use crate::laws::neighborhood::law_removal_keeps_the_cursor_on_its_file;
use crate::laws::settings::tells;
use crate::leases::{leases_without, lemma_filtered_holds, want_of};
use crate::media::forgotten;
use crate::media_tasks::{Ctx, St};
use crate::message::{Message, ModalMessage};
use crate::navigation::navigated;
use crate::paths::{
    has_extension, is_separator, is_white, last_where, media_extensions, path_text, sibling_text,
    trimmed, Source,
};
use crate::state::{Thumb, VideoSession, VideoState, ViewerModel};
use crate::store::{others, Claim};
use crate::text::name_text;
use crate::thumbs::{thumb_files, CachedThumb, ThumbsModel};
use crate::window::{lemma_session_closed, ModalModel, ToastKind, Wt};
use vstd::prelude::*;

verus! {

/// Whether `before` takes `msg` from a dialog or a key that asks for one.
pub open spec fn asked(before: Wt, after: Wt, ctx: Ctx, msg: ModalMessage) -> bool {
    dispatched(before, after, ctx, Message::Modal(msg))
}

/// Whether the current file may be changed: it is a file on disk, and the viewer
/// is not in read-only mode.
pub open spec fn may_change(t: Wt) -> bool {
    &&& t.w.viewer is Some
    &&& t.w.viewer->0.source == Source::Fs
    &&& !t.s.config.value.read_only
}

/// Whether `after` is `before` with its dialog closed and `file` on its way to
/// the recycle bin. A video that plays it lets go of it, to be resumed should
/// the delete fail.
pub open spec fn trashes(before: Wt, after: Wt, file: FileId) -> bool {
    let v = before.w.viewer->0;
    let plays = before.w.viewer is Some && v.current() == file && v.video.session is Some;
    &&& after.w.modal is None
    &&& after.s == before.s
    &&& after.w.toasts == before.w.toasts
    &&& plays ==> {
        &&& after.w.viewer == Some(
            ViewerModel {
                video: VideoState { session: None, seek_drag: false, ..v.video },
                ..v
            },
        )
        &&& after.out == before.out.push(
            Action::SuspendVideo { playing: v.video.session->0.playing },
        ).push(Action::Trash { file, resume: v.video.session })
    }
    &&& !plays ==> after.w.viewer == before.w.viewer && after.out == before.out.push(
        Action::Trash { file, resume: None },
    )
}

/// A delete concerns the current file: it is asked for first where that is
/// configured, and done at once otherwise. Files in archives, and any file in
/// read-only mode, are refused with a word why.
pub proof fn law_delete_asks_or_trashes(before: Wt, after: Wt, ctx: Ctx)
    requires
        asked(before, after, ctx, ModalMessage::RequestDelete),
        before.w.modal is None,
    ensures
        may_change(before) && before.s.config.value.confirm_delete ==> {
            &&& after.w.modal == Some(
                ModalModel::ConfirmDelete(before.w.viewer->0.current()),
            )
            &&& after.w.viewer == before.w.viewer
            &&& after.s == before.s
            &&& after.out == before.out
        },
        may_change(before) && !before.s.config.value.confirm_delete ==> trashes(
            before,
            after,
            before.w.viewer->0.current(),
        ),
        !may_change(before) ==> {
            &&& after.w.modal is None
            &&& after.w.viewer == before.w.viewer
            &&& after.s == before.s
            &&& before.w.viewer is None ==> after.out == before.out && after.w.toasts
                == before.w.toasts
            &&& before.w.viewer is Some ==> tells(
                before,
                after,
                Seq::empty(),
                ToastKind::Info,
                if before.w.viewer->0.source != Source::Fs {
                    "Archive entries can't be modified"@
                } else {
                    "Read-only mode is on"@
                },
            )
        },
{
    reveal(delete_fired);
    assert(before.out + Seq::<Action>::empty() =~= before.out);
}

/// A confirmed delete is of the file the dialog was put up for, however it is
/// confirmed; a cancelled dialog only closes.
pub proof fn law_confirmed_delete_is_of_the_asked_file(
    before: Wt,
    confirmed: Wt,
    submitted: Wt,
    cancelled: Wt,
    ctx: Ctx,
    file: FileId,
)
    requires
        before.w.modal == Some(ModalModel::ConfirmDelete(file)),
        asked(before, confirmed, ctx, ModalMessage::ConfirmDeleteNow),
        asked(before, submitted, ctx, ModalMessage::Submit),
        asked(before, cancelled, ctx, ModalMessage::Cancel),
    ensures
        trashes(before, confirmed, file),
        trashes(before, submitted, file),
        cancelled.w.modal is None,
        cancelled.w.viewer == before.w.viewer,
        cancelled.s == before.s,
        cancelled.out == before.out,
{
    reveal(delete_fired);
}

/// A failed delete changes nothing of the listing, says why, and takes playback
/// up again where the file is still current and nothing else plays.
pub proof fn law_failed_delete_keeps_the_file(
    before: Wt,
    after: Wt,
    ctx: Ctx,
    file: FileId,
    err: String,
    resume: Option<VideoSession>,
)
    requires
        asked(before, after, ctx, ModalMessage::DeleteFinished(file, Err(err), resume)),
        before.w.viewer is Some,
    ensures
        after.s == before.s,
        ({
            let v = before.w.viewer->0;
            let resumes = resume is Some && v.current() == file && v.video.session is None
                && v.video.suspended is None;
            &&& after.w.viewer == Some(
                if resumes {
                    ViewerModel { video: VideoState { session: resume, ..v.video }, ..v }
                } else {
                    v
                },
            )
            &&& tells(
                before,
                after,
                if resumes {
                    seq![Action::ResumeVideo]
                } else {
                    Seq::empty()
                },
                ToastKind::Error,
                "Couldn't delete: "@ + err@,
            )
        }),
{
    reveal(delete_landed);
    reveal(playback_resumed);
    assert(before.out + Seq::<Action>::empty() =~= before.out);
    assert(before.out.push(Action::ResumeVideo) =~= before.out + seq![Action::ResumeVideo]);
}

/// A deleted file leaves the listing, with its thumbnail on disk; the cursor
/// arrives at the file that took its place, or the one before it at the end. The
/// last file takes the viewer with it.
pub proof fn law_deleted_file_leaves_the_listing(
    before: Wt,
    after: Wt,
    ctx: Ctx,
    file: FileId,
    resume: Option<VideoSession>,
)
    requires
        asked(before, after, ctx, ModalMessage::DeleteFinished(file, Ok(()), resume)),
        before.w.viewer is Some,
        before.w.viewer->0.wf(),
        before.w.viewer->0.current() == file,
        before.w.viewer->0.nav.files.no_duplicates(),
    ensures
        after.w.toasts.len() == before.w.toasts.len() + 1,
        after.w.toasts.last().kind == ToastKind::Info,
        after.w.toasts.last().text == "Moved to Recycle Bin"@,
        extends(before.out, after.out),
        before.s.status.value.disk_store ==> after.out.len() > before.out.len()
            && after.out[before.out.len() as int] == (Action::PurgeDiskThumb { file }),
        before.w.viewer->0.nav.files.len() == 1 ==> after.w.viewer is None,
        before.w.viewer->0.nav.files.len() > 1 ==> {
            let v = before.w.viewer->0;
            let now = after.w.viewer->0;
            &&& after.w.viewer is Some
            &&& now.nav.files == v.nav.files.remove(v.nav.cursor)
            &&& now.nav.cursor == if v.nav.cursor == v.nav.files.len() - 1 {
                v.nav.cursor - 1
            } else {
                v.nav.cursor
            }
            &&& now.pending_nav is None
            &&& now.rotation == 0
        },
{
    reveal(delete_landed);
    reveal(file_removed);
    let msg = ModalMessage::DeleteFinished(file, Ok(()), resume);
    let t = transient_dismissed(before, Message::Modal(msg));
    let v = before.w.viewer->0;
    v.nav.files.index_of_first_ensures(file);
    assert(v.nav.files.index_of_first(file) == Some(v.nav.cursor));
    let u = thumb_purged(t, file);
    let purge = Action::PurgeDiskThumb { file };
    lemma_extends_self(before.out);
    lemma_extends_push(before.out, before.out, purge);
    let g = St { v: ViewerModel { pending_nav: None, ..v }, s: u.s, out: u.out };
    let f = forgotten(g, ctx.window, file);
    let end = if v.nav.files.len() > 1 {
        law_arrival(f, ctx, f.v.nav.cursor, true);
        let there = navigated(f, ctx, f.v.nav.cursor, true);
        lemma_arrived(f, there, ctx, f.v.nav.cursor, true);
        there.out
    } else {
        lemma_session_closed(u.with_inner(f));
        u.out
    };
    lemma_extends_self(u.out);
    assert(extends(u.out, end));
    lemma_extends_trans(before.out, u.out, end);
    assert(after.out == end.push(after.out.last()));
    lemma_extends_push(before.out, end, after.out.last());
    if before.s.status.value.disk_store {
        assert(end.take(u.out.len() as int)[before.out.len() as int] == purge);
    }
}

/// A rename starts from the current name, in a dialog, and follows what is
/// typed there; what may not be changed is refused with a word why.
pub proof fn law_rename_starts_from_the_current_name(before: Wt, after: Wt, ctx: Ctx)
    requires
        asked(before, after, ctx, ModalMessage::RequestRename),
        before.w.modal is None,
    ensures
        after.w.viewer == before.w.viewer,
        after.s == before.s,
        may_change(before) ==> after.w.modal == Some(
            ModalModel::Rename { input: name_text(before.s, before.w.viewer->0.current()) },
        ) && after.out == before.out.push(Action::FocusRenameInput),
        !may_change(before) ==> after.w.modal is None && (before.w.viewer is Some ==> tells(
            before,
            after,
            Seq::empty(),
            ToastKind::Info,
            if before.w.viewer->0.source != Source::Fs {
                "Archive entries can't be modified"@
            } else {
                "Read-only mode is on"@
            },
        )),
{
    assert(before.out + Seq::<Action>::empty() =~= before.out);
}

/// What is typed into the rename dialog is what it holds; without that dialog it
/// is dropped.
pub proof fn law_typed_name_is_held(before: Wt, after: Wt, ctx: Ctx, text: String)
    requires
        asked(before, after, ctx, ModalMessage::RenameInput(text)),
    ensures
        after.w.viewer == before.w.viewer,
        after.s == before.s,
        after.out == before.out,
        before.w.modal is Some && before.w.modal->0 is Rename ==> after.w.modal == Some(
            ModalModel::Rename { input: text@ },
        ),
        !(before.w.modal is Some && before.w.modal->0 is Rename) ==> after.w.modal
            == before.w.modal,
{
}

/// Whether `to` is `from` with everything behind its last separator replaced by
/// `name`.
pub open spec fn renamed_to(
    from: Seq<char>,
    to: Seq<char>,
    name: Seq<char>,
    windows: bool,
) -> bool {
    exists|k: int|
        {
            &&& 0 <= k <= from.len()
            &&& to == #[trigger] from.take(k) + name
            &&& k > 0 ==> from[k - 1] == '/' || windows && from[k - 1] == '\\'
            &&& forall|i: int|
                k <= i < from.len() ==> (#[trigger] from[i]) != '/' && !(windows && from[i]
                    == '\\')
        }
}

pub proof fn lemma_last_where(text: Seq<char>, p: spec_fn(char) -> bool)
    ensures
        -1 <= last_where(text, p) < text.len(),
        last_where(text, p) >= 0 ==> p(text[last_where(text, p)]),
        forall|i: int| last_where(text, p) < i < text.len() ==> !p(#[trigger] text[i]),
    decreases text.len(),
{
    if text.len() > 0 && !p(text.last()) {
        lemma_last_where(text.drop_last(), p);
        assert forall|i: int| last_where(text, p) < i < text.len() implies !p(
            #[trigger] text[i],
        ) by {
            if i < text.len() - 1 {
                assert(text.drop_last()[i] == text[i]);
            }
        }
    }
}

/// A committed name renames the current file in its own directory, without the
/// blanks around it; a name that will not do keeps the dialog up and is said to;
/// the name it has already only closes the dialog.
pub proof fn law_committed_name_renames_in_place(
    before: Wt,
    after: Wt,
    ctx: Ctx,
    input: Seq<char>,
)
    requires
        asked(before, after, ctx, ModalMessage::CommitRename),
        before.w.modal == Some(ModalModel::Rename { input }),
        before.w.viewer is Some,
    ensures
        after.w.viewer == before.w.viewer,
        ({
            let file = before.w.viewer->0.current();
            let from = path_text(before.s.paths, file);
            let windows = before.s.paths.style is Windows;
            match rename_problem(input) {
                Some(problem) => after.s == before.s && after.w.modal == before.w.modal && tells(
                    before,
                    after,
                    Seq::empty(),
                    ToastKind::Error,
                    problem,
                ),
                None => {
                    &&& after.w.modal is None
                    &&& after.w.toasts == before.w.toasts
                    &&& after.out == before.out || {
                        &&& after.out.len() == before.out.len() + 1
                        &&& after.out.last() is RenameFile
                        &&& after.out.last()->from == file
                        &&& renamed_to(
                            from,
                            path_text(after.s.paths, after.out.last()->to),
                            trimmed(input),
                            windows,
                        )
                    }
                    &&& after.out == before.out ==> renamed_to(
                        from,
                        from,
                        trimmed(input),
                        windows,
                    ) || before.s.paths.entries.len() == u64::MAX
                },
            }
        }),
{
    let file = before.w.viewer->0.current();
    let from = path_text(before.s.paths, file);
    let style = before.s.paths.style;
    let p = |c: char| is_separator(c, style);
    let name = trimmed(input);
    lemma_last_where(from, p);
    let k = last_where(from, p) + 1;
    assert(sibling_text(from, name, style) =~= from.take(k) + name);
    assert forall|i: int| k <= i < from.len() implies (#[trigger] from[i]) != '/' && !(
    style is Windows && from[i] == '\\') by {
        assert(!p(from[i]));
    }
    assert(renamed_to(from, sibling_text(from, name, style), name, style is Windows));
    assert(before.out + Seq::<Action>::empty() =~= before.out);
}

/// A name that will do has a character, none that a file system refuses, and no
/// blank at either end.
pub proof fn law_accepted_name_is_clean(input: Seq<char>)
    requires
        rename_problem(input) is None,
    ensures
        trimmed(input).len() > 0,
        !is_white(trimmed(input).first()),
        !is_white(trimmed(input).last()),
        forall|i: int|
            #![trigger trimmed(input)[i]]
            0 <= i < trimmed(input).len() ==> ({
                let c = trimmed(input)[i];
                c != '<' && c != '>' && c != ':' && c != '"' && c != '/' && c != '\\' && c != '|'
                    && c != '?' && c != '*'
            }),
{
    lemma_trimmed_ends(input);
    assert forall|i: int| #![trigger trimmed(input)[i]] 0 <= i < trimmed(input).len() implies ({
        let c = trimmed(input)[i];
        c != '<' && c != '>' && c != ':' && c != '"' && c != '/' && c != '\\' && c != '|' && c
            != '?' && c != '*'
    }) by {
        assert(!is_invalid(trimmed(input)[i]));
    }
}

/// What is left after trimming has no blank at either end.
pub proof fn lemma_trimmed_ends(text: Seq<char>)
    ensures
        trimmed(text).len() > 0 ==> !is_white(trimmed(text).first()) && !is_white(
            trimmed(text).last(),
        ),
    decreases text.len(),
{
    if text.len() > 0 {
        if is_white(text.first()) {
            lemma_trimmed_ends(text.drop_first());
        } else if is_white(text.last()) {
            lemma_trimmed_ends(text.drop_last());
        }
    }
}

/// Whether `text` is blank all through.
pub open spec fn blank(text: Seq<char>) -> bool {
    forall|i: int| 0 <= i < text.len() ==> is_white(#[trigger] text[i])
}

/// Trimming takes blanks away and nothing else.
pub proof fn law_trimming_takes_only_blanks(text: Seq<char>)
    ensures
        exists|a: Seq<char>, b: Seq<char>|
            #![trigger blank(a), blank(b)]
            blank(a) && blank(b) && text == a + trimmed(text) + b,
    decreases text.len(),
{
    let e = Seq::<char>::empty();
    assert(blank(e));
    if text.len() > 0 && is_white(text.first()) {
        law_trimming_takes_only_blanks(text.drop_first());
        let (a, b) = choose|a: Seq<char>, b: Seq<char>|
            #![trigger blank(a), blank(b)]
            blank(a) && blank(b) && text.drop_first() == a + trimmed(text.drop_first()) + b;
        let c = seq![text.first()] + a;
        assert(blank(c)) by {
            assert forall|i: int| 0 <= i < c.len() implies is_white(#[trigger] c[i]) by {
                if i > 0 {
                    assert(c[i] == a[i - 1]);
                }
            }
        }
        assert(text =~= c + trimmed(text) + b) by {
            assert(text =~= seq![text.first()] + text.drop_first());
        }
    } else if text.len() > 0 && is_white(text.last()) {
        law_trimming_takes_only_blanks(text.drop_last());
        let (a, b) = choose|a: Seq<char>, b: Seq<char>|
            #![trigger blank(a), blank(b)]
            blank(a) && blank(b) && text.drop_last() == a + trimmed(text.drop_last()) + b;
        let c = b.push(text.last());
        assert(blank(c)) by {
            assert forall|i: int| 0 <= i < c.len() implies is_white(#[trigger] c[i]) by {
                if i < b.len() {
                    assert(c[i] == b[i]);
                }
            }
        }
        assert(text =~= a + trimmed(text) + c) by {
            assert(text =~= text.drop_last().push(text.last()));
        }
    } else {
        assert(text =~= e + trimmed(text) + e);
    }
}

/// What a renamed file was to its window, the file under its new name is: its
/// place in the listing, the hold on it, its pixels and texture, its metadata
/// and its place on screen.
pub proof fn law_renamed_file_keeps_its_place(
    before: Wt,
    after: Wt,
    ctx: Ctx,
    from: FileId,
    to: FileId,
)
    requires
        asked(before, after, ctx, ModalMessage::RenameFinished(from, to, Ok(()))),
        before.w.viewer is Some,
        before.w.viewer->0.wf(),
        before.w.viewer->0.current() == from,
        before.w.viewer->0.nav.files.no_duplicates(),
        from != to,
    ensures
        after.w.viewer is Some,
        ({
            let v = before.w.viewer->0;
            let now = after.w.viewer->0;
            let want = want_of(v.cache, from);
            &&& now.nav.files == v.nav.files.update(v.nav.cursor, to)
            &&& now.nav.cursor == v.nav.cursor
            &&& now.displayed == v.displayed
            &&& now.pending_nav == v.pending_nav
            &&& now.displayed_path == if v.displayed_path == Some(from) {
                Some(to)
            } else {
                v.displayed_path
            }
            &&& now.exif == if v.exif == Some(from) {
                Some(to)
            } else {
                v.exif
            }
            &&& want is Some ==> {
                &&& want_of(now.cache, to) == want
                &&& want_of(now.cache, from) is None
                &&& after.s.store.entry(to) == before.s.store.entry(from)
                &&& after.s.store.claims.contains(
                    Claim { window: ctx.window, file: to, want: want->0 },
                )
                &&& !after.s.store.claims.contains(
                    Claim { window: ctx.window, file: from, want: want->0 },
                )
            }
            &&& want is None ==> now.cache == v.cache && after.s.store == before.s.store
            &&& before.s.thumbs.contains_key(from) ==> after.s.thumbs.contains_key(to)
                && after.s.thumbs.at(to) == before.s.thumbs.at(from)
            &&& after.out == if before.s.status.value.disk_store {
                before.out.push(Action::PurgeDiskThumb { file: from })
            } else {
                before.out
            }
        }),
{
    reveal(rename_landed);
    reveal(file_renamed);
    let v = before.w.viewer->0;
    v.nav.files.index_of_first_ensures(from);
    assert(v.nav.files.index_of_first(from) == Some(v.nav.cursor));
    if want_of(v.cache, from) is Some {
        let want = want_of(v.cache, from)->0;
        let rest = leases_without(v.cache, set![from]);
        lemma_filtered_holds(v.cache, set![from], from);
        lemma_leased(rest, to, want, to);
        lemma_leased(rest, to, want, from);
        let freed = others(before.s.store.claims, ctx.window, from);
        let theirs = others(freed, ctx.window, to);
        let mine = Claim { window: ctx.window, file: to, want };
        let gone = Claim { window: ctx.window, file: from, want };
        let all = theirs.push(mine);
        assert(all[theirs.len() as int] == mine);
        if all.contains(gone) {
            let i = choose|i: int| 0 <= i < all.len() && all[i] == gone;
            assert(theirs[i] == gone);
            assert(theirs.contains(gone));
            freed.lemma_filter_contains_rev(
                |c: Claim| !(c.window == ctx.window && c.file == to),
                gone,
            );
            let j = choose|j: int| 0 <= j < freed.len() && freed[j] == gone;
            before.s.store.claims.lemma_filter_pred(
                |c: Claim| !(c.window == ctx.window && c.file == from),
                j,
            );
        }
    }
    if before.s.thumbs.contains_key(from) {
        law_kept_thumbnail_is_found(before.s.thumbs.remove(from), to, before.s.thumbs.at(from));
    }
}

/// A thumbnail that is put in is found under its file, as it is.
pub proof fn law_kept_thumbnail_is_found(thumbs: ThumbsModel, file: FileId, thumb: Thumb)
    ensures
        thumbs.insert(file, thumb).contains_key(file),
        thumbs.insert(file, thumb).at(file) == thumb,
{
    let rest = thumbs.list.filter(|c: CachedThumb| c.file != file);
    let list = rest.push(CachedThumb { file, thumb });
    let files = thumb_files(list);
    assert(files[rest.len() as int] == file);
    assert forall|i: int| 0 <= i < rest.len() implies files[i] != file by {
        thumbs.list.lemma_filter_pred(|c: CachedThumb| c.file != file, i);
        assert(files[i] == rest[i].file);
    }
    files.index_of_first_ensures(file);
    assert(files.index_of_first(file) == Some(rest.len() as int));
}

/// A failed rename changes nothing and says why.
pub proof fn law_failed_rename_only_tells(
    before: Wt,
    after: Wt,
    ctx: Ctx,
    from: FileId,
    to: FileId,
    err: String,
)
    requires
        asked(before, after, ctx, ModalMessage::RenameFinished(from, to, Err(err))),
    ensures
        after.w.viewer == before.w.viewer,
        after.s == before.s,
        tells(before, after, Seq::empty(), ToastKind::Error, "Couldn't rename: "@ + err@),
{
    reveal(rename_landed);
    assert(before.out + Seq::<Action>::empty() =~= before.out);
}

/// What is wrong with a name is said, the first of these that applies: there is
/// none, it has a character that file systems refuse, or its extension is not that
/// of a file that can be listed. Any other name will do.
pub proof fn law_name_problem_is_said(input: Seq<char>)
    ensures
        ({
            let name = trimmed(input);
            let refused = exists|i: int|
                #![trigger name[i]]
                0 <= i < name.len() && (name[i] == '<' || name[i] == '>' || name[i] == ':'
                    || name[i] == '"' || name[i] == '/' || name[i] == '\\' || name[i] == '|'
                    || name[i] == '?' || name[i] == '*');
            rename_problem(input) == if name.len() == 0 {
                Some("Name can't be empty"@)
            } else if refused {
                Some("Name contains invalid characters"@)
            } else if !has_extension(name, media_extensions()) {
                Some("Name must keep a supported image extension"@)
            } else {
                None
            }
        }),
{
    let name = trimmed(input);
    if has_invalid(name) {
        let i = choose|i: int| 0 <= i < name.len() && is_invalid(#[trigger] name[i]);
        assert(is_invalid(name[i]));
    }
    assert forall|i: int| 0 <= i < name.len() && (name[i] == '<' || name[i] == '>' || name[i]
        == ':' || name[i] == '"' || name[i] == '/' || name[i] == '\\' || name[i] == '|' || name[i]
        == '?' || name[i] == '*') implies is_invalid(#[trigger] name[i]) by {}
}

/// A deleted file that is not the current one leaves the listing with the cursor
/// where it was.
pub proof fn law_deleted_file_elsewhere_leaves_the_cursor(
    before: Wt,
    after: Wt,
    ctx: Ctx,
    file: FileId,
    resume: Option<VideoSession>,
)
    requires
        asked(before, after, ctx, ModalMessage::DeleteFinished(file, Ok(()), resume)),
        before.w.viewer is Some,
        before.w.viewer->0.wf(),
        before.w.viewer->0.current() != file,
        before.w.viewer->0.nav.files.contains(file),
        before.w.viewer->0.nav.files.no_duplicates(),
    ensures
        after.w.viewer is Some,
        !after.w.viewer->0.nav.files.contains(file),
        after.w.viewer->0.nav.files.len() == before.w.viewer->0.nav.files.len() - 1,
        after.w.viewer->0.current() == before.w.viewer->0.current(),
        after.w.viewer->0.pending_nav is None,
{
    reveal(delete_landed);
    reveal(file_removed);
    let msg = ModalMessage::DeleteFinished(file, Ok(()), resume);
    let t = transient_dismissed(before, Message::Modal(msg));
    let v = before.w.viewer->0;
    let u = thumb_purged(t, file);
    let i = choose|i: int| 0 <= i < v.nav.files.len() && v.nav.files[i] == file;
    assert(v.nav.files.len() > 1);
    law_removal_keeps_the_cursor_on_its_file(v.nav, file);
    let g = St { v: ViewerModel { pending_nav: None, ..v }, s: u.s, out: u.out };
    let f = forgotten(g, ctx.window, file);
    law_arrival(f, ctx, f.v.nav.cursor, true);
    let there = navigated(f, ctx, f.v.nav.cursor, true);
    lemma_arrived(f, there, ctx, f.v.nav.cursor, true);
    assert(after.w.viewer == Some(there.v));
}

} // verus!
