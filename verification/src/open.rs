//! Opening and rescanning folders and archives.
use crate::actions::Action;
use crate::files::FileId;
use crate::media_tasks::{st, Ctx, St};
use crate::nav::{Nav, NavError, NavModel};
use crate::navigation::{
    complete_navigation, files_replaced, navigated, open_action, open_path, open_viewer, opened,
    replace_files_keeping_pending,
};
use crate::paths::{dir_part, parent, path_text, text_eq, Source};
use crate::state::{texts, Shared, SharedModel, Viewer, ViewerModel};
use crate::text::{name_of, name_text};
use crate::window::{
    close_session, lemma_session_closed, push_notice, session_closed, toasted, wt, Session,
    ToastKind, Window, WindowState, Wt,
};
use vstd::prelude::*;

verus! {

/// What a directory scan comes back with: the file to start on, whether a
/// folder rather than a file was opened, and the listing.
pub struct Scan {
    pub start: FileId,
    pub opened_dir: bool,
    pub listing: Result<Vec<FileId>, String>,
}

/// What scanning for `path` amounts to: a directory opens at its first file, a
/// file opens at itself within its parent `dir`.
pub fn scan_outcome(
    path: FileId,
    is_dir: bool,
    dir: FileId,
    listing: Result<Vec<FileId>, String>,
) -> (scan: Scan)
    ensures
        scan.opened_dir == is_dir,
        match listing {
            Ok(files) => if is_dir && files@.len() == 0 {
                &&& scan.start == dir
                &&& scan.listing is Err
                &&& scan.listing->Err_0@ == "directory contains no supported images"@
            } else {
                &&& scan.start == if is_dir {
                    files@[0]
                } else {
                    path
                }
                &&& scan.listing is Ok
                &&& scan.listing->Ok_0@ == files@
            },
            Err(e) => {
                &&& scan.start == if is_dir {
                    dir
                } else {
                    path
                }
                &&& scan.listing is Err
                &&& scan.listing->Err_0@ == e@
            },
        },
{
    match listing {
        Ok(files) => {
            if !is_dir {
                Scan { start: path, opened_dir: false, listing: Ok(files) }
            } else if files.len() > 0 {
                let first = files[0];
                Scan { start: first, opened_dir: true, listing: Ok(files) }
            } else {
                Scan {
                    start: dir,
                    opened_dir: true,
                    listing: Err("directory contains no supported images".to_owned()),
                }
            }
        },
        Err(e) => Scan {
            start: if is_dir {
                dir
            } else {
                path
            },
            opened_dir: is_dir,
            listing: Err(e),
        },
    }
}

/// The window with no open under way.
pub open spec fn open_settled(t: Wt) -> Wt {
    t.with_state(WindowState { opening_since: None, ..t.w.state.value })
}

fn settle_open(win: &mut Window)
    ensures
        forall|s: SharedModel, out: Seq<Action>|
            #![trigger wt(old(win)@, s, out)]
            wt(final(win)@, s, out) == open_settled(wt(old(win)@, s, out)),
{
    win.set_state(WindowState { opening_since: None, ..win.state.value });
}

/// A path handed over to be opened.
pub open spec fn path_handed(t: Wt, ctx: Ctx, file: FileId) -> Wt {
    t.with_state(WindowState { opening_since: Some(ctx.now), ..t.w.state.value }).act(
        open_action(t.s, file),
    )
}

/// Start opening a dropped, picked, or forwarded path.
pub fn hand_path(win: &mut Window, shared: &Shared, ctx: Ctx, file: FileId, out: &mut Vec<Action>)
    requires
        old(win)@.wf(),
    ensures
        wt(final(win)@, shared@, final(out)@) == path_handed(
            wt(old(win)@, shared@, old(out)@),
            ctx,
            file,
        ),
        final(win)@.wf(),
{
    win.set_state(WindowState { opening_since: Some(ctx.now), ..win.state.value });
    open_path(shared, file, out);
}

/// The window viewing a freshly opened listing in place of what it viewed.
#[verifier::opaque]
pub open spec fn listing_opened(
    t: Wt,
    ctx: Ctx,
    nav: NavModel,
    source: Source,
    container: bool,
) -> Wt {
    let u = session_closed(t);
    u.with_inner(opened(nav, source, container, u.s, ctx, u.out))
}

fn open_listing(
    win: &mut Window,
    shared: &mut Shared,
    ctx: Ctx,
    nav: Nav,
    source: Source,
    container: bool,
    out: &mut Vec<Action>,
)
    requires
        nav@.wf(),
        old(win)@.wf(),
    ensures
        wt(final(win)@, final(shared)@, final(out)@) == listing_opened(
            wt(old(win)@, old(shared)@, old(out)@),
            ctx,
            nav@,
            source,
            container,
        ),
        final(win)@.wf(),
{
    proof {
        reveal(listing_opened);
    }
    let ghost before = wt(win@, shared@, out@);
    close_session(win, shared);
    let ghost closed = wt(win@, shared@, out@);
    assert(closed == session_closed(before));
    let viewer = open_viewer(nav, source, container, shared, ctx, out);
    win.session = Session::Viewing(Box::new(viewer));
    assert(wt(win@, shared@, out@) == closed.with_inner(
        opened(nav@, source, container, closed.s, ctx, closed.out),
    ));
}

/// Why a listing did not open, in words.
pub open spec fn nav_error_text(err: NavError) -> Seq<char> {
    match err {
        NavError::Empty => "directory contains no supported images"@,
        NavError::NotListed => "not a supported image"@,
    }
}

fn nav_error(err: NavError) -> (text: &'static str)
    ensures
        text@ == nav_error_text(err),
{
    match err {
        NavError::Empty => "directory contains no supported images",
        NavError::NotListed => "not a supported image",
    }
}

/// A directory scan taken in: the listing opens at its start file, or the
/// reason it does not is shown.
#[verifier::opaque]
pub open spec fn scan_landed(t: Wt, ctx: Ctx, scan: Scan) -> Wt {
    let u = open_settled(t);
    match scan.listing {
        Ok(files) => if files@.len() == 0 {
            toasted(u, ToastKind::Error, "Couldn't open: "@ + nav_error_text(NavError::Empty))
        } else {
            match files@.index_of_first(scan.start) {
                Some(cursor) => listing_opened(
                    u,
                    ctx,
                    NavModel { files: files@, cursor },
                    Source::Fs,
                    scan.opened_dir,
                ),
                None => toasted(
                    u,
                    ToastKind::Error,
                    "Couldn't open: "@ + nav_error_text(NavError::NotListed),
                ),
            }
        },
        Err(e) => toasted(u, ToastKind::Error, "Couldn't open: "@ + e@),
    }
}

/// Take in a directory scan.
pub fn directory_scanned(
    win: &mut Window,
    shared: &mut Shared,
    ctx: Ctx,
    scan: Scan,
    out: &mut Vec<Action>,
)
    requires
        old(win)@.wf(),
    ensures
        wt(final(win)@, final(shared)@, final(out)@) == scan_landed(
            wt(old(win)@, old(shared)@, old(out)@),
            ctx,
            scan,
        ),
        final(win)@.wf(),
{
    proof {
        reveal(scan_landed);
    }
    settle_open(win);
    let ghost u = wt(win@, shared@, out@);
    let start = scan.start;
    let opened_dir = scan.opened_dir;
    match scan.listing {
        Ok(files) => {
            let ghost listed = files@;
            proof {
                listed.index_of_first_ensures(start);
            }
            match Nav::new(files, start) {
                Ok(nav) => {
                    open_listing(win, shared, ctx, nav, Source::Fs, opened_dir, out);
                },
                Err(err) => {
                    push_notice(win, ToastKind::Error, "Couldn't open: ", nav_error(err), out);
                    assert(wt(win@, shared@, out@) == toasted(
                        u,
                        ToastKind::Error,
                        "Couldn't open: "@ + nav_error_text(err),
                    ));
                },
            }
        },
        Err(e) => {
            push_notice(win, ToastKind::Error, "Couldn't open: ", e.as_str(), out);
            assert(wt(win@, shared@, out@) == toasted(
                u,
                ToastKind::Error,
                "Couldn't open: "@ + e@,
            ));
        },
    }
}

/// An archive's index taken in: it opens at its first entry, or it is reported
/// to hold none.
#[verifier::opaque]
pub open spec fn archive_landed(
    t: Wt,
    ctx: Ctx,
    archive: FileId,
    index: Result<Vec<FileId>, String>,
) -> Wt {
    let u = open_settled(t);
    match index {
        Ok(entries) => if entries@.len() == 0 {
            toasted(
                u,
                ToastKind::Error,
                name_text(t.s, archive) + ": archive contains no supported images"@,
            )
        } else {
            listing_opened(
                u,
                ctx,
                NavModel { files: entries@, cursor: 0 },
                Source::Archive(archive),
                true,
            )
        },
        Err(e) => toasted(u, ToastKind::Error, "Couldn't open archive: "@ + e@),
    }
}

/// Take in an archive's index.
pub fn archive_scanned(
    win: &mut Window,
    shared: &mut Shared,
    ctx: Ctx,
    archive: FileId,
    index: Result<Vec<FileId>, String>,
    out: &mut Vec<Action>,
)
    requires
        old(win)@.wf(),
    ensures
        wt(final(win)@, final(shared)@, final(out)@) == archive_landed(
            wt(old(win)@, old(shared)@, old(out)@),
            ctx,
            archive,
            index,
        ),
        final(win)@.wf(),
{
    proof {
        reveal(archive_landed);
    }
    settle_open(win);
    let ghost u = wt(win@, shared@, out@);
    match index {
        Ok(entries) => {
            if entries.len() == 0 {
                let name = name_of(shared, archive);
                push_notice(
                    win,
                    ToastKind::Error,
                    name.as_str(),
                    ": archive contains no supported images",
                    out,
                );
                assert(wt(win@, shared@, out@) == toasted(
                    u,
                    ToastKind::Error,
                    name_text(u.s, archive) + ": archive contains no supported images"@,
                ));
                return ;
            }
            let nav = Nav { files: entries, cursor: 0 };
            open_listing(win, shared, ctx, nav, Source::Archive(archive), true, out);
        },
        Err(e) => {
            push_notice(win, ToastKind::Error, "Couldn't open archive: ", e.as_str(), out);
            assert(wt(win@, shared@, out@) == toasted(
                u,
                ToastKind::Error,
                "Couldn't open archive: "@ + e@,
            ));
        },
    }
}

/// The file menu closed.
pub open spec fn menu_closed(t: Wt) -> Wt {
    t.with_state(WindowState { open_menu: None, ..t.w.state.value })
}

/// Ask for a file through the system dialog.
pub fn open_file(win: &mut Window, shared: &Shared, out: &mut Vec<Action>)
    requires
        old(win)@.wf(),
    ensures
        wt(final(win)@, shared@, final(out)@) == menu_closed(
            wt(old(win)@, shared@, old(out)@),
        ).act(Action::OpenDialog),
        final(win)@.wf(),
{
    win.set_state(WindowState { open_menu: None, ..win.state.value });
    out.push(Action::OpenDialog);
}

/// Close what is open and return to the empty window.
pub fn close_file(win: &mut Window, shared: &mut Shared)
    requires
        old(win)@.wf(),
    ensures
        forall|out: Seq<Action>|
            #![trigger wt(old(win)@, old(shared)@, out)]
            wt(final(win)@, final(shared)@, out) == session_closed(
                menu_closed(wt(old(win)@, old(shared)@, out)),
            ),
        final(win)@.wf(),
{
    let ghost before = win@;
    let ghost held = shared@;
    win.set_state(WindowState { open_menu: None, ..win.state.value });
    let ghost closed = win@;
    close_session(win, shared);
    assert forall|out: Seq<Action>|
        #![trigger wt(before, held, out)]
        wt(win@, shared@, out) == session_closed(menu_closed(wt(before, held, out))) by {
        assert(wt(closed, held, out) == menu_closed(wt(before, held, out)));
    }
    proof {
        lemma_session_closed(wt(closed, held, Seq::empty()));
    }
}

/// Whether a rescan of `dir` is about what this viewer shows.
pub open spec fn rescan_applies(v: ViewerModel, s: SharedModel, dir: FileId) -> bool {
    v.source == Source::Fs && dir_part(
        path_text(s.paths, v.current()),
        s.paths.style,
    ) == path_text(s.paths, dir)
}

/// A changed listing taken in: errors are forgotten, since a file may have been
/// fixed, and the display moves on if its file is gone.
#[verifier::opaque]
pub open spec fn relisted(t: St, ctx: Ctx, files: Seq<FileId>) -> St {
    let u = St {
        v: ViewerModel { failed_loads: Map::empty(), ..files_replaced(t.v, files) },
        ..t
    };
    if u.v.current() != t.v.current() {
        navigated(u, ctx, u.v.nav.cursor, true)
    } else {
        u
    }
}

fn relist(
    viewer: &mut Viewer,
    shared: &mut Shared,
    ctx: Ctx,
    files: Vec<FileId>,
    out: &mut Vec<Action>,
)
    requires
        old(viewer)@.wf(),
    ensures
        st(final(viewer)@, final(shared)@, final(out)@) == relisted(
            st(old(viewer)@, old(shared)@, old(out)@),
            ctx,
            files@,
        ),
        final(viewer)@.wf(),
{
    proof {
        reveal(relisted);
    }
    let previous = viewer.nav.current();
    replace_files_keeping_pending(viewer, files);
    viewer.failed_loads.clear();
    assert(texts(viewer.failed_loads@) =~= Map::empty());
    if viewer.nav.current() != previous {
        let cursor: usize = viewer.nav.cursor();
        complete_navigation(viewer, shared, ctx, cursor, true, out);
    }
}

/// A rescan taken in. One for another folder, or that failed, is ignored; an
/// empty one leaves nothing to view.
#[verifier::opaque]
pub open spec fn rescan_landed(
    t: Wt,
    ctx: Ctx,
    dir: FileId,
    files: Option<Vec<FileId>>,
) -> Wt {
    match (files, t.w.viewer) {
        (Some(files), Some(v)) => if !rescan_applies(v, t.s, dir) {
            t
        } else if files@.len() == 0 {
            session_closed(t)
        } else {
            t.with_inner(relisted(t.inner(), ctx, files@))
        },
        _ => t,
    }
}

fn rescan_is_current(viewer: &Viewer, shared: &Shared, dir: FileId) -> (yes: bool)
    requires
        viewer@.wf(),
    ensures
        yes == rescan_applies(viewer@, shared@, dir),
{
    if viewer.source != Source::Fs {
        return false;
    }
    let path = shared.paths.path(viewer.nav.current());
    let here = parent(path.as_str(), shared.paths.style);
    let there = shared.paths.path(dir);
    text_eq(here.as_str(), there.as_str())
}

/// Take in a rescan of `dir`.
pub fn directory_rescanned(
    win: &mut Window,
    shared: &mut Shared,
    ctx: Ctx,
    dir: FileId,
    files: Option<Vec<FileId>>,
    out: &mut Vec<Action>,
)
    requires
        old(win)@.wf(),
    ensures
        wt(final(win)@, final(shared)@, final(out)@) == rescan_landed(
            wt(old(win)@, old(shared)@, old(out)@),
            ctx,
            dir,
            files,
        ),
        final(win)@.wf(),
{
    proof {
        reveal(rescan_landed);
    }
    let files: Vec<FileId> = match files {
        Some(files) => files,
        None => {
            return ;
        },
    };
    let applies: bool = match win.viewer() {
        Some(viewer) => rescan_is_current(viewer, shared, dir),
        None => false,
    };
    if !applies {
        return ;
    }
    if files.len() == 0 {
        let ghost u = wt(win@, shared@, out@);
        close_session(win, shared);
        assert(wt(win@, shared@, out@) == session_closed(u));
        proof {
            lemma_session_closed(u);
        }
        return ;
    }
    match win.viewer_mut() {
        Some(viewer) => {
            relist(viewer, shared, ctx, files, out);
        },
        None => {},
    }
}

} // verus!
