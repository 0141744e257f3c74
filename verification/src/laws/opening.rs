//! What a window asks for when a listing opens in it.
use crate::actions::{Action, ThumbUrgency};
use crate::config::SortKey;
use crate::dispatch::{dispatched, open_message, transient_dismissed};
use crate::files::FileId;
use crate::laws::arrival::{lemma_load_only, lemma_prefetch_leases, no_video, plays_video};
use crate::laws::loading::{
    added, asks_in_full, extends, law_full_load, lemma_added_since, lemma_added_stays,
    lemma_asks_kept_by_load, lemma_asks_kept_by_prefetch, lemma_exif_carried, lemma_extends_push,
    lemma_extends_self, lemma_extends_trans, lemma_probe_carried, lemma_thumb_carried,
    lemma_thumbnailer_carried, lemma_thumbs_carried, urgent_decode,
};
use crate::leases::files_of;
use crate::media_tasks::{
    exif_fired, focus_of, lemma_exif_frame, lemma_prefetch_frame, lemma_probe_frame,
    lemma_thumbnailer_frame, lemma_thumbs_frame, prefetch_fired, size_probed, st, thumb_fired,
    thumbnailer_fired, thumbs_fired, visible_files, Ctx, St,
};
use crate::message::{Message, OpenMessage};
use crate::nav::NavModel;
use crate::navigation::{first_requested, lemma_first_requested, needs_metadata, opened};
use crate::open::{archive_landed, listing_opened, open_settled, scan_landed, Scan};
use crate::paths::{is_video, Source};
use crate::state::{fresh_viewer, stills_released, SharedModel, Span, ViewerModel};
use crate::store::{StoreModel, Tier};
use crate::text::name_text;
use crate::video_flow::video_started;
use crate::window::{lemma_session_closed, session_closed, ToastKind, Wt};
use vstd::prelude::*;

verus! {

/// Whether the file under the cursor of a freshly opened viewer is requested: held
/// in full, and on its way to be decoded unless its pixels are there or a job for
/// it is under way. Videos are not requested as stills.
pub open spec fn requests_start(
    before_s: SharedModel,
    base: Seq<Action>,
    after: St,
    ctx: Ctx,
) -> bool {
    let file = after.v.current();
    let entry = before_s.store.entry(file);
    &&& extends(base, after.out)
    &&& !is_video(before_s.paths, file) ==> asks_in_full(
        after.v.cache,
        after.s.store,
        ctx.window,
        file,
    )
    &&& !is_video(before_s.paths, file) && entry.ram is None && !entry.pending ==> added(
        base,
        after.out,
    ).contains(urgent_decode(file))
}

proof fn lemma_first_asks(t: St, ctx: Ctx)
    requires
        !is_video(t.s.paths, t.v.current()),
        !t.v.anim.has_cached(t.s.anims, t.v.current()),
    ensures
        requests_start(t.s, t.out, first_requested(t, ctx), ctx),
{
    reveal(first_requested);
    let file = t.v.current();
    let thumbed = thumb_fired(t, file, ThumbUrgency::Urgent);
    let after = first_requested(t, ctx);
    lemma_thumb_carried(t, file, ThumbUrgency::Urgent);
    lemma_first_requested(t, ctx);
    law_full_load(thumbed, ctx.window, file);
    lemma_asks_kept_by_load(thumbed, ctx.window, file, file, Tier::Full);
    lemma_extends_trans(t.out, thumbed.out, after.out);
    let entry = t.s.store.entry(file);
    if entry.ram is None && !entry.pending {
        assert(added(thumbed.out, after.out)[0] == urgent_decode(file));
        lemma_added_since(t.out, thumbed.out, after.out, urgent_decode(file));
    }
}

/// A listing that opens asks for the file under its cursor in full, and has it
/// decoded unless its pixels are there or a job for it is under way.
pub proof fn law_opening_requests_the_start(
    nav: NavModel,
    source: Source,
    container: bool,
    s: SharedModel,
    ctx: Ctx,
    out: Seq<Action>,
)
    requires
        nav.wf(),
    ensures
        ({
            let after = opened(nav, source, container, s, ctx, out);
            &&& after.v.nav == nav
            &&& after.v.source == source
            &&& after.v.resort_to_first == container
            &&& after.v.displayed is Nothing
            &&& after.v.displayed_path is None
            &&& after.v.pending_nav is None
            &&& after.v.pending_since == Some(ctx.now)
            &&& !is_video(s.paths, nav.current()) ==> requests_start(s, out, after, ctx)
        }),
{
    reveal(opened);
    let file = nav.current();
    let fresh = st(fresh_viewer(nav, source, ctx.now), s, out);
    let reconciled = if s.status.value.disk_store {
        fresh.act(Action::ReconcileDiskThumbs)
    } else {
        fresh
    };
    lemma_extends_self(out);
    lemma_extends_push(out, out, Action::ReconcileDiskThumbs);
    let probed = size_probed(reconciled, file);
    lemma_probe_carried(reconciled, file);
    lemma_probe_frame(reconciled, file);
    lemma_extends_trans(out, reconciled.out, probed.out);
    let first = first_requested(probed, ctx);
    lemma_first_requested(probed, ctx);
    let warmed = prefetch_fired(first, ctx.window);
    lemma_prefetch_frame(first, ctx.window);
    lemma_asks_kept_by_prefetch(first, ctx.window, file);
    let row = thumbs_fired(warmed, visible_files(warmed.v, ctx.visible));
    lemma_thumbs_frame(warmed, visible_files(warmed.v, ctx.visible));
    lemma_thumbs_carried(warmed, visible_files(warmed.v, ctx.visible));
    let walked = thumbnailer_fired(row, ctx.visible, 3);
    lemma_thumbnailer_frame(row, ctx.visible, 3);
    lemma_thumbnailer_carried(row, ctx.visible, 3);
    let marked = St { v: ViewerModel { resort_to_first: container, ..walked.v }, ..walked };
    let resort = Action::Resort { needs_metadata: needs_metadata(s.config.value.sort_key) };
    let sorted = if s.config.value.sort_key != SortKey::Name || s.config.value.sort_desc {
        marked.act(resort)
    } else {
        marked
    };
    lemma_extends_self(marked.out);
    lemma_extends_push(marked.out, marked.out, resort);
    lemma_exif_carried(sorted);
    lemma_exif_frame(sorted);
    lemma_extends_self(sorted.out);
    let after = opened(nav, source, container, s, ctx, out);
    lemma_extends_trans(warmed.out, row.out, walked.out);
    lemma_extends_trans(warmed.out, walked.out, sorted.out);
    lemma_extends_trans(warmed.out, sorted.out, after.out);
    lemma_extends_trans(first.out, warmed.out, after.out);
    if !is_video(s.paths, file) {
        lemma_first_asks(probed, ctx);
        lemma_extends_trans(out, probed.out, first.out);
        lemma_extends_trans(out, first.out, after.out);
        if added(probed.out, first.out).contains(urgent_decode(file)) {
            lemma_added_since(out, probed.out, first.out, urgent_decode(file));
            lemma_added_stays(out, first.out, after.out, urgent_decode(file));
        }
    }
}

pub proof fn lemma_released_entries(store: StoreModel, window: u64, files: Seq<FileId>)
    ensures
        stills_released(store, window, files).entries == store.entries,
    decreases files.len(),
{
    if files.len() > 0 {
        lemma_released_entries(store, window, files.drop_last());
    }
}

proof fn lemma_listing_requests(t: Wt, ctx: Ctx, nav: NavModel, source: Source, container: bool)
    requires
        nav.wf(),
    ensures
        ({
            let after = listing_opened(t, ctx, nav, source, container);
            let v = after.w.viewer->0;
            &&& after.w.viewer is Some
            &&& v.nav == nav
            &&& v.source == source
            &&& v.resort_to_first == container
            &&& v.displayed is Nothing
            &&& v.displayed_path is None
            &&& v.pending_nav is None
            &&& v.pending_since == Some(ctx.now)
            &&& !is_video(t.s.paths, nav.current()) ==> requests_start(
                t.s,
                t.out,
                after.inner(),
                ctx,
            )
            &&& after.w.state == t.w.state
            &&& after.w.toasts == t.w.toasts
        }),
{
    reveal(listing_opened);
    lemma_session_closed(t);
    let u = session_closed(t);
    law_opening_requests_the_start(nav, source, container, u.s, ctx, u.out);
    assert(u.s.store.entries == t.s.store.entries) by {
        reveal(session_closed);
        match t.w.viewer {
            Some(v) => {
                lemma_released_entries(
                    t.s.store,
                    t.w.state.value.id,
                    files_of(v.cache),
                );
            },
            None => {},
        }
    }
}

/// A scanned directory opens on the file it was scanned for: the window lists
/// the scanned files with the cursor on that file and, unless it is a video,
/// asks for it in full; a decode starts at once if the store has no pixels of
/// it and no job for it under way. The wait for the scan is over either way.
pub proof fn law_scanned_directory_opens_on_its_file(
    before: Wt,
    after: Wt,
    ctx: Ctx,
    scan: Scan,
)
    requires
        dispatched(before, after, ctx, Message::Open(OpenMessage::DirectoryScanned(scan))),
        scan.listing is Ok,
    ensures
        after.w.state.value.opening_since is None,
        scan.listing->Ok_0@.contains(scan.start) ==> {
            let v = after.w.viewer->0;
            &&& after.w.viewer is Some
            &&& v.nav.files == scan.listing->Ok_0@
            &&& v.current() == scan.start
            &&& v.source == Source::Fs
            &&& v.resort_to_first == scan.opened_dir
            &&& v.displayed is Nothing
            &&& v.displayed_path is None
            &&& v.pending_nav is None
            &&& v.pending_since == Some(ctx.now)
            &&& after.w.toasts == before.w.toasts
            &&& !is_video(before.s.paths, scan.start) ==> requests_start(
                before.s,
                before.out,
                after.inner(),
                ctx,
            )
        },
        !scan.listing->Ok_0@.contains(scan.start) ==> {
            &&& after.w.viewer == before.w.viewer
            &&& after.s == before.s
            &&& after.w.toasts.len() == before.w.toasts.len() + 1
            &&& after.w.toasts.last().kind == ToastKind::Error
            &&& after.w.toasts.last().text == "Couldn't open: "@ + if scan.listing->Ok_0@.len()
                == 0 {
                "directory contains no supported images"@
            } else {
                "not a supported image"@
            }
        },
{
    reveal(open_message);
    reveal(scan_landed);
    let t = transient_dismissed(
        before,
        Message::Open(OpenMessage::DirectoryScanned(scan)),
    );
    let files = scan.listing->Ok_0@;
    files.index_of_first_ensures(scan.start);
    assert(scan.listing->Ok_0.len() == files.len());
    match files.index_of_first(scan.start) {
        Some(cursor) => {
            let nav = NavModel { files, cursor };
            lemma_listing_requests(open_settled(t), ctx, nav, Source::Fs, scan.opened_dir);
        },
        None => {},
    }
}

/// A directory that cannot be scanned leaves the window as it is, with a toast.
pub proof fn law_failed_scan_only_tells(before: Wt, after: Wt, ctx: Ctx, scan: Scan)
    requires
        dispatched(before, after, ctx, Message::Open(OpenMessage::DirectoryScanned(scan))),
        scan.listing is Err,
    ensures
        after.w.state.value.opening_since is None,
        after.w.viewer == before.w.viewer,
        after.s == before.s,
        after.w.toasts.len() == before.w.toasts.len() + 1,
        after.w.toasts.last().kind == ToastKind::Error,
        after.w.toasts.last().text == "Couldn't open: "@ + scan.listing->Err_0@,
{
    reveal(open_message);
    reveal(scan_landed);
}

/// An indexed archive opens on its first entry and asks for that as a scanned
/// directory asks for its file; an empty or broken one leaves the window as it
/// is, with a toast.
pub proof fn law_indexed_archive_opens_on_its_first_entry(
    before: Wt,
    after: Wt,
    ctx: Ctx,
    archive: FileId,
    index: Result<Vec<FileId>, String>,
)
    requires
        dispatched(
            before,
            after,
            ctx,
            Message::Open(OpenMessage::ArchiveScanned(archive, index)),
        ),
    ensures
        after.w.state.value.opening_since is None,
        index is Ok && index->Ok_0@.len() > 0 ==> {
            let v = after.w.viewer->0;
            &&& after.w.viewer is Some
            &&& v.nav.files == index->Ok_0@
            &&& v.nav.cursor == 0
            &&& v.source == Source::Archive(archive)
            &&& v.resort_to_first
            &&& v.displayed is Nothing
            &&& v.displayed_path is None
            &&& v.pending_nav is None
            &&& v.pending_since == Some(ctx.now)
            &&& after.w.toasts == before.w.toasts
            &&& !is_video(before.s.paths, index->Ok_0@[0]) ==> requests_start(
                before.s,
                before.out,
                after.inner(),
                ctx,
            )
        },
        index is Err || index->Ok_0@.len() == 0 ==> {
            &&& after.w.viewer == before.w.viewer
            &&& after.s == before.s
            &&& after.w.toasts.len() == before.w.toasts.len() + 1
            &&& after.w.toasts.last().kind == ToastKind::Error
        },
        index is Ok && index->Ok_0@.len() == 0 ==> after.w.toasts.last().text == name_text(
            before.s,
            archive,
        ) + ": archive contains no supported images"@,
        index is Err ==> after.w.toasts.last().text == "Couldn't open archive: "@
            + index->Err_0@,
{
    reveal(open_message);
    reveal(archive_landed);
    let t = transient_dismissed(
        before,
        Message::Open(OpenMessage::ArchiveScanned(archive, index)),
    );
    match index {
        Ok(entries) => {
            assert(entries.len() == entries@.len());
            if entries@.len() > 0 {
                let nav = NavModel { files: entries@, cursor: 0 };
                lemma_listing_requests(
                    open_settled(t),
                    ctx,
                    nav,
                    Source::Archive(archive),
                    true,
                );
            }
        },
        Err(_) => {},
    }
}

/// What a listing that opens has done besides: the thumbnails on disk are
/// reconciled where there are any, the size of its file is looked up, the file is
/// thumbnailed before others, the listing is put in the configured order where
/// that is not by name, and the metadata is read where it is shown.
pub proof fn law_opening_starts_its_chores(
    nav: NavModel,
    source: Source,
    container: bool,
    s: SharedModel,
    ctx: Ctx,
    out: Seq<Action>,
)
    requires
        nav.wf(),
    ensures
        ({
            let after = opened(nav, source, container, s, ctx, out);
            let news = added(out, after.out);
            let config = s.config.value;
            let file = nav.current();
            &&& extends(out, after.out)
            &&& s.status.value.disk_store ==> news.contains(Action::ReconcileDiskThumbs)
            &&& source == Source::Fs ==> news.contains(Action::ProbeSize { file })
            &&& !is_video(s.paths, file) && !s.thumbs.contains_key(file) ==> news.contains(
                Action::LoadThumb {
                    file,
                    urgency: ThumbUrgency::Urgent,
                    cheap_only: false,
                },
            )
            &&& config.sort_key != SortKey::Name || config.sort_desc ==> news.contains(
                Action::Resort {
                    needs_metadata: config.sort_key == SortKey::DateModified || config.sort_key
                        == SortKey::Size,
                },
            )
            &&& config.show_info ==> news.contains(Action::LoadExif { file })
        }),
{
    reveal(opened);
    reveal(first_requested);
    let file = nav.current();
    let config = s.config.value;
    let fresh = st(fresh_viewer(nav, source, ctx.now), s, out);
    let reconciled = if s.status.value.disk_store {
        fresh.act(Action::ReconcileDiskThumbs)
    } else {
        fresh
    };
    lemma_extends_self(out);
    lemma_extends_push(out, out, Action::ReconcileDiskThumbs);
    let probed = size_probed(reconciled, file);
    lemma_probe_carried(reconciled, file);
    lemma_probe_frame(reconciled, file);
    let first = first_requested(probed, ctx);
    lemma_first_requested(probed, ctx);
    let warmed = prefetch_fired(first, ctx.window);
    lemma_prefetch_frame(first, ctx.window);
    lemma_prefetch_leases(first, ctx.window);
    let row = thumbs_fired(warmed, visible_files(warmed.v, ctx.visible));
    lemma_thumbs_frame(warmed, visible_files(warmed.v, ctx.visible));
    lemma_thumbs_carried(warmed, visible_files(warmed.v, ctx.visible));
    lemma_thumbs_exif(warmed, visible_files(warmed.v, ctx.visible));
    let walked = thumbnailer_fired(row, ctx.visible, 3);
    lemma_thumbnailer_frame(row, ctx.visible, 3);
    lemma_thumbnailer_carried(row, ctx.visible, 3);
    lemma_thumbnailer_exif(row, ctx.visible, 3);
    let marked = St { v: ViewerModel { resort_to_first: container, ..walked.v }, ..walked };
    let resort = Action::Resort { needs_metadata: needs_metadata(config.sort_key) };
    let sorts = config.sort_key != SortKey::Name || config.sort_desc;
    let sorted = if sorts {
        marked.act(resort)
    } else {
        marked
    };
    let after = opened(nav, source, container, s, ctx, out);
    lemma_extends_self(marked.out);
    lemma_extends_push(marked.out, marked.out, resort);
    lemma_exif_carried(sorted);
    lemma_extends_self(sorted.out);
    lemma_extends_trans(marked.out, sorted.out, after.out);
    lemma_extends_trans(row.out, walked.out, after.out);
    lemma_extends_trans(warmed.out, row.out, after.out);
    lemma_extends_trans(first.out, warmed.out, after.out);
    let thumbed = thumb_fired(probed, file, ThumbUrgency::Urgent);
    lemma_thumb_carried(probed, file, ThumbUrgency::Urgent);
    lemma_asks_kept_by_load(thumbed, ctx.window, file, file, Tier::Full);
    assert(extends(probed.out, first.out)) by {
        reveal(video_started);
        lemma_extends_self(probed.out);
        if is_video(s.paths, file) {
            assert(first.out.take(probed.out.len() as int) =~= probed.out);
        } else {
            lemma_extends_trans(probed.out, thumbed.out, first.out);
        }
    }
    lemma_extends_trans(probed.out, first.out, after.out);
    lemma_extends_trans(reconciled.out, probed.out, after.out);
    lemma_extends_trans(out, reconciled.out, after.out);
    lemma_extends_trans(out, reconciled.out, probed.out);
    let news = added(out, after.out);
    if s.status.value.disk_store {
        assert(added(out, reconciled.out)[0] == Action::ReconcileDiskThumbs);
        lemma_added_stays(out, reconciled.out, after.out, Action::ReconcileDiskThumbs);
    }
    if source == Source::Fs {
        let probe = Action::ProbeSize { file };
        assert(probed.out == reconciled.out.push(probe)) by {
            reveal(size_probed);
        }
        assert(added(reconciled.out, probed.out)[0] == probe);
        lemma_added_stays(reconciled.out, probed.out, after.out, probe);
        lemma_added_since(out, reconciled.out, after.out, probe);
    }
    if !is_video(s.paths, file) && !s.thumbs.contains_key(file) {
        let thumb = Action::LoadThumb {
            file,
            urgency: ThumbUrgency::Urgent,
            cheap_only: false,
        };
        assert(thumbed.out == probed.out.push(thumb)) by {
            reveal(thumb_fired);
            reveal(size_probed);
        }
        assert(added(probed.out, thumbed.out)[0] == thumb);
        lemma_added_stays(probed.out, thumbed.out, first.out, thumb);
        lemma_added_stays(probed.out, first.out, after.out, thumb);
        lemma_added_since(out, probed.out, after.out, thumb);
    }
    lemma_extends_trans(out, probed.out, first.out);
    lemma_extends_trans(first.out, warmed.out, row.out);
    lemma_extends_trans(first.out, row.out, walked.out);
    lemma_extends_trans(out, first.out, marked.out);
    lemma_extends_trans(out, marked.out, sorted.out);
    if sorts {
        assert(added(marked.out, sorted.out)[0] == resort);
        lemma_added_stays(marked.out, sorted.out, after.out, resort);
        lemma_added_since(out, marked.out, after.out, resort);
    }
    if config.show_info {
        let exif = Action::LoadExif { file };
        assert(sorted.v.exif is None) by {
            reveal(size_probed);
            reveal(thumb_fired);
            reveal(video_started);
            lemma_load_only(thumbed, ctx.window, file, Tier::Full);
        }
        assert(after.out == sorted.out.push(exif)) by {
            reveal(exif_fired);
        }
        assert(added(sorted.out, after.out)[0] == exif);
        lemma_added_since(out, sorted.out, after.out, exif);
    }
}

proof fn lemma_thumbs_exif(t: St, files: Seq<FileId>)
    ensures
        thumbs_fired(t, files).v.exif == t.v.exif,
    decreases files.len(),
{
    reveal(thumbs_fired);
    reveal(thumb_fired);
    if files.len() > 0 {
        lemma_thumbs_exif(t, files.drop_last());
    }
}

proof fn lemma_thumbnailer_exif(t: St, visible: Span, chains: nat)
    ensures
        thumbnailer_fired(t, visible, chains).v.exif == t.v.exif,
    decreases chains,
{
    reveal(thumbnailer_fired);
    reveal(ViewerModel::scanned);
    reveal(thumb_fired);
    if chains > 0 {
        let (center, range) = focus_of(t.v, visible, t.s.config.value.show_filmstrip);
        let walked = St { v: t.v.scanned(t.s, center, range), ..t };
        match t.v.next_unthumbed(t.s, center, range) {
            Some(file) => {
                lemma_thumbnailer_exif(
                    thumb_fired(walked, file, ThumbUrgency::Background),
                    visible,
                    (chains - 1) as nat,
                );
            },
            None => {},
        }
    }
}

/// A listing that opens on a video plays it at once if it is on disk, with the
/// saved settings, and extracts it first if it is in an archive.
pub proof fn law_opening_plays_its_video(t: St, ctx: Ctx)
    requires
        is_video(t.s.paths, t.v.current()),
        no_video(t.v.video),
    ensures
        plays_video(t, first_requested(t, ctx), ctx.now, t.out, t.v.current()),
        first_requested(t, ctx).v.cache == t.v.cache,
        extends(t.out, first_requested(t, ctx).out),
{
    reveal(first_requested);
    reveal(video_started);
    let after = first_requested(t, ctx);
    assert(after.out.take(t.out.len() as int) =~= t.out);
    assert(added(t.out, after.out)[0] == after.out.last());
}

} // verus!
