//! What is requested in the background, and for whom.
use crate::actions::{Action, JobZoom, Lane, ThumbUrgency};
use crate::dispatch::{dispatched, media_stepped, transient_dismissed, video_message};
use crate::files::FileId;
use crate::laws::decaying::{lemma_sole_demand, sole_claimant};
use crate::laws::landing::law_thumbnail_stands_in;
use crate::laws::loading::{added, lemma_leased, lemma_thumbnailer_carried};
use crate::laws::settings::tells;
use crate::leases::want_of;
use crate::media::{thumb_landed, ThumbResult};
use crate::media_tasks::{
    archive_thumb_fired, clamped, focus_of, lemma_thumbnailer_frame, lemma_thumbs_frame,
    load_fired, thumb_fired, thumbnailer_fired, thumbs_fired, visible_files, Ctx, St,
};
use crate::message::{FilmstripMessage, MediaMessage, Message, VideoMessage};
use crate::panels::strip_message;
use crate::paths::{is_video, Source};
use crate::state::{
    law_thumbnailer_picks_the_nearest, SharedModel, Span, VideoSession, VideoState, ViewerModel,
};
use crate::store::{claimed, Claim, Job, Tier};
use crate::video_flow::{extraction_landed, extraction_opened, extraction_unmarked};
use crate::window::{ToastKind, Wt};
use vstd::prelude::*;

verus! {

/// A load of an image this window does not hold yet, nor any other, at less than
/// full quality: it holds it from then on at that tier, and has it decoded behind
/// the work for what is on screen.
pub proof fn law_background_load(t: St, window: u64, file: FileId, want: Tier)
    requires
        want == Tier::InRam || want == Tier::View,
        !is_video(t.s.paths, file),
        !t.v.anim.has_cached(t.s.anims, file),
        want_of(t.v.cache, file) is None,
        sole_claimant(t.s.store.claims, window, file),
    ensures
        ({
            let after = load_fired(t, window, file, want);
            let entry = t.s.store.entry(file);
            let decode = Action::RunJob {
                job: Job::Decode { file },
                lane: Lane::Prefetch,
                zoom: JobZoom::Fit,
            };
            let upload = Action::RunJob {
                job: Job::Upload { file, tier: want },
                lane: Lane::Prefetch,
                zoom: JobZoom::Fit,
            };
            &&& want_of(after.v.cache, file) == Some(want)
            &&& after.s.store.claims.contains(Claim { window, file, want })
            &&& after.out == if entry.pending {
                t.out
            } else if entry.ram is None {
                t.out.push(decode)
            } else if want == Tier::InRam || (entry.minted is Some && entry.minted->0.tier
                == want) {
                t.out
            } else {
                t.out.push(upload)
            }
            &&& after.v.in_flight == if !entry.pending && entry.ram is None {
                t.v.in_flight.insert(file)
            } else {
                t.v.in_flight
            }
        }),
{
    reveal(load_fired);
    lemma_leased(t.v.cache, file, want, file);
    lemma_sole_demand(t.s.store.claims, window, file, want);
    let claims = claimed(t.s.store.claims, window, file, want);
    let mine = Claim { window, file, want };
    assert(claims.last() == mine);
    assert(claims[claims.len() - 1] == mine);
}

/// A video, and an animation whose frames this window holds, is never loaded as
/// a still.
pub proof fn law_only_stills_are_loaded(t: St, window: u64, file: FileId, want: Tier)
    requires
        is_video(t.s.paths, file) || (want_of(t.v.anim.cache, file) is Some
            && t.s.anims.frames.contains_key(file)),
    ensures
        load_fired(t, window, file, want) == t,
{
    reveal(load_fired);
}

/// Whether a thumbnail of `file` is there, on its way, or known not to come.
pub open spec fn thumb_dealt_with(v: ViewerModel, s: SharedModel, file: FileId) -> bool {
    ||| s.thumbs.contains_key(file)
    ||| v.in_flight_thumbs.contains(file)
    ||| v.failed_thumbs.contains(file)
    ||| is_video(s.paths, file) && v.source != Source::Fs
}

/// A thumbnail is requested once: not while it is there, on its way, or known to
/// fail, nor for a video inside an archive. While the file itself is being
/// decoded only a cheap one is asked for, videos excepted.
pub proof fn law_thumbnail_is_requested_once(t: St, file: FileId, urgency: ThumbUrgency)
    ensures
        ({
            let after = thumb_fired(t, file, urgency);
            &&& thumb_dealt_with(after.v, after.s, file)
            &&& thumb_dealt_with(t.v, t.s, file) ==> after == t
            &&& !thumb_dealt_with(t.v, t.s, file) ==> {
                &&& after.v == (ViewerModel {
                    in_flight_thumbs: t.v.in_flight_thumbs.insert(file),
                    ..t.v
                })
                &&& after.s == t.s
                &&& after.out == t.out.push(
                    Action::LoadThumb {
                        file,
                        urgency,
                        cheap_only: t.v.in_flight.contains(file) && !is_video(t.s.paths, file),
                    },
                )
            }
        }),
{
    reveal(thumb_fired);
}

/// The file of every cell that is scrolled into view has its thumbnail there, on
/// its way, or given up on.
pub proof fn law_visible_row_is_thumbnailed(
    before: Wt,
    after: Wt,
    ctx: Ctx,
    visible: Span,
    i: int,
)
    requires
        dispatched(
            before,
            after,
            ctx,
            Message::Filmstrip(FilmstripMessage::Scrolled(visible)),
        ),
        before.w.viewer is Some,
        before.w.viewer->0.wf(),
        visible.start <= i < visible.end,
        i < before.w.viewer->0.nav.files.len(),
    ensures
        after.w.viewer is Some,
        after.w.viewer->0.nav == before.w.viewer->0.nav,
        after.s == before.s,
        thumb_dealt_with(after.w.viewer->0, after.s, before.w.viewer->0.nav.files[i]),
{
    reveal(strip_message);
    let v = before.w.viewer->0;
    let files = visible_files(v, visible);
    let range = clamped(visible, v.nav.files.len() as int);
    assert(files[i - range.start] == v.nav.files[i]);
    let t = transient_dismissed(
        before,
        Message::Filmstrip(FilmstripMessage::Scrolled(visible)),
    ).inner();
    lemma_thumbs_frame(t, files);
    lemma_thumbs_deal(t, files, i - range.start);
}

proof fn lemma_thumbs_deal(t: St, files: Seq<FileId>, k: int)
    requires
        0 <= k < files.len(),
    ensures
        thumb_dealt_with(thumbs_fired(t, files).v, thumbs_fired(t, files).s, files[k]),
    decreases files.len(),
{
    reveal(thumbs_fired);
    let rest = files.drop_last();
    let u = thumbs_fired(t, rest);
    law_thumbnail_is_requested_once(u, files.last(), ThumbUrgency::Background);
    if k < rest.len() {
        lemma_thumbs_deal(t, rest, k);
        assert(rest[k] == files[k]);
    }
}

/// An extracted video that is still current plays from its copy, with the saved
/// settings; where the window is minimized and such videos pause, it is paused at
/// once and will play when the window is back.
pub proof fn law_extracted_video_plays_from_its_copy(t: St, file: FileId, temp: u64, pause: bool)
    ensures
        ({
            let after = extraction_opened(t, file, temp, pause);
            let config = t.s.config.value;
            &&& after.s == t.s
            &&& after.v.video == (VideoState {
                session: Some(
                    VideoSession {
                        playing: !pause,
                        looping: config.video_loop,
                        muted: config.video_muted,
                        temp: Some(temp),
                    },
                ),
                ..t.v.video
            })
            &&& after.out.len() > t.out.len()
            &&& after.out.take(t.out.len() as int) == t.out
            &&& after.out[t.out.len() as int] == (Action::OpenVideo {
                file,
                extracted: Some(temp),
                volume: config.video_volume,
                muted: config.video_muted,
                looping: config.video_loop,
                hardware: config.hardware_decode,
            })
            &&& pause ==> after.out.len() > t.out.len() + 1 && after.out[t.out.len() as int + 1]
                == Action::PauseVideo
            &&& !pause ==> !added(t.out, after.out).contains(Action::PauseVideo)
            &&& after.v.in_flight_thumbs.contains(file) || after.s.thumbs.contains_key(file)
                || after.v.failed_thumbs.contains(file)
        }),
{
    reveal(extraction_opened);
    reveal(archive_thumb_fired);
    let after = extraction_opened(t, file, temp, pause);
    assert(after.out.take(t.out.len() as int) =~= t.out);
}

/// An extraction that comes back for another file than the current one is thrown
/// away; one that failed is told. Either way it is no longer under way.
pub proof fn law_late_or_failed_extraction(
    before: Wt,
    after: Wt,
    ctx: Ctx,
    file: FileId,
    result: Result<u64, String>,
)
    requires
        dispatched(
            before,
            after,
            ctx,
            Message::VideoControls(VideoMessage::Extracted(file, result)),
        ),
        before.w.viewer is Some,
        before.w.viewer->0.current() != file || result is Err,
    ensures
        after.w.viewer is Some,
        after.s == before.s,
        ({
            let v = before.w.viewer->0;
            let now = after.w.viewer->0;
            &&& now.video == (VideoState {
                extracting: if v.video.extracting == Some(file) {
                    None
                } else {
                    v.video.extracting
                },
                ..v.video
            })
            &&& now.nav == v.nav
            &&& now.displayed == v.displayed
            &&& v.current() != file ==> after.w.toasts == before.w.toasts && now.pending_since
                == v.pending_since && after.out == match result {
                Ok(temp) => before.out.push(Action::DiscardTemp { temp }),
                Err(_) => before.out,
            }
            &&& v.current() == file ==> now.pending_since is None && tells(
                before,
                after,
                Seq::empty(),
                ToastKind::Error,
                "Couldn't play video: "@ + result->Err_0@,
            )
        }),
{
    reveal(video_message);
    reveal(extraction_landed);
    assert(before.out + Seq::<Action>::empty() =~= before.out);
}

/// An extraction that comes back for the current file of a window in focus opens
/// it there.
pub proof fn law_extraction_opens_in_view(
    before: Wt,
    after: Wt,
    ctx: Ctx,
    file: FileId,
    temp: u64,
)
    requires
        dispatched(
            before,
            after,
            ctx,
            Message::VideoControls(VideoMessage::Extracted(file, Ok(temp))),
        ),
        before.w.viewer is Some,
        before.w.viewer->0.current() == file,
        before.w.state.value.focused,
        !before.w.state.value.minimized,
    ensures
        after.w.viewer is Some,
        after.s == before.s,
        after.w.viewer->0.video.session == Some(
            VideoSession {
                playing: true,
                looping: before.s.config.value.video_loop,
                muted: before.s.config.value.video_muted,
                temp: Some(temp),
            },
        ),
        after.w.state.value.video_resumes_on_restore
            == before.w.state.value.video_resumes_on_restore,
        after.out.len() > before.out.len(),
        after.out[before.out.len() as int] is OpenVideo,
        after.out[before.out.len() as int]->OpenVideo_file == file,
        after.out[before.out.len() as int]->OpenVideo_extracted == Some(temp),
{
    reveal(video_message);
    reveal(extraction_landed);
    let msg = Message::VideoControls(VideoMessage::Extracted(file, Ok(temp)));
    let t = transient_dismissed(before, msg);
    let u = t.with_viewer(
        Some(extraction_unmarked(before.w.viewer->0, file)),
    );
    law_extracted_video_plays_from_its_copy(u.inner(), file, temp, false);
}

/// The background thumbnailer starts with the file it picks next, in the
/// background, and stops when it has none; it never starts more than it is told.
pub proof fn law_thumbnailer_starts_its_pick(t: St, visible: Span, chains: nat)
    requires
        chains > 0,
    ensures
        ({
            let after = thumbnailer_fired(t, visible, chains);
            let (center, range) = focus_of(t.v, visible, t.s.config.value.show_filmstrip);
            &&& after.out.len() <= t.out.len() + chains
            &&& after.out.len() >= t.out.len()
            &&& after.out.take(t.out.len() as int) == t.out
            &&& match t.v.next_unthumbed(t.s, center, range) {
                Some(file) => after.out.len() > t.out.len() && after.out[t.out.len() as int]
                    == (Action::LoadThumb {
                    file,
                    urgency: ThumbUrgency::Background,
                    cheap_only: t.v.in_flight.contains(file) && !is_video(t.s.paths, file),
                }),
                None => after.out == t.out,
            }
        }),
{
    lemma_thumbnailer_len(t, visible, chains);
    lemma_thumbnailer_carried(t, visible, chains);
    reveal(thumbnailer_fired);
    let (center, range) = focus_of(t.v, visible, t.s.config.value.show_filmstrip);
    let walked = St { v: t.v.scanned(t.s, center, range), ..t };
    match t.v.next_unthumbed(t.s, center, range) {
        Some(file) => {
            law_thumbnailer_picks_the_nearest(t.v, t.s, center, range, 0);
            let u = thumb_fired(walked, file, ThumbUrgency::Background);
            reveal(ViewerModel::scanned);
            law_thumbnail_is_requested_once(walked, file, ThumbUrgency::Background);
            lemma_thumbnailer_carried(u, visible, (chains - 1) as nat);
            let after = thumbnailer_fired(t, visible, chains);
            assert(after.out.take(u.out.len() as int)[t.out.len() as int]
                == u.out[t.out.len() as int]);
        },
        None => {},
    }
}

proof fn lemma_thumbnailer_len(t: St, visible: Span, chains: nat)
    ensures
        thumbnailer_fired(t, visible, chains).out.len() <= t.out.len() + chains,
    decreases chains,
{
    reveal(thumbnailer_fired);
    reveal(thumb_fired);
    if chains > 0 {
        let (center, range) = focus_of(t.v, visible, t.s.config.value.show_filmstrip);
        let walked = St { v: t.v.scanned(t.s, center, range), ..t };
        match t.v.next_unthumbed(t.s, center, range) {
            Some(file) => {
                lemma_thumbnailer_len(
                    thumb_fired(walked, file, ThumbUrgency::Background),
                    visible,
                    (chains - 1) as nat,
                );
            },
            None => {},
        }
    }
}

/// A thumbnail that lands has the thumbnailer go on: with no move pending, the
/// file it picks next is started in the background.
pub proof fn law_landed_thumbnail_starts_the_next(
    before: Wt,
    after: Wt,
    ctx: Ctx,
    file: FileId,
    urgency: ThumbUrgency,
)
    requires
        dispatched(
            before,
            after,
            ctx,
            Message::Media(
                MediaMessage::ThumbLoaded { file, urgency, result: ThumbResult::Failed },
            ),
        ),
        before.w.viewer is Some,
        before.w.viewer->0.pending_nav is None,
    ensures
        ({
            let v = before.w.viewer->0;
            let now = ViewerModel {
                in_flight_thumbs: v.in_flight_thumbs.remove(file),
                failed_thumbs: if urgency == ThumbUrgency::Background {
                    v.failed_thumbs.insert(file)
                } else {
                    v.failed_thumbs
                },
                ..v
            };
            let (center, range) = focus_of(
                now,
                ctx.visible,
                before.s.config.value.show_filmstrip,
            );
            &&& after.w.viewer is Some
            &&& match now.next_unthumbed(before.s, center, range) {
                Some(next) => after.out == before.out.push(
                    Action::LoadThumb {
                        file: next,
                        urgency: ThumbUrgency::Background,
                        cheap_only: v.in_flight.contains(next) && !is_video(
                            before.s.paths,
                            next,
                        ),
                    },
                ),
                None => after.out == before.out,
            }
        }),
{
    reveal(media_stepped);
    let t = transient_dismissed(
        before,
        Message::Media(
            MediaMessage::ThumbLoaded { file, urgency, result: ThumbResult::Failed },
        ),
    ).inner();
    let landed = thumb_landed(t, file, urgency, ThumbResult::Failed);
    law_thumbnail_stands_in(t, file, urgency, ThumbResult::Failed);
    law_thumbnailer_starts_its_pick(landed, ctx.visible, 1);
    lemma_thumbnailer_frame(landed, ctx.visible, 1);
    let end = thumbnailer_fired(landed, ctx.visible, 1);
    assert(after.out == end.out);
    if end.out.len() > t.out.len() {
        assert(end.out =~= t.out.push(end.out[t.out.len() as int]));
    }
}

} // verus!
