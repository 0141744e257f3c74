//! What happens to work that comes back: decodes, uploads, thumbnails, turns.
use crate::actions::{Action, JobZoom, Lane, ThumbUrgency};
use crate::dispatch::{
    anim_decoded, decode_failed, decoded, dispatched, media_stepped, stored, too_big,
    transient_dismissed, uploaded,
};
use crate::files::FileId;
use crate::laws::arrival::{arrived_at, law_arrival, lemma_arrived};
use crate::laws::filing::law_kept_thumbnail_is_found;
use crate::laws::loading::{
    added, asks_in_full, extends, full_texture, keeps_zoom, lemma_added_since, lemma_added_stays,
    lemma_extends_trans, lemma_full_demand, lemma_leased, lemma_rotate_carried,
    lemma_thumbnailer_carried, place_actions, urgent_decode, urgent_upload,
};
use crate::laws::neighborhood::law_removal_keeps_the_cursor_on_its_file;
use crate::laws::stepping::{can_show, law_pending_move_completes};
use crate::leases::want_of;
use crate::media::{
    anim_landed, anim_registered, anim_stepped, current_promoted, error_stopped, failure_landed,
    failure_noted, forgotten, given_up, promoted, resorted, rotation_landed, still_landed,
    thumb_kept, thumb_landed, unmarked, vanished, MediaError, ThumbResult,
};
use crate::media_tasks::{
    lemma_thumbnailer_frame, loaded_shown, placeholder_shown, rotate_fired, thumbnailer_fired, Ctx,
    St,
};
use crate::message::{MediaMessage, Message};
use crate::navigation::{files_replaced, navigated, pending_resolved};
use crate::paths::{is_video, Source};
use crate::state::{DisplayedModel, SharedModel, Span, Thumb, ViewerModel};
use crate::store::{
    claimed, demand, AnimFrames, Claim, Entry, Job, Minted, RamImage, StoreModel, Texture, Tier,
};
use crate::text::{decimal_text, load_error_text, too_large_text};
use crate::thumbs::THUMB_BUDGET_BYTES;
use crate::window::{lemma_session_closed, toasted, ToastKind, Wt};
use crate::window::ToastKind::Error;
use vstd::prelude::*;

verus! {

/// Whether a move is pending although its file could be shown.
pub open spec fn overdue(v: ViewerModel, s: SharedModel) -> bool {
    v.pending_nav is Some && can_show(v, s, v.nav.files[v.pending_nav->0 as int])
}

/// The messages that can make a file showable.
pub open spec fn brings_pictures(msg: Message) -> bool {
    match msg {
        Message::Media(m) => m is Decoded || m is AnimDecoded || m is ThumbLoaded,
        Message::Anim(_) => true,
        _ => false,
    }
}

proof fn lemma_nothing_overdue(t: St, ctx: Ctx)
    requires
        t.v.wf(),
    ensures
        !overdue(pending_resolved(t, ctx).v, pending_resolved(t, ctx).s),
{
    law_pending_move_completes(t, ctx);
    if t.v.pending_nav is Some && can_show(t.v, t.s, t.v.nav.files[t.v.pending_nav->0 as int]) {
        lemma_arrived(t, pending_resolved(t, ctx), ctx, t.v.pending_nav->0 as int, false);
    }
}

/// A move never stays pending once a picture of its file has come in.
pub proof fn law_no_showable_move_stays_pending(before: Wt, after: Wt, ctx: Ctx, msg: Message)
    requires
        dispatched(before, after, ctx, msg),
        brings_pictures(msg),
        before.w.viewer is Some,
        before.w.viewer->0.wf(),
    ensures
        after.w.viewer is Some,
        !overdue(after.w.viewer->0, after.s),
{
    let t = transient_dismissed(before, msg);
    match msg {
        Message::Media(MediaMessage::Decoded { file, ram, thumb }) => {
            reveal(decoded);
            let landed = t.s.store.decoded(file, ram);
            let u = stored(t, landed.settled(file));
            let job = landed.missing_job(file);
            let shown = still_landed(u.inner(), file, (ram.width, ram.height), thumb).run(
                job,
                Lane::Current,
                JobZoom::Fit,
            );
            assert(shown.v.wf()) by {
                reveal(still_landed);
                reveal(loaded_shown);
            }
            lemma_nothing_overdue(shown, ctx);
        },
        Message::Media(MediaMessage::AnimDecoded { file, frames, thumb, max_dim }) => {
            reveal(anim_decoded);
            let u = stored(t, t.s.store.abandoned(file));
            let landed = u.with_inner(
                anim_landed(u.inner(), ctx.window, file, frames, thumb),
            );
            assert(landed.w.viewer->0.wf()) by {
                reveal(anim_landed);
                reveal(anim_registered);
            }
            let told = if too_big(frames, max_dim) {
                toasted(
                    landed,
                    Error,
                    too_large_text(frames.width, frames.height),
                )
            } else {
                landed
            };
            lemma_nothing_overdue(told.inner(), ctx);
        },
        Message::Media(MediaMessage::ThumbLoaded { file, urgency, result }) => {
            reveal(media_stepped);
            let landed = thumb_landed(t.inner(), file, urgency, result);
            assert(landed.v.wf()) by {
                reveal(thumb_landed);
                reveal(placeholder_shown);
            }
            lemma_thumbnailer_frame(landed, ctx.visible, 1);
            lemma_nothing_overdue(thumbnailer_fired(landed, ctx.visible, 1), ctx);
        },
        Message::Anim(m) => {
            assert(anim_stepped(t.inner(), m).v.wf()) by {
                reveal(anim_stepped);
            }
            lemma_nothing_overdue(anim_stepped(t.inner(), m), ctx);
        },
        _ => {},
    }
}

/// What the store keeps of an image with no job under way, for a demand:
/// nothing if nobody asks for it any more, the pixels otherwise, and a texture
/// only where one is asked for.
pub open spec fn kept_for(entry: Entry, want: Tier) -> Entry {
    match want {
        Tier::Evicted => Entry { ram: None, minted: None, pending: false },
        Tier::InRam => Entry { minted: None, pending: entry.ram is None, ..entry },
        _ => Entry {
            pending: entry.ram is None || entry.minted is None || entry.minted->0.tier != want,
            ..entry
        },
    }
}

/// The job still missing for a demand, urgent and sized for the fit.
pub open spec fn job_for(file: FileId, entry: Entry, want: Tier) -> Seq<Action> {
    if want is Evicted {
        Seq::empty()
    } else if entry.ram is None {
        seq![urgent_decode(file)]
    } else if want is InRam || (entry.minted is Some && entry.minted->0.tier == want) {
        Seq::empty()
    } else {
        seq![
            Action::RunJob {
                job: Job::Upload { file, tier: want },
                lane: Lane::Current,
                zoom: JobZoom::Fit,
            },
        ]
    }
}

/// Whether `store` settled `file` to `entry` and left the rest alone.
pub open spec fn settled_to(
    before: StoreModel,
    after: StoreModel,
    file: FileId,
    entry: Entry,
) -> bool {
    &&& after.claims == before.claims
    &&& after.entries == before.entries.insert(file, entry)
}

/// A finished decode of a still reaches the store, where it is kept for as long
/// as it is asked for; the upload it makes possible starts at once. The current
/// file goes on screen in full at its size, another one changes nothing on
/// screen.
pub proof fn law_decoded_still_is_kept_and_shown(
    before: Wt,
    after: Wt,
    ctx: Ctx,
    file: FileId,
    ram: RamImage,
)
    requires
        dispatched(
            before,
            after,
            ctx,
            Message::Media(MediaMessage::Decoded { file, ram, thumb: None }),
        ),
        before.w.viewer is Some,
        before.w.viewer->0.pending_nav is None,
    ensures
        ({
            let v = before.w.viewer->0;
            let now = after.w.viewer->0;
            let want = demand(before.s.store.claims, file);
            let entry = Entry {
                ram: Some(ram),
                minted: before.s.store.entry(file).minted,
                pending: false,
            };
            let kept = ViewerModel {
                in_flight: v.in_flight.remove(file),
                in_flight_thumbs: v.in_flight_thumbs.remove(file),
                ..v
            };
            let resuming = v.displayed_path == Some(file) && (v.displayed is Placeholder
                || v.displayed is Full);
            &&& after.w.viewer is Some
            &&& settled_to(before.s.store, after.s.store, file, kept_for(entry, want))
            &&& after.s.thumbs == before.s.thumbs
            &&& after.s.anims == before.s.anims
            &&& v.current() != file ==> now == kept && after.out == before.out + job_for(
                file,
                entry,
                want,
            )
            &&& v.current() == file ==> {
                &&& now == (ViewerModel {
                    displayed: DisplayedModel::Full {
                        original_size: (ram.width, ram.height),
                        rotated: None,
                    },
                    displayed_path: Some(file),
                    pending_since: None,
                    ..kept
                })
                &&& resuming ==> after.out == before.out + job_for(file, entry, want)
                &&& !resuming ==> after.out == before.out + place_actions(
                    v,
                    before.s.config.value,
                    (ram.width, ram.height),
                ) + job_for(file, entry, want)
            }
        }),
{
    reveal(decoded);
    reveal(still_landed);
    reveal(loaded_shown);
    let want = demand(before.s.store.claims, file);
    let entry = Entry {
        ram: Some(ram),
        minted: before.s.store.entry(file).minted,
        pending: false,
    };
    let landed = before.s.store.decoded(file, ram);
    assert(landed.entry(file) == entry);
    assert(landed.demand(file) == want);
    assert(landed.settled(file).entries =~= before.s.store.entries.insert(
        file,
        kept_for(entry, want),
    ));
    let fit = Action::FitZoom { width: ram.width, height: ram.height };
    let news = job_for(file, entry, want);
    let config = before.s.config.value;
    let placed = place_actions(before.w.viewer->0, config, (ram.width, ram.height));
    let shown = before.out + placed;
    assert(shown =~= if placed.len() == 1 {
        before.out.push(Action::ResetPan)
    } else {
        before.out.push(fit).push(Action::ResetPan)
    });
    if landed.missing_job(file) is Some {
        assert(news.len() == 1);
        assert(shown.push(news[0]) =~= shown + news);
        assert(before.out.push(news[0]) =~= before.out + news);
    } else {
        assert(shown =~= shown + news);
        assert(before.out =~= before.out + news);
    }
}

/// A finished upload is kept as the image's texture for as long as a texture is
/// asked for. A window that waits for the file, with a stand-in or nothing on
/// screen, shows it in full; a texture cut in tiles has its tiles asked for.
pub proof fn law_uploaded_texture_is_kept_and_shown(
    before: Wt,
    after: Wt,
    ctx: Ctx,
    file: FileId,
    tier: Tier,
    texture: Texture,
)
    requires
        dispatched(
            before,
            after,
            ctx,
            Message::Media(MediaMessage::TextureReady { file, tier, texture }),
        ),
        before.w.viewer is Some,
    ensures
        ({
            let v = before.w.viewer->0;
            let now = after.w.viewer->0;
            let want = demand(before.s.store.claims, file);
            let entry = Entry {
                ram: before.s.store.entry(file).ram,
                minted: Some(Minted { tier, texture }),
                pending: false,
            };
            let waits = (v.displayed is Placeholder && v.displayed_path == Some(file)) || (
            v.displayed is Nothing && v.current() == file);
            let kept = kept_for(entry, want);
            &&& after.w.viewer is Some
            &&& settled_to(before.s.store, after.s.store, file, kept)
            &&& after.s.thumbs == before.s.thumbs
            &&& after.s.anims == before.s.anims
            &&& now == if waits && kept.ram is Some {
                ViewerModel {
                    displayed: DisplayedModel::Full {
                        original_size: (kept.ram->0.width, kept.ram->0.height),
                        rotated: None,
                    },
                    displayed_path: Some(file),
                    pending_since: None,
                    ..v
                }
            } else {
                v
            }
            &&& extends(before.out, after.out)
            &&& job_for(file, entry, want).len() > 0 ==> added(before.out, after.out).contains(
                job_for(file, entry, want)[0],
            )
            &&& texture.tiled ==> after.out.last() == Action::DemandTiles
            &&& now.displayed is Full && now.rotation != now.displayed_rotation
                && after.s.store.ram(now.current()) is Some ==> added(
                before.out,
                after.out,
            ).contains(Action::Rotate { file: now.current(), turns: now.rotation })
        }),
{
    reveal(uploaded);
    let msg = Message::Media(MediaMessage::TextureReady { file, tier, texture });
    let t = transient_dismissed(before, msg);
    let v = before.w.viewer->0;
    let want = demand(before.s.store.claims, file);
    let entry = Entry {
        ram: before.s.store.entry(file).ram,
        minted: Some(Minted { tier, texture }),
        pending: false,
    };
    let landed = before.s.store.minted(file, Minted { tier, texture });
    assert(landed.settled(file).entries =~= before.s.store.entries.insert(
        file,
        kept_for(entry, want),
    ));
    let u = stored(t, landed.settled(file));
    let p = promoted(u.inner(), file);
    let job = landed.missing_job(file);
    let ran = p.run(job, Lane::Current, JobZoom::Fit);
    let r = rotate_fired(ran);
    assert(extends(before.out, p.out) && p.s == u.s) by {
        reveal(promoted);
        reveal(loaded_shown);
        assert(before.out.take(before.out.len() as int) =~= before.out);
        assert(p.out.take(before.out.len() as int) =~= before.out);
    }
    assert(extends(p.out, ran.out)) by {
        assert(ran.out.take(p.out.len() as int) =~= p.out);
    }
    if job_for(file, entry, want).len() > 0 {
        assert(added(p.out, ran.out)[0] == job_for(file, entry, want)[0]);
        lemma_added_since(before.out, p.out, ran.out, job_for(file, entry, want)[0]);
    }
    lemma_extends_trans(before.out, p.out, ran.out);
    lemma_rotate_carried(ran);
    lemma_extends_trans(before.out, ran.out, r.out);
    assert(extends(r.out, after.out)) by {
        assert(after.out.take(r.out.len() as int) =~= r.out);
    }
    lemma_extends_trans(before.out, r.out, after.out);
    lemma_extends_trans(ran.out, r.out, after.out);
    if job_for(file, entry, want).len() > 0 {
        lemma_added_stays(
            before.out,
            ran.out,
            after.out,
            job_for(file, entry, want)[0],
        );
    }
    assert(ran.v == after.w.viewer->0);
    let turn = Action::Rotate { file: ran.v.current(), turns: ran.v.rotation };
    if ran.v.displayed is Full && ran.v.rotation != ran.v.displayed_rotation
        && u.s.store.ram(ran.v.current()) is Some {
        assert(r.out == ran.out.push(turn)) by {
            reveal(rotate_fired);
        }
        assert(added(ran.out, r.out)[0] == turn);
        lemma_added_stays(ran.out, r.out, after.out, turn);
        lemma_added_since(before.out, ran.out, after.out, turn);
    }
    assert(landed.settled(file).ram(file) == kept_for(entry, want).ram);
    reveal(promoted);
    reveal(loaded_shown);
}

/// A failed upload frees the image for another try and changes nothing else.
pub proof fn law_failed_upload_may_be_tried_again(before: Wt, after: Wt, ctx: Ctx, file: FileId)
    requires
        dispatched(before, after, ctx, Message::Media(MediaMessage::MintFailed { file })),
    ensures
        after.w.viewer == before.w.viewer,
        after.out == before.out,
        settled_to(
            before.s.store,
            after.s.store,
            file,
            Entry { pending: false, ..before.s.store.entry(file) },
        ),
        after.s.thumbs == before.s.thumbs,
        after.s.anims == before.s.anims,
        after.s.config == before.s.config,
{
}

/// A cancelled decode leaves no trace on screen: the image is free again, and
/// asked for once more if anyone still wants it.
pub proof fn law_cancelled_decode_is_asked_for_again(
    before: Wt,
    after: Wt,
    ctx: Ctx,
    file: FileId,
    exists_on_disk: bool,
)
    requires
        dispatched(
            before,
            after,
            ctx,
            Message::Media(
                MediaMessage::DecodeFailed {
                    file,
                    err: MediaError::Cancelled,
                    exists: exists_on_disk,
                },
            ),
        ),
        before.w.viewer is Some,
    ensures
        ({
            let v = before.w.viewer->0;
            let want = demand(before.s.store.claims, file);
            let entry = Entry { pending: false, ..before.s.store.entry(file) };
            &&& after.w.viewer == Some(
                ViewerModel {
                    in_flight: v.in_flight.remove(file),
                    in_flight_thumbs: v.in_flight_thumbs.remove(file),
                    ..v
                },
            )
            &&& settled_to(before.s.store, after.s.store, file, kept_for(entry, want))
            &&& after.out == before.out + job_for(file, entry, want)
        }),
{
    reveal(decode_failed);
    let want = demand(before.s.store.claims, file);
    let entry = Entry { pending: false, ..before.s.store.entry(file) };
    let idle = before.s.store.idle(file);
    assert(idle.settled(file).entries =~= before.s.store.entries.insert(
        file,
        kept_for(entry, want),
    ));
    let news = job_for(file, entry, want);
    if idle.missing_job(file) is Some {
        assert(news.len() == 1);
        assert(before.out.push(news[0]) =~= before.out + news);
    } else {
        assert(before.out =~= before.out + news);
    }
}

/// A file that cannot be decoded becomes a stop with an error: nobody asks the
/// store for it any more, its error is remembered, and where it is current the
/// error is on screen unless the picture itself already was.
pub proof fn law_broken_file_is_an_error_stop(
    before: Wt,
    after: Wt,
    ctx: Ctx,
    file: FileId,
    err: String,
    exists_on_disk: bool,
)
    requires
        dispatched(
            before,
            after,
            ctx,
            Message::Media(
                MediaMessage::DecodeFailed {
                    file,
                    err: MediaError::Failed(err),
                    exists: exists_on_disk,
                },
            ),
        ),
        before.w.viewer is Some,
        before.w.viewer->0.wf(),
        before.w.viewer->0.pending_nav is None,
        exists_on_disk || before.w.viewer->0.source != Source::Fs,
    ensures
        ({
            let v = before.w.viewer->0;
            let now = after.w.viewer->0;
            let message = load_error_text(before.s, file, err@);
            &&& after.w.viewer is Some
            &&& after.out == before.out
            &&& !after.s.store.entries.contains_key(file)
            &&& forall|k: int|
                0 <= k < after.s.store.claims.len() ==> (#[trigger] after.s.store.claims[k]).file
                    != file
            &&& now.nav == v.nav
            &&& now.cache == v.cache
            &&& now.in_flight == v.in_flight.remove(file)
            &&& now.in_flight_thumbs == v.in_flight_thumbs.remove(file)
            &&& v.current() == file ==> {
                &&& now.failed_loads == v.failed_loads.insert(file, message)
                &&& now.pending_since is None
                &&& now.displayed_path == Some(file)
                &&& now.displayed == if v.displayed is Full && v.displayed_path == Some(file) {
                    v.displayed
                } else {
                    DisplayedModel::Error { message }
                }
            }
            &&& v.current() != file ==> {
                &&& now.failed_loads == v.failed_loads
                &&& now.pending_since == v.pending_since
                &&& now.displayed == v.displayed
                &&& now.displayed_path == v.displayed_path
            }
        }),
{
    reveal(decode_failed);
    reveal(error_stopped);
    let claims = before.s.store.claims;
    let keep = |c: Claim| c.file != file;
    assert forall|k: int| 0 <= k < claims.filter(keep).len() implies (#[trigger] claims.filter(
        keep,
    )[k]).file != file by {
        claims.lemma_filter_pred(keep, k);
    }
}

/// A file on disk that is gone by the time it fails to decode leaves the
/// listing, and the cursor arrives at the file that took its place.
pub proof fn law_vanished_file_leaves_the_listing(
    before: Wt,
    after: Wt,
    ctx: Ctx,
    file: FileId,
    err: String,
)
    requires
        dispatched(
            before,
            after,
            ctx,
            Message::Media(
                MediaMessage::DecodeFailed { file, err: MediaError::Failed(err), exists: false },
            ),
        ),
        before.w.viewer is Some,
        before.w.viewer->0.wf(),
        before.w.viewer->0.source == Source::Fs,
        before.w.viewer->0.current() == file,
        before.w.viewer->0.nav.files.no_duplicates(),
    ensures
        before.w.viewer->0.nav.files.len() == 1 ==> after.w.viewer is None,
        before.w.viewer->0.nav.files.len() > 1 ==> {
            let v = before.w.viewer->0;
            let now = after.w.viewer->0;
            &&& after.w.viewer is Some
            &&& now.nav.files == v.nav.files.remove(v.nav.cursor)
            &&& now.nav.cursor == if v.nav.cursor == v.nav.files.len() - 1 {
                v.nav.cursor - 1
            } else {
                v.nav.cursor
            }
            &&& now.pending_nav is None
            &&& extends(before.out, after.out)
        },
{
    reveal(decode_failed);
    reveal(vanished);
    let msg = Message::Media(
        MediaMessage::DecodeFailed { file, err: MediaError::Failed(err), exists: false },
    );
    let t = transient_dismissed(before, msg);
    let v = before.w.viewer->0;
    v.nav.files.index_of_first_ensures(file);
    assert(v.nav.files.index_of_first(file) == Some(v.nav.cursor));
    let u = stored(t, t.s.store.abandoned(file));
    let w = St { v: unmarked(v, file), s: u.s, out: u.out };
    let g = St { v: ViewerModel { pending_since: None, pending_nav: None, ..w.v }, ..w };
    let f = forgotten(g, ctx.window, file);
    if v.nav.files.len() > 1 {
        law_arrival(f, ctx, f.v.nav.cursor, true);
        lemma_arrived(
            f,
            navigated(f, ctx, f.v.nav.cursor, true),
            ctx,
            f.v.nav.cursor,
            true,
        );
    } else {
        lemma_session_closed(
            u.with_inner(failure_landed(u.inner(), ctx, file, Some(err@), false)),
        );
    }
}

/// A thumbnail that was waited for goes on screen as the stand-in of the current
/// file, unless a move is pending; any other is only kept. A failed background
/// thumbnail is not tried again, a failed urgent one may be.
pub proof fn law_thumbnail_stands_in(
    t: St,
    file: FileId,
    urgency: ThumbUrgency,
    result: ThumbResult,
)
    ensures
        ({
            let after = thumb_landed(t, file, urgency, result);
            &&& after.v.nav == t.v.nav
            &&& after.v.cache == t.v.cache
            &&& after.s.store == t.s.store
            &&& match result {
                ThumbResult::Loaded(thumb) => {
                    let shown = t.v.current() == file && t.v.pending_since is Some
                        && t.v.pending_nav is None;
                    &&& after.v.in_flight_thumbs == t.v.in_flight_thumbs.remove(file)
                    &&& after.v.failed_thumbs == t.v.failed_thumbs
                    &&& after.v.pending_since == t.v.pending_since
                    &&& shown ==> after.v.displayed == DisplayedModel::Placeholder(thumb)
                        && after.v.displayed_path == Some(file)
                    &&& !shown ==> after.v.displayed == t.v.displayed
                        && after.v.displayed_path == t.v.displayed_path && after.out == t.out
                    &&& shown ==> after.out == t.out + place_actions(
                        t.v,
                        t.s.config.value,
                        thumb.original_size,
                    )
                },
                ThumbResult::Failed => {
                    &&& after.v == (ViewerModel {
                        in_flight_thumbs: t.v.in_flight_thumbs.remove(file),
                        failed_thumbs: if urgency == ThumbUrgency::Background {
                            t.v.failed_thumbs.insert(file)
                        } else {
                            t.v.failed_thumbs
                        },
                        ..t.v
                    })
                    &&& after.s == t.s
                    &&& after.out == t.out
                },
                ThumbResult::Cancelled => {
                    &&& after.v == (ViewerModel {
                        in_flight_thumbs: if t.v.in_flight.contains(file) {
                            t.v.in_flight_thumbs
                        } else {
                            t.v.in_flight_thumbs.remove(file)
                        },
                        ..t.v
                    })
                    &&& after.s == t.s
                    &&& after.out == t.out
                },
            }
        }),
{
    reveal(thumb_landed);
    reveal(placeholder_shown);
    match result {
        ThumbResult::Loaded(thumb) => {
            let fit = Action::FitZoom {
                width: thumb.original_size.0,
                height: thumb.original_size.1,
            };
            assert(t.out.push(fit).push(Action::ResetPan) =~= t.out + seq![
                fit,
                Action::ResetPan,
            ]);
            assert(t.out.push(Action::ResetPan) =~= t.out + seq![Action::ResetPan]);
        },
        _ => {},
    }
}

/// A probed size or read metadata is taken in for the current file and dropped
/// for any other.
pub proof fn law_late_facts_are_dropped(
    before: Wt,
    sized: Wt,
    read: Wt,
    ctx: Ctx,
    file: FileId,
    size: u64,
)
    requires
        dispatched(
            before,
            sized,
            ctx,
            Message::Media(MediaMessage::FileSizeProbed(file, size)),
        ),
        dispatched(before, read, ctx, Message::Media(MediaMessage::ExifLoaded(file))),
        before.w.viewer is Some,
    ensures
        ({
            let v = before.w.viewer->0;
            &&& sized.w.viewer == Some(
                ViewerModel {
                    current_file_size: if v.current() == file {
                        Some(size)
                    } else {
                        v.current_file_size
                    },
                    ..v
                },
            )
            &&& read.w.viewer == Some(
                ViewerModel {
                    exif: if v.current() == file {
                        Some(file)
                    } else {
                        v.exif
                    },
                    ..v
                },
            )
            &&& sized.s == before.s
            &&& read.s == before.s
            &&& sized.out == before.out
            &&& read.out == before.out
        }),
{
    reveal(media_stepped);
}

/// A finished turn of the current still goes on screen at its turned size. If
/// the rotation asked for has moved on meanwhile, it is turned again from the
/// original pixels. A failed turn, or one of another file, changes nothing.
pub proof fn law_finished_turn_is_shown(
    before: Wt,
    after: Wt,
    ctx: Ctx,
    file: FileId,
    baked: u8,
    size: (u32, u32),
    turned: Option<Texture>,
)
    requires
        dispatched(
            before,
            after,
            ctx,
            Message::Media(MediaMessage::ViewRotated { file, baked, size, turned }),
        ),
        before.w.viewer is Some,
    ensures
        ({
            let v = before.w.viewer->0;
            let fits = turned is Some && v.current() == file && v.displayed is Full;
            &&& after.s == before.s
            &&& after.w.viewer == Some(
                if fits {
                    ViewerModel {
                        displayed: DisplayedModel::Full { original_size: size, rotated: turned },
                        displayed_rotation: baked,
                        ..v
                    }
                } else {
                    v
                },
            )
            &&& !fits ==> after.out == before.out
            &&& fits && !keeps_zoom(v, before.s.config.value) && v.rotation == baked ==> after.out
                == before.out + seq![
                Action::ResetPan,
                Action::FitZoom { width: size.0, height: size.1 },
            ]
            &&& fits && keeps_zoom(v, before.s.config.value) && v.rotation == baked ==> after.out
                == before.out.push(Action::ResetPan)
            &&& fits && v.rotation != baked && before.s.store.ram(file) is Some
                ==> after.out.last() == (Action::Rotate { file, turns: v.rotation })
        }),
{
    reveal(media_stepped);
    reveal(rotation_landed);
    reveal(rotate_fired);
    let fit = Action::FitZoom { width: size.0, height: size.1 };
    assert(before.out.push(Action::ResetPan).push(fit) =~= before.out + seq![
        Action::ResetPan,
        fit,
    ]);
}

/// A display the cursor has rested on is held in full from then on, and what
/// that takes starts at once; a display that has moved on is left alone.
pub proof fn law_rested_display_is_held_in_full(before: Wt, after: Wt, ctx: Ctx, file: FileId)
    requires
        dispatched(before, after, ctx, Message::Media(MediaMessage::PromoteCurrent(file))),
        before.w.viewer is Some,
    ensures
        ({
            let v = before.w.viewer->0;
            let rests = v.displayed_path == Some(file) && want_of(v.cache, file) is Some;
            let entry = before.s.store.entry(file);
            &&& after.w.viewer is Some
            &&& !rests ==> after.w.viewer == before.w.viewer && after.s == before.s && after.out
                == before.out
            &&& rests ==> {
                &&& asks_in_full(after.w.viewer->0.cache, after.s.store, ctx.window, file)
                &&& after.out == if entry.pending {
                    before.out
                } else if entry.ram is None {
                    before.out.push(urgent_decode(file))
                } else if !full_texture(entry) {
                    before.out.push(urgent_upload(file))
                } else {
                    before.out
                }
                &&& after.w.viewer->0.displayed == v.displayed
                &&& after.w.viewer->0.nav == v.nav
            }
        }),
{
    reveal(media_stepped);
    reveal(current_promoted);
    let v = before.w.viewer->0;
    if v.displayed_path == Some(file) && want_of(v.cache, file) is Some {
        lemma_leased(v.cache, file, Tier::Full, file);
        let claims = claimed(before.s.store.claims, ctx.window, file, Tier::Full);
        let mine = Claim { window: ctx.window, file, want: Tier::Full };
        assert(claims.last() == mine);
        assert(claims[claims.len() - 1] == mine);
        lemma_full_demand(claims, ctx.window, file);
    }
}

/// A fresh order of the listing keeps the cursor on its file. A listing that
/// was opened as a whole goes to the first file of the order instead.
pub proof fn law_resort_keeps_the_cursor_or_starts_over(
    before: Wt,
    after: Wt,
    ctx: Ctx,
    files: Vec<FileId>,
)
    requires
        dispatched(before, after, ctx, Message::Media(MediaMessage::Resorted(files))),
        before.w.viewer is Some,
        before.w.viewer->0.wf(),
        before.w.viewer->0.pending_nav is None,
        files@.contains(before.w.viewer->0.current()),
    ensures
        ({
            let v = before.w.viewer->0;
            let now = after.w.viewer->0;
            &&& after.w.viewer is Some
            &&& now.nav.files == files@
            &&& !now.resort_to_first
            &&& v.resort_to_first ==> now.nav.cursor == 0
            &&& !v.resort_to_first ==> now.current() == v.current() && now.displayed
                == v.displayed && now.displayed_path == v.displayed_path
            &&& extends(before.out, after.out)
            &&& before.s.config.value.show_filmstrip ==> added(before.out, after.out).contains(
                Action::CenterFilmstrip { index: now.nav.cursor as usize },
            )
        }),
{
    reveal(media_stepped);
    reveal(resorted);
    let v = before.w.viewer->0;
    files@.index_of_first_ensures(v.current());
    assert(files.len() == files@.len());
    let u = St {
        v: ViewerModel { resort_to_first: false, ..files_replaced(v, files@) },
        s: before.s,
        out: before.out,
    };
    let i = u.v.nav.cursor as usize;
    let center = Action::CenterFilmstrip { index: i };
    let centered = u.act(center);
    let row = Span { start: i, end: (i + 1) as usize };
    assert(before.out.take(before.out.len() as int) =~= before.out);
    if v.resort_to_first && u.v.nav.cursor != 0 {
        law_arrival(u, ctx, 0, true);
        reveal(arrived_at);
    } else if before.s.config.value.show_filmstrip {
        lemma_thumbnailer_frame(centered, row, 3);
        lemma_thumbnailer_carried(centered, row, 3);
        assert(centered.out.take(before.out.len() as int) =~= before.out);
        lemma_extends_trans(before.out, centered.out, after.out);
        assert(added(before.out, centered.out)[0] == center);
        lemma_added_stays(before.out, centered.out, after.out, center);
    }
}

/// A thumbnail that comes in is kept for its file, as long as the thumbnails fit
/// their budget.
pub proof fn law_loaded_thumbnail_is_kept(
    v: ViewerModel,
    s: SharedModel,
    file: FileId,
    thumb: Thumb,
)
    requires
        s.thumbs.insert(file, thumb).bytes() <= THUMB_BUDGET_BYTES,
    ensures
        ({
            let after = thumb_kept(v, s, file, Some(thumb));
            &&& after.thumbs.contains_key(file)
            &&& after.thumbs.at(file) == thumb
            &&& after.store == s.store
            &&& after.config == s.config
        }),
{
    law_kept_thumbnail_is_found(s.thumbs, file, thumb);
}

/// Every way a picture comes in brings its thumbnail along.
pub proof fn law_thumbnail_comes_along(
    before: Wt,
    decoded_still: Wt,
    decoded_frames: Wt,
    ctx: Ctx,
    file: FileId,
    ram: RamImage,
    frames: AnimFrames,
    thumb: Thumb,
)
    requires
        before.w.viewer is Some,
        before.w.viewer->0.wf(),
        before.w.viewer->0.pending_nav is None,
        before.s.thumbs.insert(file, thumb).bytes() <= THUMB_BUDGET_BYTES,
        dispatched(
            before,
            decoded_still,
            ctx,
            Message::Media(MediaMessage::Decoded { file, ram, thumb: Some(thumb) }),
        ),
        dispatched(
            before,
            decoded_frames,
            ctx,
            Message::Media(
                MediaMessage::AnimDecoded { file, frames, thumb: Some(thumb), max_dim: None },
            ),
        ),
    ensures
        decoded_still.s.thumbs.contains_key(file),
        decoded_still.s.thumbs.at(file) == thumb,
        decoded_frames.s.thumbs.contains_key(file),
        decoded_frames.s.thumbs.at(file) == thumb,
{
    reveal(decoded);
    reveal(still_landed);
    reveal(loaded_shown);
    reveal(anim_decoded);
    reveal(anim_landed);
    reveal(anim_registered);
    law_loaded_thumbnail_is_kept(before.w.viewer->0, before.s, file, thumb);
}

/// An animation the device cannot take is said to be too large, with its size.
pub proof fn law_too_large_animation_is_told(
    before: Wt,
    after: Wt,
    ctx: Ctx,
    file: FileId,
    frames: AnimFrames,
    max_dim: u32,
)
    requires
        before.w.viewer is Some,
        before.w.viewer->0.pending_nav is None,
        dispatched(
            before,
            after,
            ctx,
            Message::Media(
                MediaMessage::AnimDecoded { file, frames, thumb: None, max_dim: Some(max_dim) },
            ),
        ),
    ensures
        frames.width <= max_dim && frames.height <= max_dim ==> after.w.toasts
            == before.w.toasts,
        frames.width > max_dim || frames.height > max_dim ==> after.w.toasts.len()
            == before.w.toasts.len() + 1 && after.w.toasts.last().kind == ToastKind::Error
            && after.w.toasts.last().text == "Animation is too large to display ("@
            + decimal_text(frames.width as nat) + "x"@ + decimal_text(frames.height as nat)
            + ")"@,
{
    reveal(anim_decoded);
    reveal(anim_landed);
    reveal(anim_registered);
}

/// A move that waits for a file that turns out broken goes there all the same, to
/// its error.
pub proof fn law_pending_move_lands_on_the_error(
    before: Wt,
    after: Wt,
    ctx: Ctx,
    file: FileId,
    err: String,
    index: usize,
)
    requires
        dispatched(
            before,
            after,
            ctx,
            Message::Media(
                MediaMessage::DecodeFailed { file, err: MediaError::Failed(err), exists: true },
            ),
        ),
        before.w.viewer is Some,
        before.w.viewer->0.wf(),
        before.w.viewer->0.pending_nav == Some(index),
        before.w.viewer->0.nav.files[index as int] == file,
        !is_video(before.s.paths, file),
        !before.s.anims.frames.contains_key(file),
    ensures
        after.w.viewer is Some,
        after.w.viewer->0.nav.files == before.w.viewer->0.nav.files,
        after.w.viewer->0.nav.cursor == index,
        after.w.viewer->0.pending_nav is None,
        after.w.viewer->0.displayed == (DisplayedModel::Error {
            message: load_error_text(before.s, file, err@),
        }),
        after.w.viewer->0.displayed_path == Some(file),
{
    reveal(decode_failed);
    reveal(error_stopped);
    let msg = Message::Media(
        MediaMessage::DecodeFailed { file, err: MediaError::Failed(err), exists: true },
    );
    let t = transient_dismissed(before, msg);
    let v = before.w.viewer->0;
    let u = stored(t, t.s.store.abandoned(file));
    let noted = St {
        v: failure_noted(
            given_up(unmarked(v, file), file),
            file,
            load_error_text(u.s, file, err@),
        ),
        s: u.s,
        out: u.out,
    };
    law_arrival(noted, ctx, index as int, false);
    reveal(arrived_at);
    assert(noted.v.failed_loads.contains_key(file));
}

/// A move that waits for a file that is gone from disk is dropped with it: the
/// file leaves the listing and the cursor stays on its own.
pub proof fn law_pending_move_to_a_vanished_file_is_dropped(
    before: Wt,
    after: Wt,
    ctx: Ctx,
    file: FileId,
    err: String,
    index: usize,
)
    requires
        dispatched(
            before,
            after,
            ctx,
            Message::Media(
                MediaMessage::DecodeFailed { file, err: MediaError::Failed(err), exists: false },
            ),
        ),
        before.w.viewer is Some,
        before.w.viewer->0.wf(),
        before.w.viewer->0.source == Source::Fs,
        before.w.viewer->0.pending_nav == Some(index),
        before.w.viewer->0.nav.files[index as int] == file,
        before.w.viewer->0.current() != file,
        before.w.viewer->0.nav.files.no_duplicates(),
    ensures
        after.w.viewer is Some,
        after.w.viewer->0.pending_nav is None,
        !after.w.viewer->0.nav.files.contains(file),
        after.w.viewer->0.nav.files.len() == before.w.viewer->0.nav.files.len() - 1,
        after.w.viewer->0.current() == before.w.viewer->0.current(),
{
    reveal(decode_failed);
    reveal(vanished);
    let msg = Message::Media(
        MediaMessage::DecodeFailed { file, err: MediaError::Failed(err), exists: false },
    );
    let t = transient_dismissed(before, msg);
    let v = before.w.viewer->0;
    assert(v.nav.files.contains(file));
    assert(v.nav.files.len() > 1);
    law_removal_keeps_the_cursor_on_its_file(v.nav, file);
    let u = stored(t, t.s.store.abandoned(file));
    let w = St { v: unmarked(v, file), s: u.s, out: u.out };
    let g = St { v: ViewerModel { pending_since: None, pending_nav: None, ..w.v }, ..w };
    let f = forgotten(g, ctx.window, file);
    law_arrival(f, ctx, f.v.nav.cursor, true);
    let there = navigated(f, ctx, f.v.nav.cursor, true);
    lemma_arrived(f, there, ctx, f.v.nav.cursor, true);
    assert(after.w.viewer == Some(there.v));
}

} // verus!
