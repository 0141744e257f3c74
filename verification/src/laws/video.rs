//! What the video controls do to the session that is open.
use crate::actions::{Action, SeekTarget};
use crate::config::{with_setting, Config, Setting};
use crate::dispatch::{dispatched, transient_dismissed, video_message, video_stepped};
use crate::laws::loading::keeps_zoom;
use crate::media_tasks::Ctx;
use crate::message::{Message, VideoMessage};
use crate::state::{
    lemma_with_config, with_config, DisplayedModel, Status, VideoSession, VideoState, ViewerModel,
};
use crate::text::load_error_text;
use crate::time::{Duration, Instant};
use crate::video_flow::{frame_ticked, loop_toggled, mute_toggled, volume_noted, Poll};
use crate::window::Wt;
use vstd::prelude::*;

verus! {

/// Whether `before` takes `msg` with a viewer open, no dialog up, and ends as
/// `after`.
#[verifier::opaque]
pub open spec fn controlled(before: Wt, after: Wt, ctx: Ctx, msg: VideoMessage) -> bool {
    &&& dispatched(before, after, ctx, Message::VideoControls(msg))
    &&& before.w.modal is None
    &&& before.w.viewer is Some
}

proof fn lemma_controlled(before: Wt, after: Wt, ctx: Ctx, msg: VideoMessage)
    requires
        controlled(before, after, ctx, msg),
    ensures
        before.w.viewer is Some,
        ({
            let t = transient_dismissed(before, Message::VideoControls(msg));
            &&& after == video_message(t, ctx, msg)
            &&& t.w.viewer == before.w.viewer
            &&& t.s == before.s
            &&& t.out == before.out
        }),
{
    reveal(controlled);
}

/// Whether a control concerns nothing but the viewer's own session.
pub open spec fn session_only(msg: VideoMessage) -> bool {
    !(msg is Extracted || msg is SetVolume || msg is NudgeVolume || msg is Tick)
}

proof fn lemma_session_step(before: Wt, after: Wt, ctx: Ctx, msg: VideoMessage)
    requires
        controlled(before, after, ctx, msg),
        session_only(msg),
    ensures
        before.w.viewer is Some,
        after.w.viewer is Some,
        after.inner() == video_stepped(before.inner(), ctx, msg),
{
    lemma_controlled(before, after, ctx, msg);
    reveal(video_message);
}

/// Whether nothing of the viewer, of what is shared, or of the actions to do
/// differs.
pub open spec fn untouched(before: Wt, after: Wt) -> bool {
    &&& after.w.viewer == before.w.viewer
    &&& after.s == before.s
    &&& after.out == before.out
}

/// Whether only the video part of the viewer differs, and of that at most what
/// `video` says.
pub open spec fn only_video(before: Wt, after: Wt, video: VideoState) -> bool {
    after.w.viewer == Some(ViewerModel { video, ..before.w.viewer->0 })
}

/// Letting go of the seek slider seeks an open session to where the slider was
/// dragged to, by one action; without a drag or a session nothing is to be done.
/// The drag is over either way.
pub proof fn law_released_seek_goes_to_the_dragged_position(before: Wt, after: Wt, ctx: Ctx)
    requires
        controlled(before, after, ctx, VideoMessage::SeekRelease),
    ensures
        ({
            let video = before.w.viewer->0.video;
            &&& only_video(before, after, VideoState { seek_drag: false, ..video })
            &&& after.s == before.s
            &&& video.seek_drag && video.session is Some ==> after.out == before.out.push(
                Action::ReopenVideo { at: SeekTarget::Dragged },
            )
            &&& !(video.seek_drag && video.session is Some) ==> after.out == before.out
        }),
{
    lemma_session_step(before, after, ctx, VideoMessage::SeekRelease);
    reveal(video_stepped);
}

/// Dragging the seek slider of an open session is noted, and nothing is to be
/// done until it is let go.
pub proof fn law_seek_drag_waits_for_its_release(before: Wt, after: Wt, ctx: Ctx)
    requires
        controlled(before, after, ctx, VideoMessage::SeekDrag),
    ensures
        ({
            let video = before.w.viewer->0.video;
            &&& only_video(
                before,
                after,
                VideoState { seek_drag: video.seek_drag || video.session is Some, ..video },
            )
            &&& after.s == before.s
            &&& after.out == before.out
        }),
{
    lemma_session_step(before, after, ctx, VideoMessage::SeekDrag);
    reveal(video_stepped);
}

/// A drag and its release come to one seek, to the dragged position, and a
/// second release to none.
pub proof fn law_drag_and_release_seek_once(
    before: Wt,
    dragged: Wt,
    released: Wt,
    again: Wt,
    ctx: Ctx,
    later: Ctx,
    latest: Ctx,
)
    requires
        controlled(before, dragged, ctx, VideoMessage::SeekDrag),
        controlled(dragged, released, later, VideoMessage::SeekRelease),
        controlled(released, again, latest, VideoMessage::SeekRelease),
    ensures
        before.w.viewer->0.video.session is Some ==> released.out == before.out.push(
            Action::ReopenVideo { at: SeekTarget::Dragged },
        ),
        again.out == released.out,
        !again.w.viewer->0.video.seek_drag,
{
    law_seek_drag_waits_for_its_release(before, dragged, ctx);
    law_released_seek_goes_to_the_dragged_position(dragged, released, later);
    law_released_seek_goes_to_the_dragged_position(released, again, latest);
}

/// A seek by keys seeks an open session by that many seconds and brings the
/// controls up for two and a half seconds. Without a session nothing happens.
pub proof fn law_seek_goes_by_what_was_asked(before: Wt, after: Wt, ctx: Ctx, n: i32)
    requires
        controlled(before, after, ctx, VideoMessage::SeekBy(n)),
        ctx.now.nanos <= u128::MAX - 2_500_000_000,
    ensures
        before.w.viewer->0.video.session is None ==> untouched(before, after),
        before.w.viewer->0.video.session is Some ==> {
            let video = before.w.viewer->0.video;
            &&& only_video(
                before,
                after,
                VideoState {
                    controls_until: Some(
                        Instant { nanos: (ctx.now.nanos + 2_500_000_000) as u128 },
                    ),
                    ..video
                },
            )
            &&& after.s == before.s
            &&& after.out == before.out.push(Action::ReopenVideo { at: SeekTarget::Offset(n) })
        },
{
    reveal(video_stepped);
    lemma_session_step(before, after, ctx, VideoMessage::SeekBy(n));
}

/// A frame step goes that many frames on in an open session and leaves it
/// paused. Without a session nothing happens.
pub proof fn law_frame_step_pauses(before: Wt, after: Wt, ctx: Ctx, n: i32)
    requires
        controlled(before, after, ctx, VideoMessage::StepFrame(n)),
    ensures
        before.w.viewer->0.video.session is None ==> untouched(before, after),
        before.w.viewer->0.video.session is Some ==> {
            let video = before.w.viewer->0.video;
            &&& only_video(
                before,
                after,
                VideoState {
                    session: Some(VideoSession { playing: false, ..video.session->0 }),
                    ..video
                },
            )
            &&& after.s == before.s
            &&& after.out == before.out.push(
                Action::ReopenVideo { at: SeekTarget::Frames(n) },
            ).push(Action::PauseVideo)
        },
{
    reveal(video_stepped);
    lemma_session_step(before, after, ctx, VideoMessage::StepFrame(n));
}

/// Play and pause alternate: a session that plays is paused and one that is
/// paused plays, so that two presses leave it as it was.
pub proof fn law_play_and_pause_alternate(
    before: Wt,
    once: Wt,
    twice: Wt,
    ctx: Ctx,
    later: Ctx,
)
    requires
        controlled(before, once, ctx, VideoMessage::PlayPause),
        controlled(once, twice, later, VideoMessage::PlayPause),
    ensures
        twice.w.viewer == before.w.viewer,
        once.s == before.s,
        twice.s == before.s,
        before.w.viewer->0.video.session is None ==> untouched(before, once),
        before.w.viewer->0.video.session is Some ==> {
            let session = before.w.viewer->0.video.session->0;
            &&& once.w.viewer->0.video.session == Some(
                VideoSession { playing: !session.playing, ..session },
            )
            &&& once.out == before.out.push(
                if session.playing {
                    Action::PauseVideo
                } else {
                    Action::PlayVideo
                },
            )
        },
{
    lemma_session_step(before, once, ctx, VideoMessage::PlayPause);
    lemma_session_step(once, twice, later, VideoMessage::PlayPause);
    reveal(video_stepped);
}

/// Muting an open session turns its sound around and the saved setting follows
/// it; nothing else of the settings changes. Without a session nothing happens.
pub proof fn law_mute_is_remembered(before: Wt, after: Wt, ctx: Ctx)
    requires
        controlled(before, after, ctx, VideoMessage::ToggleMute),
    ensures
        before.w.viewer->0.video.session is None ==> untouched(before, after),
        before.w.viewer->0.video.session is Some ==> {
            let video = before.w.viewer->0.video;
            let session = video.session->0;
            &&& only_video(
                before,
                after,
                VideoState {
                    session: Some(VideoSession { muted: !session.muted, ..session }),
                    ..video
                },
            )
            &&& after.s.config.value == (Config {
                video_muted: !session.muted,
                ..before.s.config.value
            })
            &&& after.out == before.out.push(
                Action::SetVideoMuted { muted: !session.muted },
            ).push(Action::SaveConfig)
        },
{
    let t = before.inner();
    lemma_session_step(before, after, ctx, VideoMessage::ToggleMute);
    assert(after.inner() == mute_toggled(t)) by {
        reveal(video_stepped);
    }
    let on = !before.w.viewer->0.video.session->0.muted;
    lemma_with_config(before.s, Setting::VideoMuted(on));
    assert(with_setting(before.s.config.value, Setting::VideoMuted(on)) == (Config {
        video_muted: on,
        ..before.s.config.value
    })) by {
        reveal(with_setting);
    }
}

/// Looping is turned around and remembered in the same way.
pub proof fn law_loop_is_remembered(before: Wt, after: Wt, ctx: Ctx)
    requires
        controlled(before, after, ctx, VideoMessage::ToggleLoop),
    ensures
        before.w.viewer->0.video.session is None ==> untouched(before, after),
        before.w.viewer->0.video.session is Some ==> {
            let video = before.w.viewer->0.video;
            let session = video.session->0;
            &&& only_video(
                before,
                after,
                VideoState {
                    session: Some(VideoSession { looping: !session.looping, ..session }),
                    ..video
                },
            )
            &&& after.s.config.value == (Config {
                video_loop: !session.looping,
                ..before.s.config.value
            })
            &&& after.out == before.out.push(
                Action::SetVideoLooping { looping: !session.looping },
            ).push(Action::SaveConfig)
        },
{
    let t = before.inner();
    lemma_session_step(before, after, ctx, VideoMessage::ToggleLoop);
    assert(after.inner() == loop_toggled(t)) by {
        reveal(video_stepped);
    }
    let on = !before.w.viewer->0.video.session->0.looping;
    lemma_with_config(before.s, Setting::VideoLoop(on));
    assert(with_setting(before.s.config.value, Setting::VideoLoop(on)) == (Config {
        video_loop: on,
        ..before.s.config.value
    })) by {
        reveal(with_setting);
    }
}

/// A new volume between silence and full is remembered as it is, unmutes, and
/// goes to the open session; it is saved once the slider has rested for four
/// tenths of a second.
pub proof fn law_volume_is_remembered(before: Wt, after: Wt, ctx: Ctx, volume: u32)
    requires
        controlled(before, after, ctx, VideoMessage::SetVolume(volume)),
        volume <= 0x3f80_0000,
        ctx.now.nanos <= u128::MAX - 400_000_000,
    ensures
        after.w.viewer == before.w.viewer,
        after.s.config.value == (Config {
            video_volume: volume,
            video_muted: false,
            ..before.s.config.value
        }),
        after.s.status.value == (Status {
            volume_save_due: Some(Instant { nanos: (ctx.now.nanos + 400_000_000) as u128 }),
            ..before.s.status.value
        }),
        after.out == before.out + if before.w.viewer->0.video.session is Some {
            seq![
                Action::ApplyVideoVolume { volume },
                Action::WakeForVolumeSave { delay: Duration { nanos: 450_000_000 } },
            ]
        } else {
            seq![Action::WakeForVolumeSave { delay: Duration { nanos: 450_000_000 } }]
        },
{
    reveal(video_message);
    lemma_controlled(before, after, ctx, VideoMessage::SetVolume(volume));
    reveal(volume_noted);
    reveal(with_config);
    reveal(with_setting);
    let wake = Action::WakeForVolumeSave { delay: Duration { nanos: 450_000_000 } };
    assert(before.out.push(wake) =~= before.out + seq![wake]);
    assert(before.out.push(Action::ApplyVideoVolume { volume }).push(wake) =~= before.out + seq![
        Action::ApplyVideoVolume { volume },
        wake,
    ]);
}

/// A nudge of the volume brings the controls of an open session up and is
/// handed on.
pub proof fn law_nudge_is_handed_on(before: Wt, after: Wt, ctx: Ctx, tenths: i32)
    requires
        controlled(before, after, ctx, VideoMessage::NudgeVolume(tenths)),
        ctx.now.nanos <= u128::MAX - 2_500_000_000,
    ensures
        after.s == before.s,
        after.out == before.out.push(Action::NudgeVolume { tenths }),
        ({
            let video = before.w.viewer->0.video;
            only_video(
                before,
                after,
                VideoState {
                    controls_until: if video.session is Some {
                        Some(Instant { nanos: (ctx.now.nanos + 2_500_000_000) as u128 })
                    } else {
                        video.controls_until
                    },
                    ..video
                },
            )
        }),
{
    reveal(video_message);
    lemma_controlled(before, after, ctx, VideoMessage::NudgeVolume(tenths));
    reveal(video_stepped);
}

/// Whether the controls are up at `now`: unless the session plays undisturbed
/// and the time after the last movement has run out.
pub open spec fn controls_visible(video: VideoState, now: Instant) -> bool {
    let playing = video.session is Some && video.session->0.playing;
    let idle = video.controls_until is None || video.controls_until->0.nanos <= now.nanos;
    !(playing && !video.seek_drag && idle)
}

/// A frame that is due goes on screen at its size, as the display of the
/// current file, and the wait is over.
pub proof fn law_due_frame_is_shown(
    before: Wt,
    after: Wt,
    ctx: Ctx,
    poll: Poll,
    size: (u32, u32),
)
    requires
        controlled(before, after, ctx, VideoMessage::Tick(poll)),
        before.s.status.value.volume_save_due is None,
        before.w.viewer->0.video.session is Some,
        poll.failed is None,
        poll.frame == Some(size),
    ensures
        ({
            let v = before.w.viewer->0;
            &&& after.w.viewer == Some(
                ViewerModel {
                    displayed: DisplayedModel::Video { original_size: size },
                    displayed_path: Some(v.current()),
                    pending_since: None,
                    video: VideoState { frame: Some(size), ..v.video },
                    ..v
                },
            )
            &&& after.s == before.s
            &&& after.out.len() > before.out.len()
            &&& after.out[before.out.len() as int] == Action::EaseControls {
                visible: controls_visible(v.video, ctx.now),
            }
            &&& v.displayed is Video ==> after.out.len() == before.out.len() + 1
            &&& !(v.displayed is Video) && !keeps_zoom(v, before.s.config.value)
                ==> after.out.skip(before.out.len() as int + 1) == seq![
                Action::FitZoom { width: size.0, height: size.1 },
                Action::ResetPan,
            ]
            &&& !(v.displayed is Video) && keeps_zoom(v, before.s.config.value)
                ==> after.out.len() == before.out.len() + 1
        }),
{
    reveal(video_message);
    lemma_controlled(before, after, ctx, VideoMessage::Tick(poll));
    reveal(video_stepped);
    reveal(frame_ticked);
    let v = before.w.viewer->0;
    if !(v.displayed is Video) && !keeps_zoom(v, before.s.config.value) {
        assert(after.out.skip(before.out.len() as int + 1) =~= seq![
            Action::FitZoom { width: size.0, height: size.1 },
            Action::ResetPan,
        ]);
    }
}

/// A session that could not be set up is torn down, and the error takes its
/// place on screen and is remembered as the file's.
pub proof fn law_failed_session_shows_its_error(
    before: Wt,
    after: Wt,
    ctx: Ctx,
    poll: Poll,
)
    requires
        controlled(before, after, ctx, VideoMessage::Tick(poll)),
        before.s.status.value.volume_save_due is None,
        before.w.viewer->0.video.session is Some,
        poll.failed is Some,
    ensures
        ({
            let v = before.w.viewer->0;
            let file = v.current();
            let message = load_error_text(before.s, file, poll.failed->0@);
            let now = after.w.viewer->0;
            &&& after.w.viewer is Some
            &&& now.displayed == DisplayedModel::Error { message }
            &&& now.displayed_path == Some(file)
            &&& now.pending_since is None
            &&& now.failed_loads == v.failed_loads.insert(file, message)
            &&& now.video.session is None
            &&& now.video.suspended is None
            &&& now.video.frame is None
            &&& now.video.extracting is None
            &&& now.nav == v.nav
            &&& now.cache == v.cache
            &&& after.s == before.s
            &&& after.out == before.out.push(
                Action::EaseControls { visible: controls_visible(v.video, ctx.now) },
            )
        }),
{
    reveal(video_message);
    lemma_controlled(before, after, ctx, VideoMessage::Tick(poll));
    reveal(video_stepped);
    reveal(frame_ticked);
}

/// A finished session starts over where it loops and showed a frame at all;
/// otherwise it is paused, if it is not already. A session still going is left
/// alone.
pub proof fn law_finished_session_loops_or_rests(
    before: Wt,
    after: Wt,
    ctx: Ctx,
    poll: Poll,
)
    requires
        controlled(before, after, ctx, VideoMessage::Tick(poll)),
        before.s.status.value.volume_save_due is None,
        before.w.viewer->0.video.session is Some,
        poll.failed is None,
        poll.frame is None,
    ensures
        ({
            let v = before.w.viewer->0;
            let session = v.video.session->0;
            let eased = before.out.push(
                Action::EaseControls { visible: controls_visible(v.video, ctx.now) },
            );
            let restart = poll.finished && session.looping && poll.showed_frame;
            let rest = poll.finished && !restart && session.playing;
            &&& after.s == before.s
            &&& only_video(
                before,
                after,
                VideoState {
                    session: Some(
                        VideoSession { playing: session.playing && !rest, ..session },
                    ),
                    ..v.video
                },
            )
            &&& restart ==> after.out == eased.push(
                Action::ReopenVideo { at: SeekTarget::Start },
            )
            &&& rest ==> after.out == eased.push(Action::PauseVideo)
            &&& !restart && !rest ==> after.out == eased
        }),
{
    reveal(video_message);
    lemma_controlled(before, after, ctx, VideoMessage::Tick(poll));
    reveal(video_stepped);
    reveal(frame_ticked);
}

/// A volume that has rested is saved at the next tick, once, and not before.
pub proof fn law_rested_volume_is_saved(before: Wt, after: Wt, ctx: Ctx, poll: Poll)
    requires
        controlled(before, after, ctx, VideoMessage::Tick(poll)),
        before.w.viewer->0.video.session is None,
    ensures
        after.w.viewer == before.w.viewer,
        after.s.config == before.s.config,
        ({
            let due = before.s.status.value.volume_save_due;
            let eased = Action::EaseControls {
                visible: controls_visible(before.w.viewer->0.video, ctx.now),
            };
            if due is Some && due->0.nanos <= ctx.now.nanos {
                &&& after.s.status.value.volume_save_due is None
                &&& after.out == before.out.push(Action::SaveConfig).push(eased)
            } else {
                &&& after.s == before.s
                &&& after.out == before.out.push(eased)
            }
        }),
{
    lemma_controlled(before, after, ctx, VideoMessage::Tick(poll));
    reveal(video_message);
    reveal(video_stepped);
    reveal(frame_ticked);
}

} // verus!
