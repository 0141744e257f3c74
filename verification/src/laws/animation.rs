//! How animations play.
use crate::actions::Action;
use crate::anim::{after_ticks, law_playback_cycles, ActiveAnim, AnimMessage, AnimModel};
use crate::dispatch::{anim_decoded, dispatched, transient_dismissed};
use crate::files::FileId;
use crate::laws::loading::{added, extends, keeps_zoom, lemma_leased};
use crate::leases::{lemma_filtered_holds, want_of};
use crate::media::{anim_landed, anim_registered, anim_stepped};
use crate::media_tasks::Ctx;
use crate::message::{MediaMessage, Message};
use crate::state::{DisplayedModel, ViewerModel};
use crate::store::{lemma_demand_covers, AnimFrames, AnimStoreModel, Claim, Texture, Tier};
use crate::window::Wt;
use vstd::prelude::*;

verus! {

/// Whether the animation `a` plays: its window holds it and its frames are
/// there, more than one of them.
pub open spec fn plays(player: AnimModel, store: AnimStoreModel, a: ActiveAnim) -> bool {
    &&& player.active == Some(a)
    &&& want_of(player.cache, a.file) is Some
    &&& store.frames.contains_key(a.file)
    &&& 1 < store.frames[a.file].delays@.len() <= usize::MAX
}

/// Whether the canvas has the size of the frames.
pub open spec fn canvas_fits(store: AnimStoreModel, a: ActiveAnim) -> bool {
    &&& a.canvas_width == store.frames[a.file].width
    &&& a.canvas_height == store.frames[a.file].height
}

/// The index after `i` in a ring of `count`.
pub open spec fn next_in_ring(i: int, count: int) -> int {
    if i + 1 == count {
        0
    } else {
        i + 1
    }
}

proof fn lemma_ring(i: int, count: int)
    requires
        0 <= i < count,
    ensures
        (i + 1) % count == next_in_ring(i, count),
{
    if i + 1 == count {
        assert((i + 1) % count == 0) by (nonlinear_arith)
            requires
                i + 1 == count,
                count > 0,
        ;
    } else {
        assert((i + 1) % count == i + 1) by (nonlinear_arith)
            requires
                0 <= i + 1 < count,
        ;
    }
}

/// Every tick of an animation takes the frame on screen away and puts the one
/// that the player holds afterwards in its place: among the actions there is one
/// disposal, of the frame that was composited last, and the action behind it
/// composites the frame of the new index. The frame sent to the screen is the
/// last action. A canvas of the wrong size is first cleared and shows the first
/// frame.
pub proof fn law_tick_replaces_the_frame_on_screen(
    player: AnimModel,
    current: FileId,
    store: AnimStoreModel,
    a: ActiveAnim,
)
    requires
        plays(player, store, a),
    ensures
        ({
            let step = player.updated(AnimMessage::Tick, current, store);
            let now = step.player.active->0;
            let frames = store.frames[a.file];
            let count = frames.delays@.len() as int;
            let i = step.acts.len() - 3;
            let shown: usize = if canvas_fits(store, a) && a.frame_index < count {
                a.frame_index
            } else {
                0
            };
            &&& step.player.active is Some
            &&& step.player.cache == player.cache
            &&& now.file == a.file
            &&& now.frame_texture == a.frame_texture
            &&& now.upload_retry_spent == a.upload_retry_spent
            &&& canvas_fits(store, now)
            &&& now.frame_index == next_in_ring(shown as int, count)
            &&& i >= 0
            &&& step.acts[i] == Action::CanvasDispose { file: a.file, frame: shown }
            &&& step.acts[i + 1] == Action::CanvasComposite {
                file: a.file,
                frame: now.frame_index,
            }
            &&& step.acts[i + 2] == match a.frame_texture {
                Some(t) if t.width == frames.width && t.height == frames.height =>
                    Action::FrameWrite { file: current, into: t },
                _ => Action::FrameUpload { file: current },
            }
            &&& canvas_fits(store, a) ==> i == 0
            &&& !canvas_fits(store, a) ==> i == 2 && step.acts[0] == (Action::CanvasReset {
                width: frames.width,
                height: frames.height,
            }) && step.acts[1] == (Action::CanvasComposite { file: a.file, frame: 0 })
            &&& step.ready is None
        }),
{
    let frames = store.frames[a.file];
    let count = frames.delays@.len() as int;
    let shown: int = if canvas_fits(store, a) && a.frame_index < count {
        a.frame_index as int
    } else {
        0
    };
    lemma_ring(shown, count);
}

/// The ticks of an animation composite its frames in turn: the tick after `n`
/// others composites the frame `n + 1` places on from the one it started with,
/// counted around the ring, and disposes of the one `n` places on.
pub proof fn law_ticks_composite_the_frames_in_turn(
    player: AnimModel,
    current: FileId,
    store: AnimStoreModel,
    a: ActiveAnim,
    n: nat,
)
    requires
        plays(player, store, a),
        canvas_fits(store, a),
        a.frame_index < store.frames[a.file].delays@.len(),
    ensures
        ({
            let count = store.frames[a.file].delays@.len() as int;
            let step = after_ticks(player, current, store, n).updated(
                AnimMessage::Tick,
                current,
                store,
            );
            &&& step.acts.len() == 3
            &&& step.acts[0] == Action::CanvasDispose {
                file: a.file,
                frame: ((a.frame_index + n) % count) as usize,
            }
            &&& step.acts[1] == Action::CanvasComposite {
                file: a.file,
                frame: ((a.frame_index + n + 1) % count) as usize,
            }
        }),
{
    let count = store.frames[a.file].delays@.len() as int;
    law_playback_cycles(player, current, store, n);
    let then = after_ticks(player, current, store, n);
    vstd::arithmetic::div_mod::lemma_mod_bound(a.frame_index + n, count);
    vstd::arithmetic::div_mod::lemma_add_mod_noop(a.frame_index + n, 1, count);
    vstd::arithmetic::div_mod::lemma_add_mod_noop((a.frame_index + n) % count, 1, count);
    vstd::arithmetic::div_mod::lemma_mod_twice(a.frame_index + n, count);
    law_tick_replaces_the_frame_on_screen(then, current, store, then.active->0);
    lemma_ring((a.frame_index + n) % count, count);
}

/// A window that plays an animation answers a tick with the disposal of the
/// frame it shows, the composite of the one it shows next, and the frame for the
/// screen; everything else of it stays.
pub proof fn law_window_plays_on(before: Wt, after: Wt, ctx: Ctx, a: ActiveAnim)
    requires
        dispatched(before, after, ctx, Message::Anim(AnimMessage::Tick)),
        before.w.viewer is Some,
        before.w.viewer->0.pending_nav is None,
        plays(before.w.viewer->0.anim, before.s.anims, a),
    ensures
        after.w.viewer is Some,
        after.s == before.s,
        ({
            let v = before.w.viewer->0;
            let now = after.w.viewer->0.anim.active->0;
            let n = after.out.len() as int;
            let frames = before.s.anims.frames[a.file];
            let count = frames.delays@.len() as int;
            let shown: usize = if canvas_fits(before.s.anims, a) && a.frame_index < count {
                a.frame_index
            } else {
                0
            };
            &&& after.w.viewer->0 == (ViewerModel {
                anim: after.w.viewer->0.anim,
                ..v
            })
            &&& after.w.viewer->0.anim.active is Some
            &&& now.file == a.file
            &&& now.frame_index == next_in_ring(shown as int, count)
            &&& extends(before.out, after.out)
            &&& added(before.out, after.out).len() == if canvas_fits(before.s.anims, a) {
                3nat
            } else {
                5nat
            }
            &&& after.out[n - 3] == Action::CanvasDispose { file: a.file, frame: shown }
            &&& after.out[n - 2] == Action::CanvasComposite {
                file: a.file,
                frame: now.frame_index,
            }
            &&& after.out[n - 1] == match a.frame_texture {
                Some(t) if t.width == frames.width && t.height == frames.height =>
                    Action::FrameWrite { file: v.current(), into: t },
                _ => Action::FrameUpload { file: v.current() },
            }
        }),
{
    reveal(anim_stepped);
    let v = before.w.viewer->0;
    law_tick_replaces_the_frame_on_screen(v.anim, v.current(), before.s.anims, a);
    let step = v.anim.updated(AnimMessage::Tick, v.current(), before.s.anims);
    assert(after.out == before.out + step.acts);
    assert(after.out.take(before.out.len() as int) =~= before.out);
}

/// A tick does nothing to a window without a playing animation, or with one of
/// a single frame.
pub proof fn law_tick_without_animation_is_idle(before: Wt, after: Wt, ctx: Ctx)
    requires
        dispatched(before, after, ctx, Message::Anim(AnimMessage::Tick)),
        before.w.viewer is Some ==> before.w.viewer->0.pending_nav is None,
        before.w.viewer is Some ==> {
            let player = before.w.viewer->0.anim;
            ||| player.active is None
            ||| want_of(player.cache, player.active->0.file) is None
            ||| !before.s.anims.frames.contains_key(player.active->0.file)
            ||| before.s.anims.frames[player.active->0.file].delays@.len() <= 1
        },
    ensures
        after.w.viewer == before.w.viewer,
        after.s == before.s,
        after.out == before.out,
{
    reveal(anim_stepped);
    assert(before.out + Seq::<Action>::empty() =~= before.out);
}

/// The first uploaded frame of the current animation puts it on screen at the
/// size of its frames, and the wait for it is over.
pub proof fn law_uploaded_frame_shows_the_animation(
    before: Wt,
    after: Wt,
    ctx: Ctx,
    texture: Texture,
    a: ActiveAnim,
)
    requires
        before.w.viewer is Some,
        before.w.viewer->0.pending_nav is None,
        dispatched(
            before,
            after,
            ctx,
            Message::Anim(
                AnimMessage::FrameAllocated(before.w.viewer->0.current(), Some(texture)),
            ),
        ),
        before.w.viewer->0.anim.active == Some(a),
        want_of(before.w.viewer->0.anim.cache, a.file) is Some,
        before.s.anims.frames.contains_key(a.file),
    ensures
        after.w.viewer is Some,
        after.s == before.s,
        after.w.viewer->0.displayed == (DisplayedModel::Animated {
            original_size: (
                before.s.anims.frames[a.file].width,
                before.s.anims.frames[a.file].height,
            ),
        }),
        after.w.viewer->0.displayed_path == Some(before.w.viewer->0.current()),
        after.w.viewer->0.pending_since is None,
        after.w.viewer->0.nav == before.w.viewer->0.nav,
        ({
            let v = before.w.viewer->0;
            let frames = before.s.anims.frames[a.file];
            let first = v.displayed is Nothing || v.pending_since is Some;
            after.out == if first && !keeps_zoom(v, before.s.config.value) {
                before.out.push(
                    Action::FitZoom { width: frames.width, height: frames.height },
                ).push(Action::ResetPan)
            } else {
                before.out
            }
        }),
        after.w.viewer->0.anim.active == Some(
            ActiveAnim { frame_texture: Some(texture), upload_retry_spent: false, ..a },
        ),
{
    reveal(anim_stepped);
    assert(before.out + Seq::<Action>::empty() =~= before.out);
}

/// A frame that was uploaded for a file no longer current is dropped.
pub proof fn law_late_frame_is_dropped(
    before: Wt,
    after: Wt,
    ctx: Ctx,
    file: FileId,
    texture: Option<Texture>,
)
    requires
        before.w.viewer is Some,
        before.w.viewer->0.pending_nav is None,
        before.w.viewer->0.current() != file,
        dispatched(
            before,
            after,
            ctx,
            Message::Anim(AnimMessage::FrameAllocated(file, texture)),
        ),
    ensures
        after.w.viewer == before.w.viewer,
        after.s == before.s,
        after.out == before.out,
{
    reveal(anim_stepped);
    assert(before.out + Seq::<Action>::empty() =~= before.out);
}

/// The decoded frames of the current file are kept for the window that asked,
/// and play from the first frame on: the canvas is cleared to their size, the
/// first frame composited and uploaded. The file is no still any more, so the
/// store forgets it and the window lets go of the still.
pub proof fn law_decoded_animation_starts_from_its_first_frame(
    before: Wt,
    after: Wt,
    ctx: Ctx,
    file: FileId,
    frames: AnimFrames,
)
    requires
        before.w.viewer is Some,
        before.w.viewer->0.pending_nav is None,
        before.w.viewer->0.current() == file,
        before.w.viewer->0.anim.active is None || before.w.viewer->0.anim.active->0.file != file,
        !before.s.anims.frames.contains_key(file),
        frames.delays@.len() > 0,
        dispatched(
            before,
            after,
            ctx,
            Message::Media(
                MediaMessage::AnimDecoded { file, frames, thumb: None, max_dim: None },
            ),
        ),
    ensures
        after.w.viewer is Some,
        after.s.anims.frames.contains_key(file),
        after.s.anims.frames[file] == frames,
        after.s.anims.claims.contains(Claim { window: ctx.window, file, want: Tier::InRam }),
        !after.s.store.entries.contains_key(file),
        want_of(after.w.viewer->0.anim.cache, file) == Some(Tier::InRam),
        want_of(after.w.viewer->0.cache, file) is None,
        !after.w.viewer->0.in_flight.contains(file),
        after.w.viewer->0.anim.active == Some(
            ActiveAnim {
                file,
                canvas_width: frames.width,
                canvas_height: frames.height,
                frame_index: 0,
                frame_texture: None,
                upload_retry_spent: false,
            },
        ),
        after.out == before.out + seq![
            Action::CanvasReset { width: frames.width, height: frames.height },
            Action::CanvasComposite { file, frame: 0 },
            Action::FrameUpload { file },
        ],
{
    reveal(anim_decoded);
    reveal(anim_landed);
    reveal(anim_registered);
    let msg = Message::Media(
        MediaMessage::AnimDecoded { file, frames, thumb: None, max_dim: None },
    );
    let t = transient_dismissed(before, msg);
    let v = before.w.viewer->0;
    let claims = before.s.anims.claim(ctx.window, file, Tier::InRam).claims;
    let mine = Claim { window: ctx.window, file, want: Tier::InRam };
    assert(claims.last() == mine);
    assert(claims[claims.len() - 1] == mine);
    lemma_demand_covers(claims, claims.len() - 1);
    lemma_leased(v.anim.cache, file, Tier::InRam, file);
    lemma_filtered_holds(v.cache, set![file], file);
}

/// The decoded frames of another file than the current one are kept for the
/// window that asked, and nothing plays on their account.
pub proof fn law_animation_elsewhere_is_only_kept(
    before: Wt,
    after: Wt,
    ctx: Ctx,
    file: FileId,
    frames: AnimFrames,
)
    requires
        before.w.viewer is Some,
        before.w.viewer->0.pending_nav is None,
        before.w.viewer->0.current() != file,
        !before.s.anims.frames.contains_key(file),
        dispatched(
            before,
            after,
            ctx,
            Message::Media(
                MediaMessage::AnimDecoded { file, frames, thumb: None, max_dim: None },
            ),
        ),
    ensures
        after.w.viewer is Some,
        after.s.anims.frames.contains_key(file),
        after.s.anims.frames[file] == frames,
        want_of(after.w.viewer->0.anim.cache, file) == Some(Tier::InRam),
        want_of(after.w.viewer->0.cache, file) is None,
        after.w.viewer->0.anim.active == before.w.viewer->0.anim.active,
        after.w.viewer->0.displayed == before.w.viewer->0.displayed,
        after.out == before.out,
{
    reveal(anim_decoded);
    reveal(anim_landed);
    reveal(anim_registered);
    let v = before.w.viewer->0;
    let claims = before.s.anims.claim(ctx.window, file, Tier::InRam).claims;
    let mine = Claim { window: ctx.window, file, want: Tier::InRam };
    assert(claims.last() == mine);
    lemma_demand_covers(claims, claims.len() - 1);
    lemma_leased(v.anim.cache, file, Tier::InRam, file);
    lemma_filtered_holds(v.cache, set![file], file);
    assert(before.out + Seq::<Action>::empty() =~= before.out);
}

} // verus!
