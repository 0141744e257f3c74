//! Where a step through the listing ends up.
use crate::actions::{Action, ThumbUrgency};
use crate::components::viewer_stepped;
use crate::dispatch::{dispatched, transient_dismissed};
use crate::files::FileId;
use crate::laws::arrival::{arrived_at, law_arrival, lemma_load_only, no_video};
use crate::laws::loading::{
    added, asks_in_full, extends, lemma_added_since, lemma_added_stays, lemma_extends_trans,
    lemma_thumb_carried, urgent_decode, urgent_upload,
};
use crate::laws::restoring::{lemma_load_starts, work_started};
use crate::leases::want_of;
use crate::media_tasks::{
    lemma_load_frame, lemma_thumb_frame, loaded_shown, placeholder_or_clear, placeholder_shown,
    thumb_fired, Ctx, St,
};
use crate::message::{FilmstripMessage, Message, SliderMessage, ViewerMessage};
use crate::nav::NavModel;
use crate::navigation::{
    lemma_navigated, lemma_target_in_range, moved, navigate_spec, pending_resolved, scrubbed,
    target_index, NavTarget,
};
use crate::panels::{slider_moved, slider_released, strip_message};
use crate::paths::is_video;
use crate::state::{Direction, DisplayedModel, Held, SharedModel, SliderDrag, ViewerModel};
use crate::store::Tier;
use crate::window::Wt;
use vstd::prelude::*;

verus! {

/// Whether there is something to put on screen for `file` right away: a
/// texture or frames this window holds, a video, the error of a failed load, or
/// a thumbnail.
pub open spec fn can_show(v: ViewerModel, s: SharedModel, file: FileId) -> bool {
    ||| want_of(v.cache, file) is Some && s.store.entries.contains_key(file)
        && s.store.entries[file].minted is Some
    ||| want_of(v.anim.cache, file) is Some && s.anims.frames.contains_key(file)
    ||| is_video(s.paths, file)
    ||| v.failed_loads.contains_key(file)
    ||| s.thumbs.contains_key(file)
}

/// The position one step from `i` in a ring of `n`.
pub open spec fn one_step(i: int, n: int, direction: Direction) -> int {
    match direction {
        Direction::Forward => if i == n - 1 {
            0
        } else {
            i + 1
        },
        Direction::Backward => if i == 0 {
            n - 1
        } else {
            i - 1
        },
    }
}

/// Whether the move to `index` is pending in `after`: the cursor and the
/// screen stay, and the file to move to is asked for in full.
pub open spec fn waits_for(before: St, after: St, ctx: Ctx, index: int) -> bool {
    let file = before.v.nav.files[index];
    &&& after.v.nav == before.v.nav
    &&& after.v.displayed == before.v.displayed
    &&& after.v.displayed_path == before.v.displayed_path
    &&& after.v.pending_nav == Some(index as usize)
    &&& after.v.pending_since == Some(ctx.now)
    &&& asks_in_full(after.v.cache, after.s.store, ctx.window, file)
    &&& extends(before.out, after.out)
    &&& work_started(before.s, file, added(before.out, after.out))
    &&& !before.v.in_flight_thumbs.contains(file) && !before.v.failed_thumbs.contains(file)
        ==> added(before.out, after.out).contains(
        Action::LoadThumb {
            file,
            urgency: ThumbUrgency::Urgent,
            cheap_only: before.v.in_flight.contains(file),
        },
    )
    &&& after.v.held_direction == before.v.held_direction
    &&& after.v.slider_drag == before.v.slider_drag
    &&& after.v.rotation == before.v.rotation
    &&& after.v.video == before.v.video
    &&& after.v.anim == before.v.anim
}

/// A move to `index` happens where the file there can be shown, and is pending
/// otherwise.
pub open spec fn moves_or_waits(before: St, after: St, ctx: Ctx, index: int) -> bool {
    if can_show(before.v, before.s, before.v.nav.files[index]) {
        arrived_at(before, after, ctx, index, true)
    } else {
        waits_for(before, after, ctx, index)
    }
}

proof fn lemma_can_show(v: ViewerModel, s: SharedModel, file: FileId)
    ensures
        can_show(v, s, file) == v.displayable(s, file),
{
    reveal(ViewerModel::displayable);
}

proof fn lemma_one_step(nav: NavModel, direction: Direction)
    requires
        nav.wf(),
    ensures
        target_index(nav, NavTarget::Delta(direction)) == one_step(
            nav.cursor,
            nav.files.len() as int,
            direction,
        ),
{
    let n = nav.files.len() as int;
    let i = nav.cursor;
    match direction {
        Direction::Forward => {
            if i == n - 1 {
                assert((i + 1) % n == 0) by (nonlinear_arith)
                    requires
                        i + 1 == n,
                        n > 0,
                ;
            } else {
                assert((i + 1) % n == i + 1) by (nonlinear_arith)
                    requires
                        0 <= i + 1 < n,
                ;
            }
        },
        Direction::Backward => {
            if i == 0 {
                assert((i + n - 1) % n == n - 1) by (nonlinear_arith)
                    requires
                        i == 0,
                        n > 0,
                ;
            } else {
                assert((i + n - 1) % n == i - 1) by (nonlinear_arith)
                    requires
                        0 < i < n,
                ;
            }
        },
    }
}

proof fn lemma_target(t: St, ctx: Ctx, target: NavTarget, index: int)
    requires
        t.v.wf(),
        index == target_index(t.v.nav, target),
        target is Delta ==> t.v.pending_nav is None,
        target is Index ==> index != t.v.nav.cursor,
    ensures
        moves_or_waits(t, navigate_spec(t, ctx, target), ctx, index),
        navigate_spec(t, ctx, target).v.wf(),
{
    let file = t.v.nav.files[index];
    lemma_target_in_range(t.v.nav, target);
    lemma_can_show(t.v, t.s, file);
    if can_show(t.v, t.s, file) {
        lemma_navigated(t, ctx, index, true);
        law_arrival(t, ctx, index, true);
    } else {
        let held = St {
            v: ViewerModel {
                pending_nav: Some(index as usize),
                pending_since: Some(ctx.now),
                ..t.v
            },
            ..t
        };
        let thumbed = thumb_fired(held, file, ThumbUrgency::Urgent);
        lemma_thumb_carried(held, file, ThumbUrgency::Urgent);
        lemma_thumb_frame(held, file, ThumbUrgency::Urgent);
        lemma_load_frame(thumbed, ctx.window, file, Tier::Full);
        lemma_load_starts(thumbed, ctx.window, file);
        let after = navigate_spec(t, ctx, target);
        lemma_extends_trans(t.out, thumbed.out, after.out);
        let thumb = Action::LoadThumb {
            file,
            urgency: ThumbUrgency::Urgent,
            cheap_only: t.v.in_flight.contains(file),
        };
        lemma_load_only(thumbed, ctx.window, file, Tier::Full);
        assert(thumbed.v == (ViewerModel {
            in_flight_thumbs: thumbed.v.in_flight_thumbs,
            ..held.v
        }) && (!t.v.in_flight_thumbs.contains(file) && !t.v.failed_thumbs.contains(file)
            ==> thumbed.out == t.out.push(thumb))) by {
            reveal(thumb_fired);
        }
        if thumbed.out == t.out.push(thumb) {
            assert(added(t.out, thumbed.out)[0] == thumb);
            lemma_added_stays(t.out, thumbed.out, after.out, thumb);
        }
        if added(thumbed.out, after.out).contains(urgent_decode(file)) {
            lemma_added_since(t.out, thumbed.out, after.out, urgent_decode(file));
        }
        if added(thumbed.out, after.out).contains(urgent_upload(file)) {
            lemma_added_since(t.out, thumbed.out, after.out, urgent_upload(file));
        }
    }
}

/// The step a key press asks for.
pub open spec fn pressed(msg: ViewerMessage) -> Option<Direction> {
    match msg {
        ViewerMessage::Next => Some(Direction::Forward),
        ViewerMessage::Prev => Some(Direction::Backward),
        _ => None,
    }
}

/// The step a held key repeats.
pub open spec fn repeated(v: ViewerModel, msg: ViewerMessage) -> Option<Direction> {
    match msg {
        ViewerMessage::NextRepeat => Some(Direction::Forward),
        ViewerMessage::PrevRepeat => Some(Direction::Backward),
        ViewerMessage::EdgeRepeat => v.edge_held,
        _ => None,
    }
}

/// A key press steps one file on or back, wrapping around at the ends, onto a
/// file that can be shown; it waits for one that cannot. While a move is pending
/// it does nothing but note the key as held.
pub proof fn law_press_steps_by_one(
    before: Wt,
    after: Wt,
    ctx: Ctx,
    msg: ViewerMessage,
    direction: Direction,
)
    requires
        dispatched(before, after, ctx, Message::Viewer(msg)),
        before.w.modal is None,
        before.w.viewer is Some,
        before.w.viewer->0.wf(),
        pressed(msg) == Some(direction),
    ensures
        after.w.viewer is Some,
        after.w.viewer->0.wf(),
        ({
            let v = before.w.viewer->0;
            let index = one_step(v.nav.cursor, v.nav.files.len() as int, direction);
            let held = St {
                v: ViewerModel {
                    held_direction: Some(Held { direction, since: ctx.now }),
                    ..v
                },
                s: before.s,
                out: before.out,
            };
            if v.pending_nav is None {
                moves_or_waits(held, after.inner(), ctx, index)
            } else {
                after.inner() == held
            }
        }),
{
    reveal(viewer_stepped);
    let t = transient_dismissed(before, Message::Viewer(msg)).inner();
    let held = St {
        v: ViewerModel { held_direction: Some(Held { direction, since: ctx.now }), ..t.v },
        ..t
    };
    lemma_one_step(t.v.nav, direction);
    if t.v.pending_nav is None {
        lemma_target(
            held,
            ctx,
            NavTarget::Delta(direction),
            one_step(t.v.nav.cursor, t.v.nav.files.len() as int, direction),
        );
    }
}

/// A held key repeats its step once it has been held for three tenths of a
/// second, and does nothing before.
pub proof fn law_repeat_steps_after_the_hold(
    before: Wt,
    after: Wt,
    ctx: Ctx,
    msg: ViewerMessage,
    direction: Direction,
)
    requires
        dispatched(before, after, ctx, Message::Viewer(msg)),
        before.w.modal is None,
        before.w.viewer is Some,
        before.w.viewer->0.wf(),
        repeated(before.w.viewer->0, msg) == Some(direction),
    ensures
        after.w.viewer is Some,
        ({
            let v = before.w.viewer->0;
            let index = one_step(v.nav.cursor, v.nav.files.len() as int, direction);
            let held = v.held_direction is Some && ctx.now.nanos >= 300_000_000
                + v.held_direction->0.since.nanos;
            if held && v.pending_nav is None {
                moves_or_waits(before.inner(), after.inner(), ctx, index)
            } else {
                &&& after.w.viewer == before.w.viewer
                &&& after.s == before.s
                &&& after.out == before.out
            }
        }),
{
    reveal(viewer_stepped);
    let t = transient_dismissed(before, Message::Viewer(msg)).inner();
    lemma_one_step(t.v.nav, direction);
    if t.v.pending_nav is None {
        lemma_target(
            t,
            ctx,
            NavTarget::Delta(direction),
            one_step(t.v.nav.cursor, t.v.nav.files.len() as int, direction),
        );
    }
}

/// A step on that arrives, followed by a step back to a file that can still be
/// shown, ends on the file it started from; so do a step back and a step on.
pub proof fn law_opposite_steps_return(
    before: Wt,
    between: Wt,
    after: Wt,
    ctx: Ctx,
    later: Ctx,
    out: ViewerMessage,
    back: ViewerMessage,
)
    requires
        out == ViewerMessage::Next && back == ViewerMessage::Prev || out == ViewerMessage::Prev
            && back == ViewerMessage::Next,
        dispatched(before, between, ctx, Message::Viewer(out)),
        dispatched(between, after, later, Message::Viewer(back)),
        before.w.modal is None,
        between.w.modal is None,
        before.w.viewer is Some,
        before.w.viewer->0.wf(),
        before.w.viewer->0.pending_nav is None,
        between.w.viewer is Some,
        between.w.viewer->0.pending_nav is None,
        can_show(between.w.viewer->0, between.s, before.w.viewer->0.current()),
    ensures
        after.w.viewer is Some,
        after.w.viewer->0.nav == before.w.viewer->0.nav,
        after.w.viewer->0.current() == before.w.viewer->0.current(),
{
    let there = if out == ViewerMessage::Next {
        Direction::Forward
    } else {
        Direction::Backward
    };
    let home = if out == ViewerMessage::Next {
        Direction::Backward
    } else {
        Direction::Forward
    };
    law_press_steps_by_one(before, between, ctx, out, there);
    law_press_steps_by_one(between, after, later, back, home);
    reveal(arrived_at);
}

/// The position a jump goes to, if the message is one.
pub open spec fn jump(v: ViewerModel, msg: Message) -> Option<int> {
    match msg {
        Message::Viewer(ViewerMessage::First) => Some(0),
        Message::Viewer(ViewerMessage::Last) => Some(v.nav.files.len() - 1),
        Message::Filmstrip(FilmstripMessage::Clicked(index)) => if index < v.nav.files.len() {
            Some(index as int)
        } else {
            None
        },
        _ => None,
    }
}

/// A jump goes to the first file, the last, or the clicked one, pending move
/// or not, or waits for it; a jump to where the cursor is drops the pending move
/// and changes nothing else.
pub proof fn law_jump_goes_where_asked(
    before: Wt,
    after: Wt,
    ctx: Ctx,
    msg: Message,
    index: int,
)
    requires
        dispatched(before, after, ctx, msg),
        before.w.modal is None,
        before.w.viewer is Some,
        before.w.viewer->0.wf(),
        jump(before.w.viewer->0, msg) == Some(index),
    ensures
        after.w.viewer is Some,
        if index == before.w.viewer->0.nav.cursor {
            &&& after.w.viewer->0 == (ViewerModel { pending_nav: None, ..before.w.viewer->0 })
            &&& after.s == before.s
            &&& after.out == before.out
        } else {
            moves_or_waits(before.inner(), after.inner(), ctx, index)
        },
{
    reveal(viewer_stepped);
    reveal(strip_message);
    let t = transient_dismissed(before, msg).inner();
    let n = t.v.nav.files.len() as int;
    let target = NavTarget::Index(index as usize);
    assert(index % n == index) by (nonlinear_arith)
        requires
            0 <= index < n,
    ;
    assert(target_index(t.v.nav, target) == index);
    if index != t.v.nav.cursor {
        lemma_target(t, ctx, target, index);
    }
}

/// Letting go of the key that is held ends the hold; letting go of another
/// key, or of none, changes nothing.
pub proof fn law_release_ends_the_hold(
    before: Wt,
    after: Wt,
    ctx: Ctx,
    msg: ViewerMessage,
    direction: Direction,
)
    requires
        dispatched(before, after, ctx, Message::Viewer(msg)),
        before.w.viewer is Some,
        msg == ViewerMessage::NextReleased && direction == Direction::Forward || msg
            == ViewerMessage::PrevReleased && direction == Direction::Backward,
    ensures
        after.w.viewer is Some,
        ({
            let held = before.w.viewer->0.held_direction;
            after.w.viewer->0 == ViewerModel {
                held_direction: if held is Some && held->0.direction == direction {
                    None
                } else {
                    held
                },
                ..before.w.viewer->0
            }
        }),
        after.s == before.s,
        after.out == before.out,
{
    reveal(viewer_stepped);
}

/// A pending move completes as soon as its file can be shown, and keeps
/// waiting until then.
pub proof fn law_pending_move_completes(t: St, ctx: Ctx)
    requires
        t.v.wf(),
    ensures
        ({
            let after = pending_resolved(t, ctx);
            if t.v.pending_nav is Some && can_show(
                t.v,
                t.s,
                t.v.nav.files[t.v.pending_nav->0 as int],
            ) {
                arrived_at(t, after, ctx, t.v.pending_nav->0 as int, false)
            } else {
                after == t
            }
        }),
{
    match t.v.pending_nav {
        Some(index) => {
            lemma_can_show(t.v, t.s, t.v.nav.files[index as int]);
            law_arrival(t, ctx, index as int, false);
        },
        None => {},
    }
}

/// Dragging the slider scrubs: the cursor follows it over every file with a
/// texture or a thumbnail and shows that at once, and rests where there is
/// neither. The drag remembers its target and since when it is there; the bubble
/// stays up once a file without a picture was passed.
pub proof fn law_slider_scrubs(before: Wt, after: Wt, ctx: Ctx, index: usize)
    requires
        dispatched(before, after, ctx, Message::NavSlider(SliderMessage::Changed(index))),
        before.w.viewer is Some,
        before.w.viewer->0.wf(),
        index < before.w.viewer->0.nav.files.len(),
    ensures
        after.w.viewer is Some,
        after.s == before.s,
        ({
            let v = before.w.viewer->0;
            let now = after.w.viewer->0;
            let file = v.nav.files[index as int];
            let textured = want_of(v.cache, file) is Some && before.s.store.entry(file).minted
                is Some;
            let shown = textured || before.s.thumbs.contains_key(file);
            let bubbled = v.slider_drag is Some && v.slider_drag->0.bubble;
            &&& now.slider_drag == Some(
                SliderDrag { target: index, since: ctx.now, bubble: bubbled || !shown },
            )
            &&& now.cache == v.cache
            &&& now.nav.files == v.nav.files
            &&& shown ==> now.nav.cursor == index
            &&& !shown || index == v.nav.cursor ==> now == (ViewerModel {
                slider_drag: now.slider_drag,
                ..v
            }) && after.out == before.out
            &&& shown && index != v.nav.cursor ==> {
                &&& before.s.store.entry(file).ram is Some || before.s.thumbs.contains_key(file)
                    ==> now.displayed_path == Some(file)
                &&& now.pending_nav is None
                &&& now.exif is None
                &&& now.rotation == 0
                &&& now.displayed_rotation == 0
                &&& now.current_file_size is None
                &&& now.anim.active is None
                &&& no_video(now.video)
                &&& textured && before.s.store.entry(file).ram is Some ==> now.displayed
                    == DisplayedModel::Full {
                    original_size: (
                        before.s.store.entry(file).ram->0.width,
                        before.s.store.entry(file).ram->0.height,
                    ),
                    rotated: None,
                } && now.pending_since is None
                &&& !textured ==> now.displayed == DisplayedModel::Placeholder(
                    before.s.thumbs.at(file),
                ) && now.pending_since == Some(ctx.now)
            }
        }),
{
    reveal(slider_moved);
    reveal(scrubbed);
    reveal(moved);
    reveal(loaded_shown);
    reveal(placeholder_or_clear);
    reveal(placeholder_shown);
    let n = before.w.viewer->0.nav.files.len() as int;
    assert(index as int % n == index as int) by (nonlinear_arith)
        requires
            0 <= index < n,
    ;
}

/// Letting go of the slider ends the drag and moves to its target, or settles
/// the file the cursor has already scrubbed to.
pub proof fn law_slider_release_settles(before: Wt, after: Wt, ctx: Ctx)
    requires
        dispatched(before, after, ctx, Message::NavSlider(SliderMessage::Released)),
        before.w.viewer is Some,
        before.w.viewer->0.wf(),
        before.w.viewer->0.slider_drag is Some ==> before.w.viewer->0.slider_drag->0.target
            < before.w.viewer->0.nav.files.len(),
    ensures
        after.w.viewer is Some,
        ({
            let v = before.w.viewer->0;
            let free = St {
                v: ViewerModel { slider_drag: None, ..v },
                s: before.s,
                out: before.out,
            };
            match v.slider_drag {
                Some(drag) => if drag.target == v.nav.cursor {
                    arrived_at(free, after.inner(), ctx, v.nav.cursor, true)
                } else {
                    moves_or_waits(free, after.inner(), ctx, drag.target as int)
                },
                None => after.inner() == free,
            }
        }),
{
    reveal(slider_released);
    let v = before.w.viewer->0;
    let free = St { v: ViewerModel { slider_drag: None, ..v }, s: before.s, out: before.out };
    match v.slider_drag {
        Some(drag) => {
            let n = v.nav.files.len() as int;
            let index = drag.target as int;
            assert(index % n == index) by (nonlinear_arith)
                requires
                    0 <= index < n,
            ;
            if drag.target == v.nav.cursor {
                law_arrival(free, ctx, v.nav.cursor, true);
            } else {
                lemma_target(free, ctx, NavTarget::Index(drag.target), index);
            }
        },
        None => {},
    }
}

} // verus!
