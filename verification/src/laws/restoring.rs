//! What a window does for its display when it comes back to the screen.
use crate::actions::Action;
use crate::decay::{background_timers, decay_restarted, restored, window_restored};
use crate::dispatch::{dispatched, transient_dismissed, window_message};
use crate::files::FileId;
use crate::laws::arrival::lemma_prefetch_leases;
use crate::laws::loading::{
    added, asks_in_full, extends, full_texture, law_full_load, lemma_added_since,
    lemma_added_stays, lemma_asks_kept_by_load, lemma_asks_kept_by_prefetch, lemma_extends_push,
    lemma_extends_self, lemma_extends_trans, lemma_leased, lemma_rotate_carried, urgent_decode,
    urgent_upload,
};
use crate::leases::{lemma_filtered_holds, want_of};
use crate::media_tasks::{
    lemma_load_frame, load_fired, prefetch_fired, rotate_fired, shared_anim_started, Ctx, St,
};
use crate::message::{Message, WindowMessage};
use crate::paths::is_video;
use crate::state::{SharedModel, VideoState, ViewerModel};
use crate::store::{lemma_demand_covers, Claim, Tier};
use crate::window::{next_number, WindowState, Wt};
use crate::window_events::{minimize_set, video_follows};
use vstd::prelude::*;

verus! {

/// Whether the display of `v` is a still that the store has to hold: not a
/// video, and no animation whose frames are at hand.
pub open spec fn shows_still(v: ViewerModel, s: SharedModel, file: FileId) -> bool {
    &&& v.displayed_path == Some(file)
    &&& !is_video(s.paths, file)
    &&& if v.displayed is Animated {
        !s.anims.frames.contains_key(file)
    } else {
        !v.anim.has_cached(s.anims, file)
    }
}

/// Whether the step `file` misses most is among `acts`: its decode where the
/// store had no pixels of it, its full upload where it had no full texture,
/// none while a job for it was under way.
pub open spec fn work_started(s: SharedModel, file: FileId, acts: Seq<Action>) -> bool {
    let entry = s.store.entry(file);
    &&& !entry.pending && entry.ram is None ==> acts.contains(urgent_decode(file))
    &&& !entry.pending && entry.ram is Some && !full_texture(entry) ==> acts.contains(
        urgent_upload(file),
    )
}

pub proof fn lemma_load_starts(t: St, window: u64, file: FileId)
    requires
        !is_video(t.s.paths, file),
        !t.v.anim.has_cached(t.s.anims, file),
    ensures
        ({
            let after = load_fired(t, window, file, Tier::Full);
            &&& extends(t.out, after.out)
            &&& asks_in_full(after.v.cache, after.s.store, window, file)
            &&& work_started(t.s, file, added(t.out, after.out))
        }),
{
    law_full_load(t, window, file);
    lemma_asks_kept_by_load(t, window, file, file, Tier::Full);
    let after = load_fired(t, window, file, Tier::Full);
    let entry = t.s.store.entry(file);
    if !entry.pending && entry.ram is None {
        assert(added(t.out, after.out)[0] == urgent_decode(file));
    } else if !entry.pending && !full_texture(entry) {
        assert(added(t.out, after.out)[0] == urgent_upload(file));
    }
}

/// A display that is put back asks for its still in full.
pub proof fn law_restored_display_asks_in_full(t: St, window: u64, focused: bool, file: FileId)
    requires
        shows_still(t.v, t.s, file),
    ensures
        ({
            let after = restored(t, window, focused);
            &&& extends(t.out, after.out)
            &&& asks_in_full(after.v.cache, after.s.store, window, file)
            &&& work_started(t.s, file, added(t.out, after.out))
            &&& t.v.displayed is Full && t.v.rotation != t.v.displayed_rotation && file
                == t.v.current() && t.s.store.ram(file) is Some ==> added(
                t.out,
                after.out,
            ).contains(Action::Rotate { file, turns: t.v.rotation })
        }),
{
    reveal(restored);
    lemma_extends_self(t.out);
    lemma_extends_push(t.out, t.out, Action::ResumeVideo);
    let reopened = match t.v.video.suspended {
        Some(session) => St {
            v: ViewerModel {
                video: VideoState { session: Some(session), suspended: None, ..t.v.video },
                ..t.v
            },
            ..t
        }.act(Action::ResumeVideo),
        None => t,
    };
    let base = if t.v.displayed is Animated {
        shared_anim_started(reopened, window, file)
    } else {
        reopened
    };
    if t.v.displayed is Animated {
        reveal(shared_anim_started);
        lemma_filtered_holds(reopened.v.anim.cache, set![file], file);
    }
    let loaded = load_fired(base, window, file, Tier::Full);
    lemma_load_starts(base, window, file);
    let turned = if t.v.displayed is Animated {
        loaded
    } else {
        rotate_fired(loaded)
    };
    lemma_rotate_carried(loaded);
    lemma_extends_self(loaded.out);
    lemma_asks_kept_by_prefetch(turned, window, file);
    let after = restored(t, window, focused);
    lemma_extends_trans(base.out, loaded.out, turned.out);
    lemma_extends_self(turned.out);
    lemma_extends_trans(base.out, turned.out, after.out);
    lemma_extends_trans(t.out, base.out, after.out);
    lemma_extends_trans(loaded.out, turned.out, after.out);
    let turn = Action::Rotate { file, turns: t.v.rotation };
    if t.v.displayed is Full && t.v.rotation != t.v.displayed_rotation && file == t.v.current()
        && t.s.store.ram(file) is Some {
        law_full_load(base, window, file);
        lemma_load_frame(base, window, file, Tier::Full);
        assert(turned.out == loaded.out.push(turn)) by {
            reveal(rotate_fired);
        }
        assert(added(loaded.out, turned.out)[0] == turn);
        lemma_added_stays(loaded.out, turned.out, after.out, turn);
        lemma_extends_trans(t.out, base.out, loaded.out);
        lemma_added_since(t.out, loaded.out, after.out, turn);
    }
    if added(base.out, loaded.out).contains(urgent_decode(file)) {
        lemma_added_stays(base.out, loaded.out, after.out, urgent_decode(file));
        lemma_added_since(t.out, base.out, after.out, urgent_decode(file));
    }
    if added(base.out, loaded.out).contains(urgent_upload(file)) {
        lemma_added_stays(base.out, loaded.out, after.out, urgent_upload(file));
        lemma_added_since(t.out, base.out, after.out, urgent_upload(file));
    }
}

/// Whether a window message makes a window that is in view check its display
/// again: it is un-minimized, its focus changes, or it is told to.
pub open spec fn comes_back(state: WindowState, msg: WindowMessage) -> bool {
    match msg {
        WindowMessage::Minimized(on) => state.minimized && !on,
        WindowMessage::Focused(on) => !state.minimized && state.focused != on,
        WindowMessage::Reactivate => !state.minimized,
        _ => false,
    }
}

proof fn lemma_restart_restores(t: Wt, file: FileId)
    requires
        t.w.viewer is Some,
        !t.w.state.value.minimized,
        shows_still(t.w.viewer->0, t.s, file),
    ensures
        ({
            let after = decay_restarted(t);
            &&& after.w.viewer is Some
            &&& extends(t.out, after.out)
            &&& asks_in_full(
                after.w.viewer->0.cache,
                after.s.store,
                t.w.state.value.id,
                file,
            )
            &&& work_started(t.s, file, added(t.out, after.out))
        }),
{
    reveal(decay_restarted);
    reveal(window_restored);
    let generation = next_number(t.w.state.value.decay_generation);
    let fresh = t.with_state(
        WindowState { decay_generation: generation, ..t.w.state.value },
    );
    let shown = window_restored(fresh);
    law_restored_display_asks_in_full(
        fresh.inner(),
        t.w.state.value.id,
        t.w.state.value.focused,
        file,
    );
    let after = decay_restarted(t);
    lemma_extends_self(shown.out);
    assert((shown.out + background_timers(shown, generation)).take(shown.out.len() as int)
        =~= shown.out);
    assert(extends(shown.out, after.out));
    lemma_extends_trans(t.out, shown.out, after.out);
    if added(t.out, shown.out).contains(urgent_decode(file)) {
        lemma_added_stays(t.out, shown.out, after.out, urgent_decode(file));
    }
    if added(t.out, shown.out).contains(urgent_upload(file)) {
        lemma_added_stays(t.out, shown.out, after.out, urgent_upload(file));
    }
}

/// A window that comes back to the screen with a still on display holds that
/// still in full, in its own leases and on the store's record, whatever it had
/// decayed to. A missing decode or upload is among the actions at once, unless a
/// job for the file was already under way.
pub proof fn law_returning_window_sharpens_its_still(
    before: Wt,
    after: Wt,
    ctx: Ctx,
    msg: WindowMessage,
    file: FileId,
)
    requires
        dispatched(before, after, ctx, Message::Window(msg)),
        comes_back(before.w.state.value, msg),
        before.w.viewer is Some,
        shows_still(before.w.viewer->0, before.s, file),
    ensures
        after.w.viewer is Some,
        extends(before.out, after.out),
        asks_in_full(
            after.w.viewer->0.cache,
            after.s.store,
            before.w.state.value.id,
            file,
        ),
        work_started(before.s, file, added(before.out, after.out)),
{
    reveal(window_message);
    let t = transient_dismissed(before, Message::Window(msg));
    match msg {
        WindowMessage::Minimized(on) => {
            reveal(minimize_set);
            let u = t.with_state(WindowState { minimized: false, ..t.w.state.value });
            let (inner, resume) = video_follows(
                u.inner(),
                false,
                t.s.config.value.resource.value.pause_video_when_minimized,
                t.w.state.value.video_resumes_on_restore,
            );
            let followed = u.with_inner(inner).with_state(
                WindowState { video_resumes_on_restore: resume, ..u.w.state.value },
            );
            lemma_restart_restores(followed, file);
            lemma_extends_self(before.out);
            lemma_extends_push(before.out, before.out, Action::PlayVideo);
            lemma_extends_trans(before.out, followed.out, after.out);
            if added(followed.out, after.out).contains(urgent_decode(file)) {
                lemma_added_since(before.out, followed.out, after.out, urgent_decode(file));
            }
            if added(followed.out, after.out).contains(urgent_upload(file)) {
                lemma_added_since(before.out, followed.out, after.out, urgent_upload(file));
            }
        },
        WindowMessage::Focused(on) => {
            let u = t.with_state(
                WindowState {
                    focused: on,
                    zoom_slider_open: on && t.w.state.value.zoom_slider_open,
                    ..t.w.state.value
                },
            );
            let done = decay_restarted(u);
            lemma_restart_restores(u, file);
            lemma_extends_self(done.out);
            lemma_extends_push(done.out, done.out, Action::CheckMinimize);
            lemma_extends_trans(before.out, done.out, after.out);
            if added(before.out, done.out).contains(urgent_decode(file)) {
                lemma_added_stays(before.out, done.out, after.out, urgent_decode(file));
            }
            if added(before.out, done.out).contains(urgent_upload(file)) {
                lemma_added_stays(before.out, done.out, after.out, urgent_upload(file));
            }
        },
        _ => {
            lemma_restart_restores(t, file);
        },
    }
}

/// An animation that is on display with its frames at hand is held again when
/// its display is put back, and plays: on where it was, or from its first frame.
pub proof fn law_restored_display_holds_its_animation(
    t: St,
    window: u64,
    focused: bool,
    file: FileId,
)
    requires
        t.v.displayed is Animated,
        t.v.displayed_path == Some(file),
        t.s.anims.frames.contains_key(file),
        t.s.anims.frames[file].delays@.len() > 0,
    ensures
        ({
            let after = restored(t, window, focused);
            &&& want_of(after.v.anim.cache, file) == Some(Tier::InRam)
            &&& after.s.anims.frames.contains_key(file)
            &&& after.s.anims.claims.contains(Claim { window, file, want: Tier::InRam })
            &&& after.v.anim.active is Some
            &&& after.v.anim.active->0.file == file
            &&& t.v.anim.active is Some && t.v.anim.active->0.file == file
                ==> after.v.anim.active == t.v.anim.active
        }),
{
    let reopened = match t.v.video.suspended {
        Some(session) => St {
            v: ViewerModel {
                video: VideoState { session: Some(session), suspended: None, ..t.v.video },
                ..t.v
            },
            ..t
        }.act(Action::ResumeVideo),
        None => t,
    };
    let leased = shared_anim_started(reopened, window, file);
    assert(restored(t, window, focused) == if focused {
        prefetch_fired(leased, window)
    } else {
        leased
    }) by {
        reveal(restored);
    }
    lemma_prefetch_leases(leased, window);
    reveal(shared_anim_started);
    lemma_leased(t.v.anim.cache, file, Tier::InRam, file);
    lemma_leased(t.v.anim.removed(file).cache, file, Tier::InRam, file);
    let anims = if t.v.anim.has_cached(t.s.anims, file) || want_of(t.v.anim.cache, file) is None {
        t.s.anims
    } else {
        t.s.anims.released(window, file)
    };
    let claims = anims.claim(window, file, Tier::InRam).claims;
    let mine = Claim { window, file, want: Tier::InRam };
    assert(claims.last() == mine);
    assert(claims[claims.len() - 1] == mine);
    lemma_demand_covers(claims, claims.len() - 1);
}

} // verus!
