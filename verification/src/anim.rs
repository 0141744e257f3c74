//! Animated image playback: which frame is on screen, and what the canvas and
//! its texture need next. The decoded frames belong to the shared store and
//! are read through this window's lease on every step, so playback falls back
//! to the thumbnail only once every window has released them.
use crate::actions::Action;
use crate::files::FileId;
use crate::leases::{
    files_of, holds, leased, leases_within, leases_without, want_of, Lease, Leases,
};
use crate::store::{AnimFrames, AnimStore, AnimStoreModel, Texture, Tier};
use crate::time::Duration;
use vstd::prelude::*;

verus! {

/// What drives an [`AnimPlayer`].
#[derive(Clone, Copy, PartialEq, Eq, Structural, Debug)]
pub enum AnimMessage {
    /// A composited frame finished uploading, or could not.
    FrameAllocated(FileId, Option<Texture>),
    /// Time for the next frame.
    Tick,
}

/// Playback of the animation on screen.
#[derive(Clone, Copy, PartialEq, Eq, Structural, Debug)]
pub struct ActiveAnim {
    pub file: FileId,
    pub canvas_width: u32,
    pub canvas_height: u32,
    pub frame_index: usize,
    /// The current frame's texture, once the first upload landed.
    pub frame_texture: Option<Texture>,
    /// Whether the one retry of a failed first upload has been used.
    pub upload_retry_spent: bool,
}

/// This window's leases on animations, and its playback.
pub struct AnimPlayer {
    pub cache: Leases,
    pub active: Option<ActiveAnim>,
}

/// What an [`AnimPlayer`] holds.
pub struct AnimModel {
    pub cache: Seq<Lease>,
    pub active: Option<ActiveAnim>,
}

/// What one message does: the player afterwards, the work it asks for, and
/// the dimensions of a frame that became ready.
pub struct AnimStep {
    pub player: AnimModel,
    pub acts: Seq<Action>,
    pub ready: Option<(u32, u32)>,
}

/// The store once `window` let go of each of `files` in turn.
pub open spec fn anims_released(
    store: AnimStoreModel,
    window: u64,
    files: Seq<FileId>,
) -> AnimStoreModel
    decreases files.len(),
{
    if files.len() == 0 {
        store
    } else {
        anims_released(store, window, files.drop_last()).released(window, files.last())
    }
}

impl AnimModel {
    /// Whether the frames of `file` can be shown without a decode.
    pub open spec fn has_cached(self, store: AnimStoreModel, file: FileId) -> bool {
        holds(self.cache, file) && store.resident(file)
    }

    /// Whether the frames behind the active animation are resident.
    pub open spec fn playable(self, store: AnimStoreModel) -> bool {
        self.active is Some && self.has_cached(store, self.active->0.file)
    }

    pub open spec fn frames(self, store: AnimStoreModel) -> AnimFrames {
        store.frames[self.active->0.file]
    }

    pub open spec fn is_active_on(self, file: FileId) -> bool {
        self.active is Some && self.active->0.file == file
    }

    pub open spec fn unchanged(self) -> AnimStep {
        AnimStep { player: self, acts: Seq::empty(), ready: None }
    }

    pub open spec fn playing(self, active: ActiveAnim) -> AnimModel {
        AnimModel { active: Some(active), ..self }
    }

    /// A frame landed, or its upload failed.
    pub open spec fn allocated(
        self,
        file: FileId,
        texture: Option<Texture>,
        current: FileId,
        store: AnimStoreModel,
    ) -> AnimStep {
        if current != file || !self.playable(store) {
            self.unchanged()
        } else {
            let a = self.active->0;
            match texture {
                Some(t) => AnimStep {
                    player: self.playing(
                        ActiveAnim { frame_texture: Some(t), upload_retry_spent: false, ..a },
                    ),
                    acts: Seq::empty(),
                    ready: Some((self.frames(store).width, self.frames(store).height)),
                },
                None => if a.frame_texture is Some || a.upload_retry_spent {
                    self.unchanged()
                } else {
                    AnimStep {
                        player: self.playing(ActiveAnim { upload_retry_spent: true, ..a }),
                        acts: seq![Action::FrameUpload { file }],
                        ready: None,
                    }
                },
            }
        }
    }

    /// Advance by one frame, wrapping at the end. A canvas of another size
    /// than the frames starts over from frame zero.
    pub open spec fn ticked(self, current: FileId, store: AnimStoreModel) -> AnimStep {
        let f = self.frames(store);
        let count = f.delays@.len() as int;
        if !self.playable(store) || count <= 1 {
            self.unchanged()
        } else {
            let a = self.active->0;
            let resized = a.canvas_width != f.width || a.canvas_height != f.height;
            let from: int = if resized || a.frame_index >= count {
                0
            } else {
                a.frame_index as int
            };
            let to = (from + 1) % count;
            let restart: Seq<Action> = if resized {
                seq![
                    Action::CanvasReset { width: f.width, height: f.height },
                    Action::CanvasComposite { file: a.file, frame: 0 },
                ]
            } else {
                Seq::empty()
            };
            let send = match a.frame_texture {
                Some(t) if t.width == f.width && t.height == f.height => Action::FrameWrite {
                    file: current,
                    into: t,
                },
                _ => Action::FrameUpload { file: current },
            };
            AnimStep {
                player: self.playing(
                    ActiveAnim {
                        frame_index: to as usize,
                        canvas_width: f.width,
                        canvas_height: f.height,
                        ..a
                    },
                ),
                acts: restart + seq![
                    Action::CanvasDispose { file: a.file, frame: from as usize },
                    Action::CanvasComposite { file: a.file, frame: to as usize },
                    send,
                ],
                ready: None,
            }
        }
    }

    pub open spec fn updated(
        self,
        msg: AnimMessage,
        current: FileId,
        store: AnimStoreModel,
    ) -> AnimStep {
        match msg {
            AnimMessage::FrameAllocated(file, texture) => self.allocated(
                file,
                texture,
                current,
                store,
            ),
            AnimMessage::Tick => self.ticked(current, store),
        }
    }

    /// Playback begun from frame zero, unless there are no frames.
    pub open spec fn started(self, file: FileId, store: AnimStoreModel) -> AnimStep {
        let f = store.frames[file];
        if f.delays@.len() == 0 {
            self.unchanged()
        } else {
            AnimStep {
                player: self.playing(
                    ActiveAnim {
                        file,
                        canvas_width: f.width,
                        canvas_height: f.height,
                        frame_index: 0,
                        frame_texture: None,
                        upload_retry_spent: false,
                    },
                ),
                acts: seq![
                    Action::CanvasReset { width: f.width, height: f.height },
                    Action::CanvasComposite { file, frame: 0 },
                    Action::FrameUpload { file },
                ],
                ready: None,
            }
        }
    }

    /// [`Self::started`] when the frames are at hand.
    pub open spec fn try_started(self, file: FileId, store: AnimStoreModel) -> AnimStep {
        if self.has_cached(store, file) {
            self.started(file, store)
        } else {
            self.unchanged()
        }
    }

    pub open spec fn leasing(self, file: FileId) -> AnimModel {
        AnimModel { cache: leased(self.cache, file, Tier::InRam), ..self }
    }

    /// The lease on `file` held at `want`.
    pub open spec fn retargeted(self, file: FileId, want: Tier) -> AnimModel {
        AnimModel { cache: leased(self.cache, file, want), ..self }
    }

    pub open spec fn removed(self, file: FileId) -> AnimModel {
        AnimModel { cache: leases_without(self.cache, set![file]), ..self }
    }

    pub open spec fn pruned(self, keep: Set<FileId>) -> AnimModel {
        AnimModel { cache: leases_within(self.cache, keep), ..self }
    }

    pub open spec fn stopped(self) -> AnimModel {
        AnimModel { active: None, ..self }
    }
}

impl View for AnimPlayer {
    type V = AnimModel;

    open spec fn view(&self) -> AnimModel {
        AnimModel { cache: self.cache@, active: self.active }
    }
}

impl AnimPlayer {
    pub fn new() -> (player: AnimPlayer)
        ensures
            player@ == (AnimModel { cache: Seq::empty(), active: None }),
    {
        AnimPlayer { cache: Leases::new(), active: None }
    }

    /// Hold a lease on `file`'s decoded frames.
    pub fn insert(&mut self, file: FileId)
        ensures
            final(self)@ == old(self)@.leasing(file),
    {
        self.cache.insert(file, Tier::InRam);
    }

    /// Hold the lease on `file` at `want`.
    pub fn retarget(&mut self, file: FileId, want: Tier)
        ensures
            final(self)@ == old(self)@.retargeted(file, want),
    {
        self.cache.insert(file, want);
    }

    /// Handle a message. One that is stale against `current` does nothing.
    /// Returns the dimensions of a frame that became ready to show.
    pub fn update(
        &mut self,
        msg: AnimMessage,
        current: FileId,
        store: &AnimStore,
        out: &mut Vec<Action>,
    ) -> (ready: Option<(u32, u32)>)
        ensures
            final(self)@ == old(self)@.updated(msg, current, store@).player,
            final(out)@ == old(out)@ + old(self)@.updated(msg, current, store@).acts,
            ready == old(self)@.updated(msg, current, store@).ready,
    {
        proof {
            assert(out@ + Seq::<Action>::empty() =~= out@);
        }
        let frames = match self.active_frames(store) {
            Some(frames) => frames,
            None => {
                return None;
            },
        };
        let mut active = match self.active {
            Some(active) => active,
            None => {
                return None;
            },
        };
        match msg {
            AnimMessage::FrameAllocated(file, texture) => {
                if current != file {
                    return None;
                }
                match texture {
                    Some(t) => {
                        active.frame_texture = Some(t);
                        active.upload_retry_spent = false;
                        self.active = Some(active);
                        Some((frames.width, frames.height))
                    },
                    None => {
                        if active.frame_texture.is_some() || active.upload_retry_spent {
                            return None;
                        }
                        active.upload_retry_spent = true;
                        self.active = Some(active);
                        out.push(Action::FrameUpload { file });
                        proof {
                            assert(out@ =~= old(out)@ + seq![Action::FrameUpload { file }]);
                        }
                        None
                    },
                }
            },
            AnimMessage::Tick => {
                let count: usize = frames.delays.len();
                if count <= 1 {
                    return None;
                }
                if active.frame_index >= count {
                    active.frame_index = 0;
                }
                if active.canvas_width != frames.width || active.canvas_height != frames.height {
                    active.canvas_width = frames.width;
                    active.canvas_height = frames.height;
                    active.frame_index = 0;
                    out.push(Action::CanvasReset { width: frames.width, height: frames.height });
                    out.push(Action::CanvasComposite { file: active.file, frame: 0 });
                }
                out.push(Action::CanvasDispose { file: active.file, frame: active.frame_index });
                proof {
                    let from = active.frame_index as int;
                    let n = count as int;
                    if from + 1 < n {
                        assert((from + 1) % n == from + 1) by (nonlinear_arith)
                            requires
                                0 <= from + 1 < n,
                        ;
                    } else {
                        assert(n % n == 0) by (nonlinear_arith)
                            requires
                                n > 0,
                        ;
                    }
                }
                active.frame_index = if active.frame_index + 1 < count {
                    active.frame_index + 1
                } else {
                    0
                };
                out.push(Action::CanvasComposite { file: active.file, frame: active.frame_index });
                let existing: Option<(u32, u32)> = match active.frame_texture {
                    Some(t) => Some((t.width, t.height)),
                    None => None,
                };
                match active.frame_texture {
                    Some(into) if should_reuse(existing, (frames.width, frames.height)) => {
                        out.push(Action::FrameWrite { file: current, into });
                    },
                    _ => {
                        out.push(Action::FrameUpload { file: current });
                    },
                }
                self.active = Some(active);
                proof {
                    assert(out@ =~= old(out)@ + old(self)@.ticked(current, store@).acts);
                }
                None
            },
        }
    }

    /// The frames behind the active animation, if they are resident.
    pub fn active_frames<'a>(&self, store: &'a AnimStore) -> (frames: Option<&'a AnimFrames>)
        ensures
            match frames {
                Some(f) => self@.playable(store@) && *f == self@.frames(store@),
                None => !self@.playable(store@),
            },
    {
        match self.active {
            Some(active) => if self.cache.holds(active.file) {
                store.frames(active.file)
            } else {
                None
            },
            None => None,
        }
    }

    /// This window's lease on `file`, if it holds one.
    pub fn lease(&self, file: FileId) -> (lease: Option<Lease>)
        ensures
            lease == match want_of(self@.cache, file) {
                Some(want) => Some(Lease { file, want }),
                None => None,
            },
    {
        match self.cache.want_of(file) {
            Some(want) => Some(Lease { file, want }),
            None => None,
        }
    }

    /// Whether playback is on `file`, running or dormant.
    pub fn is_active_on(&self, file: FileId) -> (yes: bool)
        ensures
            yes == self@.is_active_on(file),
    {
        match self.active {
            Some(active) => active.file == file,
            None => false,
        }
    }

    /// Begin playback if the frames of `file` are at hand. `false` means they
    /// have to be leased or decoded first.
    pub fn try_start_from_cache(
        &mut self,
        file: FileId,
        store: &AnimStore,
        out: &mut Vec<Action>,
    ) -> (started: bool)
        ensures
            started == old(self)@.has_cached(store@, file),
            final(self)@ == old(self)@.try_started(file, store@).player,
            final(out)@ == old(out)@ + old(self)@.try_started(file, store@).acts,
    {
        proof {
            assert(out@ + Seq::<Action>::empty() =~= out@);
        }
        if !self.cache.holds(file) {
            return false;
        }
        match store.frames(file) {
            Some(frames) => {
                self.start_display(frames, file, out);
                true
            },
            None => false,
        }
    }

    /// Put frame zero on the canvas and upload it.
    fn start_display(&mut self, frames: &AnimFrames, file: FileId, out: &mut Vec<Action>)
        ensures
            forall|store: AnimStoreModel|
                #![trigger old(self)@.started(file, store)]
                store.frames[file] == *frames ==> final(self)@ == old(self)@.started(
                    file,
                    store,
                ).player && final(out)@ == old(out)@ + old(self)@.started(file, store).acts,
    {
        proof {
            assert(out@ + Seq::<Action>::empty() =~= out@);
        }
        if frames.delays.len() == 0 {
            return ;
        }
        self.active = Some(
            ActiveAnim {
                file,
                canvas_width: frames.width,
                canvas_height: frames.height,
                frame_index: 0,
                frame_texture: None,
                upload_retry_spent: false,
            },
        );
        out.push(Action::CanvasReset { width: frames.width, height: frames.height });
        out.push(Action::CanvasComposite { file, frame: 0 });
        out.push(Action::FrameUpload { file });
        proof {
            assert(out@ =~= old(out)@ + seq![
                Action::CanvasReset { width: frames.width, height: frames.height },
                Action::CanvasComposite { file, frame: 0 },
                Action::FrameUpload { file },
            ]);
        }
    }

    /// Whether the frames of `file` can be shown without a decode.
    pub fn has_cached(&self, file: FileId, store: &AnimStore) -> (yes: bool)
        ensures
            yes == self@.has_cached(store@, file),
    {
        self.cache.holds(file) && store.resident(file)
    }

    /// Stop playback. The leases stay for an instant restart.
    pub fn stop(&mut self)
        ensures
            final(self)@ == old(self)@.stopped(),
    {
        self.active = None;
    }

    /// The current frame's texture, while the frames are resident.
    pub fn current_texture(&self, store: &AnimStore) -> (texture: Option<Texture>)
        ensures
            texture == if self@.playable(store@) {
                self@.active->0.frame_texture
            } else {
                None
            },
    {
        if self.active_frames(store).is_none() {
            return None;
        }
        match self.active {
            Some(active) => active.frame_texture,
            None => None,
        }
    }

    /// The dimensions of the composited canvas, while the frames are resident.
    pub fn current_handle(&self, store: &AnimStore) -> (canvas: Option<(u32, u32)>)
        ensures
            canvas == if self@.playable(store@) {
                Some((self@.active->0.canvas_width, self@.active->0.canvas_height))
            } else {
                None
            },
    {
        if self.active_frames(store).is_none() {
            return None;
        }
        match self.active {
            Some(active) => Some((active.canvas_width, active.canvas_height)),
            None => None,
        }
    }

    /// Whether a multi-frame animation is resident and on screen.
    pub fn is_animating(&self, store: &AnimStore) -> (yes: bool)
        ensures
            yes == (self@.playable(store@) && self@.frames(store@).delays@.len() > 1
                && self@.active->0.frame_texture is Some),
    {
        match (self.active_frames(store), self.active) {
            (Some(frames), Some(active)) => frames.delays.len() > 1
                && active.frame_texture.is_some(),
            _ => false,
        }
    }

    /// How long the current frame stays up. An index past the end of a shorter
    /// decode reads frame zero, the way the next tick will.
    pub fn current_delay(&self, store: &AnimStore) -> (delay: Option<Duration>)
        ensures
            delay == if self@.playable(store@) && self@.frames(store@).delays@.len() > 1 {
                let delays = self@.frames(store@).delays@;
                let i = self@.active->0.frame_index as int;
                Some(
                    if i < delays.len() {
                        delays[i]
                    } else {
                        delays[0]
                    },
                )
            } else {
                None
            },
    {
        match (self.active_frames(store), self.active) {
            (Some(frames), Some(active)) => {
                if frames.delays.len() <= 1 {
                    return None;
                }
                if active.frame_index < frames.delays.len() {
                    Some(frames.delays[active.frame_index])
                } else {
                    Some(frames.delays[0])
                }
            },
            _ => None,
        }
    }

    /// Let go of the animations outside `keep`.
    pub fn prune_cache(&mut self, keep: &Vec<FileId>, window: u64, store: &mut AnimStore)
        ensures
            final(self)@ == old(self)@.pruned(keep@.to_set()),
            final(store)@ == anims_released(
                old(store)@,
                window,
                files_of(leases_without(old(self)@.cache, keep@.to_set())),
            ),
    {
        let gone = self.cache.retain(keep);
        release_anims(&gone, window, store);
    }

    /// Let go of `file`, if it is held.
    pub fn remove(&mut self, file: FileId, window: u64, store: &mut AnimStore)
        ensures
            final(self)@ == old(self)@.removed(file),
            final(store)@ == if holds(old(self)@.cache, file) {
                old(store)@.released(window, file)
            } else {
                old(store)@
            },
    {
        if self.cache.holds(file) {
            store.release(window, file);
        }
        self.cache.remove(file);
    }
}

/// `window` lets go of each of `files`.
pub fn release_anims(files: &Vec<FileId>, window: u64, store: &mut AnimStore)
    ensures
        final(store)@ == anims_released(old(store)@, window, files@),
{
    let mut i: usize = 0;
    while i < files.len()
        invariant
            i <= files@.len(),
            store@ == anims_released(old(store)@, window, files@.take(i as int)),
        decreases files@.len() - i,
    {
        store.release(window, files[i]);
        i = i + 1;
        assert(files@.take(i as int).drop_last() =~= files@.take(i - 1));
    }
    assert(files@.take(i as int) =~= files@);
}

/// Whether the next frame can be written into the existing texture: there is
/// one, and it has the animation's dimensions.
pub fn should_reuse(existing_size: Option<(u32, u32)>, dims: (u32, u32)) -> (reuse: bool)
    ensures
        reuse == (existing_size == Some(dims)),
{
    match existing_size {
        Some((w, h)) => w == dims.0 && h == dims.1,
        None => false,
    }
}

/// The player after `n` ticks of an animation that stays resident.
pub open spec fn after_ticks(
    player: AnimModel,
    current: FileId,
    store: AnimStoreModel,
    n: nat,
) -> AnimModel
    decreases n,
{
    if n == 0 {
        player
    } else {
        after_ticks(player, current, store, (n - 1) as nat).ticked(current, store).player
    }
}

/// A running animation is on frame `index + n` (modulo the frame count) after
/// `n` ticks, so a whole turn comes back to where it started.
pub proof fn law_playback_cycles(
    player: AnimModel,
    current: FileId,
    store: AnimStoreModel,
    n: nat,
)
    requires
        player.playable(store),
        player.frames(store).delays@.len() > 1,
        player.frames(store).delays@.len() <= usize::MAX,
        player.active->0.frame_index < player.frames(store).delays@.len(),
        player.active->0.canvas_width == player.frames(store).width,
        player.active->0.canvas_height == player.frames(store).height,
    ensures
        ({
            let count = player.frames(store).delays@.len() as int;
            let then = after_ticks(player, current, store, n);
            &&& then.active is Some
            &&& then.cache == player.cache
            &&& then.active->0.frame_index == (player.active->0.frame_index + n) % count
            &&& then == player.playing(
                ActiveAnim { frame_index: then.active->0.frame_index, ..player.active->0 },
            )
        }),
        n == player.frames(store).delays@.len() ==> after_ticks(player, current, store, n)
            == player,
    decreases n,
{
    let count = player.frames(store).delays@.len() as int;
    let start = player.active->0.frame_index as int;
    if n == 0 {
        assert(start % count == start) by (nonlinear_arith)
            requires
                0 <= start < count,
        ;
    } else {
        law_playback_cycles(player, current, store, (n - 1) as nat);
        let i = (start + (n - 1)) % count;
        assert((i + 1) % count == (start + n) % count && 0 <= i < count && 0 <= (i + 1) % count
            < count) by {
            vstd::arithmetic::div_mod::lemma_add_mod_noop(start + n - 1, 1, count);
            vstd::arithmetic::div_mod::lemma_add_mod_noop(i, 1, count);
            vstd::arithmetic::div_mod::lemma_mod_bound(start + n - 1, count);
            vstd::arithmetic::div_mod::lemma_mod_bound(i + 1, count);
            vstd::arithmetic::div_mod::lemma_mod_twice(start + n - 1, count);
        }
        if n == count {
            assert((start + count) % count == start) by {
                vstd::arithmetic::div_mod::lemma_mod_add_multiples_vanish(start, count);
                vstd::arithmetic::div_mod::lemma_small_mod(start as nat, count as nat);
            }
        }
    }
}

/// A failed first upload is retried once, and only once.
pub proof fn law_first_upload_retries_once(
    player: AnimModel,
    file: FileId,
    store: AnimStoreModel,
)
    requires
        player.playable(store),
        player.active->0.file == file,
        player.active->0.frame_texture is None,
        !player.active->0.upload_retry_spent,
    ensures
        ({
            let once = player.allocated(file, None, file, store);
            let twice = once.player.allocated(file, None, file, store);
            &&& once.acts == seq![Action::FrameUpload { file }]
            &&& twice == once.player.unchanged()
        }),
{
}

} // verus!
