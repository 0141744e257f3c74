//! Who wants which image, and what of it is resident.
//!
//! Windows claim images at a tier. The store keeps one copy of each, at the
//! highest tier any window claims, and frees it once nobody wants it higher.
use crate::files::FileId;
use crate::time::Duration;
use std::collections::HashMap;
use vstd::prelude::*;

verus! {

/// How much of an image is held, least first.
#[derive(Clone, Copy, PartialEq, Eq, Structural, Debug)]
pub enum Tier {
    /// Nothing.
    Evicted,
    /// The decoded pixels, in memory.
    InRam,
    /// And a texture at the displayed resolution.
    View,
    /// And a texture at full resolution.
    Full,
}

impl Tier {
    pub open spec fn rank_spec(self) -> int {
        match self {
            Tier::Evicted => 0,
            Tier::InRam => 1,
            Tier::View => 2,
            Tier::Full => 3,
        }
    }

    pub open spec fn max_spec(self, other: Tier) -> Tier {
        if self.rank_spec() >= other.rank_spec() {
            self
        } else {
            other
        }
    }

    pub fn rank(self) -> (r: u8)
        ensures
            r == self.rank_spec(),
    {
        match self {
            Tier::Evicted => 0,
            Tier::InRam => 1,
            Tier::View => 2,
            Tier::Full => 3,
        }
    }

    /// The higher of two tiers.
    pub fn max(self, other: Tier) -> (tier: Tier)
        ensures
            tier == self.max_spec(other),
    {
        if self.rank() >= other.rank() {
            self
        } else {
            other
        }
    }
}

/// A texture on the graphics device, by the number it was registered under.
#[derive(Clone, Copy, PartialEq, Eq, Structural, Debug)]
pub struct Texture {
    pub id: u64,
    pub width: u32,
    pub height: u32,
    /// Whether it is a tile pyramid rather than one plain texture.
    pub tiled: bool,
}

/// A decoded still in memory. The pixels are kept by the surrounding program.
#[derive(Clone, Copy, PartialEq, Eq, Structural, Debug)]
pub struct RamImage {
    pub width: u32,
    pub height: u32,
    /// How long the decode took, when it was measured.
    pub decode_time: Option<Duration>,
}

/// A texture the store holds, and the tier it was made for.
#[derive(Clone, Copy, PartialEq, Eq, Structural, Debug)]
pub struct Minted {
    pub tier: Tier,
    pub texture: Texture,
}

/// Background work the store asks for.
#[derive(Clone, Copy, PartialEq, Eq, Structural, Debug)]
pub enum Job {
    /// Read and decode the file.
    Decode { file: FileId },
    /// Make a texture for `tier` from the decoded pixels.
    Upload { file: FileId, tier: Tier },
}

/// What the store holds of one image.
#[derive(Clone, Copy, PartialEq, Eq, Structural, Debug)]
pub struct Entry {
    pub ram: Option<RamImage>,
    pub minted: Option<Minted>,
    /// Whether a job for it is under way.
    pub pending: bool,
}

/// One window's claim on one image.
#[derive(Clone, Copy, PartialEq, Eq, Structural, Debug)]
pub struct Claim {
    pub window: u64,
    pub file: FileId,
    pub want: Tier,
}

/// The claims of all windows on all images.
pub struct Claims {
    pub list: Vec<Claim>,
}

/// The claims other than `window`'s on `file`.
pub open spec fn others(claims: Seq<Claim>, window: u64, file: FileId) -> Seq<Claim> {
    claims.filter(|c: Claim| !(c.window == window && c.file == file))
}

/// The claims once `window` claims `file` at `want`.
pub open spec fn claimed(claims: Seq<Claim>, window: u64, file: FileId, want: Tier) -> Seq<Claim> {
    others(claims, window, file).push(Claim { window, file, want })
}

/// The highest tier any window claims `file` at.
pub open spec fn demand(claims: Seq<Claim>, file: FileId) -> Tier
    decreases claims.len(),
{
    if claims.len() == 0 {
        Tier::Evicted
    } else if claims.last().file == file {
        demand(claims.drop_last(), file).max_spec(claims.last().want)
    } else {
        demand(claims.drop_last(), file)
    }
}

impl View for Claims {
    type V = Seq<Claim>;

    open spec fn view(&self) -> Seq<Claim> {
        self.list@
    }
}

impl Claims {
    pub fn new() -> (claims: Claims)
        ensures
            claims@ == Seq::<Claim>::empty(),
    {
        Claims { list: Vec::new() }
    }

    pub fn demand(&self, file: FileId) -> (tier: Tier)
        ensures
            tier == demand(self@, file),
    {
        let mut tier = Tier::Evicted;
        let mut i: usize = 0;
        while i < self.list.len()
            invariant
                i <= self.list@.len(),
                tier == demand(self.list@.take(i as int), file),
            decreases self.list@.len() - i,
        {
            let claim = self.list[i];
            proof {
                assert(self.list@.take(i + 1).drop_last() =~= self.list@.take(i as int));
            }
            if claim.file == file {
                tier = tier.max(claim.want);
            }
            i = i + 1;
        }
        assert(self.list@.take(i as int) =~= self.list@);
        tier
    }

    /// Forget `window`'s claim on `file`.
    pub fn release(&mut self, window: u64, file: FileId)
        ensures
            final(self)@ == others(old(self)@, window, file),
    {
        let mut kept: Vec<Claim> = Vec::new();
        let mut i: usize = 0;
        let ghost keep = |c: Claim| !(c.window == window && c.file == file);
        while i < self.list.len()
            invariant
                i <= self.list@.len(),
                kept@ == self.list@.take(i as int).filter(keep),
                keep == (|c: Claim| !(c.window == window && c.file == file)),
            decreases self.list@.len() - i,
        {
            let claim = self.list[i];
            proof {
                reveal(Seq::filter);
                assert(self.list@.take(i + 1).drop_last() =~= self.list@.take(i as int));
                assert(self.list@.take(i + 1).last() == claim);
            }
            if !(claim.window == window && claim.file == file) {
                kept.push(claim);
            }
            i = i + 1;
        }
        assert(self.list@.take(i as int) =~= self.list@);
        self.list = kept;
    }

    /// Set `window`'s claim on `file` to `want`.
    pub fn claim(&mut self, window: u64, file: FileId, want: Tier)
        ensures
            final(self)@ == claimed(old(self)@, window, file, want),
    {
        self.release(window, file);
        self.list.push(Claim { window, file, want });
    }

    /// Forget every claim on `file`.
    pub fn forget(&mut self, file: FileId)
        ensures
            final(self)@ == old(self)@.filter(|c: Claim| c.file != file),
    {
        let mut kept: Vec<Claim> = Vec::new();
        let mut i: usize = 0;
        let ghost keep = |c: Claim| c.file != file;
        while i < self.list.len()
            invariant
                i <= self.list@.len(),
                kept@ == self.list@.take(i as int).filter(keep),
                keep == (|c: Claim| c.file != file),
            decreases self.list@.len() - i,
        {
            let claim = self.list[i];
            proof {
                reveal(Seq::filter);
                assert(self.list@.take(i + 1).drop_last() =~= self.list@.take(i as int));
                assert(self.list@.take(i + 1).last() == claim);
            }
            if claim.file != file {
                kept.push(claim);
            }
            i = i + 1;
        }
        assert(self.list@.take(i as int) =~= self.list@);
        self.list = kept;
    }
}

/// Still images: decoded pixels and textures, shared by every window.
pub struct Store {
    pub claims: Claims,
    pub entries: HashMap<FileId, Entry>,
    /// Images whose demand fell when a window let go of them.
    pub dirty: Vec<FileId>,
}

/// What a [`Store`] holds.
pub struct StoreModel {
    pub claims: Seq<Claim>,
    pub entries: Map<FileId, Entry>,
    pub dirty: Seq<FileId>,
}

impl StoreModel {
    pub open spec fn entry(self, file: FileId) -> Entry {
        if self.entries.contains_key(file) {
            self.entries[file]
        } else {
            Entry { ram: None, minted: None, pending: false }
        }
    }

    pub open spec fn demand(self, file: FileId) -> Tier {
        demand(self.claims, file)
    }

    pub open spec fn ram(self, file: FileId) -> Option<RamImage> {
        self.entry(file).ram
    }

    pub open spec fn texture(self, file: FileId) -> Option<Texture> {
        match self.entry(file).minted {
            Some(m) => Some(m.texture),
            None => None,
        }
    }

    pub open spec fn decode_time(self, file: FileId) -> Option<Duration> {
        match self.ram(file) {
            Some(ram) => ram.decode_time,
            None => None,
        }
    }

    pub open spec fn claim(self, window: u64, file: FileId, want: Tier) -> StoreModel {
        StoreModel { claims: claimed(self.claims, window, file, want), ..self }
    }

    pub open spec fn with_entry(self, file: FileId, entry: Entry) -> StoreModel {
        StoreModel { entries: self.entries.insert(file, entry), ..self }
    }

    /// What the demand on `file` leaves of it: nothing without demand, no
    /// texture while only the pixels are wanted.
    pub open spec fn trimmed(self, file: FileId) -> Entry {
        let e = self.entry(file);
        if self.demand(file) is Evicted {
            Entry { ram: None, minted: None, pending: e.pending }
        } else if self.demand(file) is InRam {
            Entry { minted: None, ..e }
        } else {
            e
        }
    }

    /// The job that brings `file` up to its demand, if one is missing and none
    /// is under way: a decode without pixels, an upload without a texture of
    /// the demanded tier.
    pub open spec fn missing_job(self, file: FileId) -> Option<Job> {
        let e = self.trimmed(file);
        let want = self.demand(file);
        if e.pending || want is Evicted {
            None
        } else if e.ram is None {
            Some(Job::Decode { file })
        } else if want is InRam || (e.minted is Some && e.minted->0.tier == want) {
            None
        } else {
            Some(Job::Upload { file, tier: want })
        }
    }

    /// `file` fitted to its demand: what is no longer wanted is freed, and the
    /// job it misses is marked as under way.
    pub open spec fn settled(self, file: FileId) -> StoreModel {
        self.with_entry(
            file,
            Entry {
                pending: self.trimmed(file).pending || self.missing_job(file) is Some,
                ..self.trimmed(file)
            },
        )
    }

    pub open spec fn decoded(self, file: FileId, ram: RamImage) -> StoreModel {
        self.with_entry(file, Entry { ram: Some(ram), pending: false, ..self.entry(file) })
    }

    pub open spec fn minted(self, file: FileId, minted: Minted) -> StoreModel {
        self.with_entry(file, Entry { minted: Some(minted), pending: false, ..self.entry(file) })
    }

    pub open spec fn idle(self, file: FileId) -> StoreModel {
        self.with_entry(file, Entry { pending: false, ..self.entry(file) })
    }

    /// Everything about `file` forgotten, claims included.
    pub open spec fn abandoned(self, file: FileId) -> StoreModel {
        StoreModel {
            claims: self.claims.filter(|c: Claim| c.file != file),
            entries: self.entries.remove(file),
            ..self
        }
    }

    pub open spec fn released(self, window: u64, file: FileId) -> StoreModel {
        StoreModel {
            claims: others(self.claims, window, file),
            dirty: self.dirty.push(file),
            ..self
        }
    }

    /// `window`'s claim on `from` moved to `to`, taking along what is held.
    pub open spec fn rekeyed(
        self,
        window: u64,
        from: FileId,
        to: FileId,
        want: Tier,
    ) -> StoreModel {
        let moved = StoreModel { entries: self.entries.insert(to, self.entry(from)), ..self };
        moved.released(window, from).claim(window, to, want)
    }

    /// The store after settling the first `n` dirty images, with the jobs that
    /// asks for.
    pub open spec fn pumped(self, n: nat) -> (StoreModel, Seq<Job>)
        decreases n,
    {
        if n == 0 {
            (self, Seq::empty())
        } else {
            let (s, jobs) = self.pumped((n - 1) as nat);
            let file = self.dirty[n - 1];
            (
                s.settled(file),
                match s.missing_job(file) {
                    Some(job) => jobs.push(job),
                    None => jobs,
                },
            )
        }
    }
}

impl View for Store {
    type V = StoreModel;

    open spec fn view(&self) -> StoreModel {
        StoreModel { claims: self.claims@, entries: self.entries@, dirty: self.dirty@ }
    }
}

impl Store {
    pub fn new() -> (store: Store)
        ensures
            store@ == (StoreModel {
                claims: Seq::empty(),
                entries: Map::empty(),
                dirty: Seq::empty(),
            }),
    {
        Store { claims: Claims::new(), entries: HashMap::new(), dirty: Vec::new() }
    }

    /// What is held of `file`.
    pub fn entry(&self, file: FileId) -> (entry: Entry)
        ensures
            entry == self@.entry(file),
    {
        match self.entries.get(&file) {
            Some(entry) => *entry,
            None => Entry { ram: None, minted: None, pending: false },
        }
    }

    /// The decoded pixels of `file`, if they are resident.
    pub fn ram(&self, file: FileId) -> (ram: Option<RamImage>)
        ensures
            ram == self@.ram(file),
    {
        self.entry(file).ram
    }

    /// The resident texture of `file`, whichever window asked for it.
    pub fn texture(&self, file: FileId) -> (texture: Option<Texture>)
        ensures
            texture == self@.texture(file),
    {
        match self.entry(file).minted {
            Some(m) => Some(m.texture),
            None => None,
        }
    }

    pub fn decode_time(&self, file: FileId) -> (time: Option<Duration>)
        ensures
            time == self@.decode_time(file),
    {
        match self.entry(file).ram {
            Some(ram) => ram.decode_time,
            None => None,
        }
    }

    /// The tier `file` is held at.
    pub fn tier(&self, file: FileId) -> (tier: Tier)
        ensures
            tier == match (self@.entry(file).ram, self@.entry(file).minted) {
                (_, Some(m)) => m.tier,
                (Some(_), None) => Tier::InRam,
                (None, None) => Tier::Evicted,
            },
    {
        let e = self.entry(file);
        match e.minted {
            Some(m) => m.tier,
            None => match e.ram {
                Some(_) => Tier::InRam,
                None => Tier::Evicted,
            },
        }
    }

    /// Fit `file` to its demand and return the job that needs, if any.
    fn settle(&mut self, file: FileId) -> (job: Option<Job>)
        ensures
            final(self)@ == old(self)@.settled(file),
            job == old(self)@.missing_job(file),
    {
        let want = self.claims.demand(file);
        let mut e = self.entry(file);
        match want {
            Tier::Evicted => {
                e.ram = None;
                e.minted = None;
            },
            Tier::InRam => {
                e.minted = None;
            },
            Tier::View | Tier::Full => {},
        }
        let job: Option<Job> = if e.pending || want == Tier::Evicted {
            None
        } else {
            match (e.ram, e.minted) {
                (None, _) => Some(Job::Decode { file }),
                (Some(_), minted) => {
                    let fits: bool = match minted {
                        Some(m) => m.tier == want,
                        None => false,
                    };
                    if want == Tier::InRam || fits {
                        None
                    } else {
                        Some(Job::Upload { file, tier: want })
                    }
                },
            }
        };
        if job.is_some() {
            e.pending = true;
        }
        self.entries.insert(file, e);
        job
    }

    /// Claim `file` at `want` for `window`, replacing its earlier claim.
    pub fn request(&mut self, window: u64, file: FileId, want: Tier) -> (job: Option<Job>)
        ensures
            final(self)@ == old(self)@.claim(window, file, want).settled(file),
            job == old(self)@.claim(window, file, want).missing_job(file),
    {
        self.claims.claim(window, file, want);
        self.settle(file)
    }

    /// A decode finished.
    pub fn on_decoded(&mut self, file: FileId, ram: RamImage) -> (job: Option<Job>)
        ensures
            final(self)@ == old(self)@.decoded(file, ram).settled(file),
            job == old(self)@.decoded(file, ram).missing_job(file),
    {
        let mut e = self.entry(file);
        e.ram = Some(ram);
        e.pending = false;
        self.entries.insert(file, e);
        self.settle(file)
    }

    /// An upload finished.
    pub fn on_minted(&mut self, file: FileId, tier: Tier, texture: Texture) -> (job: Option<Job>)
        ensures
            final(self)@ == old(self)@.minted(file, Minted { tier, texture }).settled(file),
            job == old(self)@.minted(file, Minted { tier, texture }).missing_job(file),
    {
        let mut e = self.entry(file);
        e.minted = Some(Minted { tier, texture });
        e.pending = false;
        self.entries.insert(file, e);
        self.settle(file)
    }

    /// An upload failed. A later claim tries again.
    pub fn on_mint_failed(&mut self, file: FileId)
        ensures
            final(self)@ == old(self)@.idle(file),
    {
        let mut e = self.entry(file);
        e.pending = false;
        self.entries.insert(file, e);
    }

    /// A decode produced nothing. One that was only cancelled is fired again
    /// if the image is still wanted, any other forgets the image.
    pub fn on_decode_failed(&mut self, file: FileId, retry: bool) -> (job: Option<Job>)
        ensures
            retry ==> final(self)@ == old(self)@.idle(file).settled(file),
            retry ==> job == old(self)@.idle(file).missing_job(file),
            !retry ==> final(self)@ == old(self)@.abandoned(file) && job is None,
    {
        if retry {
            let mut e = self.entry(file);
            e.pending = false;
            self.entries.insert(file, e);
            self.settle(file)
        } else {
            self.abandon(file);
            None
        }
    }

    /// The image is not a still after all.
    pub fn abandon(&mut self, file: FileId)
        ensures
            final(self)@ == old(self)@.abandoned(file),
    {
        self.claims.forget(file);
        self.entries.remove(&file);
    }

    /// `window` lets go of `file`. What that frees is settled by [`Self::pump`].
    pub fn release(&mut self, window: u64, file: FileId)
        ensures
            final(self)@ == old(self)@.released(window, file),
    {
        self.claims.release(window, file);
        self.dirty.push(file);
    }

    /// The file `from` is now called `to`: `window` holds what it held under
    /// the new name.
    pub fn rekey(&mut self, window: u64, from: FileId, to: FileId, want: Tier)
        ensures
            final(self)@ == old(self)@.rekeyed(window, from, to, want),
    {
        let entry = self.entry(from);
        self.entries.insert(to, entry);
        self.release(window, from);
        self.claims.claim(window, to, want);
    }

    /// Settle every image whose demand fell, returning the jobs that needs.
    pub fn pump(&mut self) -> (jobs: Vec<Job>)
        ensures
            final(self)@ == (StoreModel {
                dirty: Seq::empty(),
                ..old(self)@.pumped(old(self)@.dirty.len()).0
            }),
            jobs@ == old(self)@.pumped(old(self)@.dirty.len()).1,
    {
        let mut jobs: Vec<Job> = Vec::new();
        let mut i: usize = 0;
        let ghost before = self@;
        while i < self.dirty.len()
            invariant
                i <= self.dirty@.len(),
                self.dirty@ == before.dirty,
                self@ == before.pumped(i as nat).0,
                jobs@ == before.pumped(i as nat).1,
            decreases before.dirty.len() - i,
        {
            let file = self.dirty[i];
            let job = self.settle(file);
            match job {
                Some(job) => jobs.push(job),
                None => {},
            }
            i = i + 1;
        }
        self.dirty = Vec::new();
        jobs
    }
}

/// A decoded animation in memory. The pixels are kept by the surrounding
/// program.
pub struct AnimFrames {
    pub width: u32,
    pub height: u32,
    /// How long each frame stays on screen.
    pub delays: Vec<Duration>,
    /// How long the decode took, when it was measured.
    pub decode_time: Option<Duration>,
}

/// Animations: decoded frames shared by every window.
pub struct AnimStore {
    pub claims: Claims,
    pub frames: HashMap<FileId, AnimFrames>,
    /// Animations some window let go of.
    pub dirty: Vec<FileId>,
}

/// What an [`AnimStore`] holds.
pub struct AnimStoreModel {
    pub claims: Seq<Claim>,
    pub frames: Map<FileId, AnimFrames>,
    pub dirty: Seq<FileId>,
}

impl AnimStoreModel {
    pub open spec fn resident(self, file: FileId) -> bool {
        self.frames.contains_key(file)
    }

    pub open spec fn decode_time(self, file: FileId) -> Option<Duration> {
        if self.resident(file) {
            self.frames[file].decode_time
        } else {
            None
        }
    }

    /// The frames of `file` are freed once nobody wants them.
    pub open spec fn settled(self, file: FileId) -> AnimStoreModel {
        if demand(self.claims, file) is Evicted {
            AnimStoreModel { frames: self.frames.remove(file), ..self }
        } else {
            self
        }
    }

    pub open spec fn claim(self, window: u64, file: FileId, want: Tier) -> AnimStoreModel {
        AnimStoreModel { claims: claimed(self.claims, window, file, want), ..self }
    }

    /// Fresh frames are kept if someone wants them and none are resident yet.
    pub open spec fn decoded(self, file: FileId, frames: AnimFrames) -> AnimStoreModel {
        if self.resident(file) || demand(self.claims, file) is Evicted {
            self
        } else {
            AnimStoreModel { frames: self.frames.insert(file, frames), ..self }
        }
    }

    pub open spec fn released(self, window: u64, file: FileId) -> AnimStoreModel {
        AnimStoreModel {
            claims: others(self.claims, window, file),
            dirty: self.dirty.push(file),
            ..self
        }
    }

    pub open spec fn pumped(self, n: nat) -> AnimStoreModel
        decreases n,
    {
        if n == 0 {
            self
        } else {
            self.pumped((n - 1) as nat).settled(self.dirty[n - 1])
        }
    }
}

impl View for AnimStore {
    type V = AnimStoreModel;

    open spec fn view(&self) -> AnimStoreModel {
        AnimStoreModel { claims: self.claims@, frames: self.frames@, dirty: self.dirty@ }
    }
}

impl AnimStore {
    pub fn new() -> (store: AnimStore)
        ensures
            store@ == (AnimStoreModel {
                claims: Seq::empty(),
                frames: Map::empty(),
                dirty: Seq::empty(),
            }),
    {
        AnimStore { claims: Claims::new(), frames: HashMap::new(), dirty: Vec::new() }
    }

    /// The frames of `file`, if they are resident.
    pub fn frames(&self, file: FileId) -> (frames: Option<&AnimFrames>)
        ensures
            match frames {
                Some(f) => self@.resident(file) && *f == self@.frames[file],
                None => !self@.resident(file),
            },
    {
        self.frames.get(&file)
    }

    pub fn resident(&self, file: FileId) -> (yes: bool)
        ensures
            yes == self@.resident(file),
    {
        self.frames.contains_key(&file)
    }

    pub fn decode_time(&self, file: FileId) -> (time: Option<Duration>)
        ensures
            time == self@.decode_time(file),
    {
        match self.frames.get(&file) {
            Some(f) => f.decode_time,
            None => None,
        }
    }

    fn settle(&mut self, file: FileId)
        ensures
            final(self)@ == old(self)@.settled(file),
    {
        if self.claims.demand(file) == Tier::Evicted {
            self.frames.remove(&file);
        }
    }

    /// Set `window`'s claim on `file` to `want`.
    pub fn request(&mut self, window: u64, file: FileId, want: Tier)
        ensures
            final(self)@ == old(self)@.claim(window, file, want).settled(file),
    {
        self.claims.claim(window, file, want);
        self.settle(file);
    }

    /// A decode finished. Frames that are already resident win.
    pub fn on_decoded(&mut self, file: FileId, frames: AnimFrames)
        ensures
            final(self)@ == old(self)@.decoded(file, frames),
    {
        if !self.frames.contains_key(&file) && self.claims.demand(file) != Tier::Evicted {
            self.frames.insert(file, frames);
        }
    }

    /// `window` lets go of `file`.
    pub fn release(&mut self, window: u64, file: FileId)
        ensures
            final(self)@ == old(self)@.released(window, file),
    {
        self.claims.release(window, file);
        self.dirty.push(file);
    }

    /// Free the frames nobody wants any more.
    pub fn pump(&mut self)
        ensures
            final(self)@ == (AnimStoreModel {
                dirty: Seq::empty(),
                ..old(self)@.pumped(old(self)@.dirty.len())
            }),
    {
        let mut i: usize = 0;
        let ghost before = self@;
        while i < self.dirty.len()
            invariant
                i <= self.dirty@.len(),
                self.dirty@ == before.dirty,
                self@ == before.pumped(i as nat),
            decreases before.dirty.len() - i,
        {
            let file = self.dirty[i];
            self.settle(file);
            i = i + 1;
        }
        self.dirty = Vec::new();
    }
}

/// A claim is part of the demand: no claim exceeds it.
pub proof fn lemma_demand_covers(claims: Seq<Claim>, i: int)
    requires
        0 <= i < claims.len(),
    ensures
        demand(claims, claims[i].file).rank_spec() >= claims[i].want.rank_spec(),
    decreases claims.len(),
{
    if i < claims.len() - 1 {
        lemma_demand_covers(claims.drop_last(), i);
    }
}

/// Whatever one window does with its claim on an image, the demand never falls
/// below what another window claims.
pub proof fn law_other_claims_hold(
    claims: Seq<Claim>,
    i: int,
    window: u64,
    want: Tier,
)
    requires
        0 <= i < claims.len(),
        claims[i].window != window,
    ensures
        demand(claimed(claims, window, claims[i].file, want), claims[i].file).rank_spec()
            >= claims[i].want.rank_spec(),
        demand(others(claims, window, claims[i].file), claims[i].file).rank_spec()
            >= claims[i].want.rank_spec(),
{
    let file = claims[i].file;
    let keep = |c: Claim| !(c.window == window && c.file == file);
    let rest = others(claims, window, file);
    claims.lemma_filter_contains(keep, i);
    let j = choose|j: int| 0 <= j < rest.len() && rest[j] == claims[i];
    lemma_demand_covers(rest, j);
    let all = claimed(claims, window, file, want);
    assert(all[j] == claims[i]);
    lemma_demand_covers(all, j);
}

/// An image another window claims as a texture keeps its pixels and its
/// texture through anything this window asks for.
pub proof fn law_shared_image_never_blanks(
    store: StoreModel,
    i: int,
    window: u64,
    want: Tier,
)
    requires
        0 <= i < store.claims.len(),
        store.claims[i].window != window,
        store.claims[i].want.rank_spec() >= Tier::View.rank_spec(),
    ensures
        ({
            let file = store.claims[i].file;
            let after = store.claim(window, file, want).settled(file);
            after.ram(file) == store.ram(file) && after.texture(file) == store.texture(file)
        }),
{
    law_other_claims_hold(store.claims, i, window, want);
}

/// Settling is stable: a settled image misses nothing and settling it again
/// changes nothing.
pub proof fn law_settling_is_stable(store: StoreModel, file: FileId)
    ensures
        store.settled(file).missing_job(file) is None,
        store.settled(file).settled(file).entries =~= store.settled(file).entries,
{
}

/// An image is decoded once for every window: while its pixels are there or a
/// job for it is under way, nobody's claim on it starts a decode.
pub proof fn law_one_decode_serves_every_window(
    store: StoreModel,
    file: FileId,
    window: u64,
    want: Tier,
)
    requires
        store.entry(file).pending || store.ram(file) is Some,
    ensures
        store.claim(window, file, want).missing_job(file) != Some(Job::Decode { file }),
        !(store.claim(window, file, want).demand(file) is Evicted) ==> store.claim(
            window,
            file,
            want,
        ).settled(file).ram(file) == store.ram(file),
{
}

} // verus!
