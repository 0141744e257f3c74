//! The images one window holds, in the order it claimed them.
use crate::files::FileId;
use crate::store::Tier;
use vstd::prelude::*;

verus! {

/// A held image and the tier it is held at.
#[derive(Clone, Copy, PartialEq, Eq, Structural, Debug)]
pub struct Lease {
    pub file: FileId,
    pub want: Tier,
}

/// The leases of one window on one kind of image.
pub struct Leases {
    pub list: Vec<Lease>,
}

/// The tier `file` is held at, if it is held.
pub open spec fn want_of(leases: Seq<Lease>, file: FileId) -> Option<Tier>
    decreases leases.len(),
{
    if leases.len() == 0 {
        None
    } else if leases.last().file == file {
        Some(leases.last().want)
    } else {
        want_of(leases.drop_last(), file)
    }
}

pub open spec fn holds(leases: Seq<Lease>, file: FileId) -> bool {
    want_of(leases, file) is Some
}

/// The leases on files outside `drop`.
pub open spec fn leases_without(leases: Seq<Lease>, drop: Set<FileId>) -> Seq<Lease> {
    leases.filter(|l: Lease| !drop.contains(l.file))
}

/// The leases on files in `keep`.
pub open spec fn leases_within(leases: Seq<Lease>, keep: Set<FileId>) -> Seq<Lease> {
    leases.filter(|l: Lease| keep.contains(l.file))
}

/// The leases with `file` held at `want`.
pub open spec fn leased(leases: Seq<Lease>, file: FileId, want: Tier) -> Seq<Lease> {
    leases_without(leases, set![file]).push(Lease { file, want })
}

/// The held files, in order.
pub open spec fn files_of(leases: Seq<Lease>) -> Seq<FileId> {
    leases.map_values(|l: Lease| l.file)
}

impl View for Leases {
    type V = Seq<Lease>;

    open spec fn view(&self) -> Seq<Lease> {
        self.list@
    }
}

impl Leases {
    pub fn new() -> (leases: Leases)
        ensures
            leases@ == Seq::<Lease>::empty(),
    {
        Leases { list: Vec::new() }
    }

    pub fn want_of(&self, file: FileId) -> (want: Option<Tier>)
        ensures
            want == want_of(self@, file),
    {
        let mut i: usize = self.list.len();
        assert(self.list@.take(i as int) =~= self.list@);
        while i > 0
            invariant
                i <= self.list@.len(),
                want_of(self.list@.take(i as int), file) == want_of(self@, file),
            decreases i,
        {
            let lease = self.list[i - 1];
            assert(self.list@.take(i as int).drop_last() =~= self.list@.take(i - 1));
            if lease.file == file {
                return Some(lease.want);
            }
            i = i - 1;
        }
        None
    }

    pub fn holds(&self, file: FileId) -> (yes: bool)
        ensures
            yes == holds(self@, file),
    {
        self.want_of(file).is_some()
    }

    /// Let go of `file`.
    pub fn remove(&mut self, file: FileId)
        ensures
            final(self)@ == leases_without(old(self)@, set![file]),
    {
        let mut kept: Vec<Lease> = Vec::new();
        let mut i: usize = 0;
        let ghost keep = |l: Lease| !set![file].contains(l.file);
        while i < self.list.len()
            invariant
                i <= self.list@.len(),
                kept@ == self.list@.take(i as int).filter(keep),
                keep == (|l: Lease| !set![file].contains(l.file)),
            decreases self.list@.len() - i,
        {
            let lease = self.list[i];
            proof {
                reveal(Seq::filter);
                assert(self.list@.take(i + 1).drop_last() =~= self.list@.take(i as int));
                assert(self.list@.take(i + 1).last() == lease);
            }
            if lease.file != file {
                kept.push(lease);
            }
            i = i + 1;
        }
        assert(self.list@.take(i as int) =~= self.list@);
        self.list = kept;
    }

    /// Hold `file` at `want`.
    pub fn insert(&mut self, file: FileId, want: Tier)
        ensures
            final(self)@ == leased(old(self)@, file, want),
    {
        self.remove(file);
        self.list.push(Lease { file, want });
    }

    /// Keep the files in `keep`, returning the ones let go of.
    pub fn retain(&mut self, keep: &Vec<FileId>) -> (gone: Vec<FileId>)
        ensures
            final(self)@ == leases_within(old(self)@, keep@.to_set()),
            gone@ == files_of(leases_without(old(self)@, keep@.to_set())),
    {
        let mut kept: Vec<Lease> = Vec::new();
        let mut gone: Vec<FileId> = Vec::new();
        let mut i: usize = 0;
        let ghost inside = |l: Lease| keep@.to_set().contains(l.file);
        let ghost outside = |l: Lease| !keep@.to_set().contains(l.file);
        while i < self.list.len()
            invariant
                i <= self.list@.len(),
                kept@ == self.list@.take(i as int).filter(inside),
                gone@ == files_of(self.list@.take(i as int).filter(outside)),
                inside == (|l: Lease| keep@.to_set().contains(l.file)),
                outside == (|l: Lease| !keep@.to_set().contains(l.file)),
            decreases self.list@.len() - i,
        {
            let lease = self.list[i];
            proof {
                reveal(Seq::filter);
                assert(self.list@.take(i + 1).drop_last() =~= self.list@.take(i as int));
                assert(self.list@.take(i + 1).last() == lease);
            }
            if crate::files::find_file(keep, lease.file).is_some() {
                kept.push(lease);
            } else {
                let ghost before = self.list@.take(i as int).filter(outside);
                gone.push(lease.file);
                assert(files_of(before.push(lease)) =~= files_of(before).push(lease.file));
            }
            i = i + 1;
        }
        assert(self.list@.take(i as int) =~= self.list@);
        self.list = kept;
        gone
    }

    /// Let go of the files in `drop`, returning the ones that were held.
    pub fn remove_all(&mut self, drop: &Vec<FileId>) -> (gone: Vec<FileId>)
        ensures
            final(self)@ == leases_without(old(self)@, drop@.to_set()),
            gone@ == files_of(leases_within(old(self)@, drop@.to_set())),
    {
        let mut kept: Vec<Lease> = Vec::new();
        let mut gone: Vec<FileId> = Vec::new();
        let mut i: usize = 0;
        let ghost inside = |l: Lease| drop@.to_set().contains(l.file);
        let ghost outside = |l: Lease| !drop@.to_set().contains(l.file);
        while i < self.list.len()
            invariant
                i <= self.list@.len(),
                kept@ == self.list@.take(i as int).filter(outside),
                gone@ == files_of(self.list@.take(i as int).filter(inside)),
                inside == (|l: Lease| drop@.to_set().contains(l.file)),
                outside == (|l: Lease| !drop@.to_set().contains(l.file)),
            decreases self.list@.len() - i,
        {
            let lease = self.list[i];
            proof {
                reveal(Seq::filter);
                assert(self.list@.take(i + 1).drop_last() =~= self.list@.take(i as int));
                assert(self.list@.take(i + 1).last() == lease);
            }
            if crate::files::find_file(drop, lease.file).is_some() {
                let ghost before = self.list@.take(i as int).filter(inside);
                gone.push(lease.file);
                assert(files_of(before.push(lease)) =~= files_of(before).push(lease.file));
            } else {
                kept.push(lease);
            }
            i = i + 1;
        }
        assert(self.list@.take(i as int) =~= self.list@);
        self.list = kept;
        gone
    }

    /// The held files, in order.
    pub fn files(&self) -> (files: Vec<FileId>)
        ensures
            files@ == files_of(self@),
    {
        let mut files: Vec<FileId> = Vec::new();
        let mut i: usize = 0;
        while i < self.list.len()
            invariant
                i <= self.list@.len(),
                files@ == files_of(self.list@.take(i as int)),
            decreases self.list@.len() - i,
        {
            files.push(self.list[i].file);
            i = i + 1;
            assert(files@ =~= files_of(self.list@.take(i as int)));
        }
        assert(self.list@.take(i as int) =~= self.list@);
        files
    }
}

/// Holding is having a lease on the file.
pub proof fn lemma_holds(leases: Seq<Lease>, file: FileId)
    ensures
        holds(leases, file) <==> exists|i: int|
            0 <= i < leases.len() && (#[trigger] leases[i]).file == file,
    decreases leases.len(),
{
    if leases.len() > 0 {
        let rest = leases.drop_last();
        lemma_holds(rest, file);
        if leases.last().file == file {
            assert(leases[leases.len() - 1].file == file);
        } else if holds(leases, file) {
            let i = choose|i: int| 0 <= i < rest.len() && (#[trigger] rest[i]).file == file;
            assert(leases[i].file == file);
        } else if exists|i: int| 0 <= i < leases.len() && (#[trigger] leases[i]).file == file {
            let i = choose|i: int| 0 <= i < leases.len() && (#[trigger] leases[i]).file == file;
            assert(rest[i].file == file);
        }
    }
}

/// What filtering leaves is held exactly when it was held and passes.
pub proof fn lemma_filtered_holds(leases: Seq<Lease>, keep: Set<FileId>, file: FileId)
    ensures
        want_of(leases_within(leases, keep), file) == if keep.contains(file) {
            want_of(leases, file)
        } else {
            None
        },
        want_of(leases_without(leases, keep), file) == if keep.contains(file) {
            None
        } else {
            want_of(leases, file)
        },
    decreases leases.len(),
{
    reveal(Seq::filter);
    if leases.len() > 0 {
        let rest = leases.drop_last();
        let last = leases.last();
        lemma_filtered_holds(rest, keep, file);
        let inside = leases_within(rest, keep);
        let outside = leases_without(rest, keep);
        assert(inside.push(last).drop_last() =~= inside);
        assert(outside.push(last).drop_last() =~= outside);
    }
}

} // verus!
