//! The thumbnails at hand, within a byte budget.
use crate::budget::{
    as_nats, bytes_of, exceeds, find_loose, first_loose, lemma_first_loose, picture_bytes, total,
};
use crate::files::FileId;
use crate::state::Thumb;
use vstd::prelude::*;

verus! {

/// What the thumbnails may take, about five hundred of them.
pub const THUMB_BUDGET_BYTES: u64 = 134_217_728;

/// A file's thumbnail.
#[derive(Clone, Copy, PartialEq, Eq, Debug)]
pub struct CachedThumb {
    pub file: FileId,
    pub thumb: Thumb,
}

/// The thumbnails at hand, the latest last.
pub struct Thumbs {
    pub list: Vec<CachedThumb>,
}

/// What [`Thumbs`] hold.
pub struct ThumbsModel {
    pub list: Seq<CachedThumb>,
}

pub open spec fn thumb_files(list: Seq<CachedThumb>) -> Seq<FileId> {
    list.map_values(|c: CachedThumb| c.file)
}

pub open spec fn thumb_costs(list: Seq<CachedThumb>) -> Seq<nat> {
    list.map_values(|c: CachedThumb| picture_bytes(c.thumb.size.0, c.thumb.size.1))
}

/// The oldest thumbnails of files outside `pinned` dropped until the rest fits
/// `budget` or only pinned ones are left.
pub open spec fn fitted_thumbs(
    list: Seq<CachedThumb>,
    budget: u64,
    pinned: Seq<FileId>,
) -> Seq<CachedThumb>
    decreases list.len(),
{
    if total(thumb_costs(list)) <= budget {
        list
    } else {
        match first_loose(thumb_files(list), pinned, 0) {
            Some(i) => if 0 <= i < list.len() {
                fitted_thumbs(list.remove(i), budget, pinned)
            } else {
                list
            },
            None => list,
        }
    }
}

impl ThumbsModel {
    pub open spec fn contains_key(self, file: FileId) -> bool {
        thumb_files(self.list).index_of_first(file) is Some
    }

    /// The thumbnail of a `file` that has one.
    pub open spec fn at(self, file: FileId) -> Thumb {
        self.list[thumb_files(self.list).index_of_first(file)->0].thumb
    }

    pub open spec fn remove(self, file: FileId) -> ThumbsModel {
        ThumbsModel { list: self.list.filter(|c: CachedThumb| c.file != file) }
    }

    pub open spec fn insert(self, file: FileId, thumb: Thumb) -> ThumbsModel {
        ThumbsModel { list: self.remove(file).list.push(CachedThumb { file, thumb }) }
    }

    pub open spec fn fitted(self, budget: u64, pinned: Seq<FileId>) -> ThumbsModel {
        ThumbsModel { list: fitted_thumbs(self.list, budget, pinned) }
    }

    pub open spec fn bytes(self) -> nat {
        total(thumb_costs(self.list))
    }
}

impl View for Thumbs {
    type V = ThumbsModel;

    open spec fn view(&self) -> ThumbsModel {
        ThumbsModel { list: self.list@ }
    }
}

impl Thumbs {
    pub fn new() -> (thumbs: Thumbs)
        ensures
            thumbs@ == (ThumbsModel { list: Seq::empty() }),
    {
        Thumbs { list: Vec::new() }
    }

    /// The thumbnail of `file`, if there is one.
    pub fn get(&self, file: FileId) -> (thumb: Option<Thumb>)
        ensures
            match thumb {
                Some(thumb) => self@.contains_key(file) && thumb == self@.at(file),
                None => !self@.contains_key(file),
            },
    {
        let ghost files = thumb_files(self.list@);
        proof {
            files.index_of_first_ensures(file);
        }
        let mut i: usize = 0;
        while i < self.list.len()
            invariant
                i <= self.list@.len(),
                files == thumb_files(self.list@),
                forall|j: int| 0 <= j < i ==> files[j] != file,
            decreases self.list@.len() - i,
        {
            assert(files[i as int] == self.list@[i as int].file);
            if self.list[i].file == file {
                proof {
                    files.index_of_first_ensures(file);
                }
                return Some(self.list[i].thumb);
            }
            i = i + 1;
        }
        proof {
            files.index_of_first_ensures(file);
        }
        None
    }

    /// Whether `file` has a thumbnail.
    pub fn contains_key(&self, file: FileId) -> (yes: bool)
        ensures
            yes == self@.contains_key(file),
    {
        self.get(file).is_some()
    }

    /// Drop the thumbnail of `file`.
    pub fn remove(&mut self, file: FileId)
        ensures
            final(self)@ == old(self)@.remove(file),
    {
        let mut kept: Vec<CachedThumb> = Vec::new();
        let mut i: usize = 0;
        let ghost keep = |c: CachedThumb| c.file != file;
        while i < self.list.len()
            invariant
                i <= self.list@.len(),
                kept@ == self.list@.take(i as int).filter(keep),
                keep == (|c: CachedThumb| c.file != file),
            decreases self.list@.len() - i,
        {
            let cached = self.list[i];
            proof {
                reveal(Seq::filter);
                assert(self.list@.take(i + 1).drop_last() =~= self.list@.take(i as int));
                assert(self.list@.take(i + 1).last() == cached);
            }
            if cached.file != file {
                kept.push(cached);
            }
            i = i + 1;
        }
        assert(self.list@.take(i as int) =~= self.list@);
        self.list = kept;
    }

    /// Keep a thumbnail of `file` as the latest one.
    pub fn insert(&mut self, file: FileId, thumb: Thumb)
        ensures
            final(self)@ == old(self)@.insert(file, thumb),
    {
        self.remove(file);
        self.list.push(CachedThumb { file, thumb });
    }

    fn weigh(&self) -> (costs: Vec<u128>)
        ensures
            as_nats(costs@) == thumb_costs(self.list@),
    {
        let mut costs: Vec<u128> = Vec::new();
        let mut i: usize = 0;
        while i < self.list.len()
            invariant
                i <= self.list@.len(),
                costs@.len() == i,
                forall|j: int|
                    0 <= j < i ==> (#[trigger] costs@[j]) == picture_bytes(
                        self.list@[j].thumb.size.0,
                        self.list@[j].thumb.size.1,
                    ),
            decreases self.list@.len() - i,
        {
            let (width, height) = self.list[i].thumb.size;
            costs.push(bytes_of(width, height));
            i = i + 1;
        }
        assert(as_nats(costs@) =~= thumb_costs(self.list@));
        costs
    }

    fn files(&self) -> (files: Vec<FileId>)
        ensures
            files@ == thumb_files(self.list@),
    {
        let mut files: Vec<FileId> = Vec::new();
        let mut i: usize = 0;
        while i < self.list.len()
            invariant
                i <= self.list@.len(),
                files@ == thumb_files(self.list@.take(i as int)),
            decreases self.list@.len() - i,
        {
            files.push(self.list[i].file);
            i = i + 1;
            assert(files@ =~= thumb_files(self.list@.take(i as int)));
        }
        assert(self.list@.take(i as int) =~= self.list@);
        files
    }

    /// Drop the oldest thumbnails of files outside `pinned` until the rest fits
    /// `budget` or only pinned ones are left.
    pub fn evict_over_budget(&mut self, budget: u64, pinned: &Vec<FileId>)
        ensures
            final(self)@ == old(self)@.fitted(budget, pinned@),
    {
        let ghost before = self.list@;
        loop
            invariant
                fitted_thumbs(self.list@, budget, pinned@) == fitted_thumbs(
                    before,
                    budget,
                    pinned@,
                ),
            ensures
                self.list@ == fitted_thumbs(before, budget, pinned@),
            decreases self.list@.len(),
        {
            let costs = self.weigh();
            if !exceeds(&costs, budget) {
                break ;
            }
            let files = self.files();
            match find_loose(&files, pinned) {
                Some(i) => {
                    self.list.remove(i);
                },
                None => {
                    break ;
                },
            }
        }
    }
}

/// After an eviction the thumbnails fit their budget, or only pinned ones are
/// left.
pub proof fn law_thumbs_fit_or_are_pinned(t: ThumbsModel, budget: u64, pinned: Seq<FileId>)
    ensures
        t.fitted(budget, pinned).bytes() <= budget || forall|i: int|
            0 <= i < t.fitted(budget, pinned).list.len() ==> pinned.contains(
                (#[trigger] t.fitted(budget, pinned).list[i]).file,
            ),
    decreases t.list.len(),
{
    if total(thumb_costs(t.list)) > budget {
        let files = thumb_files(t.list);
        lemma_first_loose(files, pinned, 0);
        match first_loose(files, pinned, 0) {
            Some(i) => {
                law_thumbs_fit_or_are_pinned(
                    ThumbsModel { list: t.list.remove(i) },
                    budget,
                    pinned,
                );
            },
            None => {
                assert forall|i: int| 0 <= i < t.list.len() implies pinned.contains(
                    (#[trigger] t.list[i]).file,
                ) by {
                    assert(files[i] == t.list[i].file);
                }
            },
        }
    }
}

/// An eviction never takes a pinned file's thumbnail.
pub proof fn law_eviction_spares_pinned_thumbs(
    t: ThumbsModel,
    budget: u64,
    pinned: Seq<FileId>,
    cached: CachedThumb,
)
    requires
        t.list.contains(cached),
        pinned.contains(cached.file),
    ensures
        t.fitted(budget, pinned).list.contains(cached),
    decreases t.list.len(),
{
    if total(thumb_costs(t.list)) > budget {
        let files = thumb_files(t.list);
        lemma_first_loose(files, pinned, 0);
        match first_loose(files, pinned, 0) {
            Some(i) => {
                let k = choose|k: int| 0 <= k < t.list.len() && t.list[k] == cached;
                let rest = t.list.remove(i);
                assert(files[i] == t.list[i].file);
                if k < i {
                    assert(rest[k] == cached);
                } else {
                    assert(rest[k - 1] == cached);
                }
                law_eviction_spares_pinned_thumbs(
                    ThumbsModel { list: rest },
                    budget,
                    pinned,
                    cached,
                );
            },
            None => {},
        }
    }
}

} // verus!
