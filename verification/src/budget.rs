//! Keeping what is held within a byte budget.
use crate::files::FileId;
use crate::leases::{files_of, Lease};
use crate::state::{Shared, SharedModel, Viewer, ViewerModel};
use crate::store::{Store, StoreModel};
use vstd::prelude::*;

verus! {

/// The bytes of a picture of this size, at four bytes a pixel.
pub open spec fn picture_bytes(width: u32, height: u32) -> nat {
    (width * height * 4) as nat
}

/// The bytes of a picture of this size.
pub fn bytes_of(width: u32, height: u32) -> (bytes: u128)
    ensures
        bytes == picture_bytes(width, height),
{
    assert(0 <= width * height <= 0xffff_ffff * 0xffff_ffff) by (nonlinear_arith)
        requires
            0 <= width <= 0xffff_ffff,
            0 <= height <= 0xffff_ffff,
    ;
    let area: u128 = width as u128 * height as u128;
    area * 4
}

/// The sum of `costs`.
pub open spec fn total(costs: Seq<nat>) -> nat
    decreases costs.len(),
{
    if costs.len() == 0 {
        0
    } else {
        total(costs.drop_last()) + costs.last()
    }
}

pub open spec fn as_nats(costs: Seq<u128>) -> Seq<nat> {
    costs.map_values(|c: u128| c as nat)
}

proof fn lemma_total_grows(costs: Seq<nat>, n: int)
    requires
        0 <= n <= costs.len(),
    ensures
        total(costs.take(n)) <= total(costs),
    decreases costs.len(),
{
    if n < costs.len() {
        lemma_total_grows(costs.drop_last(), n);
        assert(costs.drop_last().take(n) =~= costs.take(n));
    } else {
        assert(costs.take(n) =~= costs);
    }
}

/// Whether `costs` sum up to more than `budget`.
pub fn exceeds(costs: &Vec<u128>, budget: u64) -> (over: bool)
    ensures
        over == (total(as_nats(costs@)) > budget),
{
    let ghost all = as_nats(costs@);
    let mut left: u64 = budget;
    let mut i: usize = 0;
    while i < costs.len()
        invariant
            i <= costs@.len(),
            all == as_nats(costs@),
            left == budget - total(all.take(i as int)),
        decreases costs@.len() - i,
    {
        let cost = costs[i];
        proof {
            assert(all.take(i + 1).drop_last() =~= all.take(i as int));
            lemma_total_grows(all, i + 1);
        }
        if cost > left as u128 {
            return true;
        }
        left = left - cost as u64;
        i = i + 1;
    }
    assert(all.take(i as int) =~= all);
    false
}

/// The place of the first of `files` that is not among `pinned`, from `from` on.
pub open spec fn first_loose(files: Seq<FileId>, pinned: Seq<FileId>, from: int) -> Option<int>
    decreases files.len() - from,
{
    if from >= files.len() {
        None
    } else if !pinned.contains(files[from]) {
        Some(from)
    } else {
        first_loose(files, pinned, from + 1)
    }
}

pub proof fn lemma_first_loose(files: Seq<FileId>, pinned: Seq<FileId>, from: int)
    requires
        0 <= from,
    ensures
        match first_loose(files, pinned, from) {
            Some(i) => from <= i < files.len() && !pinned.contains(files[i]),
            None => forall|j: int|
                from <= j < files.len() ==> pinned.contains(#[trigger] files[j]),
        },
    decreases files.len() - from,
{
    if from < files.len() && pinned.contains(files[from]) {
        lemma_first_loose(files, pinned, from + 1);
    }
}

/// The place of the first of `files` that is not among `pinned`.
pub fn find_loose(files: &Vec<FileId>, pinned: &Vec<FileId>) -> (found: Option<usize>)
    ensures
        match found {
            Some(i) => i < files@.len() && first_loose(files@, pinned@, 0) == Some(i as int),
            None => first_loose(files@, pinned@, 0) is None,
        },
{
    let mut i: usize = 0;
    while i < files.len()
        invariant
            i <= files@.len(),
            first_loose(files@, pinned@, 0) == first_loose(files@, pinned@, i as int),
        decreases files@.len() - i,
    {
        if crate::files::find_file(pinned, files[i]).is_none() {
            return Some(i);
        }
        proof {
            pinned@.index_of_first_ensures(files@[i as int]);
        }
        i = i + 1;
    }
    None
}

/// The bytes of a held image's decoded pixels, nothing for one not decoded.
pub open spec fn lease_cost(lease: Lease, store: StoreModel) -> nat {
    match store.ram(lease.file) {
        Some(ram) => picture_bytes(ram.width, ram.height),
        None => 0,
    }
}

pub open spec fn lease_costs(leases: Seq<Lease>, store: StoreModel) -> Seq<nat> {
    leases.map_values(|l: Lease| lease_cost(l, store))
}

/// The leases and the store once images outside `pinned` were let go of, the
/// first claimed first, until the pixels of the rest fit `budget` or only pinned
/// ones are left.
pub open spec fn fitted_leases(
    leases: Seq<Lease>,
    store: StoreModel,
    window: u64,
    budget: u64,
    pinned: Seq<FileId>,
) -> (Seq<Lease>, StoreModel)
    decreases leases.len(),
{
    if total(lease_costs(leases, store)) <= budget {
        (leases, store)
    } else {
        match first_loose(files_of(leases), pinned, 0) {
            Some(i) => if 0 <= i < leases.len() {
                fitted_leases(
                    leases.remove(i),
                    store.released(window, leases[i].file),
                    window,
                    budget,
                    pinned,
                )
            } else {
                (leases, store)
            },
            None => (leases, store),
        }
    }
}

fn weigh_leases(leases: &Vec<Lease>, store: &Store) -> (costs: Vec<u128>)
    ensures
        as_nats(costs@) == lease_costs(leases@, store@),
{
    let mut costs: Vec<u128> = Vec::new();
    let mut i: usize = 0;
    while i < leases.len()
        invariant
            i <= leases@.len(),
            costs@.len() == i,
            forall|j: int|
                0 <= j < i ==> (#[trigger] costs@[j]) == lease_cost(leases@[j], store@),
        decreases leases@.len() - i,
    {
        let cost: u128 = match store.ram(leases[i].file) {
            Some(ram) => bytes_of(ram.width, ram.height),
            None => 0,
        };
        costs.push(cost);
        i = i + 1;
    }
    assert(as_nats(costs@) =~= lease_costs(leases@, store@));
    costs
}

/// A viewer's still images fitted to `budget`, but for the pinned ones.
#[verifier::opaque]
pub open spec fn cache_fitted(v: ViewerModel, s: SharedModel, window: u64, budget: u64) -> (
    ViewerModel,
    SharedModel,
) {
    let pinned = v.pinned(s.config.value.prefetch_depth as nat);
    let (cache, store) = fitted_leases(v.cache, s.store, window, budget, pinned);
    (ViewerModel { cache, ..v }, SharedModel { store, ..s })
}

/// Let go of images outside the pinned neighborhood until the pixels of the
/// rest fit `budget` or only pinned ones are left.
pub fn fit_cache(viewer: &mut Viewer, shared: &mut Shared, window: u64, budget: u64)
    requires
        old(viewer)@.wf(),
    ensures
        (final(viewer)@, final(shared)@) == cache_fitted(
            old(viewer)@,
            old(shared)@,
            window,
            budget,
        ),
        final(viewer)@.wf(),
{
    proof {
        reveal(cache_fitted);
    }
    let pinned = viewer.pinned_paths(shared.config.value.prefetch_depth);
    let ghost v = viewer@;
    let ghost s = shared@;
    loop
        invariant
            v == old(viewer)@,
            s == old(shared)@,
            pinned@ == v.pinned(s.config.value.prefetch_depth as nat),
            viewer@ == (ViewerModel { cache: viewer@.cache, ..v }),
            shared@ == (SharedModel { store: shared@.store, ..s }),
            fitted_leases(viewer@.cache, shared@.store, window, budget, pinned@)
                == fitted_leases(v.cache, s.store, window, budget, pinned@),
        ensures
            (viewer@.cache, shared@.store) == fitted_leases(
                v.cache,
                s.store,
                window,
                budget,
                pinned@,
            ),
        decreases viewer@.cache.len(),
    {
        let costs = weigh_leases(&viewer.cache.list, &shared.store);
        if !exceeds(&costs, budget) {
            break ;
        }
        let files = viewer.cache.files();
        match find_loose(&files, &pinned) {
            Some(i) => {
                let file = viewer.cache.list[i].file;
                viewer.cache.list.remove(i);
                shared.store.release(window, file);
            },
            None => {
                break ;
            },
        }
    }
}

proof fn lemma_fitted_leases(
    leases: Seq<Lease>,
    store: StoreModel,
    window: u64,
    budget: u64,
    pinned: Seq<FileId>,
)
    ensures
        ({
            let (left, after) = fitted_leases(leases, store, window, budget, pinned);
            total(lease_costs(left, after)) <= budget || forall|i: int|
                0 <= i < left.len() ==> pinned.contains((#[trigger] left[i]).file)
        }),
    decreases leases.len(),
{
    if total(lease_costs(leases, store)) > budget {
        let files = files_of(leases);
        lemma_first_loose(files, pinned, 0);
        match first_loose(files, pinned, 0) {
            Some(i) => lemma_fitted_leases(
                leases.remove(i),
                store.released(window, leases[i].file),
                window,
                budget,
                pinned,
            ),
            None => {
                assert forall|i: int| 0 <= i < leases.len() implies pinned.contains(
                    (#[trigger] leases[i]).file,
                ) by {
                    assert(files[i] == leases[i].file);
                }
            },
        }
    }
}

/// Once fitted to a budget, a window's images stay within it, or only the
/// pinned ones are left.
pub proof fn law_images_fit_or_are_pinned(
    v: ViewerModel,
    s: SharedModel,
    window: u64,
    budget: u64,
)
    ensures
        ({
            let (after, shared) = cache_fitted(v, s, window, budget);
            let pinned = v.pinned(s.config.value.prefetch_depth as nat);
            total(lease_costs(after.cache, shared.store)) <= budget || forall|i: int|
                0 <= i < after.cache.len() ==> pinned.contains((#[trigger] after.cache[i]).file)
        }),
{
    reveal(cache_fitted);
    lemma_fitted_leases(
        v.cache,
        s.store,
        window,
        budget,
        v.pinned(s.config.value.prefetch_depth as nat),
    );
}

} // verus!
