//! What becomes of claims that are let go of.
use crate::anim::anims_released;
use crate::files::FileId;
use crate::state::stills_released;
use crate::store::{others, AnimStoreModel, Claim, StoreModel};
use vstd::prelude::*;

verus! {

proof fn lemma_others_only(claims: Seq<Claim>, window: u64, file: FileId, c: Claim)
    ensures
        others(claims, window, file).contains(c) <==> claims.contains(c) && !(c.window == window
            && c.file == file),
{
    let keep = |c: Claim| !(c.window == window && c.file == file);
    if claims.contains(c) && keep(c) {
        let i = choose|i: int| 0 <= i < claims.len() && claims[i] == c;
        claims.lemma_filter_contains(keep, i);
    }
    if others(claims, window, file).contains(c) {
        claims.lemma_filter_contains_rev(keep, c);
        let k = choose|k: int|
            0 <= k < others(claims, window, file).len() && others(claims, window, file)[k] == c;
        claims.lemma_filter_pred(keep, k);
    }
}

proof fn lemma_last_or_before(files: Seq<FileId>, file: FileId)
    requires
        files.len() > 0,
    ensures
        files.contains(file) <==> files.drop_last().contains(file) || files.last() == file,
{
    let rest = files.drop_last();
    if files.contains(file) {
        let i = choose|i: int| 0 <= i < files.len() && files[i] == file;
        if i < rest.len() {
            assert(rest[i] == file);
        }
    }
    if rest.contains(file) {
        let i = choose|i: int| 0 <= i < rest.len() && rest[i] == file;
        assert(files[i] == file);
    }
    assert(files[files.len() - 1] == files.last());
}

proof fn lemma_pushed(dirty: Seq<FileId>, last: FileId, file: FileId)
    ensures
        dirty.push(last).contains(file) <==> dirty.contains(file) || last == file,
{
    lemma_last_or_before(dirty.push(last), file);
    assert(dirty.push(last).drop_last() =~= dirty);
}

/// Letting stills go takes the window's claims on them off the store's record,
/// and no others, and has the store look at each of them.
pub proof fn law_released_claims_are_gone(
    store: StoreModel,
    window: u64,
    files: Seq<FileId>,
    c: Claim,
)
    ensures
        stills_released(store, window, files).claims.contains(c) <==> store.claims.contains(c)
            && !(c.window == window && files.contains(c.file)),
        stills_released(store, window, files).entries == store.entries,
        stills_released(store, window, files).dirty.contains(c.file) <==> store.dirty.contains(
            c.file,
        ) || files.contains(c.file),
    decreases files.len(),
{
    if files.len() > 0 {
        let rest = files.drop_last();
        let before = stills_released(store, window, rest);
        law_released_claims_are_gone(store, window, rest, c);
        lemma_others_only(before.claims, window, files.last(), c);
        lemma_last_or_before(files, c.file);
        lemma_pushed(before.dirty, files.last(), c.file);
    }
}

/// Letting the frames of animations go does the same to theirs.
pub proof fn law_released_frames_are_gone(
    store: AnimStoreModel,
    window: u64,
    files: Seq<FileId>,
    c: Claim,
)
    ensures
        anims_released(store, window, files).claims.contains(c) <==> store.claims.contains(c)
            && !(c.window == window && files.contains(c.file)),
        anims_released(store, window, files).frames == store.frames,
        anims_released(store, window, files).dirty.contains(c.file) <==> store.dirty.contains(
            c.file,
        ) || files.contains(c.file),
    decreases files.len(),
{
    if files.len() > 0 {
        let rest = files.drop_last();
        let before = anims_released(store, window, rest);
        law_released_frames_are_gone(store, window, rest, c);
        lemma_others_only(before.claims, window, files.last(), c);
        lemma_last_or_before(files, c.file);
        lemma_pushed(before.dirty, files.last(), c.file);
    }
}

} // verus!
