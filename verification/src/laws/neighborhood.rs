//! Which files count as next to the cursor.
use crate::files::FileId;
use crate::nav::NavModel;
use vstd::prelude::*;

verus! {

/// The position `d` places on from `i` in a ring of `n`.
pub open spec fn ahead(i: int, d: int, n: int) -> int {
    if i + d < n {
        i + d
    } else {
        i + d - n
    }
}

/// The position `d` places back from `i` in a ring of `n`.
pub open spec fn behind(i: int, d: int, n: int) -> int {
    if i - d >= 0 {
        i - d
    } else {
        i - d + n
    }
}

proof fn lemma_ring(i: int, d: int, n: int)
    requires
        0 <= i < n,
        0 <= d <= n,
    ensures
        (i + d) % n == if d == n {
            i
        } else {
            ahead(i, d, n)
        },
        (i + n - d) % n == if d == 0 {
            i
        } else {
            behind(i, d, n)
        },
{
    if i + d < n {
        assert((i + d) % n == i + d) by (nonlinear_arith)
            requires
                0 <= i + d < n,
        ;
    } else {
        assert((i + d) % n == i + d - n) by (nonlinear_arith)
            requires
                n <= i + d < 2 * n,
        ;
    }
    if i - d >= 0 {
        assert((i + n - d) % n == i - d) by (nonlinear_arith)
            requires
                n <= i + n - d < 2 * n,
        ;
    } else {
        assert((i + n - d) % n == i - d + n) by (nonlinear_arith)
            requires
                0 <= i - d + n < n,
        ;
    }
}

/// The way to a file is the shorter of the two around the ring: so many places on
/// or back it is, and it is never more than half way around.
pub proof fn law_distance_is_the_shorter_way(nav: NavModel, index: int)
    requires
        nav.wf(),
        0 <= index < nav.files.len(),
    ensures
        ({
            let n = nav.files.len() as int;
            let d = nav.steps_to(index);
            &&& 0 <= d
            &&& 2 * d <= n
            &&& ahead(nav.cursor, d, n) == index || behind(nav.cursor, d, n) == index
            &&& d == 0 <==> index == nav.cursor
        }),
{
}

/// The files next to the cursor are handed out nearest first, the one on before
/// the one back: the two files `d` places away are at positions `2 * d - 2` and
/// `2 * d - 1`, as long as they are two.
pub proof fn law_neighbors_alternate_outward(nav: NavModel, depth: nat, d: int)
    requires
        nav.wf(),
        1 <= d <= depth,
        2 * d < nav.files.len(),
    ensures
        ({
            let n = nav.files.len() as int;
            let near = nav.around(depth);
            &&& near.len() >= 2 * d
            &&& near[2 * d - 2] == nav.files[ahead(nav.cursor, d, n)]
            &&& near[2 * d - 1] == nav.files[behind(nav.cursor, d, n)]
        }),
    decreases depth,
{
    let n = nav.files.len() as int;
    if d < depth {
        law_neighbors_alternate_outward(nav, (depth - 1) as nat, d);
    } else {
        lemma_around_len(nav, (depth - 1) as nat);
        lemma_ring(nav.cursor, d, n);
    }
}

proof fn lemma_around_len(nav: NavModel, depth: nat)
    requires
        nav.wf(),
    ensures
        2 * depth < nav.files.len() ==> nav.around(depth).len() == 2 * depth,
        nav.around(depth).len() <= 2 * depth,
        nav.around(depth).len() < nav.files.len(),
    decreases depth,
{
    if depth > 0 {
        lemma_around_len(nav, (depth - 1) as nat);
        if 2 * depth > nav.files.len() {
            lemma_around_cap(nav, (depth - 1) as nat);
        }
    }
}

proof fn lemma_around_cap(nav: NavModel, depth: nat)
    requires
        nav.wf(),
    ensures
        nav.around(depth).len() < nav.files.len(),
    decreases depth,
{
    if depth > 0 {
        lemma_around_cap(nav, (depth - 1) as nat);
        if 2 * depth <= nav.files.len() {
            lemma_small_around(nav, (depth - 1) as nat);
        }
    }
}

proof fn lemma_small_around(nav: NavModel, depth: nat)
    requires
        nav.wf(),
        2 * depth < nav.files.len(),
    ensures
        nav.around(depth).len() == 2 * depth,
    decreases depth,
{
    if depth > 0 {
        lemma_small_around(nav, (depth - 1) as nat);
    }
}

/// Every file within reach is handed out.
pub proof fn law_neighbors_are_complete(nav: NavModel, depth: nat, index: int)
    requires
        nav.wf(),
        0 <= index < nav.files.len(),
        1 <= nav.steps_to(index) <= depth,
    ensures
        nav.around(depth).contains(nav.files[index]),
{
    let n = nav.files.len() as int;
    let d = nav.steps_to(index);
    law_distance_is_the_shorter_way(nav, index);
    if 2 * d < n {
        law_neighbors_alternate_outward(nav, depth, d);
        if ahead(nav.cursor, d, n) == index {
            assert(nav.around(depth)[2 * d - 2] == nav.files[index]);
        } else {
            assert(nav.around(depth)[2 * d - 1] == nav.files[index]);
        }
    } else {
        lemma_opposite(nav, depth, d);
        assert(ahead(nav.cursor, d, n) == behind(nav.cursor, d, n));
    }
}

proof fn lemma_opposite(nav: NavModel, depth: nat, d: int)
    requires
        nav.wf(),
        1 <= d <= depth,
        2 * d == nav.files.len(),
    ensures
        nav.around(depth).contains(
            nav.files[ahead(nav.cursor, d, nav.files.len() as int)],
        ),
    decreases depth,
{
    let n = nav.files.len() as int;
    let file = nav.files[ahead(nav.cursor, d, n)];
    if d < depth {
        lemma_opposite(nav, (depth - 1) as nat, d);
    } else {
        lemma_ring(nav.cursor, d, n);
        let nearer = nav.around((depth - 1) as nat);
        assert(nav.around(depth)[nearer.len() as int] == file);
    }
}

/// Taking another file out of the listing leaves the cursor on its file; taking
/// the current one out leaves it on the next, or on the new last at the end. The
/// last file is never taken out.
pub proof fn law_removal_keeps_the_cursor_on_its_file(nav: NavModel, file: FileId)
    requires
        nav.wf(),
        nav.files.no_duplicates(),
        nav.files.contains(file),
        nav.files.len() > 1,
    ensures
        ({
            let after = nav.without(file);
            let n = nav.files.len();
            &&& after.wf()
            &&& after.files.len() == n - 1
            &&& !after.files.contains(file)
            &&& file != nav.current() ==> after.current() == nav.current()
            &&& file == nav.current() && nav.cursor < n - 1 ==> after.current()
                == nav.files[nav.cursor + 1]
            &&& file == nav.current() && nav.cursor == n - 1 ==> after.current()
                == nav.files[nav.cursor - 1]
        }),
{
    nav.files.index_of_first_ensures(file);
    let i = nav.files.index_of_first(file)->0;
    let after = nav.without(file);
    if after.files.contains(file) {
        let k = choose|k: int| 0 <= k < after.files.len() && after.files[k] == file;
        if k < i {
            assert(nav.files[k] == file);
        } else {
            assert(nav.files[k + 1] == file);
        }
    }
}

} // verus!
