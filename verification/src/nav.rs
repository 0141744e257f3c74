//! The ordered file listing and the cursor in it.
use crate::files::{find_file, FileId};
use vstd::prelude::*;

verus! {

/// Why a listing could not be opened.
#[derive(Clone, Copy, PartialEq, Eq, Structural, Debug)]
pub enum NavError {
    /// There is nothing to show.
    Empty,
    /// The file to start on is not in the listing.
    NotListed,
}

/// A non-empty listing with a cursor on one of its files.
pub struct Nav {
    pub files: Vec<FileId>,
    pub cursor: usize,
}

/// What a [`Nav`] holds.
pub struct NavModel {
    pub files: Seq<FileId>,
    pub cursor: int,
}

impl NavModel {
    pub open spec fn wf(self) -> bool {
        0 <= self.cursor < self.files.len() <= usize::MAX
    }

    pub open spec fn current(self) -> FileId {
        self.files[self.cursor]
    }

    pub open spec fn at(self, index: int) -> NavModel {
        NavModel { cursor: index, ..self }
    }

    /// The index one step after the cursor, wrapping at the end.
    pub open spec fn next_index(self) -> int {
        (self.cursor + 1) % (self.files.len() as int)
    }

    /// The index one step before the cursor, wrapping at the start.
    pub open spec fn prev_index(self) -> int {
        (self.cursor + self.files.len() - 1) % (self.files.len() as int)
    }

    /// Steps between the cursor and `index`, going whichever way is shorter.
    pub open spec fn steps_to(self, index: int) -> int {
        let straight = if index >= self.cursor {
            index - self.cursor
        } else {
            self.cursor - index
        };
        if straight <= self.files.len() - straight {
            straight
        } else {
            self.files.len() - straight
        }
    }

    /// Steps to `file`, or `None` when it is not listed.
    pub open spec fn distance(self, file: FileId) -> Option<usize> {
        match self.files.index_of_first(file) {
            Some(i) => Some(self.steps_to(i) as usize),
            None => None,
        }
    }

    /// The neighbors within `depth` steps, nearest first, the one ahead before
    /// the one behind, each listed once.
    pub open spec fn around(self, depth: nat) -> Seq<FileId>
        decreases depth,
    {
        if depth == 0 {
            Seq::empty()
        } else {
            let nearer = self.around((depth - 1) as nat);
            let n = self.files.len() as int;
            if 2 * depth < n {
                nearer.push(self.files[(self.cursor + depth) % n]).push(
                    self.files[(self.cursor + n - depth) % n],
                )
            } else if 2 * depth == n {
                nearer.push(self.files[(self.cursor + depth) % n])
            } else {
                nearer
            }
        }
    }

    /// The listing `files`, with the cursor kept on the same file, or moved to
    /// the start if that file is gone. An empty listing is ignored.
    pub open spec fn replaced(self, files: Seq<FileId>) -> NavModel {
        if files.len() == 0 {
            self
        } else {
            NavModel {
                files,
                cursor: match files.index_of_first(self.current()) {
                    Some(i) => i,
                    None => 0,
                },
            }
        }
    }

    /// The listing without `file`. The cursor stays on its file; when that is
    /// the one removed it moves to the file that took its place, or to the new
    /// last one. Unchanged when `file` is unlisted or is the only file.
    pub open spec fn without(self, file: FileId) -> NavModel {
        match self.files.index_of_first(file) {
            Some(i) if self.files.len() > 1 => NavModel {
                files: self.files.remove(i),
                cursor: if i < self.cursor || self.cursor == self.files.len() - 1 {
                    self.cursor - 1
                } else {
                    self.cursor
                },
            },
            _ => self,
        }
    }

    /// The listing with the first `old` replaced by `new`.
    pub open spec fn renamed(self, old: FileId, new: FileId) -> NavModel {
        match self.files.index_of_first(old) {
            Some(i) => NavModel { files: self.files.update(i, new), ..self },
            None => self,
        }
    }
}

impl View for Nav {
    type V = NavModel;

    open spec fn view(&self) -> NavModel {
        NavModel { files: self.files@, cursor: self.cursor as int }
    }
}

impl Nav {
    /// Open the listing `files` with the cursor on `start`.
    pub fn new(files: Vec<FileId>, start: FileId) -> (nav: Result<Nav, NavError>)
        ensures
            match nav {
                Ok(nav) => {
                    &&& nav@.wf()
                    &&& nav@.files == files@
                    &&& files@.index_of_first(start) == Some(nav@.cursor)
                },
                Err(NavError::Empty) => files@.len() == 0,
                Err(NavError::NotListed) => files@.len() > 0 && !files@.contains(start),
            },
    {
        if files.len() == 0 {
            return Err(NavError::Empty);
        }
        match find_file(&files, start) {
            Some(cursor) => Ok(Nav { files, cursor }),
            None => Err(NavError::NotListed),
        }
    }

    pub fn len(&self) -> (n: usize)
        ensures
            n == self@.files.len(),
    {
        self.files.len()
    }

    pub fn cursor(&self) -> (i: usize)
        ensures
            i == self@.cursor,
    {
        self.cursor
    }

    /// The file under the cursor.
    pub fn current(&self) -> (file: FileId)
        requires
            self@.wf(),
        ensures
            file == self@.current(),
    {
        self.files[self.cursor]
    }

    pub fn set_cursor(&mut self, index: usize)
        requires
            old(self)@.wf(),
            index < old(self)@.files.len(),
        ensures
            final(self)@ == old(self)@.at(index as int),
            final(self)@.wf(),
    {
        self.cursor = index;
    }

    /// The index one step ahead, wrapping around.
    pub fn next_index(&self) -> (i: usize)
        requires
            self@.wf(),
        ensures
            i == self@.next_index(),
            i < self@.files.len(),
    {
        proof {
            lemma_wrap(self.cursor as int, 1, self@.files.len() as int);
        }
        if self.cursor == self.files.len() - 1 {
            0
        } else {
            self.cursor + 1
        }
    }

    /// The index one step back, wrapping around.
    pub fn prev_index(&self) -> (i: usize)
        requires
            self@.wf(),
        ensures
            i == self@.prev_index(),
            i < self@.files.len(),
    {
        proof {
            lemma_wrap(self.cursor as int, 1, self@.files.len() as int);
        }
        if self.cursor == 0 {
            self.files.len() - 1
        } else {
            self.cursor - 1
        }
    }

    /// Steps between the cursor and `file`, going whichever way around the
    /// listing is shorter.
    pub fn distance(&self, file: FileId) -> (steps: Option<usize>)
        requires
            self@.wf(),
        ensures
            steps == self@.distance(file),
    {
        match find_file(&self.files, file) {
            Some(i) => {
                let straight: usize = if i >= self.cursor {
                    i - self.cursor
                } else {
                    self.cursor - i
                };
                let around: usize = self.files.len() - straight;
                if straight <= around {
                    Some(straight)
                } else {
                    Some(around)
                }
            },
            None => None,
        }
    }

    /// The files within `depth` steps of the cursor, nearest first.
    pub fn peek_around(&self, depth: usize) -> (files: Vec<FileId>)
        requires
            self@.wf(),
        ensures
            files@ == self@.around(depth as nat),
    {
        let n: usize = self.files.len();
        let mut out: Vec<FileId> = Vec::new();
        let reach: usize = if depth < n / 2 {
            depth
        } else {
            n / 2
        };
        let mut d: usize = 0;
        while d < reach
            invariant
                self@.wf(),
                n == self@.files.len(),
                d <= reach <= n / 2,
                out@ == self@.around(d as nat),
            decreases reach - d,
        {
            d = d + 1;
            let ahead: usize = if d < n - self.cursor {
                self.cursor + d
            } else {
                d - (n - self.cursor)
            };
            let behind: usize = if d <= self.cursor {
                self.cursor - d
            } else {
                self.cursor + (n - d)
            };
            proof {
                lemma_wrap(self.cursor as int, d as int, n as int);
            }
            out.push(self.files[ahead]);
            if d < n - d {
                out.push(self.files[behind]);
            }
        }
        proof {
            lemma_around_saturates(self@, reach as nat, depth as nat);
        }
        out
    }

    /// Swap in a reordered or rescanned listing.
    pub fn replace_files(&mut self, files: Vec<FileId>)
        requires
            old(self)@.wf(),
        ensures
            final(self)@ == old(self)@.replaced(files@),
            final(self)@.wf(),
    {
        if files.len() > 0 {
            let current = self.current();
            let cursor: usize = match find_file(&files, current) {
                Some(i) => i,
                None => 0,
            };
            self.files = files;
            self.cursor = cursor;
        }
    }

    /// Drop `file` from the listing. `false` when that would leave nothing.
    pub fn remove(&mut self, file: FileId) -> (left: bool)
        requires
            old(self)@.wf(),
        ensures
            final(self)@ == old(self)@.without(file),
            final(self)@.wf(),
            left <==> !(old(self)@.files.len() == 1 && old(self)@.files[0] == file),
    {
        match find_file(&self.files, file) {
            Some(i) => {
                if self.files.len() == 1 {
                    return false;
                }
                let last: bool = self.cursor == self.files.len() - 1;
                let _ = self.files.remove(i);
                if i < self.cursor || last {
                    self.cursor = self.cursor - 1;
                }
                true
            },
            None => true,
        }
    }

    /// The file `from` is now called `to`.
    pub fn rename(&mut self, from: FileId, to: FileId)
        requires
            old(self)@.wf(),
        ensures
            final(self)@ == old(self)@.renamed(from, to),
            final(self)@.files.len() == old(self)@.files.len(),
            final(self)@.wf(),
    {
        match find_file(&self.files, from) {
            Some(i) => {
                self.files.set(i, to);
            },
            None => {},
        }
    }
}

proof fn lemma_wrap(cursor: int, d: int, n: int)
    requires
        0 <= cursor < n,
        1 <= d <= n,
    ensures
        (cursor + d) % n == if d < n - cursor {
            cursor + d
        } else {
            d - (n - cursor)
        },
        (cursor + n - d) % n == if d <= cursor {
            cursor - d
        } else {
            cursor + (n - d)
        },
{
    if d < n - cursor {
        assert((cursor + d) % n == cursor + d) by (nonlinear_arith)
            requires
                0 <= cursor + d < n,
        ;
    } else {
        assert((cursor + d) % n == cursor + d - n) by (nonlinear_arith)
            requires
                n <= cursor + d < 2 * n,
        ;
    }
    if d <= cursor {
        assert((cursor + n - d) % n == cursor - d) by (nonlinear_arith)
            requires
                n <= cursor + n - d < 2 * n,
        ;
    } else {
        assert((cursor + n - d) % n == cursor + n - d) by (nonlinear_arith)
            requires
                0 <= cursor + n - d < n,
        ;
    }
}

proof fn lemma_around_saturates(nav: NavModel, reach: nat, depth: nat)
    requires
        nav.wf(),
        reach <= depth,
        reach == depth || reach == nav.files.len() / 2,
    ensures
        nav.around(reach) == nav.around(depth),
    decreases depth,
{
    if reach < depth {
        lemma_around_saturates(nav, reach, (depth - 1) as nat);
    }
}

/// A step forward and a step back cancel out, in either order.
pub proof fn law_steps_cancel(nav: NavModel)
    requires
        nav.wf(),
    ensures
        nav.at(nav.next_index()).prev_index() == nav.cursor,
        nav.at(nav.prev_index()).next_index() == nav.cursor,
{
    let n = nav.files.len() as int;
    lemma_wrap(nav.cursor, 1, n);
    lemma_wrap(nav.next_index(), 1, n);
    lemma_wrap(nav.prev_index(), 1, n);
    if nav.cursor == 0 {
        assert((0 + n - 1) % n == n - 1) by (nonlinear_arith)
            requires
                n > 0,
        ;
    }
}

/// Every neighbor handed out by `around` is listed at most `depth` steps from
/// the cursor.
pub proof fn law_around_stays_near(nav: NavModel, depth: nat, k: int)
    requires
        nav.wf(),
        0 <= k < nav.around(depth).len(),
    ensures
        exists|i: int|
            0 <= i < nav.files.len() && #[trigger] nav.files[i] == nav.around(depth)[k]
                && 1 <= nav.steps_to(i) <= depth,
    decreases depth,
{
    if depth > 0 {
        let nearer = nav.around((depth - 1) as nat);
        if k < nearer.len() {
            law_around_stays_near(nav, (depth - 1) as nat, k);
            let i = choose|i: int|
                0 <= i < nav.files.len() && #[trigger] nav.files[i] == nearer[k]
                    && 1 <= nav.steps_to(i) <= depth - 1;
            assert(nav.files[i] == nav.around(depth)[k]);
        } else {
            let n = nav.files.len() as int;
            lemma_wrap(nav.cursor, depth as int, n);
            let ahead = (nav.cursor + depth) % n;
            let behind = (nav.cursor + n - depth) % n;
            if k == nearer.len() {
                assert(nav.files[ahead] == nav.around(depth)[k]);
            } else {
                assert(nav.files[behind] == nav.around(depth)[k]);
            }
        }
    }
}

} // verus!
