//! Paths: the table that numbers them, and what their text says.
use crate::files::FileId;
use vstd::prelude::*;
use vstd::string::*;

verus! {

/// Where a listing's bytes come from.
#[derive(Clone, Copy, PartialEq, Eq, Structural, Debug)]
pub enum Source {
    /// Files on disk.
    Fs,
    /// Entries of the archive with this id.
    Archive(FileId),
}

/// One numbered path.
pub struct PathEntry {
    pub source: Source,
    pub path: String,
    /// Whether it is played rather than decoded as an image, by its extension.
    pub video: bool,
}

/// Numbers the paths of every source, so the rest of the library can speak of
/// files by id.
pub struct PathTable {
    pub entries: Vec<PathEntry>,
    /// How the system writes its paths.
    pub style: PathStyle,
}

/// What a [`PathTable`] holds.
pub struct PathsModel {
    pub entries: Seq<PathEntry>,
    pub style: PathStyle,
}

/// How a system writes its paths. Their text is in normal form: no empty and no
/// current-directory parts but at the start.
#[derive(Clone, Copy, PartialEq, Eq, Structural, Debug)]
pub enum PathStyle {
    /// Slashes separate.
    Unix,
    /// Slashes and backslashes separate, and a path may start at a drive.
    Windows,
}

impl PathEntry {
    pub open spec fn names(self, source: Source, path: Seq<char>) -> bool {
        self.source == source && self.path@ == path
    }
}

/// No path of a source is numbered twice.
pub open spec fn distinct(paths: PathsModel) -> bool {
    let entries = paths.entries;
    forall|i: int, j: int|
        #![trigger entries[i], entries[j]]
        0 <= i < j < entries.len() ==> !entries[i].names(entries[j].source, entries[j].path@)
}

pub open spec fn is_video(paths: PathsModel, file: FileId) -> bool {
    file < paths.entries.len() && paths.entries[file as int].video
}

/// The text of `file`'s path, empty for a number never handed out.
pub open spec fn path_text(paths: PathsModel, file: FileId) -> Seq<char> {
    if file < paths.entries.len() {
        paths.entries[file as int].path@
    } else {
        Seq::empty()
    }
}

/// `path` numbered: a known path keeps its number and the table, a new one
/// gets the next number.
pub open spec fn interned(
    before: PathsModel,
    after: PathsModel,
    source: Source,
    path: Seq<char>,
    file: Option<FileId>,
) -> bool {
    match file {
        Some(f) => {
            &&& f < after.entries.len()
            &&& after.entries[f as int].names(source, path)
            &&& after.style == before.style
            &&& if f < before.entries.len() {
                after == before
            } else {
                &&& f == before.entries.len()
                &&& after.entries.len() == before.entries.len() + 1
                &&& before.entries.is_prefix_of(after.entries)
                &&& after.entries[f as int].video == has_extension(
                    name_part(path, before.style),
                    video_extensions(),
                )
                &&& forall|i: int|
                    0 <= i < before.entries.len() ==> !#[trigger] before.entries[i].names(
                        source,
                        path,
                    )
            }
        },
        None => after == before && before.entries.len() == u64::MAX,
    }
}

impl View for PathTable {
    type V = PathsModel;

    open spec fn view(&self) -> PathsModel {
        PathsModel { entries: self.entries@, style: self.style }
    }
}

impl PathTable {
    pub fn new(style: PathStyle) -> (table: PathTable)
        ensures
            table@ == (PathsModel { entries: Seq::empty(), style }),
            distinct(table@),
    {
        PathTable { entries: Vec::new(), style }
    }

    /// The number of `path` in `source`, handing out the next one if it has
    /// none yet. `None` only when every number is taken.
    pub fn intern(&mut self, source: Source, path: &str) -> (file: Option<FileId>)
        ensures
            distinct(old(self)@) ==> distinct(final(self)@),
            interned(old(self)@, final(self)@, source, path@, file),
    {
        let mut i: usize = 0;
        while i < self.entries.len()
            invariant
                i <= self.entries@.len(),
                *self == *old(self),
                forall|j: int| 0 <= j < i ==> !#[trigger] self.entries@[j].names(source, path@),
            decreases self.entries@.len() - i,
        {
            let entry = &self.entries[i];
            if entry.source == source && text_eq(entry.path.as_str(), path) {
                return Some(i as u64);
            }
            i = i + 1;
        }
        if i as u64 == u64::MAX {
            return None;
        }
        let video: bool = is_video_path(path, self.style);
        self.entries.push(PathEntry { source, path: path.to_owned(), video });
        Some(i as u64)
    }

    /// Whether `file` is a video.
    pub fn is_video(&self, file: FileId) -> (yes: bool)
        ensures
            yes == is_video(self@, file),
    {
        if file < self.entries.len() as u64 {
            self.entries[file as usize].video
        } else {
            false
        }
    }

    /// The path of `file`.
    pub fn path(&self, file: FileId) -> (path: String)
        ensures
            path@ == path_text(self@, file),
    {
        if file < self.entries.len() as u64 {
            self.entries[file as usize].path.clone()
        } else {
            String::new()
        }
    }
}

/// Two numbers handed out by the table are equal exactly when they name the
/// same path of the same source.
pub proof fn law_ids_name_paths(paths: PathsModel, a: FileId, b: FileId)
    requires
        distinct(paths),
        a < paths.entries.len(),
        b < paths.entries.len(),
    ensures
        a == b <==> paths.entries[a as int].names(
            paths.entries[b as int].source,
            paths.entries[b as int].path@,
        ),
{
}

/// Whether two texts hold the same characters.
pub fn text_eq(a: &str, b: &str) -> (yes: bool)
    ensures
        yes == (a@ == b@),
{
    let left: String = a.to_owned();
    let right: String = b.to_owned();
    left == right
}

/// The characters of `text`.
pub fn chars_of(text: &str) -> (chars: Vec<char>)
    ensures
        chars@ == text@,
{
    let mut out: Vec<char> = Vec::new();
    let iter = text.chars();
    for c in it: iter
        invariant
            out@ == it.seq().take(it.index@),
            it.seq() == text@,
    {
        out.push(c);
        assert(out@ =~= it.seq().take(it.index@ + 1));
    }
    assert(out@ =~= text@);
    out
}

/// The parts of a text, one after the other.
pub fn join3(a: &str, b: &str, c: &str) -> (text: String)
    ensures
        text@ == a@ + b@ + c@,
{
    let mut text: String = a.to_owned();
    text.append(b);
    text.append(c);
    text
}

pub open spec fn is_separator(c: char, style: PathStyle) -> bool {
    c == '/' || (style is Windows && c == '\\')
}

/// Where the last character satisfying `p` stands, or -1.
pub open spec fn last_where(text: Seq<char>, p: spec_fn(char) -> bool) -> int
    decreases text.len(),
{
    if text.len() == 0 {
        -1
    } else if p(text.last()) {
        text.len() - 1
    } else {
        last_where(text.drop_last(), p)
    }
}

proof fn lemma_last_where(text: Seq<char>, p: spec_fn(char) -> bool, i: int)
    requires
        -1 <= i < text.len(),
        i >= 0 ==> p(text[i]),
        forall|j: int| i < j < text.len() ==> !p(#[trigger] text[j]),
    ensures
        last_where(text, p) == i,
    decreases text.len(),
{
    if text.len() > 0 && i < text.len() - 1 {
        let shorter = text.drop_last();
        assert forall|j: int| i < j < shorter.len() implies !p(#[trigger] shorter[j]) by {
            assert(shorter[j] == text[j]);
        }
        lemma_last_where(shorter, p, i);
    }
}

/// The last part of a path: what follows its last separator.
pub open spec fn name_part(path: Seq<char>, style: PathStyle) -> Seq<char> {
    path.subrange(last_where(path, |c: char| is_separator(c, style)) + 1, path.len() as int)
}

/// Whether the separator at `i` belongs to the root: it leads the path, or
/// follows its drive.
pub open spec fn at_root(path: Seq<char>, i: int, style: PathStyle) -> bool {
    i == 0 || (style is Windows && i == 2 && path[1] == ':')
}

/// The directory part of a path: what precedes its last separator, the root
/// itself for a file there, nothing for a bare name.
pub open spec fn dir_part(path: Seq<char>, style: PathStyle) -> Seq<char> {
    let i = last_where(path, |c: char| is_separator(c, style));
    if i < 0 {
        Seq::empty()
    } else if at_root(path, i, style) {
        path.subrange(0, i + 1)
    } else {
        path.subrange(0, i)
    }
}

/// What follows the last dot of a file name, unless that dot leads the name.
pub open spec fn extension_part(name: Seq<char>) -> Option<Seq<char>> {
    let i = last_where(name, |c: char| c == '.');
    if i <= 0 {
        None
    } else {
        Some(name.subrange(i + 1, name.len() as int))
    }
}

/// One past the last separator of `chars`.
fn after_separator(chars: &Vec<char>, style: PathStyle) -> (at: usize)
    ensures
        at == last_where(chars@, |c: char| is_separator(c, style)) + 1,
        at <= chars@.len(),
{
    let mut i: usize = chars.len();
    let ghost p = |c: char| is_separator(c, style);
    while i > 0
        invariant
            i <= chars@.len(),
            p == (|c: char| is_separator(c, style)),
            forall|j: int| i <= j < chars@.len() ==> !p(#[trigger] chars@[j]),
        decreases i,
    {
        let c = chars[i - 1];
        if c == '/' || (style == PathStyle::Windows && c == '\\') {
            proof {
                lemma_last_where(chars@, p, i - 1);
            }
            return i;
        }
        i = i - 1;
    }
    proof {
        lemma_last_where(chars@, p, -1);
    }
    0
}

/// The last part of a path.
pub fn file_name(path: &str, style: PathStyle) -> (name: String)
    ensures
        name@ == name_part(path@, style),
{
    let chars = chars_of(path);
    let at: usize = after_separator(&chars, style);
    path.substring_char(at, chars.len()).to_owned()
}

/// The directory part of a path.
pub fn parent(path: &str, style: PathStyle) -> (dir: String)
    ensures
        dir@ == dir_part(path@, style),
{
    let chars = chars_of(path);
    let at: usize = after_separator(&chars, style);
    if at == 0 {
        String::new()
    } else if at == 1 || (style == PathStyle::Windows && at == 3 && chars[1] == ':') {
        path.substring_char(0, at).to_owned()
    } else {
        path.substring_char(0, at - 1).to_owned()
    }
}

/// The path of a file called `name` next to `path`.
pub open spec fn sibling_text(path: Seq<char>, name: Seq<char>, style: PathStyle) -> Seq<char> {
    path.subrange(0, last_where(path, |c: char| is_separator(c, style)) + 1) + name
}

/// The path of a file called `name` in the directory of `path`.
pub fn sibling(path: &str, name: &str, style: PathStyle) -> (text: String)
    ensures
        text@ == sibling_text(path@, name@, style),
{
    let chars = chars_of(path);
    let at: usize = after_separator(&chars, style);
    let mut text: String = path.substring_char(0, at).to_owned();
    text.append(name);
    text
}

/// A letter in lower case; any other character as it is.
pub open spec fn lower(c: char) -> char {
    if 'A' <= c <= 'Z' {
        ((c as u32 + 32) as u8) as char
    } else {
        c
    }
}

/// Equality up to the case of the letters A to Z.
pub open spec fn same_ignoring_case(a: Seq<char>, b: Seq<char>) -> bool {
    a.len() == b.len() && forall|i: int|
        0 <= i < a.len() ==> lower(#[trigger] a[i]) == lower(b[i])
}

fn lower_char(c: char) -> (l: char)
    ensures
        l == lower(c),
{
    if 'A' <= c && c <= 'Z' {
        ((c as u32 + 32) as u8) as char
    } else {
        c
    }
}

fn eq_ignoring_case(a: &Vec<char>, from: usize, b: &str) -> (yes: bool)
    requires
        from <= a@.len(),
    ensures
        yes == same_ignoring_case(a@.subrange(from as int, a@.len() as int), b@),
{
    let other = chars_of(b);
    let ghost tail = a@.subrange(from as int, a@.len() as int);
    let n: usize = a.len();
    if n - from != other.len() {
        return false;
    }
    let mut i: usize = 0;
    while i < other.len()
        invariant
            from <= n,
            n == a@.len(),
            n - from == other@.len(),
            other@ == b@,
            tail == a@.subrange(from as int, a@.len() as int),
            forall|j: int| 0 <= j < i ==> lower(#[trigger] tail[j]) == lower(b@[j]),
        decreases other@.len() - i,
    {
        if lower_char(a[from + i]) != lower_char(other[i]) {
            assert(tail[i as int] == a@[from + i]);
            return false;
        }
        assert(tail[i as int] == a@[from + i]);
        i = i + 1;
    }
    true
}

/// Whether `ext` is one of `list`, up to case.
pub open spec fn listed(ext: Seq<char>, list: Seq<&str>) -> bool {
    exists|k: int| 0 <= k < list.len() && same_ignoring_case(ext, (#[trigger] list[k])@)
}

fn any_listed(chars: &Vec<char>, from: usize, list: &Vec<&str>) -> (yes: bool)
    requires
        from <= chars@.len(),
    ensures
        yes == listed(chars@.subrange(from as int, chars@.len() as int), list@),
{
    let mut k: usize = 0;
    while k < list.len()
        invariant
            from <= chars@.len(),
            k <= list@.len(),
            forall|j: int|
                0 <= j < k ==> !same_ignoring_case(
                    chars@.subrange(from as int, chars@.len() as int),
                    (#[trigger] list@[j])@,
                ),
        decreases list@.len() - k,
    {
        if eq_ignoring_case(chars, from, list[k]) {
            return true;
        }
        k = k + 1;
    }
    false
}

/// The extensions of the images and videos the viewer lists.
pub open spec fn media_extensions() -> Seq<&'static str> {
    seq![
        "png", "jpg", "jpeg", "gif", "webp", "bmp", "tif", "tiff", "ico", "avif", "mp4", "mkv",
        "webm", "mov", "avi",
    ]
}

/// The extensions of the archives the viewer opens.
pub open spec fn archive_extensions() -> Seq<&'static str> {
    seq!["zip", "cbz", "tar", "gz", "tgz", "7z", "cb7", "rar", "cbr"]
}

/// The extensions of the videos among the listed media.
pub open spec fn video_extensions() -> Seq<&'static str> {
    seq!["mp4", "mkv", "webm", "mov", "avi"]
}

/// Whether the file at `path` is a video, by its extension.
pub fn is_video_path(path: &str, style: PathStyle) -> (yes: bool)
    ensures
        yes == has_extension(name_part(path@, style), video_extensions()),
{
    let name = file_name(path, style);
    let chars = chars_of(name.as_str());
    let list = vec!["mp4", "mkv", "webm", "mov", "avi"];
    assert(list@ =~= video_extensions());
    name_has_extension(&chars, &list)
}

/// The extensions of the images and videos the viewer lists.
pub fn supported_extensions() -> (list: Vec<&'static str>)
    ensures
        list@ == media_extensions(),
{
    let list = vec![
        "png", "jpg", "jpeg", "gif", "webp", "bmp", "tif", "tiff", "ico", "avif", "mp4", "mkv",
        "webm", "mov", "avi",
    ];
    assert(list@ =~= media_extensions());
    list
}

/// The extensions of the archives the viewer opens.
pub fn archive_filter() -> (list: Vec<&'static str>)
    ensures
        list@ == archive_extensions(),
{
    let list = vec!["zip", "cbz", "tar", "gz", "tgz", "7z", "cb7", "rar", "cbr"];
    assert(list@ =~= archive_extensions());
    list
}

pub open spec fn has_extension(name: Seq<char>, list: Seq<&str>) -> bool {
    match extension_part(name) {
        Some(ext) => listed(ext, list),
        None => false,
    }
}

fn name_has_extension(chars: &Vec<char>, list: &Vec<&str>) -> (yes: bool)
    ensures
        yes == has_extension(chars@, list@),
{
    let mut i: usize = chars.len();
    let ghost p = |c: char| c == '.';
    while i > 0
        invariant
            i <= chars@.len(),
            p == (|c: char| c == '.'),
            forall|j: int| i <= j < chars@.len() ==> !p(#[trigger] chars@[j]),
        decreases i,
    {
        if chars[i - 1] == '.' {
            proof {
                lemma_last_where(chars@, p, i - 1);
            }
            return i > 1 && any_listed(chars, i, list);
        }
        i = i - 1;
    }
    proof {
        lemma_last_where(chars@, p, -1);
    }
    false
}

/// Whether the path names an archive.
pub fn is_archive(path: &str, style: PathStyle) -> (yes: bool)
    ensures
        yes == has_extension(name_part(path@, style), archive_extensions()),
{
    let name = file_name(path, style);
    let chars = chars_of(name.as_str());
    let list = archive_filter();
    name_has_extension(&chars, &list)
}

/// Whether the file name `name` carries a listed media extension.
pub fn is_supported_name(name: &str) -> (yes: bool)
    ensures
        yes == has_extension(name@, media_extensions()),
{
    let chars = chars_of(name);
    let list = supported_extensions();
    name_has_extension(&chars, &list)
}

/// White space, as Unicode defines it.
pub open spec fn is_white(c: char) -> bool {
    let u = c as u32;
    ||| 0x9 <= u <= 0xd
    ||| u == 0x20
    ||| u == 0x85
    ||| u == 0xa0
    ||| u == 0x1680
    ||| 0x2000 <= u <= 0x200a
    ||| u == 0x2028
    ||| u == 0x2029
    ||| u == 0x202f
    ||| u == 0x205f
    ||| u == 0x3000
}

fn white(c: char) -> (yes: bool)
    ensures
        yes == is_white(c),
{
    let u: u32 = c as u32;
    (0x9 <= u && u <= 0xd) || u == 0x20 || u == 0x85 || u == 0xa0 || u == 0x1680 || (0x2000 <= u
        && u <= 0x200a) || u == 0x2028 || u == 0x2029 || u == 0x202f || u == 0x205f || u == 0x3000
}

/// `text` without the white space at its ends.
pub open spec fn trimmed(text: Seq<char>) -> Seq<char>
    decreases text.len(),
{
    if text.len() == 0 {
        text
    } else if is_white(text.first()) {
        trimmed(text.drop_first())
    } else if is_white(text.last()) {
        trimmed(text.drop_last())
    } else {
        text
    }
}

/// `text` without the white space at its ends.
pub fn trim(text: &str) -> (out: String)
    ensures
        out@ == trimmed(text@),
{
    let chars = chars_of(text);
    let mut start: usize = 0;
    let mut end: usize = chars.len();
    assert(chars@.subrange(0, chars@.len() as int) =~= chars@);
    while start < end && white(chars[start])
        invariant
            start <= end <= chars@.len(),
            trimmed(chars@.subrange(start as int, end as int)) == trimmed(chars@),
        decreases end - start,
    {
        assert(chars@.subrange(start as int, end as int).drop_first() =~= chars@.subrange(
            start + 1,
            end as int,
        ));
        start = start + 1;
    }
    while start < end && white(chars[end - 1])
        invariant
            start <= end <= chars@.len(),
            start < end ==> !is_white(chars@[start as int]),
            trimmed(chars@.subrange(start as int, end as int)) == trimmed(chars@),
        decreases end - start,
    {
        assert(chars@.subrange(start as int, end as int).drop_last() =~= chars@.subrange(
            start as int,
            end - 1,
        ));
        end = end - 1;
    }
    text.substring_char(start, end).to_owned()
}

/// Trimmed text has nothing left to trim.
pub proof fn lemma_trimmed_twice(text: Seq<char>)
    ensures
        trimmed(trimmed(text)) == trimmed(text),
    decreases text.len(),
{
    if text.len() > 0 {
        if is_white(text.first()) {
            lemma_trimmed_twice(text.drop_first());
        } else if is_white(text.last()) {
            lemma_trimmed_twice(text.drop_last());
        }
    }
}

} // verus!
