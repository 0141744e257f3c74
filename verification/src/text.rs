//! Text shown to the user.
use crate::files::FileId;
use crate::paths::{file_name, join3, name_part, path_text, Source};
use crate::state::{Shared, SharedModel};
use vstd::prelude::*;
use vstd::string::*;

verus! {

/// The decimal digit for `d` below ten.
pub open spec fn digit(d: int) -> char {
    if d == 0 {
        '0'
    } else if d == 1 {
        '1'
    } else if d == 2 {
        '2'
    } else if d == 3 {
        '3'
    } else if d == 4 {
        '4'
    } else if d == 5 {
        '5'
    } else if d == 6 {
        '6'
    } else if d == 7 {
        '7'
    } else if d == 8 {
        '8'
    } else {
        '9'
    }
}

/// `n` written in decimal.
pub open spec fn decimal_text(n: nat) -> Seq<char>
    decreases n,
{
    if n < 10 {
        seq![digit(n as int)]
    } else {
        decimal_text(n / 10).push(digit((n % 10) as int))
    }
}

fn digit_text(d: u64) -> (text: &'static str)
    requires
        d < 10,
    ensures
        text@ == seq![digit(d as int)],
{
    proof {
        reveal_strlit("0");
        reveal_strlit("1");
        reveal_strlit("2");
        reveal_strlit("3");
        reveal_strlit("4");
        reveal_strlit("5");
        reveal_strlit("6");
        reveal_strlit("7");
        reveal_strlit("8");
        reveal_strlit("9");
    }
    let text = if d == 0 {
        "0"
    } else if d == 1 {
        "1"
    } else if d == 2 {
        "2"
    } else if d == 3 {
        "3"
    } else if d == 4 {
        "4"
    } else if d == 5 {
        "5"
    } else if d == 6 {
        "6"
    } else if d == 7 {
        "7"
    } else if d == 8 {
        "8"
    } else {
        "9"
    };
    assert(text@ =~= seq![digit(d as int)]);
    text
}

/// `n` written in decimal.
pub fn decimal(n: u64) -> (text: String)
    ensures
        text@ == decimal_text(n as nat),
    decreases n,
{
    if n < 10 {
        digit_text(n).to_owned()
    } else {
        let mut text = decimal(n / 10);
        let last = digit_text(n % 10);
        let ghost head = text@;
        text.append(last);
        assert(text@ =~= head.push(digit((n % 10) as int)));
        text
    }
}

/// The name of `file`: the last part of its path.
pub open spec fn name_text(s: SharedModel, file: FileId) -> Seq<char> {
    name_part(path_text(s.paths, file), s.paths.style)
}

/// The name of `file`.
pub fn name_of(shared: &Shared, file: FileId) -> (name: String)
    ensures
        name@ == name_text(shared@, file),
{
    let path = shared.paths.path(file);
    file_name(path.as_str(), shared.paths.style)
}

/// The message shown in place of a file that failed to load.
pub open spec fn load_error_text(s: SharedModel, file: FileId, err: Seq<char>) -> Seq<char> {
    name_text(s, file) + "\n\n"@ + err
}

pub fn load_error(shared: &Shared, file: FileId, err: &str) -> (text: String)
    ensures
        text@ == load_error_text(shared@, file, err@),
{
    let name = name_of(shared, file);
    join3(name.as_str(), "\n\n", err)
}

/// The notice for an animation no texture can hold.
pub open spec fn too_large_text(width: u32, height: u32) -> Seq<char> {
    "Animation is too large to display ("@ + decimal_text(width as nat) + "x"@ + decimal_text(
        height as nat,
    ) + ")"@
}

pub fn too_large(width: u32, height: u32) -> (text: String)
    ensures
        text@ == too_large_text(width, height),
{
    let w = decimal(width as u64);
    let h = decimal(height as u64);
    let head = join3("Animation is too large to display (", w.as_str(), "x");
    join3(head.as_str(), h.as_str(), ")")
}

/// The path of `file` as it is copied: on disk its own, in an archive the
/// archive's and its own inside.
pub open spec fn copied_text(s: SharedModel, source: Source, file: FileId) -> Seq<char> {
    match source {
        Source::Fs => path_text(s.paths, file),
        Source::Archive(archive) => path_text(s.paths, archive) + "/"@ + path_text(s.paths, file),
    }
}

/// The path of `file` as it is put on the clipboard.
pub fn copied_path(shared: &Shared, source: Source, file: FileId) -> (text: String)
    ensures
        text@ == copied_text(shared@, source, file),
{
    let path = shared.paths.path(file);
    match source {
        Source::Fs => path,
        Source::Archive(archive) => {
            let outer = shared.paths.path(archive);
            join3(outer.as_str(), "/", path.as_str())
        },
    }
}

} // verus!
