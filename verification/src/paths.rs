//! File names of blueprints and their autosave copies.
//!
//! Path syntax differs between platforms (which characters separate
//! components, what a prefix is). `/` separates components on every
//! platform, so the calls into `std::path` state their results for paths made
//! of components joined by `/` that end in a plain file name, and hold no `\`,
//! no `:` and no `//` (which some platforms read as a prefix).

use vstd::prelude::*;

verus! {

/// A path that is a single ordinary file name on every platform: not empty,
/// not `.` or `..`, and free of `/`, `\` and `:`.
pub open spec fn is_plain_file_name(p: Seq<char>) -> bool {
    &&& p.len() > 0
    &&& p != seq!['.']
    &&& p != seq!['.', '.']
    &&& forall|i: int| 0 <= i < p.len() ==> p[i] != '/' && p[i] != '\\' && p[i] != ':'
}

/// `i` is the position of the last `/` in `p`.
pub open spec fn is_last_slash(p: Seq<char>, i: int) -> bool {
    &&& 0 <= i < p.len()
    &&& p[i] == '/'
    &&& forall|j: int| i < j < p.len() ==> p[j] != '/'
}

/// The last component of a path: what follows its last `/`, or the whole
/// path when it has none.
pub open spec fn last_component(p: Seq<char>) -> Seq<char> {
    if exists|i: int| is_last_slash(p, i) {
        p.skip((choose|i: int| is_last_slash(p, i)) + 1)
    } else {
        p
    }
}

/// The directory part of a path: everything up to and including its last
/// `/`, or nothing when it has none.
pub open spec fn dir_part(p: Seq<char>) -> Seq<char> {
    if exists|i: int| is_last_slash(p, i) {
        p.take((choose|i: int| is_last_slash(p, i)) + 1)
    } else {
        Seq::empty()
    }
}

/// A path whose meaning is the same on every platform: components joined by
/// `/` (with or without a leading `/`), no `\`, no `:`, no `//`, and a last
/// component that is a plain file name.
pub open spec fn is_slash_path(p: Seq<char>) -> bool {
    &&& forall|i: int| 0 <= i < p.len() ==> p[i] != '\\' && p[i] != ':'
    &&& forall|i: int| #![trigger p[i]] 0 <= i < p.len() - 1 ==> !(p[i] == '/' && p[i + 1] == '/')
    &&& is_plain_file_name(last_component(p))
}

/// `i` is the position of the last `.` in `p`.
pub open spec fn is_last_dot(p: Seq<char>, i: int) -> bool {
    &&& 0 <= i < p.len()
    &&& p[i] == '.'
    &&& forall|j: int| i < j < p.len() ==> p[j] != '.'
}

/// The stem of a file name: the part before its last `.`, or the whole name
/// when it has no `.` or only a leading one (as in `.bashrc`).
pub open spec fn stem_of_name(p: Seq<char>) -> Seq<char> {
    if exists|i: int| is_last_dot(p, i) && i > 0 {
        p.take(choose|i: int| is_last_dot(p, i) && i > 0)
    } else {
        p
    }
}

/// Calls `Path::file_stem`, as text. For a `/`-joined path that ends in a
/// plain file name, the stem is that name before its last `.` (see
/// `stem_of_name`); for other paths (`\\`, `:`, `//`, a trailing `/`, `.`
/// or `..`) the result depends on the platform's path syntax and is not
/// stated here.
#[verifier::external_body]
pub(crate) fn path_file_stem(path: &str) -> (r: Option<String>)
    ensures
        is_slash_path(path@) ==> r is Some && r->0@ == stem_of_name(last_component(path@)),
{
    match std::path::Path::new(path).file_stem() {
        Some(stem) => Some(stem.to_string_lossy().into_owned()),
        None => None,
    }
}

/// Calls `Path::with_extension`, as text. For a `/`-joined path that ends in
/// a plain file name, and a non-empty extension, the result keeps the
/// directory part and puts the extension after the stem of the last
/// component; for other paths it depends on the platform's path syntax and is
/// not stated here. An extension holding a separator makes `std` panic, so it
/// is left out.
#[verifier::external_body]
pub(crate) fn path_with_extension(path: &str, ext: &str) -> (r: String)
    requires
        forall|i: int| 0 <= i < ext@.len() ==> ext@[i] != '/' && ext@[i] != '\\',
    ensures
        is_slash_path(path@) && ext@.len() > 0 ==> r@ == dir_part(path@) + stem_of_name(
            last_component(path@),
        ) + seq!['.'] + ext@,
{
    std::path::Path::new(path).with_extension(ext).to_string_lossy().into_owned()
}

/// The extension given to autosave copies.
pub open spec fn autosave_extension() -> Seq<char> {
    seq!['b', 'l', 'u', 'e', 'p', 'r', 'i', 'n', 't', '.', 'a', 'u', 't', 'o', 's', 'a', 'v', 'e']
}

/// The name of the autosave copy of the file at `p`: in the same directory,
/// with the extension `blueprint.autosave` in place of its own.
pub open spec fn autosave_name(p: Seq<char>) -> Seq<char> {
    dir_part(p) + stem_of_name(last_component(p)) + seq!['.'] + autosave_extension()
}

/// Where the autosave copy of a blueprint is kept: beside it, with the
/// extension `blueprint.autosave` in place of its own.
pub fn autosave_path(path: &str) -> (r: String)
    ensures
        is_slash_path(path@) ==> r@ == autosave_name(path@),
{
    let ext = "blueprint.autosave";
    proof {
        reveal_strlit("blueprint.autosave");
    }
    assert(ext@ =~= autosave_extension());
    let r = path_with_extension(path, ext);
    assert(is_slash_path(path@) ==> r@ =~= autosave_name(path@));
    r
}

} // verus!
