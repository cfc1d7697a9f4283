//! File system paths as text: the few operations of `std::path` that the library needs.
//!
//! Paths are held as `String`s. What `std::path` computes from a path's text is named by
//! a specification function; what it reads from the disk is not described at all.

use std::path::Path;
use vstd::prelude::*;

verus! {

/// `base` with `child` adjoined, as `Path::join` does it in the platform's path syntax.
pub uninterp spec fn joined_path(base: Seq<char>, child: Seq<char>) -> Seq<char>;

/// `path` with its extension replaced by `extension`, as `Path::with_extension` does it.
pub uninterp spec fn extension_replaced(path: Seq<char>, extension: Seq<char>) -> Seq<char>;

/// The extension of `path`, as `Path::extension` finds it.
pub uninterp spec fn extension_of(path: Seq<char>) -> Option<Seq<char>>;

/// The final component of `path`, as `Path::file_name` finds it.
pub uninterp spec fn file_name_of(path: Seq<char>) -> Option<Seq<char>>;

/// The final component of `path` without its extension, as `Path::file_stem` finds it.
pub uninterp spec fn file_stem_of(path: Seq<char>) -> Option<Seq<char>>;

/// `path` with its final component replaced by `file_name`, as `Path::with_file_name`
/// does it.
pub uninterp spec fn file_name_replaced(path: Seq<char>, file_name: Seq<char>) -> Seq<char>;

/// Whether `text` holds no path separator of any platform.
pub open spec fn separator_free(text: Seq<char>) -> bool {
    forall|i: int| 0 <= i < text.len() ==> text[i] != '/' && text[i] != '\\'
}

/// `Path::join`: the path that `child` names seen from `base`.
#[verifier::external_body]
pub(crate) fn path_join(base: &str, child: &str) -> (joined: String)
    ensures
        joined@ == joined_path(base@, child@),
{
    Path::new(base).join(child).to_string_lossy().into_owned()
}

/// `Path::with_extension`: `path` with another extension. The call panics on an
/// extension that holds a path separator.
#[verifier::external_body]
pub(crate) fn path_with_extension(path: &str, extension: &str) -> (changed: String)
    requires
        separator_free(extension@),
    ensures
        changed@ == extension_replaced(path@, extension@),
{
    Path::new(path).with_extension(extension).to_string_lossy().into_owned()
}

/// `Path::with_file_name`: `path` with another final component.
#[verifier::external_body]
pub(crate) fn path_with_file_name(path: &str, file_name: &str) -> (changed: String)
    ensures
        changed@ == file_name_replaced(path@, file_name@),
{
    Path::new(path).with_file_name(file_name).to_string_lossy().into_owned()
}

/// `Path::extension`: the extension of the final component, if it has one.
#[verifier::external_body]
pub(crate) fn path_extension(path: &str) -> (found: Option<String>)
    ensures
        crate::events::optional_text(found) == extension_of(path@),
{
    Path::new(path).extension().map(|e| e.to_string_lossy().into_owned())
}

/// `Path::file_name`: the final component, if there is one.
#[verifier::external_body]
pub(crate) fn path_file_name(path: &str) -> (found: Option<String>)
    ensures
        crate::events::optional_text(found) == file_name_of(path@),
{
    Path::new(path).file_name().map(|n| n.to_string_lossy().into_owned())
}

/// `Path::file_stem`: the final component without its extension, if there is one.
#[verifier::external_body]
pub(crate) fn path_file_stem(path: &str) -> (found: Option<String>)
    ensures
        crate::events::optional_text(found) == file_stem_of(path@),
{
    Path::new(path).file_stem().map(|n| n.to_string_lossy().into_owned())
}

/// `Path::exists`: whether the disk holds something at `path` right now.
#[verifier::external_body]
pub(crate) fn path_exists(path: &str) -> (present: bool) {
    Path::new(path).exists()
}

/// `Path::is_file`: whether the disk holds a regular file at `path` right now.
#[verifier::external_body]
pub(crate) fn path_is_file(path: &str) -> (present: bool) {
    Path::new(path).is_file()
}

/// `Path::is_dir`: whether the disk holds a directory at `path` right now.
#[verifier::external_body]
pub(crate) fn path_is_dir(path: &str) -> (present: bool) {
    Path::new(path).is_dir()
}

} // verus!
