//! Entries of the operator-visible file system and the naming rules of uploads and
//! downloads.

use vstd::prelude::*;

use crate::events::optional_text;
use crate::paths::extension_of;
use crate::paths::file_name_of;
use crate::paths::file_name_replaced;
use crate::paths::file_stem_of;
use crate::paths::joined_path;
use crate::paths::path_exists;
use crate::paths::path_extension;
use crate::paths::path_file_name;
use crate::paths::path_file_stem;
use crate::paths::path_join;
use crate::paths::path_with_file_name;
use crate::text::decimal;
use crate::text::decimal_string;
use crate::text::decimal_string_u64;

verus! {

/// What kind of thing a path names.
#[derive(Copy, Clone, Debug, PartialEq, Eq, Structural)]
pub enum FileType {
    File,
    Directory,
    Unknown,
}

/// What the disk tells of a path.
#[derive(Copy, Clone, Debug, PartialEq, Eq, Structural)]
pub struct FileFacts {
    pub is_dir: bool,
    pub is_file: bool,
    /// The length in bytes, where the metadata can be read.
    pub len: Option<u64>,
    /// Creation time as a Unix timestamp, where the platform records it.
    pub created: Option<u64>,
    /// Modification time as a Unix timestamp, where the platform records it.
    pub modified: Option<u64>,
}

/// One entry of a directory listing, as a client sees it.
#[derive(Debug)]
pub struct FileEntry {
    pub name: String,
    pub file_stem: String,
    pub extension: Option<String>,
    pub path: String,
    pub size: Option<u64>,
    pub creation_time: Option<u64>,
    pub modification_time: Option<u64>,
    pub file_type: FileType,
}

/// The kind of thing that the disk's answers describe: a directory before a file, and
/// unknown where it is neither.
pub open spec fn file_type_of(is_dir: bool, is_file: bool) -> FileType {
    if is_dir {
        FileType::Directory
    } else if is_file {
        FileType::File
    } else {
        FileType::Unknown
    }
}

/// The characters of an optional text, or none where it is absent.
pub open spec fn text_or_empty(text: Option<Seq<char>>) -> Seq<char> {
    match text {
        Some(t) => t,
        None => Seq::<char>::empty(),
    }
}

/// Unwraps an optional text, giving the empty text where it is absent.
fn or_empty(text: Option<String>) -> (unwrapped: String)
    ensures
        unwrapped@ == text_or_empty(optional_text(text)),
{
    match text {
        Some(t) => t,
        None => String::new(),
    }
}

impl FileEntry {
    /// Builds the entry from the parts of a path and what the disk tells of it. Name
    /// and path are both the final component, empty where there is none; the size is
    /// given for files only.
    pub fn from_parts(
        file_name: Option<String>,
        file_stem: Option<String>,
        extension: Option<String>,
        facts: FileFacts,
    ) -> (entry: FileEntry)
        ensures
            entry.name@ == text_or_empty(optional_text(file_name)),
            entry.path@ == text_or_empty(optional_text(file_name)),
            entry.file_stem@ == text_or_empty(optional_text(file_stem)),
            optional_text(entry.extension) == optional_text(extension),
            entry.size == if facts.is_file {
                facts.len
            } else {
                None
            },
            entry.creation_time == facts.created,
            entry.modification_time == facts.modified,
            entry.file_type == file_type_of(facts.is_dir, facts.is_file),
    {
        let file_type: FileType = if facts.is_dir {
            FileType::Directory
        } else if facts.is_file {
            FileType::File
        } else {
            FileType::Unknown
        };
        let name: String = or_empty(file_name);
        FileEntry {
            path: name.clone(),
            name,
            size: if facts.is_file {
                facts.len
            } else {
                None
            },
            file_stem: or_empty(file_stem),
            extension,
            creation_time: facts.created,
            modification_time: facts.modified,
            file_type,
        }
    }

    /// Describes the thing at `path` from what the disk tells of it.
    pub fn describe(path: &str, facts: FileFacts) -> (entry: FileEntry)
        ensures
            entry.name@ == text_or_empty(file_name_of(path@)),
            entry.path@ == text_or_empty(file_name_of(path@)),
            entry.file_stem@ == text_or_empty(file_stem_of(path@)),
            optional_text(entry.extension) == extension_of(path@),
            entry.size == if facts.is_file {
                facts.len
            } else {
                None
            },
            entry.creation_time == facts.created,
            entry.modification_time == facts.modified,
            entry.file_type == file_type_of(facts.is_dir, facts.is_file),
    {
        FileEntry::from_parts(
            path_file_name(path),
            path_file_stem(path),
            path_extension(path),
            facts,
        )
    }
}

/// The name that an upload takes when its own name is taken: stem, an underscore, the
/// number of the attempt, a dot and the extension.
pub open spec fn numbered_name(stem: Seq<char>, attempt: nat, extension: Seq<char>) -> Seq<char> {
    stem + "_"@ + decimal(attempt) + "."@ + extension
}

/// Writes the name for the given attempt.
pub fn numbered_file_name(stem: &str, attempt: usize, extension: &str) -> (name: String)
    ensures
        name@ == numbered_name(stem@, attempt as nat, extension@),
{
    String::from_str(stem).concat("_").concat(decimal_string(attempt).as_str()).concat(".").concat(
        extension,
    )
}

/// The path that is tried for an upload named `name` into `directory` after `attempts`
/// names were found taken: its own for none, else the numbered one of that attempt.
/// There is none where the own name, being taken, has no stem or no extension to number.
pub open spec fn upload_candidate(directory: Seq<char>, name: Seq<char>, attempts: nat) -> Option<
    Seq<char>,
> {
    let own = joined_path(directory, name);
    if attempts == 0 {
        Some(own)
    } else {
        match (file_stem_of(own), extension_of(own)) {
            (Some(stem), Some(extension)) => Some(
                file_name_replaced(own, numbered_name(stem, attempts, extension)),
            ),
            _ => None,
        }
    }
}

/// Builds the path to try for an upload after `attempts` names were found taken.
pub fn upload_candidate_path(directory: &str, name: &str, attempts: usize) -> (candidate: Option<
    String,
>)
    ensures
        optional_text(candidate) == upload_candidate(directory@, name@, attempts as nat),
{
    let own: String = path_join(directory, name);
    if attempts == 0 {
        return Some(own);
    }
    match (path_file_stem(own.as_str()), path_extension(own.as_str())) {
        (Some(stem), Some(extension)) => {
            let numbered: String = numbered_file_name(stem.as_str(), attempts, extension.as_str());
            Some(path_with_file_name(own.as_str(), numbered.as_str()))
        },
        _ => None,
    }
}

/// Whether `free` can be the answer to a search that found `attempts` names taken: it is
/// the candidate of that attempt, or nothing once the numbers have run out.
pub open spec fn is_upload_choice(
    directory: Seq<char>,
    name: Seq<char>,
    free: Option<Seq<char>>,
    attempts: nat,
) -> bool {
    attempts <= usize::MAX && (free == upload_candidate(directory, name, attempts) || (attempts
        == usize::MAX && free is None))
}

/// What a search for a free upload path does after it has looked at one candidate.
#[derive(Debug)]
pub enum UploadStep {
    /// The candidate is free: the upload is stored there.
    Store { path: String },
    /// The candidate is taken: the candidate of this attempt is looked at next.
    TryNext { attempt: usize },
    /// There is no path for the upload.
    GiveUp,
}

/// Mathematical model of an [`UploadStep`].
pub enum UploadStepView {
    Store { path: Seq<char> },
    TryNext { attempt: usize },
    GiveUp,
}

impl View for UploadStep {
    type V = UploadStepView;

    open spec fn view(&self) -> UploadStepView {
        match self {
            UploadStep::Store { path } => UploadStepView::Store { path: path@ },
            UploadStep::TryNext { attempt } => UploadStepView::TryNext { attempt: *attempt },
            UploadStep::GiveUp => UploadStepView::GiveUp,
        }
    }
}

/// The step after attempt number `attempt`, given its candidate and whether the disk
/// holds something there: a candidate that is free is used; one that is taken leads
/// to the next attempt while there are numbers left; and the search gives up where
/// there is no candidate or no number left.
pub open spec fn upload_step_of(candidate: Option<Seq<char>>, taken: bool, attempt: usize) -> UploadStepView {
    match candidate {
        None => UploadStepView::GiveUp,
        Some(path) => if !taken {
            UploadStepView::Store { path }
        } else if attempt < usize::MAX {
            UploadStepView::TryNext { attempt: (attempt + 1) as usize }
        } else {
            UploadStepView::GiveUp
        },
    }
}

/// Decides the step after one attempt of the search for a free upload path.
pub fn upload_step(candidate: Option<String>, taken: bool, attempt: usize) -> (step: UploadStep)
    ensures
        step@ == upload_step_of(optional_text(candidate), taken, attempt),
{
    match candidate {
        None => UploadStep::GiveUp,
        Some(path) => {
            if !taken {
                UploadStep::Store { path }
            } else if attempt < usize::MAX {
                UploadStep::TryNext { attempt: attempt + 1 }
            } else {
                UploadStep::GiveUp
            }
        },
    }
}

/// Finds a free path for an upload named `name` into `directory`, asking the disk which
/// names are taken. Whatever the disk answers, the result is the candidate of some
/// attempt; there is no path where a taken name cannot be numbered or the numbers have
/// run out.
pub fn unique_upload_path(directory: &str, name: &str) -> (free: Option<String>)
    ensures
        exists|attempts: nat| is_upload_choice(directory@, name@, optional_text(free), attempts),
{
    let mut attempt: usize = 0;
    loop
        invariant
            attempt <= usize::MAX,
        decreases usize::MAX - attempt,
    {
        let candidate: Option<String> = upload_candidate_path(directory, name, attempt);
        let taken: bool = match &candidate {
            Some(path) => path_exists(path.as_str()),
            None => false,
        };
        match upload_step(candidate, taken, attempt) {
            UploadStep::Store { path } => {
                assert(is_upload_choice(directory@, name@, Some(path@), attempt as nat));
                return Some(path);
            },
            UploadStep::TryNext { attempt: next } => {
                attempt = next;
            },
            UploadStep::GiveUp => {
                assert(is_upload_choice(directory@, name@, None, attempt as nat));
                return None;
            },
        }
    }
}

/// The value of the header that names a download: the file's name between quotes, or
/// `unknown` where the path has none.
pub open spec fn attachment_of(file_name: Option<Seq<char>>) -> Seq<char> {
    "attachment; filename=\""@ + (match file_name {
        Some(name) => name,
        None => "unknown"@,
    }) + "\""@
}

/// The three headers of a download, as names and values: the content disposition twice,
/// first as a stream of bytes and then as the named attachment, and the length of the
/// file where it is known, else a header that says nothing.
pub open spec fn download_headers_of(file_name: Option<Seq<char>>, length: Option<u64>) -> Seq<
    (Seq<char>, Seq<char>),
> {
    seq![
        ("content-disposition"@, "application/octet-stream"@),
        ("content-disposition"@, attachment_of(file_name)),
        match length {
            Some(n) => ("content-length"@, decimal(n as nat)),
            None => ("accept-language"@, "*"@),
        },
    ]
}

/// The texts of a list of headers.
pub open spec fn header_views(headers: Seq<(String, String)>) -> Seq<(Seq<char>, Seq<char>)> {
    headers.map_values(|h: (String, String)| (h.0@, h.1@))
}

/// Writes the headers of the download of a file with the given name and length.
pub fn download_headers_for(file_name: Option<String>, length: Option<u64>) -> (headers: Vec<
    (String, String),
>)
    ensures
        header_views(headers@) == download_headers_of(optional_text(file_name), length),
{
    let attachment: String = match file_name {
        Some(name) => String::from_str("attachment; filename=\"").concat(name.as_str()).concat(
            "\"",
        ),
        None => String::from_str("attachment; filename=\"").concat("unknown").concat("\""),
    };
    let last: (String, String) = match length {
        Some(n) => (String::from_str("content-length"), decimal_string_u64(n)),
        None => (String::from_str("accept-language"), String::from_str("*")),
    };
    let mut headers: Vec<(String, String)> = Vec::new();
    headers.push(
        (String::from_str("content-disposition"), String::from_str("application/octet-stream")),
    );
    headers.push((String::from_str("content-disposition"), attachment));
    headers.push(last);
    assert(header_views(headers@) =~= download_headers_of(optional_text(file_name), length));
    headers
}

/// Writes the headers of the download of `path`, whose length is `length` where known.
pub fn download_headers(path: &str, length: Option<u64>) -> (headers: Vec<(String, String)>)
    ensures
        header_views(headers@) == download_headers_of(file_name_of(path@), length),
{
    download_headers_for(path_file_name(path), length)
}

} // verus!
