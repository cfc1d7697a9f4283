//! The module loader's decisions: where a specifier is loaded from, which file stands
//! for an extensionless or directory import, what kind of module a media type gives,
//! and what source the engine finally gets.
//!
//! Reading files and fetching URLs is the host's part. The host reports what it read
//! and the loader says what that amounts to.

use deno_ast::MediaType as EngineMediaType;
use std::path::Path;
use vstd::prelude::*;

use crate::events::optional_text;
use crate::paths::extension_of;
use crate::paths::extension_replaced;
use crate::paths::joined_path;
use crate::paths::path_exists;
use crate::paths::path_extension;
use crate::paths::path_is_dir;
use crate::paths::path_join;
use crate::paths::path_with_extension;
use crate::text::same_text;

verus! {

/// The kind of content that a file or a response holds.
#[derive(Copy, Clone, Debug, PartialEq, Eq, Structural)]
pub enum MediaType {
    JavaScript,
    Jsx,
    Mjs,
    Cjs,
    TypeScript,
    Mts,
    Cts,
    Dts,
    Dmts,
    Dcts,
    Tsx,
    Css,
    Json,
    Jsonc,
    Json5,
    Html,
    Markdown,
    Sql,
    Wasm,
    SourceMap,
    Unknown,
}

/// What the engine is told a module is.
#[derive(Copy, Clone, Debug, PartialEq, Eq, Structural)]
pub enum ModuleType {
    JavaScript,
    Json,
}

/// How a media type is handed to the engine.
#[derive(Copy, Clone, Debug, PartialEq, Eq, Structural)]
pub struct ModuleKind {
    pub media_type: MediaType,
    pub module_type: ModuleType,
    pub should_transpile: bool,
}

/// The module type and the need to transpile for each media type that can be loaded:
/// JavaScript dialects pass as they are, JSX and the TypeScript family are transpiled
/// to JavaScript, JSON passes as JSON, and nothing else is a module.
pub open spec fn module_kind_of(media_type: MediaType) -> Option<ModuleKind> {
    match media_type {
        MediaType::JavaScript | MediaType::Mjs | MediaType::Cjs => Some(
            ModuleKind { media_type, module_type: ModuleType::JavaScript, should_transpile: false },
        ),
        MediaType::Jsx
        | MediaType::TypeScript
        | MediaType::Mts
        | MediaType::Cts
        | MediaType::Dts
        | MediaType::Dmts
        | MediaType::Dcts
        | MediaType::Tsx => Some(
            ModuleKind { media_type, module_type: ModuleType::JavaScript, should_transpile: true },
        ),
        MediaType::Json => Some(
            ModuleKind { media_type, module_type: ModuleType::Json, should_transpile: false },
        ),
        _ => None,
    }
}

/// Maps a media type to the way it is handed to the engine, if it can be loaded.
pub fn module_kind(media_type: MediaType) -> (kind: Option<ModuleKind>)
    ensures
        kind == module_kind_of(media_type),
{
    match media_type {
        MediaType::JavaScript | MediaType::Mjs | MediaType::Cjs => Some(
            ModuleKind { media_type, module_type: ModuleType::JavaScript, should_transpile: false },
        ),
        MediaType::Jsx
        | MediaType::TypeScript
        | MediaType::Mts
        | MediaType::Cts
        | MediaType::Dts
        | MediaType::Dmts
        | MediaType::Dcts
        | MediaType::Tsx => Some(
            ModuleKind { media_type, module_type: ModuleType::JavaScript, should_transpile: true },
        ),
        MediaType::Json => Some(
            ModuleKind { media_type, module_type: ModuleType::Json, should_transpile: false },
        ),
        _ => None,
    }
}

/// The media type that the engine's tooling reads off the final component of `path`.
pub uninterp spec fn media_type_of_path(path: Seq<char>) -> MediaType;

/// The media type that the engine's tooling reads off a `content-type` header value for
/// the module at `specifier`; `None` where `specifier` is not a URL.
pub uninterp spec fn media_type_of_content_type(
    specifier: Seq<char>,
    content_type: Seq<char>,
) -> Option<MediaType>;

/// What transpiling `code`, read as `media_type` at `specifier`, gives: the JavaScript
/// text, or the message of the error where `specifier` is not a URL or the text does
/// not parse or cannot be emitted.
pub uninterp spec fn transpiled(
    specifier: Seq<char>,
    media_type: MediaType,
    code: Seq<char>,
) -> Result<Seq<char>, Seq<char>>;

/// `text` as the `{:?}` format shows it: quoted and escaped.
pub uninterp spec fn debug_quoted(text: Seq<char>) -> Seq<char>;

/// The characters of either side of a result.
pub open spec fn result_text(result: Result<String, String>) -> Result<Seq<char>, Seq<char>> {
    match result {
        Ok(t) => Ok(t@),
        Err(e) => Err(e@),
    }
}

/// Whether `code` begins with a byte order mark.
pub open spec fn has_bom(code: Seq<char>) -> bool {
    code.len() > 0 && code[0] == '\u{feff}'
}

/// `code` without its leading byte order marks.
pub open spec fn without_bom(code: Seq<char>) -> Seq<char>
    decreases code.len(),
{
    if has_bom(code) {
        without_bom(code.skip(1))
    } else {
        code
    }
}

/// `deno_ast::MediaType::from_path`: the media type for a path, read off its final
/// component's extension.
#[verifier::external_body]
fn media_type_from_path(path: &str) -> (media_type: MediaType)
    ensures
        media_type == media_type_of_path(path@),
{
    match EngineMediaType::from_path(Path::new(path)) {
        EngineMediaType::JavaScript => MediaType::JavaScript, EngineMediaType::Jsx => MediaType::Jsx,
        EngineMediaType::Mjs => MediaType::Mjs, EngineMediaType::Cjs => MediaType::Cjs,
        EngineMediaType::TypeScript => MediaType::TypeScript, EngineMediaType::Mts => MediaType::Mts,
        EngineMediaType::Cts => MediaType::Cts, EngineMediaType::Dts => MediaType::Dts,
        EngineMediaType::Dmts => MediaType::Dmts, EngineMediaType::Dcts => MediaType::Dcts,
        EngineMediaType::Tsx => MediaType::Tsx, EngineMediaType::Css => MediaType::Css,
        EngineMediaType::Json => MediaType::Json, EngineMediaType::Jsonc => MediaType::Jsonc,
        EngineMediaType::Json5 => MediaType::Json5, EngineMediaType::Html => MediaType::Html,
        EngineMediaType::Markdown => MediaType::Markdown, EngineMediaType::Sql => MediaType::Sql,
        EngineMediaType::Wasm => MediaType::Wasm, EngineMediaType::SourceMap => MediaType::SourceMap,
        EngineMediaType::Unknown => MediaType::Unknown,
    }
}

/// `deno_ast::MediaType::from_content_type`: the media type for a `content-type` header
/// value, read off its first `;`-delimited part and, for JavaScript-like types, off the
/// specifier's file name. `None` where `specifier` does not parse as a URL.
#[verifier::external_body]
fn media_type_from_content_type(specifier: &str, content_type: &str) -> (media_type: Option<MediaType>)
    ensures
        media_type == media_type_of_content_type(specifier@, content_type@),
{
    let url = deno_ast::ModuleSpecifier::parse(specifier).ok()?;
    Some(match EngineMediaType::from_content_type(&url, content_type) {
        EngineMediaType::JavaScript => MediaType::JavaScript, EngineMediaType::Jsx => MediaType::Jsx,
        EngineMediaType::Mjs => MediaType::Mjs, EngineMediaType::Cjs => MediaType::Cjs,
        EngineMediaType::TypeScript => MediaType::TypeScript, EngineMediaType::Mts => MediaType::Mts,
        EngineMediaType::Cts => MediaType::Cts, EngineMediaType::Dts => MediaType::Dts,
        EngineMediaType::Dmts => MediaType::Dmts, EngineMediaType::Dcts => MediaType::Dcts,
        EngineMediaType::Tsx => MediaType::Tsx, EngineMediaType::Css => MediaType::Css,
        EngineMediaType::Json => MediaType::Json, EngineMediaType::Jsonc => MediaType::Jsonc,
        EngineMediaType::Json5 => MediaType::Json5, EngineMediaType::Html => MediaType::Html,
        EngineMediaType::Markdown => MediaType::Markdown, EngineMediaType::Sql => MediaType::Sql,
        EngineMediaType::Wasm => MediaType::Wasm, EngineMediaType::SourceMap => MediaType::SourceMap,
        EngineMediaType::Unknown => MediaType::Unknown,
    })
}

/// `str::parse` to a `deno_ast::ModuleSpecifier`, `deno_ast::parse_module` and
/// `ParsedSource::transpile` with default options, one after the other: the JavaScript
/// for a module of the TypeScript family or JSX, with its inline source map, or the
/// message of the first of the three that fails, as its error shows it. The parser
/// panics on a leading byte order mark in some builds. Each media type that is
/// transpiled goes to its namesake; the others, which `requires` leaves out, would go
/// as unknown.
#[verifier::external_body]
fn transpile_module(specifier: &str, media_type: MediaType, code: &str) -> (emitted: Result<
    String,
    String,
>)
    requires
        module_kind_of(media_type) matches Some(kind) && kind.should_transpile,
        !has_bom(code@),
    ensures
        result_text(emitted) == transpiled(specifier@, media_type, code@),
{
    let emit = || -> Result<String, anyhow::Error> {
        let params = deno_ast::ParseParams {
            specifier: specifier.parse()?, text: code.into(), maybe_syntax: None,
            capture_tokens: false, scope_analysis: false, media_type: match media_type {
                MediaType::Jsx => EngineMediaType::Jsx, MediaType::TypeScript => EngineMediaType::TypeScript,
                MediaType::Mts => EngineMediaType::Mts, MediaType::Cts => EngineMediaType::Cts,
                MediaType::Dts => EngineMediaType::Dts, MediaType::Dmts => EngineMediaType::Dmts,
                MediaType::Dcts => EngineMediaType::Dcts, MediaType::Tsx => EngineMediaType::Tsx,
                _ => EngineMediaType::Unknown,
            },
        };
        Ok(deno_ast::parse_module(params)?.transpile(&Default::default(), &Default::default(), &Default::default())?.into_source().text)
    };
    emit().map_err(|error| error.to_string())
}

/// `format!("{:?}", ..)` on a text: the text between double quotes, with the characters
/// that need it escaped.
#[verifier::external_body]
fn debug_quote(text: &str) -> (quoted: String)
    ensures
        quoted@ == debug_quoted(text@),
{
    format!("{:?}", text)
}

/// A module specifier as the engine resolved it: its text, its scheme, and the local
/// path it names where it is a `file` URL.
#[derive(Debug)]
pub struct ModuleSpecifier {
    pub text: String,
    pub scheme: String,
    pub file_path: Option<String>,
}

/// Where a module is loaded from.
#[derive(Debug)]
pub enum LoadRoute {
    /// Read the file at this path.
    File { path: String },
    /// Fetch this URL.
    Remote { url: String },
}

/// Mathematical model of a [`LoadRoute`].
pub enum LoadRouteView {
    File { path: Seq<char> },
    Remote { url: Seq<char> },
}

impl View for LoadRoute {
    type V = LoadRouteView;

    open spec fn view(&self) -> LoadRouteView {
        match self {
            LoadRoute::File { path } => LoadRouteView::File { path: path@ },
            LoadRoute::Remote { url } => LoadRouteView::Remote { url: url@ },
        }
    }
}

/// Why a module could not be loaded.
#[derive(Debug)]
pub enum LoadError {
    /// The specifier is neither a local file nor an `http(s)` URL.
    UnsupportedSpecifier { specifier: String },
    /// The file's extension names no loadable media type.
    UnknownExtension { extension: Option<String> },
    /// The server answered without success.
    FetchFailed { specifier: String },
    /// The response has no `content-type` header.
    NoContentType,
    /// The response's `content-type` names no loadable media type.
    UnknownContentType { content_type: String },
    /// Reading the file or the response failed; the message is the host's.
    Io { message: String },
    /// The source does not parse or cannot be emitted; the message is the diagnostic.
    Transpile { message: String },
}

/// Mathematical model of a [`LoadError`].
pub enum LoadErrorView {
    UnsupportedSpecifier { specifier: Seq<char> },
    UnknownExtension { extension: Option<Seq<char>> },
    FetchFailed { specifier: Seq<char> },
    NoContentType,
    UnknownContentType { content_type: Seq<char> },
    Io { message: Seq<char> },
    Transpile { message: Seq<char> },
}

impl View for LoadError {
    type V = LoadErrorView;

    open spec fn view(&self) -> LoadErrorView {
        match self {
            LoadError::UnsupportedSpecifier { specifier } => LoadErrorView::UnsupportedSpecifier {
                specifier: specifier@,
            },
            LoadError::UnknownExtension { extension } => LoadErrorView::UnknownExtension {
                extension: optional_text(*extension),
            },
            LoadError::FetchFailed { specifier } => LoadErrorView::FetchFailed {
                specifier: specifier@,
            },
            LoadError::NoContentType => LoadErrorView::NoContentType,
            LoadError::UnknownContentType { content_type } => LoadErrorView::UnknownContentType {
                content_type: content_type@,
            },
            LoadError::Io { message } => LoadErrorView::Io { message: message@ },
            LoadError::Transpile { message } => LoadErrorView::Transpile { message: message@ },
        }
    }
}

/// The message of a load error, as the operator reads it.
pub open spec fn load_error_message(error: LoadError) -> Seq<char> {
    match error {
        LoadError::UnsupportedSpecifier { specifier } => "Unsupported module specifier: "@
            + specifier@,
        LoadError::UnknownExtension { extension } => match extension {
            Some(e) => "Unknown extension Some("@ + debug_quoted(e@) + ")"@,
            None => "Unknown extension None"@,
        },
        LoadError::FetchFailed { specifier } => "Failed to fetch module: "@ + specifier@,
        LoadError::NoContentType => "No content-type header"@,
        LoadError::UnknownContentType { content_type } => "Unknown content-type "@ + debug_quoted(
            content_type@,
        ),
        LoadError::Io { message } => message@,
        LoadError::Transpile { message } => message@,
    }
}

impl LoadError {
    /// Renders the error for the operator.
    pub fn to_string(&self) -> (text: String)
        ensures
            text@ == load_error_message(*self),
    {
        match self {
            LoadError::UnsupportedSpecifier { specifier } => String::from_str(
                "Unsupported module specifier: ",
            ).concat(specifier.as_str()),
            LoadError::UnknownExtension { extension } => match extension {
                Some(e) => String::from_str("Unknown extension Some(").concat(
                    debug_quote(e.as_str()).as_str(),
                ).concat(")"),
                None => String::from_str("Unknown extension None"),
            },
            LoadError::FetchFailed { specifier } => String::from_str(
                "Failed to fetch module: ",
            ).concat(specifier.as_str()),
            LoadError::NoContentType => String::from_str("No content-type header"),
            LoadError::UnknownContentType { content_type } => String::from_str(
                "Unknown content-type ",
            ).concat(debug_quote(content_type.as_str()).as_str()),
            LoadError::Io { message } => message.clone(),
            LoadError::Transpile { message } => message.clone(),
        }
    }
}

/// An executable module: its type, its code and the specifier it was loaded for.
#[derive(Debug)]
pub struct ModuleSource {
    pub module_type: ModuleType,
    pub code: String,
    pub specifier: String,
}

/// Mathematical model of a [`ModuleSource`].
pub struct ModuleSourceView {
    pub module_type: ModuleType,
    pub code: Seq<char>,
    pub specifier: Seq<char>,
}

impl View for ModuleSource {
    type V = ModuleSourceView;

    open spec fn view(&self) -> ModuleSourceView {
        ModuleSourceView {
            module_type: self.module_type,
            code: self.code@,
            specifier: self.specifier@,
        }
    }
}

/// The models of either side of a load result.
pub open spec fn load_view(result: Result<ModuleSource, LoadError>) -> Result<
    ModuleSourceView,
    LoadErrorView,
> {
    match result {
        Ok(m) => Ok(m@),
        Err(e) => Err(e@),
    }
}

/// The models of either side of a routing result.
pub open spec fn route_view(result: Result<LoadRoute, LoadError>) -> Result<
    LoadRouteView,
    LoadErrorView,
> {
    match result {
        Ok(r) => Ok(r@),
        Err(e) => Err(e@),
    }
}

/// Where the module at a specifier is loaded from: the local file where the specifier
/// names one, the URL itself for `http` and `https`, and nowhere for anything else.
pub open spec fn route_of(
    text: Seq<char>,
    scheme: Seq<char>,
    file_path: Option<Seq<char>>,
) -> Result<LoadRouteView, LoadErrorView> {
    match file_path {
        Some(path) => Ok(LoadRouteView::File { path }),
        None => if scheme == "http"@ || scheme == "https"@ {
            Ok(LoadRouteView::Remote { url: text })
        } else {
            Err(LoadErrorView::UnsupportedSpecifier { specifier: text })
        },
    }
}

/// The extension to give an import path, if any: none for a path that has one, else
/// `ts` where that sibling exists, else `js` where that one does, else none.
pub open spec fn extension_to_try_of(has_extension: bool, ts_exists: bool, js_exists: bool) -> Option<
    Seq<char>,
> {
    if has_extension {
        None
    } else if ts_exists {
        Some("ts"@)
    } else if js_exists {
        Some("js"@)
    } else {
        None
    }
}

/// The index file to use for an import path, if any: none for what is no directory, else
/// `index.ts` where that exists, and else `index.js`.
pub open spec fn index_to_try_of(is_directory: bool, index_ts_exists: bool) -> Option<Seq<char>> {
    if !is_directory {
        None
    } else if index_ts_exists {
        Some("index.ts"@)
    } else {
        Some("index.js"@)
    }
}

/// The first step of inferring the file for `path`: the path with the extension to try,
/// or the path itself where there is none to try.
pub open spec fn extension_choice(path: Seq<char>, ts_exists: bool, js_exists: bool) -> Seq<char> {
    match extension_to_try_of(extension_of(path) is Some, ts_exists, js_exists) {
        Some(extension) => extension_replaced(path, extension),
        None => path,
    }
}

/// The second step: the index file to try below `file`, or `file` itself where there is
/// none to try.
pub open spec fn index_choice(file: Seq<char>, is_directory: bool, index_ts_exists: bool) -> Seq<
    char,
> {
    match index_to_try_of(is_directory, index_ts_exists) {
        Some(index) => joined_path(file, index),
        None => file,
    }
}

/// The file that stands for `path` in an import, given what the disk holds: both steps,
/// the second on the outcome of the first.
pub open spec fn inferred_path(
    path: Seq<char>,
    ts_exists: bool,
    js_exists: bool,
    is_directory: bool,
    index_ts_exists: bool,
) -> Seq<char> {
    index_choice(extension_choice(path, ts_exists, js_exists), is_directory, index_ts_exists)
}

/// Decides which extension to give an import path, if any.
pub fn extension_to_try(has_extension: bool, ts_exists: bool, js_exists: bool) -> (extension: Option<
    &'static str,
>)
    ensures
        match extension {
            Some(e) => Some(e@),
            None => None,
        } == extension_to_try_of(has_extension, ts_exists, js_exists),
        extension matches Some(e) ==> crate::paths::separator_free(e@),
{
    proof {
        reveal_strlit("ts");
        reveal_strlit("js");
    }
    if has_extension {
        None
    } else if ts_exists {
        Some("ts")
    } else if js_exists {
        Some("js")
    } else {
        None
    }
}

/// Decides which index file to use for an import path, if any.
pub fn index_to_try(is_directory: bool, index_ts_exists: bool) -> (index: Option<&'static str>)
    ensures
        match index {
            Some(i) => Some(i@),
            None => None,
        } == index_to_try_of(is_directory, index_ts_exists),
{
    if !is_directory {
        None
    } else if index_ts_exists {
        Some("index.ts")
    } else {
        Some("index.js")
    }
}

/// Builds the two siblings of an import path that are looked for on the disk: the path
/// with the extension `ts` and the path with the extension `js`, in this order.
pub fn sibling_paths(path: &str) -> (siblings: (String, String))
    ensures
        siblings.0@ == extension_replaced(path@, "ts"@),
        siblings.1@ == extension_replaced(path@, "js"@),
{
    proof {
        reveal_strlit("ts");
        reveal_strlit("js");
    }
    (path_with_extension(path, "ts"), path_with_extension(path, "js"))
}

/// Builds the path of the index file that is looked for first below `file`.
pub fn index_ts_path(file: &str) -> (index: String)
    ensures
        index@ == joined_path(file@, "index.ts"@),
{
    path_join(file, "index.ts")
}

/// Chooses between `path` and its `.ts` and `.js` siblings, given which siblings exist.
pub fn with_inferred_extension(path: &str, ts_exists: bool, js_exists: bool) -> (file: String)
    ensures
        file@ == extension_choice(path@, ts_exists, js_exists),
{
    match extension_to_try(path_extension(path).is_some(), ts_exists, js_exists) {
        Some(extension) => path_with_extension(path, extension),
        None => String::from_str(path),
    }
}

/// Chooses between `file` and the index files below it, given whether it is a directory
/// and whether its `index.ts` exists.
pub fn with_index_file(file: &str, is_directory: bool, index_ts_exists: bool) -> (chosen: String)
    ensures
        chosen@ == index_choice(file@, is_directory, index_ts_exists),
{
    match index_to_try(is_directory, index_ts_exists) {
        Some(index) => path_join(file, index),
        None => String::from_str(file),
    }
}

/// The models of either side of a choice of module kind.
pub open spec fn kind_view(result: Result<ModuleKind, LoadError>) -> Result<
    ModuleKind,
    LoadErrorView,
> {
    match result {
        Ok(kind) => Ok(kind),
        Err(e) => Err(e@),
    }
}

/// How a local file of the given media type is handed to the engine; a media type that
/// cannot be loaded is reported with the file's extension.
pub open spec fn file_kind_of(media_type: MediaType, extension: Option<Seq<char>>) -> Result<
    ModuleKind,
    LoadErrorView,
> {
    match module_kind_of(media_type) {
        Some(kind) => Ok(kind),
        None => Err(LoadErrorView::UnknownExtension { extension }),
    }
}

/// How a fetched response is handed to the engine, given the media type that its content
/// type stands for (`None` where the specifier is no URL). The checks come in the order:
/// status, presence of the content type, media type.
pub open spec fn response_kind_of(
    specifier: Seq<char>,
    status_is_success: bool,
    content_type: Option<Seq<char>>,
    media_type: Option<MediaType>,
) -> Result<ModuleKind, LoadErrorView> {
    if !status_is_success {
        Err(LoadErrorView::FetchFailed { specifier })
    } else {
        match content_type {
            None => Err(LoadErrorView::NoContentType),
            Some(ct) => match media_type {
                None => Err(LoadErrorView::UnsupportedSpecifier { specifier }),
                Some(media_type) => match module_kind_of(media_type) {
                    None => Err(LoadErrorView::UnknownContentType { content_type: ct }),
                    Some(kind) => Ok(kind),
                },
            },
        }
    }
}

/// The module that a host's report on a local file amounts to. The media type comes
/// from the path; an unloadable type is reported before a failed read.
pub open spec fn file_load_of(
    specifier: Seq<char>,
    path: Seq<char>,
    content: Result<Seq<char>, Seq<char>>,
) -> Result<ModuleSourceView, LoadErrorView> {
    match file_kind_of(media_type_of_path(path), extension_of(path)) {
        Err(e) => Err(e),
        Ok(kind) => match content {
            Err(message) => Err(LoadErrorView::Io { message }),
            Ok(code) => source_of(specifier, kind, code),
        },
    }
}

/// The module for code in its final form, or the failure of the transpiler.
pub open spec fn finished_of(
    specifier: Seq<char>,
    module_type: ModuleType,
    code: Result<Seq<char>, Seq<char>>,
) -> Result<ModuleSourceView, LoadErrorView> {
    match code {
        Ok(code) => Ok(ModuleSourceView { module_type, code, specifier }),
        Err(message) => Err(LoadErrorView::Transpile { message }),
    }
}

/// The module that `code` of the given kind gives: transpiled where the kind asks for
/// it, after leading byte order marks are dropped, and else as it is.
pub open spec fn source_of(specifier: Seq<char>, kind: ModuleKind, code: Seq<char>) -> Result<
    ModuleSourceView,
    LoadErrorView,
> {
    if kind.should_transpile {
        finished_of(
            specifier,
            kind.module_type,
            transpiled(specifier, kind.media_type, without_bom(code)),
        )
    } else {
        finished_of(specifier, kind.module_type, Ok(code))
    }
}

/// What a host reports of a fetched URL.
#[derive(Debug)]
pub struct RemoteResponse {
    /// Whether the status is one of success.
    pub status_is_success: bool,
    /// The value of the `content-type` header, if the response has one that is text.
    pub content_type: Option<String>,
    /// The body as text, or the host's message where reading it failed.
    pub body: Result<String, String>,
}

/// The module that a host's report on a fetched URL amounts to. The media type comes
/// from the content type; the body is looked at last.
pub open spec fn remote_load_of(
    specifier: Seq<char>,
    status_is_success: bool,
    content_type: Option<Seq<char>>,
    body: Result<Seq<char>, Seq<char>>,
) -> Result<ModuleSourceView, LoadErrorView> {
    let media_type = match content_type {
        Some(ct) => media_type_of_content_type(specifier, ct),
        None => None,
    };
    match response_kind_of(specifier, status_is_success, content_type, media_type) {
        Err(e) => Err(e),
        Ok(kind) => match body {
            Err(message) => Err(LoadErrorView::Io { message }),
            Ok(code) => source_of(specifier, kind, code),
        },
    }
}

/// Drops the leading byte order marks.
fn strip_bom(code: String) -> (stripped: String)
    ensures
        stripped@ == without_bom(code@),
        !has_bom(stripped@),
{
    let length: usize = code.as_str().unicode_len();
    let mut marks: usize = 0;
    assert(code@.skip(0) =~= code@);
    while marks < length && code.as_str().get_char(marks) == '\u{feff}'
        invariant
            marks <= length,
            length == code@.len(),
            without_bom(code@) == without_bom(code@.skip(marks as int)),
        decreases length - marks,
    {
        assert(code@.skip(marks as int).skip(1) =~= code@.skip(marks + 1));
        marks += 1;
    }
    if marks == 0 {
        code
    } else {
        let rest: &str = code.as_str().substring_char(marks, length);
        assert(rest@ =~= code@.skip(marks as int));
        String::from_str(rest)
    }
}

/// Chooses how a local file of the given media type and extension is handed to the engine.
pub fn kind_for_file(media_type: MediaType, extension: Option<String>) -> (kind: Result<
    ModuleKind,
    LoadError,
>)
    ensures
        kind_view(kind) == file_kind_of(media_type, optional_text(extension)),
{
    match module_kind(media_type) {
        Some(kind) => Ok(kind),
        None => Err(LoadError::UnknownExtension { extension }),
    }
}

/// Chooses how a fetched response is handed to the engine, given the media type that its
/// content type stands for.
pub fn kind_for_response(
    specifier: &str,
    status_is_success: bool,
    content_type: Option<String>,
    media_type: Option<MediaType>,
) -> (kind: Result<ModuleKind, LoadError>)
    ensures
        kind_view(kind) == response_kind_of(
            specifier@,
            status_is_success,
            optional_text(content_type),
            media_type,
        ),
{
    if !status_is_success {
        return Err(LoadError::FetchFailed { specifier: String::from_str(specifier) });
    }
    match content_type {
        None => Err(LoadError::NoContentType),
        Some(content_type) => match media_type {
            None => Err(LoadError::UnsupportedSpecifier { specifier: String::from_str(specifier) }),
            Some(media_type) => match module_kind(media_type) {
                None => Err(LoadError::UnknownContentType { content_type }),
                Some(kind) => Ok(kind),
            },
        },
    }
}

/// Wraps code in its final form into a module, or the transpiler's message into an error.
pub fn finish_module(specifier: &str, module_type: ModuleType, code: Result<String, String>) -> (loaded:
    Result<ModuleSource, LoadError>)
    ensures
        load_view(loaded) == finished_of(specifier@, module_type, result_text(code)),
{
    match code {
        Ok(code) => Ok(ModuleSource { module_type, code, specifier: String::from_str(specifier) }),
        Err(message) => Err(LoadError::Transpile { message }),
    }
}

/// Builds the module for `code` of the given kind, transpiling where the kind asks for it.
pub fn module_source(specifier: &str, kind: ModuleKind, code: String) -> (loaded: Result<
    ModuleSource,
    LoadError,
>)
    requires
        module_kind_of(kind.media_type) == Some(kind),
    ensures
        load_view(loaded) == source_of(specifier@, kind, code@),
{
    if kind.should_transpile {
        let clean: String = strip_bom(code);
        let emitted: Result<String, String> = transpile_module(
            specifier,
            kind.media_type,
            clean.as_str(),
        );
        finish_module(specifier, kind.module_type, emitted)
    } else {
        finish_module(specifier, kind.module_type, Ok(code))
    }
}

/// Loads local files and remote URLs and transpiles what is not yet JavaScript.
#[derive(Copy, Clone, Debug)]
pub struct TypescriptModuleLoader;

impl TypescriptModuleLoader {
    /// Decides where the module at `specifier` is loaded from.
    pub fn route(&self, specifier: &ModuleSpecifier) -> (route: Result<LoadRoute, LoadError>)
        ensures
            route_view(route) == route_of(
                specifier.text@,
                specifier.scheme@,
                optional_text(specifier.file_path),
            ),
    {
        match &specifier.file_path {
            Some(path) => Ok(LoadRoute::File { path: path.clone() }),
            None => {
                if same_text(specifier.scheme.as_str(), "http") || same_text(
                    specifier.scheme.as_str(),
                    "https",
                ) {
                    Ok(LoadRoute::Remote { url: specifier.text.clone() })
                } else {
                    Err(LoadError::UnsupportedSpecifier { specifier: specifier.text.clone() })
                }
            },
        }
    }

    /// Finds the file that stands for `path`, asking the disk what exists. Whatever the
    /// disk answers, the result is the inferred path for those answers.
    pub fn infer_path(&self, path: &str) -> (file: String)
        ensures
            exists|ts_exists: bool, js_exists: bool, is_directory: bool, index_ts_exists: bool|
                file@ == inferred_path(
                    path@,
                    ts_exists,
                    js_exists,
                    is_directory,
                    index_ts_exists,
                ),
    {
        let siblings: (String, String) = sibling_paths(path);
        let ts_exists: bool = path_exists(siblings.0.as_str());
        let js_exists: bool = path_exists(siblings.1.as_str());
        let file: String = with_inferred_extension(path, ts_exists, js_exists);
        let is_directory: bool = path_is_dir(file.as_str());
        let index_ts: String = index_ts_path(file.as_str());
        let index_ts_exists: bool = path_exists(index_ts.as_str());
        let chosen: String = with_index_file(file.as_str(), is_directory, index_ts_exists);
        assert(chosen@ == inferred_path(
            path@,
            ts_exists,
            js_exists,
            is_directory,
            index_ts_exists,
        ));
        chosen
    }

    /// Turns what the host read at `path` into the module for `specifier`.
    pub fn load_file(&self, specifier: &ModuleSpecifier, path: &str, content: Result<String, String>) -> (loaded:
        Result<ModuleSource, LoadError>)
        ensures
            load_view(loaded) == file_load_of(specifier.text@, path@, result_text(content)),
    {
        match kind_for_file(media_type_from_path(path), path_extension(path)) {
            Err(error) => Err(error),
            Ok(kind) => match content {
                Err(message) => Err(LoadError::Io { message }),
                Ok(code) => module_source(specifier.text.as_str(), kind, code),
            },
        }
    }

    /// Turns what the host fetched into the module for `specifier`.
    pub fn load_remote(&self, specifier: &ModuleSpecifier, response: RemoteResponse) -> (loaded: Result<
        ModuleSource,
        LoadError,
    >)
        ensures
            load_view(loaded) == remote_load_of(
                specifier.text@,
                response.status_is_success,
                optional_text(response.content_type),
                result_text(response.body),
            ),
    {
        let media_type: Option<MediaType> = match &response.content_type {
            Some(content_type) => media_type_from_content_type(
                specifier.text.as_str(),
                content_type.as_str(),
            ),
            None => None,
        };
        match kind_for_response(
            specifier.text.as_str(),
            response.status_is_success,
            response.content_type,
            media_type,
        ) {
            Err(error) => Err(error),
            Ok(kind) => match response.body {
                Err(message) => Err(LoadError::Io { message }),
                Ok(code) => module_source(specifier.text.as_str(), kind, code),
            },
        }
    }
}

/// Loading is a function of what was read: two loads of one specifier that read the same
/// text from the same path give the same module, byte for byte, or the same error.
pub proof fn lemma_load_is_repeatable(
    first: Result<ModuleSource, LoadError>,
    second: Result<ModuleSource, LoadError>,
    specifier: Seq<char>,
    path: Seq<char>,
    content: Result<Seq<char>, Seq<char>>,
)
    requires
        load_view(first) == file_load_of(specifier, path, content),
        load_view(second) == file_load_of(specifier, path, content),
    ensures
        load_view(first) == load_view(second),
        first is Ok ==> second is Ok && first->Ok_0@.code == second->Ok_0@.code,
{
}

} // verus!
