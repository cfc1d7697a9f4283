//! Which exception class a script sees for an error that arose on the host's side.
//!
//! The engine's own classifier comes first. What it does not know is classified here:
//! import map errors, source diagnostics, and the errors of building the module graph,
//! which may wrap another host error.

use vstd::prelude::*;

verus! {

/// An error of loading one module of the graph.
#[derive(Debug)]
pub enum ModuleError {
    /// Loading failed for the wrapped cause.
    LoadingErr { cause: Box<HostError> },
    /// An import assertion names a type that the module does not have.
    InvalidTypeAssertion,
    /// The source did not parse.
    ParseErr,
    UnsupportedMediaType,
    UnsupportedImportAssertionType,
    /// A statically imported module does not exist.
    Missing,
    /// A dynamically imported module does not exist.
    MissingDynamic,
}

/// An error of resolving a specifier.
#[derive(Debug)]
pub enum ResolutionError {
    /// A custom resolver failed for the wrapped cause.
    ResolverError { cause: Box<HostError> },
    /// The specifier itself is at fault.
    InvalidSpecifier,
}

/// An error of building the module graph.
#[derive(Debug)]
pub enum ModuleGraphError {
    ModuleError(ModuleError),
    ResolutionError(ResolutionError),
}

/// A host-side error, by what the classifier needs to know of it.
#[derive(Debug)]
pub enum HostError {
    /// The engine's own classifier names a class for it.
    Classified { class: String },
    /// An error of the import map.
    ImportMap,
    /// A diagnostic of the source text.
    Diagnostic,
    ModuleGraph(ModuleGraphError),
    Resolution(ResolutionError),
    /// Anything else.
    Other,
}

/// The class for a module graph error: the class of the cause for a failed load, a
/// syntax error for what is wrong with the text, a type error for what is unsupported,
/// and `NotFound` for a missing module.
pub open spec fn module_graph_error_class_of(error: ModuleGraphError) -> Seq<char>
    decreases error,
{
    match error {
        ModuleGraphError::ModuleError(module_error) => match module_error {
            ModuleError::LoadingErr { cause } => error_class_of(*cause),
            ModuleError::InvalidTypeAssertion => "SyntaxError"@,
            ModuleError::ParseErr => "SyntaxError"@,
            ModuleError::UnsupportedMediaType => "TypeError"@,
            ModuleError::UnsupportedImportAssertionType => "TypeError"@,
            ModuleError::Missing => "NotFound"@,
            ModuleError::MissingDynamic => "NotFound"@,
        },
        ModuleGraphError::ResolutionError(resolution_error) => resolution_error_class_of(
            resolution_error,
        ),
    }
}

/// The class for a resolution error: the class of the cause where a resolver failed, and
/// a type error otherwise.
pub open spec fn resolution_error_class_of(error: ResolutionError) -> Seq<char>
    decreases error,
{
    match error {
        ResolutionError::ResolverError { cause } => error_class_of(*cause),
        ResolutionError::InvalidSpecifier => "TypeError"@,
    }
}

/// The class for any host error: the engine's where it names one, `URIError` for import
/// map errors, `SyntaxError` for diagnostics, the graph's and the resolver's own rules for
/// their errors, and `Error` for the rest.
pub open spec fn error_class_of(error: HostError) -> Seq<char>
    decreases error,
{
    match error {
        HostError::Classified { class } => class@,
        HostError::ImportMap => "URIError"@,
        HostError::Diagnostic => "SyntaxError"@,
        HostError::ModuleGraph(graph_error) => module_graph_error_class_of(graph_error),
        HostError::Resolution(resolution_error) => resolution_error_class_of(resolution_error),
        HostError::Other => "Error"@,
    }
}

/// The class for an import map error.
pub fn get_import_map_error_class() -> (class: &'static str)
    ensures
        class@ == "URIError"@,
{
    "URIError"
}

/// The class for a source diagnostic.
pub fn get_diagnostic_class() -> (class: &'static str)
    ensures
        class@ == "SyntaxError"@,
{
    "SyntaxError"
}

/// The class for a module graph error.
pub fn get_module_graph_error_class<'a>(error: &'a ModuleGraphError) -> (class: &'a str)
    ensures
        class@ == module_graph_error_class_of(*error),
    decreases *error,
{
    match error {
        ModuleGraphError::ModuleError(module_error) => match module_error {
            ModuleError::LoadingErr { cause } => get_error_class_name(cause),
            ModuleError::InvalidTypeAssertion => "SyntaxError",
            ModuleError::ParseErr => get_diagnostic_class(),
            ModuleError::UnsupportedMediaType
            | ModuleError::UnsupportedImportAssertionType => "TypeError",
            ModuleError::Missing | ModuleError::MissingDynamic => "NotFound",
        },
        ModuleGraphError::ResolutionError(resolution_error) => get_resolution_error_class(
            resolution_error,
        ),
    }
}

/// The class for a resolution error.
pub fn get_resolution_error_class<'a>(error: &'a ResolutionError) -> (class: &'a str)
    ensures
        class@ == resolution_error_class_of(*error),
    decreases *error,
{
    match error {
        ResolutionError::ResolverError { cause } => get_error_class_name(cause),
        ResolutionError::InvalidSpecifier => "TypeError",
    }
}

/// The exception class under which a script sees `error`.
pub fn get_error_class_name<'a>(error: &'a HostError) -> (class: &'a str)
    ensures
        class@ == error_class_of(*error),
    decreases *error,
{
    match error {
        HostError::Classified { class } => class.as_str(),
        HostError::ImportMap => get_import_map_error_class(),
        HostError::Diagnostic => get_diagnostic_class(),
        HostError::ModuleGraph(graph_error) => get_module_graph_error_class(graph_error),
        HostError::Resolution(resolution_error) => get_resolution_error_class(resolution_error),
        HostError::Other => "Error",
    }
}

} // verus!
