//! What the worker factory decides before an engine is started: the permission set, the
//! host operations to install and the bootstrap header that the script sees first.

use vstd::prelude::*;

use crate::events::optional_text;
use crate::pid::MacroPID;
use crate::text::decimal;
use crate::text::decimal_string;

verus! {

/// The capabilities that a script is granted, one switch per kind of access.
#[derive(Copy, Clone, Debug, PartialEq, Eq, Structural)]
pub struct Permissions {
    pub read: bool,
    pub write: bool,
    pub net: bool,
    pub env: bool,
    pub sys: bool,
    pub run: bool,
    pub ffi: bool,
    pub hrtime: bool,
}

impl Permissions {
    /// The set that grants everything.
    pub open spec fn all() -> Permissions {
        Permissions {
            read: true,
            write: true,
            net: true,
            env: true,
            sys: true,
            run: true,
            ffi: true,
            hrtime: true,
        }
    }

    /// The set that grants everything.
    pub fn allow_all() -> (permissions: Permissions)
        ensures
            permissions == Permissions::all(),
    {
        Permissions {
            read: true,
            write: true,
            net: true,
            env: true,
            sys: true,
            run: true,
            ffi: true,
            hrtime: true,
        }
    }

    /// The set that grants nothing.
    pub fn none() -> (permissions: Permissions)
        ensures
            permissions == (Permissions {
                read: false,
                write: false,
                net: false,
                env: false,
                sys: false,
                run: false,
                ffi: false,
                hrtime: false,
            }),
    {
        Permissions {
            read: false,
            write: false,
            net: false,
            env: false,
            sys: false,
            run: false,
            ffi: false,
            hrtime: false,
        }
    }
}

/// The permission set that a worker runs with: the caller's, or everything where the
/// caller names none.
pub open spec fn effective_permissions(requested: Option<Permissions>) -> Permissions {
    match requested {
        Some(p) => p,
        None => Permissions::all(),
    }
}

/// The permission set that a worker runs with.
pub fn resolve_permissions(requested: Option<Permissions>) -> (permissions: Permissions)
    ensures
        permissions == effective_permissions(requested),
{
    match requested {
        Some(p) => p,
        None => Permissions::allow_all(),
    }
}

/// Which module loader a worker uses.
#[derive(Copy, Clone, Debug, PartialEq, Eq, Structural)]
pub enum ModuleLoaderKind {
    /// The engine's own loader, which loads nothing.
    Engine,
    /// The loader that reads local files and remote URLs and transpiles TypeScript.
    Typescript,
}

/// A group of host operations that scripts can call.
#[derive(Copy, Clone, Debug, PartialEq, Eq, Structural)]
pub enum OpGroup {
    /// Utility functions of the host.
    Prelude,
    /// Publishing to and subscribing from the event bus.
    Events,
    /// Querying and controlling game instances.
    InstanceControl,
    /// Operations that the embedder adds; the number tells them apart.
    Custom(u32),
}

/// The options that a worker is built from.
#[derive(Debug)]
pub struct WorkerOptions {
    pub module_loader: ModuleLoaderKind,
    pub op_groups: Vec<OpGroup>,
    /// Whether host errors are mapped to script exception classes.
    pub classify_errors: bool,
}

/// Supplies the options that an embedder wants its workers built from.
pub trait WorkerOptionGenerator {
    fn generate(&self) -> WorkerOptions;
}

/// The generator for ordinary macros: the TypeScript loader and nothing else.
#[derive(Copy, Clone, Debug)]
pub struct DefaultWorkerOptionGenerator;

impl WorkerOptionGenerator for DefaultWorkerOptionGenerator {
    fn generate(&self) -> (options: WorkerOptions)
        ensures
            options.module_loader == ModuleLoaderKind::Typescript,
            options.op_groups@ == Seq::<OpGroup>::empty(),
            !options.classify_errors,
    {
        WorkerOptions {
            module_loader: ModuleLoaderKind::Typescript,
            op_groups: Vec::new(),
            classify_errors: false,
        }
    }
}

/// The operation groups that every worker gets, in the order of their installation.
pub open spec fn host_op_groups() -> Seq<OpGroup> {
    seq![OpGroup::Prelude, OpGroup::Events, OpGroup::InstanceControl]
}

/// Completes generated options for a worker: error classification is switched on and the
/// host's operation groups are installed after those that the generator brought.
pub fn install_host_ops(generated: WorkerOptions) -> (options: WorkerOptions)
    ensures
        options.module_loader == generated.module_loader,
        options.classify_errors,
        options.op_groups@ == generated.op_groups@ + host_op_groups(),
{
    let mut options = generated;
    options.classify_errors = true;
    options.op_groups.push(OpGroup::Prelude);
    options.op_groups.push(OpGroup::Events);
    options.op_groups.push(OpGroup::InstanceControl);
    assert(options.op_groups@ =~= generated.op_groups@ + host_op_groups());
    options
}

/// The text in which a script sees its owning instance: the identifier, or `null` where
/// there is none.
pub open spec fn instance_text(instance_uuid: Option<Seq<char>>) -> Seq<char> {
    match instance_uuid {
        Some(uuid) => uuid,
        None => "null"@,
    }
}

/// The script that is evaluated before the main module. It defines the two globals by
/// which a script finds its own events: `__macro_pid` and `__instance_uuid`.
pub open spec fn bootstrap_header(pid: MacroPID, instance_uuid: Option<Seq<char>>) -> Seq<char> {
    "const __macro_pid = "@ + decimal(pid.0 as nat) + "; const __instance_uuid = \""@
        + instance_text(instance_uuid) + "\";"@
}

/// Writes the bootstrap header for `pid` and its owning instance.
pub fn bootstrap_script(pid: MacroPID, instance_uuid: &Option<String>) -> (script: String)
    ensures
        script@ == bootstrap_header(pid, optional_text(*instance_uuid)),
{
    let digits: String = decimal_string(pid.0);
    let start: String = String::from_str("const __macro_pid = ").concat(digits.as_str()).concat(
        "; const __instance_uuid = \"",
    );
    let named: String = match instance_uuid {
        Some(uuid) => start.concat(uuid.as_str()),
        None => start.concat("null"),
    };
    named.concat("\";")
}

} // verus!
