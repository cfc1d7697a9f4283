//! Migration of instance configurations from the 0.4.2 layout to the 0.4.4 layout.
//!
//! The host reads the old configuration of every instance directory and writes what the
//! migration returns. An instance without a configuration file is left alone; the first
//! instance whose configuration cannot be used stops the migration.

use vstd::prelude::*;
use vstd::std_specs::convert::FromSpecImpl;

verus! {

/// The server flavour as the 0.4.4 layout records it.
#[derive(Debug)]
pub enum Flavour {
    Fabric { loader_version: Option<String>, installer_version: Option<String> },
    Paper { build_version: Option<String> },
    /// A flavour that is recorded by its name alone.
    Named { name: String },
}

/// The server flavour as an old configuration file holds it.
#[derive(Debug)]
pub enum LegacyFlavour {
    /// The bare name, as 0.4.2 wrote it.
    Name(String),
    /// Already in the newer form.
    Structured(Flavour),
}

/// The flavour that a legacy record stands for: the names `fabric` and `paper` become
/// the structured flavours with no versions chosen, any other name stays a name, and
/// what is structured already stays as it is.
pub open spec fn upgraded_flavour(flavour: LegacyFlavour) -> Flavour {
    match flavour {
        LegacyFlavour::Name(name) => if name@ == "fabric"@ {
            Flavour::Fabric { loader_version: None, installer_version: None }
        } else if name@ == "paper"@ {
            Flavour::Paper { build_version: None }
        } else {
            Flavour::Named { name }
        },
        LegacyFlavour::Structured(flavour) => flavour,
    }
}

/// Brings a legacy flavour record into the 0.4.4 form.
pub fn upgrade_flavour(flavour: LegacyFlavour) -> (upgraded: Flavour)
    ensures
        upgraded == upgraded_flavour(flavour),
{
    match flavour {
        LegacyFlavour::Name(name) => {
            if crate::text::same_text(name.as_str(), "fabric") {
                Flavour::Fabric { loader_version: None, installer_version: None }
            } else if crate::text::same_text(name.as_str(), "paper") {
                Flavour::Paper { build_version: None }
            } else {
                Flavour::Named { name }
            }
        },
        LegacyFlavour::Structured(flavour) => flavour,
    }
}

/// The configuration of a Minecraft instance in the 0.4.2 layout.
#[derive(Debug)]
pub struct RestoreConfigV042 {
    pub name: String,
    pub version: String,
    pub flavour: LegacyFlavour,
    pub description: String,
    pub cmd_args: Vec<String>,
    pub port: u32,
    pub min_ram: u32,
    pub max_ram: u32,
    pub auto_start: bool,
    pub restart_on_crash: bool,
    pub backup_period: Option<u32>,
    pub jre_major_version: Option<u64>,
    pub has_started: bool,
}

/// The configuration of a Minecraft instance in the 0.4.4 layout.
#[derive(Debug)]
pub struct RestoreConfig {
    pub name: String,
    pub version: String,
    pub flavour: Flavour,
    pub description: String,
    pub cmd_args: Vec<String>,
    pub port: u32,
    pub min_ram: u32,
    pub max_ram: u32,
    pub auto_start: bool,
    pub restart_on_crash: bool,
    pub backup_period: Option<u32>,
    pub jre_major_version: Option<u64>,
    pub has_started: bool,
    /// The Java command to run the server with; `None` selects the bundled runtime.
    pub java_cmd: Option<String>,
}

/// The 0.4.4 configuration for an old one: every setting is carried over, the flavour
/// in its upgraded form, and no Java command is chosen.
pub open spec fn migrated_config(config: RestoreConfigV042) -> RestoreConfig {
    RestoreConfig {
        name: config.name,
        version: config.version,
        flavour: upgraded_flavour(config.flavour),
        description: config.description,
        cmd_args: config.cmd_args,
        port: config.port,
        min_ram: config.min_ram,
        max_ram: config.max_ram,
        auto_start: config.auto_start,
        restart_on_crash: config.restart_on_crash,
        backup_period: config.backup_period,
        jre_major_version: config.jre_major_version,
        has_started: config.has_started,
        java_cmd: None,
    }
}

impl From<RestoreConfigV042> for RestoreConfig {
    fn from(config: RestoreConfigV042) -> (migrated: RestoreConfig) {
        RestoreConfig {
            name: config.name,
            version: config.version,
            flavour: upgrade_flavour(config.flavour),
            description: config.description,
            cmd_args: config.cmd_args,
            port: config.port,
            min_ram: config.min_ram,
            max_ram: config.max_ram,
            auto_start: config.auto_start,
            restart_on_crash: config.restart_on_crash,
            backup_period: config.backup_period,
            jre_major_version: config.jre_major_version,
            has_started: config.has_started,
            java_cmd: None,
        }
    }
}

impl FromSpecImpl<RestoreConfigV042> for RestoreConfig {
    open spec fn obeys_from_spec() -> bool {
        true
    }

    open spec fn from_spec(config: RestoreConfigV042) -> RestoreConfig {
        migrated_config(config)
    }
}

/// What the host found in one directory below the instances directory.
#[derive(Debug)]
pub struct LegacyInstance {
    /// The directory.
    pub path: String,
    /// The old configuration: `None` where the directory has no configuration file, and
    /// the host's message where the file cannot be read or understood.
    pub config: Option<Result<RestoreConfigV042, String>>,
}

/// The new configuration to write into one instance directory.
#[derive(Debug)]
pub struct MigratedInstance {
    pub path: String,
    pub config: RestoreConfig,
}

/// What the migration makes of one directory.
#[derive(Debug)]
pub enum MigrationStep {
    /// Not an instance of the old layout: nothing to do.
    Skip,
    /// Write this configuration.
    Write(MigratedInstance),
    /// The migration stops here.
    Fail { message: String },
}

/// What the migration makes of `instance`.
pub open spec fn step_of(instance: LegacyInstance) -> MigrationStep {
    match instance.config {
        None => MigrationStep::Skip,
        Some(Ok(config)) => MigrationStep::Write(
            MigratedInstance { path: instance.path, config: migrated_config(config) },
        ),
        Some(Err(message)) => MigrationStep::Fail { message },
    }
}

/// Migrates one directory.
pub fn migrate_v042_instance_to_v044(instance: LegacyInstance) -> (step: MigrationStep)
    ensures
        step == step_of(instance),
{
    match instance.config {
        None => MigrationStep::Skip,
        Some(Ok(config)) => MigrationStep::Write(
            MigratedInstance { path: instance.path, config: RestoreConfig::from(config) },
        ),
        Some(Err(message)) => MigrationStep::Fail { message },
    }
}

/// The outcome of a migration: the configurations to write, in the order of the
/// directories, and the message of the failure that stopped it, if one did.
#[derive(Debug)]
pub struct MigrationReport {
    pub written: Vec<MigratedInstance>,
    pub failure: Option<String>,
}

/// The configurations to write for `instances`: those of the directories before the
/// first failure.
pub open spec fn written_of(instances: Seq<LegacyInstance>) -> Seq<MigratedInstance>
    decreases instances.len(),
{
    if instances.len() == 0 {
        Seq::empty()
    } else if failure_of(instances.drop_last()) is Some {
        written_of(instances.drop_last())
    } else {
        match step_of(instances.last()) {
            MigrationStep::Write(migrated) => written_of(instances.drop_last()).push(migrated),
            _ => written_of(instances.drop_last()),
        }
    }
}

/// The failure that stops the migration of `instances`: the first one in their order.
pub open spec fn failure_of(instances: Seq<LegacyInstance>) -> Option<String>
    decreases instances.len(),
{
    if instances.len() == 0 {
        None
    } else if failure_of(instances.drop_last()) is Some {
        failure_of(instances.drop_last())
    } else {
        match step_of(instances.last()) {
            MigrationStep::Fail { message } => Some(message),
            _ => None,
        }
    }
}

/// Migrates the instance directories in their order, up to the first failure.
pub fn migrate_v042_to_v044(instances: Vec<LegacyInstance>) -> (report: MigrationReport)
    ensures
        report.written@ == written_of(instances@),
        report.failure == failure_of(instances@),
{
    let mut written: Vec<MigratedInstance> = Vec::new();
    let mut failure: Option<String> = None;
    let ghost all = instances@;
    assert(all.take(0) =~= Seq::<LegacyInstance>::empty());
    for instance in it: instances.into_iter()
        invariant
            it.seq() == all,
            written@ == written_of(all.take(it.index() as int)),
            failure == failure_of(all.take(it.index() as int)),
    {
        proof {
            let n = it.index() as int;
            assert(all.take(n + 1).drop_last() =~= all.take(n));
            assert(all.take(n + 1).last() == instance);
        }
        if failure.is_none() {
            match migrate_v042_instance_to_v044(instance) {
                MigrationStep::Skip => {},
                MigrationStep::Write(migrated) => {
                    written.push(migrated);
                },
                MigrationStep::Fail { message } => {
                    failure = Some(message);
                },
            }
        }
    }
    assert(all.take(all.len() as int) =~= all);
    MigrationReport { written, failure }
}

} // verus!
