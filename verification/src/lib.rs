//! Control-plane logic of a game-server host, verified: the macro execution subsystem
//! and the rules behind the host's file, system and instance handlers.
//!
//! A macro is a script that runs in an engine of its own, on a thread of its own. This
//! library holds what is decided around such an execution: which identifier it gets
//! ([`pid`]), what its worker is built from ([`worker`]), where its modules are loaded
//! from and in what form ([`loader`], [`invocation`]), what its supervisor publishes
//! ([`supervisor`], [`events`]), what the executor records and answers ([`executor`],
//! [`table`]), and which exception class a host error is shown as ([`error_class`]).
//! [`lifecycle`] is a model of all of it together, with the guarantees that hold of the
//! event bus and the exit table.
//!
//! Engines, threads, the bus, files and the network belong to the host. The host
//! reports what it observed and the library says what follows.

pub mod auth;
pub mod error;
pub mod error_class;
pub mod events;
pub mod executor;
pub mod files;
pub mod instance;
pub mod invocation;
pub mod lifecycle;
pub mod loader;
pub mod migration;
pub mod paths;
pub mod pid;
pub mod player;
pub mod status;
pub mod supervisor;
pub mod system;
pub mod table;
pub mod text;
pub mod worker;
