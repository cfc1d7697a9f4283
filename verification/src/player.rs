//! Players of a game instance, and the player operations that an instance may offer.

use std::collections::HashSet;
use vstd::prelude::*;
use vstd::std_specs::cmp::PartialEqSpecImpl;

use crate::error::Error;
use crate::error::ErrorKind;

verus! {

/// What every kind of player can tell of itself.
pub trait TPlayer {
    /// The identifier by which players are told apart.
    fn get_id(&self) -> String;

    /// The name shown to operators.
    fn get_name(&self) -> String;
}

/// A player of a Minecraft server.
#[derive(Debug)]
pub struct MinecraftPlayer {
    pub uuid: String,
    pub name: String,
}

/// A player of any other game.
#[derive(Debug)]
pub struct GenericPlayer {
    pub id: String,
    pub name: String,
}

impl TPlayer for MinecraftPlayer {
    fn get_id(&self) -> (id: String)
        ensures
            id@ == self.uuid@,
    {
        self.uuid.clone()
    }

    fn get_name(&self) -> (name: String)
        ensures
            name@ == self.name@,
    {
        self.name.clone()
    }
}

impl TPlayer for GenericPlayer {
    fn get_id(&self) -> (id: String)
        ensures
            id@ == self.id@,
    {
        self.id.clone()
    }

    fn get_name(&self) -> (name: String)
        ensures
            name@ == self.name@,
    {
        self.name.clone()
    }
}

/// A player of some game. Two players are the same player when their identifiers agree.
#[derive(Debug)]
pub enum Player {
    MinecraftPlayer(MinecraftPlayer),
    GenericPlayer(GenericPlayer),
}

impl Player {
    /// The identifier of the player.
    pub open spec fn id(&self) -> Seq<char> {
        match self {
            Player::MinecraftPlayer(p) => p.uuid@,
            Player::GenericPlayer(p) => p.id@,
        }
    }

    /// The name of the player.
    pub open spec fn name(&self) -> Seq<char> {
        match self {
            Player::MinecraftPlayer(p) => p.name@,
            Player::GenericPlayer(p) => p.name@,
        }
    }
}

impl TPlayer for Player {
    fn get_id(&self) -> (id: String)
        ensures
            id@ == self.id(),
    {
        match self {
            Player::MinecraftPlayer(p) => p.get_id(),
            Player::GenericPlayer(p) => p.get_id(),
        }
    }

    fn get_name(&self) -> (name: String)
        ensures
            name@ == self.name(),
    {
        match self {
            Player::MinecraftPlayer(p) => p.get_name(),
            Player::GenericPlayer(p) => p.get_name(),
        }
    }
}

impl PartialEq for Player {
    fn eq(&self, other: &Self) -> (same: bool) {
        self.get_id() == other.get_id()
    }
}

impl PartialEqSpecImpl for Player {
    open spec fn obeys_eq_spec() -> bool {
        true
    }

    open spec fn eq_spec(&self, other: &Self) -> bool {
        self.id() == other.id()
    }
}

impl Eq for Player {

}

/// `String`'s `Hash::hash`: feeds the text to the hasher. Nothing is claimed of the
/// hasher's state.
pub assume_specification<H: std::hash::Hasher>[ <String as std::hash::Hash>::hash ](
    text: &String,
    state: &mut H,
);

impl std::hash::Hash for Player {
    fn hash<H: std::hash::Hasher>(&self, state: &mut H) {
        self.get_id().hash(state);
    }
}

/// The message of the error for an operation that an instance does not offer.
pub open spec fn unsupported_message(action: Seq<char>) -> Seq<char> {
    action + " is unsupported for this instance"@
}

/// The error for an operation that an instance does not offer.
pub fn unsupported(action: &str) -> (error: Error)
    ensures
        error@.kind == ErrorKind::UnsupportedOperation,
        error@.source == unsupported_message(action@),
{
    Error {
        kind: ErrorKind::UnsupportedOperation,
        source: String::from_str(action).concat(" is unsupported for this instance"),
    }
}

/// The player operations that an instance may offer.
#[derive(Copy, Clone, Debug, PartialEq, Eq, Structural)]
pub enum PlayerOperation {
    GetPlayerCount,
    GetMaxPlayerCount,
    GetPlayerList,
    SetMaxPlayerCount,
}

/// How the refusal of an operation names it.
pub open spec fn operation_text(operation: PlayerOperation) -> Seq<char> {
    match operation {
        PlayerOperation::GetPlayerCount => "Getting player count"@,
        PlayerOperation::GetMaxPlayerCount => "Getting max player count"@,
        PlayerOperation::GetPlayerList => "Getting player list"@,
        PlayerOperation::SetMaxPlayerCount => "Setting max player count"@,
    }
}

/// Whether `error` is the refusal of `operation`: an `UnsupportedOperation` error whose
/// message names the operation.
pub open spec fn refuses(error: Error, operation: PlayerOperation) -> bool {
    error@.kind == ErrorKind::UnsupportedOperation && error@.source == unsupported_message(
        operation_text(operation),
    )
}

/// The player operations of a game instance. An instance overrides what it offers and
/// says so in `offers`; an operation that it does not offer answers with the refusal of
/// that operation.
pub trait TPlayerManagement {
    /// Whether the instance offers `operation`. An instance that overrides nothing
    /// offers nothing.
    open spec fn offers(&self, operation: PlayerOperation) -> bool {
        false
    }

    fn get_player_count(&self) -> (count: Result<u32, Error>)
        ensures
            !self.offers(PlayerOperation::GetPlayerCount) ==> (count matches Err(e) && refuses(
                e,
                PlayerOperation::GetPlayerCount,
            )),
    {
        Err(unsupported("Getting player count"))
    }

    fn get_max_player_count(&self) -> (count: Result<u32, Error>)
        ensures
            !self.offers(PlayerOperation::GetMaxPlayerCount) ==> (count matches Err(e) && refuses(
                e,
                PlayerOperation::GetMaxPlayerCount,
            )),
    {
        Err(unsupported("Getting max player count"))
    }

    fn get_player_list(&self) -> (players: Result<HashSet<Player>, Error>)
        ensures
            !self.offers(PlayerOperation::GetPlayerList) ==> (players matches Err(e) && refuses(
                e,
                PlayerOperation::GetPlayerList,
            )),
    {
        Err(unsupported("Getting player list"))
    }

    fn set_max_player_count(&self, _max_player_count: u32) -> (done: Result<(), Error>)
        ensures
            !self.offers(PlayerOperation::SetMaxPlayerCount) ==> (done matches Err(e) && refuses(
                e,
                PlayerOperation::SetMaxPlayerCount,
            )),
    {
        Err(unsupported("Setting max player count"))
    }
}

/// An instance that offers no player operations.
#[derive(Copy, Clone, Debug)]
pub struct NoPlayerManagement;

impl TPlayerManagement for NoPlayerManagement {

}

} // verus!
