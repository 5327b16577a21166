//! Shop, command and maintenance logic of a Discord shop bot for a game server.
use vstd::prelude::*;

pub mod text;
pub mod command;
pub mod shop;
pub mod config;
pub mod account;
pub mod destroy;
pub mod cooldown;
pub mod maintenance;
pub mod purchase;

verus! {

} // verus!
