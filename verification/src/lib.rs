use vstd::prelude::*;

pub mod text;
pub mod instruction;
pub mod pair_order;
pub mod catalog;
pub mod config;
pub mod command;
pub mod command_properties;
pub mod relay;
pub mod servers;
pub mod queue;
pub mod schedule;
pub mod hardware;
pub mod hud;
pub mod outbound;
pub mod vision;
pub mod listing;

verus! {

} // verus!
