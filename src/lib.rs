//! Missions, crew memberships and the rules that govern them: the mission
//! status state machine, the capacity-bounded join/leave protocol, and an
//! in-memory store that implements the repository interfaces with all-or-nothing
//! crew transactions.

pub mod brawlers;
pub mod config;
pub mod crew_operation;
pub mod entities;
pub mod error;
pub mod jwt;
pub mod laws;
pub mod mission_management;
pub mod mission_operation;
pub mod mission_viewing;
pub mod repositories;
pub mod rules;
pub mod store;
