//! Verified core of a ticket marketplace: users, artists, events, ticket
//! tiers and orders, with the rules that keep them consistent.

pub mod text;
pub mod like;
pub mod sort;
pub mod keys;
pub mod model;
pub mod state;
pub mod integrity;
mod tables;
pub mod ids;
pub mod hub;
pub mod listing;
mod queries;
pub mod seed;
pub mod laws;
pub mod time;
