//! The rules of a guild-scoped paper economy for prediction markets:
//! balances, claims, donations, loans, bonds, market resolution and the
//! text the bot renders, each stated as a verified function over plain
//! values.

pub mod text;
pub mod error;
pub mod market;
pub mod ui;
pub mod clock;
pub mod users;
pub mod config;
pub mod social;
pub mod bonds;
pub mod trading;
pub mod resolution;
pub mod manifold;
pub mod startup;
pub mod admin;
pub mod jobs;
pub mod input;
