//! Rules engine for an agricultural commodity marketplace.
//!
//! The engine validates product listings, runs time-bounded auctions with
//! bulk-quantity discounts, tracks the freshness of perishable goods and the
//! price that follows from it, and compares listing prices with reference
//! prices published by a single administrator.
//!
//! Every operation is a function of the stored state, its arguments and the
//! current time handed in by the host. Each either commits all of its changes
//! or fails and leaves the state as it was.
//!
//! - [`market`] holds the marketplace itself: the stored state and the
//!   operations on it.
//! - [`model`] is the mathematical state that the marketplace presents, with
//!   each operation as a function on it; [`laws`] states and proves what holds
//!   of that model.
//! - [`steps`] offers each operation as a step on records that a host has
//!   loaded from a store of its own.
//! - [`product`], [`auction`] and [`oracle`] hold the records and the rules
//!   that concern one record; [`freshness`], [`pricing`] and [`config`] hold
//!   the freshness clock, the percentage arithmetic and the deployment's
//!   configuration; [`ident`] and [`error`] hold identities, tags and failures.

pub mod auction;
pub mod config;
pub mod error;
pub mod freshness;
pub mod ident;
pub mod laws;
pub mod market;
pub mod model;
pub mod oracle;
pub mod pricing;
pub mod product;
pub mod steps;
mod store;
