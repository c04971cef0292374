//! A deferred registration-and-dispatch runtime.
//!
//! Independent units declare "run this action for owner X". The runtime
//! collects every such declaration, groups the actions by owner once, and
//! later lets each owner run exactly its own actions, in the order in which
//! they were collected.
//!
//! - [`entry`]: owner keys and registration entries.
//! - [`collector`]: the two backends that gather the entries.
//! - [`table`]: the table that a sequence of entries stands for.
//! - [`registry`]: the built table, lookup and dispatch.
//! - [`builder`]: building the registry once, on first use.
//! - [`system`]: actions, and what running a sequence of them means.
//! - [`laws`]: what holds of all entries, owners and contexts.
//! - [`attr`], [`stage`], [`naming`]: arguments, stages and names used by the
//!   code that writes registrations.

pub mod attr;
pub mod builder;
pub mod collector;
pub mod entry;
pub mod laws;
pub mod naming;
pub mod registry;
pub mod stage;
pub mod system;
pub mod table;
mod text;
