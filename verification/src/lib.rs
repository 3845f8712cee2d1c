//! A verified core for a command-line client of a remote hierarchical
//! task-list service (lists containing tasks).
//!
//! Users name lists and tasks by title or by positional display index
//! rather than by server identifiers. The library covers the logic that
//! makes this safe: resolving a name-or-index token against a freshly
//! fetched enumeration of a collection, and sequencing bulk operations
//! (add, remove, finish) so that every token is resolved against one
//! enumeration snapshot before any mutation is issued, which prevents
//! index drift when earlier deletions would shift later positions.
//!
//! All network I/O lives outside this crate: the batch modules expose
//! step functions from state and event to next state and action, and an
//! unverified driver performs each action against the remote service.

pub mod model;

pub mod digits;

pub mod resolve;

pub mod batch;

pub mod config;

pub mod style;

pub mod present;

pub mod lists;

pub mod tasks;
