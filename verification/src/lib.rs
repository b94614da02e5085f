//! A small verified data layer for a catalogue of "desires": records with a
//! name, two priority attributes, optional links, notes, coordinates and
//! lifecycle timestamps.
//!
//! The crate models the whole persistence layer as an in-memory table kept
//! ordered by creation time, and proves the create / list / update / delete
//! semantics: validation on create, per-field coalescing on update, and the
//! ordering invariant of the listing.

pub mod config;
pub mod handlers;
pub mod models;
pub mod store;
