//! An append-only registry of short, author-attributed historical fact
//! records, kept in fixed-size storage slots.
//!
//! The crate has two responsibilities: the layout calculator in [`layout`]
//! derives the exact byte footprint a record's storage slot is allocated
//! with, and the record writer in [`archive`] validates caller input,
//! stamps authorship and timing metadata, and commits a fully populated
//! record into a fresh slot. A record is written exactly once: there is no
//! update or deletion path.

pub mod archive;
pub mod layout;
pub mod record;
