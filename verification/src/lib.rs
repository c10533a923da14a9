//! A tag normalizer for decoded audio metadata.
//!
//! An audio decoder hands back a flat list of key/value tag entries, some
//! carrying a recognized standard role and some only a free-form vendor key.
//! This crate reduces such a list to one canonical [`metadata::AudioMetadata`]
//! record: a fixed table maps the recognized roles onto record fields (the
//! last tag targeting a field wins), a priority heuristic over the vendor
//! keys `YEAR`, `DATE` and `ORIGINALYEAR` picks a four-digit year, and every
//! absent or malformed source collapses to a default value.  Normalization is
//! total: no input fails.

pub mod metadata;
pub mod normalize;
pub mod year;
