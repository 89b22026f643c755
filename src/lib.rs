//! Extraction and clean-up of entity names published in a reference page.
//!
//! The page's markup is read for the `id` of every inline span element,
//! known page-structure identifiers are dropped, and each remaining
//! identifier becomes a display name by turning underscores into spaces.
//! A quiz over the resulting list compares typed answers without regard
//! to case.
pub mod exclusion;
pub mod extract;
pub mod normalize;
pub mod pipeline;
pub mod quiz;
