//! Chunk-by-chunk reconciliation of a primary file against a comparison file.
//!
//! Both files arrive split into chunks. Each call of the comparator folds one
//! comparison chunk into the per-row verdicts of one primary chunk; the
//! pipeline session decides, one queue event at a time, where the reconciled
//! chunk goes next.

pub mod algorithm;
pub mod entities;
pub mod messages;
pub mod pipeline;
pub mod text;
