//! A small personal library catalog core: given an ISBN, the enrichment
//! pipeline locates a matching book listing on a remote catalog site,
//! follows it to a detail page, and extracts a structured book record
//! from loosely structured HTML by a label-driven heuristic.
//!
//! The pipeline logic (payload scanning, candidate selection, the
//! sibling-walk field extraction, and projection into the record shape)
//! is verified here; the outbound HTTP calls and the HTML tree parsing
//! live with the caller, which hands their results in as plain values.

pub mod douban;
pub mod fieldmap;
pub mod page;
pub mod record;
pub mod text;
