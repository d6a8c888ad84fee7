//! A small directory-listing library: entries are enriched with a humanized
//! size and age, classified into display categories, filtered by display
//! options and rendered as short or long text lines, optionally coloured.
//!
//! The caller enumerates a directory and reduces each entry to a
//! [`record::RawEntry`] of plain values; [`record::enrich`] builds one
//! [`record::EntryRecord`] per entry, and [`render::render`] turns the
//! records into output lines under a set of [`render::Options`].
use vstd::prelude::*;

pub mod classify;
pub mod color;
pub mod humanize;
pub mod record;
pub mod render;
pub mod strutil;

verus! {

/// Why collecting a directory's entries failed. Collection is
/// all-or-nothing: any failure discards the partial result.
#[derive(Clone, Debug, PartialEq, Eq)]
pub enum IoError {
    /// The path does not exist.
    NotFound,
    /// The path is not readable.
    PermissionDenied,
    /// Any other failure, with its description.
    Other(String),
}

} // verus!
