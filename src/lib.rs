//! Normalization of animal-shelter listings into the records a static site
//! consumes.
//!
//! - `text`: characters of strings, trimming, substring search, case mapping.
//! - `urls`: the asset id of an image URL and the CDN URLs built on it.
//! - `html`: a description as sanitized HTML, plain text and Markdown.
//! - `attributes`: compatibility and status flags as labels.
//! - `models`: the records read from the service and the record written.
//! - `normalize`: one output record from a listing, its details and its photos.

pub mod text;
pub mod urls;
pub mod html;
pub mod models;
pub mod attributes;
pub mod normalize;
