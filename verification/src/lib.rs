//! A small file-search library: it enumerates regular files under root
//! directories, filters them by name pattern and by size bounds, and renders
//! the survivors as a list of path lines.
//!
//! The filesystem itself is only probed by the caller: the walk's decisions
//! live in [`walker`], the filter chain in [`filters`], and the output lines
//! in [`output`], each with a contract over the records of [`record`].

pub mod filters;
pub mod output;
pub mod pattern;
pub mod record;
pub mod walker;
pub mod warnings;
