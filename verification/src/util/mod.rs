//! Small utilities.

pub mod clonecell;
