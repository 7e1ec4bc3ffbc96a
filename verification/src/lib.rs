//! Small, composable helpers for manipulating filesystem path values:
//! canonicalization, basename and parent extraction, and temporary-path
//! generation, together with the path-like abstractions that let callers
//! pass either a path value or a plain string interchangeably.

pub mod error;
pub mod path;
