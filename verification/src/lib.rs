//! Compilation orchestration core of a small interactive front end: a
//! virtual multi-file workspace, compatibility rules between compilation
//! targets and field algebras, a recompilation pipeline driven by the
//! outcomes of the external compiler and witness collaborators, and a
//! layered result model.

pub mod fields;
pub mod fs;
pub mod ide;
pub mod outcome;
pub mod pipeline;
pub mod sanitize;
pub mod selection;
pub mod workspace;
