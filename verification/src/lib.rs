//! A library for preparing open-source license files: filtering a fetched
//! license list, detecting placeholder markers in license text, substituting
//! user-supplied values for those markers, and deciding how a rendered
//! license may be written to disk without clobbering an existing file.

pub mod errors;
pub mod git;
pub mod markers;
pub mod num;
pub mod spdx;
pub mod template;
pub mod text;
