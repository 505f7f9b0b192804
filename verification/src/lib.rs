//! Flat directory backup: the verified core of a utility that copies every
//! direct child of a source directory into a destination directory, with the
//! destination path formed by plain string concatenation, aborting on the
//! first failure and never rolling back files already copied.
//!
//! The filesystem itself is outside this library: callers list the source
//! directory and move the bytes, while the functions here decide what is
//! copied, under which destination path, and in which order work stops.

pub mod copier;
pub mod naming;
pub mod session;
