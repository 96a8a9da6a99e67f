//! A guarded file-access service.
//!
//! A caller selects a filesystem path; a fixed policy (no symbolic links,
//! no path whose last component is a protected name) is enforced when the
//! selection is committed, and a later read is authorized only against the
//! very filesystem object that was validated, so that nothing swapped in
//! between the check and the use can ever be read.

pub mod policy;
pub mod reader;
pub mod selection;
