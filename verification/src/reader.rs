//! The guarded reader: before the contents behind the current selection
//! may be read, the freshly opened handle is probed and held against the
//! identity token captured when the selection was validated. Only the very
//! object that was validated — still no symbolic link, same identity — may
//! be read, so an object swapped in behind the path after selection is
//! refused, however much time has passed in between.
//!
//! The read itself is filesystem work and stays with the caller: it opens
//! the selected path once, probes that open handle (its identity from the
//! handle's own metadata, the symlink test from a fresh un-followed query
//! of the path), hands the probe in as a [`ReadProbe`], and reads through
//! the same handle only when [`Selection::authorize_read`] allows it.

use vstd::prelude::*;

use crate::selection::{copy_bytes, FileId, Guard, Selection};

verus! {

/// Why reading the current selection failed.
#[derive(PartialEq, Eq, Structural, Clone, Copy, Debug)]
pub enum ReadError {
    /// Nothing is selected.
    NoSelection,
    /// The object behind the selected path is no longer the one that was
    /// validated: it was swapped, or a symbolic link now stands there.
    PolicyViolation,
    /// The handle could not be opened or read.
    IoFailure,
}

/// What probing the freshly opened handle reported.
#[derive(PartialEq, Eq, Structural, Clone, Copy, Debug)]
pub enum ReadProbe {
    /// Opening the selected path failed.
    OpenFailed,
    /// A handle is open; `id` is its identity token, `is_symlink` whether
    /// an un-followed query of the path now reports a symbolic link.
    Opened { is_symlink: bool, id: FileId },
}

/// The decision taken immediately before a read: a failed open is an I/O
/// failure; an open object is readable exactly when it is not a symbolic
/// link and still carries the identity captured at selection time.
pub open spec fn read_outcome(expected: FileId, probe: ReadProbe) -> Result<(), ReadError> {
    match probe {
        ReadProbe::OpenFailed => Err(ReadError::IoFailure),
        ReadProbe::Opened { is_symlink, id } => if is_symlink || id != expected {
            Err(ReadError::PolicyViolation)
        } else {
            Ok(())
        },
    }
}

impl Guard {
    /// The first half of a guarded read: hands out a snapshot of the
    /// current selection — the path to open and the identity to hold the
    /// open handle against — or reports that nothing is selected.
    pub fn begin_read(&self) -> (r: Result<Selection, ReadError>)
        ensures
            match r {
                Ok(s) => self@ == Some(s@),
                Err(e) => self@ is None && e == ReadError::NoSelection,
            },
    {
        match &self.selection {
            Some(s) => Ok(Selection { path: copy_bytes(&s.path), id: s.id }),
            None => Err(ReadError::NoSelection),
        }
    }
}

impl Selection {
    /// The second half of a guarded read: re-validates the probe of the
    /// open handle against the identity captured at selection time, and
    /// allows the read only when they agree and no symbolic link stands
    /// behind the path.
    pub fn authorize_read(&self, probe: ReadProbe) -> (r: Result<(), ReadError>)
        ensures
            r == read_outcome(self.id, probe),
    {
        match probe {
            ReadProbe::OpenFailed => Err(ReadError::IoFailure),
            ReadProbe::Opened { is_symlink, id } => {
                if is_symlink || !(id.dev == self.id.dev && id.ino == self.id.ino) {
                    Err(ReadError::PolicyViolation)
                } else {
                    Ok(())
                }
            },
        }
    }
}

/// Law: if the object behind the selected path was swapped for another —
/// or a symbolic link now stands there — after the selection was
/// validated, the read is refused as a policy violation; the swapped-in
/// contents are never released.
pub proof fn lemma_swapped_object_never_read(expected: FileId, is_symlink: bool, id: FileId)
    requires
        is_symlink || id != expected,
    ensures
        read_outcome(expected, (ReadProbe::Opened { is_symlink, id })) == Err::<
            (),
            ReadError,
        >(ReadError::PolicyViolation),
{
}

/// Law: a read is authorized only for the very object captured at
/// selection time: the handle opened, no symbolic link behind the path,
/// and the identity unchanged.
pub proof fn lemma_only_validated_object_read(expected: FileId, probe: ReadProbe)
    requires
        read_outcome(expected, probe) is Ok,
    ensures
        probe matches ReadProbe::Opened { is_symlink, id } && !is_symlink && id == expected,
{
}

} // verus!
