//! The selection guard: validates a candidate path against the policy and,
//! only when it passes, commits it — together with a stable identity token
//! for the filesystem object it named at validation time — as the current
//! selection. Rejection never disturbs a previously committed selection.
//!
//! The guard itself never touches the filesystem: the caller performs a
//! non-following metadata query (an `lstat`-equivalent) on the candidate
//! and hands its outcome in as a [`PathLookup`], so that every decision
//! taken here is verified for every possible outcome of that query.

use vstd::prelude::*;

use crate::policy::{is_protected, has_protected_name};

verus! {

/// A stable identity token for a filesystem object: its device and inode
/// numbers (or an equivalent pair on other systems).
#[derive(PartialEq, Eq, Structural, Clone, Copy, Debug)]
pub struct FileId {
    pub dev: u64,
    pub ino: u64,
}

/// Why a candidate path was refused.
#[derive(PartialEq, Eq, Structural, Clone, Copy, Debug)]
pub enum RejectionReason {
    /// The path names no filesystem entry.
    NotFound,
    /// The entry is a symbolic link.
    Symlink,
    /// The path's last component is the protected name.
    ProtectedName,
}

/// What a non-following metadata query of the candidate path reported.
#[derive(PartialEq, Eq, Structural, Clone, Copy, Debug)]
pub enum PathLookup {
    /// The path names no entry.
    Missing,
    /// The path names an entry; `is_symlink` is taken from the entry's own,
    /// un-followed metadata, and `id` is its identity token.
    Present { is_symlink: bool, id: FileId },
}

/// A committed selection: the path as the caller gave it, and the identity
/// of the object it named when it was validated.
pub struct Selection {
    pub path: Vec<u8>,
    pub id: FileId,
}

impl View for Selection {
    type V = (Seq<u8>, FileId);

    open spec fn view(&self) -> (Seq<u8>, FileId) {
        (self.path@, self.id)
    }
}

/// The shared state of the service: at most one committed selection.
pub struct Guard {
    pub selection: Option<Selection>,
}

impl View for Guard {
    type V = Option<(Seq<u8>, FileId)>;

    open spec fn view(&self) -> Option<(Seq<u8>, FileId)> {
        match self.selection {
            Some(s) => Some(s@),
            None => None,
        }
    }
}

/// The identity token carried by a lookup that found an entry.
pub open spec fn lookup_id(lookup: PathLookup) -> FileId {
    match lookup {
        PathLookup::Present { id, .. } => id,
        PathLookup::Missing => FileId { dev: 0, ino: 0 },
    }
}

/// What selecting `path` answers, given what the metadata query reported:
/// a symbolic link is refused first, then the protected name (whether or
/// not the entry exists), then a missing entry; everything else passes.
pub open spec fn select_outcome(path: Seq<u8>, lookup: PathLookup) -> Result<
    (),
    RejectionReason,
> {
    if lookup matches PathLookup::Present { is_symlink: true, .. } {
        Err(RejectionReason::Symlink)
    } else if is_protected(path) {
        Err(RejectionReason::ProtectedName)
    } else if lookup is Missing {
        Err(RejectionReason::NotFound)
    } else {
        Ok(())
    }
}

/// The selection state after selecting `path`: replaced on success, kept
/// exactly as it was on any rejection.
pub open spec fn select_next(
    cur: Option<(Seq<u8>, FileId)>,
    path: Seq<u8>,
    lookup: PathLookup,
) -> Option<(Seq<u8>, FileId)> {
    if select_outcome(path, lookup) is Ok {
        Some((path, lookup_id(lookup)))
    } else {
        cur
    }
}

/// The selection invariant: a committed path never bears the protected name.
pub open spec fn state_obeys_policy(state: Option<(Seq<u8>, FileId)>) -> bool {
    state matches Some((path, _)) ==> !is_protected(path)
}

impl Guard {
    /// A fresh guard with nothing selected.
    pub fn new() -> (g: Guard)
        ensures
            g@ is None,
    {
        Guard { selection: None }
    }

    /// Validates the candidate against the policy and, only on success,
    /// commits it as the current selection, bound to the identity the
    /// metadata query reported. Every rejection leaves the prior selection
    /// untouched.
    pub fn select(&mut self, path: Vec<u8>, lookup: PathLookup) -> (r: Result<
        (),
        RejectionReason,
    >)
        ensures
            r == select_outcome(path@, lookup),
            final(self)@ == select_next(old(self)@, path@, lookup),
    {
        match lookup {
            PathLookup::Present { is_symlink, id } => {
                if is_symlink {
                    Err(RejectionReason::Symlink)
                } else if has_protected_name(&path) {
                    Err(RejectionReason::ProtectedName)
                } else {
                    self.selection = Some(Selection { path, id });
                    Ok(())
                }
            },
            PathLookup::Missing => {
                if has_protected_name(&path) {
                    Err(RejectionReason::ProtectedName)
                } else {
                    Err(RejectionReason::NotFound)
                }
            },
        }
    }
}

/// A presentation-only snapshot of the current selection: its path and the
/// identity token captured when it was validated.
pub struct Description {
    pub path: Vec<u8>,
    pub id: FileId,
}

impl View for Description {
    type V = (Seq<u8>, FileId);

    open spec fn view(&self) -> (Seq<u8>, FileId) {
        (self.path@, self.id)
    }
}

/// An explicit byte-for-byte copy, with its contents pinned.
pub(crate) fn copy_bytes(v: &Vec<u8>) -> (r: Vec<u8>)
    ensures
        r@ == v@,
{
    let mut r: Vec<u8> = Vec::new();
    let mut i: usize = 0;
    while i < v.len()
        invariant
            i <= v.len(),
            r@ == v@.subrange(0, i as int),
        decreases v.len() - i,
    {
        r.push(v[i]);
        proof {
            assert(v@.subrange(0, i as int).push(v@[i as int]) =~= v@.subrange(
                0,
                i + 1,
            ));
        }
        i = i + 1;
    }
    proof {
        assert(v@.subrange(0, v.len() as int) =~= v@);
    }
    r
}

impl Guard {
    /// Reports the current selection, without validating or reading
    /// anything: `None` exactly when nothing is selected, otherwise the
    /// selected path and its captured identity.
    pub fn describe_current(&self) -> (r: Option<Description>)
        ensures
            match r {
                Some(d) => self@ == Some(d@),
                None => self@ is None,
            },
    {
        match &self.selection {
            Some(s) => Some(Description { path: copy_bytes(&s.path), id: s.id }),
            None => None,
        }
    }
}

/// Law: a symbolic link is always refused as such, whatever it points to,
/// and refusing it changes nothing.
pub proof fn lemma_symlink_always_rejected(
    cur: Option<(Seq<u8>, FileId)>,
    path: Seq<u8>,
    lookup: PathLookup,
)
    requires
        lookup matches PathLookup::Present { is_symlink: true, .. },
    ensures
        select_outcome(path, lookup) == Err::<(), RejectionReason>(RejectionReason::Symlink),
        select_next(cur, path, lookup) == cur,
{
}

/// Law: a path whose last component is the protected name is refused as
/// such whenever the entry is not a symbolic link — existing or missing,
/// plain or nested — and refusing it changes nothing.
pub proof fn lemma_protected_name_rejected(
    cur: Option<(Seq<u8>, FileId)>,
    path: Seq<u8>,
    lookup: PathLookup,
)
    requires
        is_protected(path),
        !(lookup matches PathLookup::Present { is_symlink: true, .. }),
    ensures
        select_outcome(path, lookup) == Err::<(), RejectionReason>(
            RejectionReason::ProtectedName,
        ),
        select_next(cur, path, lookup) == cur,
{
}

/// Law: a missing entry whose name is not protected is refused as not
/// found, and refusing it changes nothing.
pub proof fn lemma_missing_rejected(cur: Option<(Seq<u8>, FileId)>, path: Seq<u8>)
    requires
        !is_protected(path),
    ensures
        select_outcome(path, PathLookup::Missing) == Err::<(), RejectionReason>(
            RejectionReason::NotFound,
        ),
        select_next(cur, path, PathLookup::Missing) == cur,
{
}

/// Law: selecting the same candidate twice, with the metadata query
/// reporting the same outcome, leaves exactly the state one selection
/// leaves.
pub proof fn lemma_select_idempotent(
    cur: Option<(Seq<u8>, FileId)>,
    path: Seq<u8>,
    lookup: PathLookup,
)
    ensures
        select_next(select_next(cur, path, lookup), path, lookup) == select_next(
            cur,
            path,
            lookup,
        ),
{
}

/// Law: the selection invariant — a committed path never bears the
/// protected name — holds of a fresh guard and is preserved by every
/// selection, accepted or refused.
pub proof fn lemma_policy_invariant_preserved(
    cur: Option<(Seq<u8>, FileId)>,
    path: Seq<u8>,
    lookup: PathLookup,
)
    requires
        state_obeys_policy(cur),
    ensures
        state_obeys_policy(select_next(cur, path, lookup)),
{
}

} // verus!
