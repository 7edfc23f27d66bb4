use vstd::prelude::*;

verus! {

/// Which of the two names of the DLL is present on disk.
#[derive(Clone, Copy, Debug, PartialEq, Eq, Structural)]
pub enum DllState {
    /// The DLL is under its live name: the mod is enabled.
    Active,
    /// The DLL is under its renamed name: the mod is disabled.
    Disabled,
}

/// What a request to rename `from` into `to` should do, given which of the
/// two names exist.
#[derive(Clone, Copy, Debug, PartialEq, Eq, Structural)]
pub enum RenamePlan {
    /// `from` exists and `to` does not: rename it, in one step.
    Rename,
    /// `to` already exists: the target state holds, nothing to do.
    AlreadyInPlace,
    /// Neither name exists: report it and do nothing.
    SourceMissing,
}

/// The decision of the rename primitive, by the existence of both names.
pub open spec fn plan_of(from_exists: bool, to_exists: bool) -> RenamePlan {
    if to_exists {
        RenamePlan::AlreadyInPlace
    } else if from_exists {
        RenamePlan::Rename
    } else {
        RenamePlan::SourceMissing
    }
}

/// The set of existing paths after a rename of `from` into `to` was asked for,
/// when the rename itself succeeds.
pub open spec fn after_rename(disk: Set<Seq<char>>, from: Seq<char>, to: Seq<char>) -> Set<Seq<char>> {
    match plan_of(disk.contains(from), disk.contains(to)) {
        RenamePlan::Rename => disk.remove(from).insert(to),
        _ => disk,
    }
}

/// The state that the presence of the two names shows, if any.
pub open spec fn state_of(active_exists: bool, disabled_exists: bool) -> Option<DllState> {
    if active_exists {
        Some(DllState::Active)
    } else if disabled_exists {
        Some(DllState::Disabled)
    } else {
        None
    }
}

/// Decides what renaming `from` into `to` does: rename when only the source
/// is there, nothing when the target is already there, and a report when
/// neither is.
pub fn plan_rename(from_exists: bool, to_exists: bool) -> (r: RenamePlan)
    ensures
        r == plan_of(from_exists, to_exists),
{
    if from_exists && !to_exists {
        RenamePlan::Rename
    } else if to_exists {
        RenamePlan::AlreadyInPlace
    } else {
        RenamePlan::SourceMissing
    }
}

/// Detects the toggle state from which of the two names exist; the live name
/// wins when both are there.
pub fn detect_state(active_exists: bool, disabled_exists: bool) -> (r: Option<DllState>)
    ensures
        r == state_of(active_exists, disabled_exists),
{
    if active_exists {
        Some(DllState::Active)
    } else if disabled_exists {
        Some(DllState::Disabled)
    } else {
        None
    }
}

/// Renaming into a name that already exists changes nothing on disk and is
/// planned as already in place, not as an error.
pub proof fn lemma_rename_idempotent(disk: Set<Seq<char>>, from: Seq<char>, to: Seq<char>)
    requires
        disk.contains(to),
    ensures
        plan_of(disk.contains(from), disk.contains(to)) == RenamePlan::AlreadyInPlace,
        after_rename(disk, from, to) == disk,
{
}

/// Starting where `a` exists and `b` does not, renaming `a` into `b` and then
/// `b` into `a` gives back the disk as it was.
pub proof fn lemma_rename_round_trip(disk: Set<Seq<char>>, a: Seq<char>, b: Seq<char>)
    requires
        disk.contains(a),
        !disk.contains(b),
    ensures
        after_rename(disk, a, b).contains(b),
        !after_rename(disk, a, b).contains(a),
        after_rename(after_rename(disk, a, b), b, a) == disk,
{
    let mid = after_rename(disk, a, b);
    assert(mid == disk.remove(a).insert(b));
    assert(after_rename(mid, b, a) == mid.remove(b).insert(a));
    assert(after_rename(mid, b, a) =~= disk);
}

} // verus!
