use vstd::prelude::*;

use crate::config::LaunchConfig;

verus! {

/// A failed existence check, naming what was looked for.
#[derive(Clone, Debug)]
pub enum MissingFile {
    /// A required file is absent.
    File(String),
    /// Neither name of an associated pair is present.
    Pair(String, String),
}

impl MissingFile {
    /// The paths that the report names, in order.
    pub open spec fn paths(&self) -> Seq<Seq<char>> {
        match self {
            MissingFile::File(p) => seq![p@],
            MissingFile::Pair(a, b) => seq![a@, b@],
        }
    }
}

/// Which of the configured paths were found on disk.
#[derive(Clone, Copy, Debug, PartialEq, Eq, Structural)]
pub struct Presence {
    pub executable: bool,
    pub active_dll: bool,
    pub disabled_dll: bool,
}

/// Checks a single required file: it passes when it exists, and otherwise
/// the report names exactly that path.
pub fn check_file_exists(path: &str, exists: bool) -> (r: Result<(), MissingFile>)
    ensures
        exists ==> r is Ok,
        !exists ==> (r matches Err(MissingFile::File(p)) && p@ == path@),
{
    if exists {
        Ok(())
    } else {
        Err(MissingFile::File(path.to_owned()))
    }
}

/// Checks the two names of one file: it passes when either exists, and
/// otherwise the report names both paths, in the order given.
pub fn check_associated_files_exists(
    path_one: &str,
    one_exists: bool,
    path_two: &str,
    two_exists: bool,
) -> (r: Result<(), MissingFile>)
    ensures
        one_exists || two_exists ==> r is Ok,
        !one_exists && !two_exists ==> (r matches Err(MissingFile::Pair(a, b)) && a@ == path_one@
            && b@ == path_two@),
{
    if one_exists || two_exists {
        Ok(())
    } else {
        Err(MissingFile::Pair(path_one.to_owned(), path_two.to_owned()))
    }
}

/// The reports that validating a configuration against what is on disk gives:
/// first the executable's, then the DLL pair's, each only where it failed.
pub open spec fn reports_of(cfg: LaunchConfig, p: Presence) -> Seq<Seq<Seq<char>>> {
    let exe: Seq<Seq<Seq<char>>> = if p.executable {
        seq![]
    } else {
        seq![seq![cfg.executable@]]
    };
    let dll: Seq<Seq<Seq<char>>> = if p.active_dll || p.disabled_dll {
        seq![]
    } else {
        seq![seq![cfg.active_dll@, cfg.disabled_dll@]]
    };
    exe + dll
}

/// Runs both checks of a configuration and collects the failures. The
/// configuration may proceed to the menu exactly when nothing is reported.
pub fn validate(cfg: &LaunchConfig, p: Presence) -> (r: Vec<MissingFile>)
    ensures
        r@.map_values(|m: MissingFile| m.paths()) == reports_of(*cfg, p),
        r@.len() == 0 <==> (p.executable && (p.active_dll || p.disabled_dll)),
{
    let mut reports: Vec<MissingFile> = Vec::new();
    let exe = check_file_exists(cfg.executable.as_str(), p.executable);
    if let Err(m) = exe {
        reports.push(m);
    }
    let dll = check_associated_files_exists(
        cfg.active_dll.as_str(),
        p.active_dll,
        cfg.disabled_dll.as_str(),
        p.disabled_dll,
    );
    if let Err(m) = dll {
        reports.push(m);
    }
    assert(reports@.map_values(|m: MissingFile| m.paths()) =~= reports_of(*cfg, p));
    reports
}

} // verus!
