//! Path resolution: shell-style expansion of a descriptor's declared path.
//! Existence probing is left to the caller at the process edge.
use vstd::prelude::*;

verus! {

/// One entry's path could not be expanded: a variable it references is
/// unset or unreadable. Recoverable; the entry is reported to the
/// diagnostic stream and skipped.
#[derive(Debug)]
pub struct ExpandError {
    /// The declared path, as written in the document.
    pub raw_path: String,
    /// The expander's description of the failed lookup.
    pub message: String,
}

/// What probing a path's existence can find. The filtering rules collapse
/// an undetermined probe (a permission or I/O failure) into absence; the
/// policy is named here so a revision could tell the two apart.
#[derive(Clone, Copy, PartialEq, Eq, Structural, Debug)]
pub enum ExistenceProbeOutcome {
    Exists,
    Absent,
    Undetermined,
}

/// Whether a probe outcome counts as existing for filtering purposes.
pub open spec fn counts_as_existing(outcome: ExistenceProbeOutcome) -> bool {
    outcome is Exists
}

/// A descriptor's path after expansion, paired with the collapsed result
/// of the existence probe. Computed once per descriptor per run.
pub struct ResolvedPath {
    pub expanded_path: String,
    pub exists: bool,
}

impl ResolvedPath {
    /// Pair an expanded path with its probe outcome, collapsing an
    /// undetermined probe into absence.
    pub fn from_probe(expanded_path: String, outcome: ExistenceProbeOutcome) -> (r: ResolvedPath)
        ensures
            r.expanded_path == expanded_path,
            r.exists == counts_as_existing(outcome),
    {
        let exists = match outcome {
            ExistenceProbeOutcome::Exists => true,
            ExistenceProbeOutcome::Absent => false,
            ExistenceProbeOutcome::Undetermined => false,
        };
        ResolvedPath { expanded_path, exists }
    }
}

/// A path that expansion is guaranteed to leave alone: it references no
/// variable and does not begin with the home-directory shorthand.
pub open spec fn plain_path(s: Seq<char>) -> bool {
    (forall|i: int| 0 <= i < s.len() ==> s[i] != '$') && (s.len() > 0 ==> s[0] != '~')
}

/// Relies on shellexpand::full: expands `$VAR`, `${VAR}` and a leading `~`
/// using the process environment, so the result cannot be pinned down
/// here. Its source guarantees the one environment-free case: an input
/// with no `$` anywhere and no `~` in front is returned unchanged, and
/// only a variable lookup can fail.
#[verifier::external_body]
fn expand_full(raw: &str) -> (r: Result<String, String>)
    ensures
        plain_path(raw@) ==> r is Ok && r->Ok_0@ == raw@,
{
    match shellexpand::full(raw) {
        Ok(expanded) => Ok(expanded.into_owned()),
        Err(e) => Err(format!("{}", e)),
    }
}

/// Expand a descriptor's declared path. On failure the error names the
/// declared path so the caller can report it and skip the entry.
pub fn resolve_raw_path(raw: &str) -> (r: Result<String, ExpandError>)
    ensures
        plain_path(raw@) ==> r is Ok && r->Ok_0@ == raw@,
        r is Err ==> r->Err_0.raw_path@ == raw@,
{
    match expand_full(raw) {
        Ok(expanded) => Ok(expanded),
        Err(message) => Err(ExpandError { raw_path: raw.to_owned(), message }),
    }
}

} // verus!
