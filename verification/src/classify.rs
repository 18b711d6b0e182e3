//! The classification engine: the rules that turn one descriptor's resolved
//! state plus the two command-line switches into a visibility decision.
use vstd::prelude::*;

verus! {

/// The two command-line booleans, read once at startup and passed
/// immutably to every decision.
#[derive(Clone, Copy, PartialEq, Eq, Structural, Debug)]
pub struct FilterConfig {
    /// `-v, --skip-ok`: when set, entries whose path does not exist are shown.
    pub skip_ok: bool,
    /// `-q, --skip-unsupported`: when set, entries that exist but are not
    /// movable are hidden.
    pub skip_unsupported: bool,
}

/// Whether one descriptor's report line is emitted or suppressed.
#[derive(Clone, Copy, PartialEq, Eq, Structural, Debug)]
pub enum Decision {
    Show,
    Hide,
}

/// The decision table. A line is shown if any row matches:
/// - the path does not exist and `skip_ok` is set (verbose mode surfaces
///   missing files; the flag name is historical and deliberately kept);
/// - the path exists, the entry is not movable, and `skip_unsupported` is
///   not set;
/// - the path exists and the entry is movable (always shown).
pub open spec fn decide_spec(exists: bool, movable: bool, config: FilterConfig) -> Decision {
    if (config.skip_ok && !exists) || (!config.skip_unsupported && !movable && exists) || (
    exists && movable) {
        Decision::Show
    } else {
        Decision::Hide
    }
}

/// Decide whether a descriptor with the given resolved existence state and
/// movability is reported under `config`.
pub fn decide(exists: bool, movable: bool, config: FilterConfig) -> (r: Decision)
    ensures
        r == decide_spec(exists, movable, config),
{
    if config.skip_ok && !exists {
        Decision::Show
    } else if !config.skip_unsupported && !movable && exists {
        Decision::Show
    } else if exists && movable {
        Decision::Show
    } else {
        Decision::Hide
    }
}

/// A present, movable entry is shown whatever the configuration says.
pub proof fn lemma_present_movable_always_shown(config: FilterConfig)
    ensures
        decide_spec(true, true, config) == Decision::Show,
{
}

/// An absent entry is shown exactly when `skip_ok` is set: with it the
/// missing-file row fires, without it no row can fire.
pub proof fn lemma_absent_shown_iff_skip_ok(movable: bool, config: FilterConfig)
    ensures
        decide_spec(false, movable, config) == Decision::Show <==> config.skip_ok,
{
}

/// Without `skip_ok` the missing-file row is inert: the decision comes
/// from the two rows over present entries alone.
pub proof fn lemma_row_a_inactive_without_skip_ok(exists: bool, movable: bool, config: FilterConfig)
    requires
        !config.skip_ok,
    ensures
        decide_spec(exists, movable, config) == Decision::Show <==> ((!config.skip_unsupported
            && !movable && exists) || (exists && movable)),
{
}

/// A present but unmovable entry is shown exactly when `skip_unsupported`
/// is not set.
pub proof fn lemma_present_unmovable_shown_iff_not_skipped(config: FilterConfig)
    ensures
        decide_spec(true, false, config) == Decision::Show <==> !config.skip_unsupported,
{
}

} // verus!
