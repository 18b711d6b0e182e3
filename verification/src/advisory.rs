//! Startup advisories: for each well-known XDG variable that the
//! environment lacks, the diagnostic text recommending a value. Reading
//! the environment is left to the caller at the process edge.
use vstd::prelude::*;
use vstd::string::StringExecFns;

verus! {

/// How many variables the advisory list covers.
pub open spec fn xdg_var_total() -> int {
    5
}

/// The name of the advisory list's variable number `i`.
pub open spec fn xdg_var_name(i: int) -> Seq<char> {
    if i == 0 {
        "XDG_DATA_HOME"@
    } else if i == 1 {
        "XDG_CONFIG_HOME"@
    } else if i == 2 {
        "XDG_STATE_HOME"@
    } else if i == 3 {
        "XDG_CACHE_HOME"@
    } else {
        "XDG_RUNTIME_DIR"@
    }
}

/// The value recommended for the advisory list's variable number `i`.
pub open spec fn xdg_recommended(i: int) -> Seq<char> {
    if i == 0 {
        "$HOME/.local/share"@
    } else if i == 1 {
        "$HOME/.config"@
    } else if i == 2 {
        "$HOME/.local/state"@
    } else if i == 3 {
        "$HOME/.cache"@
    } else {
        "/run/user/$UID"@
    }
}

/// The advisory printed for one unset variable.
pub open spec fn advisory_text(name: Seq<char>, recommended: Seq<char>) -> Seq<char> {
    "The $"@ + name
        + " environment variable is not set!\nmake sure to add it to your shell's configuration before setting any of the other environment variables!\nRecommended value: "@
        + recommended + "\n"@
}

/// The advisories owed from position `i` on, given which variables are
/// set: one for each unset variable, in list order.
pub open spec fn advisories_from(is_set: Seq<bool>, i: int) -> Seq<Seq<char>>
    decreases xdg_var_total() - i,
{
    if i < 0 || i >= xdg_var_total() {
        Seq::empty()
    } else if i < is_set.len() && is_set[i] {
        advisories_from(is_set, i + 1)
    } else {
        seq![advisory_text(xdg_var_name(i), xdg_recommended(i))] + advisories_from(is_set, i + 1)
    }
}

/// Every advisory owed at startup, given which variables are set.
pub open spec fn advisories_spec(is_set: Seq<bool>) -> Seq<Seq<char>> {
    advisories_from(is_set, 0)
}

/// The name of the advisory list's variable number `i`.
pub fn xdg_var_name_at(i: usize) -> (r: &'static str)
    requires
        i < xdg_var_total(),
    ensures
        r@ == xdg_var_name(i as int),
{
    if i == 0 {
        "XDG_DATA_HOME"
    } else if i == 1 {
        "XDG_CONFIG_HOME"
    } else if i == 2 {
        "XDG_STATE_HOME"
    } else if i == 3 {
        "XDG_CACHE_HOME"
    } else {
        "XDG_RUNTIME_DIR"
    }
}

/// The value recommended for the advisory list's variable number `i`.
pub fn xdg_recommended_at(i: usize) -> (r: &'static str)
    requires
        i < xdg_var_total(),
    ensures
        r@ == xdg_recommended(i as int),
{
    if i == 0 {
        "$HOME/.local/share"
    } else if i == 1 {
        "$HOME/.config"
    } else if i == 2 {
        "$HOME/.local/state"
    } else if i == 3 {
        "$HOME/.cache"
    } else {
        "/run/user/$UID"
    }
}

/// How many variables the advisory list covers.
pub fn xdg_var_count() -> (n: usize)
    ensures
        n == xdg_var_total(),
{
    5
}

/// Format the advisory for one unset variable.
pub fn advisory_message(name: &str, recommended: &str) -> (r: String)
    ensures
        r@ == advisory_text(name@, recommended@),
{
    let mut out = String::from_str("The $");
    out.append(name);
    out.append(
        " environment variable is not set!\nmake sure to add it to your shell's configuration before setting any of the other environment variables!\nRecommended value: ",
    );
    out.append(recommended);
    out.append("\n");
    proof {
        assert(out@ =~= advisory_text(name@, recommended@));
    }
    out
}

/// The advisories owed at startup: one for each variable of the list that
/// `is_set` marks absent, in list order.
pub fn startup_advisories(is_set: &Vec<bool>) -> (r: Vec<String>)
    requires
        is_set@.len() == xdg_var_total(),
    ensures
        r@.map_values(|s: String| s@) == advisories_spec(is_set@),
{
    let mut out: Vec<String> = Vec::new();
    let mut i: usize = 0;
    proof {
        assert(out@.map_values(|s: String| s@) + advisories_from(is_set@, 0) =~= advisories_spec(
            is_set@,
        ));
    }
    while i < 5
        invariant
            i <= 5,
            is_set@.len() == xdg_var_total(),
            out@.map_values(|s: String| s@) + advisories_from(is_set@, i as int)
                == advisories_spec(is_set@),
        decreases 5 - i,
    {
        if !is_set[i] {
            let msg = advisory_message(xdg_var_name_at(i), xdg_recommended_at(i));
            proof {
                assert((out@ + seq![msg]).map_values(|s: String| s@) =~= out@.map_values(
                    |s: String| s@,
                ) + seq![msg@]);
                assert(out@.map_values(|s: String| s@) + advisories_from(is_set@, i as int) =~= (
                out@ + seq![msg]).map_values(|s: String| s@) + advisories_from(
                    is_set@,
                    i + 1 as int,
                ));
            }
            out.push(msg);
        }
        i += 1;
    }
    proof {
        assert(advisories_from(is_set@, 5) =~= Seq::<Seq<char>>::empty());
        assert(out@.map_values(|s: String| s@) =~= out@.map_values(|s: String| s@)
            + advisories_from(is_set@, 5));
    }
    out
}

} // verus!
