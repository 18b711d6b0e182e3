//! Report-line formatting: stripping fenced-code markers from help text and
//! assembling the emitted line.
use vstd::prelude::*;
use vstd::string::StrSliceExecFns;
use vstd::string::StringExecFns;

verus! {

/// The marker that opens a fenced shell block in help text.
pub open spec fn bash_marker() -> Seq<char> {
    "```bash\n"@
}

/// The marker that closes a fenced block (or opens an untagged one).
pub open spec fn plain_marker() -> Seq<char> {
    "```\n"@
}

/// `pat` occurs in `s` at some position.
pub open spec fn occurs(s: Seq<char>, pat: Seq<char>) -> bool {
    exists|i: int|
        0 <= i && i + pat.len() <= s.len() && #[trigger] s.subrange(i, i + pat.len() as int)
            == pat
}

/// Every occurrence of `pat` removed from `s`, scanning left to right and
/// resuming after each removed occurrence.
pub open spec fn remove_all(s: Seq<char>, pat: Seq<char>) -> Seq<char>
    decreases s.len(),
{
    if pat.len() == 0 || s.len() < pat.len() {
        s
    } else if s.subrange(0, pat.len() as int) == pat {
        remove_all(s.skip(pat.len() as int), pat)
    } else {
        seq![s[0]] + remove_all(s.skip(1), pat)
    }
}

/// The cleaned form of a help text: shell-block open markers removed first,
/// then the remaining fence markers.
pub open spec fn strip_markers_spec(s: Seq<char>) -> Seq<char> {
    remove_all(remove_all(s, bash_marker()), plain_marker())
}

/// A sequence with no occurrence of `pat` is left unchanged by removal.
pub proof fn lemma_remove_all_absent(s: Seq<char>, pat: Seq<char>)
    requires
        pat.len() > 0,
        !occurs(s, pat),
    ensures
        remove_all(s, pat) == s,
    decreases s.len(),
{
    if s.len() < pat.len() {
    } else if s.subrange(0, pat.len() as int) == pat {
        assert(occurs(s, pat)) by {
            assert(0 <= 0 && 0 + pat.len() <= s.len() && s.subrange(0, 0 + pat.len() as int)
                == pat);
        }
    } else {
        assert(!occurs(s.skip(1), pat)) by {
            if occurs(s.skip(1), pat) {
                let i = choose|i: int|
                    0 <= i && i + pat.len() <= s.skip(1).len() && #[trigger] s.skip(1).subrange(
                        i,
                        i + pat.len() as int,
                    ) == pat;
                assert(s.subrange(i + 1, i + 1 + pat.len() as int) =~= s.skip(1).subrange(
                    i,
                    i + pat.len() as int,
                ));
                assert(occurs(s, pat)) by {
                    assert(0 <= i + 1 && i + 1 + pat.len() <= s.len() && s.subrange(
                        i + 1,
                        i + 1 + pat.len() as int,
                    ) == pat);
                }
            }
        }
        lemma_remove_all_absent(s.skip(1), pat);
        assert(seq![s[0]] + s.skip(1) =~= s);
    }
}

/// The stripper is the identity on help text that holds no fence marker.
pub proof fn lemma_strip_no_markers_identity(s: Seq<char>)
    requires
        !occurs(s, bash_marker()),
        !occurs(s, plain_marker()),
    ensures
        strip_markers_spec(s) == s,
{
    reveal_strlit("```bash\n");
    reveal_strlit("```\n");
    lemma_remove_all_absent(s, bash_marker());
    lemma_remove_all_absent(s, plain_marker());
}

/// Stripping twice changes nothing, provided the first pass left no marker
/// behind. (Removal can splice a new marker together out of the text around
/// two removed ones; on such inputs a second pass removes more.)
pub proof fn lemma_strip_idempotent(s: Seq<char>)
    requires
        !occurs(strip_markers_spec(s), bash_marker()),
        !occurs(strip_markers_spec(s), plain_marker()),
    ensures
        strip_markers_spec(strip_markers_spec(s)) == strip_markers_spec(s),
{
    lemma_strip_no_markers_identity(strip_markers_spec(s));
}

/// `pat` matches `s` at position `i`; compares character by character.
fn match_at(s: &str, n: usize, i: usize, pat: &str, m: usize) -> (r: bool)
    requires
        n == s@.len(),
        m == pat@.len(),
        i + m <= n,
    ensures
        r == (s@.subrange(i as int, i + m as int) == pat@),
{
    let mut j: usize = 0;
    while j < m
        invariant
            j <= m,
            n == s@.len(),
            m == pat@.len(),
            i + m <= n,
            forall|k: int| 0 <= k < j ==> s@[i + k] == pat@[k],
        decreases m - j,
    {
        if s.get_char(i + j) != pat.get_char(j) {
            assert(s@.subrange(i as int, i + m as int) != pat@) by {
                assert(s@.subrange(i as int, i + m as int)[j as int] == s@[i + j]);
            }
            return false;
        }
        j += 1;
    }
    assert(s@.subrange(i as int, i + m as int) =~= pat@);
    true
}

/// Every occurrence of `pat` removed from `s`, scanning left to right.
fn remove_marker(s: &str, pat: &str) -> (r: String)
    requires
        pat@.len() >= 1,
    ensures
        r@ == remove_all(s@, pat@),
{
    let n = s.unicode_len();
    let m = pat.unicode_len();
    let mut out = String::new();
    let mut i: usize = 0;
    proof {
        assert(s@.skip(0) =~= s@);
        assert(out@ + remove_all(s@, pat@) =~= remove_all(s@, pat@));
    }
    while i < n
        invariant
            i <= n,
            n == s@.len(),
            m == pat@.len(),
            m >= 1,
            out@ + remove_all(s@.skip(i as int), pat@) == remove_all(s@, pat@),
        decreases n - i,
    {
        let ghost tail = s@.skip(i as int);
        if m <= n - i && match_at(s, n, i, pat, m) {
            proof {
                assert(tail.subrange(0, m as int) =~= s@.subrange(i as int, i + m as int));
                assert(tail.skip(m as int) =~= s@.skip(i + m as int));
                assert(remove_all(tail, pat@) == remove_all(s@.skip(i + m as int), pat@));
            }
            i += m;
        } else {
            let piece = s.substring_char(i, i + 1);
            out.append(piece);
            proof {
                assert(tail.skip(1) =~= s@.skip(i + 1 as int));
                if tail.len() < m {
                    assert(remove_all(tail, pat@) == tail);
                    assert(remove_all(tail.skip(1), pat@) == tail.skip(1));
                    assert(tail =~= seq![s@[i as int]] + tail.skip(1));
                } else {
                    assert(tail.subrange(0, m as int) =~= s@.subrange(i as int, i + m as int));
                    assert(tail[0] == s@[i as int]);
                    assert(remove_all(tail, pat@) == seq![s@[i as int]] + remove_all(
                        tail.skip(1),
                        pat@,
                    ));
                }
                assert(s@.subrange(i as int, i + 1 as int) =~= seq![s@[i as int]]);
                assert(out@ + remove_all(s@.skip(i + 1 as int), pat@) == remove_all(s@, pat@));
            }
            i += 1;
        }
    }
    proof {
        assert(s@.skip(n as int) =~= Seq::<char>::empty());
        assert(remove_all(s@.skip(n as int), pat@) == s@.skip(n as int));
        assert(out@ =~= out@ + Seq::<char>::empty());
    }
    out
}

/// Strip the fenced-code markers from a help text, exactly as they are
/// stripped before a report line is printed.
pub fn strip_help_markers(help: &str) -> (r: String)
    ensures
        r@ == strip_markers_spec(help@),
{
    proof {
        reveal_strlit("```bash\n");
        reveal_strlit("```\n");
    }
    let bash_removed = remove_marker(help, "```bash\n");
    remove_marker(bash_removed.as_str(), "```\n")
}

/// The full text of one report line: header, blank line, cleaned help text,
/// blank line.
pub open spec fn line_of(name: Seq<char>, expanded_path: Seq<char>, help: Seq<char>) -> Seq<char> {
    "["@ + name + "] "@ + expanded_path + "\n\n"@ + strip_markers_spec(help) + "\n\n"@
}

/// Format the report line for an accepted descriptor.
pub fn render_line(name: &str, expanded_path: &str, help: &str) -> (r: String)
    ensures
        r@ == line_of(name@, expanded_path@, help@),
{
    let mut out = String::from_str("[");
    out.append(name);
    out.append("] ");
    out.append(expanded_path);
    out.append("\n\n");
    let cleaned = strip_help_markers(help);
    out.append(cleaned.as_str());
    out.append("\n\n");
    proof {
        assert(out@ =~= line_of(name@, expanded_path@, help@));
    }
    out
}

} // verus!
