//! The format-template model: counting placeholder markers.
//!
//! A template is consumed by the host formatter, which treats `{{` as an
//! escaped literal brace and any other `{` as the start of a placeholder.
//! The central invariant of the whole library is that a produced template
//! carries exactly as many placeholders as it has value expressions, so this
//! module defines the count and the lemmas that let it be tracked through
//! string concatenation.

use vstd::prelude::*;

verus! {

/// Number of placeholder markers in a template: scanning left to right, a
/// `{` opens a placeholder unless it is doubled as the escape `{{`.
pub open spec fn placeholder_count(s: Seq<char>) -> nat
    decreases s.len(),
{
    if s.len() == 0 {
        0
    } else if s[0] == '{' {
        if s.len() >= 2 && s[1] == '{' {
            placeholder_count(s.skip(2))
        } else {
            1 + placeholder_count(s.skip(1))
        }
    } else {
        placeholder_count(s.skip(1))
    }
}

/// Text without any opening brace: it holds no placeholder, and appending it
/// to a template cannot disturb the scan of what came before.
pub open spec fn brace_free(s: Seq<char>) -> bool {
    forall|i: int| 0 <= i < s.len() ==> s[i] != '{'
}

pub proof fn lemma_brace_free_count(s: Seq<char>)
    requires
        brace_free(s),
    ensures
        placeholder_count(s) == 0,
    decreases s.len(),
{
    if s.len() > 0 {
        assert(s[0] != '{');
        assert forall|i: int| 0 <= i < s.skip(1).len() implies s.skip(1)[i] != '{' by {
            assert(s.skip(1)[i] == s[i + 1]);
        }
        lemma_brace_free_count(s.skip(1));
    }
}

pub proof fn lemma_brace_free_concat(a: Seq<char>, b: Seq<char>)
    requires
        brace_free(a),
        brace_free(b),
    ensures
        brace_free(a + b),
{
    assert forall|i: int| 0 <= i < (a + b).len() implies (a + b)[i] != '{' by {
        if i < a.len() {
            assert((a + b)[i] == a[i]);
        } else {
            assert((a + b)[i] == b[i - a.len()]);
        }
    }
}

/// Placeholder counts add up across a concatenation, provided the appended
/// part does not begin with `{`: then no escape pair can straddle the seam,
/// so the scan of the left part ends exactly where it would on its own.
pub proof fn lemma_count_concat(a: Seq<char>, b: Seq<char>)
    requires
        b.len() == 0 || b[0] != '{',
    ensures
        placeholder_count(a + b) == placeholder_count(a) + placeholder_count(b),
    decreases a.len(),
{
    if a.len() == 0 {
        assert(a + b =~= b);
    } else if a[0] == '{' {
        if a.len() >= 2 && a[1] == '{' {
            assert((a + b).skip(2) =~= a.skip(2) + b);
            lemma_count_concat(a.skip(2), b);
        } else if a.len() == 1 {
            // `a` ends in a lone `{`; since `b` does not start with `{`, that
            // brace still opens a placeholder in `a + b`.
            if b.len() == 0 {
                assert(a + b =~= a);
            } else {
                assert((a + b).len() >= 2 && (a + b)[1] == b[0]);
                assert((a + b).skip(1) =~= b);
            }
        } else {
            assert((a + b).skip(1) =~= a.skip(1) + b);
            lemma_count_concat(a.skip(1), b);
        }
    } else {
        assert((a + b).skip(1) =~= a.skip(1) + b);
        lemma_count_concat(a.skip(1), b);
    }
}

} // verus!
