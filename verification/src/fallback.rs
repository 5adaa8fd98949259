//! The literal substitution fallback: two unconditional substring
//! removals over raw text, with no structural validation at all.
//!
//! The input is taken as bytes; every occurrence of the asynchronous
//! qualifier keyword `async` is removed, then every occurrence of the
//! suspension-point marker `.await`, each scan leftmost-first and
//! non-overlapping. Usage contract for callers: any identifier that
//! contains either marker as a literal substring is corrupted by this
//! strategy, and text that no longer lexes after the removals is the
//! caller's own risk — nothing here checks the result against the host
//! grammar.

use vstd::prelude::*;

verus! {

/// The asynchronous qualifier keyword, as bytes: `async`.
pub open spec fn async_marker() -> Seq<u8> {
    seq![97u8, 115u8, 121u8, 110u8, 99u8]
}

/// The suspension-point marker, as bytes: `.await`.
pub open spec fn await_marker() -> Seq<u8> {
    seq![46u8, 97u8, 119u8, 97u8, 105u8, 116u8]
}

/// The text with every occurrence of `pat` removed, scanning left to
/// right and never re-examining removed bytes: at each position, either
/// the pattern starts there and is skipped whole, or one byte is kept.
/// An empty pattern removes nothing.
pub open spec fn stripped(s: Seq<u8>, pat: Seq<u8>) -> Seq<u8>
    decreases s.len(),
{
    if pat.len() == 0 || s.len() == 0 {
        s
    } else if pat.len() <= s.len() && s.subrange(0, pat.len() as int) == pat {
        stripped(s.subrange(pat.len() as int, s.len() as int), pat)
    } else {
        seq![s[0]] + stripped(s.subrange(1, s.len() as int), pat)
    }
}

/// Whether `pat` occurs as a contiguous substring of `s`.
pub open spec fn occurs_in(s: Seq<u8>, pat: Seq<u8>) -> bool {
    exists|i: int| 0 <= i && i + pat.len() <= s.len() && #[trigger] s.subrange(i, i + pat.len())
        == pat
}

/// Removal is vacuous where nothing occurs: on text free of the pattern,
/// the scan keeps every byte.
pub proof fn lemma_stripped_no_occurrence(s: Seq<u8>, pat: Seq<u8>)
    requires
        pat.len() >= 1,
        !occurs_in(s, pat),
    ensures
        stripped(s, pat) == s,
    decreases s.len(),
{
    if s.len() > 0 {
        if pat.len() <= s.len() && s.subrange(0, pat.len() as int) == pat {
            assert(occurs_in(s, pat)) by {
                assert(0 + pat.len() <= s.len() && s.subrange(0, pat.len() as int) == pat);
            }
        } else {
            let tail = s.subrange(1, s.len() as int);
            assert forall|i: int| 0 <= i && i + pat.len() <= tail.len() implies #[trigger] tail.subrange(
                i,
                i + pat.len(),
            ) != pat by {
                assert(tail.subrange(i, i + pat.len()) =~= s.subrange(i + 1, i + 1 + pat.len()));
                assert(!(s.subrange(i + 1, i + 1 + pat.len()) == pat));
            }
            lemma_stripped_no_occurrence(tail, pat);
            assert(seq![s[0]] + tail =~= s);
        }
    }
}

/// On input free of both marker substrings the fallback is the identity:
/// it corrupts nothing it was not asked to remove.
pub proof fn lemma_fallback_identity_on_marker_free(s: Seq<u8>)
    requires
        !occurs_in(s, async_marker()),
        !occurs_in(s, await_marker()),
    ensures
        stripped(stripped(s, async_marker()), await_marker()) == s,
{
    lemma_stripped_no_occurrence(s, async_marker());
    lemma_stripped_no_occurrence(s, await_marker());
}

/// Whether `pat` occurs at position `i` of `s`.
fn matches_at(s: &Vec<u8>, i: usize, pat: &Vec<u8>) -> (r: bool)
    requires
        i + pat.len() <= s.len(),
    ensures
        r <==> s@.subrange(i as int, i + pat.len()) == pat@,
{
    let mut j: usize = 0;
    while j < pat.len()
        invariant
            j <= pat.len(),
            i + pat.len() <= s.len(),
            forall|k: int| 0 <= k < j ==> s@[i + k] == pat@[k],
        decreases pat.len() - j,
    {
        if s[i + j] != pat[j] {
            assert(s@.subrange(i as int, i + pat.len())[j as int] != pat@[j as int]);
            return false;
        }
        j += 1;
    }
    assert(s@.subrange(i as int, i + pat.len()) =~= pat@);
    true
}

/// Removes every occurrence of `pat` from `s`, leftmost-first and
/// non-overlapping.
fn strip_all(s: &Vec<u8>, pat: &Vec<u8>) -> (r: Vec<u8>)
    requires
        pat.len() >= 1,
    ensures
        r@ == stripped(s@, pat@),
{
    let mut out: Vec<u8> = Vec::new();
    let mut i: usize = 0;
    proof {
        assert(s@.subrange(0, s@.len() as int) =~= s@);
        assert(Seq::<u8>::empty() + stripped(s@, pat@) =~= stripped(s@, pat@));
    }
    while i < s.len()
        invariant
            i <= s.len(),
            pat.len() >= 1,
            stripped(s@, pat@) == out@ + stripped(s@.subrange(i as int, s@.len() as int), pat@),
        decreases s.len() - i,
    {
        let ghost suffix = s@.subrange(i as int, s@.len() as int);
        if pat.len() <= s.len() - i && matches_at(s, i, pat) {
            proof {
                assert(suffix.subrange(0, pat@.len() as int) =~= s@.subrange(
                    i as int,
                    i + pat.len(),
                ));
                assert(suffix.subrange(pat@.len() as int, suffix.len() as int) =~= s@.subrange(
                    i + pat.len(),
                    s@.len() as int,
                ));
            }
            i += pat.len();
        } else {
            proof {
                if i + pat.len() <= s.len() {
                    assert(suffix.subrange(0, pat@.len() as int) =~= s@.subrange(
                        i as int,
                        i + pat.len(),
                    ));
                }
                assert(suffix.subrange(1, suffix.len() as int) =~= s@.subrange(
                    i + 1,
                    s@.len() as int,
                ));
                assert(seq![s@[i as int]] =~= suffix.subrange(0, 1));
            }
            out.push(s[i]);
            i += 1;
        }
    }
    proof {
        assert(s@.subrange(i as int, s@.len() as int) =~= Seq::<u8>::empty());
        assert(out@ + Seq::<u8>::empty() =~= out@);
    }
    out
}

/// The asynchronous qualifier keyword as a byte vector.
fn async_marker_bytes() -> (r: Vec<u8>)
    ensures
        r@ == async_marker(),
{
    let r: Vec<u8> = vec![97u8, 115u8, 121u8, 110u8, 99u8];
    proof {
        assert(r@ =~= async_marker());
    }
    r
}

/// The suspension-point marker as a byte vector.
fn await_marker_bytes() -> (r: Vec<u8>)
    ensures
        r@ == await_marker(),
{
    let r: Vec<u8> = vec![46u8, 97u8, 119u8, 97u8, 105u8, 116u8];
    proof {
        assert(r@ =~= await_marker());
    }
    r
}

/// Removes every occurrence of the qualifier keyword, then every
/// occurrence of the suspension-point marker, from the textual form of
/// the input — nothing more. Identifiers containing either substring are
/// corrupted; whether the result still lexes is the caller's risk.
pub fn remove_async_await_string(input: &Vec<u8>) -> (r: Vec<u8>)
    ensures
        r@ == stripped(stripped(input@, async_marker()), await_marker()),
{
    let async_pat = async_marker_bytes();
    let await_pat = await_marker_bytes();
    let without_qualifier = strip_all(input, &async_pat);
    strip_all(&without_qualifier, &await_pat)
}

} // verus!
