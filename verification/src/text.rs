//! Verified text utilities: substring containment and line joining.

use vstd::prelude::*;
use vstd::string::StrSliceExecFns;

verus! {

/// The pattern `pat` occurs in `s` starting at position `i`.
pub open spec fn contains_at(s: Seq<char>, pat: Seq<char>, i: int) -> bool {
    0 <= i && i + pat.len() <= s.len() && s.subrange(i, i + pat.len()) == pat
}

/// The pattern `pat` occurs somewhere in `s`.
pub open spec fn seq_contains(s: Seq<char>, pat: Seq<char>) -> bool {
    exists|i: int| contains_at(s, pat, i)
}

/// Containment survives prepending more text.
pub proof fn lemma_contains_prepend(prefix: Seq<char>, s: Seq<char>, pat: Seq<char>)
    requires
        seq_contains(s, pat),
    ensures
        seq_contains(prefix + s, pat),
{
    let i = choose|i: int| contains_at(s, pat, i);
    let j = i + prefix.len();
    assert((prefix + s).subrange(j, j + pat.len()) =~= s.subrange(i, i + pat.len()));
    assert(contains_at(prefix + s, pat, j));
}

/// Containment in a prefix is containment in the whole.
pub proof fn lemma_contains_in_prefix(prefix: Seq<char>, s: Seq<char>, pat: Seq<char>)
    requires
        seq_contains(prefix, pat),
    ensures
        seq_contains(prefix + s, pat),
{
    let i = choose|i: int| contains_at(prefix, pat, i);
    assert((prefix + s).subrange(i, i + pat.len()) =~= prefix.subrange(i, i + pat.len()));
    assert(contains_at(prefix + s, pat, i));
}

/// Whether the characters of `pat` appear contiguously in `text`.
pub fn str_contains(text: &str, pat: &str) -> (b: bool)
    ensures
        b == seq_contains(text@, pat@),
{
    let n: usize = text.unicode_len();
    let m: usize = pat.unicode_len();
    if m == 0 {
        proof {
            assert(text@.subrange(0, 0) =~= pat@);
            assert(contains_at(text@, pat@, 0));
        }
        return true;
    }
    if m > n {
        assert(forall|i: int| !contains_at(text@, pat@, i)) by {
            assert forall|i: int| !contains_at(text@, pat@, i) by {
                if 0 <= i && i + pat@.len() <= text@.len() {
                    assert(false);
                }
            }
        }
        return false;
    }
    let mut i: usize = 0;
    while i <= n - m
        invariant
            1 <= m <= n <= usize::MAX,
            n == text@.len(),
            m == pat@.len(),
            0 <= i <= n - m + 1,
            forall|k: int| 0 <= k < i ==> !contains_at(text@, pat@, k),
        decreases n - m + 1 - i,
    {
        let mut j: usize = 0;
        let mut mismatch: bool = false;
        while j < m
            invariant
                m <= n == text@.len(),
                m == pat@.len(),
                0 <= i <= n - m,
                0 <= j <= m,
                !mismatch ==> forall|k: int| 0 <= k < j ==> text@[i + k] == pat@[k],
                mismatch ==> !contains_at(text@, pat@, i as int),
            decreases m - j,
        {
            if mismatch {
                j = m;
            } else {
                let tc = text.get_char(i + j);
                let pc = pat.get_char(j);
                if tc != pc {
                    proof {
                        if contains_at(text@, pat@, i as int) {
                            assert(text@.subrange(i as int, i + m as int)[j as int]
                                == pat@[j as int]);
                        }
                    }
                    mismatch = true;
                }
                j = j + 1;
            }
        }
        if !mismatch {
            proof {
                assert(text@.subrange(i as int, i + m as int) =~= pat@);
                assert(contains_at(text@, pat@, i as int));
            }
            return true;
        }
        i = i + 1;
    }
    proof {
        assert forall|k: int| !contains_at(text@, pat@, k) by {
            if 0 <= k && k + pat@.len() <= text@.len() {
                assert(k < i);
            }
        }
    }
    false
}

/// The lines joined with a single newline between consecutive lines.
pub open spec fn join_lines(lines: Seq<Seq<char>>) -> Seq<char>
    decreases lines.len(),
{
    if lines.len() == 0 {
        Seq::empty()
    } else if lines.len() == 1 {
        lines[0]
    } else {
        join_lines(lines.drop_last()) + seq!['\n'] + lines.last()
    }
}

/// Join the lines with newlines, as the debug trace is rendered.
pub fn join_with_newlines(lines: &Vec<String>) -> (r: String)
    ensures
        r@ == join_lines(lines.deep_view()),
{
    let mut r = String::new();
    let mut i: usize = 0;
    proof {
        assert(lines.deep_view().subrange(0, 0) =~= Seq::<Seq<char>>::empty());
    }
    while i < lines.len()
        invariant
            0 <= i <= lines.len(),
            lines.deep_view().len() == lines.len(),
            forall|k: int| 0 <= k < lines.len() ==> lines.deep_view()[k] == lines@[k]@,
            r@ == join_lines(lines.deep_view().subrange(0, i as int)),
        decreases lines.len() - i,
    {
        if i > 0 {
            r.append("\n");
            proof {
                reveal_strlit("\n");
            }
        }
        r.append(lines[i].as_str());
        proof {
            let prefix = lines.deep_view().subrange(0, i + 1);
            assert(prefix.drop_last() =~= lines.deep_view().subrange(0, i as int));
            assert(prefix.last() == lines.deep_view()[i as int]);
            if i == 0 {
                assert(r@ =~= join_lines(prefix));
            } else {
                assert(r@ =~= join_lines(prefix.drop_last()) + seq!['\n'] + prefix.last());
            }
        }
        i = i + 1;
    }
    proof {
        assert(lines.deep_view().subrange(0, lines@.len() as int) =~= lines.deep_view());
    }
    r
}

} // verus!
