//! Literal substring search and replacement over sequences of characters.
//!
//! License text is modelled as a `Seq<char>`; the executable code works on
//! `Vec<char>` so that indexing is cheap. `replaced` is the mathematical
//! meaning of a single find-and-replace pass: matches are located left to
//! right, do not overlap, and each is substituted by the replacement value.

use vstd::prelude::*;

verus! {

/// The pattern `p` occurs in `t` starting at position `i`.
pub open spec fn match_at(t: Seq<char>, p: Seq<char>, i: int) -> bool {
    0 <= i && i + p.len() <= t.len() && t.subrange(i, i + p.len() as int) == p
}

/// The pattern `p` occurs somewhere in `t`.
pub open spec fn contains_seq(t: Seq<char>, p: Seq<char>) -> bool {
    exists|i: int| match_at(t, p, i)
}

/// One left-to-right find-and-replace pass over `t`: every non-overlapping
/// occurrence of `p`, taken leftmost first, is replaced by `r`. An empty
/// pattern leaves the text unchanged.
pub open spec fn replaced(t: Seq<char>, p: Seq<char>, r: Seq<char>) -> Seq<char>
    decreases t.len(),
{
    if p.len() == 0 || t.len() < p.len() {
        t
    } else if t.subrange(0, p.len() as int) == p {
        r + replaced(t.subrange(p.len() as int, t.len() as int), p, r)
    } else {
        seq![t[0]] + replaced(t.subrange(1, t.len() as int), p, r)
    }
}

/// Collects the characters of a string slice into a vector.
pub fn chars_of(s: &str) -> (v: Vec<char>)
    ensures
        v@ == s@,
{
    let mut v: Vec<char> = Vec::new();
    for c in it: s.chars()
        invariant
            it.seq() == s@,
            v@ == it.seq().take(it.index() as int),
    {
        v.push(c);
    }
    proof {
        assert(v@ =~= s@);
    }
    v
}

/// Decides whether `p` occurs in `t` at position `i`.
pub fn is_match_at(t: &Vec<char>, p: &Vec<char>, i: usize) -> (b: bool)
    requires
        i + p@.len() <= t@.len(),
    ensures
        b == match_at(t@, p@, i as int),
{
    let n = t.len();
    let mut j: usize = 0;
    while j < p.len()
        invariant
            n == t@.len(),
            i + p@.len() <= t@.len(),
            j <= p@.len(),
            forall|k: int| 0 <= k < j ==> t@[i + k] == p@[k],
        decreases p@.len() - j,
    {
        if t[i + j] != p[j] {
            proof {
                assert(t@.subrange(i as int, i + p@.len())[j as int] == t@[i + j]);
            }
            return false;
        }
        j += 1;
    }
    proof {
        assert(t@.subrange(i as int, i + p@.len()) =~= p@);
    }
    true
}

/// Decides whether `p` occurs anywhere in `t`.
pub fn contains_slice(t: &Vec<char>, p: &Vec<char>) -> (b: bool)
    ensures
        b == contains_seq(t@, p@),
{
    if p.len() > t.len() {
        return false;
    }
    let last = t.len() - p.len();
    let mut i: usize = 0;
    while i < last
        invariant
            p@.len() <= t@.len(),
            last == t@.len() - p@.len(),
            i <= last,
            forall|k: int| 0 <= k < i ==> !match_at(t@, p@, k),
        decreases last - i,
    {
        if is_match_at(t, p, i) {
            proof {
                assert(match_at(t@, p@, i as int));
            }
            return true;
        }
        i += 1;
    }
    if is_match_at(t, p, last) {
        proof {
            assert(match_at(t@, p@, last as int));
        }
        return true;
    }
    false
}

/// Relies on `String::push`: appends one character at the end of the string.
#[verifier::external_body]
fn push_char(s: &mut String, c: char)
    ensures
        final(s)@ == old(s)@.push(c),
{
    s.push(c);
}

/// Builds the string whose characters are exactly those of `v`.
pub fn string_of(v: &Vec<char>) -> (s: String)
    ensures
        s@ == v@,
{
    let mut s = String::new();
    let mut i: usize = 0;
    while i < v.len()
        invariant
            i <= v@.len(),
            s@ == v@.take(i as int),
        decreases v@.len() - i,
    {
        push_char(&mut s, v[i]);
        proof {
            assert(v@.take(i as int).push(v@[i as int]) =~= v@.take(i + 1));
        }
        i += 1;
    }
    proof {
        assert(v@.take(v@.len() as int) =~= v@);
    }
    s
}

/// Replaces every occurrence of `p` in `t` by `r`, leftmost first and
/// without overlap, exactly as `replaced` describes.
pub fn replace_all(t: &Vec<char>, p: &Vec<char>, r: &Vec<char>) -> (out: Vec<char>)
    ensures
        out@ == replaced(t@, p@, r@),
{
    let mut out: Vec<char> = Vec::new();
    if p.len() == 0 {
        let mut i: usize = 0;
        while i < t.len()
            invariant
                i <= t@.len(),
                out@ == t@.take(i as int),
            decreases t@.len() - i,
        {
            out.push(t[i]);
            proof {
                assert(t@.take(i as int).push(t@[i as int]) =~= t@.take(i + 1));
            }
            i += 1;
        }
        proof {
            assert(t@.take(t@.len() as int) =~= t@);
        }
        return out;
    }
    proof {
        assert(t@.subrange(0, t@.len() as int) =~= t@);
        assert(Seq::<char>::empty() + replaced(t@, p@, r@) =~= replaced(t@, p@, r@));
    }
    let mut i: usize = 0;
    while i < t.len()
        invariant
            p@.len() > 0,
            i <= t@.len(),
            replaced(t@, p@, r@) == out@ + replaced(
                t@.subrange(i as int, t@.len() as int),
                p@,
                r@,
            ),
        decreases t@.len() - i,
    {
        let ghost rest = t@.subrange(i as int, t@.len() as int);
        if p.len() <= t.len() - i && is_match_at(t, p, i) {
            let ghost out0 = out@;
            let mut k: usize = 0;
            while k < r.len()
                invariant
                    k <= r@.len(),
                    out@ == out0 + r@.take(k as int),
                decreases r@.len() - k,
            {
                out.push(r[k]);
                proof {
                    assert((out0 + r@.take(k as int)).push(r@[k as int]) =~= out0 + r@.take(
                        k + 1,
                    ));
                }
                k += 1;
            }
            proof {
                assert(out@ =~= out0 + r@);
                assert(rest.subrange(0, p@.len() as int) =~= t@.subrange(
                    i as int,
                    i + p@.len(),
                ));
                assert(rest.subrange(p@.len() as int, rest.len() as int) =~= t@.subrange(
                    i + p@.len(),
                    t@.len() as int,
                ));
                assert(replaced(rest, p@, r@) == r@ + replaced(
                    t@.subrange(i + p@.len(), t@.len() as int),
                    p@,
                    r@,
                ));
                assert(out0 + (r@ + replaced(t@.subrange(i + p@.len(), t@.len() as int), p@, r@))
                    =~= (out0 + r@) + replaced(t@.subrange(i + p@.len(), t@.len() as int), p@, r@));
            }
            i += p.len();
        } else {
            proof {
                if p@.len() <= rest.len() {
                    assert(!match_at(t@, p@, i as int));
                    assert(rest.subrange(0, p@.len() as int) =~= t@.subrange(
                        i as int,
                        i + p@.len(),
                    ));
                    assert(rest.subrange(0, p@.len() as int) != p@);
                }
                assert(rest.subrange(1, rest.len() as int) =~= t@.subrange(
                    i + 1,
                    t@.len() as int,
                ));
                assert(replaced(rest, p@, r@) == seq![t@[i as int]] + replaced(
                    t@.subrange(i + 1, t@.len() as int),
                    p@,
                    r@,
                ));
                assert(out@ + (seq![t@[i as int]] + replaced(
                    t@.subrange(i + 1, t@.len() as int),
                    p@,
                    r@,
                )) =~= out@.push(t@[i as int]) + replaced(
                    t@.subrange(i + 1, t@.len() as int),
                    p@,
                    r@,
                ));
            }
            out.push(t[i]);
            i += 1;
        }
    }
    proof {
        assert(t@.subrange(t@.len() as int, t@.len() as int) =~= Seq::<char>::empty());
        assert(out@ + Seq::<char>::empty() =~= out@);
    }
    out
}

/// `a` is a prefix of `b`.
pub open spec fn is_prefix_of(a: Seq<char>, b: Seq<char>) -> bool {
    a.len() <= b.len() && b.subrange(0, a.len() as int) == a
}

/// An occurrence of `p` inside a window of `t` is an occurrence in `t`.
proof fn lemma_contains_subrange(t: Seq<char>, p: Seq<char>, a: int, b: int)
    requires
        0 <= a <= b <= t.len(),
        contains_seq(t.subrange(a, b), p),
    ensures
        contains_seq(t, p),
{
    let sub = t.subrange(a, b);
    let i = choose|i: int| match_at(sub, p, i);
    assert(t.subrange(a + i, a + i + p.len() as int) =~= sub.subrange(i, i + p.len() as int));
    assert(match_at(t, p, a + i));
}

/// A text that contains no occurrence of the pattern is left unchanged by a
/// replacement pass for that pattern.
pub proof fn lemma_replaced_noop(t: Seq<char>, p: Seq<char>, r: Seq<char>)
    requires
        !contains_seq(t, p),
    ensures
        replaced(t, p, r) == t,
    decreases t.len(),
{
    if p.len() == 0 || t.len() < p.len() {
    } else if t.subrange(0, p.len() as int) == p {
        assert(match_at(t, p, 0));
    } else {
        let t1 = t.subrange(1, t.len() as int);
        assert(!contains_seq(t1, p)) by {
            if contains_seq(t1, p) {
                lemma_contains_subrange(t, p, 1, t.len() as int);
            }
        }
        lemma_replaced_noop(t1, p, r);
        assert(seq![t[0]] + t1 =~= t);
    }
}

/// If the output of a replacement pass begins with a proper suffix of `q`,
/// the input already began with that suffix, provided `q` and the
/// replacement value share no character.
proof fn lemma_replaced_prefix(t: Seq<char>, p: Seq<char>, r: Seq<char>, q: Seq<char>, m: int)
    requires
        p.len() > 0,
        r.len() > 0,
        forall|a: int, b: int| 0 <= a < q.len() && 0 <= b < r.len() ==> q[a] != r[b],
        0 < m < q.len(),
        is_prefix_of(q.subrange(m, q.len() as int), replaced(t, p, r)),
    ensures
        is_prefix_of(q.subrange(m, q.len() as int), t),
    decreases t.len(),
{
    let qm = q.subrange(m, q.len() as int);
    let w = replaced(t, p, r);
    assert(w.subrange(0, qm.len() as int) == qm);
    if t.len() < p.len() {
        // the pass left `t` unchanged
    } else if t.subrange(0, p.len() as int) == p {
        let ts = t.subrange(p.len() as int, t.len() as int);
        assert(w == r + replaced(ts, p, r));
        assert(w.subrange(0, qm.len() as int)[0] == w[0]);
        assert(w[0] == r[0]);
        assert(qm[0] == q[m]);
        assert(false);
    } else {
        let t1 = t.subrange(1, t.len() as int);
        let w1 = replaced(t1, p, r);
        assert(w == seq![t[0]] + w1);
        assert(w.subrange(0, qm.len() as int)[0] == w[0]);
        assert(q[m] == t[0]);
        if m + 1 == q.len() {
            assert(t.subrange(0, qm.len() as int) =~= qm);
        } else {
            let qm1 = q.subrange(m + 1, q.len() as int);
            assert forall|j: int| 0 <= j < qm1.len() implies w1.subrange(
                0,
                qm1.len() as int,
            )[j] == qm1[j] by {
                assert(w.subrange(0, qm.len() as int)[j + 1] == w[j + 1]);
                assert(w[j + 1] == w1[j]);
                assert(qm[j + 1] == q[m + 1 + j]);
            }
            assert(w1.subrange(0, qm1.len() as int) =~= qm1);
            lemma_replaced_prefix(t1, p, r, q, m + 1);
            assert(t1.subrange(0, qm1.len() as int) == qm1);
            assert forall|j: int| 0 <= j < qm.len() implies t.subrange(
                0,
                qm.len() as int,
            )[j] == qm[j] by {
                if j >= 1 {
                    assert(t1.subrange(0, qm1.len() as int)[j - 1] == t1[j - 1]);
                    assert(qm1[j - 1] == q[m + j]);
                }
            }
            assert(t.subrange(0, qm.len() as int) =~= qm);
        }
    }
}

/// After a replacement pass the output contains no occurrence of `q`, where
/// `q` is the replaced pattern itself or any pattern the input never
/// contained, as long as `q` and the replacement value share no character.
pub proof fn lemma_replaced_free(t: Seq<char>, p: Seq<char>, r: Seq<char>, q: Seq<char>)
    requires
        p.len() > 0,
        q.len() > 0,
        r.len() > 0,
        forall|a: int, b: int| 0 <= a < q.len() && 0 <= b < r.len() ==> q[a] != r[b],
        q == p || !contains_seq(t, q),
    ensures
        !contains_seq(replaced(t, p, r), q),
    decreases t.len(),
{
    let w = replaced(t, p, r);
    if t.len() < p.len() {
        assert forall|i: int| !match_at(w, q, i) by {
            if 0 <= i && i + q.len() <= w.len() {
                assert(match_at(t, q, i) ==> contains_seq(t, q));
            }
        }
    } else if t.subrange(0, p.len() as int) == p {
        let ts = t.subrange(p.len() as int, t.len() as int);
        let w2 = replaced(ts, p, r);
        assert(w == r + w2);
        if q != p {
            assert(!contains_seq(ts, q)) by {
                if contains_seq(ts, q) {
                    lemma_contains_subrange(t, q, p.len() as int, t.len() as int);
                }
            }
        }
        lemma_replaced_free(ts, p, r, q);
        assert forall|i: int| !match_at(w, q, i) by {
            if 0 <= i && i + q.len() <= w.len() && w.subrange(i, i + q.len() as int) == q {
                if i < r.len() {
                    assert(w.subrange(i, i + q.len() as int)[0] == w[i]);
                    assert(w[i] == r[i]);
                    assert(q[0] == r[i]);
                    assert(false);
                } else {
                    assert(w2.subrange(i - r.len(), i - r.len() + q.len() as int) =~= w.subrange(
                        i,
                        i + q.len() as int,
                    ));
                    assert(match_at(w2, q, i - r.len()));
                    assert(false);
                }
            }
        }
    } else {
        let t1 = t.subrange(1, t.len() as int);
        let w1 = replaced(t1, p, r);
        assert(w == seq![t[0]] + w1);
        if q != p {
            assert(!contains_seq(t1, q)) by {
                if contains_seq(t1, q) {
                    lemma_contains_subrange(t, q, 1, t.len() as int);
                }
            }
        }
        lemma_replaced_free(t1, p, r, q);
        assert forall|i: int| !match_at(w, q, i) by {
            if 0 <= i && i + q.len() <= w.len() && w.subrange(i, i + q.len() as int) == q {
                if i >= 1 {
                    assert(w1.subrange(i - 1, i - 1 + q.len() as int) =~= w.subrange(
                        i,
                        i + q.len() as int,
                    ));
                    assert(match_at(w1, q, i - 1));
                    assert(false);
                } else {
                    assert(w.subrange(0, q.len() as int)[0] == w[0]);
                    assert(q[0] == t[0]);
                    if q.len() == 1 {
                        assert(t.subrange(0, q.len() as int) =~= q);
                        assert(match_at(t, q, 0));
                        assert(false);
                    } else {
                        let q1 = q.subrange(1, q.len() as int);
                        assert forall|j: int| 0 <= j < q1.len() implies w1.subrange(
                            0,
                            q1.len() as int,
                        )[j] == q1[j] by {
                            assert(w.subrange(0, q.len() as int)[j + 1] == w[j + 1]);
                            assert(w[j + 1] == w1[j]);
                        }
                        assert(w1.subrange(0, q1.len() as int) =~= q1);
                        lemma_replaced_prefix(t1, p, r, q, 1);
                        assert(t1.subrange(0, q1.len() as int) == q1);
                        assert forall|j: int| 0 <= j < q.len() implies t.subrange(
                            0,
                            q.len() as int,
                        )[j] == q[j] by {
                            if j >= 1 {
                                assert(t1.subrange(0, q1.len() as int)[j - 1] == t1[j - 1]);
                                assert(q1[j - 1] == q[j]);
                            }
                        }
                        assert(t.subrange(0, q.len() as int) =~= q);
                        assert(match_at(t, q, 0));
                        assert(false);
                    }
                }
            }
        }
    }
}

} // verus!
