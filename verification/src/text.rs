use vstd::prelude::*;

verus! {

/// The characters of `s` with every occurrence of `pat`, found scanning left
/// to right without overlap, replaced by `rep` — the behaviour of
/// `str::replace` for a non-empty pattern. An empty pattern leaves `s`
/// unchanged.
pub open spec fn spec_replace(s: Seq<char>, pat: Seq<char>, rep: Seq<char>) -> Seq<char>
    decreases s.len(),
{
    if pat.len() == 0 || s.len() < pat.len() {
        s
    } else if s.subrange(0, pat.len() as int) == pat {
        rep + spec_replace(s.skip(pat.len() as int), pat, rep)
    } else {
        seq![s[0]] + spec_replace(s.skip(1), pat, rep)
    }
}

/// The suffix of `s` that follows the last occurrence of `sep`; all of `s`
/// when `sep` does not occur.
pub open spec fn spec_after_last(s: Seq<char>, sep: char) -> Seq<char>
    decreases s.len(),
{
    if s.len() == 0 {
        s
    } else if s.last() == sep {
        Seq::empty()
    } else {
        spec_after_last(s.drop_last(), sep).push(s.last())
    }
}

/// Whether the characters of `s` starting at `i` spell out `pat`.
fn match_at(s: &str, pat: &str, i: usize) -> (b: bool)
    requires
        i + pat@.len() <= s@.len(),
    ensures
        b == (s@.subrange(i as int, i + pat@.len()) == pat@),
{
    let n = s.unicode_len();
    let m = pat.unicode_len();
    let mut j: usize = 0;
    while j < m
        invariant
            n == s@.len(),
            m == pat@.len(),
            i + m <= n,
            j <= m,
            forall|k: int| 0 <= k < j ==> s@[i + k] == pat@[k],
        decreases m - j,
    {
        if s.get_char(i + j) != pat.get_char(j) {
            assert(s@.subrange(i as int, i + pat@.len())[j as int] != pat@[j as int]);
            return false;
        }
        j = j + 1;
    }
    proof {
        assert(s@.subrange(i as int, i + pat@.len()) =~= pat@);
    }
    true
}

/// `s` with every occurrence of `pat` replaced by `rep`, scanning left to
/// right without overlap.
pub fn replace_all(s: &str, pat: &str, rep: &str) -> (r: String)
    requires
        pat@.len() > 0,
    ensures
        r@ == spec_replace(s@, pat@, rep@),
{
    let n = s.unicode_len();
    let m = pat.unicode_len();
    let mut out = String::new();
    let mut i: usize = 0;
    proof {
        assert(s@.skip(0) =~= s@);
        assert(Seq::<char>::empty() + spec_replace(s@, pat@, rep@) =~= spec_replace(
            s@,
            pat@,
            rep@,
        ));
    }
    while i < n
        invariant
            n == s@.len(),
            m == pat@.len(),
            m > 0,
            i <= n,
            spec_replace(s@, pat@, rep@) == out@ + spec_replace(
                s@.skip(i as int),
                pat@,
                rep@,
            ),
        decreases n - i,
    {
        let rest: usize = n - i;
        if m <= rest && match_at(s, pat, i) {
            proof {
                assert(s@.skip(i as int).subrange(0, pat@.len() as int) =~= s@.subrange(
                    i as int,
                    i + pat@.len(),
                ));
                assert(s@.skip(i as int).skip(pat@.len() as int) =~= s@.skip(i + pat@.len()));
                assert(out@ + (rep@ + spec_replace(s@.skip(i + m), pat@, rep@)) =~= (out@ + rep@)
                    + spec_replace(s@.skip(i + m), pat@, rep@));
            }
            out.append(rep);
            i = i + m;
        } else {
            proof {
                let tail = s@.skip(i as int);
                assert(tail.len() == n - i);
                if m <= rest {
                    assert(tail.subrange(0, pat@.len() as int) =~= s@.subrange(
                        i as int,
                        i + pat@.len(),
                    ));
                    assert(tail.subrange(0, pat@.len() as int) != pat@);
                    assert(spec_replace(tail, pat@, rep@) == seq![tail[0]] + spec_replace(
                        tail.skip(1),
                        pat@,
                        rep@,
                    ));
                } else {
                    assert(spec_replace(tail, pat@, rep@) == tail);
                    assert(spec_replace(tail.skip(1), pat@, rep@) == tail.skip(1));
                    assert(tail =~= seq![tail[0]] + tail.skip(1));
                }
                assert(tail[0] == s@[i as int]);
                assert(tail.skip(1) =~= s@.skip(i + 1));
                assert(seq![s@[i as int]] =~= s@.subrange(i as int, i + 1));
                assert(spec_replace(tail, pat@, rep@) == s@.subrange(i as int, i + 1)
                    + spec_replace(s@.skip(i + 1), pat@, rep@));
                assert(out@ + (s@.subrange(i as int, i + 1) + spec_replace(
                    s@.skip(i + 1),
                    pat@,
                    rep@,
                )) =~= (out@ + s@.subrange(i as int, i + 1)) + spec_replace(
                    s@.skip(i + 1),
                    pat@,
                    rep@,
                ));
            }
            let piece = s.substring_char(i, i + 1);
            out.append(piece);
            i = i + 1;
        }
    }
    proof {
        assert(s@.skip(n as int) =~= Seq::<char>::empty());
        assert(out@ + Seq::<char>::empty() =~= out@);
    }
    out
}

/// Whether `p` is a prefix of `s`.
pub fn has_prefix(s: &str, p: &str) -> (b: bool)
    ensures
        b == p@.is_prefix_of(s@),
{
    let n = s.unicode_len();
    let m = p.unicode_len();
    if m <= n {
        match_at(s, p, 0)
    } else {
        false
    }
}

proof fn lemma_after_last_from(s: Seq<char>, sep: char, k: int)
    requires
        0 <= k <= s.len(),
        forall|t: int| k <= t < s.len() ==> s[t] != sep,
        k == 0 || s[k - 1] == sep,
    ensures
        spec_after_last(s, sep) == s.skip(k),
    decreases s.len(),
{
    if s.len() == 0 {
        assert(spec_after_last(s, sep) =~= s.skip(k));
    } else if s.last() == sep {
        assert(k == s.len());
        assert(spec_after_last(s, sep) =~= s.skip(k));
    } else {
        assert(k < s.len());
        lemma_after_last_from(s.drop_last(), sep, k);
        assert(spec_after_last(s.drop_last(), sep).push(s.last()) =~= s.skip(k));
    }
}

/// The part of `s` after the last occurrence of `sep`; all of `s` when `sep`
/// does not occur.
pub fn after_last(s: &str, sep: char) -> (r: String)
    ensures
        r@ == spec_after_last(s@, sep),
{
    let n = s.unicode_len();
    let mut start: usize = 0;
    let mut i: usize = 0;
    while i < n
        invariant
            n == s@.len(),
            0 <= start <= i <= n,
            forall|t: int| start <= t < i ==> s@[t] != sep,
            start == 0 || s@[start - 1] == sep,
        decreases n - i,
    {
        if s.get_char(i) == sep {
            start = i + 1;
        }
        i = i + 1;
    }
    proof {
        lemma_after_last_from(s@, sep, start as int);
        assert(s@.skip(start as int) =~= s@.subrange(start as int, n as int));
    }
    let piece = s.substring_char(start, n);
    piece.to_owned()
}

} // verus!
