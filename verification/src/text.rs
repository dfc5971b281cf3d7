//! Literal substring substitution, the primitive that the template renderer
//! is built on.

use vstd::prelude::*;

verus! {

/// Replaces every occurrence of `p` in `t` by `r`, scanning left to right and
/// never rescanning replaced text, the way `str::replace` does for a non-empty
/// pattern. An empty pattern replaces nothing.
pub open spec fn replace_all(t: Seq<char>, p: Seq<char>, r: Seq<char>) -> Seq<char>
    decreases t.len(),
{
    if p.len() == 0 || t.len() < p.len() {
        t
    } else if t.take(p.len() as int) == p {
        r + replace_all(t.skip(p.len() as int), p, r)
    } else {
        t.take(1) + replace_all(t.skip(1), p, r)
    }
}

/// Does `p` stand in `t` at character position `i`?
fn matches_at(t: &str, i: usize, p: &str, plen: usize) -> (b: bool)
    requires
        plen == p@.len(),
        i + plen <= t@.len(),
        t@.len() <= usize::MAX,
    ensures
        b == (t@.subrange(i as int, i + plen) == p@),
{
    let mut j: usize = 0;
    while j < plen
        invariant
            j <= plen,
            plen == p@.len(),
            i + plen <= t@.len(),
            t@.len() <= usize::MAX,
            forall|k: int| 0 <= k < j ==> t@[i + k] == p@[k],
        decreases plen - j,
    {
        if t.get_char(i + j) != p.get_char(j) {
            proof {
                assert(t@.subrange(i as int, i + plen)[j as int] != p@[j as int]);
            }
            return false;
        }
        j += 1;
    }
    proof {
        assert(t@.subrange(i as int, i + plen) =~= p@);
    }
    true
}

/// Character-for-character equality of two strings.
pub fn str_eq(a: &str, b: &str) -> (r: bool)
    ensures
        r == (a@ == b@),
{
    let alen = a.unicode_len();
    let blen = b.unicode_len();
    if alen != blen {
        return false;
    }
    let r = matches_at(a, 0, b, blen);
    proof {
        assert(a@.subrange(0, alen as int) =~= a@);
    }
    r
}

/// Replaces every occurrence of the non-empty pattern `p` in `t` by `r`,
/// leftmost first, without rescanning replaced text.
pub fn replace_all_str(t: &str, p: &str, r: &str) -> (out: String)
    requires
        p@.len() >= 1,
    ensures
        out@ == replace_all(t@, p@, r@),
{
    let tlen = t.unicode_len();
    let plen = p.unicode_len();
    let mut out = String::new();
    if plen > tlen {
        out.append(t);
        return out;
    }
    let mut i: usize = 0;
    proof {
        assert(t@.skip(0) =~= t@);
        assert(out@ + replace_all(t@, p@, r@) =~= replace_all(t@, p@, r@));
    }
    while i <= tlen - plen
        invariant
            plen == p@.len(),
            tlen == t@.len(),
            1 <= plen <= tlen,
            i <= tlen,
            out@ + replace_all(t@.skip(i as int), p@, r@) == replace_all(t@, p@, r@),
        decreases tlen - i,
    {
        if matches_at(t, i, p, plen) {
            out.append(r);
            proof {
                assert(t@.skip(i as int).take(plen as int) =~= t@.subrange(
                    i as int,
                    i + plen,
                ));
                assert(t@.skip(i as int).skip(plen as int) =~= t@.skip(i + plen));
                assert(replace_all(t@.skip(i as int), p@, r@) == r@ + replace_all(
                    t@.skip(i + plen),
                    p@,
                    r@,
                ));
            }
            i = i + plen;
        } else {
            let c = t.substring_char(i, i + 1);
            out.append(c);
            proof {
                assert(t@.skip(i as int).take(plen as int) =~= t@.subrange(i as int, i + plen));
                assert(t@.skip(i as int).take(1) =~= t@.subrange(i as int, i + 1));
                assert(t@.skip(i as int).skip(1) =~= t@.skip(i + 1));
                assert(replace_all(t@.skip(i as int), p@, r@) == t@.skip(i as int).take(1)
                    + replace_all(t@.skip(i + 1), p@, r@));
            }
            i = i + 1;
        }
    }
    let tail = t.substring_char(i, tlen);
    out.append(tail);
    proof {
        assert(t@.subrange(i as int, tlen as int) =~= t@.skip(i as int));
        assert(t@.skip(i as int).len() < plen);
    }
    out
}

} // verus!
