//! Small executable helpers over strings, with exact contracts in terms
//! of the `Seq<char>` views that the rest of the crate speaks.

use vstd::prelude::*;

verus! {

/// Whether `p` is a prefix of `s`.
pub open spec fn has_prefix(s: Seq<char>, p: Seq<char>) -> bool {
    p.len() <= s.len() && s.subrange(0, p.len() as int) == p
}

/// Equality of two string slices, decided by value.
pub fn str_eq(a: &str, b: &str) -> (r: bool)
    ensures
        r == (a@ == b@),
{
    let x: String = a.to_owned();
    let y: String = b.to_owned();
    x == y
}

/// Concatenation of two string slices.
pub fn str_concat(a: &str, b: &str) -> (r: String)
    ensures
        r@ == a@ + b@,
{
    let mut s: String = a.to_owned();
    s.append(b);
    s
}

/// Lexicographic order on character sequences, by code point; a
/// prefix comes before every extension of it.
pub open spec fn lex_leq(a: Seq<char>, b: Seq<char>) -> bool
    decreases a.len(),
{
    if a.len() == 0 {
        true
    } else if b.len() == 0 {
        false
    } else if a[0] == b[0] {
        lex_leq(a.skip(1), b.skip(1))
    } else {
        (a[0] as u32) < (b[0] as u32)
    }
}

/// The lexicographic order is total.
pub proof fn lemma_lex_leq_total(a: Seq<char>, b: Seq<char>)
    ensures
        lex_leq(a, b) || lex_leq(b, a),
    decreases a.len(),
{
    if a.len() > 0 && b.len() > 0 {
        if a[0] == b[0] {
            lemma_lex_leq_total(a.skip(1), b.skip(1));
        } else if (a[0] as u32) == (b[0] as u32) {
            vstd::utf8::char_u32_cast(a[0], a[0] as u32);
            vstd::utf8::char_u32_cast(b[0], b[0] as u32);
            assert(false);
        }
    }
}

/// The lexicographic order is transitive.
pub proof fn lemma_lex_leq_trans(a: Seq<char>, b: Seq<char>, c: Seq<char>)
    requires
        lex_leq(a, b),
        lex_leq(b, c),
    ensures
        lex_leq(a, c),
    decreases a.len(),
{
    if a.len() > 0 && b.len() > 0 && c.len() > 0 && a[0] == b[0] && b[0] == c[0] {
        lemma_lex_leq_trans(a.skip(1), b.skip(1), c.skip(1));
    }
}

proof fn lemma_lex_leq_skip(a: Seq<char>, b: Seq<char>, i: int)
    requires
        0 <= i <= a.len(),
        i <= b.len(),
        forall|j: int| 0 <= j < i ==> a[j] == b[j],
    ensures
        lex_leq(a, b) == lex_leq(a.skip(i), b.skip(i)),
    decreases i,
{
    if i == 0 {
        assert(a.skip(0) =~= a);
        assert(b.skip(0) =~= b);
    } else {
        lemma_lex_leq_skip(a, b, i - 1);
        let ap = a.skip(i - 1);
        let bp = b.skip(i - 1);
        assert(ap[0] == a[i - 1]);
        assert(bp[0] == b[i - 1]);
        assert(ap.skip(1) =~= a.skip(i));
        assert(bp.skip(1) =~= b.skip(i));
        assert(lex_leq(ap, bp) == lex_leq(ap.skip(1), bp.skip(1)));
    }
}

/// Decides the lexicographic order on two string slices.
pub fn str_le(a: &str, b: &str) -> (r: bool)
    ensures
        r == lex_leq(a@, b@),
{
    let alen = a.unicode_len();
    let blen = b.unicode_len();
    let mut i: usize = 0;
    loop
        invariant
            i <= alen,
            i <= blen,
            alen == a@.len(),
            blen == b@.len(),
            forall|j: int| 0 <= j < i ==> a@[j] == b@[j],
        decreases alen - i,
    {
        proof {
            lemma_lex_leq_skip(a@, b@, i as int);
        }
        if i >= alen {
            proof {
                assert(a@.skip(i as int).len() == 0);
            }
            return true;
        }
        if i >= blen {
            proof {
                assert(a@.skip(i as int).len() > 0);
                assert(b@.skip(i as int).len() == 0);
            }
            return false;
        }
        let ca = a.get_char(i);
        let cb = b.get_char(i);
        if ca != cb {
            proof {
                assert(a@.skip(i as int)[0] == a@[i as int]);
                assert(b@.skip(i as int)[0] == b@[i as int]);
            }
            return (ca as u32) < (cb as u32);
        }
        i += 1;
    }
}

} // verus!
