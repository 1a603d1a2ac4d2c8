//! The one canonical text form of a document index: its decimal digits.

use vstd::prelude::*;

verus! {

/// The ASCII decimal digits of `n`, most significant first, with no leading
/// zero (and the single digit `0` for zero).
pub open spec fn decimal_text(n: nat) -> Seq<u8>
    decreases n,
{
    if n < 10 {
        seq![(48 + n) as u8]
    } else {
        decimal_text(n / 10).push((48 + n % 10) as u8)
    }
}

/// Renders `n` as decimal text.
pub fn decimal(n: u64) -> (r: Vec<u8>)
    ensures
        r@ == decimal_text(n as nat),
    decreases n,
{
    if n < 10 {
        let mut out: Vec<u8> = Vec::new();
        out.push(48 + n as u8);
        proof {
            assert(out@ =~= decimal_text(n as nat));
        }
        out
    } else {
        let mut out = decimal(n / 10);
        out.push(48 + (n % 10) as u8);
        out
    }
}

/// Decimal text is never empty, and has two digits or more from ten on.
pub proof fn lemma_decimal_text_len(n: nat)
    ensures
        decimal_text(n).len() >= 1,
        n >= 10 ==> decimal_text(n).len() >= 2,
    decreases n,
{
    if n >= 10 {
        lemma_decimal_text_len(n / 10);
    }
}

/// Different numbers have different decimal texts, so two document indices
/// never give the same seed.
pub proof fn lemma_decimal_text_injective(a: nat, b: nat)
    requires
        decimal_text(a) == decimal_text(b),
    ensures
        a == b,
    decreases a,
{
    lemma_decimal_text_len(a);
    lemma_decimal_text_len(b);
    if a < 10 || b < 10 {
        assert(a < 10 ==> decimal_text(a).len() == 1);
        assert(b < 10 ==> decimal_text(b).len() == 1);
        assert(decimal_text(a)[0] == decimal_text(b)[0]);
        assert(decimal_text(a)[0] == (48 + a) as u8);
        assert(decimal_text(b)[0] == (48 + b) as u8);
    } else if a >= 10 && b >= 10 {
        let x = decimal_text(a / 10);
        let y = decimal_text(b / 10);
        let p = (48 + a % 10) as u8;
        let q = (48 + b % 10) as u8;
        assert(x.push(p).last() == y.push(q).last());
        assert(x.push(p).drop_last() =~= x);
        assert(y.push(q).drop_last() =~= y);
        assert(p == q);
        assert(a % 10 == b % 10);
        lemma_decimal_text_injective(a / 10, b / 10);
        assert(a / 10 == b / 10);
    }
}

} // verus!
