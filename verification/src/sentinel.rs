//! Sentinel strings for unresolvable account references.
//!
//! An out-of-range account index is replaced by a string that embeds the
//! offending index in decimal, so downstream consumers can tell which
//! reference failed; an out-of-range program index gets a fixed marker.

use vstd::arithmetic::div_mod::lemma_fundamental_div_mod;
use vstd::prelude::*;
use vstd::string::StringExecFns;

verus! {

/// The character for one decimal digit.
pub open spec fn digit_char(d: nat) -> char {
    if d == 0 {
        '0'
    } else if d == 1 {
        '1'
    } else if d == 2 {
        '2'
    } else if d == 3 {
        '3'
    } else if d == 4 {
        '4'
    } else if d == 5 {
        '5'
    } else if d == 6 {
        '6'
    } else if d == 7 {
        '7'
    } else if d == 8 {
        '8'
    } else {
        '9'
    }
}

/// The decimal digit characters of `n`, most significant first, without
/// leading zeros (`0` itself is the single character `'0'`).
pub open spec fn dec_digits(n: nat) -> Seq<char>
    decreases n,
{
    if n < 10 {
        seq![digit_char(n)]
    } else {
        dec_digits(n / 10).push(digit_char(n % 10))
    }
}

/// The sentinel substituted for an account reference whose index `idx` lies
/// outside the account table.
pub open spec fn unknown_idx_sentinel(idx: nat) -> Seq<char> {
    "UNKNOWN_IDX_"@ + dec_digits(idx)
}

/// The sentinel substituted for a program reference whose index lies outside
/// the account table.
pub open spec fn unknown_program_sentinel() -> Seq<char> {
    "UNKNOWN_PROGRAM_INDEX"@
}

proof fn lemma_digit_char_injective(a: nat, b: nat)
    requires
        a < 10,
        b < 10,
        a != b,
    ensures
        digit_char(a) != digit_char(b),
{
}

proof fn lemma_dec_digits_nonempty(n: nat)
    ensures
        dec_digits(n).len() >= 1,
    decreases n,
{
    if n >= 10 {
        lemma_dec_digits_nonempty(n / 10);
    }
}

/// Decimal rendering is injective: different numbers have different digit
/// sequences.
proof fn lemma_dec_digits_injective(m: nat, n: nat)
    requires
        m != n,
    ensures
        dec_digits(m) != dec_digits(n),
    decreases m + n,
{
    if m < 10 && n < 10 {
        lemma_digit_char_injective(m, n);
        assert(dec_digits(m)[0] == digit_char(m));
        assert(dec_digits(n)[0] == digit_char(n));
    } else if m < 10 && n >= 10 {
        lemma_dec_digits_nonempty(n / 10);
        assert(dec_digits(m).len() == 1);
        assert(dec_digits(n).len() >= 2);
    } else if m >= 10 && n < 10 {
        lemma_dec_digits_nonempty(m / 10);
        assert(dec_digits(m).len() >= 2);
        assert(dec_digits(n).len() == 1);
    } else if dec_digits(m) == dec_digits(n) {
        assert(dec_digits(m).last() == digit_char(m % 10));
        assert(dec_digits(n).last() == digit_char(n % 10));
        if m % 10 != n % 10 {
            lemma_digit_char_injective(m % 10, n % 10);
        }
        assert(dec_digits(m).drop_last() =~= dec_digits(m / 10));
        assert(dec_digits(n).drop_last() =~= dec_digits(n / 10));
        if m / 10 != n / 10 {
            lemma_dec_digits_injective(m / 10, n / 10);
        }
        lemma_fundamental_div_mod(m as int, 10);
        lemma_fundamental_div_mod(n as int, 10);
        assert(false);
    }
}

proof fn lemma_concat_cancels_prefix(p: Seq<char>, a: Seq<char>, b: Seq<char>)
    requires
        a != b,
    ensures
        p + a != p + b,
{
    if p + a == p + b {
        assert((p + a).len() == p.len() + a.len());
        assert((p + b).len() == p.len() + b.len());
        assert(a.len() == b.len());
        assert forall|k: int| 0 <= k < a.len() implies a[k] == b[k] by {
            assert((p + a)[p.len() + k] == a[k]);
            assert((p + b)[p.len() + k] == b[k]);
        }
        assert(a =~= b);
    }
}

/// Sentinel distinctness: two out-of-range indices that differ produce
/// sentinel strings that differ, and each sentinel carries the decimal
/// digits of its own originating index after the common prefix.
pub proof fn lemma_sentinel_distinct(i: nat, j: nat)
    requires
        i != j,
    ensures
        unknown_idx_sentinel(i) != unknown_idx_sentinel(j),
        unknown_idx_sentinel(i).skip("UNKNOWN_IDX_"@.len() as int) == dec_digits(i),
{
    lemma_dec_digits_injective(i, j);
    lemma_concat_cancels_prefix("UNKNOWN_IDX_"@, dec_digits(i), dec_digits(j));
    assert(unknown_idx_sentinel(i).skip("UNKNOWN_IDX_"@.len() as int) =~= dec_digits(i));
}

/// The one-character string for a decimal digit.
fn digit_str(d: usize) -> (r: &'static str)
    requires
        d < 10,
    ensures
        r@ == seq![digit_char(d as nat)],
{
    proof {
        reveal_strlit("0");
        reveal_strlit("1");
        reveal_strlit("2");
        reveal_strlit("3");
        reveal_strlit("4");
        reveal_strlit("5");
        reveal_strlit("6");
        reveal_strlit("7");
        reveal_strlit("8");
        reveal_strlit("9");
    }
    let r: &'static str = if d == 0 {
        "0"
    } else if d == 1 {
        "1"
    } else if d == 2 {
        "2"
    } else if d == 3 {
        "3"
    } else if d == 4 {
        "4"
    } else if d == 5 {
        "5"
    } else if d == 6 {
        "6"
    } else if d == 7 {
        "7"
    } else if d == 8 {
        "8"
    } else {
        "9"
    };
    proof {
        assert(r@ =~= seq![digit_char(d as nat)]);
    }
    r
}

/// Appends the decimal digits of `n` to `s`.
fn push_dec_digits(s: &mut String, n: usize)
    ensures
        final(s)@ == old(s)@ + dec_digits(n as nat),
    decreases n,
{
    if n >= 10 {
        push_dec_digits(s, n / 10);
        s.append(digit_str(n % 10));
    } else {
        s.append(digit_str(n));
    }
    proof {
        assert(s@ =~= old(s)@ + dec_digits(n as nat));
    }
}

/// Builds the sentinel string for the out-of-range account index `idx`.
pub(crate) fn unknown_index_string(idx: usize) -> (r: String)
    ensures
        r@ == unknown_idx_sentinel(idx as nat),
{
    let mut s: String = String::from_str("UNKNOWN_IDX_");
    push_dec_digits(&mut s, idx);
    s
}

} // verus!
