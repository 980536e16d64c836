//! Platform identifiers and their canonical decimal text form.
//!
//! Inside the engine every platform identifier (channel, message, user, role)
//! is a `u64`. The persistence layer and the chat platform exchange the same
//! identifiers as decimal text, so this module gives the two boundary
//! conversions: rendering a `u64` as its decimal digits and parsing decimal
//! digits back, with a proved round trip.

use vstd::prelude::*;

verus! {

/// The characters `'0'` through `'9'`.
pub open spec fn is_dec_digit(c: char) -> bool {
    '0' <= c && c <= '9'
}

/// Numeric value of a decimal digit character.
pub open spec fn dec_digit_val(c: char) -> nat {
    (c as int - '0' as int) as nat
}

/// Every character of `s` is a decimal digit.
pub open spec fn is_dec_seq(s: Seq<char>) -> bool {
    forall|i: int| 0 <= i < s.len() ==> is_dec_digit(#[trigger] s[i])
}

/// Value of `s` read as a big-endian decimal numeral.
pub open spec fn dec_value(s: Seq<char>) -> nat
    decreases s.len(),
{
    if s.len() == 0 {
        0
    } else {
        dec_value(s.drop_last()) * 10 + dec_digit_val(s.last())
    }
}

/// The digit character for a value below ten.
pub open spec fn dec_digit_char(d: nat) -> char {
    if d == 0 {
        '0'
    } else if d == 1 {
        '1'
    } else if d == 2 {
        '2'
    } else if d == 3 {
        '3'
    } else if d == 4 {
        '4'
    } else if d == 5 {
        '5'
    } else if d == 6 {
        '6'
    } else if d == 7 {
        '7'
    } else if d == 8 {
        '8'
    } else {
        '9'
    }
}

/// Canonical decimal numeral of `n`: no leading zeros, and a single `'0'`
/// for zero itself.
pub open spec fn dec_seq_of(n: nat) -> Seq<char>
    decreases n,
{
    if n < 10 {
        seq![dec_digit_char(n)]
    } else {
        dec_seq_of(n / 10).push(dec_digit_char(n % 10))
    }
}

/// `s` is a numeral that denotes exactly the identifier `v`.
pub open spec fn parses_to(s: Seq<char>, v: u64) -> bool {
    is_dec_seq(s) && s.len() > 0 && dec_value(s) == v
}

/// `s` is a numeral whose value fits in an identifier.
pub open spec fn parseable(s: Seq<char>) -> bool {
    is_dec_seq(s) && s.len() > 0 && dec_value(s) <= u64::MAX
}

/// The value of a numeral is at least the value of any of its prefixes:
/// appending digits never shrinks it.
proof fn lemma_dec_value_prefix_le(s: Seq<char>, i: int)
    requires
        0 <= i <= s.len(),
    ensures
        dec_value(s.subrange(0, i)) <= dec_value(s),
    decreases s.len() - i,
{
    if i == s.len() {
        assert(s.subrange(0, i) =~= s);
    } else {
        lemma_dec_value_prefix_le(s, i + 1);
        assert(s.subrange(0, i + 1).drop_last() =~= s.subrange(0, i));
    }
}

/// A digit character carries the value it was made from.
proof fn lemma_dec_digit_char_val(d: nat)
    requires
        d < 10,
    ensures
        is_dec_digit(dec_digit_char(d)),
        dec_digit_val(dec_digit_char(d)) == d,
{
    if d == 0 {
        assert(dec_digit_val('0') == 0);
    } else if d == 1 {
        assert(dec_digit_val('1') == 1);
    } else if d == 2 {
        assert(dec_digit_val('2') == 2);
    } else if d == 3 {
        assert(dec_digit_val('3') == 3);
    } else if d == 4 {
        assert(dec_digit_val('4') == 4);
    } else if d == 5 {
        assert(dec_digit_val('5') == 5);
    } else if d == 6 {
        assert(dec_digit_val('6') == 6);
    } else if d == 7 {
        assert(dec_digit_val('7') == 7);
    } else if d == 8 {
        assert(dec_digit_val('8') == 8);
    } else {
        assert(dec_digit_val('9') == 9);
    }
}

/// The canonical numeral reads back as the number it was made from.
pub proof fn lemma_dec_round_trip(n: nat)
    ensures
        dec_seq_of(n).len() >= 1,
        is_dec_seq(dec_seq_of(n)),
        dec_value(dec_seq_of(n)) == n,
    decreases n,
{
    if n < 10 {
        lemma_dec_digit_char_val(n);
        let s = dec_seq_of(n);
        assert(s.drop_last() =~= Seq::<char>::empty());
        assert(dec_value(s) == dec_value(Seq::<char>::empty()) * 10 + dec_digit_val(dec_digit_char(n)));
        assert(dec_value(s) == n);
    } else {
        lemma_dec_round_trip(n / 10);
        lemma_dec_digit_char_val(n % 10);
        let s = dec_seq_of(n);
        assert(s.drop_last() =~= dec_seq_of(n / 10));
        assert(dec_value(s) == (n / 10) * 10 + n % 10);
        assert((n / 10) * 10 + n % 10 == n) by (nonlinear_arith);
    }
}

/// The single-character string for a digit value below ten.
fn digit_text(d: u64) -> (s: String)
    requires
        d < 10,
    ensures
        s@ == seq![dec_digit_char(d as nat)],
{
    proof {
        reveal_strlit("0");
        reveal_strlit("1");
        reveal_strlit("2");
        reveal_strlit("3");
        reveal_strlit("4");
        reveal_strlit("5");
        reveal_strlit("6");
        reveal_strlit("7");
        reveal_strlit("8");
        reveal_strlit("9");
    }
    let s = if d == 0 {
        "0"
    } else if d == 1 {
        "1"
    } else if d == 2 {
        "2"
    } else if d == 3 {
        "3"
    } else if d == 4 {
        "4"
    } else if d == 5 {
        "5"
    } else if d == 6 {
        "6"
    } else if d == 7 {
        "7"
    } else if d == 8 {
        "8"
    } else {
        "9"
    };
    assert(s@ =~= seq![dec_digit_char(d as nat)]);
    String::from_str(s)
}

/// Renders `n` as its canonical decimal text, the form in which platform
/// identifiers are persisted.
pub fn id_text(n: u64) -> (s: String)
    ensures
        s@ == dec_seq_of(n as nat),
    decreases n,
{
    if n < 10 {
        digit_text(n)
    } else {
        let mut s = id_text(n / 10);
        let last = digit_text(n % 10);
        s.append(last.as_str());
        assert(s@ =~= dec_seq_of(n as nat));
        s
    }
}

/// Parses decimal text into an identifier. Returns the numeral's value
/// exactly when the text is nonempty, all digits, and its value fits in a
/// `u64`; rejects everything else.
pub fn parse_id_text(s: &str) -> (r: Option<u64>)
    ensures
        match r {
            Some(v) => parses_to(s@, v),
            None => !parseable(s@),
        },
{
    let n = s.unicode_len();
    if n == 0 {
        return None;
    }
    let mut i: usize = 0;
    let mut v: u64 = 0;
    while i < n
        invariant
            n == s@.len(),
            0 <= i <= n,
            is_dec_seq(s@.subrange(0, i as int)),
            v == dec_value(s@.subrange(0, i as int)),
        decreases n - i,
    {
        let c = s.get_char(i);
        let u = c as u32;
        if u < 48 || u > 57 {
            assert(!is_dec_digit(s@[i as int]));
            return None;
        }
        let d = (u - 48) as u64;
        assert(is_dec_digit(s@[i as int]) && dec_digit_val(s@[i as int]) == d);
        if v > (u64::MAX - d) / 10 {
            proof {
                assert(s@.subrange(0, i + 1).drop_last() =~= s@.subrange(0, i as int));
                assert(dec_value(s@.subrange(0, i + 1)) > u64::MAX);
                lemma_dec_value_prefix_le(s@, i + 1);
            }
            return None;
        }
        proof {
            assert(s@.subrange(0, i + 1).drop_last() =~= s@.subrange(0, i as int));
        }
        v = v * 10 + d;
        i = i + 1;
    }
    proof {
        assert(s@.subrange(0, n as int) =~= s@);
    }
    Some(v)
}

} // verus!
