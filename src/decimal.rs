//! Decimal spelling of atomic numbers: the digits of a natural number, most
//! significant first, without sign and without leading zeros.
use vstd::prelude::*;

verus! {

/// The character that spells the digit `d` (`d < 10`).
pub open spec fn digit_char(d: nat) -> char {
    if d == 0 {
        '0'
    } else if d == 1 {
        '1'
    } else if d == 2 {
        '2'
    } else if d == 3 {
        '3'
    } else if d == 4 {
        '4'
    } else if d == 5 {
        '5'
    } else if d == 6 {
        '6'
    } else if d == 7 {
        '7'
    } else if d == 8 {
        '8'
    } else {
        '9'
    }
}

/// The value of a digit character, or 10 for any other character.
pub open spec fn digit_value(c: char) -> nat {
    if c == '0' {
        0
    } else if c == '1' {
        1
    } else if c == '2' {
        2
    } else if c == '3' {
        3
    } else if c == '4' {
        4
    } else if c == '5' {
        5
    } else if c == '6' {
        6
    } else if c == '7' {
        7
    } else if c == '8' {
        8
    } else if c == '9' {
        9
    } else {
        10
    }
}

pub open spec fn is_digit(c: char) -> bool {
    digit_value(c) < 10
}

pub open spec fn all_digits(t: Seq<char>) -> bool {
    forall|i: int| 0 <= i < t.len() ==> #[trigger] is_digit(t[i])
}

/// The number that a string of digits spells.
pub open spec fn digits_value(t: Seq<char>) -> nat
    decreases t.len(),
{
    if t.len() == 0 {
        0
    } else {
        digits_value(t.drop_last()) * 10 + digit_value(t.last())
    }
}

/// The canonical decimal spelling of `n`.
pub open spec fn decimal_text(n: nat) -> Seq<char>
    decreases n,
{
    if n < 10 {
        seq![digit_char(n)]
    } else {
        decimal_text(n / 10).push(digit_char(n % 10))
    }
}

proof fn lemma_digit_char_value(d: nat)
    requires
        d < 10,
    ensures
        digit_value(digit_char(d)) == d,
        digit_char(d) == '0' <==> d == 0,
{
}

proof fn lemma_digit_value_char(c: char)
    requires
        is_digit(c),
    ensures
        digit_char(digit_value(c)) == c,
{
}

/// The spelling of `n` is a non-empty string of digits whose value is `n`,
/// with no leading zero unless it is the single digit of zero.
pub proof fn lemma_decimal_text_shape(n: nat)
    ensures
        decimal_text(n).len() >= 1,
        all_digits(decimal_text(n)),
        digits_value(decimal_text(n)) == n,
        decimal_text(n)[0] == '0' ==> n == 0,
        n < 10 ==> decimal_text(n).len() == 1,
        n < 100 ==> decimal_text(n).len() <= 2,
        n < 1000 ==> decimal_text(n).len() <= 3,
    decreases n,
{
    let t = decimal_text(n);
    if n < 10 {
        lemma_digit_char_value(n);
        assert(t.drop_last() =~= Seq::<char>::empty());
        assert(digits_value(t.drop_last()) == 0);
        assert(t.last() == digit_char(n));
    } else {
        let q = n / 10;
        let r = n % 10;
        lemma_decimal_text_shape(q);
        lemma_digit_char_value(r);
        assert(t.drop_last() =~= decimal_text(q));
        assert(t[0] == decimal_text(q)[0]);
        assert forall|i: int| 0 <= i < t.len() implies #[trigger] is_digit(t[i]) by {
            if i < t.len() - 1 {
                assert(t[i] == decimal_text(q)[i]);
            }
        }
        assert(t.last() == digit_char(r));
        assert(digits_value(t) == digits_value(decimal_text(q)) * 10 + r);
        assert(q * 10 + r == n);
    }
}

/// Two numbers with the same spelling are equal.
pub proof fn lemma_decimal_text_injective(m: nat, n: nat)
    requires
        decimal_text(m) == decimal_text(n),
    ensures
        m == n,
{
    lemma_decimal_text_shape(m);
    lemma_decimal_text_shape(n);
}

proof fn lemma_leading_nonzero_value(t: Seq<char>)
    requires
        t.len() >= 1,
        all_digits(t),
        t[0] != '0',
    ensures
        digits_value(t) >= 1,
    decreases t.len(),
{
    if t.len() == 1 {
        assert(t.drop_last() =~= Seq::<char>::empty());
        lemma_digit_value_char(t[0]);
    } else {
        let p = t.drop_last();
        assert(p[0] == t[0]);
        assert forall|i: int| 0 <= i < p.len() implies #[trigger] is_digit(p[i]) by {
            assert(p[i] == t[i]);
        }
        lemma_leading_nonzero_value(p);
    }
}

/// A string of digits without a leading zero (or the single digit zero) is
/// the spelling of its value.
proof fn lemma_canonical_digits(t: Seq<char>)
    requires
        t.len() >= 1,
        all_digits(t),
        t.len() == 1 || t[0] != '0',
    ensures
        decimal_text(digits_value(t)) == t,
    decreases t.len(),
{
    let last = t.last();
    assert(is_digit(t[t.len() - 1]));
    let d = digit_value(last);
    lemma_digit_value_char(last);
    if t.len() == 1 {
        assert(t.drop_last() =~= Seq::<char>::empty());
        assert(digits_value(t.drop_last()) == 0);
        assert(digits_value(t) == d);
        assert(decimal_text(d) =~= t);
    } else {
        let p = t.drop_last();
        assert(p[0] == t[0]);
        assert forall|i: int| 0 <= i < p.len() implies #[trigger] is_digit(p[i]) by {
            assert(p[i] == t[i]);
        }
        lemma_leading_nonzero_value(p);
        lemma_canonical_digits(p);
        let v = digits_value(t);
        let pv = digits_value(p);
        assert(v == pv * 10 + d);
        assert(v / 10 == pv && v % 10 == d) by (nonlinear_arith)
            requires
                v == pv * 10 + d,
                d < 10,
        ;
        assert(decimal_text(v) == decimal_text(pv).push(digit_char(d)));
        assert(p.push(last) =~= t);
    }
}

/// The value of the digit `c`, if it is one.
fn digit_of(c: char) -> (r: Option<u64>)
    ensures
        match r {
            Some(d) => is_digit(c) && d == digit_value(c),
            None => !is_digit(c),
        },
{
    match c {
        '0' => Some(0),
        '1' => Some(1),
        '2' => Some(2),
        '3' => Some(3),
        '4' => Some(4),
        '5' => Some(5),
        '6' => Some(6),
        '7' => Some(7),
        '8' => Some(8),
        '9' => Some(9),
        _ => None,
    }
}

/// Reads `s` as the decimal spelling of a number below one thousand.
pub fn parse_small_decimal(s: &str) -> (r: Option<u64>)
    ensures
        match r {
            Some(v) => v < 1000 && decimal_text(v as nat) == s@,
            None => forall|n: nat| n < 1000 ==> #[trigger] decimal_text(n) != s@,
        },
{
    let len = s.unicode_len();
    if len == 0 || len > 3 {
        proof {
            assert forall|n: nat| n < 1000 implies #[trigger] decimal_text(n) != s@ by {
                lemma_decimal_text_shape(n);
            }
        }
        return None;
    }
    let mut v: u64 = 0;
    let mut i: usize = 0;
    while i < len
        invariant
            len == s@.len(),
            1 <= len <= 3,
            i <= len,
            all_digits(s@.subrange(0, i as int)),
            v as nat == digits_value(s@.subrange(0, i as int)),
            i == 0 ==> v == 0,
            i <= 1 ==> v < 10,
            i <= 2 ==> v < 100,
            v < 1000,
        decreases len - i,
    {
        let c = s.get_char(i);
        match digit_of(c) {
            Some(d) => {
                let ghost prev = s@.subrange(0, i as int);
                let ghost next = s@.subrange(0, i as int + 1);
                proof {
                    assert(next.drop_last() =~= prev);
                    assert(next.last() == c);
                    assert forall|k: int| 0 <= k < next.len() implies #[trigger] is_digit(
                        next[k],
                    ) by {
                        if k < i {
                            assert(next[k] == prev[k]);
                        }
                    }
                }
                v = v * 10 + d;
                i = i + 1;
            },
            None => {
                proof {
                    assert forall|n: nat| n < 1000 implies #[trigger] decimal_text(n) != s@ by {
                        lemma_decimal_text_shape(n);
                        if decimal_text(n) == s@ {
                            assert(is_digit(decimal_text(n)[i as int]));
                        }
                    }
                }
                return None;
            },
        }
    }
    proof {
        assert(s@.subrange(0, len as int) =~= s@);
    }
    if len > 1 && s.get_char(0) == '0' {
        proof {
            assert forall|n: nat| n < 1000 implies #[trigger] decimal_text(n) != s@ by {
                lemma_decimal_text_shape(n);
            }
        }
        return None;
    }
    proof {
        lemma_canonical_digits(s@);
    }
    Some(v)
}

/// The one-character string of the digit `d`.
fn digit_str(d: u64) -> (r: &'static str)
    requires
        d < 10,
    ensures
        r@ == seq![digit_char(d as nat)],
{
    match d {
        0 => {
            proof { reveal_strlit("0"); }
            "0"
        },
        1 => {
            proof { reveal_strlit("1"); }
            "1"
        },
        2 => {
            proof { reveal_strlit("2"); }
            "2"
        },
        3 => {
            proof { reveal_strlit("3"); }
            "3"
        },
        4 => {
            proof { reveal_strlit("4"); }
            "4"
        },
        5 => {
            proof { reveal_strlit("5"); }
            "5"
        },
        6 => {
            proof { reveal_strlit("6"); }
            "6"
        },
        7 => {
            proof { reveal_strlit("7"); }
            "7"
        },
        8 => {
            proof { reveal_strlit("8"); }
            "8"
        },
        _ => {
            proof { reveal_strlit("9"); }
            "9"
        },
    }
}

/// The decimal spelling of `n`.
pub fn decimal_string(n: u64) -> (r: String)
    ensures
        r@ == decimal_text(n as nat),
    decreases n,
{
    if n < 10 {
        String::from_str(digit_str(n))
    } else {
        let mut r = decimal_string(n / 10);
        r.append(digit_str(n % 10));
        r
    }
}

} // verus!
