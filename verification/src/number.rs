//! Decimal numbers as text.

use vstd::prelude::*;

verus! {

/// `c` is one of `0` to `9`.
pub open spec fn is_digit(c: char) -> bool {
    0x30 <= c as u32 <= 0x39
}

/// The number that the digit `c` stands for.
pub open spec fn digit_value(c: char) -> nat {
    if is_digit(c) {
        (c as u32 - 0x30) as nat
    } else {
        0
    }
}

/// Every character of `s` is a digit.
pub open spec fn all_digits(s: Seq<char>) -> bool {
    forall|i: int| 0 <= i < s.len() ==> is_digit(#[trigger] s[i])
}

/// The number that the digits `s` write, most significant digit first.
pub open spec fn digits_value(s: Seq<char>) -> nat
    decreases s.len(),
{
    if s.len() == 0 {
        0
    } else {
        digits_value(s.drop_last()) * 10 + digit_value(s.last())
    }
}

/// `s` without one leading plus sign.
pub open spec fn unsigned_part(s: Seq<char>) -> Seq<char> {
    if s.len() > 0 && s[0] == '+' {
        s.skip(1)
    } else {
        s
    }
}

/// The number that `s` writes: an optional plus sign, then one or more
/// digits and nothing else, with a value that a `usize` can hold.
pub open spec fn parse_usize_spec(s: Seq<char>) -> Option<usize> {
    let d = unsigned_part(s);
    if d.len() > 0 && all_digits(d) && digits_value(d) <= usize::MAX {
        Some(digits_value(d) as usize)
    } else {
        None
    }
}

/// The digit that writes `d`.
pub open spec fn digit_char(d: nat) -> char {
    if d == 0 {
        '0'
    } else if d == 1 {
        '1'
    } else if d == 2 {
        '2'
    } else if d == 3 {
        '3'
    } else if d == 4 {
        '4'
    } else if d == 5 {
        '5'
    } else if d == 6 {
        '6'
    } else if d == 7 {
        '7'
    } else if d == 8 {
        '8'
    } else {
        '9'
    }
}

/// `n` in decimal, without sign or leading zeros.
pub open spec fn decimal_text(n: nat) -> Seq<char>
    decreases n,
{
    if n < 10 {
        seq![digit_char(n)]
    } else {
        decimal_text(n / 10).push(digit_char(n % 10))
    }
}

/// A prefix of a digit string writes no larger a number than the whole.
pub proof fn lemma_digits_value_prefix(s: Seq<char>, k: int)
    requires
        0 <= k <= s.len(),
    ensures
        digits_value(s.take(k)) <= digits_value(s),
    decreases s.len(),
{
    if k == s.len() {
        assert(s.take(k) == s);
    } else {
        assert(s.drop_last().take(k) == s.take(k));
        lemma_digits_value_prefix(s.drop_last(), k);
    }
}

/// Reads `s` as a decimal `usize`.
pub fn parse_usize(s: &[char]) -> (r: Option<usize>)
    ensures
        r == parse_usize_spec(s@),
{
    let start: usize = if s.len() > 0 && s[0] == '+' {
        1
    } else {
        0
    };
    if start >= s.len() {
        return None;
    }
    let ghost d = s@.skip(start as int);
    let mut acc: usize = 0;
    let mut i: usize = start;
    while i < s.len()
        invariant
            start <= i <= s@.len(),
            d == s@.skip(start as int),
            d == unsigned_part(s@),
            all_digits(d.take(i - start)),
            acc == digits_value(d.take(i - start)),
        decreases s@.len() - i,
    {
        let u = s[i] as u32;
        let ghost next = d.take(i - start + 1);
        proof {
            assert(next.drop_last() == d.take(i - start));
            assert(next.last() == s@[i as int]);
            lemma_digits_value_prefix(d, i - start + 1);
        }
        if u < 0x30 || u > 0x39 {
            proof {
                assert(!is_digit(d[i - start]));
            }
            return None;
        }
        let tens = match acc.checked_mul(10) {
            Some(t) => t,
            None => {
                return None;
            },
        };
        acc = match tens.checked_add((u - 0x30) as usize) {
            Some(t) => t,
            None => {
                return None;
            },
        };
        proof {
            assert forall|j: int| 0 <= j < next.len() implies is_digit(#[trigger] next[j]) by {
                if j < i - start {
                    assert(next[j] == d.take(i - start)[j]);
                }
            }
        }
        i += 1;
    }
    proof {
        assert(d.take(i - start) == d);
    }
    Some(acc)
}

/// The one-character text that writes the digit `d`.
fn digit_str(d: usize) -> (s: &'static str)
    requires
        d < 10,
    ensures
        s@ == seq![digit_char(d as nat)],
{
    proof {
        reveal_strlit("0");
        reveal_strlit("1");
        reveal_strlit("2");
        reveal_strlit("3");
        reveal_strlit("4");
        reveal_strlit("5");
        reveal_strlit("6");
        reveal_strlit("7");
        reveal_strlit("8");
        reveal_strlit("9");
    }
    let s = if d == 0 {
        "0"
    } else if d == 1 {
        "1"
    } else if d == 2 {
        "2"
    } else if d == 3 {
        "3"
    } else if d == 4 {
        "4"
    } else if d == 5 {
        "5"
    } else if d == 6 {
        "6"
    } else if d == 7 {
        "7"
    } else if d == 8 {
        "8"
    } else {
        "9"
    };
    proof {
        assert(s@ =~= seq![digit_char(d as nat)]);
    }
    s
}

/// Appends `n` in decimal to `out`.
pub fn push_decimal(out: &mut String, n: usize)
    ensures
        final(out)@ == old(out)@ + decimal_text(n as nat),
    decreases n,
{
    if n >= 10 {
        push_decimal(out, n / 10);
    }
    let ghost before = out@;
    out.append(digit_str(n % 10));
    proof {
        if n >= 10 {
            assert(out@ == old(out)@ + decimal_text(n as nat / 10).push(digit_char(n as nat % 10)));
        } else {
            assert(out@ == old(out)@ + seq![digit_char(n as nat)]);
        }
    }
}

/// `n` in decimal.
pub fn decimal(n: usize) -> (s: String)
    ensures
        s@ == decimal_text(n as nat),
{
    let mut s = String::new();
    push_decimal(&mut s, n);
    proof {
        assert(Seq::<char>::empty() + decimal_text(n as nat) == decimal_text(n as nat));
    }
    s
}

/// A text that is a number holds digits and at most a plus sign.
pub proof fn lemma_number_characters(s: Seq<char>)
    requires
        parse_usize_spec(s) is Some,
    ensures
        forall|i: int| 0 <= i < s.len() ==> is_digit(#[trigger] s[i]) || s[i] == '+',
{
    let d = unsigned_part(s);
    assert forall|i: int| 0 <= i < s.len() implies is_digit(#[trigger] s[i]) || s[i] == '+' by {
        if s[0] == '+' {
            if i > 0 {
                assert(s[i] == d[i - 1]);
            }
        } else {
            assert(s[i] == d[i]);
        }
    }
}

/// What `decimal_text` writes, `parse_usize_spec` reads back as the same
/// number.
pub proof fn law_decimal_round_trip(n: usize)
    ensures
        parse_usize_spec(decimal_text(n as nat)) == Some(n),
{
    lemma_decimal_digits(n as nat);
}

/// `decimal_text` writes one or more digits, no sign, with the value `n`.
pub proof fn lemma_decimal_digits(n: nat)
    ensures
        decimal_text(n).len() > 0,
        all_digits(decimal_text(n)),
        digits_value(decimal_text(n)) == n,
        unsigned_part(decimal_text(n)) == decimal_text(n),
    decreases n,
{
    let t = decimal_text(n);
    if n < 10 {
        assert(t.drop_last() == Seq::<char>::empty());
        assert(digits_value(t.drop_last()) == 0);
    } else {
        let h = decimal_text(n / 10);
        lemma_decimal_digits(n / 10);
        assert(t.drop_last() == h);
        assert(t[0] == h[0]);
        assert forall|i: int| 0 <= i < t.len() implies is_digit(#[trigger] t[i]) by {
            if i < h.len() {
                assert(t[i] == h[i]);
            }
        }
    }
}

} // verus!
