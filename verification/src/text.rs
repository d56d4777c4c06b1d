//! Whole numbers as decimal text, and string comparison.
use vstd::prelude::*;
use vstd::string::*;

use crate::decimal::{all_digits, digit_value, digits_value, is_digit};

verus! {

pub open spec fn digit_char(d: nat) -> char {
    (d + 48) as char
}

/// The shortest decimal spelling of `n`.
pub open spec fn nat_text(n: nat) -> Seq<char>
    decreases n,
{
    if n < 10 {
        seq![digit_char(n)]
    } else {
        nat_text(n / 10).push(digit_char(n % 10))
    }
}

/// The decimal spelling of `x`, with a leading `'-'` when it is negative.
pub open spec fn int_text(x: int) -> Seq<char> {
    if x < 0 {
        seq!['-'] + nat_text((-x) as nat)
    } else {
        nat_text(x as nat)
    }
}

/// What reading `s` as an `i64` gives: an optional `'+'` or `'-'`, then one
/// or more decimal digits, within the range of `i64`.
pub open spec fn i64_of(s: Seq<char>) -> Option<i64> {
    let signed = s.len() > 0 && (s[0] == '-' || s[0] == '+');
    let body = if signed { s.skip(1) } else { s };
    let magnitude: int = digits_value(body) as int;
    let value: int = if s.len() > 0 && s[0] == '-' { -magnitude } else { magnitude };
    if body.len() > 0 && all_digits(body) && i64::MIN <= value <= i64::MAX {
        Some(value as i64)
    } else {
        None
    }
}

pub proof fn lemma_nat_text(n: nat)
    ensures
        nat_text(n).len() > 0,
        all_digits(nat_text(n)),
        digits_value(nat_text(n)) == n,
    decreases n,
{
    assert(digit_value(digit_char(n % 10)) == n % 10);
    if n >= 10 {
        lemma_nat_text(n / 10);
        let t = nat_text(n);
        assert(t.drop_last() =~= nat_text(n / 10));
        assert(t.last() == digit_char(n % 10));
        assert(digits_value(t) == digits_value(nat_text(n / 10)) * 10 + n % 10);
        assert forall|i: int| 0 <= i < t.len() implies is_digit(#[trigger] t[i]) by {
            if i < t.len() - 1 {
                assert(t[i] == nat_text(n / 10)[i]);
            }
        }
    } else {
        assert(seq![digit_char(n)].drop_last() =~= Seq::<char>::empty());
        assert(digits_value(seq![digit_char(n)]) == digits_value(Seq::<char>::empty()) * 10 + digit_value(digit_char(n)));
    }
}

/// Reading back what [`format_i64`] writes gives the number written.
pub proof fn lemma_i64_text_round_trip(x: i64)
    ensures
        i64_of(int_text(x as int)) == Some(x),
{
    if x < 0 {
        lemma_nat_text((-x) as nat);
        assert((seq!['-'] + nat_text((-x) as nat)).skip(1) =~= nat_text((-x) as nat));
    } else {
        lemma_nat_text(x as nat);
        assert(is_digit(nat_text(x as nat)[0]));
    }
}

// ---------------------------------------------------------------------------

fn digit_str(d: u64) -> (s: &'static str)
    requires
        d < 10,
    ensures
        s@ == seq![digit_char(d as nat)],
{
    match d {
        0 => {
            proof {
                reveal_strlit("0");
            }
            "0"
        },
        1 => {
            proof {
                reveal_strlit("1");
            }
            "1"
        },
        2 => {
            proof {
                reveal_strlit("2");
            }
            "2"
        },
        3 => {
            proof {
                reveal_strlit("3");
            }
            "3"
        },
        4 => {
            proof {
                reveal_strlit("4");
            }
            "4"
        },
        5 => {
            proof {
                reveal_strlit("5");
            }
            "5"
        },
        6 => {
            proof {
                reveal_strlit("6");
            }
            "6"
        },
        7 => {
            proof {
                reveal_strlit("7");
            }
            "7"
        },
        8 => {
            proof {
                reveal_strlit("8");
            }
            "8"
        },
        _ => {
            proof {
                reveal_strlit("9");
            }
            "9"
        },
    }
}

fn append_nat(out: &mut String, n: u64)
    ensures
        final(out)@ == old(out)@ + nat_text(n as nat),
    decreases n,
{
    if n >= 10 {
        append_nat(out, n / 10);
    }
    out.append(digit_str(n % 10));
    assert(nat_text(n as nat) =~= if n < 10 {
        seq![digit_char(n as nat)]
    } else {
        nat_text((n / 10) as nat).push(digit_char((n % 10) as nat))
    });
}

/// The decimal spelling of `x`, as `x.to_string()` writes it.
pub fn format_i64(x: i64) -> (s: String)
    ensures
        s@ == int_text(x as int),
{
    let mut out = String::new();
    if x < 0 {
        proof {
            reveal_strlit("-");
        }
        out.append("-");
        let magnitude: u64 = (-(x as i128)) as u64;
        append_nat(&mut out, magnitude);
    } else {
        append_nat(&mut out, x as u64);
    }
    out
}

/// Reads an optionally signed decimal whole number, as `str::parse::<i64>`.
pub fn parse_i64(text: &str) -> (r: Option<i64>)
    ensures
        r == i64_of(text@),
{
    let ghost s = text@;
    let n: usize = text.unicode_len();
    if n == 0 {
        return None;
    }
    let first = text.get_char(0);
    let negative = first == '-';
    let start: usize = if first == '-' || first == '+' { 1 } else { 0 };
    let ghost body = if start == 1 { s.skip(1) } else { s };
    if start == n {
        assert(body.len() == 0);
        return None;
    }
    // the magnitude may reach 2^63 when the number is negative
    let limit: u64 = 9_223_372_036_854_775_808;
    let mut i: usize = start;
    let mut magnitude: u64 = 0;
    while i < n
        invariant
            n == s.len(),
            text@ == s,
            start <= i <= n,
            body =~= s.skip(start as int),
            body == (if s.len() > 0 && (s[0] == '-' || s[0] == '+') { s.skip(1) } else { s }),
            limit == 9_223_372_036_854_775_808u64,
            all_digits(body.take(i - start)),
            magnitude == digits_value(body.take(i - start)),
            magnitude <= limit,
        decreases n - i,
    {
        let c = text.get_char(i);
        assert(c == body[i - start]);
        if !('0' <= c && c <= '9') {
            assert(!all_digits(body));
            return None;
        }
        let d: u64 = (c as u32 - '0' as u32) as u64;
        proof {
            crate::decimal::lemma_digits_value_push(body, i - start);
        }
        if magnitude > (limit - d) / 10 {
            proof {
                crate::decimal::lemma_digits_value_prefix_le(body, i - start + 1, body.len() as int);
                assert(body.take(body.len() as int) =~= body);
            }
            return None;
        }
        magnitude = magnitude * 10 + d;
        assert(all_digits(body.take(i - start + 1))) by {
            assert forall|k: int| 0 <= k < i - start + 1 implies is_digit(
                #[trigger] body.take(i - start + 1)[k],
            ) by {
                if k < i - start {
                    assert(body.take(i - start + 1)[k] == body.take(i - start)[k]);
                }
            }
        }
        i = i + 1;
    }
    assert(body.take(i - start) =~= body);
    if negative {
        let v: i128 = -(magnitude as i128);
        Some(v as i64)
    } else if magnitude > 9_223_372_036_854_775_807 {
        None
    } else {
        Some(magnitude as i64)
    }
}

/// Whether two strings hold the same characters.
pub fn str_eq(a: &str, b: &str) -> (r: bool)
    ensures
        r == (a@ == b@),
{
    let n: usize = a.unicode_len();
    if n != b.unicode_len() {
        return false;
    }
    let mut i: usize = 0;
    while i < n
        invariant
            n == a@.len(),
            n == b@.len(),
            0 <= i <= n,
            forall|k: int| 0 <= k < i ==> a@[k] == b@[k],
        decreases n - i,
    {
        if a.get_char(i) != b.get_char(i) {
            return false;
        }
        i = i + 1;
    }
    assert(a@ =~= b@);
    true
}

} // verus!
