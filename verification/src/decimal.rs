//! Exact decimal numbers as sent by the exchanges, and their text forms.
use vstd::prelude::*;
use vstd::string::*;

verus! {

/// Billionths in one whole unit.
pub const ONE: u64 = 1_000_000_000;

/// A decimal number held as a sign and a magnitude in billionths.
///
/// The sign is kept for zero too (`-0`), as a float keeps it. Digits past
/// the ninth fractional place are dropped when text is read.
#[derive(Clone, Copy, Debug, PartialEq, Eq, Structural)]
pub struct Fixed {
    pub negative: bool,
    pub units: u64,
}

/// The number of billionths that `f` stands for.
pub open spec fn value(f: Fixed) -> int {
    if f.negative {
        -(f.units as int)
    } else {
        f.units as int
    }
}

/// `value(f)`, computed.
pub fn signed_units(f: Fixed) -> (v: i128)
    ensures
        v == value(f),
{
    if f.negative {
        -(f.units as i128)
    } else {
        f.units as i128
    }
}

pub open spec fn is_digit(c: char) -> bool {
    '0' <= c && c <= '9'
}

pub open spec fn digit_value(c: char) -> nat {
    (c as int - '0' as int) as nat
}

pub open spec fn all_digits(s: Seq<char>) -> bool {
    forall|i: int| 0 <= i < s.len() ==> is_digit(#[trigger] s[i])
}

/// The number that a string of decimal digits spells.
pub open spec fn digits_value(s: Seq<char>) -> nat
    decreases s.len(),
{
    if s.len() == 0 {
        0
    } else {
        digits_value(s.drop_last()) * 10 + digit_value(s.last())
    }
}

pub open spec fn pow10(n: nat) -> nat
    decreases n,
{
    if n == 0 {
        1
    } else {
        10 * pow10((n - 1) as nat)
    }
}

// ---------------------------------------------------------------------------
// the number grammar

/// First position at or after `from` that holds `a` or `b`; `s.len()` when
/// there is none.
pub open spec fn first_of(s: Seq<char>, from: int, a: char, b: char) -> int
    decreases s.len() - from,
{
    if from >= s.len() {
        s.len() as int
    } else if s[from] == a || s[from] == b {
        from
    } else {
        first_of(s, from + 1, a, b)
    }
}

/// 1 when `s` starts with `'+'` or `'-'`, else 0.
pub open spec fn sign_len(s: Seq<char>) -> int {
    if s.len() > 0 && (s[0] == '+' || s[0] == '-') {
        1
    } else {
        0
    }
}

pub open spec fn is_negative(s: Seq<char>) -> bool {
    s.len() > 0 && s[0] == '-'
}

/// Where the exponent marker `e`/`E` stands, or `s.len()`.
pub open spec fn exp_start(s: Seq<char>) -> int {
    first_of(s, sign_len(s), 'e', 'E')
}

/// Where the decimal point of the mantissa stands, or `exp_start(s)`.
pub open spec fn point(s: Seq<char>) -> int {
    let d = first_of(s, sign_len(s), '.', '.');
    if d < exp_start(s) {
        d
    } else {
        exp_start(s)
    }
}

pub open spec fn whole_digits(s: Seq<char>) -> Seq<char> {
    s.subrange(sign_len(s), point(s))
}

pub open spec fn fraction_digits(s: Seq<char>) -> Seq<char> {
    if point(s) < exp_start(s) {
        s.subrange(point(s) + 1, exp_start(s))
    } else {
        Seq::empty()
    }
}

pub open spec fn has_exponent(s: Seq<char>) -> bool {
    exp_start(s) < s.len()
}

pub open spec fn exponent_text(s: Seq<char>) -> Seq<char> {
    if has_exponent(s) {
        s.subrange(exp_start(s) + 1, s.len() as int)
    } else {
        Seq::empty()
    }
}

/// An optional sign and one or more digits.
pub open spec fn exponent_ok(t: Seq<char>) -> bool {
    t.len() > sign_len(t) && all_digits(t.skip(sign_len(t)))
}

pub open spec fn exponent_value(t: Seq<char>) -> int {
    let m = digits_value(t.skip(sign_len(t))) as int;
    if is_negative(t) {
        -m
    } else {
        m
    }
}

/// All the digits of the mantissa, the point left out.
pub open spec fn mantissa_digits(s: Seq<char>) -> Seq<char> {
    whole_digits(s) + fraction_digits(s)
}

/// The form that `str::parse::<f64>` reads as a finite number: an optional
/// sign, digits with at most one decimal point and at least one digit, then
/// optionally `e` or `E`, an optional sign and one or more digits.
pub open spec fn is_number(s: Seq<char>) -> bool {
    &&& all_digits(whole_digits(s))
    &&& all_digits(fraction_digits(s))
    &&& whole_digits(s).len() + fraction_digits(s).len() > 0
    &&& has_exponent(s) ==> exponent_ok(exponent_text(s))
}

/// How many leading mantissa digits make up the number of billionths.
pub open spec fn units_width(s: Seq<char>) -> int {
    whole_digits(s).len() + (if has_exponent(s) {
        exponent_value(exponent_text(s))
    } else {
        0
    }) + 9
}

/// The number the first `n` digits of `d` spell, padded with zeros when `d`
/// is shorter.
pub open spec fn leading_units(d: Seq<char>, n: int) -> nat {
    if n <= 0 {
        0
    } else if n <= d.len() {
        digits_value(d.take(n))
    } else {
        digits_value(d) * pow10((n - d.len()) as nat)
    }
}

/// The value of a number text in billionths, truncated toward zero.
pub open spec fn decimal_units(s: Seq<char>) -> nat {
    leading_units(mantissa_digits(s), units_width(s))
}

/// What reading `s` as a [`Fixed`] gives: every finite number that
/// `str::parse::<f64>` reads and whose magnitude is below
/// 18446744073.709551616, exactly, truncated toward zero to billionths,
/// with the sign of the text (`-0` stays negative).
pub open spec fn fixed_of(s: Seq<char>) -> Option<Fixed> {
    if is_number(s) && decimal_units(s) <= u64::MAX {
        Some(Fixed { negative: is_negative(s), units: decimal_units(s) as u64 })
    } else {
        None
    }
}

// ---------------------------------------------------------------------------
// lemmas

pub proof fn lemma_digits_value_push(s: Seq<char>, i: int)
    requires
        0 <= i < s.len(),
    ensures
        digits_value(s.take(i + 1)) == digits_value(s.take(i)) * 10 + digit_value(s[i]),
{
    assert(s.take(i + 1).drop_last() =~= s.take(i));
}

pub proof fn lemma_digits_value_prefix_le(s: Seq<char>, i: int, j: int)
    requires
        0 <= i <= j <= s.len(),
    ensures
        digits_value(s.take(i)) <= digits_value(s.take(j)),
    decreases j - i,
{
    if i < j {
        lemma_digits_value_prefix_le(s, i, j - 1);
        lemma_digits_value_push(s, j - 1);
    }
}

/// A digit string spells zero exactly when all its digits are `'0'`.
pub proof fn lemma_digits_value_zero(s: Seq<char>)
    requires
        all_digits(s),
    ensures
        digits_value(s) == 0 <==> (forall|i: int| 0 <= i < s.len() ==> #[trigger] s[i] == '0'),
    decreases s.len(),
{
    if s.len() > 0 {
        let t = s.drop_last();
        assert(all_digits(t)) by {
            assert forall|i: int| 0 <= i < t.len() implies is_digit(#[trigger] t[i]) by {
                assert(t[i] == s[i]);
            }
        }
        lemma_digits_value_zero(t);
        assert(is_digit(s[s.len() - 1]));
        if digits_value(s) == 0 {
            assert forall|i: int| 0 <= i < s.len() implies #[trigger] s[i] == '0' by {
                if i < s.len() - 1 {
                    assert(s[i] == t[i]);
                }
            }
        }
        if forall|i: int| 0 <= i < s.len() ==> #[trigger] s[i] == '0' {
            assert forall|i: int| 0 <= i < t.len() implies #[trigger] t[i] == '0' by {
                assert(t[i] == s[i]);
            }
            assert(s.last() == '0');
        }
    }
}

pub proof fn lemma_pow10_values()
    ensures
        pow10(0) == 1,
        pow10(21) == 1_000_000_000_000_000_000_000,
{
    reveal_with_fuel(pow10, 22);
}

pub proof fn lemma_pow10_mono(m: nat, n: nat)
    requires
        m <= n,
    ensures
        1 <= pow10(m) <= pow10(n),
    decreases n,
{
    if n > m {
        lemma_pow10_mono(m, (n - 1) as nat);
    } else if n > 0 {
        lemma_pow10_mono(0, (n - 1) as nat);
    }
}

pub proof fn lemma_first_of_bounds(s: Seq<char>, from: int, a: char, b: char)
    requires
        0 <= from,
    ensures
        from <= first_of(s, from, a, b) || from > s.len(),
        first_of(s, from, a, b) <= s.len(),
    decreases s.len() - from,
{
    if from < s.len() && !(s[from] == a || s[from] == b) {
        lemma_first_of_bounds(s, from + 1, a, b);
    }
}

/// Skipping positions that hold neither `a` nor `b` does not move the first.
pub proof fn lemma_first_of_skip(s: Seq<char>, from: int, i: int, a: char, b: char)
    requires
        0 <= from <= i <= s.len(),
        forall|k: int| from <= k < i ==> s[k] != a && s[k] != b,
    ensures
        first_of(s, from, a, b) == first_of(s, i, a, b),
    decreases i - from,
{
    if from < i {
        lemma_first_of_skip(s, from + 1, i, a, b);
    }
}

proof fn lemma_first_of_shift(c: char, s: Seq<char>, from: int, a: char, b: char)
    requires
        0 <= from <= s.len(),
    ensures
        first_of(seq![c] + s, from + 1, a, b) == first_of(s, from, a, b) + 1,
    decreases s.len() - from,
{
    let t = seq![c] + s;
    if from < s.len() {
        assert(t[from + 1] == s[from]);
        lemma_first_of_shift(c, s, from + 1, a, b);
    }
}

/// A plain string of decimal digits reads as that whole number, with no
/// fraction and no sign, when it fits.
pub proof fn lemma_whole_number_text(s: Seq<char>)
    requires
        s.len() > 0,
        all_digits(s),
    ensures
        fixed_of(s) == (if digits_value(s) * 1_000_000_000 <= u64::MAX {
            Some(Fixed { negative: false, units: (digits_value(s) * 1_000_000_000) as u64 })
        } else {
            None
        }),
{
    assert(is_digit(s[0]));
    assert(sign_len(s) == 0);
    lemma_first_of_skip(s, 0, s.len() as int, 'e', 'E');
    lemma_first_of_skip(s, 0, s.len() as int, '.', '.');
    assert(exp_start(s) == s.len());
    assert(point(s) == s.len());
    assert(whole_digits(s) =~= s);
    assert(fraction_digits(s) =~= Seq::<char>::empty());
    assert(mantissa_digits(s) =~= s);
    assert(pow10(9) == 1_000_000_000) by {
        reveal_with_fuel(pow10, 10);
    }
    assert(units_width(s) == s.len() + 9);
    assert(decimal_units(s) == digits_value(s) * 1_000_000_000);
}

/// A sign in front of an unsigned number text: `+` changes nothing, `-`
/// gives the same magnitude marked negative, and neither makes a text
/// readable or unreadable.
pub proof fn lemma_sign_in_front(c: char, s: Seq<char>)
    requires
        c == '+' || c == '-',
        s.len() > 0,
        s[0] != '+',
        s[0] != '-',
    ensures
        fixed_of(seq![c] + s) == match fixed_of(s) {
            Some(f) => Some(Fixed { negative: c == '-', units: f.units }),
            None => None,
        },
{
    let t = seq![c] + s;
    assert(t[0] == c);
    assert(sign_len(t) == 1 && sign_len(s) == 0);
    assert(is_negative(t) == (c == '-'));
    lemma_first_of_shift(c, s, 0, 'e', 'E');
    lemma_first_of_shift(c, s, 0, '.', '.');
    lemma_first_of_bounds(s, 0, 'e', 'E');
    lemma_first_of_bounds(s, 0, '.', '.');
    assert(exp_start(t) == exp_start(s) + 1);
    assert(point(t) == point(s) + 1);
    assert(t.len() == s.len() + 1);
    assert(whole_digits(t) =~= whole_digits(s));
    assert(fraction_digits(t) =~= fraction_digits(s));
    assert(has_exponent(t) == has_exponent(s));
    assert(exponent_text(t) =~= exponent_text(s));
    assert(mantissa_digits(t) =~= mantissa_digits(s));
    assert(units_width(t) == units_width(s));
    assert(decimal_units(t) == decimal_units(s));
    assert(is_number(t) == is_number(s));
}

// ---------------------------------------------------------------------------
// reading

fn digit_of(c: char) -> (d: u64)
    requires
        is_digit(c),
    ensures
        d == digit_value(c),
        d < 10,
{
    (c as u32 - '0' as u32) as u64
}

/// Exponents beyond this size move every digit out of (or far into) the
/// range of a `u64` count of billionths, whatever the text's length.
const EXPONENT_CAP: u128 = 100_000_000_000_000_000_000;

/// Scans `text` from `from` to the first `a` or `b`.
fn find_first(text: &str, n: usize, from: usize, a: char, b: char) -> (r: usize)
    requires
        n == text@.len(),
        from <= n,
    ensures
        r == first_of(text@, from as int, a, b),
        from <= r <= n,
{
    let mut i: usize = from;
    while i < n
        invariant
            n == text@.len(),
            from <= i <= n,
            forall|k: int| from <= k < i ==> text@[k] != a && text@[k] != b,
        ensures
            i == n || text@[i as int] == a || text@[i as int] == b,
        decreases n - i,
    {
        let c = text.get_char(i);
        if c == a || c == b {
            break;
        }
        i = i + 1;
    }
    proof {
        lemma_first_of_skip(text@, from as int, i as int, a, b);
    }
    i
}

/// Pushes `text[from..to]` onto `digits`, or says `false` when one of them
/// is not a digit.
fn push_digits(text: &str, from: usize, to: usize, digits: &mut Vec<char>) -> (ok: bool)
    requires
        from <= to <= text@.len(),
    ensures
        ok == all_digits(text@.subrange(from as int, to as int)),
        ok ==> final(digits)@ == old(digits)@ + text@.subrange(from as int, to as int),
{
    let ghost part = text@.subrange(from as int, to as int);
    let mut i: usize = from;
    while i < to
        invariant
            from <= i <= to <= text@.len(),
            part == text@.subrange(from as int, to as int),
            all_digits(part.take(i - from)),
            digits@ == old(digits)@ + part.take(i - from),
        decreases to - i,
    {
        let c = text.get_char(i);
        assert(c == part[i - from]);
        if !('0' <= c && c <= '9') {
            assert(!all_digits(part));
            return false;
        }
        digits.push(c);
        assert(part.take(i - from + 1) =~= part.take(i - from).push(c));
        i = i + 1;
    }
    assert(part.take(i - from) =~= part);
    true
}

/// Reads the exponent digits `text[from..n]` (sign already taken off),
/// giving their value capped at `EXPONENT_CAP + 1`.
fn exponent_magnitude(text: &str, from: usize, n: usize) -> (r: Option<u128>)
    requires
        n == text@.len(),
        from <= n,
    ensures
        r is Some <==> (from < n && all_digits(text@.subrange(from as int, n as int))),
        r matches Some(m) ==> {
            let v = digits_value(text@.subrange(from as int, n as int));
            if v <= EXPONENT_CAP {
                m == v
            } else {
                m == EXPONENT_CAP + 1
            }
        },
{
    if from == n {
        return None;
    }
    let ghost part = text@.subrange(from as int, n as int);
    let mut i: usize = from;
    let mut m: u128 = 0;
    while i < n
        invariant
            from <= i <= n == text@.len(),
            part == text@.subrange(from as int, n as int),
            all_digits(part.take(i - from)),
            digits_value(part.take(i - from)) <= EXPONENT_CAP ==> m == digits_value(
                part.take(i - from),
            ),
            digits_value(part.take(i - from)) > EXPONENT_CAP ==> m == EXPONENT_CAP + 1,
        decreases n - i,
    {
        let c = text.get_char(i);
        assert(c == part[i - from]);
        if !('0' <= c && c <= '9') {
            assert(!all_digits(part));
            return None;
        }
        let d: u64 = digit_of(c);
        proof {
            lemma_digits_value_push(part, i - from);
        }
        if m <= EXPONENT_CAP {
            let t: u128 = m * 10 + d as u128;
            m = if t > EXPONENT_CAP {
                EXPONENT_CAP + 1
            } else {
                t
            };
        }
        assert(all_digits(part.take(i - from + 1))) by {
            assert forall|k: int| 0 <= k < i - from + 1 implies is_digit(
                #[trigger] part.take(i - from + 1)[k],
            ) by {
                if k < i - from {
                    assert(part.take(i - from + 1)[k] == part.take(i - from)[k]);
                }
            }
        }
        i = i + 1;
    }
    assert(part.take(i - from) =~= part);
    Some(m)
}

/// The first `width` digits of `digits`, zero-padded, as a `u64`; `None`
/// when that number does not fit.
fn leading_number(digits: &Vec<char>, width: i128) -> (r: Option<u64>)
    requires
        all_digits(digits@),
    ensures
        r is Some <==> leading_units(digits@, width as int) <= u64::MAX,
        r matches Some(v) ==> v == leading_units(digits@, width as int),
{
    let ghost d = digits@;
    if width <= 0 {
        return Some(0);
    }
    let len: usize = digits.len();
    let m: usize = if width < len as i128 {
        width as usize
    } else {
        len
    };
    let mut acc: u64 = 0;
    let mut i: usize = 0;
    proof {
        lemma_pow10_values();
        if width > len {
            lemma_pow10_mono(0, (width - len) as nat);
            assert(digits_value(d) * pow10((width - len) as nat) >= digits_value(d))
                by (nonlinear_arith)
                requires
                    pow10((width - len) as nat) >= 1,
            ;
            assert(d.take(len as int) =~= d);
        }
    }
    while i < m
        invariant
            d == digits@,
            all_digits(d),
            m <= len == d.len(),
            0 < width,
            m == (if width < len { width as int } else { len as int }),
            i <= m,
            acc == digits_value(d.take(i as int)),
            leading_units(d, width as int) >= digits_value(d.take(m as int)),
        decreases m - i,
    {
        let d_i: u64 = digit_of(digits[i]);
        proof {
            lemma_digits_value_push(d, i as int);
        }
        if acc > (u64::MAX - d_i) / 10 {
            proof {
                lemma_digits_value_prefix_le(d, i + 1, m as int);
            }
            return None;
        }
        acc = acc * 10 + d_i;
        i = i + 1;
    }
    if width <= len as i128 {
        return Some(acc);
    }
    // pad with zeros
    assert(m == len);
    assert(d.take(len as int) =~= d);
    assert(acc == digits_value(d));
    if acc == 0 {
        assert(digits_value(d) * pow10((width - len) as nat) == 0) by (nonlinear_arith)
            requires
                digits_value(d) == 0,
        ;
        return Some(0);
    }
    let k: i128 = width - len as i128;
    let mut c: i128 = 0;
    assert(digits_value(d) * pow10(0) == digits_value(d));
    while c < k
        invariant
            d == digits@,
            0 <= c <= k,
            k == width - d.len(),
            acc >= 1,
            acc == digits_value(d) * pow10(c as nat),
            leading_units(d, width as int) == digits_value(d) * pow10(k as nat),
        decreases k - c,
    {
        if acc > u64::MAX / 10 {
            proof {
                lemma_pow10_mono((c + 1) as nat, k as nat);
                let dv: int = digits_value(d) as int;
                let pk: int = pow10(k as nat) as int;
                let pc: int = pow10((c + 1) as nat) as int;
                assert(dv * pk >= dv * pc) by (nonlinear_arith)
                    requires
                        pk >= pc,
                        dv >= 0,
                ;
                assert(digits_value(d) * pow10((c + 1) as nat) == acc * 10) by (nonlinear_arith)
                    requires
                        acc == digits_value(d) * pow10(c as nat),
                        pow10((c + 1) as nat) == 10 * pow10(c as nat),
                ;
                assert(acc * 10 > u64::MAX);
                assert(leading_units(d, width as int) > u64::MAX);
            }
            return None;
        }
        assert(digits_value(d) * pow10((c + 1) as nat) == acc * 10) by (nonlinear_arith)
            requires
                acc == digits_value(d) * pow10(c as nat),
                pow10((c + 1) as nat) == 10 * pow10(c as nat),
        ;
        acc = acc * 10;
        c = c + 1;
    }
    Some(acc)
}

/// Reads a number such as `"0.6123"`, `"140"`, `".5"`, `"5."`, `"+1"`,
/// `"1e1"` or `"2.5E-3"`, as `str::parse::<f64>` does, exactly and
/// truncated to billionths.
///
/// Gives `None` on text that `str::parse::<f64>` refuses, on `inf` and
/// `NaN`, and on numbers of magnitude 18446744073.709551616 or more.
#[verifier::rlimit(80)]
pub fn parse_fixed(text: &str) -> (r: Option<Fixed>)
    ensures
        r == fixed_of(text@),
{
    let ghost s = text@;
    let n: usize = text.unicode_len();
    let mut sl: usize = 0;
    let mut negative: bool = false;
    if n > 0 {
        let c0 = text.get_char(0);
        if c0 == '+' || c0 == '-' {
            sl = 1;
            negative = c0 == '-';
        }
    }
    assert(sl == sign_len(s) && negative == is_negative(s));
    let ep: usize = find_first(text, n, sl, 'e', 'E');
    let dp: usize = find_first(text, n, sl, '.', '.');
    let pt: usize = if dp < ep {
        dp
    } else {
        ep
    };
    assert(pt == point(s) && ep == exp_start(s));
    // the mantissa digits
    let mut digits: Vec<char> = Vec::new();
    if !push_digits(text, sl, pt, &mut digits) {
        return None;
    }
    let whole_len: usize = pt - sl;
    if pt < ep {
        if !push_digits(text, pt + 1, ep, &mut digits) {
            return None;
        }
    } else {
        assert(fraction_digits(s) =~= Seq::<char>::empty());
    }
    assert(digits@ =~= mantissa_digits(s));
    if digits.len() == 0 {
        return None;
    }
    // the exponent
    let mut exp_negative: bool = false;
    let mut magnitude: u128 = 0;
    if ep < n {
        let ghost t = exponent_text(s);
        let mut es: usize = ep + 1;
        if es < n {
            let c = text.get_char(es);
            if c == '+' || c == '-' {
                es = es + 1;
                exp_negative = c == '-';
            }
        }
        assert(es - (ep + 1) == sign_len(t) && exp_negative == is_negative(t));
        assert(t.skip(sign_len(t)) =~= s.subrange(es as int, n as int));
        match exponent_magnitude(text, es, n) {
            Some(m) => {
                magnitude = m;
            },
            None => {
                return None;
            },
        }
    }
    assert(is_number(s));
    // whether every mantissa digit is zero
    let mut zero: bool = true;
    let mut j: usize = 0;
    while j < digits.len()
        invariant
            j <= digits@.len(),
            zero == (forall|k: int| 0 <= k < j ==> #[trigger] digits@[k] == '0'),
        decreases digits.len() - j,
    {
        if digits[j] != '0' {
            zero = false;
        }
        j = j + 1;
    }
    proof {
        lemma_digits_value_zero(digits@);
    }
    let ghost width = units_width(s);
    let ghost d = digits@;
    if magnitude > EXPONENT_CAP {
        // `|exponent| > 10^20`, while the text is shorter than 2^64
        proof {
            assert(d.len() <= s.len());
        }
        if exp_negative {
            assert(width <= 0);
            return Some(Fixed { negative, units: 0 });
        }
        assert(width - d.len() > 21);
        if zero {
            assert(digits_value(d) * pow10((width - d.len()) as nat) == 0);
            return Some(Fixed { negative, units: 0 });
        }
        proof {
            lemma_pow10_values();
            lemma_pow10_mono(21, (width - d.len()) as nat);
            assert(digits_value(d) * pow10((width - d.len()) as nat) >= pow10(21))
                by (nonlinear_arith)
                requires
                    digits_value(d) >= 1,
                    pow10((width - d.len()) as nat) >= pow10(21),
            ;
        }
        return None;
    }
    let exponent: i128 = if exp_negative {
        -(magnitude as i128)
    } else {
        magnitude as i128
    };
    let w: i128 = whole_len as i128 + exponent + 9;
    assert(w == width);
    match leading_number(&digits, w) {
        Some(units) => Some(Fixed { negative, units }),
        None => None,
    }
}

} // verus!
