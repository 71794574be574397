//! Text primitives used by configuration loading, diagnostics and request
//! validation: decimal numbers (as `str::parse` and `Display` treat unsigned
//! integers) and Unicode white space (as `char::is_whitespace` treats it).

use vstd::prelude::*;
use vstd::string::*;

verus! {

/// An ASCII decimal digit.
pub open spec fn is_digit(c: char) -> bool {
    '0' <= c && c <= '9'
}

/// Numeric value of an ASCII decimal digit.
pub open spec fn digit_value(c: char) -> int {
    (c as int) - ('0' as int)
}

/// The ASCII digit for a value below ten.
pub open spec fn digit_char(d: int) -> char {
    (d + ('0' as int)) as char
}

/// Every character is an ASCII digit.
pub open spec fn all_digits(s: Seq<char>) -> bool {
    forall|i: int| 0 <= i < s.len() ==> #[trigger] is_digit(s[i])
}

/// Value of a string of decimal digits, most significant first.
pub open spec fn decimal_value(s: Seq<char>) -> int
    decreases s.len(),
{
    if s.len() == 0 {
        0
    } else {
        decimal_value(s.drop_last()) * 10 + digit_value(s.last())
    }
}

/// The digits of an unsigned number: an optional leading `+` is dropped.
pub open spec fn unsigned_digits(s: Seq<char>) -> Seq<char> {
    if s.len() > 0 && s[0] == '+' {
        s.drop_first()
    } else {
        s
    }
}

/// How `str::parse` reads an unsigned integer type whose largest value is
/// `max`: an optional `+`, then one or more ASCII digits and nothing else,
/// and a value that fits.
pub open spec fn parse_unsigned(s: Seq<char>, max: int) -> Option<int> {
    let d = unsigned_digits(s);
    if d.len() > 0 && all_digits(d) && decimal_value(d) <= max {
        Some(decimal_value(d))
    } else {
        None
    }
}

/// The shortest decimal representation of `n`, as `Display` writes it.
pub open spec fn decimal_digits(n: nat) -> Seq<char>
    decreases n,
{
    if n < 10 {
        seq![digit_char(n as int)]
    } else {
        decimal_digits(n / 10).push(digit_char((n % 10) as int))
    }
}

/// Unicode `White_Space`, the set that `char::is_whitespace` and
/// `str::trim` use.
pub open spec fn is_white_space(c: char) -> bool {
    let u = c as int;
    ||| 0x09 <= u <= 0x0D
    ||| u == 0x20
    ||| u == 0x85
    ||| u == 0xA0
    ||| u == 0x1680
    ||| 0x2000 <= u <= 0x200A
    ||| u == 0x2028
    ||| u == 0x2029
    ||| u == 0x202F
    ||| u == 0x205F
    ||| u == 0x3000
}

/// The string holds nothing but white space, so that trimming it leaves it
/// empty.
pub open spec fn is_blank_text(s: Seq<char>) -> bool {
    forall|i: int| 0 <= i < s.len() ==> #[trigger] is_white_space(s[i])
}

proof fn lemma_decimal_value_nonneg(s: Seq<char>)
    requires
        all_digits(s),
    ensures
        decimal_value(s) >= 0,
    decreases s.len(),
{
    if s.len() > 0 {
        assert(is_digit(s[s.len() - 1]));
        lemma_decimal_value_nonneg(s.drop_last());
    }
}

/// A prefix of a digit string is worth no more than the whole string.
proof fn lemma_decimal_prefix_le(s: Seq<char>, i: int)
    requires
        all_digits(s),
        0 <= i <= s.len(),
    ensures
        decimal_value(s.take(i)) <= decimal_value(s),
    decreases s.len(),
{
    if i < s.len() {
        let t = s.drop_last();
        assert(all_digits(t)) by {
            assert forall|j: int| 0 <= j < t.len() implies #[trigger] is_digit(t[j]) by {
                assert(is_digit(s[j]));
            }
        }
        lemma_decimal_prefix_le(t, i);
        assert(t.take(i) =~= s.take(i));
        assert(is_digit(s[s.len() - 1]));
        lemma_decimal_value_nonneg(t);
    } else {
        assert(s.take(i) =~= s);
    }
}

proof fn lemma_decimal_digits_shape(n: nat)
    ensures
        decimal_digits(n).len() > 0,
        all_digits(decimal_digits(n)),
        decimal_value(decimal_digits(n)) == n,
        decimal_digits(n)[0] != '+',
    decreases n,
{
    reveal_with_fuel(decimal_digits, 2);
    if n < 10 {
        let s = decimal_digits(n);
        assert(s.drop_last() =~= Seq::<char>::empty());
        assert(decimal_value(s.drop_last()) == 0);
    } else {
        lemma_decimal_digits_shape(n / 10);
        let p = decimal_digits(n / 10);
        let s = p.push(digit_char((n % 10) as int));
        assert(s.drop_last() =~= p);
        assert forall|j: int| 0 <= j < s.len() implies #[trigger] is_digit(s[j]) by {
            if j < p.len() {
                assert(is_digit(p[j]));
            }
        }
        assert(s[0] == p[0]);
    }
}

/// Reading back what `format_u64` writes gives the number again.
pub proof fn lemma_parse_format_roundtrip(n: u64)
    ensures
        parse_unsigned(decimal_digits(n as nat), u64::MAX as int) == Some(n as int),
{
    lemma_decimal_digits_shape(n as nat);
}

/// Parses an unsigned decimal number no larger than `max`, as `str::parse`
/// does for the unsigned integer type whose largest value is `max`.
pub fn parse_unsigned_bounded(s: &str, max: u64) -> (r: Option<u64>)
    ensures
        match r {
            Some(v) => parse_unsigned(s@, max as int) == Some(v as int),
            None => parse_unsigned(s@, max as int) is None,
        },
{
    let n = s.unicode_len();
    let mut start: usize = 0;
    if n > 0 && s.get_char(0) == '+' {
        start = 1;
    }
    let ghost d = unsigned_digits(s@);
    assert(d =~= s@.subrange(start as int, n as int));
    if start == n {
        return None;
    }
    let mut value: u64 = 0;
    let mut i: usize = start;
    while i < n
        invariant
            start <= i <= n,
            n == s@.len(),
            d == s@.subrange(start as int, n as int),
            d == unsigned_digits(s@),
            all_digits(d.take(i - start)),
            value as int == decimal_value(d.take(i - start)),
            value <= max,
        decreases n - i,
    {
        let c = s.get_char(i);
        let ghost k: int = i - start;
        assert(d[k] == c);
        if !('0' <= c && c <= '9') {
            assert(!all_digits(d)) by {
                assert(!is_digit(d[k]));
            }
            return None;
        }
        let dv: u64 = (c as u64) - ('0' as u64);
        let ghost next = d.take(k + 1);
        assert(next.drop_last() =~= d.take(k));
        assert(next.last() == c);
        assert(all_digits(next)) by {
            assert forall|j: int| 0 <= j < next.len() implies #[trigger] is_digit(next[j]) by {
                if j < k {
                    assert(next[j] == d.take(k)[j]);
                }
            }
        }
        if dv > max || value > (max - dv) / 10 {
            assert(decimal_value(next) > max) by (nonlinear_arith)
                requires
                    decimal_value(next) == value * 10 + dv,
                    dv > max || value > (max - dv) / 10,
                    0 <= dv <= 9,
                    value >= 0,
            ;
            proof {
                if all_digits(d) {
                    lemma_decimal_prefix_le(d, k + 1);
                }
            }
            return None;
        }
        assert(value * 10 + dv <= max) by (nonlinear_arith)
            requires
                value <= (max - dv) / 10,
                0 <= dv <= 9,
                dv <= max,
        ;
        value = value * 10 + dv;
        i = i + 1;
    }
    assert(d.take(n - start) =~= d);
    Some(value)
}

/// The one-character string for a decimal digit.
fn digit_text(d: u64) -> (r: &'static str)
    requires
        d < 10,
    ensures
        r@ == seq![digit_char(d as int)],
{
    if d == 0 {
        proof { reveal_strlit("0"); }
        "0"
    } else if d == 1 {
        proof { reveal_strlit("1"); }
        "1"
    } else if d == 2 {
        proof { reveal_strlit("2"); }
        "2"
    } else if d == 3 {
        proof { reveal_strlit("3"); }
        "3"
    } else if d == 4 {
        proof { reveal_strlit("4"); }
        "4"
    } else if d == 5 {
        proof { reveal_strlit("5"); }
        "5"
    } else if d == 6 {
        proof { reveal_strlit("6"); }
        "6"
    } else if d == 7 {
        proof { reveal_strlit("7"); }
        "7"
    } else if d == 8 {
        proof { reveal_strlit("8"); }
        "8"
    } else {
        proof { reveal_strlit("9"); }
        "9"
    }
}

/// Writes `n` in decimal, as `Display` does for unsigned integers.
pub fn format_u64(n: u64) -> (r: String)
    ensures
        r@ == decimal_digits(n as nat),
    decreases n,
{
    if n < 10 {
        String::from_str(digit_text(n))
    } else {
        let mut r = format_u64(n / 10);
        r.append(digit_text(n % 10));
        r
    }
}

/// Parses a `u64` as `str::parse::<u64>` does.
pub fn parse_u64(s: &str) -> (r: Option<u64>)
    ensures
        match r {
            Some(v) => parse_unsigned(s@, u64::MAX as int) == Some(v as int),
            None => parse_unsigned(s@, u64::MAX as int) is None,
        },
{
    parse_unsigned_bounded(s, u64::MAX)
}

/// Parses a `u32` as `str::parse::<u32>` does.
pub fn parse_u32(s: &str) -> (r: Option<u32>)
    ensures
        match r {
            Some(v) => parse_unsigned(s@, u32::MAX as int) == Some(v as int),
            None => parse_unsigned(s@, u32::MAX as int) is None,
        },
{
    match parse_unsigned_bounded(s, u32::MAX as u64) {
        Some(v) => Some(v as u32),
        None => None,
    }
}

/// Two strings hold the same characters.
pub fn same_text(a: &str, b: &str) -> (r: bool)
    ensures
        r == (a@ == b@),
{
    let x = a.to_string();
    let y = b.to_string();
    x == y
}

/// How `str::parse::<bool>` reads a flag: exactly `true` or `false`.
pub open spec fn parse_flag(s: Seq<char>) -> Option<bool> {
    if s == "true"@ {
        Some(true)
    } else if s == "false"@ {
        Some(false)
    } else {
        None
    }
}

/// Parses a `bool` as `str::parse::<bool>` does.
pub fn parse_bool(s: &str) -> (r: Option<bool>)
    ensures
        r == parse_flag(s@),
{
    if same_text(s, "true") {
        Some(true)
    } else if same_text(s, "false") {
        Some(false)
    } else {
        None
    }
}

/// Unicode white space, as `char::is_whitespace` decides it.
pub fn is_white_space_char(c: char) -> (r: bool)
    ensures
        r == is_white_space(c),
{
    let u = c as u32;
    (0x09 <= u && u <= 0x0D) || u == 0x20 || u == 0x85 || u == 0xA0 || u == 0x1680 || (0x2000
        <= u && u <= 0x200A) || u == 0x2028 || u == 0x2029 || u == 0x202F || u == 0x205F || u
        == 0x3000
}

/// Whether trimming `s` leaves nothing, as `s.trim().is_empty()` decides.
pub fn is_blank(s: &str) -> (r: bool)
    ensures
        r == is_blank_text(s@),
{
    let n = s.unicode_len();
    let mut i: usize = 0;
    while i < n
        invariant
            n == s@.len(),
            i <= n,
            forall|j: int| 0 <= j < i ==> #[trigger] is_white_space(s@[j]),
        decreases n - i,
    {
        let c = s.get_char(i);
        if !is_white_space_char(c) {
            return false;
        }
        i = i + 1;
    }
    true
}

} // verus!
