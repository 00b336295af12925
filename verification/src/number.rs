//! Decimal text for integers: formatting (`to_string`, `{:0N}`) and parsing
//! (`str::parse::<i64>`), plus the `yyyy-MM-dd` date text the forms default to.

use vstd::prelude::*;

verus! {

/// The ASCII character of a decimal digit.
pub open spec fn digit_char(d: int) -> char {
    if d == 0 {
        '0'
    } else if d == 1 {
        '1'
    } else if d == 2 {
        '2'
    } else if d == 3 {
        '3'
    } else if d == 4 {
        '4'
    } else if d == 5 {
        '5'
    } else if d == 6 {
        '6'
    } else if d == 7 {
        '7'
    } else if d == 8 {
        '8'
    } else {
        '9'
    }
}

/// Decimal digits of a natural number, most significant first, no leading zeros.
pub open spec fn dec_nat(n: nat) -> Seq<char>
    decreases n,
{
    if n < 10 {
        seq![digit_char(n as int)]
    } else {
        dec_nat(n / 10) + seq![digit_char((n % 10) as int)]
    }
}

/// Decimal text of an integer as `to_string` writes it (a leading `-` when negative).
pub open spec fn dec_int(v: int) -> Seq<char> {
    if v < 0 {
        seq!['-'] + dec_nat((-v) as nat)
    } else {
        dec_nat(v as nat)
    }
}

/// `s` left-padded with `'0'` to at least `width` characters (`{:0width$}` on a non-negative number).
pub open spec fn zero_pad(s: Seq<char>, width: nat) -> Seq<char> {
    if s.len() < width {
        Seq::new((width - s.len()) as nat, |i: int| '0') + s
    } else {
        s
    }
}

/// The one-character text of a digit.
fn digit_str(d: u64) -> (r: &'static str)
    requires
        d < 10,
    ensures
        r@ == seq![digit_char(d as int)],
{
    proof {
        reveal_strlit("0");
        reveal_strlit("1");
        reveal_strlit("2");
        reveal_strlit("3");
        reveal_strlit("4");
        reveal_strlit("5");
        reveal_strlit("6");
        reveal_strlit("7");
        reveal_strlit("8");
        reveal_strlit("9");
    }
    if d == 0 {
        "0"
    } else if d == 1 {
        "1"
    } else if d == 2 {
        "2"
    } else if d == 3 {
        "3"
    } else if d == 4 {
        "4"
    } else if d == 5 {
        "5"
    } else if d == 6 {
        "6"
    } else if d == 7 {
        "7"
    } else if d == 8 {
        "8"
    } else {
        "9"
    }
}

/// `n.to_string()` for an unsigned integer.
pub fn fmt_u64(n: u64) -> (r: String)
    ensures
        r@ == dec_nat(n as nat),
    decreases n,
{
    if n < 10 {
        String::from_str(digit_str(n))
    } else {
        let mut s = fmt_u64(n / 10);
        s.append(digit_str(n % 10));
        s
    }
}

/// `v.to_string()` for a signed integer.
pub fn fmt_i64(v: i64) -> (r: String)
    ensures
        r@ == dec_int(v as int),
{
    if v < 0 {
        let a: u64 = if v == i64::MIN {
            9223372036854775808u64
        } else {
            (-v) as u64
        };
        let mut s = String::from_str("-");
        proof {
            reveal_strlit("-");
        }
        let digits = fmt_u64(a);
        s.append(digits.as_str());
        s
    } else {
        fmt_u64(v as u64)
    }
}

/// A count set in a sentence: `format!("{prefix}{n}{suffix}")`.
pub fn framed_count(prefix: &str, n: u64, suffix: &str) -> (r: String)
    ensures
        r@ == prefix@ + dec_nat(n as nat) + suffix@,
{
    let mut out = String::from_str(prefix);
    let t = fmt_u64(n);
    out.append(t.as_str());
    out.append(suffix);
    out
}

/// A signed figure set in a sentence: `format!("{prefix}{v}{suffix}")`.
pub fn framed_int(prefix: &str, v: i64, suffix: &str) -> (r: String)
    ensures
        r@ == prefix@ + dec_int(v as int) + suffix@,
{
    let mut out = String::from_str(prefix);
    let t = fmt_i64(v);
    out.append(t.as_str());
    out.append(suffix);
    out
}

/// `format!("{:0width$}", ..)` applied to already formatted digits.
pub fn zero_padded(s: &str, width: usize) -> (r: String)
    ensures
        r@ == zero_pad(s@, width as nat),
{
    let n = s.unicode_len();
    let mut out = String::new();
    if n < width {
        let k = width - n;
        let mut i: usize = 0;
        while i < k
            invariant
                i <= k,
                out@ == Seq::new(i as nat, |j: int| '0'),
            decreases k - i,
        {
            proof {
                reveal_strlit("0");
            }
            out.append("0");
            i = i + 1;
            assert(out@ =~= Seq::new(i as nat, |j: int| '0'));
        }
    }
    out.append(s);
    assert(out@ =~= zero_pad(s@, width as nat));
    out
}

/// The `yyyy-MM-dd` text of a calendar date (`format!("{:04}-{:02}-{:02}", y, m, d)`).
pub open spec fn iso_date_text(year: nat, month: nat, day: nat) -> Seq<char> {
    zero_pad(dec_nat(year), 4) + seq!['-'] + zero_pad(dec_nat(month), 2) + seq!['-'] + zero_pad(
        dec_nat(day),
        2,
    )
}

/// Formats a calendar date as `yyyy-MM-dd`, the value the date inputs use.
pub fn iso_date(year: u32, month: u32, day: u32) -> (r: String)
    ensures
        r@ == iso_date_text(year as nat, month as nat, day as nat),
{
    proof {
        reveal_strlit("-");
    }
    let y = fmt_u64(year as u64);
    let m = fmt_u64(month as u64);
    let d = fmt_u64(day as u64);
    let mut out = zero_padded(y.as_str(), 4);
    out.append("-");
    let mp = zero_padded(m.as_str(), 2);
    out.append(mp.as_str());
    out.append("-");
    let dp = zero_padded(d.as_str(), 2);
    out.append(dp.as_str());
    out
}

/// An ASCII decimal digit.
pub open spec fn is_digit(c: char) -> bool {
    48 <= (c as u32) && (c as u32) <= 57
}

/// The numeric value of an ASCII digit.
pub open spec fn digit_val(c: char) -> int {
    (c as u32) - 48
}

/// Every character is an ASCII digit.
pub open spec fn all_digits(s: Seq<char>) -> bool {
    forall|i: int| 0 <= i < s.len() ==> is_digit(#[trigger] s[i])
}

/// The value of a run of decimal digits.
pub open spec fn digits_value(s: Seq<char>) -> int
    decreases s.len(),
{
    if s.len() == 0 {
        0
    } else {
        digits_value(s.drop_last()) * 10 + digit_val(s.last())
    }
}

/// The integer an integer text denotes, as Rust's integer parsing reads it:
/// an optional `+` or `-`, then one or more ASCII digits, nothing else.
pub open spec fn int_text_value(s: Seq<char>) -> Option<int> {
    if s.len() > 0 && (s[0] == '-' || s[0] == '+') {
        let body = s.drop_first();
        if body.len() > 0 && all_digits(body) {
            if s[0] == '-' {
                Some(-digits_value(body))
            } else {
                Some(digits_value(body))
            }
        } else {
            None
        }
    } else if s.len() > 0 && all_digits(s) {
        Some(digits_value(s))
    } else {
        None
    }
}

/// What `str::parse::<i64>` gives: the value when the text is an integer that fits.
pub open spec fn parse_i64_spec(s: Seq<char>) -> Option<i64> {
    match int_text_value(s) {
        Some(v) => if i64::MIN <= v && v <= i64::MAX {
            Some(v as i64)
        } else {
            None
        },
        None => None,
    }
}

/// `s.parse::<i64>().unwrap_or(0)`, the reading the voucher forms give an amount text.
pub open spec fn amount_of(s: Seq<char>) -> int {
    match parse_i64_spec(s) {
        Some(v) => v as int,
        None => 0,
    }
}

proof fn lemma_digits_value_nonneg(s: Seq<char>)
    requires
        all_digits(s),
    ensures
        digits_value(s) >= 0,
    decreases s.len(),
{
    if s.len() > 0 {
        lemma_digits_value_nonneg(s.drop_last());
    }
}

/// `s.parse::<i64>().ok()`.
pub fn parse_i64(s: &str) -> (r: Option<i64>)
    ensures
        r == parse_i64_spec(s@),
{
    let n = s.unicode_len();
    if n == 0 {
        return None;
    }
    let first = s.get_char(0);
    let signed = first == '-' || first == '+';
    let start: usize = if signed {
        1
    } else {
        0
    };
    if start >= n {
        return None;
    }
    let ghost body = s@.subrange(start as int, n as int);
    proof {
        if signed {
            assert(body =~= s@.drop_first());
        } else {
            assert(body =~= s@);
        }
    }
    let cap: u128 = 9223372036854775809u128;
    let mut acc: u128 = 0;
    let mut i: usize = start;
    while i < n
        invariant
            n == s@.len(),
            start <= i <= n,
            body == s@.subrange(start as int, n as int),
            first == s@[0],
            signed == (first == '-' || first == '+'),
            start == (if signed {
                1usize
            } else {
                0usize
            }),
            signed ==> body == s@.drop_first(),
            !signed ==> body == s@,
            all_digits(s@.subrange(start as int, i as int)),
            acc <= cap,
            cap == 9223372036854775809u128,
            acc == (if digits_value(s@.subrange(start as int, i as int)) < cap {
                digits_value(s@.subrange(start as int, i as int))
            } else {
                cap as int
            }),
        decreases n - i,
    {
        let c = s.get_char(i);
        let ghost pre = s@.subrange(start as int, i as int);
        let ghost nxt = s@.subrange(start as int, i + 1);
        assert(nxt.drop_last() =~= pre);
        if !((c as u32) >= 48 && (c as u32) <= 57) {
            assert(body[i - start] == c);
            assert(!all_digits(body));
            return None;
        }
        proof {
            lemma_digits_value_nonneg(pre);
        }
        let d = (c as u32 - 48) as u128;
        let next = acc * 10 + d;
        acc = if next < cap {
            next
        } else {
            cap
        };
        i = i + 1;
        assert(all_digits(nxt));
    }
    assert(s@.subrange(start as int, n as int) == body);
    proof {
        lemma_digits_value_nonneg(body);
    }
    if acc == cap {
        return None;
    }
    let neg = first == '-';
    if neg {
        if acc > 9223372036854775808u128 {
            return None;
        }
        if acc == 9223372036854775808u128 {
            return Some(i64::MIN);
        }
        Some(-(acc as i64))
    } else {
        if acc > 9223372036854775807u128 {
            return None;
        }
        Some(acc as i64)
    }
}

/// `s.parse::<i64>().unwrap_or(0)`.
pub fn amount_or_zero(s: &str) -> (r: i64)
    ensures
        r as int == amount_of(s@),
{
    match parse_i64(s) {
        Some(v) => v,
        None => 0,
    }
}

/// What `str::parse::<u64>` gives: the value when the text is an unsigned
/// integer (optionally led by `+`) that fits; a `-` is refused.
pub open spec fn parse_u64_spec(s: Seq<char>) -> Option<u64> {
    if s.len() > 0 && s[0] == '-' {
        None
    } else {
        match int_text_value(s) {
            Some(v) => if 0 <= v && v <= u64::MAX {
                Some(v as u64)
            } else {
                None
            },
            None => None,
        }
    }
}

/// What `str::parse::<usize>` gives.
pub open spec fn parse_usize_spec(s: Seq<char>) -> Option<usize> {
    match parse_u64_spec(s) {
        Some(v) => if v <= usize::MAX {
            Some(v as usize)
        } else {
            None
        },
        None => None,
    }
}

/// `s.parse::<u64>().ok()`.
pub fn parse_u64(s: &str) -> (r: Option<u64>)
    ensures
        r == parse_u64_spec(s@),
{
    let n = s.unicode_len();
    if n == 0 {
        return None;
    }
    let first = s.get_char(0);
    if first == '-' {
        return None;
    }
    let signed = first == '+';
    let start: usize = if signed {
        1
    } else {
        0
    };
    if start >= n {
        return None;
    }
    let ghost body = s@.subrange(start as int, n as int);
    proof {
        if signed {
            assert(body =~= s@.drop_first());
        } else {
            assert(body =~= s@);
        }
    }
    let cap: u128 = 18446744073709551616u128;
    let mut acc: u128 = 0;
    let mut i: usize = start;
    while i < n
        invariant
            n == s@.len(),
            start <= i <= n,
            body == s@.subrange(start as int, n as int),
            first == s@[0],
            first != '-',
            signed == (first == '+'),
            start == (if signed {
                1usize
            } else {
                0usize
            }),
            signed ==> body == s@.drop_first(),
            !signed ==> body == s@,
            all_digits(s@.subrange(start as int, i as int)),
            acc <= cap,
            cap == 18446744073709551616u128,
            acc == (if digits_value(s@.subrange(start as int, i as int)) < cap {
                digits_value(s@.subrange(start as int, i as int))
            } else {
                cap as int
            }),
        decreases n - i,
    {
        let c = s.get_char(i);
        let ghost pre = s@.subrange(start as int, i as int);
        let ghost nxt = s@.subrange(start as int, i + 1);
        assert(nxt.drop_last() =~= pre);
        if !((c as u32) >= 48 && (c as u32) <= 57) {
            assert(body[i - start] == c);
            assert(!all_digits(body));
            return None;
        }
        proof {
            lemma_digits_value_nonneg(pre);
        }
        let d = (c as u32 - 48) as u128;
        let next = acc * 10 + d;
        acc = if next < cap {
            next
        } else {
            cap
        };
        i = i + 1;
        assert(all_digits(nxt));
    }
    assert(s@.subrange(start as int, n as int) == body);
    proof {
        lemma_digits_value_nonneg(body);
    }
    if acc == cap {
        return None;
    }
    Some(acc as u64)
}

/// `s.parse::<usize>().ok()`.
pub fn parse_usize(s: &str) -> (r: Option<usize>)
    ensures
        r == parse_usize_spec(s@),
{
    match parse_u64(s) {
        Some(v) => if v <= usize::MAX as u64 {
            Some(v as usize)
        } else {
            None
        },
        None => None,
    }
}

} // verus!
