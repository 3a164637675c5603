//! Integer parsing and printing for the config's string-keyed tables and
//! window addresses: decimal `i32` (workspace ids written as table keys)
//! and hexadecimal `u64` (window addresses).

use vstd::prelude::*;
use vstd::string::*;

verus! {

/// The value of a digit sequence, most significant digit first.
pub open spec fn radix_value(ds: Seq<int>, base: int) -> int
    decreases ds.len(),
{
    if ds.len() == 0 {
        0
    } else {
        radix_value(ds.drop_last(), base) * base + ds.last()
    }
}

/// All digits are in `0..base`.
pub open spec fn digits_in_range(ds: Seq<int>, base: int) -> bool {
    forall|i: int| 0 <= i < ds.len() ==> 0 <= #[trigger] ds[i] < base
}

/// A longer digit sequence is worth at least as much as its prefix.
pub proof fn lemma_radix_prefix_le(ds: Seq<int>, base: int, k: int)
    requires
        base >= 1,
        digits_in_range(ds, base),
        0 <= k <= ds.len(),
    ensures
        0 <= radix_value(ds.take(k), base) <= radix_value(ds, base),
    decreases ds.len(),
{
    if ds.len() > 0 {
        if k == ds.len() {
            assert(ds.take(k) =~= ds);
            lemma_radix_nonneg(ds, base);
        } else {
            lemma_radix_prefix_le(ds.drop_last(), base, k);
            assert(ds.drop_last().take(k) =~= ds.take(k));
            lemma_radix_nonneg(ds.drop_last(), base);
            assert(radix_value(ds.drop_last(), base) <= radix_value(ds.drop_last(), base) * base)
                by (nonlinear_arith)
                requires
                    radix_value(ds.drop_last(), base) >= 0,
                    base >= 1,
            ;
        }
    } else {
        assert(ds.take(k) =~= ds);
    }
}

/// A digit sequence has a non-negative value.
pub proof fn lemma_radix_nonneg(ds: Seq<int>, base: int)
    requires
        base >= 1,
        digits_in_range(ds, base),
    ensures
        radix_value(ds, base) >= 0,
    decreases ds.len(),
{
    if ds.len() > 0 {
        lemma_radix_nonneg(ds.drop_last(), base);
        assert(radix_value(ds.drop_last(), base) * base >= 0) by (nonlinear_arith)
            requires
                radix_value(ds.drop_last(), base) >= 0,
                base >= 1,
        ;
    }
}

/// The decimal value of a character, or -1 if it is not a decimal digit.
pub open spec fn decimal_digit(c: char) -> int {
    if '0' <= c <= '9' {
        (c as int) - ('0' as int)
    } else {
        -1
    }
}

/// The hexadecimal value of a character, or -1 if it is not a hex digit.
pub open spec fn hex_digit(c: char) -> int {
    if '0' <= c <= '9' {
        (c as int) - ('0' as int)
    } else if 'a' <= c <= 'f' {
        (c as int) - ('a' as int) + 10
    } else if 'A' <= c <= 'F' {
        (c as int) - ('A' as int) + 10
    } else {
        -1
    }
}

/// The decimal digit values of a string.
pub open spec fn decimal_digits(s: Seq<char>) -> Seq<int> {
    s.map_values(|c: char| decimal_digit(c))
}

/// The hexadecimal digit values of a string.
pub open spec fn hex_digits(s: Seq<char>) -> Seq<int> {
    s.map_values(|c: char| hex_digit(c))
}

/// The `i32` that a string denotes in Rust's integer syntax: an optional
/// `+` or `-` sign followed by at least one decimal digit, within range.
pub open spec fn parse_i32_spec(s: Seq<char>) -> Option<i32> {
    let negative = s.len() > 0 && s[0] == '-';
    let digits = if s.len() > 0 && (s[0] == '-' || s[0] == '+') {
        s.skip(1)
    } else {
        s
    };
    if digits.len() == 0 || !digits_in_range(decimal_digits(digits), 10) {
        None
    } else {
        let magnitude = radix_value(decimal_digits(digits), 10);
        let v = if negative {
            -magnitude
        } else {
            magnitude
        };
        if i32::MIN <= v <= i32::MAX {
            Some(v as i32)
        } else {
            None
        }
    }
}

/// The `u64` that a string denotes as a hexadecimal number: an optional
/// `+` sign followed by at least one hex digit, within range.
pub open spec fn parse_hex_u64_spec(s: Seq<char>) -> Option<u64> {
    let digits = if s.len() > 0 && s[0] == '+' {
        s.skip(1)
    } else {
        s
    };
    if digits.len() == 0 || !digits_in_range(hex_digits(digits), 16) {
        None
    } else if radix_value(hex_digits(digits), 16) <= u64::MAX {
        Some(radix_value(hex_digits(digits), 16) as u64)
    } else {
        None
    }
}

fn decimal_digit_of(c: char) -> (r: Option<u64>)
    ensures
        match r {
            Some(d) => d == decimal_digit(c) && 0 <= d < 10,
            None => decimal_digit(c) == -1,
        },
{
    if '0' <= c && c <= '9' {
        Some((c as u64) - ('0' as u64))
    } else {
        None
    }
}

fn hex_digit_of(c: char) -> (r: Option<u64>)
    ensures
        match r {
            Some(d) => d == hex_digit(c) && 0 <= d < 16,
            None => hex_digit(c) == -1,
        },
{
    if '0' <= c && c <= '9' {
        Some((c as u64) - ('0' as u64))
    } else if 'a' <= c && c <= 'f' {
        Some((c as u64) - ('a' as u64) + 10)
    } else if 'A' <= c && c <= 'F' {
        Some((c as u64) - ('A' as u64) + 10)
    } else {
        None
    }
}

/// Parses an `i32` as Rust's `str::parse::<i32>` does.
pub fn parse_i32(s: &str) -> (r: Option<i32>)
    ensures
        r == parse_i32_spec(s@),
{
    let n = s.unicode_len();
    let mut start: usize = 0;
    let mut negative = false;
    if n > 0 {
        let c = s.get_char(0);
        if c == '-' {
            negative = true;
            start = 1;
        } else if c == '+' {
            start = 1;
        }
    }
    let ghost digits = s@.skip(start as int);
    proof {
        assert(s@.skip(0) =~= s@);
        assert(digits == (if s@.len() > 0 && (s@[0] == '-' || s@[0] == '+') {
            s@.skip(1)
        } else {
            s@
        }));
        assert(negative == (s@.len() > 0 && s@[0] == '-'));
    }
    if start == n {
        return None;
    }
    let mut acc: u64 = 0;
    let mut i: usize = start;
    while i < n
        invariant
            n == s@.len(),
            start <= i <= n,
            digits == s@.skip(start as int),
            digits.len() == n - start,
            digits == (if s@.len() > 0 && (s@[0] == '-' || s@[0] == '+') {
                s@.skip(1)
            } else {
                s@
            }),
            negative == (s@.len() > 0 && s@[0] == '-'),
            digits_in_range(decimal_digits(digits).take(i - start), 10),
            acc == radix_value(decimal_digits(digits).take(i - start), 10),
            acc <= 2147483648,
        decreases n - i,
    {
        let ghost k = i - start;
        assert(digits[k] == s@[i as int]);
        let d = match decimal_digit_of(s.get_char(i)) {
            Some(d) => d,
            None => {
                assert(!digits_in_range(decimal_digits(digits), 10)) by {
                    assert(decimal_digits(digits)[k] == -1);
                }
                return None;
            },
        };
        assert(decimal_digits(digits).take(k + 1).drop_last() =~= decimal_digits(digits).take(k));
        if acc > 214748364 || (acc == 214748364 && d > 8) {
            proof {
                if digits_in_range(decimal_digits(digits), 10) {
                    lemma_radix_prefix_le(decimal_digits(digits), 10, k + 1);
                }
            }
            return None;
        }
        acc = acc * 10 + d;
        i = i + 1;
    }
    assert(decimal_digits(digits).take(n - start) =~= decimal_digits(digits));
    if negative {
        Some((0 - (acc as i64)) as i32)
    } else if acc > 2147483647 {
        None
    } else {
        Some(acc as i32)
    }
}

/// Parses a `u64` as Rust's `u64::from_str_radix(s, 16)` does.
pub fn parse_hex_u64(s: &str) -> (r: Option<u64>)
    ensures
        r == parse_hex_u64_spec(s@),
{
    let n = s.unicode_len();
    let mut start: usize = 0;
    if n > 0 && s.get_char(0) == '+' {
        start = 1;
    }
    let ghost digits = s@.skip(start as int);
    proof {
        assert(s@.skip(0) =~= s@);
        assert(digits == (if s@.len() > 0 && s@[0] == '+' {
            s@.skip(1)
        } else {
            s@
        }));
    }
    if start == n {
        return None;
    }
    let mut acc: u64 = 0;
    let mut i: usize = start;
    while i < n
        invariant
            n == s@.len(),
            start <= i <= n,
            digits == s@.skip(start as int),
            digits.len() == n - start,
            digits == (if s@.len() > 0 && s@[0] == '+' {
                s@.skip(1)
            } else {
                s@
            }),
            digits_in_range(hex_digits(digits).take(i - start), 16),
            acc == radix_value(hex_digits(digits).take(i - start), 16),
        decreases n - i,
    {
        let ghost k = i - start;
        assert(digits[k] == s@[i as int]);
        let d = match hex_digit_of(s.get_char(i)) {
            Some(d) => d,
            None => {
                assert(!digits_in_range(hex_digits(digits), 16)) by {
                    assert(hex_digits(digits)[k] == -1);
                }
                return None;
            },
        };
        assert(hex_digits(digits).take(k + 1).drop_last() =~= hex_digits(digits).take(k));
        if acc > (u64::MAX - d) / 16 {
            proof {
                assert(acc * 16 + d > u64::MAX) by (nonlinear_arith)
                    requires
                        acc > (u64::MAX - d) / 16,
                        0 <= d < 16,
                ;
                if digits_in_range(hex_digits(digits), 16) {
                    lemma_radix_prefix_le(hex_digits(digits), 16, k + 1);
                }
            }
            return None;
        }
        proof {
            assert(acc * 16 + d <= u64::MAX) by (nonlinear_arith)
                requires
                    acc <= (u64::MAX - d) / 16,
                    0 <= d < 16,
            ;
        }
        acc = acc * 16 + d;
        i = i + 1;
    }
    assert(hex_digits(digits).take(n - start) =~= hex_digits(digits));
    Some(acc)
}

/// The decimal digit character of `d` (`0 <= d < 10`).
pub open spec fn digit_char(d: int) -> char {
    ((d + ('0' as int)) as u32) as char
}

/// The decimal digits of a natural number, most significant first, without
/// leading zeros.
pub open spec fn decimal_string(n: nat) -> Seq<char>
    decreases n,
{
    if n < 10 {
        seq![digit_char(n as int)]
    } else {
        decimal_string(n / 10).push(digit_char((n % 10) as int))
    }
}

/// The decimal form of an `i32`, with a leading `-` when negative.
pub open spec fn i32_string(v: i32) -> Seq<char> {
    if v < 0 {
        seq!['-'] + decimal_string((-(v as int)) as nat)
    } else {
        decimal_string(v as nat)
    }
}

fn digit_str(d: u64) -> (r: &'static str)
    requires
        d < 10,
    ensures
        r@ == seq![digit_char(d as int)],
{
    proof {
        reveal_strlit("0");
        reveal_strlit("1");
        reveal_strlit("2");
        reveal_strlit("3");
        reveal_strlit("4");
        reveal_strlit("5");
        reveal_strlit("6");
        reveal_strlit("7");
        reveal_strlit("8");
        reveal_strlit("9");
    }
    let r = if d == 0 {
        "0"
    } else if d == 1 {
        "1"
    } else if d == 2 {
        "2"
    } else if d == 3 {
        "3"
    } else if d == 4 {
        "4"
    } else if d == 5 {
        "5"
    } else if d == 6 {
        "6"
    } else if d == 7 {
        "7"
    } else if d == 8 {
        "8"
    } else {
        "9"
    };
    assert(r@ =~= seq![digit_char(d as int)]);
    r
}

/// The decimal digits of `n`.
pub fn format_decimal(n: u64) -> (r: String)
    ensures
        r@ == decimal_string(n as nat),
{
    let mut cur: u64 = n;
    let mut acc = String::new();
    while cur >= 10
        invariant
            decimal_string(n as nat) == decimal_string(cur as nat) + acc@,
        decreases cur,
    {
        let d = cur % 10;
        let ghost before = acc@;
        acc = String::from_str(digit_str(d)).concat(acc.as_str());
        assert(decimal_string(cur as nat) == decimal_string((cur / 10) as nat).push(
            digit_char(d as int),
        ));
        assert(decimal_string((cur / 10) as nat) + acc@ =~= decimal_string((cur / 10) as nat).push(
            digit_char(d as int),
        ) + before);
        cur = cur / 10;
    }
    let r = String::from_str(digit_str(cur)).concat(acc.as_str());
    assert(decimal_string(cur as nat) =~= seq![digit_char(cur as int)]);
    r
}

/// The decimal form of an `i32`, as Rust's `i32::to_string` writes it.
pub fn format_i32(v: i32) -> (r: String)
    ensures
        r@ == i32_string(v),
{
    proof {
        reveal_strlit("-");
    }
    if v < 0 {
        let magnitude: u64 = (0 - (v as i64)) as u64;
        String::from_str("-").concat(format_decimal(magnitude).as_str())
    } else {
        format_decimal(v as u64)
    }
}

/// The decimal string of `n` is a non-empty run of decimal digits worth `n`.
pub proof fn lemma_decimal_string(n: nat)
    ensures
        decimal_string(n).len() >= 1,
        digits_in_range(decimal_digits(decimal_string(n)), 10),
        radix_value(decimal_digits(decimal_string(n)), 10) == n,
        '0' <= decimal_string(n)[0] <= '9',
    decreases n,
{
    if n < 10 {
        let c = digit_char(n as int);
        assert(c as int == n + 48);
        assert(decimal_digits(decimal_string(n)) =~= seq![n as int]);
        assert(seq![n as int].drop_last() =~= Seq::<int>::empty());
        assert(radix_value(Seq::<int>::empty(), 10) == 0);
        assert(radix_value(seq![n as int], 10) == n);
    } else {
        lemma_decimal_string(n / 10);
        let prev = decimal_string(n / 10);
        let c = digit_char((n % 10) as int);
        assert(c as int == (n % 10) + 48);
        assert(decimal_digits(prev.push(c)) =~= decimal_digits(prev).push((n % 10) as int));
        assert(decimal_digits(prev).push((n % 10) as int).drop_last() =~= decimal_digits(prev));
        assert(prev.push(c)[0] == prev[0]);
        assert(decimal_string(n) == prev.push(c));
        let ds = decimal_digits(prev).push((n % 10) as int);
        assert(decimal_digits(decimal_string(n)) == ds);
        assert(ds.last() == (n % 10) as int);
        assert(radix_value(ds, 10) == radix_value(decimal_digits(prev), 10) * 10 + (n % 10) as int);
        assert((n / 10) * 10 + n % 10 == n);
    }
}

/// Printing then parsing an `i32` gives it back: table keys written for
/// workspace ids read back as the same ids.
pub proof fn law_i32_roundtrip(v: i32)
    ensures
        parse_i32_spec(i32_string(v)) == Some(v),
{
    if v < 0 {
        let m = (-(v as int)) as nat;
        lemma_decimal_string(m);
        let s = i32_string(v);
        assert(s[0] == '-');
        assert(s.skip(1) =~= decimal_string(m));
    } else {
        lemma_decimal_string(v as nat);
    }
}

} // verus!
