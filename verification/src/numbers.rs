//! Decimal text of integers: parsing as `str::parse` does for the integer
//! types and `bool`, and formatting as `Display` does.

use vstd::prelude::*;

use crate::text::{chars_vec, push_char};

verus! {

/// Whether every character is an ASCII decimal digit.
pub open spec fn all_digits(s: Seq<char>) -> bool {
    forall|i: int| 0 <= i < s.len() ==> '0' <= #[trigger] s[i] && s[i] <= '9'
}

/// The value of a digit character.
pub open spec fn digit_value(c: char) -> int {
    (c as u32) - ('0' as u32)
}

/// The number that a string of decimal digits denotes (leading zeros allowed).
pub open spec fn digits_value(s: Seq<char>) -> int
    decreases s.len(),
{
    if s.len() == 0 {
        0
    } else {
        digits_value(s.drop_last()) * 10 + digit_value(s.last())
    }
}

/// The digits after an optional sign.
pub open spec fn unsigned_digits(s: Seq<char>) -> Seq<char> {
    if s.len() >= 1 && s[0] == '+' {
        s.drop_first()
    } else {
        s
    }
}

/// `str::parse` for an unsigned integer type whose largest value is `max`:
/// an optional `+`, then at least one ASCII digit, and a value within range.
pub open spec fn parse_unsigned(s: Seq<char>, max: int) -> Option<int> {
    let digits = unsigned_digits(s);
    if digits.len() == 0 || !all_digits(digits) || digits_value(digits) > max {
        None
    } else {
        Some(digits_value(digits))
    }
}

/// `str::parse::<i64>`: an optional `+` or `-`, then at least one ASCII
/// digit, and a value within the range of `i64`.
pub open spec fn parse_i64(s: Seq<char>) -> Option<int> {
    let negative = s.len() >= 1 && s[0] == '-';
    let digits = if s.len() >= 1 && (s[0] == '+' || s[0] == '-') {
        s.drop_first()
    } else {
        s
    };
    let magnitude = digits_value(digits);
    let value = if negative {
        -magnitude
    } else {
        magnitude
    };
    if digits.len() == 0 || !all_digits(digits) || value < i64::MIN || value > i64::MAX {
        None
    } else {
        Some(value)
    }
}

/// `str::parse::<bool>`: exactly `true` or `false`.
pub open spec fn parse_bool(s: Seq<char>) -> Option<bool> {
    if s == "true"@ {
        Some(true)
    } else if s == "false"@ {
        Some(false)
    } else {
        None
    }
}

/// A longer digit string never denotes less than its prefix.
pub proof fn lemma_digits_value_prefix(s: Seq<char>, i: int)
    requires
        all_digits(s),
        0 <= i <= s.len(),
    ensures
        digits_value(s.take(i)) <= digits_value(s),
        0 <= digits_value(s.take(i)),
    decreases s.len() - i,
{
    if i == s.len() {
        assert(s.take(i) =~= s);
        lemma_digits_value_nonneg(s);
    } else {
        lemma_digits_value_prefix(s, i + 1);
        assert(s.take(i + 1).drop_last() =~= s.take(i));
        assert(all_digits(s.take(i))) by {
            assert forall|k: int| 0 <= k < s.take(i).len() implies '0' <= #[trigger] s.take(i)[k]
                && s.take(i)[k] <= '9' by {
                assert(s.take(i)[k] == s[k]);
            }
        }
        lemma_digits_value_nonneg(s.take(i));
    }
}

/// Digit strings denote non-negative numbers.
pub proof fn lemma_digits_value_nonneg(s: Seq<char>)
    requires
        all_digits(s),
    ensures
        0 <= digits_value(s),
    decreases s.len(),
{
    if s.len() > 0 {
        assert(all_digits(s.drop_last())) by {
            assert forall|k: int| 0 <= k < s.drop_last().len() implies '0'
                <= #[trigger] s.drop_last()[k] && s.drop_last()[k] <= '9' by {
                assert(s.drop_last()[k] == s[k]);
            }
        }
        lemma_digits_value_nonneg(s.drop_last());
    }
}

/// Reads the digits `v[start..]` as a number no larger than `limit`;
/// `None` when a character is not a digit, when there are no digits, or
/// when the number exceeds `limit`.
fn read_magnitude(v: &Vec<char>, start: usize, limit: u64) -> (r: Option<u64>)
    requires
        start <= v.len(),
    ensures
        ({
            let d = v@.skip(start as int);
            match r {
                Some(n) => d.len() > 0 && all_digits(d) && n == digits_value(d) && n <= limit,
                None => d.len() == 0 || !all_digits(d) || digits_value(d) > limit,
            }
        }),
{
    let ghost d = v@.skip(start as int);
    if start == v.len() {
        return None;
    }
    let mut i: usize = start;
    while i < v.len()
        invariant
            start <= i <= v.len(),
            d == v@.skip(start as int),
            forall|k: int| 0 <= k < i - start ==> '0' <= #[trigger] d[k] && d[k] <= '9',
        decreases v.len() - i,
    {
        let c = v[i];
        if !('0' <= c && c <= '9') {
            assert(d[i - start] == c);
            return None;
        }
        i = i + 1;
    }
    assert(all_digits(d));
    let mut acc: u64 = 0;
    let mut j: usize = start;
    while j < v.len()
        invariant
            start <= j <= v.len(),
            d == v@.skip(start as int),
            all_digits(d),
            acc == digits_value(d.take(j - start)),
            acc <= limit,
        decreases v.len() - j,
    {
        let c = v[j];
        assert(d[j - start] == c);
        assert('0' <= d[j - start] && d[j - start] <= '9');
        let dv = (c as u32 - '0' as u32) as u64;
        assert(d.take(j - start + 1).drop_last() =~= d.take(j - start));
        assert(d.take(j - start + 1).last() == c);
        if dv > limit || acc > (limit - dv) / 10 {
            proof {
                assert(acc * 10 + dv > limit) by (nonlinear_arith)
                    requires
                        dv > limit || (dv <= limit && acc > (limit - dv) / 10),
                ;
                lemma_digits_value_prefix(d, j - start + 1);
            }
            return None;
        }
        assert(acc * 10 + dv <= limit) by (nonlinear_arith)
            requires
                acc <= (limit - dv) / 10,
                dv <= limit,
        ;
        acc = acc * 10 + dv;
        j = j + 1;
    }
    assert(d.take(v.len() - start) =~= d);
    Some(acc)
}


/// Parses an unsigned integer no larger than `max`, as `str::parse` does
/// for `u16`, `u32` and `u64`.
pub fn parse_unsigned_str(s: &str, max: u64) -> (r: Option<u64>)
    ensures
        match parse_unsigned(s@, max as int) {
            Some(n) => r matches Some(x) && x == n,
            None => r is None,
        },
{
    let v = chars_vec(s);
    let start: usize = if v.len() >= 1 && v[0] == '+' { 1 } else { 0 };
    proof {
        assert(v@.skip(start as int) =~= unsigned_digits(s@));
    }
    read_magnitude(&v, start, max)
}

/// Parses an `i64` as `str::parse::<i64>` does.
pub fn parse_i64_str(s: &str) -> (r: Option<i64>)
    ensures
        match parse_i64(s@) {
            Some(n) => r matches Some(x) && x == n,
            None => r is None,
        },
{
    let v = chars_vec(s);
    let negative = v.len() >= 1 && v[0] == '-';
    let start: usize = if v.len() >= 1 && (v[0] == '+' || v[0] == '-') { 1 } else { 0 };
    let limit: u64 = if negative { 0x8000_0000_0000_0000u64 } else { 0x7FFF_FFFF_FFFF_FFFFu64 };
    let ghost d = v@.skip(start as int);
    proof {
        if v.len() >= 1 && (v[0] == '+' || v[0] == '-') {
            assert(d =~= s@.drop_first());
        } else {
            assert(d =~= s@);
        }
    }
    match read_magnitude(&v, start, limit) {
        None => None,
        Some(m) => {
            if negative {
                if m == 0x8000_0000_0000_0000u64 {
                    Some(i64::MIN)
                } else {
                    Some(-(m as i64))
                }
            } else {
                Some(m as i64)
            }
        },
    }
}

/// Parses a `bool` as `str::parse::<bool>` does.
pub fn parse_bool_str(s: &str) -> (r: Option<bool>)
    ensures
        r == parse_bool(s@),
{
    let v = chars_vec(s);
    let t = chars_vec("true");
    let f = chars_vec("false");
    if crate::text::chars_equal(&v, &t) {
        Some(true)
    } else if crate::text::chars_equal(&v, &f) {
        Some(false)
    } else {
        None
    }
}

/// The character of a decimal digit value.
pub open spec fn digit_char(d: int) -> char {
    (d + ('0' as int)) as char
}

/// The decimal representation of `n`, as `Display` prints it.
pub open spec fn decimal(n: nat) -> Seq<char>
    decreases n,
{
    if n < 10 {
        seq![digit_char(n as int)]
    } else {
        decimal(n / 10).push(digit_char((n % 10) as int))
    }
}

/// Decimal text of an unsigned integer (`u64::to_string`).
pub fn format_u64(n: u64) -> (s: String)
    ensures
        s@ == decimal(n as nat),
{
    // Collect digits least significant first.
    let mut digits: Vec<char> = Vec::new();
    let mut m: u64 = n;
    let ghost mut tail: Seq<char> = Seq::empty();
    assert(decimal(n as nat) + tail =~= decimal(n as nat));
    loop
        invariant_except_break
            decimal(n as nat) == decimal(m as nat) + tail,
        invariant
            digits@ == tail.reverse(),
        ensures
            tail == decimal(n as nat),
            digits@ == tail.reverse(),
        decreases m,
    {
        if m < 10 {
            let c = ((m as u8) + 48u8) as char;
            proof {
                assert(decimal(m as nat) =~= seq![c]);
            }
            digits.push(c);
            proof {
                tail = seq![c] + tail;
                assert(digits@ =~= tail.reverse());
            }
            break;
        }
        let c = (((m % 10) as u8) + 48u8) as char;
        proof {
            assert(decimal(m as nat) =~= decimal((m / 10) as nat).push(c));
            assert(decimal(m as nat) + tail =~= decimal((m / 10) as nat) + (seq![c] + tail));
        }
        digits.push(c);
        let ghost old_tail = tail;
        proof {
            tail = seq![c] + tail;
            assert(digits@ =~= tail.reverse());
        }
        let ghost old_m = m;
        m = m / 10;
        assert(m as nat == (old_m / 10) as nat);
        assert(decimal(n as nat) == decimal(old_m as nat) + old_tail);
        assert(decimal(n as nat) =~= decimal(m as nat) + tail);
    }
    let mut s = String::new();
    let mut k: usize = digits.len();
    while k > 0
        invariant
            k <= digits.len(),
            digits@ == tail.reverse(),
            tail == decimal(n as nat),
            s@ == tail.subrange(0, (digits.len() - k) as int),
        decreases k,
    {
        k = k - 1;
        push_char(&mut s, digits[k]);
        assert(tail.subrange(0, (digits.len() - k) as int) =~= tail.subrange(
            0,
            (digits.len() - k - 1) as int,
        ).push(digits@[k as int]));
    }
    assert(tail.subrange(0, digits.len() as int) =~= tail);
    s
}

} // verus!
