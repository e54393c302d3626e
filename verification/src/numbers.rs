//! Decimal integers (what `str::parse` accepts and `to_string` prints) and
//! the hyphenated hexadecimal text of a UUID.

use vstd::prelude::*;
use crate::text::{concat_chars, is_ascii_digit, string_of, sub_chars};

verus! {

/// The ASCII digit for `d` (0 ≤ d ≤ 9).
pub open spec fn digit_char(d: int) -> char {
    ((d + 48) as u32) as char
}

/// The decimal digits of `n`, most significant first, without leading zeros.
pub open spec fn nat_digits(n: nat) -> Seq<char>
    decreases n,
{
    if n < 10 {
        seq![digit_char(n as int)]
    } else {
        nat_digits(n / 10).push(digit_char((n % 10) as int))
    }
}

/// The decimal text of `n` as `to_string` prints an integer.
pub open spec fn decimal(n: int) -> Seq<char> {
    if n < 0 {
        seq!['-'] + nat_digits((-n) as nat)
    } else {
        nat_digits(n as nat)
    }
}

/// The value of a run of ASCII digits.
pub open spec fn digits_value(s: Seq<char>) -> int
    decreases s.len(),
{
    if s.len() == 0 {
        0
    } else {
        digits_value(s.drop_last()) * 10 + ((s.last() as u32) - 48)
    }
}

pub open spec fn all_digits(s: Seq<char>) -> bool {
    forall|j: int| 0 <= j < s.len() ==> is_ascii_digit(#[trigger] s[j])
}

/// The integer a text spells in decimal: an optional `+` or `-` followed by
/// one or more ASCII digits, nothing else.
pub open spec fn decimal_value(s: Seq<char>) -> Option<int> {
    if s.len() > 0 && (s[0] == '+' || s[0] == '-') {
        let rest = s.skip(1);
        if rest.len() > 0 && all_digits(rest) {
            Some(
                if s[0] == '-' {
                    -digits_value(rest)
                } else {
                    digits_value(rest)
                },
            )
        } else {
            None
        }
    } else if s.len() > 0 && all_digits(s) {
        Some(digits_value(s))
    } else {
        None
    }
}

/// What `str::parse::<i64>` returns: the spelled value when it fits.
pub open spec fn parsed_i64(s: Seq<char>) -> Option<i64> {
    match decimal_value(s) {
        Some(v) => if i64::MIN <= v <= i64::MAX {
            Some(v as i64)
        } else {
            None
        },
        None => None,
    }
}

/// What `str::parse::<i32>` returns: the spelled value when it fits.
pub open spec fn parsed_i32(s: Seq<char>) -> Option<i32> {
    match decimal_value(s) {
        Some(v) => if i32::MIN <= v <= i32::MAX {
            Some(v as i32)
        } else {
            None
        },
        None => None,
    }
}

proof fn lemma_nat_digits_step(n: nat)
    requires
        n >= 10,
    ensures
        nat_digits(n) == nat_digits(n / 10).push(digit_char((n % 10) as int)),
{
}

/// The decimal digits of `m`, most significant first.
fn digits_of(m: u64) -> (r: Vec<char>)
    ensures
        r@ == nat_digits(m as nat),
{
    let mut out: Vec<char> = Vec::new();
    let mut k: u64 = m;
    while k >= 10
        invariant
            nat_digits(m as nat) == nat_digits(k as nat) + out@,
        decreases k,
    {
        let d = (k % 10) as u32;
        let c = char_from_digit(d);
        proof {
            lemma_nat_digits_step(k as nat);
            assert(nat_digits(k as nat) + out@ =~= nat_digits((k / 10) as nat) + seq![c] + out@);
        }
        let ghost before = out@;
        out.insert(0, c);
        assert(out@ =~= seq![c] + before);
        k = k / 10;
    }
    let c = char_from_digit(k as u32);
    out.insert(0, c);
    out
}

/// The ASCII digit for `d`.
fn char_from_digit(d: u32) -> (c: char)
    requires
        d < 10,
    ensures
        c == digit_char(d as int),
{
    let b = (d + 48) as u8;
    let c = b as char;
    assert(c as u32 == d + 48);
    c
}

/// `i64::to_string`.
pub fn decimal_i64(n: i64) -> (r: Vec<char>)
    ensures
        r@ == decimal(n as int),
{
    if n < 0 {
        let mag: u64 = if n == i64::MIN {
            9223372036854775808u64
        } else {
            (-n) as u64
        };
        let d = digits_of(mag);
        let mut r: Vec<char> = Vec::new();
        r.push('-');
        for i in 0..d.len()
            invariant
                r@ == seq!['-'] + d@.take(i as int),
        {
            r.push(d[i]);
            assert(r@ =~= seq!['-'] + d@.take(i + 1));
        }
        assert(d@.take(d@.len() as int) == d@);
        r
    } else {
        digits_of(n as u64)
    }
}

/// `i32::to_string`.
pub fn decimal_i32(n: i32) -> (r: Vec<char>)
    ensures
        r@ == decimal(n as int),
{
    decimal_i64(n as i64)
}

proof fn lemma_digits_value_step(s: Seq<char>, k: int)
    requires
        0 <= k < s.len(),
    ensures
        digits_value(s.take(k + 1)) == digits_value(s.take(k)) * 10 + ((s[k] as u32) - 48),
{
    assert(s.take(k + 1).drop_last() == s.take(k));
}

proof fn lemma_digits_value_mono(s: Seq<char>, j: int, k: int)
    requires
        0 <= j <= k <= s.len(),
        all_digits(s),
    ensures
        digits_value(s.take(j)) <= digits_value(s.take(k)),
        digits_value(s.take(j)) >= 0,
    decreases k - j,
{
    if j < k {
        lemma_digits_value_step(s, k - 1);
        assert(is_ascii_digit(s[k - 1]));
        lemma_digits_value_mono(s, j, k - 1);
        assert(digits_value(s.take(k - 1)) >= 0);
    } else {
        lemma_digits_value_nonneg(s, j);
    }
}

proof fn lemma_digits_value_nonneg(s: Seq<char>, j: int)
    requires
        0 <= j <= s.len(),
        all_digits(s),
    ensures
        digits_value(s.take(j)) >= 0,
    decreases j,
{
    if j > 0 {
        lemma_digits_value_step(s, j - 1);
        assert(is_ascii_digit(s[j - 1]));
        lemma_digits_value_nonneg(s, j - 1);
    } else {
        assert(s.take(0) =~= Seq::<char>::empty());
    }
}

/// The value of the digits `v[lo..]` when it is at most `2^63`, else `None`;
/// `None` also when a character there is not an ASCII digit.
fn digits_value_bounded(v: &[char], lo: usize) -> (r: Option<u64>)
    requires
        lo <= v@.len(),
    ensures
        r matches Some(x) ==> all_digits(v@.skip(lo as int)) && x == digits_value(v@.skip(lo as int))
            && x <= 9223372036854775808u64,
        r is None ==> !all_digits(v@.skip(lo as int)) || digits_value(v@.skip(lo as int))
            > 9223372036854775808u64,
{
    let ghost s = v@.skip(lo as int);
    let mut acc: u64 = 0;
    let mut i: usize = lo;
    assert(s.take(0) =~= Seq::<char>::empty());
    while i < v.len()
        invariant
            lo <= i <= v@.len(),
            s == v@.skip(lo as int),
            all_digits(s.take(i - lo)),
            acc == digits_value(s.take(i - lo)),
            acc <= 9223372036854775808u64,
        decreases v.len() - i,
    {
        let c = v[i];
        assert(s[i - lo] == c);
        if !('0' <= c && c <= '9') {
            assert(!is_ascii_digit(s[i - lo]));
            return None;
        }
        let d = (c as u32 - 48) as u64;
        proof {
            lemma_digits_value_step(s, i - lo);
            assert forall|j: int| 0 <= j < s.take(i - lo + 1).len() implies is_ascii_digit(
                #[trigger] s.take(i - lo + 1)[j],
            ) by {
                if j < i - lo {
                    assert(s.take(i - lo + 1)[j] == s.take(i - lo)[j]);
                }
            }
        }
        if acc > 922337203685477580u64 || (acc == 922337203685477580u64 && d > 8) {
            // The value already exceeds 2^63; more digits only make it larger.
            proof {
                if all_digits(s) {
                    lemma_digits_value_mono(s, i - lo + 1, s.len() as int);
                    assert(s.take(s.len() as int) == s);
                }
            }
            return None;
        }
        acc = acc * 10 + d;
        i = i + 1;
    }
    assert(s.take(s.len() as int) == s);
    Some(acc)
}

/// The integer a decimal text spells, when `|value| <= 2^63`.
fn decimal_value_bounded(v: &[char]) -> (r: Option<i128>)
    ensures
        r matches Some(x) ==> decimal_value(v@) == Some(x as int),
        r is None ==> decimal_value(v@) is None || (decimal_value(v@) matches Some(x) && (x
            < -9223372036854775808 || x > 9223372036854775808)),
{
    if v.len() > 0 && (v[0] == '+' || v[0] == '-') {
        if v.len() == 1 {
            return None;
        }
        match digits_value_bounded(v, 1) {
            Some(m) => {
                if v[0] == '-' {
                    Some(-(m as i128))
                } else {
                    Some(m as i128)
                }
            },
            None => None,
        }
    } else if v.len() > 0 {
        assert(v@.skip(0) == v@);
        match digits_value_bounded(v, 0) {
            Some(m) => Some(m as i128),
            None => None,
        }
    } else {
        None
    }
}

/// `str::parse::<i64>` on a character vector.
pub fn parse_i64_chars(v: &[char]) -> (r: Option<i64>)
    ensures
        r == parsed_i64(v@),
{
    match decimal_value_bounded(v) {
        Some(x) => {
            if x >= -9223372036854775808i128 && x <= 9223372036854775807i128 {
                Some(x as i64)
            } else {
                None
            }
        },
        None => None,
    }
}

/// `str::parse::<i32>` on a character vector.
pub fn parse_i32_chars(v: &[char]) -> (r: Option<i32>)
    ensures
        r == parsed_i32(v@),
{
    match decimal_value_bounded(v) {
        Some(x) => {
            if x >= -2147483648i128 && x <= 2147483647i128 {
                Some(x as i32)
            } else {
                None
            }
        },
        None => None,
    }
}

} // verus!

verus! {

/// The lowercase hexadecimal digit for `d` (0 ≤ d ≤ 15).
pub open spec fn hex_char(d: int) -> char {
    if d < 10 {
        digit_char(d)
    } else {
        ((d - 10 + 97) as u32) as char
    }
}

/// The lowest `n` hexadecimal digits of `v`, most significant first.
pub open spec fn hex_digits(v: nat, n: nat) -> Seq<char>
    decreases n,
{
    if n == 0 {
        Seq::empty()
    } else {
        hex_digits(v / 16, (n - 1) as nat).push(hex_char((v % 16) as int))
    }
}

/// Whether a UUID value is a random one: version nibble 4 and variant bits
/// `10` (RFC 9562).
pub open spec fn is_uuid_v4(v: u128) -> bool {
    (v >> 76u128) & 0xfu128 == 4 && (v >> 62u128) & 0x3u128 == 2
}

/// The hyphenated lowercase text of a UUID (`8-4-4-4-12` hexadecimal digits),
/// as the `uuid` crate displays it.
pub open spec fn uuid_text(v: u128) -> Seq<char> {
    let h = hex_digits(v as nat, 32);
    h.subrange(0, 8) + seq!['-'] + h.subrange(8, 12) + seq!['-'] + h.subrange(12, 16) + seq!['-']
        + h.subrange(16, 20) + seq!['-'] + h.subrange(20, 32)
}

/// The lowercase hexadecimal digit for `d`.
fn hex_char_of(d: u32) -> (c: char)
    requires
        d < 16,
    ensures
        c == hex_char(d as int),
{
    if d < 10 {
        char_from_digit(d)
    } else {
        let b = (d - 10 + 97) as u8;
        let c = b as char;
        assert(c as u32 == d - 10 + 97);
        c
    }
}

/// The 32 hexadecimal digits of `v`.
fn hex32(v: u128) -> (r: Vec<char>)
    ensures
        r@ == hex_digits(v as nat, 32),
{
    let mut out: Vec<char> = Vec::new();
    let mut k: u128 = v;
    let mut n: usize = 0;
    while n < 32
        invariant
            n <= 32,
            hex_digits(v as nat, 32) == hex_digits(k as nat, (32 - n) as nat) + out@,
        decreases 32 - n,
    {
        let d = (k % 16) as u32;
        let c = hex_char_of(d);
        let ghost before = out@;
        assert(hex_digits(k as nat, (32 - n) as nat) == hex_digits((k / 16) as nat, (32 - n - 1) as nat).push(c));
        out.insert(0, c);
        assert(out@ =~= seq![c] + before);
        assert(hex_digits(k as nat, (32 - n) as nat) + before =~= hex_digits((k / 16) as nat, (32 - n - 1) as nat) + out@);
        k = k / 16;
        n = n + 1;
    }
    assert(hex_digits(k as nat, 0) =~= Seq::<char>::empty());
    assert(out@ =~= hex_digits(v as nat, 32));
    out
}

proof fn lemma_hex_digits_len(v: nat, n: nat)
    ensures
        hex_digits(v, n).len() == n,
    decreases n,
{
    if n > 0 {
        lemma_hex_digits_len(v / 16, (n - 1) as nat);
    }
}

/// `Uuid::to_string`: the hyphenated lowercase text of a UUID.
pub fn uuid_string(v: u128) -> (r: String)
    ensures
        r@ == uuid_text(v),
{
    let h = hex32(v);
    proof {
        lemma_hex_digits_len(v as nat, 32);
    }
    let mut out = sub_chars(&h, 0, 8);
    out.push('-');
    out = concat_chars(&out, &sub_chars(&h, 8, 12));
    out.push('-');
    out = concat_chars(&out, &sub_chars(&h, 12, 16));
    out.push('-');
    out = concat_chars(&out, &sub_chars(&h, 16, 20));
    out.push('-');
    out = concat_chars(&out, &sub_chars(&h, 20, 32));
    assert(out@ =~= uuid_text(v));
    string_of(&out)
}

} // verus!

verus! {

pub proof fn lemma_hex_digits_ascii(v: nat, n: nat)
    ensures
        hex_digits(v, n).len() == n,
        forall|j: int|
            0 <= j < n ==> (#[trigger] hex_digits(v, n)[j] as u32) < 0x80 && hex_digits(v, n)[j]
                != '-',
    decreases n,
{
    lemma_hex_digits_len(v, n);
    if n > 0 {
        lemma_hex_digits_ascii(v / 16, (n - 1) as nat);
        let d = (v % 16) as int;
        assert(hex_char(d) as u32 == (if d < 10 { d + 48 } else { d - 10 + 97 }));
    }
}

} // verus!
