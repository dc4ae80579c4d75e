//! Decimal text codec: formatting of integers and milli fixed-point values,
//! and parsing of the numeric and boolean payloads found in recommendation
//! strings. Milli values are printed with exactly three fractional digits,
//! and parsing drops fractional digits beyond the third.

use vstd::prelude::*;
use vstd::string::StrSliceExecFns;

verus! {

/// Longest run of integer digits the parsers accept; any 18-digit decimal
/// number fits comfortably in an `i64`.
pub const MAX_INT_DIGITS: usize = 18;

/// Longest integer part accepted when parsing a milli value; the scaled
/// magnitude of any such value fits in an `i64`.
pub const MAX_MILLI_INT_DIGITS: usize = 15;

pub open spec fn spec_digit_char(d: int) -> char
    recommends
        0 <= d < 10,
{
    ((d + 48) as u8) as char
}

pub open spec fn is_digit_char(c: char) -> bool {
    48 <= c as int <= 57
}

pub open spec fn digit_char_val(c: char) -> int
    recommends
        is_digit_char(c),
{
    c as int - 48
}

pub open spec fn all_digits(s: Seq<char>) -> bool {
    forall|i: int| 0 <= i < s.len() ==> is_digit_char(#[trigger] s[i])
}

/// Value of a digit string, most significant digit first.
pub open spec fn digits_val(s: Seq<char>) -> int
    recommends
        all_digits(s),
    decreases s.len(),
{
    if s.len() == 0 {
        0
    } else {
        digits_val(s.drop_last()) * 10 + digit_char_val(s.last())
    }
}

pub open spec fn pow10(n: nat) -> int
    decreases n,
{
    if n == 0 {
        1
    } else {
        10 * pow10((n - 1) as nat)
    }
}

/// Decimal digit string of a non-negative integer, no sign, no leading zero
/// (except for zero itself).
pub open spec fn spec_nat_chars(n: int) -> Seq<char>
    recommends
        n >= 0,
    decreases n,
{
    if 0 <= n < 10 {
        seq![spec_digit_char(n)]
    } else if n >= 10 {
        spec_nat_chars(n / 10).push(spec_digit_char(n % 10))
    } else {
        seq![]
    }
}

/// Decimal digit string of an integer, with a leading '-' when negative.
pub open spec fn spec_int_chars(n: int) -> Seq<char> {
    if n < 0 {
        seq!['-'] + spec_nat_chars(-n)
    } else {
        spec_nat_chars(n)
    }
}

/// Rendering of a milli fixed-point value with exactly three fractional
/// digits, as in `0.150` or `-12.030`.
pub open spec fn spec_milli_chars(v: int) -> Seq<char> {
    if v < 0 {
        seq!['-'] + spec_milli_mag_chars(-v)
    } else {
        spec_milli_mag_chars(v)
    }
}

pub open spec fn spec_milli_mag_chars(m: int) -> Seq<char>
    recommends
        m >= 0,
{
    spec_nat_chars(m / 1000) + seq!['.'] + seq![
        spec_digit_char(m % 1000 / 100),
        spec_digit_char(m % 100 / 10),
        spec_digit_char(m % 10),
    ]
}

pub proof fn lemma_pow10_mono(a: nat, b: nat)
    requires
        a <= b,
    ensures
        pow10(a) <= pow10(b),
        pow10(a) >= 1,
    decreases b,
{
    if b > 0 {
        if a == b {
            lemma_pow10_mono((a - 1) as nat, (b - 1) as nat);
        } else {
            lemma_pow10_mono(a, (b - 1) as nat);
        }
    }
}

pub proof fn lemma_digits_val_bound(s: Seq<char>)
    requires
        all_digits(s),
    ensures
        0 <= digits_val(s) < pow10(s.len()),
    decreases s.len(),
{
    if s.len() > 0 {
        assert(all_digits(s.drop_last()));
        lemma_digits_val_bound(s.drop_last());
        assert(is_digit_char(s.last()));
    }
}

/// The digit string of `n` evaluates back to `n`, consists of digits only,
/// and is as short as the value allows.
pub proof fn lemma_nat_chars_val(n: int)
    requires
        n >= 0,
    ensures
        all_digits(spec_nat_chars(n)),
        digits_val(spec_nat_chars(n)) == n,
        1 <= spec_nat_chars(n).len(),
        n < pow10(spec_nat_chars(n).len()),
        spec_nat_chars(n).len() == 1 || pow10((spec_nat_chars(n).len() - 1) as nat) <= n,
    decreases n,
{
    reveal_with_fuel(digits_val, 2);
    reveal_with_fuel(spec_nat_chars, 2);
    if 0 <= n < 10 {
        let s = spec_nat_chars(n);
        assert(s =~= seq![spec_digit_char(n)]);
        assert(s.len() == 1);
        assert(s.drop_last() =~= Seq::<char>::empty());
        assert(digits_val(s.drop_last()) == 0);
        assert(s.last() == spec_digit_char(n));
        assert(digits_val(s) == digits_val(s.drop_last()) * 10 + digit_char_val(s.last()));
    } else {
        lemma_nat_chars_val(n / 10);
        let pre = spec_nat_chars(n / 10);
        let s = spec_nat_chars(n);
        assert(s =~= pre.push(spec_digit_char(n % 10)));
        assert(s.drop_last() =~= pre);
        assert(s.last() == spec_digit_char(n % 10));
        assert(s.len() > 0);
        assert(digits_val(s) == digits_val(s.drop_last()) * 10 + digit_char_val(s.last()));
        assert(digits_val(s.drop_last()) == digits_val(pre));
        assert(digit_char_val(spec_digit_char(n % 10)) == n % 10);
        assert(digits_val(s) == (n / 10) * 10 + n % 10);
        assert(forall|i: int|
            0 <= i < s.len() ==> is_digit_char(#[trigger] s[i])) by {
            assert(forall|i: int| 0 <= i < pre.len() ==> is_digit_char(#[trigger] pre[i]));
            assert(is_digit_char(spec_digit_char(n % 10)));
            assert(forall|i: int| 0 <= i < pre.len() ==> s[i] == pre[i]);
        }
        assert(pow10(s.len()) == 10 * pow10(pre.len()));
        if pre.len() == 1 {
            assert(pow10((s.len() - 1) as nat) == pow10(1nat));
            assert(pow10(1nat) == 10);
        } else {
            assert(pow10((pre.len() - 1) as nat) <= n / 10);
            assert(pow10((s.len() - 1) as nat) == 10 * pow10((pre.len() - 1) as nat));
        }
    }
}

pub fn digit_char(d: u8) -> (c: char)
    requires
        d < 10,
    ensures
        c == spec_digit_char(d as int),
        is_digit_char(c),
{
    (d + 48) as char
}

/// Appends the decimal digits of `n` to `s`.
pub fn push_nat_digits(s: &mut String, n: u64)
    ensures
        final(s)@ == old(s)@ + spec_nat_chars(n as int),
    decreases n,
{
    if n < 10 {
        s.push(digit_char(n as u8));
        assert(s@ =~= old(s)@ + spec_nat_chars(n as int));
    } else {
        push_nat_digits(s, n / 10);
        s.push(digit_char((n % 10) as u8));
        assert(s@ =~= old(s)@ + spec_nat_chars(n as int));
    }
}

/// Appends the decimal rendering of `n` to `s`, with a '-' when negative.
pub fn push_int_digits(s: &mut String, n: i64)
    ensures
        final(s)@ == old(s)@ + spec_int_chars(n as int),
{
    if n >= 0 {
        push_nat_digits(s, n as u64);
    } else {
        s.push('-');
        let mag: u64 = ((-(n + 1)) as u64) + 1;
        assert(mag as int == -(n as int));
        push_nat_digits(s, mag);
        assert(s@ =~= old(s)@ + spec_int_chars(n as int));
    }
}

/// Appends the milli fixed-point rendering of `v` (three fractional digits).
pub fn push_milli(s: &mut String, v: i64)
    ensures
        final(s)@ == old(s)@ + spec_milli_chars(v as int),
{
    let mag: u64 = if v >= 0 {
        v as u64
    } else {
        s.push('-');
        ((-(v + 1)) as u64) + 1
    };
    assert(mag as int == if v as int >= 0 { v as int } else { -(v as int) });
    push_nat_digits(s, mag / 1000);
    s.push('.');
    s.push(digit_char((mag % 1000 / 100) as u8));
    s.push(digit_char((mag % 100 / 10) as u8));
    s.push(digit_char((mag % 10) as u8));
    assert(s@ =~= old(s)@ + spec_milli_chars(v as int));
}

/// Character-wise string equality.
pub fn str_eq_chars(a: &str, b: &str) -> (r: bool)
    ensures
        r == (a@ == b@),
{
    let alen = a.unicode_len();
    let blen = b.unicode_len();
    if alen != blen {
        assert(a@ != b@);
        return false;
    }
    let mut i: usize = 0;
    while i < alen
        invariant
            i <= alen,
            alen == a@.len(),
            alen == b@.len(),
            forall|j: int| 0 <= j < i ==> a@[j] == b@[j],
        decreases alen - i,
    {
        if a.get_char(i) != b.get_char(i) {
            assert(a@ != b@);
            return false;
        }
        i = i + 1;
    }
    assert(a@ =~= b@);
    true
}

/// Index of the first occurrence of `c` in `s`, or `s.len()` when absent.
pub open spec fn find_first(s: Seq<char>, c: char) -> int
    decreases s.len(),
{
    if s.len() == 0 {
        0
    } else if s[0] == c {
        0
    } else {
        1 + find_first(s.drop_first(), c)
    }
}

pub proof fn lemma_find_first(s: Seq<char>, c: char)
    ensures
        0 <= find_first(s, c) <= s.len(),
        find_first(s, c) < s.len() ==> s[find_first(s, c)] == c,
        forall|j: int| 0 <= j < find_first(s, c) ==> s[j] != c,
    decreases s.len(),
{
    if s.len() > 0 && s[0] != c {
        lemma_find_first(s.drop_first(), c);
        assert forall|j: int| 0 <= j < find_first(s, c) implies s[j] != c by {
            if j >= 1 {
                assert(s.drop_first()[j - 1] == s[j]);
                assert(j - 1 < find_first(s.drop_first(), c));
            }
        }
    }
}

/// A character that occurs in `s` is found before the end.
pub proof fn lemma_count_find(s: Seq<char>, c: char)
    ensures
        count_char(s, c) > 0 ==> find_first(s, c) < s.len(),
        count_char(s, c) >= 0,
    decreases s.len(),
{
    if s.len() > 0 {
        lemma_count_find(s.drop_first(), c);
    }
}

/// How often `c` occurs in `s`.
pub open spec fn count_char(s: Seq<char>, c: char) -> int
    decreases s.len(),
{
    if s.len() == 0 {
        0
    } else {
        count_char(s.drop_first(), c) + if s[0] == c {
            1int
        } else {
            0int
        }
    }
}

/// Finds the position of `c` and how often it occurs.
pub fn scan_char(s: &str, c: char) -> (r: (usize, usize))
    ensures
        r.0 as int == find_first(s@, c),
        r.1 as int == count_char(s@, c),
{
    let len = s.unicode_len();
    let mut i: usize = 0;
    let mut first: usize = len;
    let mut cnt: usize = 0;
    while i < len
        invariant
            i <= len,
            len == s@.len(),
            cnt <= i,
            cnt as int == count_char(s@.take(i as int), c),
            cnt == 0 ==> first == len && forall|j: int| 0 <= j < i ==> s@[j] != c,
            cnt > 0 ==> first as int == find_first(s@, c),
        decreases len - i,
    {
        let ch = s.get_char(i);
        proof {
            lemma_take_step(s@, i as int, c);
        }
        if ch == c {
            if cnt == 0 {
                first = i;
                proof {
                    lemma_find_first_hit(s@, i as int, c);
                }
            }
            cnt = cnt + 1;
        }
        i = i + 1;
    }
    proof {
        assert(s@.take(len as int) =~= s@);
        if cnt == 0 {
            lemma_find_first(s@, c);
            if find_first(s@, c) < s@.len() {
                assert(s@[find_first(s@, c)] == c);
            }
            assert(find_first(s@, c) == len as int);
        }
    }
    (first, cnt)
}

proof fn lemma_take_step(s: Seq<char>, i: int, c: char)
    requires
        0 <= i < s.len(),
    ensures
        count_char(s.take(i + 1), c) == count_char(s.take(i), c) + if s[i] == c {
            1int
        } else {
            0int
        },
    decreases i,
{
    let t1 = s.take(i + 1);
    let t0 = s.take(i);
    if i == 0 {
        assert(t1 =~= seq![s[0]]);
        assert(t0 =~= Seq::<char>::empty());
        assert(t1.drop_first() =~= Seq::<char>::empty());
        assert(count_char(t1, c) == count_char(t1.drop_first(), c) + if t1[0] == c {
            1int
        } else {
            0int
        });
        assert(t1[0] == s[0]);
    } else {
        assert(t1.drop_first() =~= s.drop_first().take(i));
        assert(t0.drop_first() =~= s.drop_first().take(i - 1));
        assert(t1[0] == s[0]);
        assert(t0[0] == s[0]);
        lemma_take_step(s.drop_first(), i - 1, c);
        assert(s.drop_first()[i - 1] == s[i]);
        assert(count_char(t1, c) == count_char(t1.drop_first(), c) + if t1[0] == c {
            1int
        } else {
            0int
        });
        assert(count_char(t0, c) == count_char(t0.drop_first(), c) + if t0[0] == c {
            1int
        } else {
            0int
        });
    }
}

proof fn lemma_find_first_hit(s: Seq<char>, i: int, c: char)
    requires
        0 <= i < s.len(),
        s[i] == c,
        forall|j: int| 0 <= j < i ==> s[j] != c,
    ensures
        find_first(s, c) == i,
    decreases i,
{
    if i > 0 {
        assert(forall|j: int|
            0 <= j < i - 1 ==> s.drop_first()[j] != c) by {
            assert(forall|j: int| 0 <= j < s.len() - 1 ==> s.drop_first()[j] == s[j + 1]);
        }
        assert(s.drop_first()[i - 1] == c);
        lemma_find_first_hit(s.drop_first(), i - 1, c);
    }
}

/// An optional leading '-' or '+': whether the value is negated, and the
/// characters that follow the sign.
pub open spec fn strip_sign(s: Seq<char>) -> (bool, Seq<char>) {
    if s.len() > 0 && s[0] == '-' {
        (true, s.drop_first())
    } else if s.len() > 0 && s[0] == '+' {
        (false, s.drop_first())
    } else {
        (false, s)
    }
}

/// Meaning of a plain decimal integer: an optional sign followed by one to
/// eighteen digits; anything else carries no value.
pub open spec fn spec_parse_int(s: Seq<char>) -> Option<int> {
    let body = strip_sign(s).1;
    if 1 <= body.len() <= MAX_INT_DIGITS && all_digits(body) {
        if strip_sign(s).0 {
            Some(-digits_val(body))
        } else {
            Some(digits_val(body))
        }
    } else {
        None
    }
}

/// Milli value of a fraction written after the decimal point: the first
/// three digits, padded with zeros; further digits are dropped.
pub open spec fn frac_milli(fp: Seq<char>) -> int
    recommends
        all_digits(fp),
{
    if fp.len() == 0 {
        0
    } else if fp.len() == 1 {
        digit_char_val(fp[0]) * 100
    } else if fp.len() == 2 {
        digit_char_val(fp[0]) * 100 + digit_char_val(fp[1]) * 10
    } else {
        digit_char_val(fp[0]) * 100 + digit_char_val(fp[1]) * 10 + digit_char_val(fp[2])
    }
}

/// Meaning of a decimal number as a milli fixed-point value: an optional
/// sign, an integer part of at most fifteen digits, and an optional '.'
/// followed by fractional digits, at least one digit in all; fractional
/// digits beyond the third are dropped.
pub open spec fn spec_parse_milli(s: Seq<char>) -> Option<int> {
    let body = strip_sign(s).1;
    let dot = find_first(body, '.');
    let ip = body.take(dot);
    let fp = if dot < body.len() {
        body.skip(dot + 1)
    } else {
        Seq::<char>::empty()
    };
    if all_digits(ip) && all_digits(fp) && ip.len() + fp.len() >= 1 && ip.len()
        <= MAX_MILLI_INT_DIGITS {
        let mag = digits_val(ip) * 1000 + frac_milli(fp);
        if strip_sign(s).0 {
            Some(-mag)
        } else {
            Some(mag)
        }
    } else {
        None
    }
}

pub open spec fn spec_parse_bool(s: Seq<char>) -> Option<bool> {
    if s == "true"@ {
        Some(true)
    } else if s == "false"@ {
        Some(false)
    } else {
        None
    }
}

pub fn check_all_digits(s: &str) -> (b: bool)
    ensures
        b == all_digits(s@),
{
    let len = s.unicode_len();
    let mut i: usize = 0;
    while i < len
        invariant
            i <= len,
            len == s@.len(),
            forall|j: int| 0 <= j < i ==> is_digit_char(#[trigger] s@[j]),
        decreases len - i,
    {
        let x = s.get_char(i) as u32;
        if x < 48 || x > 57 {
            assert(!is_digit_char(s@[i as int]));
            return false;
        }
        i = i + 1;
    }
    true
}

/// The value of a digit string of at most `max_len` digits; `None` when a
/// character is no digit or the string is longer.
pub fn digits_value(s: &str, max_len: usize) -> (r: Option<i64>)
    requires
        max_len <= MAX_INT_DIGITS,
    ensures
        r is Some <==> (all_digits(s@) && s@.len() <= max_len as int),
        r is Some ==> r->0 as int == digits_val(s@) && 0 <= r->0,
{
    let len = s.unicode_len();
    if len > max_len {
        return None;
    }
    if !check_all_digits(s) {
        return None;
    }
    proof {
        reveal_with_fuel(pow10, 20);
        assert(pow10(18) == 1_000_000_000_000_000_000);
    }
    let mut acc: i64 = 0;
    let mut i: usize = 0;
    while i < len
        invariant
            i <= len,
            len == s@.len(),
            len <= 18,
            all_digits(s@),
            acc as int == digits_val(s@.take(i as int)),
            0 <= (acc as int) < pow10(i as nat),
            pow10(18) == 1_000_000_000_000_000_000,
        decreases len - i,
    {
        let c = s.get_char(i);
        let d = (c as u32) - 48;
        proof {
            assert(is_digit_char(s@[i as int]));
            let t1 = s@.take(i + 1);
            let t0 = s@.take(i as int);
            assert(t1.drop_last() =~= t0);
            assert(t1.last() == s@[i as int]);
            assert(all_digits(t0));
            lemma_pow10_mono((i + 1) as nat, 18nat);
            assert(pow10((i + 1) as nat) == 10 * pow10(i as nat));
        }
        acc = acc * 10 + (d as i64);
        i = i + 1;
    }
    proof {
        assert(s@.take(len as int) =~= s@);
    }
    Some(acc)
}

/// Milli value of the fractional digits: the first three, zero-padded.
fn frac_value(fp: &str) -> (v: i64)
    requires
        all_digits(fp@),
    ensures
        v as int == frac_milli(fp@),
        0 <= v < 1000,
{
    let len = fp.unicode_len();
    if len == 0 {
        return 0;
    }
    assert(is_digit_char(fp@[0]));
    let d0 = ((fp.get_char(0) as u32) - 48) as i64;
    if len == 1 {
        return d0 * 100;
    }
    assert(is_digit_char(fp@[1]));
    let d1 = ((fp.get_char(1) as u32) - 48) as i64;
    if len == 2 {
        return d0 * 100 + d1 * 10;
    }
    assert(is_digit_char(fp@[2]));
    let d2 = ((fp.get_char(2) as u32) - 48) as i64;
    d0 * 100 + d1 * 10 + d2
}

/// Splits an optional leading sign off `s`.
fn strip_sign_str<'a>(s: &'a str) -> (r: (bool, &'a str))
    ensures
        r.0 == strip_sign(s@).0,
        r.1@ == strip_sign(s@).1,
{
    let len = s.unicode_len();
    if len == 0 {
        return (false, s);
    }
    let c0 = s.get_char(0);
    if c0 == '-' {
        let body = s.substring_char(1, len);
        assert(body@ =~= s@.drop_first());
        (true, body)
    } else if c0 == '+' {
        let body = s.substring_char(1, len);
        assert(body@ =~= s@.drop_first());
        (false, body)
    } else {
        assert(s@ =~= strip_sign(s@).1);
        (false, s)
    }
}

/// Parses a plain decimal integer.
pub fn parse_int_str(s: &str) -> (r: Option<i64>)
    ensures
        r is Some <==> spec_parse_int(s@) is Some,
        r is Some ==> r->0 as int == spec_parse_int(s@)->0,
{
    let (neg, body) = strip_sign_str(s);
    let blen = body.unicode_len();
    if blen < 1 {
        return None;
    }
    match digits_value(body, MAX_INT_DIGITS) {
        None => None,
        Some(mag) => {
            if neg {
                Some(-mag)
            } else {
                Some(mag)
            }
        },
    }
}

/// Parses a decimal number into a milli fixed-point value; fractional
/// digits beyond the third are dropped.
pub fn parse_milli_str(s: &str) -> (r: Option<i64>)
    ensures
        r is Some <==> spec_parse_milli(s@) is Some,
        r is Some ==> r->0 as int == spec_parse_milli(s@)->0,
{
    let (neg, body) = strip_sign_str(s);
    let blen = body.unicode_len();
    let (dot, _cnt) = scan_char(body, '.');
    proof {
        lemma_find_first(body@, '.');
    }
    let ip = body.substring_char(0, dot);
    assert(ip@ =~= body@.take(dot as int));
    let fp = if dot < blen {
        let f = body.substring_char(dot + 1, blen);
        assert(f@ =~= body@.skip(dot as int + 1));
        f
    } else {
        let f = body.substring_char(blen, blen);
        assert(f@ =~= Seq::<char>::empty());
        f
    };
    if !check_all_digits(fp) {
        return None;
    }
    let iplen = ip.unicode_len();
    let fplen = fp.unicode_len();
    if iplen + fplen < 1 {
        return None;
    }
    match digits_value(ip, MAX_MILLI_INT_DIGITS) {
        None => None,
        Some(ipval) => {
            proof {
                reveal_with_fuel(pow10, 20);
                assert(pow10(15) == 1_000_000_000_000_000);
                lemma_digits_val_bound(ip@);
                lemma_pow10_mono(ip@.len() as nat, 15nat);
            }
            let frac = frac_value(fp);
            let mag = ipval * 1000 + frac;
            if neg {
                Some(-mag)
            } else {
                Some(mag)
            }
        },
    }
}

/// Parses "true" or "false".
pub fn parse_bool_str(s: &str) -> (r: Option<bool>)
    ensures
        r == spec_parse_bool(s@),
{
    if str_eq_chars(s, "true") {
        Some(true)
    } else if str_eq_chars(s, "false") {
        Some(false)
    } else {
        None
    }
}

/// Codec law: the printed form of an integer parses back to the same value,
/// for every magnitude the parser accepts.
pub proof fn lemma_int_round_trip(n: int)
    requires
        -pow10(MAX_INT_DIGITS as nat) < n < pow10(MAX_INT_DIGITS as nat),
    ensures
        spec_parse_int(spec_int_chars(n)) == Some(n),
{
    let s = spec_int_chars(n);
    if n >= 0 {
        lemma_nat_chars_val(n);
        let body = spec_nat_chars(n);
        assert(is_digit_char(body[0]));
        assert(body[0] != '-' && body[0] != '+');
        assert(strip_sign(s).1 == body);
        lemma_len_le_18(n);
    } else {
        lemma_nat_chars_val(-n);
        let body = spec_nat_chars(-n);
        assert(s[0] == '-');
        assert(s.drop_first() =~= body);
        lemma_len_le_18(-n);
    }
}

proof fn lemma_len_le_18(n: int)
    requires
        0 <= n < pow10(MAX_INT_DIGITS as nat),
    ensures
        spec_nat_chars(n).len() <= MAX_INT_DIGITS,
{
    lemma_nat_chars_val(n);
    let l = spec_nat_chars(n).len();
    if l > 18 {
        assert(pow10((l - 1) as nat) <= n);
        lemma_pow10_mono(18nat, (l - 1) as nat);
    }
}

/// Codec law: the printed form of a milli value parses back to the same
/// value, for every magnitude the parser accepts.
pub proof fn lemma_milli_round_trip(v: int)
    requires
        -1000 * pow10(MAX_MILLI_INT_DIGITS as nat) < v < 1000 * pow10(
            MAX_MILLI_INT_DIGITS as nat,
        ),
    ensures
        spec_parse_milli(spec_milli_chars(v)) == Some(v),
{
    let s = spec_milli_chars(v);
    let m = if v < 0 {
        -v
    } else {
        v
    };
    lemma_nat_chars_val(m / 1000);
    let ipc = spec_nat_chars(m / 1000);
    let mag = spec_milli_mag_chars(m);
    let fpc = seq![
        spec_digit_char(m % 1000 / 100),
        spec_digit_char(m % 100 / 10),
        spec_digit_char(m % 10),
    ];
    assert(mag =~= ipc + seq!['.'] + fpc);
    let body = strip_sign(s).1;
    if v < 0 {
        assert(s[0] == '-');
        assert(s.drop_first() =~= mag);
    } else {
        assert(is_digit_char(mag[0]));
        assert(mag[0] != '-' && mag[0] != '+');
    }
    assert(body == mag);
    // the dot stands right after the integer digits
    assert(mag[ipc.len() as int] == '.');
    assert forall|j: int| 0 <= j < ipc.len() implies mag[j] != '.' by {
        assert(mag[j] == ipc[j]);
        assert(is_digit_char(ipc[j]));
    }
    lemma_find_first_hit(mag, ipc.len() as int, '.');
    assert(find_first(body, '.') == ipc.len());
    assert(body.take(ipc.len() as int) =~= ipc);
    assert(body.skip(ipc.len() as int + 1) =~= fpc);
    assert(all_digits(fpc)) by {
        assert(is_digit_char(fpc[0]));
        assert(is_digit_char(fpc[1]));
        assert(is_digit_char(fpc[2]));
    }
    assert(frac_milli(fpc) == m % 1000 / 100 * 100 + m % 100 / 10 * 10 + m % 10);
    assert(m % 1000 / 100 * 100 + m % 100 / 10 * 10 + m % 10 == m % 1000) by {
        lemma_mod_digit_split(m);
    }
    assert(ipc.len() <= MAX_MILLI_INT_DIGITS) by {
        lemma_nat_chars_val(m / 1000);
        let l = ipc.len();
        if l > 15 {
            assert(pow10((l - 1) as nat) <= m / 1000);
            lemma_pow10_mono(15nat, (l - 1) as nat);
            assert(pow10(15nat) <= m / 1000);
        }
    }
    assert(digits_val(ipc) * 1000 + frac_milli(fpc) == m / 1000 * 1000 + m % 1000);
}

proof fn lemma_mod_digit_split(m: int)
    requires
        m >= 0,
    ensures
        m % 1000 / 100 * 100 + m % 100 / 10 * 10 + m % 10 == m % 1000,
{
    let r = m % 1000;
    assert(r % 100 == m % 100) by (nonlinear_arith)
        requires
            m >= 0,
            r == m % 1000,
    ;
    assert(r % 100 % 10 == m % 10) by (nonlinear_arith)
        requires
            m >= 0,
            r == m % 1000,
            r % 100 == m % 100,
    ;
    assert(r / 100 * 100 + r % 100 == r);
    assert(r % 100 / 10 * 10 + r % 100 % 10 == r % 100);
}

} // verus!
