//! Decimal integers: reading them as `str::parse` does, and writing them as `to_string` does.
use vstd::prelude::*;

verus! {

/// Why a text is not a decimal integer of the wanted type.
#[derive(Debug, Clone, Copy, PartialEq, Eq)]
pub enum IntErrorKind {
    /// The text is empty.
    Empty,
    /// The text holds a character that is not a digit where a digit belongs.
    InvalidDigit,
    /// The number is above the type's maximum.
    PosOverflow,
    /// The number is below the type's minimum.
    NegOverflow,
}

pub open spec fn is_digit(c: char) -> bool {
    '0' <= c && c <= '9'
}

pub open spec fn digit_value(c: char) -> int {
    c as int - '0' as int
}

/// Reading the digits `ds` from the left, starting from `acc`; every step must stay in `lo..=hi`.
pub open spec fn scan_digits(ds: Seq<char>, acc: int, negative: bool, lo: int, hi: int) -> Result<
    int,
    IntErrorKind,
>
    decreases ds.len(),
{
    if ds.len() == 0 {
        Ok(acc)
    } else if !is_digit(ds[0]) {
        Err(IntErrorKind::InvalidDigit)
    } else if negative {
        let n = acc * 10 - digit_value(ds[0]);
        if n < lo {
            Err(IntErrorKind::NegOverflow)
        } else {
            scan_digits(ds.drop_first(), n, negative, lo, hi)
        }
    } else {
        let n = acc * 10 + digit_value(ds[0]);
        if n > hi {
            Err(IntErrorKind::PosOverflow)
        } else {
            scan_digits(ds.drop_first(), n, negative, lo, hi)
        }
    }
}

/// The value of the decimal text `s` in an integer type with range `lo..=hi`, or why it has none.
/// A leading `+` is allowed; a leading `-` only where `signed` holds.
pub open spec fn parse_int_spec(s: Seq<char>, lo: int, hi: int, signed: bool) -> Result<
    int,
    IntErrorKind,
> {
    if s.len() == 0 {
        Err(IntErrorKind::Empty)
    } else if s.len() == 1 && (s[0] == '+' || s[0] == '-') {
        Err(IntErrorKind::InvalidDigit)
    } else if s[0] == '+' {
        scan_digits(s.drop_first(), 0, false, lo, hi)
    } else if s[0] == '-' && signed {
        scan_digits(s.drop_first(), 0, true, lo, hi)
    } else {
        scan_digits(s, 0, false, lo, hi)
    }
}

/// `parse_int_spec` for `i32`.
pub open spec fn parse_i32_spec(s: Seq<char>) -> Result<int, IntErrorKind> {
    parse_int_spec(s, i32::MIN as int, i32::MAX as int, true)
}

/// `parse_int_spec` for `u8`.
pub open spec fn parse_u8_spec(s: Seq<char>) -> Result<int, IntErrorKind> {
    parse_int_spec(s, 0, u8::MAX as int, false)
}

fn digit_of(c: char) -> (r: Option<i64>)
    ensures
        r matches Some(d) ==> is_digit(c) && d == digit_value(c),
        r is None ==> !is_digit(c),
{
    if '0' <= c && c <= '9' {
        Some((c as u32 - '0' as u32) as i64)
    } else {
        None
    }
}

fn scan_exec(s: &[char], from: usize, negative: bool, lo: i64, hi: i64) -> (r: Result<
    i64,
    IntErrorKind,
>)
    requires
        from <= s@.len(),
        i32::MIN <= lo <= 0 <= hi <= i32::MAX,
    ensures
        r matches Ok(v) ==> lo <= v <= hi,
        match r {
            Ok(v) => scan_digits(s@.skip(from as int), 0, negative, lo as int, hi as int) == Ok::<
                int,
                IntErrorKind,
            >(v as int),
            Err(e) => scan_digits(s@.skip(from as int), 0, negative, lo as int, hi as int) == Err::<
                int,
                IntErrorKind,
            >(e),
        },
{
    let mut acc: i64 = 0;
    let mut i: usize = from;
    while i < s.len()
        invariant
            from <= i <= s@.len(),
            negative ==> lo <= acc <= 0,
            !negative ==> 0 <= acc <= hi,
            i32::MIN <= lo <= 0 <= hi <= i32::MAX,
            scan_digits(s@.skip(from as int), 0, negative, lo as int, hi as int) == scan_digits(
                s@.skip(i as int),
                acc as int,
                negative,
                lo as int,
                hi as int,
            ),
        decreases s.len() - i,
    {
        assert(s@.skip(i as int)[0] == s@[i as int]);
        assert(s@.skip(i as int).drop_first() == s@.skip(i + 1));
        match digit_of(s[i]) {
            None => {
                return Err(IntErrorKind::InvalidDigit);
            },
            Some(d) => {
                if negative {
                    let n = acc * 10 - d;
                    if n < lo {
                        return Err(IntErrorKind::NegOverflow);
                    }
                    acc = n;
                } else {
                    let n = acc * 10 + d;
                    if n > hi {
                        return Err(IntErrorKind::PosOverflow);
                    }
                    acc = n;
                }
            },
        }
        i += 1;
    }
    assert(s@.skip(i as int).len() == 0);
    Ok(acc)
}

fn parse_int_exec(s: &[char], lo: i64, hi: i64, signed: bool) -> (r: Result<i64, IntErrorKind>)
    requires
        i32::MIN <= lo <= 0 <= hi <= i32::MAX,
    ensures
        r matches Ok(v) ==> lo <= v <= hi,
        match r {
            Ok(v) => parse_int_spec(s@, lo as int, hi as int, signed) == Ok::<int, IntErrorKind>(
                v as int,
            ),
            Err(e) => parse_int_spec(s@, lo as int, hi as int, signed) == Err::<int, IntErrorKind>(
                e,
            ),
        },
{
    if s.len() == 0 {
        return Err(IntErrorKind::Empty);
    }
    if s.len() == 1 && (s[0] == '+' || s[0] == '-') {
        return Err(IntErrorKind::InvalidDigit);
    }
    assert(s@.skip(1) == s@.drop_first());
    assert(s@.skip(0) == s@);
    if s[0] == '+' {
        scan_exec(s, 1, false, lo, hi)
    } else if s[0] == '-' && signed {
        scan_exec(s, 1, true, lo, hi)
    } else {
        scan_exec(s, 0, false, lo, hi)
    }
}

/// Reads `s` as an `i32`.
pub fn parse_i32(s: &[char]) -> (r: Result<i32, IntErrorKind>)
    ensures
        match r {
            Ok(v) => parse_i32_spec(s@) == Ok::<int, IntErrorKind>(v as int),
            Err(e) => parse_i32_spec(s@) == Err::<int, IntErrorKind>(e),
        },
{
    match parse_int_exec(s, i32::MIN as i64, i32::MAX as i64, true) {
        Ok(v) => Ok(v as i32),
        Err(e) => Err(e),
    }
}

/// Reads `s` as a `u8`.
pub fn parse_u8(s: &[char]) -> (r: Result<u8, IntErrorKind>)
    ensures
        match r {
            Ok(v) => parse_u8_spec(s@) == Ok::<int, IntErrorKind>(v as int),
            Err(e) => parse_u8_spec(s@) == Err::<int, IntErrorKind>(e),
        },
{
    match parse_int_exec(s, 0, u8::MAX as i64, false) {
        Ok(v) => Ok(v as u8),
        Err(e) => Err(e),
    }
}

/// The character of the decimal digit `d`.
pub open spec fn digit_char(d: int) -> char {
    (d + '0' as int) as char
}

/// The decimal digits of `n`, most significant first, without leading zeros.
pub open spec fn decimal(n: nat) -> Seq<char>
    decreases n,
{
    if n < 10 {
        seq![digit_char(n as int)]
    } else {
        decimal(n / 10).push(digit_char((n % 10) as int))
    }
}

/// The decimal text of `n`, with a `-` in front of a negative number.
pub open spec fn int_text(n: int) -> Seq<char> {
    if n < 0 {
        seq!['-'] + decimal((-n) as nat)
    } else {
        decimal(n as nat)
    }
}

fn digit_to_char(d: u32) -> (c: char)
    requires
        d < 10,
    ensures
        c == digit_char(d as int),
{
    ((d as u8) + 48u8) as char
}

fn push_decimal(n: u32, out: &mut Vec<char>)
    ensures
        final(out)@ == old(out)@ + decimal(n as nat),
    decreases n,
{
    if n >= 10 {
        push_decimal(n / 10, out);
    }
    let c = digit_to_char(n % 10);
    out.push(c);
}

/// Writes `n` in decimal.
pub fn format_i32(n: i32) -> (r: String)
    ensures
        r@ == int_text(n as int),
{
    let mut v: Vec<char> = Vec::new();
    let m: u32 = if n < 0 {
        v.push('-');
        (-(n as i64)) as u32
    } else {
        n as u32
    };
    push_decimal(m, &mut v);
    crate::text::from_chars(&v, 0, v.len())
}

/// Writes `n` in decimal.
pub fn format_u8(n: u8) -> (r: String)
    ensures
        r@ == int_text(n as int),
{
    let mut v: Vec<char> = Vec::new();
    push_decimal(n as u32, &mut v);
    crate::text::from_chars(&v, 0, v.len())
}

/// Every character of `s` is a decimal digit.
pub open spec fn all_digits(s: Seq<char>) -> bool {
    forall|k: int| 0 <= k < s.len() ==> is_digit(#[trigger] s[k])
}

/// The number that the digits `s` denote.
pub open spec fn digits_value(s: Seq<char>) -> int
    decreases s.len(),
{
    if s.len() == 0 {
        0
    } else {
        digits_value(s.drop_last()) * 10 + digit_value(s.last())
    }
}

proof fn lemma_digit_char(d: int)
    requires
        0 <= d < 10,
    ensures
        is_digit(digit_char(d)),
        digit_value(digit_char(d)) == d,
{
}

pub proof fn lemma_decimal(n: nat)
    ensures
        all_digits(decimal(n)),
        digits_value(decimal(n)) == n,
        decimal(n).len() >= 1,
    decreases n,
{
    if n < 10 {
        lemma_digit_char(n as int);
        assert(decimal(n).drop_last() =~= Seq::<char>::empty());
        assert(decimal(n).last() == digit_char(n as int));
        assert(digits_value(Seq::<char>::empty()) == 0);
    } else {
        lemma_decimal(n / 10);
        lemma_digit_char((n % 10) as int);
        let s = decimal(n);
        assert(s.drop_last() == decimal(n / 10));
        assert(s.last() == digit_char((n % 10) as int));
        assert(digits_value(s) == digits_value(decimal(n / 10)) * 10 + digit_value(s.last()));
        assert((n / 10) * 10 + n % 10 == n);
        assert forall|k: int| 0 <= k < s.len() implies is_digit(#[trigger] s[k]) by {
            if k < s.len() - 1 {
                assert(s[k] == decimal(n / 10)[k]);
            }
        }
    }
}

proof fn lemma_prefix_value(s: Seq<char>, j: int)
    requires
        all_digits(s),
        0 <= j <= s.len(),
    ensures
        0 <= digits_value(s.take(j)) <= digits_value(s),
    decreases s.len() - j,
{
    if j == s.len() {
        assert(s.take(j) == s);
        lemma_value_nonneg(s);
    } else {
        lemma_prefix_value(s, j + 1);
        assert(s.take(j + 1).drop_last() == s.take(j));
        assert(is_digit(s[j]));
        lemma_value_nonneg(s.take(j));
    }
}

proof fn lemma_value_nonneg(s: Seq<char>)
    requires
        all_digits(s),
    ensures
        digits_value(s) >= 0,
    decreases s.len(),
{
    if s.len() > 0 {
        assert(all_digits(s.drop_last()));
        assert(is_digit(s[s.len() - 1]));
        lemma_value_nonneg(s.drop_last());
    }
}

proof fn lemma_scan_digits(s: Seq<char>, i: int, negative: bool, lo: int, hi: int)
    requires
        all_digits(s),
        0 <= i <= s.len(),
        !negative ==> digits_value(s) <= hi,
        negative ==> -digits_value(s) >= lo,
    ensures
        scan_digits(s.skip(i), if negative {
            -digits_value(s.take(i))
        } else {
            digits_value(s.take(i))
        }, negative, lo, hi) == Ok::<int, IntErrorKind>(if negative {
            -digits_value(s)
        } else {
            digits_value(s)
        }),
    decreases s.len() - i,
{
    if i == s.len() {
        assert(s.take(i) == s);
        assert(s.skip(i).len() == 0);
    } else {
        lemma_scan_digits(s, i + 1, negative, lo, hi);
        lemma_prefix_value(s, i + 1);
        assert(s.take(i + 1).drop_last() == s.take(i));
        assert(s.take(i + 1).last() == s[i]);
        assert(s.skip(i)[0] == s[i]);
        assert(s.skip(i).drop_first() == s.skip(i + 1));
        assert(is_digit(s[i]));
    }
}

/// What `int_text` writes, `parse_int_spec` reads back: writing a number and reading it
/// again gives the number, for every number in the type's range.
pub proof fn lemma_parse_int_text(n: int, lo: int, hi: int, signed: bool)
    requires
        lo <= n <= hi,
        n < 0 ==> signed,
    ensures
        parse_int_spec(int_text(n), lo, hi, signed) == Ok::<int, IntErrorKind>(n),
{
    if n < 0 {
        let m = (-n) as nat;
        lemma_decimal(m);
        let s = int_text(n);
        assert(s.drop_first() == decimal(m));
        assert(s[0] == '-');
        lemma_scan_digits(decimal(m), 0, true, lo, hi);
        assert(decimal(m).take(0) =~= Seq::<char>::empty());
        assert(decimal(m).skip(0) == decimal(m));
    } else {
        let m = n as nat;
        lemma_decimal(m);
        let s = decimal(m);
        assert(is_digit(s[0]));
        lemma_scan_digits(s, 0, false, lo, hi);
        assert(s.take(0) =~= Seq::<char>::empty());
        assert(s.skip(0) == s);
    }
}

} // verus!
