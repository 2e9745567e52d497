//! Character-level text helpers: decimal numbers in both directions, the
//! trimming of white space and ASCII case folding.

use vstd::prelude::*;
use vstd::string::*;
use crate::trusted::char_is_white_space;

verus! {

/// The decimal digit character of `d`.
pub open spec fn digit_char(d: nat) -> char {
    ((d + 48) as u8) as char
}

/// The decimal representation of `n`, without leading zeros.
pub open spec fn decimal(n: nat) -> Seq<char>
    decreases n,
{
    if n < 10 {
        seq![digit_char(n)]
    } else {
        decimal(n / 10).push(digit_char(n % 10))
    }
}

/// The number of bytes of the UTF-8 encoding of `s`, which is what
/// `str::len` returns.
pub open spec fn byte_len(s: Seq<char>) -> nat {
    vstd::utf8::encode_utf8(s).len()
}

fn digit(d: u64) -> (c: char)
    requires
        d < 10,
    ensures
        c == digit_char(d as nat),
{
    let b: u8 = (d as u8) + 48;
    b as char
}

/// Writes `n` in decimal, as `n.to_string()` does.
pub fn decimal_string(n: u64) -> (res: String)
    ensures
        res@ == decimal(n as nat),
    decreases n,
{
    if n < 10 {
        let mut s = String::new();
        s.push(digit(n));
        s
    } else {
        let mut s = decimal_string(n / 10);
        s.push(digit(n % 10));
        s
    }
}


/// Whether `c` is one of the ASCII digits `0` to `9`.
pub open spec fn is_digit(c: char) -> bool {
    '0' <= c && c <= '9'
}

/// The value of the digit character `c`.
pub open spec fn digit_value(c: char) -> nat {
    ((c as int) - 48) as nat
}

/// Whether every character of `s` is an ASCII digit.
pub open spec fn all_digits(s: Seq<char>) -> bool {
    forall|i: int| 0 <= i < s.len() ==> #[trigger] is_digit(s[i])
}

/// The number that the digit string `s` denotes in base ten.
pub open spec fn digits_value(s: Seq<char>) -> nat
    decreases s.len(),
{
    if s.len() == 0 {
        0
    } else {
        digits_value(s.drop_last()) * 10 + digit_value(s.last())
    }
}

/// Why `str::parse` refuses a text as an integer, as the kinds of
/// `std::num::IntErrorKind` name them.
#[derive(Debug, Clone, Copy, PartialEq, Eq, Structural)]
pub enum NumberErrorKind {
    /// The text is empty.
    Empty,
    /// The text holds a character that is not a digit where one is needed.
    InvalidDigit,
    /// The number is too large for the type.
    PosOverflow,
    /// The number is too small for the type.
    NegOverflow,
}

impl NumberErrorKind {
    /// The text of a `ParseIntError` of this kind.
    pub open spec fn spec_text(self) -> Seq<char> {
        match self {
            NumberErrorKind::Empty => "cannot parse integer from empty string"@,
            NumberErrorKind::InvalidDigit => "invalid digit found in string"@,
            NumberErrorKind::PosOverflow => "number too large to fit in target type"@,
            NumberErrorKind::NegOverflow => "number too small to fit in target type"@,
        }
    }

    /// The text of a `ParseIntError` of this kind, as its `Display` shows it.
    pub fn text(self) -> (res: &'static str)
        ensures
            res@ == self.spec_text(),
    {
        match self {
            NumberErrorKind::Empty => "cannot parse integer from empty string",
            NumberErrorKind::InvalidDigit => "invalid digit found in string",
            NumberErrorKind::PosOverflow => "number too large to fit in target type",
            NumberErrorKind::NegOverflow => "number too small to fit in target type",
        }
    }
}

/// The first fault met when the digits `d` are read from left to right
/// with a largest allowed value `max`: a character that is not a digit, or
/// a prefix whose value exceeds `max`. `None` when there is none.
pub open spec fn digit_fault(d: Seq<char>, max: nat) -> Option<NumberErrorKind>
    decreases d.len(),
{
    if d.len() == 0 {
        None
    } else {
        match digit_fault(d.drop_last(), max) {
            Some(k) => Some(k),
            None => if !is_digit(d.last()) {
                Some(NumberErrorKind::InvalidDigit)
            } else if digits_value(d) > max {
                Some(NumberErrorKind::PosOverflow)
            } else {
                None
            },
        }
    }
}

/// The digits of an unsigned number: `s` without one leading `+`.
pub open spec fn unsigned_digits(s: Seq<char>) -> Seq<char> {
    if s.len() > 0 && s[0] == '+' {
        s.drop_first()
    } else {
        s
    }
}

/// What `str::parse` gives for an unsigned integer type whose largest value
/// is `max`: an empty text and a lone sign are refused; then, after one
/// optional `+`, the digits are read from left to right, and the first
/// non-digit or the first digit that takes the value past `max` gives the
/// error.
pub open spec fn unsigned_parse(s: Seq<char>, max: nat) -> Result<nat, NumberErrorKind> {
    if s.len() == 0 {
        Err(NumberErrorKind::Empty)
    } else if s.len() == 1 && (s[0] == '+' || s[0] == '-') {
        Err(NumberErrorKind::InvalidDigit)
    } else {
        match digit_fault(unsigned_digits(s), max) {
            Some(e) => Err(e),
            None => Ok(digits_value(unsigned_digits(s))),
        }
    }
}

/// What `str::parse::<i32>` gives: as `unsigned_parse` for the positive
/// range, and after a leading `-` the digits are read against the size of
/// `i32::MIN`, whose overflow is `NegOverflow`.
pub open spec fn signed_i32_parse(s: Seq<char>) -> Result<int, NumberErrorKind> {
    if s.len() == 0 {
        Err(NumberErrorKind::Empty)
    } else if s.len() == 1 && (s[0] == '+' || s[0] == '-') {
        Err(NumberErrorKind::InvalidDigit)
    } else if s[0] == '-' {
        match digit_fault(s.drop_first(), 0x8000_0000) {
            Some(NumberErrorKind::PosOverflow) => Err(NumberErrorKind::NegOverflow),
            Some(e) => Err(e),
            None => Ok(-(digits_value(s.drop_first()) as int)),
        }
    } else {
        match unsigned_parse(s, 0x7fff_ffff) {
            Ok(v) => Ok(v as int),
            Err(e) => Err(e),
        }
    }
}

/// The number that `unsigned_parse` reads, if it reads one.
pub open spec fn parse_unsigned(s: Seq<char>, max: nat) -> Option<nat> {
    match unsigned_parse(s, max) {
        Ok(v) => Some(v),
        Err(_) => None,
    }
}

/// The number that `signed_i32_parse` reads, if it reads one.
pub open spec fn parse_signed_i32(s: Seq<char>) -> Option<int> {
    match signed_i32_parse(s) {
        Ok(v) => Some(v),
        Err(_) => None,
    }
}

proof fn lemma_digits_value_prefix(s: Seq<char>, k: int)
    requires
        0 <= k <= s.len(),
    ensures
        digits_value(s.take(k)) <= digits_value(s),
    decreases s.len(),
{
    if k < s.len() {
        lemma_digits_value_prefix(s.drop_last(), k);
        assert(s.drop_last().take(k) =~= s.take(k));
    } else {
        assert(s.take(k) =~= s);
    }
}

/// Reading digits meets no fault exactly when they are all digits and
/// their value is at most `max`.
pub proof fn lemma_digit_fault_none(d: Seq<char>, max: nat)
    ensures
        digit_fault(d, max) is None <==> (all_digits(d) && digits_value(d) <= max),
    decreases d.len(),
{
    if d.len() > 0 {
        let p = d.drop_last();
        lemma_digit_fault_none(p, max);
        if all_digits(d) {
            assert forall|i: int| 0 <= i < p.len() implies #[trigger] is_digit(p[i]) by {
                assert(p[i] == d[i]);
            }
            assert(is_digit(d[d.len() - 1]));
        }
        if digit_fault(d, max) is None {
            assert forall|i: int| 0 <= i < d.len() implies #[trigger] is_digit(d[i]) by {
                if i < d.len() - 1 {
                    assert(d[i] == p[i]);
                }
            }
        }
    }
}

/// A fault met in a prefix is the fault of the whole text.
proof fn lemma_digit_fault_prefix(d: Seq<char>, k: int, max: nat)
    requires
        0 <= k <= d.len(),
        digit_fault(d.take(k), max) is Some,
    ensures
        digit_fault(d, max) == digit_fault(d.take(k), max),
    decreases d.len(),
{
    if k < d.len() {
        assert(d.drop_last().take(k) =~= d.take(k));
        lemma_digit_fault_prefix(d.drop_last(), k, max);
    } else {
        assert(d.take(k) =~= d);
    }
}

/// The decimal representation of `n` is a nonempty digit string that
/// denotes `n`.
pub proof fn lemma_decimal_digits(n: nat)
    ensures
        decimal(n).len() > 0,
        all_digits(decimal(n)),
        digits_value(decimal(n)) == n,
    decreases n,
{
    let d = n % 10;
    assert(digit_value(digit_char(d)) == d && is_digit(digit_char(d))) by {
        assert(d < 10);
    }
    if n >= 10 {
        lemma_decimal_digits(n / 10);
        let s = decimal(n);
        assert(s.drop_last() =~= decimal(n / 10));
        assert(s.last() == digit_char(d));
        assert(n == (n / 10) * 10 + d);
        assert(digits_value(s) == digits_value(s.drop_last()) * 10 + digit_value(s.last()));
        assert forall|i: int| 0 <= i < s.len() implies #[trigger] is_digit(s[i]) by {
            if i < s.len() - 1 {
                assert(s[i] == decimal(n / 10)[i]);
            }
        }
    } else {
        let s = decimal(n);
        assert(s.drop_last() =~= Seq::<char>::empty());
        assert(digits_value(s.drop_last()) == 0);
    }
}

/// Reading back the decimal representation of a number gives the number,
/// for every integer type wide enough to hold it.
pub proof fn lemma_decimal_parse_round_trip(n: nat, max: nat)
    requires
        n <= max,
    ensures
        parse_unsigned(decimal(n), max) == Some(n),
{
    lemma_decimal_digits(n);
    lemma_digit_fault_none(decimal(n), max);
    assert(is_digit(decimal(n)[0]));
}

/// Reads the digits of `s` from character `start` to the end, from left to
/// right, as `str::parse` does.
fn parse_digits_from(s: &str, start: usize, max: u64) -> (res: Result<u64, NumberErrorKind>)
    requires
        start <= s@.len(),
    ensures
        ({
            let d = s@.subrange(start as int, s@.len() as int);
            match digit_fault(d, max as nat) {
                Some(e) => res == Err::<u64, NumberErrorKind>(e),
                None => res == Ok::<u64, NumberErrorKind>(digits_value(d) as u64),
            }
        }),
{
    let n = s.unicode_len();
    let ghost full = s@.subrange(start as int, n as int);
    let mut acc: u64 = 0;
    let mut i = start;
    assert(full.take(0) =~= Seq::<char>::empty());
    while i < n
        invariant
            start <= i <= n,
            n == s@.len(),
            full == s@.subrange(start as int, n as int),
            acc <= max,
            digit_fault(full.take(i - start), max as nat) is None,
            acc == digits_value(full.take(i - start)),
        decreases n - i,
    {
        let c = s.get_char(i);
        let ghost next = full.take(i + 1 - start);
        assert(next.drop_last() =~= full.take(i - start));
        assert(next.last() == c);
        if !(c >= '0' && c <= '9') {
            proof {
                assert(digit_fault(next, max as nat) == Some(NumberErrorKind::InvalidDigit));
                lemma_digit_fault_prefix(full, i + 1 - start, max as nat);
                assert(full.take(full.len() as int) =~= full);
            }
            return Err(NumberErrorKind::InvalidDigit);
        }
        let d: u64 = (c as u32 - 48) as u64;
        if d > max || acc > (max - d) / 10 {
            proof {
                assert(acc * 10 + d > max) by (nonlinear_arith)
                    requires
                        d > max || acc > (max - d) / 10,
                        d <= 9,
                ;
                assert(digit_fault(next, max as nat) == Some(NumberErrorKind::PosOverflow));
                lemma_digit_fault_prefix(full, i + 1 - start, max as nat);
            }
            return Err(NumberErrorKind::PosOverflow);
        }
        assert(acc * 10 + d <= max) by (nonlinear_arith)
            requires
                d <= max,
                acc <= (max - d) / 10,
        ;
        acc = acc * 10 + d;
        i = i + 1;
    }
    assert(full.take(n - start) =~= full);
    Ok(acc)
}

/// Reads an unsigned decimal number no larger than `max`, as `str::parse`
/// does for unsigned integer types.
pub fn parse_unsigned_bounded(s: &str, max: u64) -> (res: Result<u64, NumberErrorKind>)
    ensures
        match unsigned_parse(s@, max as nat) {
            Ok(v) => res == Ok::<u64, NumberErrorKind>(v as u64),
            Err(e) => res == Err::<u64, NumberErrorKind>(e),
        },
{
    let n = s.unicode_len();
    if n == 0 {
        return Err(NumberErrorKind::Empty);
    }
    let c = s.get_char(0);
    if n == 1 && (c == '+' || c == '-') {
        return Err(NumberErrorKind::InvalidDigit);
    }
    if c == '+' {
        assert(s@.subrange(1, n as int) =~= s@.drop_first());
        parse_digits_from(s, 1, max)
    } else {
        assert(s@.subrange(0, n as int) =~= s@);
        parse_digits_from(s, 0, max)
    }
}

/// `s.parse::<u64>()`, with the kind of its error.
pub fn parse_u64(s: &str) -> (res: Result<u64, NumberErrorKind>)
    ensures
        match unsigned_parse(s@, u64::MAX as nat) {
            Ok(v) => res == Ok::<u64, NumberErrorKind>(v as u64),
            Err(e) => res == Err::<u64, NumberErrorKind>(e),
        },
{
    parse_unsigned_bounded(s, u64::MAX)
}

/// `s.parse::<u32>()`, with the kind of its error.
pub fn parse_u32(s: &str) -> (res: Result<u32, NumberErrorKind>)
    ensures
        match unsigned_parse(s@, u32::MAX as nat) {
            Ok(v) => res == Ok::<u32, NumberErrorKind>(v as u32),
            Err(e) => res == Err::<u32, NumberErrorKind>(e),
        },
{
    match parse_unsigned_bounded(s, 0xffff_ffff) {
        Ok(v) => Ok(v as u32),
        Err(e) => Err(e),
    }
}

/// `s.parse::<usize>()`, with the kind of its error.
pub fn parse_usize(s: &str) -> (res: Result<usize, NumberErrorKind>)
    ensures
        match unsigned_parse(s@, usize::MAX as nat) {
            Ok(v) => res == Ok::<usize, NumberErrorKind>(v as usize),
            Err(e) => res == Err::<usize, NumberErrorKind>(e),
        },
{
    match parse_unsigned_bounded(s, usize::MAX as u64) {
        Ok(v) => Ok(v as usize),
        Err(e) => Err(e),
    }
}

/// `s.parse::<i32>()`, with the kind of its error.
pub fn parse_i32(s: &str) -> (res: Result<i32, NumberErrorKind>)
    ensures
        match signed_i32_parse(s@) {
            Ok(v) => res == Ok::<i32, NumberErrorKind>(v as i32),
            Err(e) => res == Err::<i32, NumberErrorKind>(e),
        },
{
    let n = s.unicode_len();
    if n == 0 {
        return Err(NumberErrorKind::Empty);
    }
    let c = s.get_char(0);
    if n == 1 && (c == '+' || c == '-') {
        return Err(NumberErrorKind::InvalidDigit);
    }
    if c == '-' {
        assert(s@.subrange(1, n as int) =~= s@.drop_first());
        match parse_digits_from(s, 1, 0x8000_0000) {
            Ok(v) => {
                if v == 0x8000_0000 {
                    Ok(i32::MIN)
                } else {
                    Ok(-(v as i32))
                }
            },
            Err(NumberErrorKind::PosOverflow) => Err(NumberErrorKind::NegOverflow),
            Err(e) => Err(e),
        }
    } else {
        match parse_unsigned_bounded(s, 0x7fff_ffff) {
            Ok(v) => Ok(v as i32),
            Err(e) => Err(e),
        }
    }
}

/// `s` without its leading white space.
pub open spec fn trim_start(s: Seq<char>) -> Seq<char>
    decreases s.len(),
{
    if s.len() > 0 && char_is_white_space(s[0]) {
        trim_start(s.drop_first())
    } else {
        s
    }
}

/// `s` without its trailing white space.
pub open spec fn trim_end(s: Seq<char>) -> Seq<char>
    decreases s.len(),
{
    if s.len() > 0 && char_is_white_space(s.last()) {
        trim_end(s.drop_last())
    } else {
        s
    }
}

/// `s` without leading and trailing white space, as `str::trim` gives it.
pub open spec fn trimmed(s: Seq<char>) -> Seq<char> {
    trim_end(trim_start(s))
}

/// A string that neither begins nor ends with white space is its own trim.
pub proof fn lemma_trimmed_unchanged(s: Seq<char>)
    requires
        s.len() > 0 ==> !char_is_white_space(s[0]) && !char_is_white_space(s.last()),
    ensures
        trimmed(s) == s,
{
}

/// A string without ASCII upper-case letters is its own lower-case form.
pub proof fn lemma_ascii_lower_unchanged(s: Seq<char>)
    requires
        forall|i: int| 0 <= i < s.len() ==> !('A' <= #[trigger] s[i] && s[i] <= 'Z'),
    ensures
        ascii_lower(s) == s,
{
    assert(ascii_lower(s) =~= s);
}

/// `s` with leading and trailing white space removed, as `str::trim` does.
pub fn trim(s: &str) -> (res: &str)
    ensures
        res@ == trimmed(s@),
{
    let n = s.unicode_len();
    let mut i: usize = 0;
    assert(s@.subrange(0, n as int) =~= s@);
    while i < n && s.get_char(i).is_whitespace()
        invariant
            i <= n,
            n == s@.len(),
            trim_start(s@) == trim_start(s@.subrange(i as int, n as int)),
        decreases n - i,
    {
        assert(s@.subrange(i as int, n as int).drop_first() =~= s@.subrange(i + 1, n as int));
        i = i + 1;
    }
    assert(trim_start(s@) == s@.subrange(i as int, n as int));
    let mut j: usize = n;
    while j > i && s.get_char(j - 1).is_whitespace()
        invariant
            i <= j <= n,
            n == s@.len(),
            trimmed(s@) == trim_end(s@.subrange(i as int, j as int)),
        decreases j - i,
    {
        assert(s@.subrange(i as int, j as int).drop_last() =~= s@.subrange(i as int, j - 1));
        j = j - 1;
    }
    s.substring_char(i, j)
}

/// The ASCII lower-case form of `c`; other characters stay as they are.
pub open spec fn ascii_lower_char(c: char) -> char {
    if 'A' <= c && c <= 'Z' {
        ((c as u32) + 32) as char
    } else {
        c
    }
}

/// `s` with every ASCII upper-case letter made lower-case, as
/// `str::to_ascii_lowercase` does.
pub open spec fn ascii_lower(s: Seq<char>) -> Seq<char> {
    Seq::new(s.len(), |i: int| ascii_lower_char(s[i]))
}

fn lower_char(c: char) -> (res: char)
    ensures
        res == ascii_lower_char(c),
{
    if c >= 'A' && c <= 'Z' {
        let b: u8 = (c as u8) + 32;
        b as char
    } else {
        c
    }
}

/// The ASCII lower-case form of `s`.
pub fn to_ascii_lowercase(s: &str) -> (res: String)
    ensures
        res@ == ascii_lower(s@),
{
    let n = s.unicode_len();
    let mut res = String::new();
    let mut i: usize = 0;
    while i < n
        invariant
            i <= n,
            n == s@.len(),
            res@ =~= ascii_lower(s@.subrange(0, i as int)),
        decreases n - i,
    {
        let c = s.get_char(i);
        res.push(lower_char(c));
        i = i + 1;
    }
    assert(s@.subrange(0, n as int) =~= s@);
    res
}

/// Whether two string slices hold the same characters.
pub fn str_eq(a: &str, b: &str) -> (res: bool)
    ensures
        res == (a@ == b@),
{
    let n = a.unicode_len();
    if n != b.unicode_len() {
        return false;
    }
    let mut i: usize = 0;
    while i < n
        invariant
            i <= n,
            n == a@.len(),
            n == b@.len(),
            forall|k: int| 0 <= k < i ==> a@[k] == b@[k],
        decreases n - i,
    {
        if a.get_char(i) != b.get_char(i) {
            return false;
        }
        i = i + 1;
    }
    assert(a@ =~= b@);
    true
}

} // verus!
