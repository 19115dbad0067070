//! Characters, decimal numbers and the small amount of string handling the
//! rest of the crate is built on. Strings are modelled by their sequence of
//! characters.

use vstd::prelude::*;

verus! {

/// Copies the characters of a string slice into a vector.
pub fn chars_of(s: &str) -> (v: Vec<char>)
    ensures
        v@ == s@,
{
    let mut v: Vec<char> = Vec::new();
    for c in it: s.chars()
        invariant
            v@ == it.seq().take(it.index() as int),
            it.seq() == s@,
    {
        v.push(c);
    }
    v
}

/// `String::push` of the standard library: appends one character.
#[verifier::external_body]
fn push_char(s: &mut String, c: char)
    ensures
        final(s)@ == old(s)@.push(c),
{
    s.push(c)
}

/// Builds a string out of a run of characters.
pub fn string_of(chars: &[char]) -> (s: String)
    ensures
        s@ == chars@,
{
    let mut s = String::new();
    let mut i: usize = 0;
    while i < chars.len()
        invariant
            i <= chars.len(),
            s@ == chars@.take(i as int),
        decreases chars.len() - i,
    {
        push_char(&mut s, chars[i]);
        i += 1;
    }
    s
}

/// Appends the characters of `s` to `out`.
pub fn push_str(out: &mut Vec<char>, s: &str)
    ensures
        final(out)@ == old(out)@ + s@,
{
    let ghost before = out@;
    for c in it: s.chars()
        invariant
            out@ == before + it.seq().take(it.index() as int),
            it.seq() == s@,
    {
        out.push(c);
    }
}

/// Tells whether `text` begins with `prefix`.
pub fn starts_with(text: &[char], prefix: &[char]) -> (b: bool)
    ensures
        b == prefix@.is_prefix_of(text@),
{
    if prefix.len() > text.len() {
        return false;
    }
    let mut i: usize = 0;
    while i < prefix.len()
        invariant
            i <= prefix.len() <= text.len(),
            forall|k: int| 0 <= k < i ==> prefix@[k] == text@[k],
        decreases prefix.len() - i,
    {
        if prefix[i] != text[i] {
            return false;
        }
        i += 1;
    }
    assert(prefix@ =~= text@.subrange(0, prefix@.len() as int));
    true
}

/// Tells whether two runs of characters are the same.
pub fn same_chars(a: &[char], b: &[char]) -> (same: bool)
    ensures
        same == (a@ == b@),
{
    if a.len() != b.len() {
        return false;
    }
    let same = starts_with(a, b);
    assert(same ==> a@ =~= b@);
    same
}

/// Tells whether two strings hold the same characters.
pub fn same_text(a: &str, b: &str) -> (same: bool)
    ensures
        same == (a@ == b@),
{
    let left = chars_of(a);
    let right = chars_of(b);
    same_chars(left.as_slice(), right.as_slice())
}

/// Whether `needle` occurs in `text` as a run of neighbouring characters.
pub open spec fn occurs_in(needle: Seq<char>, text: Seq<char>) -> bool {
    exists|i: int| 0 <= i <= text.len() - needle.len() && #[trigger] text.subrange(
        i,
        i + needle.len(),
    ) == needle
}

/// Tells whether `needle` occurs in `text`.
pub fn contains_chars(text: &[char], needle: &[char]) -> (found: bool)
    ensures
        found == occurs_in(needle@, text@),
{
    if needle.len() > text.len() {
        return false;
    }
    if needle.len() == 0 {
        assert(text@.subrange(0int, 0int + needle@.len()) =~= needle@);
        return true;
    }
    let last: usize = text.len() - needle.len();
    let mut i: usize = 0;
    while i <= last
        invariant
            0 < needle.len() <= text.len(),
            last == text.len() - needle.len(),
            i <= last + 1,
            forall|k: int| 0 <= k < i ==> #[trigger] text@.subrange(k, k + needle@.len()) != needle@,
        decreases last + 1 - i,
    {
        let window = vstd::slice::slice_subrange(text, i, i + needle.len());
        if same_chars(window, needle) {
            return true;
        }
        i += 1;
    }
    false
}

/// The position of the first `needle` in `text`, counted from `from`.
pub open spec fn first_index_from(text: Seq<char>, needle: char, from: int) -> Option<int>
    decreases text.len() - from,
{
    if from < 0 || from >= text.len() {
        None
    } else if text[from] == needle {
        Some(from)
    } else {
        first_index_from(text, needle, from + 1)
    }
}

/// The position of the first `needle` in `text`.
pub open spec fn first_index(text: Seq<char>, needle: char) -> Option<int> {
    first_index_from(text, needle, 0)
}

/// What `first_index_from` finds is the first occurrence at or after `from`.
pub proof fn lemma_first_index_from(text: Seq<char>, needle: char, from: int)
    requires
        0 <= from <= text.len(),
    ensures
        match first_index_from(text, needle, from) {
            Some(i) => from <= i < text.len() && text[i] == needle && forall|k: int|
                from <= k < i ==> text[k] != needle,
            None => forall|k: int| from <= k < text.len() ==> text[k] != needle,
        },
    decreases text.len() - from,
{
    if from < text.len() && text[from] != needle {
        lemma_first_index_from(text, needle, from + 1);
    }
}

/// Finds the first `needle` in `text` at or after `from`.
pub fn find_char_from(text: &[char], needle: char, from: usize) -> (r: Option<usize>)
    requires
        from <= text.len(),
    ensures
        match r {
            Some(i) => from <= i < text.len() && first_index_from(text@, needle, from as int)
                == Some(i as int),
            None => first_index_from(text@, needle, from as int) is None,
        },
{
    let mut i: usize = from;
    while i < text.len()
        invariant
            from <= i <= text.len(),
            first_index_from(text@, needle, from as int) == first_index_from(
                text@,
                needle,
                i as int,
            ),
        decreases text.len() - i,
    {
        if text[i] == needle {
            return Some(i);
        }
        i += 1;
    }
    None
}

/// The character that stands for a decimal digit.
pub open spec fn digit_char(d: int) -> char {
    if d == 0 {
        '0'
    } else if d == 1 {
        '1'
    } else if d == 2 {
        '2'
    } else if d == 3 {
        '3'
    } else if d == 4 {
        '4'
    } else if d == 5 {
        '5'
    } else if d == 6 {
        '6'
    } else if d == 7 {
        '7'
    } else if d == 8 {
        '8'
    } else {
        '9'
    }
}

/// The decimal digit that a character stands for, if it is one.
pub open spec fn digit_value(c: char) -> Option<int> {
    if c == '0' {
        Some(0)
    } else if c == '1' {
        Some(1)
    } else if c == '2' {
        Some(2)
    } else if c == '3' {
        Some(3)
    } else if c == '4' {
        Some(4)
    } else if c == '5' {
        Some(5)
    } else if c == '6' {
        Some(6)
    } else if c == '7' {
        Some(7)
    } else if c == '8' {
        Some(8)
    } else if c == '9' {
        Some(9)
    } else {
        None
    }
}

/// The decimal numeral of a natural number, without leading zeros.
pub open spec fn decimal(n: nat) -> Seq<char>
    decreases n,
{
    if n < 10 {
        seq![digit_char(n as int)]
    } else {
        decimal(n / 10).push(digit_char((n % 10) as int))
    }
}

/// The decimal numeral of an integer: a minus sign before the numeral of a
/// negative one.
pub open spec fn signed_decimal(v: int) -> Seq<char> {
    if v < 0 {
        seq!['-'] + decimal((-v) as nat)
    } else {
        decimal(v as nat)
    }
}

fn digit_to_char(d: u64) -> (c: char)
    requires
        d < 10,
    ensures
        c == digit_char(d as int),
{
    if d == 0 {
        '0'
    } else if d == 1 {
        '1'
    } else if d == 2 {
        '2'
    } else if d == 3 {
        '3'
    } else if d == 4 {
        '4'
    } else if d == 5 {
        '5'
    } else if d == 6 {
        '6'
    } else if d == 7 {
        '7'
    } else if d == 8 {
        '8'
    } else {
        '9'
    }
}

fn char_to_digit(c: char) -> (d: Option<i64>)
    ensures
        match d {
            Some(v) => digit_value(c) == Some(v as int) && 0 <= v <= 9,
            None => digit_value(c) is None,
        },
{
    if c == '0' {
        Some(0)
    } else if c == '1' {
        Some(1)
    } else if c == '2' {
        Some(2)
    } else if c == '3' {
        Some(3)
    } else if c == '4' {
        Some(4)
    } else if c == '5' {
        Some(5)
    } else if c == '6' {
        Some(6)
    } else if c == '7' {
        Some(7)
    } else if c == '8' {
        Some(8)
    } else if c == '9' {
        Some(9)
    } else {
        None
    }
}

/// Appends the decimal numeral of `n` to `out`.
pub fn push_decimal(out: &mut Vec<char>, n: u64)
    ensures
        final(out)@ == old(out)@ + decimal(n as nat),
    decreases n,
{
    if n >= 10 {
        push_decimal(out, n / 10);
    }
    out.push(digit_to_char(n % 10));
}

/// Appends the decimal numeral of a signed number to `out`.
pub fn push_signed_decimal(out: &mut Vec<char>, v: i32)
    ensures
        final(out)@ == old(out)@ + signed_decimal(v as int),
{
    let wide: i64 = v as i64;
    if wide < 0 {
        out.push('-');
        push_decimal(out, (-wide) as u64);
    } else {
        push_decimal(out, wide as u64);
    }
}

/// Why a run of characters is not a number of the wanted kind.
#[derive(Clone, Copy, Debug, PartialEq, Eq, Structural)]
pub enum NumberError {
    /// There is nothing to read.
    Empty,
    /// A character is no decimal digit, or a sign stands alone.
    InvalidDigit,
    /// The number is above the largest value of the type.
    PosOverflow,
    /// The number is below the smallest value of the type.
    NegOverflow,
}

/// Reads digits from left to right on top of `acc`. The first character that
/// is no digit, or the first digit that takes the value out of `lo..=hi`,
/// ends the reading with its error.
pub open spec fn accumulate(digits: Seq<char>, acc: int, negative: bool, lo: int, hi: int) -> Result<
    int,
    NumberError,
>
    decreases digits.len(),
{
    if digits.len() == 0 {
        Ok(acc)
    } else {
        match digit_value(digits[0]) {
            None => Err(NumberError::InvalidDigit),
            Some(d) => {
                let next = if negative {
                    acc * 10 - d
                } else {
                    acc * 10 + d
                };
                if next < lo {
                    Err(NumberError::NegOverflow)
                } else if next > hi {
                    Err(NumberError::PosOverflow)
                } else {
                    accumulate(digits.drop_first(), next, negative, lo, hi)
                }
            },
        }
    }
}

/// The value of a decimal numeral within `lo..=hi`: an optional `+`, or `-`
/// where `signed`, then at least one digit.
pub open spec fn parse_integer(s: Seq<char>, signed: bool, lo: int, hi: int) -> Result<
    int,
    NumberError,
> {
    if s.len() == 0 {
        Err(NumberError::Empty)
    } else if s.len() == 1 && (s[0] == '+' || s[0] == '-') {
        Err(NumberError::InvalidDigit)
    } else if s[0] == '+' {
        accumulate(s.skip(1), 0, false, lo, hi)
    } else if s[0] == '-' && signed {
        accumulate(s.skip(1), 0, true, lo, hi)
    } else {
        accumulate(s, 0, false, lo, hi)
    }
}

/// The value of a numeral as a signed 32-bit number.
pub open spec fn parse_i32(s: Seq<char>) -> Result<int, NumberError> {
    parse_integer(s, true, i32::MIN as int, i32::MAX as int)
}

/// The value of a numeral as an unsigned 32-bit number.
pub open spec fn parse_u32(s: Seq<char>) -> Result<int, NumberError> {
    parse_integer(s, false, 0, u32::MAX as int)
}

fn read_digits(digits: &[char], from: usize, negative: bool, lo: i64, hi: i64) -> (r: Result<
    i64,
    NumberError,
>)
    requires
        from <= digits.len(),
        -0x1_0000_0000 <= lo <= 0 <= hi <= 0x1_0000_0000,
    ensures
        match r {
            Ok(v) => accumulate(digits@.skip(from as int), 0, negative, lo as int, hi as int) == Ok::<
                int,
                NumberError,
            >(v as int) && lo <= v <= hi,
            Err(e) => accumulate(digits@.skip(from as int), 0, negative, lo as int, hi as int)
                == Err::<int, NumberError>(e),
        },
{
    let mut acc: i64 = 0;
    let mut i: usize = from;
    while i < digits.len()
        invariant
            from <= i <= digits.len(),
            -0x1_0000_0000 <= lo <= 0 <= hi <= 0x1_0000_0000,
            lo <= acc <= hi,
            accumulate(digits@.skip(from as int), 0, negative, lo as int, hi as int) == accumulate(
                digits@.skip(i as int),
                acc as int,
                negative,
                lo as int,
                hi as int,
            ),
        decreases digits.len() - i,
    {
        let ghost rest = digits@.skip(i as int);
        assert(rest[0] == digits@[i as int]);
        assert(rest.drop_first() =~= digits@.skip(i + 1));
        match char_to_digit(digits[i]) {
            None => {
                return Err(NumberError::InvalidDigit);
            },
            Some(d) => {
                let next: i64 = if negative {
                    acc * 10 - d
                } else {
                    acc * 10 + d
                };
                if next < lo {
                    return Err(NumberError::NegOverflow);
                }
                if next > hi {
                    return Err(NumberError::PosOverflow);
                }
                acc = next;
            },
        }
        i += 1;
    }
    Ok(acc)
}

fn read_integer(s: &[char], signed: bool, lo: i64, hi: i64) -> (r: Result<i64, NumberError>)
    requires
        -0x1_0000_0000 <= lo <= 0 <= hi <= 0x1_0000_0000,
    ensures
        match r {
            Ok(v) => parse_integer(s@, signed, lo as int, hi as int) == Ok::<int, NumberError>(
                v as int,
            ) && lo <= v <= hi,
            Err(e) => parse_integer(s@, signed, lo as int, hi as int) == Err::<int, NumberError>(e),
        },
{
    if s.len() == 0 {
        return Err(NumberError::Empty);
    }
    let head = s[0];
    if s.len() == 1 && (head == '+' || head == '-') {
        return Err(NumberError::InvalidDigit);
    }
    assert(s@.skip(0) =~= s@);
    if head == '+' {
        read_digits(s, 1, false, lo, hi)
    } else if head == '-' && signed {
        read_digits(s, 1, true, lo, hi)
    } else {
        read_digits(s, 0, false, lo, hi)
    }
}

/// Reads a signed 32-bit number.
pub fn read_i32(s: &[char]) -> (r: Result<i32, NumberError>)
    ensures
        match r {
            Ok(v) => parse_i32(s@) == Ok::<int, NumberError>(v as int),
            Err(e) => parse_i32(s@) == Err::<int, NumberError>(e),
        },
{
    match read_integer(s, true, -0x8000_0000, 0x7fff_ffff) {
        Ok(v) => Ok(v as i32),
        Err(e) => Err(e),
    }
}

/// Reads an unsigned 32-bit number.
pub fn read_u32(s: &[char]) -> (r: Result<u32, NumberError>)
    ensures
        match r {
            Ok(v) => parse_u32(s@) == Ok::<int, NumberError>(v as int),
            Err(e) => parse_u32(s@) == Err::<int, NumberError>(e),
        },
{
    match read_integer(s, false, 0, 0xffff_ffff) {
        Ok(v) => Ok(v as u32),
        Err(e) => Err(e),
    }
}

/// A decimal numeral has at least one character, and all its characters
/// are digits.
pub proof fn lemma_decimal_is_digits(v: nat)
    ensures
        decimal(v).len() >= 1,
        forall|i: int| 0 <= i < decimal(v).len() ==> digit_value(#[trigger] decimal(v)[i]) is Some,
    decreases v,
{
    if v >= 10 {
        lemma_decimal_is_digits(v / 10);
        let shorter = decimal(v / 10);
        let last = digit_char((v % 10) as int);
        assert(decimal(v) == shorter.push(last));
        assert(digit_value(last) is Some);
        assert forall|i: int| 0 <= i < decimal(v).len() implies digit_value(
            #[trigger] decimal(v)[i],
        ) is Some by {
            if i < shorter.len() {
                assert(decimal(v)[i] == shorter[i]);
            }
        }
    } else {
        assert(digit_value(digit_char(v as int)) is Some);
    }
}

/// Reading one more digit goes on from what reading the digits before it
/// gave.
pub proof fn lemma_accumulate_push(
    digits: Seq<char>,
    c: char,
    acc: int,
    negative: bool,
    lo: int,
    hi: int,
)
    ensures
        accumulate(digits.push(c), acc, negative, lo, hi) == match accumulate(
            digits,
            acc,
            negative,
            lo,
            hi,
        ) {
            Ok(value) => accumulate(seq![c], value, negative, lo, hi),
            Err(e) => Err(e),
        },
    decreases digits.len(),
{
    if digits.len() == 0 {
        assert(digits.push(c) =~= seq![c]);
    } else {
        let longer = digits.push(c);
        assert(longer[0] == digits[0]);
        assert(longer.drop_first() =~= digits.drop_first().push(c));
        match digit_value(digits[0]) {
            None => {},
            Some(d) => {
                let next = if negative {
                    acc * 10 - d
                } else {
                    acc * 10 + d
                };
                if lo <= next <= hi {
                    lemma_accumulate_push(digits.drop_first(), c, next, negative, lo, hi);
                }
            },
        }
    }
}

/// The digits of a numeral are read as its value, or as the value below
/// zero where a minus sign went before them, as long as that lies within the
/// bounds.
pub proof fn lemma_accumulate_decimal(v: nat, negative: bool, lo: int, hi: int)
    requires
        lo <= 0 <= hi,
        negative ==> lo <= -v,
        !negative ==> v <= hi,
    ensures
        accumulate(decimal(v), 0, negative, lo, hi) == Ok::<int, NumberError>(
            if negative {
                -v
            } else {
                v as int
            },
        ),
    decreases v,
{
    let last = digit_char((v % 10) as int);
    let before: int = if negative {
        -(v / 10)
    } else {
        (v / 10) as int
    };
    let value: int = if negative {
        -v
    } else {
        v as int
    };
    assert(digit_value(last) == Some((v % 10) as int));
    assert(seq![last].drop_first() =~= Seq::<char>::empty());
    assert(seq![last][0] == last);
    assert(value == if negative {
        before * 10 - (v % 10)
    } else {
        before * 10 + (v % 10)
    });
    assert(accumulate(Seq::<char>::empty(), value, negative, lo, hi) == Ok::<int, NumberError>(
        value,
    ));
    assert(accumulate(seq![last], before, negative, lo, hi) == Ok::<int, NumberError>(value));
    if v >= 10 {
        lemma_accumulate_decimal(v / 10, negative, lo, hi);
        lemma_accumulate_push(decimal(v / 10), last, 0, negative, lo, hi);
    } else {
        assert(decimal(v) =~= Seq::<char>::empty().push(last));
        assert(accumulate(Seq::<char>::empty(), 0, negative, lo, hi) == Ok::<int, NumberError>(0));
        lemma_accumulate_push(Seq::<char>::empty(), last, 0, negative, lo, hi);
    }
}

/// The numeral of a number that fits in 32 bits with a sign is read back as
/// that number, and holds no `x`.
pub proof fn lemma_signed_decimal_reads_back(v: int)
    requires
        i32::MIN <= v <= i32::MAX,
    ensures
        parse_i32(signed_decimal(v)) == Ok::<int, NumberError>(v),
        forall|i: int| 0 <= i < signed_decimal(v).len() ==> #[trigger] signed_decimal(v)[i] != 'x',
{
    let s = signed_decimal(v);
    if v < 0 {
        let digits = decimal((-v) as nat);
        lemma_decimal_is_digits((-v) as nat);
        lemma_accumulate_decimal((-v) as nat, true, i32::MIN as int, i32::MAX as int);
        assert(s.skip(1) =~= digits);
        assert(s[0] == '-');
        assert forall|i: int| 0 <= i < s.len() implies #[trigger] s[i] != 'x' by {
            if i > 0 {
                assert(s[i] == digits[i - 1]);
                assert(digit_value(digits[i - 1]) is Some);
            }
        }
    } else {
        lemma_decimal_is_digits(v as nat);
        lemma_accumulate_decimal(v as nat, false, i32::MIN as int, i32::MAX as int);
        assert(digit_value(s[0]) is Some);
        assert forall|i: int| 0 <= i < s.len() implies #[trigger] s[i] != 'x' by {
            assert(digit_value(s[i]) is Some);
        }
    }
}

impl NumberError {
    /// The wording the standard library gives to this failure.
    pub fn message(&self) -> (s: String)
        ensures
            s@ == number_error_text(*self),
    {
        match self {
            NumberError::Empty => "cannot parse integer from empty string".to_owned(),
            NumberError::InvalidDigit => "invalid digit found in string".to_owned(),
            NumberError::PosOverflow => "number too large to fit in target type".to_owned(),
            NumberError::NegOverflow => "number too small to fit in target type".to_owned(),
        }
    }
}

/// The wording of a number error.
pub open spec fn number_error_text(e: NumberError) -> Seq<char> {
    match e {
        NumberError::Empty => "cannot parse integer from empty string"@,
        NumberError::InvalidDigit => "invalid digit found in string"@,
        NumberError::PosOverflow => "number too large to fit in target type"@,
        NumberError::NegOverflow => "number too small to fit in target type"@,
    }
}

} // verus!
