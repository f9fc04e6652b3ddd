//! Small text routines: decimal numbers in and out, and fields between
//! separators.

use vstd::prelude::*;
use vstd::string::*;

verus! {

/// The character that stands for the digit `digit`.
pub open spec fn digit_char(digit: int) -> char {
    if digit == 0 {
        '0'
    } else if digit == 1 {
        '1'
    } else if digit == 2 {
        '2'
    } else if digit == 3 {
        '3'
    } else if digit == 4 {
        '4'
    } else if digit == 5 {
        '5'
    } else if digit == 6 {
        '6'
    } else if digit == 7 {
        '7'
    } else if digit == 8 {
        '8'
    } else {
        '9'
    }
}

/// `number` written in base ten, without sign or leading zeros.
pub open spec fn decimal_digits(number: nat) -> Seq<char>
    decreases number,
{
    if number < 10 {
        seq![digit_char(number as int)]
    } else {
        decimal_digits(number / 10).push(digit_char((number % 10) as int))
    }
}

/// Whether `c` is one of the ten ASCII digits.
pub open spec fn is_digit(c: char) -> bool {
    '0' <= c && c <= '9'
}

/// The value of the ASCII digit `c`.
pub open spec fn digit_value(c: char) -> int {
    c as int - '0' as int
}

/// The number that a run of digits stands for, read in base ten.
pub open spec fn digits_value(digits: Seq<char>) -> nat
    decreases digits.len(),
{
    if digits.len() == 0 {
        0
    } else {
        (digits_value(digits.drop_last()) * 10 + digit_value(digits.last())) as nat
    }
}

/// How many characters at the start of `text` are digits.
pub open spec fn digit_prefix_len(text: Seq<char>) -> nat
    decreases text.len(),
{
    if text.len() == 0 || !is_digit(text[0]) {
        0
    } else {
        1 + digit_prefix_len(text.drop_first())
    }
}

/// Why a text is not a number of the wanted size.
#[derive(Clone, Copy, Debug, PartialEq, Eq, Structural)]
pub enum NumberError {
    /// The text is empty.
    Empty,
    /// The text holds something that is no digit, or is a lone sign.
    InvalidDigit,
    /// The digits stand for a number above the largest allowed.
    TooLarge,
}

/// The digits of `text` once a single leading `+` is taken away.
pub open spec fn without_plus(text: Seq<char>) -> Seq<char> {
    if text.len() > 0 && text[0] == '+' {
        text.drop_first()
    } else {
        text
    }
}

/// What an unsigned decimal `text` stands for when numbers up to `max` are
/// allowed.
///
/// The text is an optional `+` followed by at least one digit; leading zeros
/// are taken. It is read from the left: a number that has grown above `max`
/// is reported before a later character that is no digit.
pub open spec fn parse_unsigned(text: Seq<char>, max: nat) -> Result<nat, NumberError> {
    if text.len() == 0 {
        Err(NumberError::Empty)
    } else if text.len() == 1 && (text[0] == '+' || text[0] == '-') {
        Err(NumberError::InvalidDigit)
    } else {
        let digits = without_plus(text);
        let run = digit_prefix_len(digits);
        if digits_value(digits.take(run as int)) > max {
            Err(NumberError::TooLarge)
        } else if run < digits.len() {
            Err(NumberError::InvalidDigit)
        } else {
            Ok(digits_value(digits))
        }
    }
}

/// The length of the part of `text` before the first `separator`: all of
/// `text` where there is none.
pub open spec fn field_len(text: Seq<char>, separator: char) -> nat
    decreases text.len(),
{
    if text.len() == 0 || text[0] == separator {
        0
    } else {
        1 + field_len(text.drop_first(), separator)
    }
}

/// The field number `index` of `text` when it is cut at every `separator`,
/// counting from zero; `None` where `text` has fewer fields.
pub open spec fn field(text: Seq<char>, separator: char, index: nat) -> Option<Seq<char>>
    decreases index,
{
    let first = field_len(text, separator);
    if index == 0 {
        Some(text.take(first as int))
    } else if first == text.len() {
        None
    } else {
        field(text.skip(first as int + 1), separator, (index - 1) as nat)
    }
}

/// A position that holds the first separator at or after `from` fixes the
/// length of the field that starts at `from`.
proof fn lemma_field_len_found(text: Seq<char>, separator: char, from: int, at: int)
    requires
        0 <= from <= at <= text.len(),
        forall|i: int| from <= i < at ==> text[i] != separator,
        at < text.len() ==> text[at] == separator,
    ensures
        field_len(text.skip(from), separator) == at - from,
    decreases at - from,
{
    let tail = text.skip(from);
    if from == at {
        if at < text.len() {
            assert(tail[0] == text[at]);
        }
    } else {
        assert(tail[0] == text[from]);
        assert(tail.drop_first() =~= text.skip(from + 1));
        lemma_field_len_found(text, separator, from + 1, at);
    }
}

proof fn lemma_digit_prefix_bound(text: Seq<char>)
    ensures
        digit_prefix_len(text) <= text.len(),
    decreases text.len(),
{
    if text.len() > 0 && is_digit(text[0]) {
        lemma_digit_prefix_bound(text.drop_first());
    }
}

/// A position that holds the first character that is no digit fixes the length
/// of the run of digits at the start.
proof fn lemma_digit_prefix_found(text: Seq<char>, at: int)
    requires
        0 <= at <= text.len(),
        forall|i: int| 0 <= i < at ==> is_digit(text[i]),
        at < text.len() ==> !is_digit(text[at]),
    ensures
        digit_prefix_len(text) == at,
    decreases at,
{
    if at > 0 {
        let rest = text.drop_first();
        assert forall|i: int| 0 <= i < at - 1 implies is_digit(rest[i]) by {
            assert(rest[i] == text[i + 1]);
        }
        if at < text.len() {
            assert(rest[at - 1] == text[at]);
        }
        lemma_digit_prefix_found(rest, at - 1);
    }
}

/// Reading one more digit never makes the number smaller.
proof fn lemma_digits_value_grows(digits: Seq<char>, shorter: int)
    requires
        0 <= shorter <= digits.len(),
        forall|i: int| 0 <= i < digits.len() ==> is_digit(digits[i]),
    ensures
        digits_value(digits.take(shorter)) <= digits_value(digits),
    decreases digits.len() - shorter,
{
    if shorter == digits.len() {
        assert(digits.take(shorter) =~= digits);
    } else {
        let front = digits.drop_last();
        assert(front.take(shorter) =~= digits.take(shorter));
        lemma_digits_value_grows(front, shorter);
        assert(digit_value(digits.last()) >= 0);
    }
}

/// The one character that stands for a digit.
fn digit_text(digit: u64) -> (text: &'static str)
    requires
        digit < 10,
    ensures
        text@ == seq![digit_char(digit as int)],
{
    proof {
        reveal_strlit("0");
        reveal_strlit("1");
        reveal_strlit("2");
        reveal_strlit("3");
        reveal_strlit("4");
        reveal_strlit("5");
        reveal_strlit("6");
        reveal_strlit("7");
        reveal_strlit("8");
        reveal_strlit("9");
    }
    let text: &'static str = if digit == 0 {
        "0"
    } else if digit == 1 {
        "1"
    } else if digit == 2 {
        "2"
    } else if digit == 3 {
        "3"
    } else if digit == 4 {
        "4"
    } else if digit == 5 {
        "5"
    } else if digit == 6 {
        "6"
    } else if digit == 7 {
        "7"
    } else if digit == 8 {
        "8"
    } else {
        "9"
    };
    assert(text@ =~= seq![digit_char(digit as int)]);
    text
}

/// Writes `number` in base ten.
pub fn decimal(number: u64) -> (text: String)
    ensures
        text@ == decimal_digits(number as nat),
    decreases number,
{
    if number < 10 {
        String::from_str(digit_text(number))
    } else {
        let mut text = decimal(number / 10);
        text.append(digit_text(number % 10));
        assert(text@ =~= decimal_digits(number as nat));
        text
    }
}

/// The position of the first `separator` in `text` at or after `from`, or the
/// length of `text` where there is none.
fn find_from(text: &str, separator: char, from: usize) -> (at: usize)
    requires
        from <= text@.len(),
    ensures
        from <= at <= text@.len(),
        at - from == field_len(text@.skip(from as int), separator),
        forall|i: int| from <= i < at ==> text@[i] != separator,
        at < text@.len() ==> text@[at as int] == separator,
{
    let len: usize = text.unicode_len();
    let mut at: usize = from;
    while at < len && text.get_char(at) != separator
        invariant
            len == text@.len(),
            from <= at <= len,
            forall|i: int| from <= i < at ==> text@[i] != separator,
        decreases len - at,
    {
        at += 1;
    }
    proof {
        lemma_field_len_found(text@, separator, from as int, at as int);
    }
    at
}

/// Cuts `text` at every `separator` and returns the field number `index`,
/// counting from zero, or `None` where there are fewer fields.
pub fn nth_field(text: &str, separator: char, index: usize) -> (found: Option<String>)
    ensures
        found.is_some() == field(text@, separator, index as nat).is_some(),
        found matches Some(value) ==> Some(value@) == field(text@, separator, index as nat),
{
    let len: usize = text.unicode_len();
    let mut start: usize = 0;
    let mut left: usize = index;
    assert(text@.skip(0) =~= text@);
    loop
        invariant
            len == text@.len(),
            start <= len,
            left <= index,
            field(text@, separator, index as nat) == field(
                text@.skip(start as int),
                separator,
                left as nat,
            ),
        decreases left,
    {
        let end: usize = find_from(text, separator, start);
        let ghost tail = text@.skip(start as int);
        if left == 0 {
            let piece: &str = text.substring_char(start, end);
            assert(piece@ =~= tail.take(field_len(tail, separator) as int));
            return Some(String::from_str(piece));
        }
        if end == len {
            return None;
        }
        assert(tail.skip(field_len(tail, separator) as int + 1) =~= text@.skip(end as int + 1));
        start = end + 1;
        left -= 1;
    }
}

/// Reads an unsigned decimal number no larger than `max`.
///
/// The text is an optional `+` and then digits, as the standard library reads
/// unsigned integers. `max` has to fit thirty-two bits, so that the number
/// read so far always fits sixty-four.
pub fn parse_decimal(text: &str, max: u64) -> (parsed: Result<u64, NumberError>)
    requires
        max <= 0xffff_ffff,
    ensures
        parsed is Ok <==> parse_unsigned(text@, max as nat) is Ok,
        parsed matches Ok(value) ==> parse_unsigned(text@, max as nat) == Ok::<nat, NumberError>(
            value as nat,
        ) && value <= max,
        parsed matches Err(error) ==> parse_unsigned(text@, max as nat) == Err::<
            nat,
            NumberError,
        >(error),
{
    let len: usize = text.unicode_len();
    if len == 0 {
        return Err(NumberError::Empty);
    }
    let first: char = text.get_char(0);
    if len == 1 && (first == '+' || first == '-') {
        return Err(NumberError::InvalidDigit);
    }
    let start: usize = if first == '+' {
        1
    } else {
        0
    };
    let ghost digits = without_plus(text@);
    assert(digits =~= text@.skip(start as int));
    let mut at: usize = start;
    let mut value: u64 = 0;
    while at < len
        invariant
            len == text@.len(),
            start <= at <= len,
            max <= 0xffff_ffff,
            digits == text@.skip(start as int),
            digits == without_plus(text@),
            !(text@.len() == 1 && (text@[0] == '+' || text@[0] == '-')),
            forall|i: int| 0 <= i < at - start ==> is_digit(digits[i]),
            value as nat == digits_value(digits.take(at - start)),
            value <= max,
        decreases len - at,
    {
        let c: char = text.get_char(at);
        let ghost seen = digits.take(at - start);
        let ghost more = digits.take(at - start + 1);
        assert(digits[at - start] == c);
        if !('0' <= c && c <= '9') {
            proof {
                lemma_digit_prefix_found(digits, at - start);
                assert(digit_prefix_len(digits) == at - start);
                assert(digits.len() == len - start);
                assert(parse_unsigned(text@, max as nat) == Err::<nat, NumberError>(
                    NumberError::InvalidDigit,
                ));
            }
            return Err(NumberError::InvalidDigit);
        }
        let digit: u64 = (c as u64) - ('0' as u64);
        assert(more.drop_last() =~= seen);
        assert(more.last() == c);
        assert(digits_value(more) == value * 10 + digit);
        if value * 10 + digit > max {
            proof {
                // The run of digits goes on at least to here, and reading on
                // only makes the number larger.
                lemma_digit_prefix_bound(digits);
                let run = digit_prefix_len(digits) as int;
                if run < at - start + 1 {
                    lemma_digit_prefix_shorter(digits, run);
                    assert(false);
                }
                let whole = digits.take(run);
                assert(whole.take(at - start + 1) =~= more);
                lemma_digit_prefix_digits(digits);
                lemma_digits_value_grows(whole, at - start + 1);
                assert(digits_value(whole) > max);
                assert(parse_unsigned(text@, max as nat) == Err::<nat, NumberError>(
                    NumberError::TooLarge,
                ));
            }
            return Err(NumberError::TooLarge);
        }
        value = value * 10 + digit;
        at += 1;
    }
    proof {
        lemma_digit_prefix_found(digits, digits.len() as int);
        assert(digits.take(digits.len() as int) =~= digits);
    }
    Ok(value)
}

/// Every character inside the run of digits at the start is a digit.
proof fn lemma_digit_prefix_digits(text: Seq<char>)
    ensures
        digit_prefix_len(text) <= text.len(),
        forall|i: int|
            0 <= i < digit_prefix_len(text) ==> is_digit(#[trigger] text.take(
                digit_prefix_len(text) as int,
            )[i]),
    decreases text.len(),
{
    lemma_digit_prefix_bound(text);
    if text.len() > 0 && is_digit(text[0]) {
        let rest = text.drop_first();
        lemma_digit_prefix_digits(rest);
        let run = digit_prefix_len(text) as int;
        assert forall|i: int| 0 <= i < run implies is_digit(#[trigger] text.take(run)[i]) by {
            if i > 0 {
                assert(text.take(run)[i] == rest.take(run - 1)[i - 1]);
            }
        }
    }
}

/// The character right after the run of digits, if there is one, is no digit.
proof fn lemma_digit_prefix_shorter(text: Seq<char>, run: int)
    requires
        run == digit_prefix_len(text),
    ensures
        run < text.len() ==> !is_digit(text[run]),
    decreases text.len(),
{
    if text.len() > 0 && is_digit(text[0]) {
        let rest = text.drop_first();
        lemma_digit_prefix_shorter(rest, run - 1);
        if run < text.len() {
            assert(text[run] == rest[run - 1]);
        }
    }
}

/// Reads a number that fits sixteen bits.
pub fn parse_u16(text: &str) -> (parsed: Result<u16, NumberError>)
    ensures
        parsed is Ok <==> parse_unsigned(text@, 0xffff) is Ok,
        parsed matches Ok(value) ==> parse_unsigned(text@, 0xffff) == Ok::<nat, NumberError>(
            value as nat,
        ),
        parsed matches Err(error) ==> parse_unsigned(text@, 0xffff) == Err::<nat, NumberError>(
            error,
        ),
{
    match parse_decimal(text, 0xffff) {
        Ok(value) => Ok(value as u16),
        Err(error) => Err(error),
    }
}

/// Reads a number that fits thirty-two bits.
pub fn parse_u32(text: &str) -> (parsed: Result<u32, NumberError>)
    ensures
        parsed is Ok <==> parse_unsigned(text@, 0xffff_ffff) is Ok,
        parsed matches Ok(value) ==> parse_unsigned(text@, 0xffff_ffff) == Ok::<
            nat,
            NumberError,
        >(value as nat),
        parsed matches Err(error) ==> parse_unsigned(text@, 0xffff_ffff) == Err::<
            nat,
            NumberError,
        >(error),
{
    match parse_decimal(text, 0xffff_ffff) {
        Ok(value) => Ok(value as u32),
        Err(error) => Err(error),
    }
}

/// The two parts of `text` around its first `separator`, or `None` where it
/// holds none.
pub open spec fn split_once_spec(text: Seq<char>, separator: char) -> Option<
    (Seq<char>, Seq<char>),
> {
    let at = field_len(text, separator);
    if at == text.len() {
        None
    } else {
        Some((text.take(at as int), text.skip(at as int + 1)))
    }
}

/// All the fields of `text` when it is cut at every `separator`. A text
/// without a separator, also the empty one, is a single field.
pub open spec fn fields(text: Seq<char>, separator: char) -> Seq<Seq<char>>
    decreases text.len(),
{
    let first = field_len(text, separator);
    if first >= text.len() {
        seq![text]
    } else {
        seq![text.take(first as int)] + fields(text.skip(first as int + 1), separator)
    }
}

/// Cuts `text` at its first `separator`.
pub fn split_once(text: &str, separator: char) -> (parts: Option<(String, String)>)
    ensures
        parts.is_some() == split_once_spec(text@, separator).is_some(),
        parts matches Some(pair) ==> split_once_spec(text@, separator) == Some(
            (pair.0@, pair.1@),
        ),
{
    let len: usize = text.unicode_len();
    assert(text@.skip(0) =~= text@);
    let at: usize = find_from(text, separator, 0);
    if at == len {
        None
    } else {
        let head: &str = text.substring_char(0, at);
        let tail: &str = text.substring_char(at + 1, len);
        assert(head@ =~= text@.take(at as int));
        assert(tail@ =~= text@.skip(at as int + 1));
        Some((String::from_str(head), String::from_str(tail)))
    }
}

/// Cuts `text` at every `separator`.
pub fn split(text: &str, separator: char) -> (parts: Vec<String>)
    ensures
        parts.deep_view() == fields(text@, separator),
{
    let len: usize = text.unicode_len();
    let mut parts: Vec<String> = Vec::new();
    let mut start: usize = 0;
    assert(text@.skip(0) =~= text@);
    loop
        invariant
            len == text@.len(),
            start <= len,
            fields(text@, separator) == parts.deep_view() + fields(
                text@.skip(start as int),
                separator,
            ),
        decreases len - start,
    {
        let ghost tail = text@.skip(start as int);
        let ghost before = parts.deep_view();
        let end: usize = find_from(text, separator, start);
        let piece: &str = text.substring_char(start, end);
        assert(piece@ =~= tail.take(field_len(tail, separator) as int));
        parts.push(String::from_str(piece));
        assert(parts.deep_view() =~= before.push(piece@));
        if end == len {
            assert(fields(tail, separator) =~= seq![tail]);
            assert(piece@ =~= tail);
            assert(before + seq![tail] =~= parts.deep_view());
            return parts;
        }
        assert(tail.skip(field_len(tail, separator) as int + 1) =~= text@.skip(end as int + 1));
        assert(before + (seq![piece@] + fields(text@.skip(end as int + 1), separator))
            =~= parts.deep_view() + fields(text@.skip(end as int + 1), separator));
        start = end + 1;
    }
}

} // verus!
