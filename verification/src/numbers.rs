use vstd::prelude::*;

verus! {

/// The value of a decimal digit, if the character is one of `0` to `9`.
pub open spec fn digit_value(c: char) -> Option<int> {
    if '0' <= c && c <= '9' {
        Some(c as int - '0' as int)
    } else {
        None
    }
}

/// The number that a string of decimal digits writes, if every character is a
/// digit. The empty string writes zero.
pub open spec fn decimal_value(digits: Seq<char>) -> Option<int>
    decreases digits.len(),
{
    if digits.len() == 0 {
        Some(0)
    } else {
        match (decimal_value(digits.drop_last()), digit_value(digits.last())) {
            (Some(high), Some(low)) => Some(10 * high + low),
            _ => None,
        }
    }
}

/// The `u64` that a text writes in decimal: one optional `+`, then at least
/// one digit and nothing else, the number no greater than `u64::MAX`.
pub open spec fn parsed_u64(text: Seq<char>) -> Option<u64> {
    let digits = if text.len() > 0 && text[0] == '+' {
        text.subrange(1, text.len() as int)
    } else {
        text
    };
    if digits.len() == 0 {
        None
    } else {
        match decimal_value(digits) {
            Some(value) => if value <= u64::MAX {
                Some(value as u64)
            } else {
                None
            },
            None => None,
        }
    }
}

/// What `str::trim` leaves of a text: the text without its leading and
/// trailing white space.
pub uninterp spec fn trimmed_text(text: Seq<char>) -> Seq<char>;

/// The number that a raw argument text stands for: zero when nothing but white
/// space was given, else the `u64` that the text writes, if it writes one.
pub open spec fn number_of(text: Seq<char>) -> Option<u64> {
    if trimmed_text(text).len() == 0 {
        Some(0)
    } else {
        parsed_u64(text)
    }
}

/// `str::parse::<u64>`: succeeds exactly on the texts that `parsed_u64`
/// accepts, with that number.
#[verifier::external_body]
pub(crate) fn parse_u64(text: &str) -> (number: Option<u64>)
    ensures
        number == parsed_u64(text@),
{
    match text.parse::<u64>() {
        Ok(n) => Some(n),
        Err(_) => None,
    }
}

/// `str::trim`: the result is the text named `trimmed_text`.
#[verifier::external_body]
pub(crate) fn trim<'a>(text: &'a str) -> (trimmed: &'a str)
    ensures
        trimmed@ == trimmed_text(text@),
{
    text.trim()
}

/// Reads a raw argument text as a number, given what trimming leaves of it:
/// zero where that is empty, else the `u64` that the text itself writes, if it
/// writes one.
pub fn number_from_trimmed(text: &str, trimmed: &str) -> (number: Option<u64>)
    ensures
        number == (if trimmed@.len() == 0 {
            Some(0u64)
        } else {
            parsed_u64(text@)
        }),
{
    if trimmed.is_empty() {
        Some(0)
    } else {
        parse_u64(text)
    }
}

/// Reads a raw argument text as a number.
pub fn number_from_text(text: &str) -> (number: Option<u64>)
    ensures
        number == number_of(text@),
{
    number_from_trimmed(text, trim(text))
}

} // verus!
