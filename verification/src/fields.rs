use vstd::prelude::*;
use vstd::string::StringExecFns;
use docopt::ArgvMap;
use crate::constants::DOCOPT_ERROR_PREFIX;
use crate::errors::AppError;
use crate::numbers::{number_from_text, number_of};
use crate::parser::{
    argv_map_str, argv_map_vec, get_bool, get_str, get_vec, values_of_map, KeyValues,
};
use crate::types::Result;

verus! {

/// The texts of a list of strings, one for one.
pub open spec fn string_views(strings: Seq<String>) -> Seq<Seq<char>> {
    strings.map_values(|s: String| s@)
}

/// The text of an optional string.
pub open spec fn option_view(text: Option<String>) -> Option<Seq<char>> {
    match text {
        Some(s) => Some(s@),
        None => None,
    }
}

/// `text` begins with `prefix`.
pub open spec fn starts_with(text: Seq<char>, prefix: Seq<char>) -> bool {
    prefix.len() <= text.len() && text.subrange(0, prefix.len() as int) == prefix
}

/// `text` ends with `suffix`.
pub open spec fn ends_with(text: Seq<char>, suffix: Seq<char>) -> bool {
    suffix.len() <= text.len() && text.subrange(text.len() - suffix.len(), text.len() as int)
        == suffix
}

/// The error is a parse failure: a custom message that begins with the
/// parser's prefix.
pub open spec fn is_parse_failure(error: AppError) -> bool {
    error is Custom && starts_with(error->Custom_0@, DOCOPT_ERROR_PREFIX@)
}

/// The diagnostic for a text that does not write a number of the wanted type.
pub open spec fn coercion_message(
    text: Seq<char>,
    wanted: Seq<char>,
    key: Seq<char>,
) -> Seq<char> {
    "Could not deserialize '"@ + text + "' to "@ + wanted + " for '"@ + key + "'."@
}

/// Wraps a diagnostic of the parser into the error that reports a parse
/// failure: the message is the prefix followed by the diagnostic.
pub fn parse_failure(diagnostic: &str) -> (error: AppError)
    ensures
        error is Custom,
        error->Custom_0@ == DOCOPT_ERROR_PREFIX@ + diagnostic@,
        is_parse_failure(error),
{
    let message = String::from_str(DOCOPT_ERROR_PREFIX).concat(diagnostic);
    proof {
        assert(message@.subrange(0, DOCOPT_ERROR_PREFIX@.len() as int) =~= DOCOPT_ERROR_PREFIX@);
    }
    AppError::Custom(message)
}

/// The parse failure for a text that does not write a number of the wanted
/// type.
pub fn coercion_failure(text: &str, wanted: &str, key: &str) -> (error: AppError)
    ensures
        error is Custom,
        error->Custom_0@ == coercion_failure_message(text@, wanted@, key@),
        is_parse_failure(error),
{
    let diagnostic = String::from_str("Could not deserialize '").concat(text).concat(
        "' to ",
    ).concat(wanted).concat(" for '").concat(key).concat("'.");
    parse_failure(diagnostic.as_str())
}

/// The number that a raw argument text stands for, if it is one and no
/// greater than `limit`.
pub open spec fn bounded_number_of(text: Seq<char>, limit: u64) -> Option<u64> {
    match number_of(text) {
        Some(n) => if n <= limit {
            Some(n)
        } else {
            None
        },
        None => None,
    }
}

/// Every text of the list stands for a number no greater than `limit`.
pub open spec fn all_bounded_numbers(texts: Seq<Seq<char>>, limit: u64) -> bool {
    forall|i: int| 0 <= i < texts.len() ==> bounded_number_of(#[trigger] texts[i], limit) is Some
}

/// Position `i` holds the first text of the list that stands for no number
/// within the limit.
pub open spec fn is_first_failure(texts: Seq<Seq<char>>, limit: u64, i: int) -> bool {
    &&& 0 <= i < texts.len()
    &&& bounded_number_of(texts[i], limit) is None
    &&& forall|j: int| 0 <= j < i ==> bounded_number_of(#[trigger] texts[j], limit) is Some
}

/// The message of the parse failure for a text that does not write a number of
/// the wanted type.
pub open spec fn coercion_failure_message(
    text: Seq<char>,
    wanted: Seq<char>,
    key: Seq<char>,
) -> Seq<char> {
    DOCOPT_ERROR_PREFIX@ + coercion_message(text, wanted, key)
}

/// `numbers` holds, one for one, the numbers that the texts stand for.
pub open spec fn numbers_match(numbers: Seq<u64>, texts: Seq<Seq<char>>, limit: u64) -> bool {
    &&& numbers.len() == texts.len()
    &&& forall|i: int|
        0 <= i < texts.len() ==> bounded_number_of(#[trigger] texts[i], limit) == Some(numbers[i])
}

/// What an optional argument holds: its text where it is present.
pub open spec fn optional_text(values: KeyValues, key: Seq<char>) -> Option<Seq<char>> {
    if (values.present)(key) {
        Some((values.text)(key))
    } else {
        None
    }
}

/// Reads a raw argument text as a number no greater than `limit`, or fails
/// with the diagnostic that names the text, the wanted type and the key.
pub fn bounded_number(text: &str, limit: u64, wanted: &str, key: &str) -> (number: Result<u64>)
    ensures
        match number {
            Ok(n) => bounded_number_of(text@, limit) == Some(n),
            Err(e) => bounded_number_of(text@, limit) is None && e is Custom && e->Custom_0@
                == coercion_failure_message(text@, wanted@, key@) && is_parse_failure(e),
        },
{
    match number_from_text(text) {
        Some(n) => {
            if n <= limit {
                Ok(n)
            } else {
                Err(coercion_failure(text, wanted, key))
            }
        },
        None => Err(coercion_failure(text, wanted, key)),
    }
}

/// The text of a single-valued option or argument.
pub(crate) fn string_field(values: &ArgvMap, key: &str) -> (text: String)
    ensures
        text@ == argv_map_str(*values, key@),
{
    get_str(values, key).to_owned()
}

/// The text of an option or argument that may be absent.
pub(crate) fn optional_field(values: &ArgvMap, key: &str) -> (text: Option<String>)
    ensures
        option_view(text) == optional_text(values_of_map(*values), key@),
{
    if get_bool(values, key) {
        Some(string_field(values, key))
    } else {
        None
    }
}

/// The texts of a repeated argument, in the order given.
pub(crate) fn list_field(values: &ArgvMap, key: &str) -> (texts: Vec<String>)
    ensures
        string_views(texts@) == argv_map_vec(*values, key@),
{
    let raw = get_vec(values, key);
    let mut texts: Vec<String> = Vec::new();
    let mut i: usize = 0;
    while i < raw.len()
        invariant
            i <= raw.len(),
            texts@.len() == i,
            raw@.len() == argv_map_vec(*values, key@).len(),
            forall|j: int|
                0 <= j < raw@.len() ==> (#[trigger] raw@[j])@ == argv_map_vec(*values, key@)[j],
            forall|j: int|
                0 <= j < i ==> (#[trigger] texts@[j])@ == argv_map_vec(*values, key@)[j],
        decreases raw.len() - i,
    {
        texts.push(raw[i].to_owned());
        i = i + 1;
    }
    proof {
        assert(string_views(texts@) =~= argv_map_vec(*values, key@));
    }
    texts
}

/// The number of a single-valued option.
pub(crate) fn number_field(
    values: &ArgvMap,
    key: &str,
    limit: u64,
    wanted: &str,
) -> (number: Result<u64>)
    ensures
        match number {
            Ok(n) => bounded_number_of(argv_map_str(*values, key@), limit) == Some(n),
            Err(e) => bounded_number_of(argv_map_str(*values, key@), limit) is None
                && is_parse_failure(e) && e->Custom_0@ == coercion_failure_message(
                argv_map_str(*values, key@),
                wanted@,
                key@,
            ),
        },
{
    bounded_number(get_str(values, key), limit, wanted, key)
}

/// The numbers of a repeated argument, in the order given; the first text
/// that is no number of the wanted type fails the whole list, with the
/// diagnostic that names it.
pub(crate) fn number_list_field(
    values: &ArgvMap,
    key: &str,
    limit: u64,
    wanted: &str,
) -> (numbers: Result<Vec<u64>>)
    ensures
        match numbers {
            Ok(v) => numbers_match(v@, argv_map_vec(*values, key@), limit),
            Err(e) => !all_bounded_numbers(argv_map_vec(*values, key@), limit)
                && is_parse_failure(e) && exists|i: int|
                #[trigger] is_first_failure(argv_map_vec(*values, key@), limit, i) && e->Custom_0@
                    == coercion_failure_message(argv_map_vec(*values, key@)[i], wanted@, key@),
        },
{
    let raw = get_vec(values, key);
    let ghost texts = argv_map_vec(*values, key@);
    let mut numbers: Vec<u64> = Vec::new();
    let mut i: usize = 0;
    while i < raw.len()
        invariant
            i <= raw.len(),
            numbers@.len() == i,
            texts == argv_map_vec(*values, key@),
            raw@.len() == texts.len(),
            forall|j: int| 0 <= j < raw@.len() ==> (#[trigger] raw@[j])@ == texts[j],
            forall|j: int|
                0 <= j < i ==> bounded_number_of(#[trigger] texts[j], limit) == Some(numbers@[j]),
        decreases raw.len() - i,
    {
        match bounded_number(raw[i], limit, wanted, key) {
            Ok(n) => {
                numbers.push(n);
            },
            Err(e) => {
                proof {
                    assert(bounded_number_of(texts[i as int], limit) is None);
                    assert(is_first_failure(texts, limit, i as int));
                }
                return Err(e);
            },
        }
        i = i + 1;
    }
    Ok(numbers)
}

} // verus!
