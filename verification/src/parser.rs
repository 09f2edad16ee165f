use vstd::prelude::*;
use docopt::{ArgvMap, Docopt};
use crate::fields::string_views;
use crate::usage_info::USAGE_INFO;

verus! {

/// `docopt::ArgvMap`: what a successful match assigns to the keys of the
/// grammar. Read only through the look-ups below.
#[verifier::external_type_specification]
#[verifier::external_body]
pub struct ExArgvMap(ArgvMap);

/// `docopt::Error`: why a grammar or an argument list was rejected. Read only
/// through its message.
#[verifier::external_type_specification]
#[verifier::external_body]
pub struct ExDocoptError(docopt::Error);

/// What `ArgvMap::get_bool` gives for a key: whether the command, switch or
/// argument of that name is present.
pub uninterp spec fn argv_map_bool(values: ArgvMap, key: Seq<char>) -> bool;

/// What `ArgvMap::get_str` gives for a key: the text of a single-valued option
/// or argument, empty when there is none.
pub uninterp spec fn argv_map_str(values: ArgvMap, key: Seq<char>) -> Seq<char>;

/// What `ArgvMap::get_vec` gives for a key: the texts of a repeated argument,
/// in the order in which they were given.
pub uninterp spec fn argv_map_vec(values: ArgvMap, key: Seq<char>) -> Seq<Seq<char>>;

/// Whether matching gives values: whether `Docopt::new` on the grammar,
/// `Docopt::argv` on the argument list, whose first entry is the program's
/// name, and `Docopt::parse` end in a map of values and not in an error. A
/// request for help counts as an error.
pub uninterp spec fn grammar_matches(usage: Seq<char>, argv: Seq<Seq<char>>) -> bool;

/// What `ArgvMap::get_bool` gives for a key on the map that matching the
/// argument list against the grammar ends in.
pub uninterp spec fn matched_bool(usage: Seq<char>, argv: Seq<Seq<char>>, key: Seq<char>) -> bool;

/// What `ArgvMap::get_str` gives for a key on the map that matching the
/// argument list against the grammar ends in.
pub uninterp spec fn matched_str(usage: Seq<char>, argv: Seq<Seq<char>>, key: Seq<char>) -> Seq<char>;

/// What `ArgvMap::get_vec` gives for a key on the map that matching the
/// argument list against the grammar ends in.
pub uninterp spec fn matched_vec(usage: Seq<char>, argv: Seq<Seq<char>>, key: Seq<char>) -> Seq<Seq<char>>;

/// What a match assigns to the keys of the grammar, as the three look-ups
/// read it: for every key whether it is present, its text and its texts.
pub struct KeyValues {
    pub present: spec_fn(Seq<char>) -> bool,
    pub text: spec_fn(Seq<char>) -> Seq<char>,
    pub texts: spec_fn(Seq<char>) -> Seq<Seq<char>>,
}

/// The values that a map of matched values holds.
pub open spec fn values_of_map(values: ArgvMap) -> KeyValues {
    KeyValues {
        present: |key: Seq<char>| argv_map_bool(values, key),
        text: |key: Seq<char>| argv_map_str(values, key),
        texts: |key: Seq<char>| argv_map_vec(values, key),
    }
}

/// The values that matching an argument list against a grammar assigns.
pub open spec fn values_of_match(usage: Seq<char>, argv: Seq<Seq<char>>) -> KeyValues {
    KeyValues {
        present: |key: Seq<char>| matched_bool(usage, argv, key),
        text: |key: Seq<char>| matched_str(usage, argv, key),
        texts: |key: Seq<char>| matched_vec(usage, argv, key),
    }
}

/// `Docopt::new`, `Docopt::argv` and `Docopt::parse` in turn, for this crate's
/// grammar only: compiles the grammar, sets the argument list and matches it,
/// giving the values of the grammar's keys or the reason for the rejection.
/// Values come back exactly where `grammar_matches` holds of the grammar and
/// the list, and the map then reads, at every key, as `matched_bool`,
/// `matched_str` and `matched_vec` name it for the grammar and the list.
/// Nothing is claimed of the error.
#[verifier::external_body]
pub(crate) fn parse_argv(usage: &str, argv: &Vec<String>) -> (outcome: std::result::Result<
    ArgvMap,
    docopt::Error,
>)
    requires
        usage@ == USAGE_INFO@,
    ensures
        outcome is Ok <==> grammar_matches(usage@, string_views(argv@)),
        outcome is Ok ==> forall|key: Seq<char>| #[trigger]
            argv_map_bool(outcome->Ok_0, key) == matched_bool(usage@, string_views(argv@), key),
        outcome is Ok ==> forall|key: Seq<char>| #[trigger]
            argv_map_str(outcome->Ok_0, key) == matched_str(usage@, string_views(argv@), key),
        outcome is Ok ==> forall|key: Seq<char>| #[trigger]
            argv_map_vec(outcome->Ok_0, key) == matched_vec(usage@, string_views(argv@), key),
{
    match Docopt::new(usage) {
        Ok(compiled) => compiled.argv(argv.iter()).parse(),
        Err(e) => Err(e),
    }
}

/// `ArgvMap::get_bool`: the result is the value named `argv_map_bool` for the
/// same map and key.
#[verifier::external_body]
pub(crate) fn get_bool(values: &ArgvMap, key: &str) -> (present: bool)
    ensures
        present == argv_map_bool(*values, key@),
{
    values.get_bool(key)
}

/// `ArgvMap::get_str`: the result is the text named `argv_map_str` for the
/// same map and key.
#[verifier::external_body]
pub(crate) fn get_str<'a>(values: &'a ArgvMap, key: &str) -> (text: &'a str)
    ensures
        text@ == argv_map_str(*values, key@),
{
    values.get_str(key)
}

/// `ArgvMap::get_vec`: the result holds the texts named `argv_map_vec` for the
/// same map and key, one for one and in the same order.
#[verifier::external_body]
pub(crate) fn get_vec<'a>(values: &'a ArgvMap, key: &str) -> (texts: Vec<&'a str>)
    ensures
        texts@.len() == argv_map_vec(*values, key@).len(),
        forall|i: int|
            0 <= i < texts@.len() ==> (#[trigger] texts@[i])@ == argv_map_vec(*values, key@)[i],
{
    values.get_vec(key)
}

/// The `Display` text of a `docopt::Error`. Nothing is claimed of the text.
#[verifier::external_body]
pub(crate) fn error_message(error: &docopt::Error) -> (message: String) {
    format!("{}", error)
}

} // verus!
