//! The names of the files that the harness exports.

use vstd::prelude::*;
use vstd::string::*;

verus! {

/// The lower-case form of `text` under Unicode's rules, as `str::to_lowercase`
/// gives it.
pub uninterp spec fn lowercase_of(text: Seq<char>) -> Seq<char>;

/// What follows the stem in the name of a fixture file.
pub open spec fn fixture_suffix() -> Seq<char> {
    "-fixture.json"@
}

/// The name of the fixture file of the game called `name`.
pub open spec fn fixture_file_name_spec(name: Seq<char>) -> Seq<char> {
    lowercase_of(name) + fixture_suffix()
}

/// Calls `str::to_lowercase`. Trusted: the result is the lower-case form of
/// `text`, which depends on `text` alone.
#[verifier::external_body]
fn to_lowercase(text: &str) -> (lower: String)
    ensures
        lower@ == lowercase_of(text@),
{
    text.to_lowercase()
}

/// The name of the fixture file with the stem `stem`.
pub fn file_name_for_stem(stem: String) -> (file_name: String)
    ensures
        file_name@ == stem@ + fixture_suffix(),
{
    stem.concat("-fixture.json")
}

/// The name of the fixture file of the game called `name`: the name in
/// lower case, then `-fixture.json`.
pub fn fixture_file_name(name: &str) -> (file_name: String)
    ensures
        file_name@ == fixture_file_name_spec(name@),
{
    file_name_for_stem(to_lowercase(name))
}

} // verus!
