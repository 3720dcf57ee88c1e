//! Text: what the crate uses of the standard library's strings.

use vstd::prelude::*;

verus! {

/// `==` on string slices compares their characters.
pub assume_specification[ <str as PartialEq>::eq ](s: &str, other: &str) -> (res: bool)
    ensures
        res == (s@ == other@),
;

/// The characters of a text that may be missing.
pub open spec fn opt_str(s: Option<&str>) -> Option<Seq<char>> {
    match s {
        Some(s) => Some(s@),
        None => None,
    }
}

/// The characters of an owned text that may be missing.
pub open spec fn opt_string(s: Option<String>) -> Option<Seq<char>> {
    match s {
        Some(s) => Some(s@),
        None => None,
    }
}

/// The text behind `prefix`, where `s` begins with it.
pub open spec fn after_prefix(s: Seq<char>, prefix: Seq<char>) -> Option<Seq<char>> {
    if prefix.is_prefix_of(s) {
        Some(s.skip(prefix.len() as int))
    } else {
        None
    }
}

/// `str::strip_prefix` with a string pattern: what follows the prefix where
/// the text begins with it, nothing where it does not.
#[verifier::external_body]
pub(crate) fn strip_prefix<'a>(s: &'a str, prefix: &str) -> (res: Option<&'a str>)
    ensures
        res is Some <==> after_prefix(s@, prefix@) is Some,
        res matches Some(rest) ==> rest@ == after_prefix(s@, prefix@)->0,
{
    s.strip_prefix(prefix)
}

/// A text that is there is shown character for character, however long, and one
/// that is missing as missing.
pub proof fn law_optional_text_is_shown(slice: &str, owned: String)
    ensures
        opt_str(Some(slice)) == Some(slice@),
        opt_str(None) is None,
        opt_string(Some(owned)) == Some(owned@),
        opt_string(None) is None,
{
}

/// What follows a prefix is what was put behind it; a text that begins
/// otherwise has no such rest.
pub proof fn law_prefix_and_rest(s: Seq<char>, prefix: Seq<char>, rest: Seq<char>)
    ensures
        after_prefix(s, prefix) == Some(rest) <==> s == prefix + rest,
        after_prefix(s, prefix) is None <==> forall|tail: Seq<char>| s != #[trigger] (prefix + tail),
{
    assert((prefix + rest).skip(prefix.len() as int) =~= rest);
    assert(prefix.is_prefix_of(prefix + rest));
    if prefix.is_prefix_of(s) {
        assert(s =~= prefix + s.skip(prefix.len() as int));
    }
    assert forall|tail: Seq<char>| s == #[trigger] (prefix + tail) implies prefix.is_prefix_of(s) by {
    }
}

} // verus!
