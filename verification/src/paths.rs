//! Request paths as metric labels, by way of the `regex` crate.
use vstd::prelude::*;

verus! {

/// What `regex::Regex::replace_all` makes of a text, given the pattern and
/// the replacement.
pub uninterp spec fn regex_replaced(
    pattern: Seq<char>,
    text: Seq<char>,
    replacement: Seq<char>,
) -> Seq<char>;

/// The pattern of an identifier in hyphenated notation.
pub open spec fn id_pattern() -> Seq<char> {
    "[0-9a-fA-F]{8}-[0-9a-fA-F]{4}-[0-9a-fA-F]{4}-[0-9a-fA-F]{4}-[0-9a-fA-F]{12}"@
}

/// The pattern of a path segment that is a number.
pub open spec fn number_pattern() -> Seq<char> {
    "/\\d+(/|$)"@
}

/// Calls `regex::Regex::new` and then `regex::Regex::replace_all`, which
/// replaces every match of the pattern in a text. The result depends on the
/// three texts alone. `Regex::new` accepts both patterns that are admitted.
#[verifier::external_body]
fn replace_all(pattern: &str, text: &str, replacement: &str) -> (r: String)
    requires
        pattern@ == id_pattern() || pattern@ == number_pattern(),
    ensures
        r@ == regex_replaced(pattern@, text@, replacement@),
{
    regex::Regex::new(pattern).unwrap().replace_all(text, replacement).into_owned()
}

/// The path with path segments that are numbers replaced by a placeholder. A
/// match takes the slash behind the number with it, so of several numbers in
/// a row every other one is left over for a further round.
pub open spec fn without_numbers(path: Seq<char>) -> Seq<char> {
    regex_replaced(number_pattern(), path, "/:id$1"@)
}

/// The path with identifiers replaced by a placeholder, and with numbers
/// replaced by one in two rounds.
pub open spec fn normalized(path: Seq<char>) -> Seq<char> {
    without_numbers(without_numbers(regex_replaced(id_pattern(), path, ":id"@)))
}

/// The path with identifiers and numbers replaced by a placeholder, so that
/// requests for different things count under one label.
pub fn normalize_path(path: &str) -> (r: String)
    ensures
        r@ == normalized(path@),
{
    let without_ids = replace_all(
        "[0-9a-fA-F]{8}-[0-9a-fA-F]{4}-[0-9a-fA-F]{4}-[0-9a-fA-F]{4}-[0-9a-fA-F]{12}",
        path,
        ":id",
    );
    let once = replace_all("/\\d+(/|$)", without_ids.as_str(), "/:id$1");
    replace_all("/\\d+(/|$)", once.as_str(), "/:id$1")
}

/// A label is made of a path by replacing hyphenated identifiers, and then twice
/// the segments that are numbers, each by the placeholder.
pub proof fn law_label_of_path(path: Seq<char>)
    ensures
        ({
            let first = regex_replaced(
                "[0-9a-fA-F]{8}-[0-9a-fA-F]{4}-[0-9a-fA-F]{4}-[0-9a-fA-F]{4}-[0-9a-fA-F]{12}"@,
                path,
                ":id"@,
            );
            let second = regex_replaced("/\\d+(/|$)"@, first, "/:id$1"@);
            normalized(path) == regex_replaced("/\\d+(/|$)"@, second, "/:id$1"@)
        }),
{
}

} // verus!
