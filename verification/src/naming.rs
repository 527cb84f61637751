//! Naming conventions: snake case, plurals and lower case.
//!
//! The conventions themselves are those of the `inflector` crate and of the
//! standard library. What they give for a text is named here, and the rest of
//! the library is stated over those names.

use vstd::prelude::*;

verus! {

/// The snake case form of a text, as `inflector` writes it.
pub uninterp spec fn snake_case_of(s: Seq<char>) -> Seq<char>;

/// The plural of a word, as `inflector` forms it.
pub uninterp spec fn plural_of(s: Seq<char>) -> Seq<char>;

/// The lower case form of a text, as the standard library writes it.
pub uninterp spec fn lowercase_of(s: Seq<char>) -> Seq<char>;

/// Calls `inflector::cases::snakecase::to_snake_case`. Its result depends on
/// the text alone, and is what `snake_case_of` names; nothing else is claimed
/// of it.
#[verifier::external_body]
pub(crate) fn to_snake_case(s: &str) -> (r: String)
    ensures
        r@ == snake_case_of(s@),
{
    inflector::cases::snakecase::to_snake_case(s)
}

/// Calls `inflector::string::pluralize::to_plural`. Its result depends on the
/// word alone, and is what `plural_of` names; nothing else is claimed of it.
#[verifier::external_body]
pub(crate) fn to_plural(s: &str) -> (r: String)
    ensures
        r@ == plural_of(s@),
{
    inflector::string::pluralize::to_plural(s)
}

/// Calls `str::to_lowercase`. Its result depends on the text alone, and is
/// what `lowercase_of` names; nothing else is claimed of it.
#[verifier::external_body]
pub(crate) fn to_lowercase(s: &str) -> (r: String)
    ensures
        r@ == lowercase_of(s@),
{
    s.to_lowercase()
}

/// The name of the resource that a definition belongs to: the plural of the
/// snake case form of the name of the definition.
pub open spec fn resource_name(definition: Seq<char>) -> Seq<char> {
    plural_of(snake_case_of(definition))
}

/// The name of the resource that a definition belongs to.
pub fn resource_name_of(definition: &str) -> (r: String)
    ensures
        r@ == resource_name(definition@),
{
    let snake = to_snake_case(definition);
    to_plural(snake.as_str())
}

} // verus!
