//! How values are written into the messages of a report.

use vstd::prelude::*;
use vstd::string::*;

verus! {

/// A text as the standard library writes it for debugging: between double
/// quotes, with the characters that need it escaped.
pub uninterp spec fn debug_text(s: Seq<char>) -> Seq<char>;

/// Formats a text with `{:?}` (`<str as Debug>::fmt`). The result depends on
/// the text alone, and is what `debug_text` names; nothing else is claimed of
/// it.
#[verifier::external_body]
pub(crate) fn debug_str(s: &str) -> (r: String)
    ensures
        r@ == debug_text(s@),
{
    format!("{:?}", s)
}

/// What may be absent, given as it is written where it is there: `Some(..)`
/// around it, or `None`.
pub open spec fn option_text(written: Option<Seq<char>>) -> Seq<char> {
    match written {
        Some(text) => "Some("@ + text + ")"@,
        None => "None"@,
    }
}

/// The first `n` items of a list, each given as it is written, separated by
/// a comma and a space.
pub open spec fn joined_items(written: Seq<Seq<char>>, n: nat) -> Seq<char>
    decreases n,
{
    if n == 0 {
        Seq::empty()
    } else if n == 1 {
        written[0]
    } else {
        joined_items(written, (n - 1) as nat) + ", "@ + written[n - 1]
    }
}

/// A list, given its items as they are written: the items between square
/// brackets.
pub open spec fn list_text(written: Seq<Seq<char>>) -> Seq<char> {
    "["@ + joined_items(written, written.len()) + "]"@
}

/// Each text of a list as it is written for debugging.
pub open spec fn debug_texts(list: Seq<Seq<char>>) -> Seq<Seq<char>> {
    Seq::new(list.len(), |i: int| debug_text(list[i]))
}

/// A text that may be absent, written for debugging.
pub open spec fn debug_option(s: Option<Seq<char>>) -> Seq<char> {
    option_text(
        match s {
            Some(text) => Some(debug_text(text)),
            None => None,
        },
    )
}

/// A list of texts, written for debugging.
pub open spec fn debug_list(list: Seq<Seq<char>>) -> Seq<char> {
    list_text(debug_texts(list))
}

/// A list of texts that may be absent, written for debugging.
pub open spec fn debug_option_list(list: Option<Seq<Seq<char>>>) -> Seq<char> {
    option_text(
        match list {
            Some(texts) => Some(debug_list(texts)),
            None => None,
        },
    )
}

/// The decimal digit `d`.
pub open spec fn digit_text(d: nat) -> Seq<char> {
    if d == 0 {
        "0"@
    } else if d == 1 {
        "1"@
    } else if d == 2 {
        "2"@
    } else if d == 3 {
        "3"@
    } else if d == 4 {
        "4"@
    } else if d == 5 {
        "5"@
    } else if d == 6 {
        "6"@
    } else if d == 7 {
        "7"@
    } else if d == 8 {
        "8"@
    } else {
        "9"@
    }
}

/// A number in decimal digits, without leading zeros.
pub open spec fn decimal(n: nat) -> Seq<char>
    decreases n,
{
    if n < 10 {
        digit_text(n)
    } else {
        decimal(n / 10) + digit_text(n % 10)
    }
}

fn digit_str(d: usize) -> (r: &'static str)
    requires
        d < 10,
    ensures
        r@ == digit_text(d as nat),
{
    if d == 0 {
        "0"
    } else if d == 1 {
        "1"
    } else if d == 2 {
        "2"
    } else if d == 3 {
        "3"
    } else if d == 4 {
        "4"
    } else if d == 5 {
        "5"
    } else if d == 6 {
        "6"
    } else if d == 7 {
        "7"
    } else if d == 8 {
        "8"
    } else {
        "9"
    }
}

/// Writes a number in decimal digits.
pub fn decimal_string(n: usize) -> (r: String)
    ensures
        r@ == decimal(n as nat),
    decreases n,
{
    if n < 10 {
        String::from_str(digit_str(n))
    } else {
        let mut r = decimal_string(n / 10);
        r.append(digit_str(n % 10));
        r
    }
}

/// Writes what may be absent, given as it is written where it is there.
pub fn write_option(written: &Option<String>) -> (r: String)
    ensures
        r@ == option_text(written.deep_view()),
{
    match written {
        Some(text) => {
            let mut r = String::from_str("Some(");
            r.append(text.as_str());
            r.append(")");
            r
        },
        None => String::from_str("None"),
    }
}

/// Writes a list, given its items as they are written.
pub fn write_list(written: &[String]) -> (r: String)
    ensures
        r@ == list_text(written.deep_view()),
{
    let mut r = String::from_str("[");
    let ghost mut items: Seq<char> = Seq::empty();
    let mut i: usize = 0;
    while i < written.len()
        invariant
            i <= written@.len(),
            items == joined_items(written.deep_view(), i as nat),
            r@ == "["@ + items,
        decreases written@.len() - i,
    {
        if i > 0 {
            r.append(", ");
        }
        r.append(written[i].as_str());
        proof {
            let next = joined_items(written.deep_view(), (i + 1) as nat);
            assert(r@ =~= "["@ + next);
            items = next;
        }
        i = i + 1;
    }
    r.append("]");
    r
}

/// Writes a text that may be absent as it is written for debugging.
pub fn debug_option_string(s: &Option<String>) -> (r: String)
    ensures
        r@ == debug_option(s.deep_view()),
{
    let written = match s {
        Some(text) => Some(debug_str(text.as_str())),
        None => None,
    };
    write_option(&written)
}

/// Writes a list of texts as it is written for debugging.
pub fn debug_list_string(list: &[String]) -> (r: String)
    ensures
        r@ == debug_list(list.deep_view()),
{
    let mut written: Vec<String> = Vec::new();
    let mut i: usize = 0;
    while i < list.len()
        invariant
            i <= list@.len(),
            written@.len() == i,
            forall|j: int| 0 <= j < i ==> (#[trigger] written@[j])@ == debug_text(list@[j]@),
        decreases list@.len() - i,
    {
        written.push(debug_str(list[i].as_str()));
        i = i + 1;
    }
    let items = written.as_slice();
    assert(items.deep_view() =~= debug_texts(list.deep_view()));
    write_list(items)
}

/// Writes a list of texts that may be absent as it is written for debugging.
pub fn debug_option_list_string(list: &Option<Vec<String>>) -> (r: String)
    ensures
        r@ == debug_option_list(list.deep_view()),
{
    let written = match list {
        Some(texts) => Some(debug_list_string(texts.as_slice())),
        None => None,
    };
    write_option(&written)
}

} // verus!
