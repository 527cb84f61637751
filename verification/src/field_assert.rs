//! Checks on one field of a document. Each gives nothing where the field is
//! as it should be, and a complaint that names the field where it is not.

use vstd::prelude::*;
use vstd::string::*;
use crate::render::{
    debug_list, debug_list_string, debug_str, debug_text, decimal, decimal_string,
};
use crate::text::{text_eq, texts_equal};
use crate::validation_results::{finding, ValidationResult};

verus! {

/// What the regular expression `pattern` says of `text`, as the `regex` crate
/// decides it: whether the text matches, or nothing where the pattern is not
/// a regular expression.
pub uninterp spec fn regex_match(pattern: Seq<char>, text: Seq<char>) -> Option<bool>;

/// Compiles `pattern` with `regex::Regex::new` and asks `Regex::is_match` of
/// the text. The result depends on the pattern and the text alone, and is
/// what `regex_match` names; nothing else is claimed of it.
#[verifier::external_body]
pub(crate) fn regex_is_match(pattern: &str, text: &str) -> (r: Option<bool>)
    ensures
        r == regex_match(pattern@, text@),
{
    match regex::Regex::new(pattern) {
        Ok(compiled) => Some(compiled.is_match(text)),
        Err(_) => None,
    }
}

/// The complaint about a field that should be there and is not, given the
/// name of the field as it is written for debugging.
pub open spec fn missing_message(written_name: Seq<char>) -> Seq<char> {
    written_name + " does not exist in the spec. It needs to be set to a value."@
}

/// The complaint about a field that is there and should not be, given the
/// name of the field as it is written for debugging.
pub open spec fn unwanted_message(written_name: Seq<char>) -> Seq<char> {
    written_name + " exists in the spec but it should not."@
}

/// The complaint about a field whose text does not stay under `size`
/// characters.
pub open spec fn too_long_message(name: Seq<char>, size: nat, text: Seq<char>) -> Seq<char> {
    "The value of "@ + name + " is not shorter than "@ + decimal(size) + ", for "@ + text
}

/// The complaint about a field whose text does not match a pattern.
pub open spec fn format_message(name: Seq<char>, text: Seq<char>) -> Seq<char> {
    "The value "@ + text + " for "@ + name + " does not follow the proper format of the guidelines"@
}

/// The complaint about a field that cannot be checked against a pattern,
/// because the pattern is not a regular expression.
pub open spec fn pattern_message(name: Seq<char>, pattern: Seq<char>) -> Seq<char> {
    "The pattern "@ + pattern + " for "@ + name + " is not a regular expression"@
}

/// The complaint about a field that is not equal to what it should be.
/// `expected` and `actual` are written as for debugging.
pub open spec fn unequal_message(
    name: Seq<char>,
    expected: Seq<char>,
    actual: Option<Seq<char>>,
) -> Seq<char> {
    "Expected "@ + name + " to be "@ + expected + " but it was "@ + match actual {
        Some(written) => "Some("@ + written + ")"@,
        None => "None"@,
    }
}

/// What a check for equality finds: nothing where the field is there and
/// equal to what is expected, else the complaint.
pub open spec fn equality_finding(
    name: Seq<char>,
    equal: bool,
    expected: Seq<char>,
    actual: Option<Seq<char>>,
) -> Option<Seq<char>> {
    if actual is Some && equal {
        None
    } else {
        Some(unequal_message(name, expected, actual))
    }
}

/// What a check for presence finds, given the name of the field as it is
/// written for debugging.
pub open spec fn presence_of(written_name: Seq<char>, present: bool) -> Option<Seq<char>> {
    if present {
        None
    } else {
        Some(missing_message(written_name))
    }
}

/// What a check for absence finds, given the name of the field as it is
/// written for debugging.
pub open spec fn absence_of(written_name: Seq<char>, present: bool) -> Option<Seq<char>> {
    if present {
        Some(unwanted_message(written_name))
    } else {
        None
    }
}

/// What a check for presence finds.
pub open spec fn presence_finding(name: Seq<char>, present: bool) -> Option<Seq<char>> {
    presence_of(debug_text(name), present)
}

/// What a check for absence finds.
pub open spec fn absence_finding(name: Seq<char>, present: bool) -> Option<Seq<char>> {
    absence_of(debug_text(name), present)
}

/// What a check of the length finds: a text that is absent, or that has
/// fewer than `size` characters, passes.
pub open spec fn length_finding(name: Seq<char>, text: Option<Seq<char>>, size: nat) -> Option<
    Seq<char>,
> {
    match text {
        Some(t) => if t.len() >= size {
            Some(too_long_message(name, size, t))
        } else {
            None
        },
        None => None,
    }
}

/// What a check against a pattern finds, given what the pattern says of the
/// text. A text that is absent passes: another check complains about that.
pub open spec fn match_finding(
    name: Seq<char>,
    text: Option<Seq<char>>,
    pattern: Seq<char>,
    matched: Option<bool>,
) -> Option<Seq<char>> {
    match text {
        Some(t) => match matched {
            Some(true) => None,
            Some(false) => Some(format_message(name, t)),
            None => Some(pattern_message(name, pattern)),
        },
        None => None,
    }
}

/// What any field of a document offers to a check for equality.
pub trait Assert {
    /// What the field hands out, where it holds something.
    type Data;

    /// What a value of the field is, in mathematical terms.
    type Content;

    /// What a value of the field is, in mathematical terms.
    spec fn content(value: Self::Data) -> Self::Content;

    /// A value of the field, written as for debugging.
    spec fn written(value: Self::Content) -> Seq<char>;

    /// What the field holds, where it holds something.
    spec fn spec_data(&self) -> Option<Self::Content>;

    /// The name under which the field appears in complaints.
    spec fn spec_name(&self) -> Seq<char>;

    /// What the field holds, where it holds something.
    fn data(&self) -> (r: Option<Self::Data>)
        ensures
            self.spec_data() == match r {
                Some(value) => Some(Self::content(value)),
                None => None,
            },
    ;

    /// The name under which the field appears in complaints.
    fn name(&self) -> (r: &str)
        ensures
            r@ == self.spec_name(),
    ;

    /// Checks that the field is there and equal to `value`.
    fn eq(&self, value: Self::Data) -> (r: ValidationResult)
        ensures
            finding(r) == equality_finding(
                self.spec_name(),
                self.spec_data() == Some(Self::content(value)),
                Self::written(Self::content(value)),
                match self.spec_data() {
                    Some(actual) => Some(Self::written(actual)),
                    None => None,
                },
            ),
    ;
}

/// A field of a document: what it holds, and the name under which it appears
/// in complaints.
#[derive(Debug)]
pub struct Field<T> {
    data: T,
    name: String,
}

/// What a check for equality finds, given whether the field is equal to
/// what is expected, and both as they are written for debugging.
pub fn equality_outcome(name: &str, equal: bool, expected: String, actual: Option<String>) -> (r:
    ValidationResult)
    ensures
        finding(r) == equality_finding(name@, equal, expected@, actual.deep_view()),
{
    if actual.is_some() && equal {
        return Ok(());
    }
    let mut message = String::from_str("Expected ");
    message.append(name);
    message.append(" to be ");
    message.append(expected.as_str());
    message.append(" but it was ");
    match actual {
        Some(written) => {
            message.append("Some(");
            message.append(written.as_str());
            message.append(")");
        },
        None => {
            message.append("None");
        },
    }
    assert(message@ =~= unequal_message(name@, expected@, actual.deep_view()));
    Err(message)
}

/// What a check for presence finds, given the name of the field as it is
/// written for debugging.
pub fn presence_outcome(written_name: String, present: bool) -> (r: ValidationResult)
    ensures
        finding(r) == presence_of(written_name@, present),
{
    if present {
        Ok(())
    } else {
        let mut message = written_name;
        message.append(" does not exist in the spec. It needs to be set to a value.");
        Err(message)
    }
}

/// What a check for absence finds, given the name of the field as it is
/// written for debugging.
pub fn absence_outcome(written_name: String, present: bool) -> (r: ValidationResult)
    ensures
        finding(r) == absence_of(written_name@, present),
{
    if present {
        let mut message = written_name;
        message.append(" exists in the spec but it should not.");
        Err(message)
    } else {
        Ok(())
    }
}

impl<T> Field<T> {
    /// What the field holds.
    pub closed spec fn value(&self) -> T {
        self.data
    }

    /// The name under which the field appears in complaints.
    pub closed spec fn label(&self) -> Seq<char> {
        self.name@
    }

    /// The field that holds `data` and is called `name`.
    pub fn new(data: T, name: &str) -> (r: Field<T>)
        ensures
            r.value() == data,
            r.label() == name@,
    {
        Field { data, name: String::from_str(name) }
    }
}

impl<'a> Assert for Field<&'a String> {
    type Data = &'a String;

    type Content = Seq<char>;

    open spec fn content(value: &'a String) -> Seq<char> {
        value@
    }

    open spec fn written(value: Seq<char>) -> Seq<char> {
        debug_text(value)
    }

    open spec fn spec_data(&self) -> Option<Seq<char>> {
        Some(self.value()@)
    }

    open spec fn spec_name(&self) -> Seq<char> {
        self.label()
    }

    fn data(&self) -> (r: Option<&'a String>) {
        Some(self.data)
    }

    fn name(&self) -> (r: &str) {
        self.name.as_str()
    }

    fn eq(&self, value: &'a String) -> (r: ValidationResult) {
        let equal = text_eq(self.data.as_str(), value.as_str());
        equality_outcome(
            self.name.as_str(),
            equal,
            debug_str(value.as_str()),
            Some(debug_str(self.data.as_str())),
        )
    }
}

impl<'a> Assert for Field<&'a Option<String>> {
    type Data = &'a String;

    type Content = Seq<char>;

    open spec fn content(value: &'a String) -> Seq<char> {
        value@
    }

    open spec fn written(value: Seq<char>) -> Seq<char> {
        debug_text(value)
    }

    open spec fn spec_data(&self) -> Option<Seq<char>> {
        self.value().deep_view()
    }

    open spec fn spec_name(&self) -> Seq<char> {
        self.label()
    }

    fn data(&self) -> (r: Option<&'a String>) {
        match self.data {
            Some(text) => Some(text),
            None => None,
        }
    }

    fn name(&self) -> (r: &str) {
        self.name.as_str()
    }

    fn eq(&self, value: &'a String) -> (r: ValidationResult) {
        match self.data {
            Some(text) => equality_outcome(
                self.name.as_str(),
                text_eq(text.as_str(), value.as_str()),
                debug_str(value.as_str()),
                Some(debug_str(text.as_str())),
            ),
            None => equality_outcome(
                self.name.as_str(),
                false,
                debug_str(value.as_str()),
                None,
            ),
        }
    }
}

impl<'a> Field<&'a Option<String>> {
    /// Checks that the text, where there is one, has fewer than `size`
    /// characters.
    pub fn length_less_than(&self, size: usize) -> (r: ValidationResult)
        ensures
            finding(r) == length_finding(self.label(), self.value().deep_view(), size as nat),
    {
        match self.data {
            None => Ok(()),
            Some(text) => {
                if text.as_str().unicode_len() >= size {
                    let mut message = String::from_str("The value of ");
                    message.append(self.name.as_str());
                    message.append(" is not shorter than ");
                    message.append(decimal_string(size).as_str());
                    message.append(", for ");
                    message.append(text.as_str());
                    Err(message)
                } else {
                    Ok(())
                }
            },
        }
    }

    /// What a check of the text against `pattern` finds, given in `matched`
    /// what the pattern says of the text.
    pub fn match_outcome(&self, pattern: &str, matched: Option<bool>) -> (r: ValidationResult)
        ensures
            finding(r) == match_finding(
                self.label(),
                self.value().deep_view(),
                pattern@,
                matched,
            ),
    {
        match self.data {
            None => Ok(()),
            Some(text) => match matched {
                Some(true) => Ok(()),
                Some(false) => {
                    let mut message = String::from_str("The value ");
                    message.append(text.as_str());
                    message.append(" for ");
                    message.append(self.name.as_str());
                    message.append(" does not follow the proper format of the guidelines");
                    Err(message)
                },
                None => {
                    let mut message = String::from_str("The pattern ");
                    message.append(pattern);
                    message.append(" for ");
                    message.append(self.name.as_str());
                    message.append(" is not a regular expression");
                    Err(message)
                },
            },
        }
    }

    /// Checks that the text, where there is one, matches the regular
    /// expression `pattern`.
    pub fn is_match(&self, pattern: &str) -> (r: ValidationResult)
        ensures
            finding(r) == match_finding(
                self.label(),
                self.value().deep_view(),
                pattern@,
                match self.value() {
                    Some(text) => regex_match(pattern@, text@),
                    None => None,
                },
            ),
    {
        match self.data {
            None => Ok(()),
            Some(text) => {
                let matched = regex_is_match(pattern, text.as_str());
                self.match_outcome(pattern, matched)
            },
        }
    }
}

impl<'a> Assert for Field<&'a Option<Vec<String>>> {
    type Data = &'a [String];

    type Content = Seq<Seq<char>>;

    open spec fn content(value: &'a [String]) -> Seq<Seq<char>> {
        value.deep_view()
    }

    open spec fn written(value: Seq<Seq<char>>) -> Seq<char> {
        debug_list(value)
    }

    open spec fn spec_data(&self) -> Option<Seq<Seq<char>>> {
        self.value().deep_view()
    }

    open spec fn spec_name(&self) -> Seq<char> {
        self.label()
    }

    fn data(&self) -> (r: Option<&'a [String]>) {
        match self.data {
            Some(list) => Some(list.as_slice()),
            None => None,
        }
    }

    fn name(&self) -> (r: &str) {
        self.name.as_str()
    }

    fn eq(&self, value: &'a [String]) -> (r: ValidationResult) {
        match self.data {
            Some(list) => equality_outcome(
                self.name.as_str(),
                texts_equal(list.as_slice(), value),
                debug_list_string(value),
                Some(debug_list_string(list.as_slice())),
            ),
            None => equality_outcome(
                self.name.as_str(),
                false,
                debug_list_string(value),
                None,
            ),
        }
    }
}

impl<'a, T> Field<&'a Option<T>> {
    /// Checks that the field is there.
    pub fn exist(&self) -> (r: ValidationResult)
        ensures
            finding(r) == presence_finding(self.label(), self.value() is Some),
    {
        presence_outcome(debug_str(self.name.as_str()), self.data.is_some())
    }

    /// Checks that the field is not there.
    pub fn not_exist(&self) -> (r: ValidationResult)
        ensures
            finding(r) == absence_finding(self.label(), self.value() is Some),
    {
        absence_outcome(debug_str(self.name.as_str()), self.data.is_some())
    }
}

} // verus!
