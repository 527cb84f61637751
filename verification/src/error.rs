//! The ways in which a conversion or a check of a document can fail.

use vstd::prelude::*;
use vstd::string::*;

verus! {

/// What keeps an operation of an OpenAPI document from becoming a method of a
/// Discovery document.
#[derive(Debug, Clone, PartialEq)]
#[allow(inconsistent_fields)]
pub enum Flaw {
    /// The operation has no `operationId`, so neither its group nor its name
    /// can be told.
    MissingOperationId,
    /// The operation has no description.
    MissingDescription,
    /// A parameter points to `reference`, and the document has no parameter
    /// under that name.
    UnresolvedParameter {
        reference: String,
    },
    /// The items of a list do not point to a definition.
    ItemsWithoutReference,
    /// The schema of the successful response has no type.
    ResponseWithoutType,
    /// The schema of the successful response is neither a pointer, nor a
    /// list, nor an object.
    UnknownResponse,
}

/// What a [`Flaw`] holds, in mathematical terms.
#[allow(inconsistent_fields)]
pub enum FlawView {
    MissingOperationId,
    MissingDescription,
    UnresolvedParameter {
        reference: Seq<char>,
    },
    ItemsWithoutReference,
    ResponseWithoutType,
    UnknownResponse,
}

impl DeepView for Flaw {
    type V = FlawView;

    open spec fn deep_view(&self) -> FlawView {
        match self {
            Flaw::MissingOperationId => FlawView::MissingOperationId,
            Flaw::MissingDescription => FlawView::MissingDescription,
            Flaw::UnresolvedParameter { reference } => FlawView::UnresolvedParameter {
                reference: reference.deep_view(),
            },
            Flaw::ItemsWithoutReference => FlawView::ItemsWithoutReference,
            Flaw::ResponseWithoutType => FlawView::ResponseWithoutType,
            Flaw::UnknownResponse => FlawView::UnknownResponse,
        }
    }
}

impl View for Flaw {
    type V = FlawView;

    open spec fn view(&self) -> FlawView {
        self.deep_view()
    }
}

/// Why an OpenAPI document could not be converted.
#[derive(Debug, Clone, PartialEq)]
#[allow(inconsistent_fields)]
pub enum ConversionError {
    /// The document lacks the field `field`, which a Discovery document
    /// cannot do without.
    MissingField {
        field: String,
    },
    /// The definition `definition` has no type.
    DefinitionWithoutType {
        definition: String,
    },
    /// The definition `definition` has no properties.
    DefinitionWithoutProperties {
        definition: String,
    },
    /// A property of the definition `definition` is a list whose items do not
    /// point to a definition.
    DefinitionItemsWithoutReference {
        definition: String,
    },
    /// The operation under `verb` at `path` has the flaw `flaw`.
    Operation {
        path: String,
        verb: String,
        flaw: Flaw,
    },
}

/// What a [`ConversionError`] holds, in mathematical terms.
#[allow(inconsistent_fields)]
pub enum ConversionErrorView {
    MissingField {
        field: Seq<char>,
    },
    DefinitionWithoutType {
        definition: Seq<char>,
    },
    DefinitionWithoutProperties {
        definition: Seq<char>,
    },
    DefinitionItemsWithoutReference {
        definition: Seq<char>,
    },
    Operation {
        path: Seq<char>,
        verb: Seq<char>,
        flaw: FlawView,
    },
}

impl DeepView for ConversionError {
    type V = ConversionErrorView;

    open spec fn deep_view(&self) -> ConversionErrorView {
        match self {
            ConversionError::MissingField { field } => ConversionErrorView::MissingField {
                field: field.deep_view(),
            },
            ConversionError::DefinitionWithoutType {
                definition,
            } => ConversionErrorView::DefinitionWithoutType {
                definition: definition.deep_view(),
            },
            ConversionError::DefinitionWithoutProperties {
                definition,
            } => ConversionErrorView::DefinitionWithoutProperties {
                definition: definition.deep_view(),
            },
            ConversionError::DefinitionItemsWithoutReference {
                definition,
            } => ConversionErrorView::DefinitionItemsWithoutReference {
                definition: definition.deep_view(),
            },
            ConversionError::Operation { path, verb, flaw } => ConversionErrorView::Operation {
                path: path.deep_view(),
                verb: verb.deep_view(),
                flaw: flaw.deep_view(),
            },
        }
    }
}

impl View for ConversionError {
    type V = ConversionErrorView;

    open spec fn view(&self) -> ConversionErrorView {
        self.deep_view()
    }
}

/// What a flaw is, in words.
pub open spec fn flaw_text(flaw: FlawView) -> Seq<char> {
    match flaw {
        FlawView::MissingOperationId => "An operation ID is lacking."@,
        FlawView::MissingDescription => "A description is lacking."@,
        FlawView::UnresolvedParameter { reference } => "The parameter "@ + reference
            + " is missing from the spec."@,
        FlawView::ItemsWithoutReference => "The items of a list point to no definition."@,
        FlawView::ResponseWithoutType => "The response needs a type."@,
        FlawView::UnknownResponse => "Unknown response"@,
    }
}

/// Why a document could not be converted, in words. The text names the
/// field, the definition, or the verb and the path of the operation that is
/// at fault.
pub open spec fn conversion_error_text(error: ConversionErrorView) -> Seq<char> {
    match error {
        ConversionErrorView::MissingField { field } => "The document needs "@ + field + "."@,
        ConversionErrorView::DefinitionWithoutType { definition } => "Definition "@ + definition
            + " needs a type."@,
        ConversionErrorView::DefinitionWithoutProperties { definition } => "Definition "@
            + definition + " needs a property."@,
        ConversionErrorView::DefinitionItemsWithoutReference { definition } => "Definition "@
            + definition + " has a list whose items point to no definition."@,
        ConversionErrorView::Operation { path, verb, flaw } => verb + " "@ + path + ": "@
            + flaw_text(flaw),
    }
}

impl Flaw {
    /// What the flaw is, in words.
    pub fn message(&self) -> (r: String)
        ensures
            r@ == flaw_text(self@),
    {
        match self {
            Flaw::MissingOperationId => String::from_str("An operation ID is lacking."),
            Flaw::MissingDescription => String::from_str("A description is lacking."),
            Flaw::UnresolvedParameter { reference } => {
                let mut r = String::from_str("The parameter ");
                r.append(reference.as_str());
                r.append(" is missing from the spec.");
                r
            },
            Flaw::ItemsWithoutReference => String::from_str(
                "The items of a list point to no definition.",
            ),
            Flaw::ResponseWithoutType => String::from_str("The response needs a type."),
            Flaw::UnknownResponse => String::from_str("Unknown response"),
        }
    }
}

impl ConversionError {
    /// Why the document could not be converted, in words.
    pub fn message(&self) -> (r: String)
        ensures
            r@ == conversion_error_text(self@),
    {
        match self {
            ConversionError::MissingField { field } => {
                let mut r = String::from_str("The document needs ");
                r.append(field.as_str());
                r.append(".");
                r
            },
            ConversionError::DefinitionWithoutType { definition } => {
                let mut r = String::from_str("Definition ");
                r.append(definition.as_str());
                r.append(" needs a type.");
                r
            },
            ConversionError::DefinitionWithoutProperties { definition } => {
                let mut r = String::from_str("Definition ");
                r.append(definition.as_str());
                r.append(" needs a property.");
                r
            },
            ConversionError::DefinitionItemsWithoutReference { definition } => {
                let mut r = String::from_str("Definition ");
                r.append(definition.as_str());
                r.append(" has a list whose items point to no definition.");
                r
            },
            ConversionError::Operation { path, verb, flaw } => {
                let mut r = verb.clone();
                r.append(" ");
                r.append(path.as_str());
                r.append(": ");
                r.append(flaw.message().as_str());
                r
            },
        }
    }
}

/// Why a document was turned down.
#[derive(Debug, Clone, PartialEq)]
pub enum OpenApiError {
    /// The text is not a document.
    Parse(String),
    /// The document breaks a rule.
    Validation(String),
}

/// What an [`OpenApiError`] holds, in mathematical terms.
pub enum OpenApiErrorView {
    Parse(Seq<char>),
    Validation(Seq<char>),
}

impl DeepView for OpenApiError {
    type V = OpenApiErrorView;

    open spec fn deep_view(&self) -> OpenApiErrorView {
        match self {
            OpenApiError::Parse(message) => OpenApiErrorView::Parse(message@),
            OpenApiError::Validation(message) => OpenApiErrorView::Validation(message@),
        }
    }
}

impl View for OpenApiError {
    type V = OpenApiErrorView;

    open spec fn view(&self) -> OpenApiErrorView {
        self.deep_view()
    }
}

/// What an error says.
pub open spec fn error_message(error: OpenApiErrorView) -> Seq<char> {
    match error {
        OpenApiErrorView::Parse(message) => message,
        OpenApiErrorView::Validation(message) => message,
    }
}

impl OpenApiError {
    /// What the error says.
    pub fn description(&self) -> (r: &str)
        ensures
            r@ == error_message(self@),
    {
        match self {
            OpenApiError::Parse(message) => message.as_str(),
            OpenApiError::Validation(message) => message.as_str(),
        }
    }

    /// What the error says, as a text of its own.
    pub fn to_string(&self) -> (r: String)
        ensures
            r@ == error_message(self@),
    {
        String::from_str(self.description())
    }
}

impl From<String> for OpenApiError {
    /// A complaint about a rule that a document breaks.
    fn from(err: String) -> (r: OpenApiError) {
        OpenApiError::Validation(err)
    }
}

impl vstd::std_specs::convert::FromSpecImpl<String> for OpenApiError {
    open spec fn obeys_from_spec() -> bool {
        true
    }

    open spec fn from_spec(err: String) -> OpenApiError {
        OpenApiError::Validation(err)
    }
}

/// What a result holds, in mathematical terms: the view of the value or the
/// view of the error.
pub open spec fn outcome<T: DeepView, E: DeepView>(r: Result<T, E>) -> Result<T::V, E::V> {
    match r {
        Ok(value) => Ok(value.deep_view()),
        Err(error) => Err(error.deep_view()),
    }
}

} // verus!
