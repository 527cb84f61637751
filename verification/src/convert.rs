//! Converting a document of either kind to either kind.

use vstd::prelude::*;
use crate::discovery::{Spec as DiscoverySpec, SpecView as DiscoverySpecView};
use crate::error::{ConversionError, ConversionErrorView};
use crate::google_to_openapi::{google_spec_to_openapi, openapi_of, spec_convertible};
use crate::openapi::{Spec as OpenApiSpec, SpecView as OpenApiSpecView};
use crate::openapi_to_google::{discovery_of, openapi_spec_to_google};
use crate::validation::{spec_report, OpenAPIValidation, ValidationOptions};
use crate::validation_results::{Report, ValidationResults};

verus! {

/// A document of one of the two kinds.
#[derive(Debug, PartialEq)]
pub enum Document {
    /// An OpenAPI document.
    OpenApi(OpenApiSpec),
    /// A Discovery document.
    Discovery(DiscoverySpec),
}

/// What a [`Document`] holds, in mathematical terms.
pub enum DocumentView {
    OpenApi(OpenApiSpecView),
    Discovery(DiscoverySpecView),
}

impl DeepView for Document {
    type V = DocumentView;

    open spec fn deep_view(&self) -> DocumentView {
        match self {
            Document::OpenApi(spec) => DocumentView::OpenApi(spec@),
            Document::Discovery(spec) => DocumentView::Discovery(spec@),
        }
    }
}

impl View for Document {
    type V = DocumentView;

    open spec fn view(&self) -> DocumentView {
        self.deep_view()
    }
}

/// The kind of document that a conversion is to give.
#[derive(Debug, Clone, Copy, PartialEq, Eq)]
pub enum Format {
    /// An OpenAPI document.
    OpenApi,
    /// A Discovery document.
    Discovery,
}

/// Why a document was not converted.
#[derive(Debug)]
pub enum ConvertError {
    /// The OpenAPI document breaks the rules for documents that are meant to
    /// be converted. The report holds what was found.
    Invalid(ValidationResults),
    /// The OpenAPI document follows the rules, and still has no Discovery
    /// document.
    Conversion(ConversionError),
}

/// What a [`ConvertError`] holds, in mathematical terms.
pub enum ConvertErrorView {
    Invalid(Report),
    Conversion(ConversionErrorView),
}

impl DeepView for ConvertError {
    type V = ConvertErrorView;

    open spec fn deep_view(&self) -> ConvertErrorView {
        match self {
            ConvertError::Invalid(results) => ConvertErrorView::Invalid(results@),
            ConvertError::Conversion(error) => ConvertErrorView::Conversion(error@),
        }
    }
}

impl View for ConvertError {
    type V = ConvertErrorView;

    open spec fn view(&self) -> ConvertErrorView {
        self.deep_view()
    }
}

/// Whether a document can go into a conversion: the pointers of a Discovery
/// document must name what they point to.
pub open spec fn convertible(document: DocumentView) -> bool {
    match document {
        DocumentView::OpenApi(spec) => true,
        DocumentView::Discovery(spec) => spec_convertible(spec),
    }
}

/// The OpenAPI document that a document stands for: itself, or what a
/// Discovery document converts to.
pub open spec fn as_openapi(document: DocumentView) -> OpenApiSpecView {
    match document {
        DocumentView::OpenApi(spec) => spec,
        DocumentView::Discovery(spec) => openapi_of(spec),
    }
}

/// What a conversion gives.
///
/// Every document is first taken as an OpenAPI document. That is the result
/// where an OpenAPI document is asked for. Where a Discovery document is
/// asked for, the OpenAPI document is validated as one that is meant to be
/// converted: if the validation finds an error, its report is the failure;
/// else the result is the Discovery document for the OpenAPI document, or the
/// failure of that conversion.
pub open spec fn conversion(document: DocumentView, to: Format) -> Result<
    DocumentView,
    ConvertErrorView,
> {
    let openapi = as_openapi(document);
    match to {
        Format::OpenApi => Ok(DocumentView::OpenApi(openapi)),
        Format::Discovery => {
            let report = spec_report(openapi, ValidationOptions { support_google_spec: true });
            if report.errors.len() > 0 {
                Err(ConvertErrorView::Invalid(report))
            } else {
                match discovery_of(openapi) {
                    Ok(discovery) => Ok(DocumentView::Discovery(discovery)),
                    Err(error) => Err(ConvertErrorView::Conversion(error)),
                }
            }
        },
    }
}

/// Converts a document to the kind that is asked for.
pub fn convert(document: Document, to: Format) -> (r: Result<Document, ConvertError>)
    requires
        convertible(document@),
    ensures
        match r {
            Ok(converted) => conversion(document@, to) == Ok::<DocumentView, ConvertErrorView>(
                converted@,
            ),
            Err(error) => conversion(document@, to) == Err::<DocumentView, ConvertErrorView>(
                error@,
            ),
        },
{
    let openapi = match document {
        Document::OpenApi(spec) => spec,
        Document::Discovery(spec) => google_spec_to_openapi(&spec),
    };
    match to {
        Format::OpenApi => Ok(Document::OpenApi(openapi)),
        Format::Discovery => {
            let results = openapi.validate(&ValidationOptions { support_google_spec: true });
            if results.failed() {
                Err(ConvertError::Invalid(results))
            } else {
                match openapi_spec_to_google(&openapi) {
                    Ok(discovery) => Ok(Document::Discovery(discovery)),
                    Err(error) => Err(ConvertError::Conversion(error)),
                }
            }
        },
    }
}

} // verus!
