//! The rules that an OpenAPI document is held to. A validation goes through
//! the whole document and reports every finding: an error where a rule is
//! broken, a warning where something is unusual.

use vstd::prelude::*;
use vstd::string::*;
use crate::field_assert::{
    absence_finding, equality_finding, length_finding, match_finding, presence_finding,
    regex_match, Assert, Field,
};
use crate::naming::{snake_case_of, to_snake_case};
use crate::openapi::{
    Contact, ContactView, Info, InfoView, Operation, OperationView, Operations, OperationsView,
    Parameter, ParameterView, Spec, SpecView,
};
use crate::ordered_map::OrderedMap;
use crate::render::{debug_list, debug_text};
use crate::text::{joined, one_text};
use crate::validation_results::{
    empty_report, merged, with_error, with_warning, Report, ValidationResults,
};

verus! {

/// What a validation is to look at.
#[derive(Debug, Clone, Copy)]
pub struct ValidationOptions {
    /// Whether the document is meant to be converted to a Discovery document.
    pub support_google_spec: bool,
}

impl Default for ValidationOptions {
    /// The options for a document that is not meant to be converted.
    fn default() -> (r: Self)
        ensures
            !r.support_google_spec,
    {
        ValidationOptions { support_google_spec: false }
    }
}

/// A part of a document that can be held to the rules.
pub trait OpenAPIValidation {
    /// What a validation of this part finds.
    spec fn report(&self, options: ValidationOptions) -> Report;

    /// Validates this part.
    fn validate(&self, options: &ValidationOptions) -> (r: ValidationResults)
        ensures
            r@ == self.report(*options),
    ;
}

impl ValidationResults {
    /// Validates a part of a document and takes over what was found.
    pub fn validate<T: OpenAPIValidation>(&mut self, element: &T, options: &ValidationOptions)
        ensures
            final(self)@ == merged(old(self)@, element.report(*options)),
    {
        let found = element.validate(options);
        self.merge(&found);
    }
}

/// The pattern that a base path follows: a `/`, then words separated by `/`.
pub open spec fn base_path_pattern() -> Seq<char> {
    "^/\\w*(/\\w+)*$"@
}

/// The number of characters that the summary of an operation must stay
/// under.
pub open spec fn summary_limit() -> nat {
    120
}

/// What a validation of the contact finds: its name and its email must be
/// there.
pub open spec fn contact_report(contact: ContactView) -> Report {
    let r = with_error(
        empty_report(),
        presence_finding("info.contact.name"@, contact.name is Some),
    );
    with_error(r, presence_finding("info.contact.email"@, contact.email is Some))
}

/// What a validation of the metadata finds. The title, the description and
/// the contact must be there, and the version too where the document is meant
/// to be converted. Terms of service and a license should not be there.
pub open spec fn info_report(info: InfoView, options: ValidationOptions) -> Report {
    let r = with_error(empty_report(), presence_finding("info.title"@, info.title is Some));
    let r = with_error(r, presence_finding("info.description"@, info.description is Some));
    let r = if options.support_google_spec {
        with_error(r, presence_finding("info.version"@, info.version is Some))
    } else {
        r
    };
    let r = with_warning(
        r,
        absence_finding("info.terms_of_service"@, info.terms_of_service is Some),
    );
    let r = with_warning(r, absence_finding("info.license"@, info.license is Some));
    let r = with_error(r, presence_finding("info.contact"@, info.contact is Some));
    match info.contact {
        Some(contact) => merged(r, contact_report(contact)),
        None => r,
    }
}

/// The name under which a field of the operation at `path` appears in
/// complaints.
pub open spec fn operation_field(field: Seq<char>, path: Seq<char>) -> Seq<char> {
    field + " in '"@ + path + "'"@
}

/// What a validation of one operation finds. It must have a description,
/// and its summary, where it has one, must stay under the limit.
/// Schemes and media types belong to the document, not to an operation. It
/// must have an id where the document is meant to be converted, and must not
/// have one otherwise.
pub open spec fn operation_report(
    path: Seq<char>,
    operation: Option<OperationView>,
    options: ValidationOptions,
) -> Report {
    match operation {
        None => empty_report(),
        Some(op) => {
            let r = with_error(
                empty_report(),
                presence_finding(operation_field("description"@, path), op.description is Some),
            );
            let r = with_error(
                r,
                length_finding(operation_field("summary"@, path), op.summary, summary_limit()),
            );
            let r = with_warning(
                r,
                absence_finding(operation_field("schemes"@, path), op.schemes is Some),
            );
            let r = with_warning(
                r,
                absence_finding(operation_field("consumes"@, path), op.consumes is Some),
            );
            let r = with_warning(
                r,
                absence_finding(operation_field("produces"@, path), op.produces is Some),
            );
            if options.support_google_spec {
                with_error(
                    r,
                    presence_finding(
                        operation_field("operation_id"@, path),
                        op.operation_id is Some,
                    ),
                )
            } else {
                with_error(
                    r,
                    absence_finding(
                        operation_field("operation_id"@, path),
                        op.operation_id is Some,
                    ),
                )
            }
        },
    }
}

/// What a validation of one path finds, given the snake case form of the
/// path: the path must be written in snake case, and each of its operations
/// is validated, verb by verb.
pub open spec fn path_report(
    path: Seq<char>,
    operations: OperationsView,
    options: ValidationOptions,
    snake: Seq<char>,
) -> Report {
    let r = with_error(
        empty_report(),
        equality_finding(
            "path name"@,
            path == snake,
            debug_text(snake),
            Some(debug_text(path)),
        ),
    );
    let r = merged(r, operation_report(path, operations.get, options));
    let r = merged(r, operation_report(path, operations.post, options));
    let r = merged(r, operation_report(path, operations.put, options));
    let r = merged(r, operation_report(path, operations.patch, options));
    let r = merged(r, operation_report(path, operations.delete, options));
    let r = merged(r, operation_report(path, operations.options, options));
    merged(r, operation_report(path, operations.head, options))
}

/// What a validation of the first `n` paths finds.
pub open spec fn paths_report_upto(
    paths: Seq<(Seq<char>, OperationsView)>,
    options: ValidationOptions,
    n: nat,
) -> Report
    decreases n,
{
    if n == 0 {
        empty_report()
    } else {
        merged(
            paths_report_upto(paths, options, (n - 1) as nat),
            path_report(paths[n - 1].0, paths[n - 1].1, options, snake_case_of(paths[n - 1].0)),
        )
    }
}

/// What a validation of the paths finds.
pub open spec fn paths_report(
    paths: Seq<(Seq<char>, OperationsView)>,
    options: ValidationOptions,
) -> Report {
    paths_report_upto(paths, options, paths.len())
}

/// What a check of a list against the only list it may be finds.
pub open spec fn list_finding(
    name: Seq<char>,
    list: Option<Seq<Seq<char>>>,
    expected: Seq<Seq<char>>,
) -> Option<Seq<char>> {
    equality_finding(
        name,
        list == Some(expected),
        debug_list(expected),
        match list {
            Some(texts) => Some(debug_list(texts)),
            None => None,
        },
    )
}

/// The complaint about the version of a document, if it is not `2.0`.
pub open spec fn version_finding(swagger: Seq<char>) -> Option<Seq<char>> {
    equality_finding(
        "version"@,
        swagger == "2.0"@,
        debug_text("2.0"@),
        Some(debug_text(swagger)),
    )
}

/// What a validation finds in the fields of the document itself.
///
/// The version must be `2.0`. A host should not be there. The base path must
/// be there and follow its pattern. The schemes must be there and be `https`
/// alone; what the API consumes and produces must be there and be
/// `application/json` alone.
pub open spec fn fields_report(spec: SpecView) -> Report {
    let r = with_error(empty_report(), version_finding(spec.swagger));
    let r = with_warning(r, absence_finding("host"@, spec.host is Some));
    let r = with_error(r, presence_finding("basePath"@, spec.base_path is Some));
    let r = with_error(
        r,
        match_finding(
            "basePath"@,
            spec.base_path,
            base_path_pattern(),
            match spec.base_path {
                Some(path) => regex_match(base_path_pattern(), path),
                None => None,
            },
        ),
    );
    let r = with_error(r, presence_finding("schemes"@, spec.schemes is Some));
    let r = with_error(r, list_finding("schemes"@, spec.schemes, seq!["https"@]));
    let r = with_error(r, presence_finding("consumes"@, spec.consumes is Some));
    let r = with_error(r, list_finding("consumes"@, spec.consumes, seq!["application/json"@]));
    let r = with_error(r, presence_finding("produces"@, spec.produces is Some));
    with_error(r, list_finding("produces"@, spec.produces, seq!["application/json"@]))
}

/// What a validation of a document finds: what it finds in the fields of the
/// document itself, then in the metadata, then in the paths. Definitions and
/// parameters should be there.
pub open spec fn spec_report(spec: SpecView, options: ValidationOptions) -> Report {
    let r = merged(fields_report(spec), info_report(spec.info, options));
    let r = merged(r, paths_report(spec.paths, options));
    let r = with_warning(r, presence_finding("definitions block"@, spec.definitions is Some));
    with_warning(r, presence_finding("parameters block"@, spec.parameters is Some))
}

/// What a validation of one parameter finds, given the snake case form of
/// its name: the name must be written in snake case unless the parameter is
/// a header, and the type and the description must be there.
pub open spec fn parameter_report(parameter: ParameterView, snake: Seq<char>) -> Report {
    let r = if parameter.location != "header"@ {
        with_error(
            empty_report(),
            equality_finding(
                "parameter.name "@ + parameter.name,
                parameter.name == snake,
                debug_text(snake),
                Some(debug_text(parameter.name)),
            ),
        )
    } else {
        empty_report()
    };
    let r = with_error(
        r,
        presence_finding(
            "parameter.param_type "@ + parameter.name,
            parameter.param_type is Some,
        ),
    );
    with_error(
        r,
        presence_finding(
            "parameter.description "@ + parameter.name,
            parameter.description is Some,
        ),
    )
}

impl OpenAPIValidation for Contact {
    open spec fn report(&self, options: ValidationOptions) -> Report {
        contact_report(self@)
    }

    fn validate(&self, options: &ValidationOptions) -> (r: ValidationResults) {
        let mut r = ValidationResults::new();
        let contact_name = Field::new(&self.name, "info.contact.name");
        let contact_email = Field::new(&self.email, "info.contact.email");
        r.assert_error(&contact_name.exist());
        r.assert_error(&contact_email.exist());
        r
    }
}

impl OpenAPIValidation for Info {
    open spec fn report(&self, options: ValidationOptions) -> Report {
        info_report(self@, options)
    }

    fn validate(&self, options: &ValidationOptions) -> (r: ValidationResults) {
        let mut r = ValidationResults::new();
        let title = Field::new(&self.title, "info.title");
        let description = Field::new(&self.description, "info.description");
        let version = Field::new(&self.version, "info.version");
        let contact = Field::new(&self.contact, "info.contact");
        let terms_of_service = Field::new(&self.terms_of_service, "info.terms_of_service");
        let license = Field::new(&self.license, "info.license");
        r.assert_error(&title.exist());
        r.assert_error(&description.exist());
        if options.support_google_spec {
            r.assert_error(&version.exist());
        }
        r.assert_warn(&terms_of_service.not_exist());
        r.assert_warn(&license.not_exist());
        r.assert_error(&contact.exist());
        match &self.contact {
            Some(contact) => {
                r.validate(contact, options);
            },
            None => {},
        }
        r
    }
}

/// One verb of one path: the path, and the operation that stands under the
/// verb, if there is one.
pub struct PathOperation<'a> {
    pub path: &'a str,
    pub operation: &'a Option<Operation>,
}

fn operation_field_name(field: &str, path: &str) -> (r: String)
    ensures
        r@ == operation_field(field@, path@),
{
    let mut r = String::from_str(field);
    r.append(" in '");
    r.append(path);
    r.append("'");
    r
}

impl<'a> OpenAPIValidation for PathOperation<'a> {
    open spec fn report(&self, options: ValidationOptions) -> Report {
        operation_report(self.path@, self.operation.deep_view(), options)
    }

    fn validate(&self, options: &ValidationOptions) -> (r: ValidationResults) {
        let mut r = ValidationResults::new();
        let path = self.path;
        match self.operation {
            None => r,
            Some(operation) => {
                let summary = Field::new(
                    &operation.summary,
                    operation_field_name("summary", path).as_str(),
                );
                let description = Field::new(
                    &operation.description,
                    operation_field_name("description", path).as_str(),
                );
                let schemes = Field::new(
                    &operation.schemes,
                    operation_field_name("schemes", path).as_str(),
                );
                let consumes = Field::new(
                    &operation.consumes,
                    operation_field_name("consumes", path).as_str(),
                );
                let produces = Field::new(
                    &operation.produces,
                    operation_field_name("produces", path).as_str(),
                );
                let operation_id = Field::new(
                    &operation.operation_id,
                    operation_field_name("operation_id", path).as_str(),
                );
                r.assert_error(&description.exist());
                r.assert_error(&summary.length_less_than(120));
                r.assert_warn(&schemes.not_exist());
                r.assert_warn(&consumes.not_exist());
                r.assert_warn(&produces.not_exist());
                if options.support_google_spec {
                    r.assert_error(&operation_id.exist());
                } else {
                    r.assert_error(&operation_id.not_exist());
                }
                r
            },
        }
    }
}

/// Validates one path, given the snake case form of the path.
pub fn validate_path(
    path: &String,
    operations: &Operations,
    options: &ValidationOptions,
    snake: &String,
) -> (r: ValidationResults)
    ensures
        r@ == path_report(path@, operations@, *options, snake@),
{
    let mut r = ValidationResults::new();
    r.assert_error(&Field::new(path, "path name").eq(snake));
    r.validate(&PathOperation { path: path.as_str(), operation: &operations.get }, options);
    r.validate(&PathOperation { path: path.as_str(), operation: &operations.post }, options);
    r.validate(&PathOperation { path: path.as_str(), operation: &operations.put }, options);
    r.validate(&PathOperation { path: path.as_str(), operation: &operations.patch }, options);
    r.validate(&PathOperation { path: path.as_str(), operation: &operations.delete }, options);
    r.validate(&PathOperation { path: path.as_str(), operation: &operations.options }, options);
    r.validate(&PathOperation { path: path.as_str(), operation: &operations.head }, options);
    r
}

impl OpenAPIValidation for OrderedMap<Operations> {
    open spec fn report(&self, options: ValidationOptions) -> Report {
        paths_report(self.deep_view(), options)
    }

    fn validate(&self, options: &ValidationOptions) -> (r: ValidationResults) {
        let mut r = ValidationResults::new();
        let n = self.len();
        let mut i: usize = 0;
        while i < n
            invariant
                i <= n,
                n == self.deep_view().len(),
                n == self.entries().len(),
                r@ == paths_report_upto(self.deep_view(), *options, i as nat),
            decreases n - i,
        {
            let path = self.key(i);
            let snake = to_snake_case(path.as_str());
            let found = validate_path(path, self.value(i), options, &snake);
            r.merge(&found);
            i = i + 1;
        }
        r
    }
}

/// Validates one parameter, given the snake case form of its name.
pub fn validate_parameter(parameter: &Parameter, snake: &String) -> (r: ValidationResults)
    ensures
        r@ == parameter_report(parameter@, snake@),
{
    let mut r = ValidationResults::new();
    let name = Field::new(
        &parameter.name,
        joined("parameter.name ", parameter.name.as_str()).as_str(),
    );
    let param_type = Field::new(
        &parameter.param_type,
        joined("parameter.param_type ", parameter.name.as_str()).as_str(),
    );
    let description = Field::new(
        &parameter.description,
        joined("parameter.description ", parameter.name.as_str()).as_str(),
    );
    if !crate::text::text_eq(parameter.location.as_str(), "header") {
        r.assert_error(&name.eq(snake));
    }
    r.assert_error(&param_type.exist());
    r.assert_error(&description.exist());
    r
}

impl OpenAPIValidation for Parameter {
    open spec fn report(&self, options: ValidationOptions) -> Report {
        parameter_report(self@, snake_case_of(self@.name))
    }

    fn validate(&self, options: &ValidationOptions) -> (r: ValidationResults) {
        let snake = to_snake_case(self.name.as_str());
        validate_parameter(self, &snake)
    }
}

impl OpenAPIValidation for Spec {
    open spec fn report(&self, options: ValidationOptions) -> Report {
        spec_report(self@, options)
    }

    fn validate(&self, options: &ValidationOptions) -> (r: ValidationResults) {
        let mut r = ValidationResults::new();
        let swagger = Field::new(&self.swagger, "version");
        let host = Field::new(&self.host, "host");
        let base_path = Field::new(&self.base_path, "basePath");
        let schemes = Field::new(&self.schemes, "schemes");
        let consumes = Field::new(&self.consumes, "consumes");
        let produces = Field::new(&self.produces, "produces");
        let definitions = Field::new(&self.definitions, "definitions block");
        let parameters = Field::new(&self.parameters, "parameters block");
        let version = String::from_str("2.0");
        let https = one_text("https");
        let json = one_text("application/json");

        r.assert_error(&swagger.eq(&version));
        r.assert_warn(&host.not_exist());
        r.assert_error(&base_path.exist());
        r.assert_error(&base_path.is_match("^/\\w*(/\\w+)*$"));
        r.assert_error(&schemes.exist());
        r.assert_error(&schemes.eq(https.as_slice()));
        r.assert_error(&consumes.exist());
        r.assert_error(&consumes.eq(json.as_slice()));
        r.assert_error(&produces.exist());
        r.assert_error(&produces.eq(json.as_slice()));
        r.validate(&self.info, options);
        r.validate(&self.paths, options);
        r.assert_warn(&definitions.exist());
        r.assert_warn(&parameters.exist());
        r
    }
}

} // verus!
