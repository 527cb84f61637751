use oatool::error::OpenApiError;
use oatool::openapi::{
    Contact, Info, Operation, Operations, Parameter, ParameterOrRef, Response, Schema, Spec,
};
use oatool::ordered_map::OrderedMap;
use oatool::references::{missing_reference_message, spec_contains, validate, validate_method};

fn operation() -> Operation {
    Operation {
        summary: None,
        description: None,
        consumes: None,
        produces: None,
        schemes: None,
        tags: None,
        operation_id: None,
        responses: OrderedMap::new(),
        parameters: None,
    }
}

fn pointing_to(target: &str) -> Response {
    Response {
        description: "A response".to_string(),
        schema: Some(Schema { ref_path: Some(target.to_string()), ..Default::default() }),
    }
}

fn document() -> Spec {
    let mut definitions = OrderedMap::new();
    definitions.insert("User".to_string(), Schema::default());
    let mut parameters = OrderedMap::new();
    parameters.insert("limit".to_string(), Parameter {
        name: "limit".to_string(),
        location: "query".to_string(),
        description: None,
        required: None,
        format: None,
        param_type: None,
        schema: None,
        unique_items: None,
    });
    Spec {
        swagger: "2.0".to_string(),
        info: Info {
            title: None,
            description: Some("An API".to_string()),
            version: Some("v1".to_string()),
            terms_of_service: Some("https://example.com/terms".to_string()),
            license: None,
            contact: Some(Contact { name: None, email: None, url: None }),
        },
        paths: OrderedMap::new(),
        definitions: Some(definitions),
        schemes: Some(vec!["https".to_string()]),
        host: None,
        base_path: None,
        consumes: None,
        produces: None,
        parameters: Some(parameters),
        responses: None,
    }
}

fn complaint(message: &str) -> OpenApiError {
    OpenApiError::Validation(message.to_string())
}

#[test]
fn a_complete_document_is_handed_back() {
    let mut spec = document();
    let mut get = operation();
    get.parameters = Some(vec![ParameterOrRef::Ref { ref_path: "#/parameters/limit".to_string() }]);
    get.responses.insert("200".to_string(), pointing_to("#/definitions/User"));
    get.responses.insert("404".to_string(), Response {
        description: "Not there".to_string(),
        schema: None,
    });
    spec.paths.insert("/users".to_string(), Operations { get: Some(get), ..Default::default() });
    let checked = validate(&spec).unwrap();
    assert!(std::ptr::eq(checked, &spec));
}

#[test]
fn the_metadata_must_be_complete() {
    let mut spec = document();
    spec.schemes = Some(vec!["http".to_string()]);
    assert_eq!(
        validate(&spec).unwrap_err(),
        complaint("Scheme is not https. Only https is a valid scheme.")
    );
    spec.schemes = Some(vec!["https".to_string(), "http".to_string()]);
    assert_eq!(
        validate(&spec).unwrap_err(),
        complaint("Scheme is not https. Only https is a valid scheme.")
    );
    spec.schemes = None;
    assert_eq!(
        validate(&spec).unwrap_err(),
        complaint("No schemes information found. Add the https scheme")
    );
    spec.info.contact = None;
    assert_eq!(
        validate(&spec).unwrap_err(),
        complaint("No contact information found. Must specify info.contact")
    );
    spec.info.terms_of_service = None;
    assert_eq!(
        validate(&spec).unwrap_err(),
        complaint("No terms of service found. Must specify info.termsOfService")
    );
    spec.info.description = None;
    assert_eq!(
        validate(&spec).unwrap_err(),
        complaint("No API description found. Must specify info.description")
    );
    spec.info.version = None;
    assert_eq!(
        validate(&spec).unwrap_err(),
        complaint("No API version found. Must specify info.version")
    );
}

#[test]
fn pointers_must_lead_somewhere() {
    let mut spec = document();
    let mut get = operation();
    get.responses.insert("200".to_string(), pointing_to("#/definitions/Account"));
    let mut post = operation();
    post.parameters =
        Some(vec![ParameterOrRef::Ref { ref_path: "#/parameters/offset".to_string() }]);
    spec.paths.insert("/users".to_string(), Operations {
        get: Some(get),
        post: Some(post),
        ..Default::default()
    });
    let error = validate(&spec).unwrap_err();
    assert_eq!(
        error,
        complaint(
            "The definition \"#/definitions/Account\" used in \"/users\" is missing from the spec"
        )
    );
    assert_eq!(
        error.description(),
        "The definition \"#/definitions/Account\" used in \"/users\" is missing from the spec"
    );
    assert_eq!(error.to_string(), error.description());

    spec.paths.insert("/users".to_string(), Operations {
        post: Some(Operation {
            parameters: Some(vec![ParameterOrRef::Ref {
                ref_path: "#/parameters/offset".to_string(),
            }]),
            ..operation()
        }),
        ..Default::default()
    });
    assert_eq!(
        validate(&spec).unwrap_err(),
        complaint(
            "The parameter \"#/parameters/offset\" used in \"/users\" is missing from the spec"
        )
    );
}

#[test]
fn only_get_and_post_are_looked_at() {
    let mut spec = document();
    let mut put = operation();
    put.responses.insert("200".to_string(), pointing_to("#/definitions/Account"));
    spec.paths.insert("/users".to_string(), Operations { put: Some(put), ..Default::default() });
    assert!(validate(&spec).is_ok());
}

#[test]
fn a_document_without_tables_offers_no_pointers() {
    let mut spec = document();
    spec.parameters = None;
    spec.definitions = None;
    let mut get = operation();
    get.parameters = Some(vec![ParameterOrRef::Ref { ref_path: "#/parameters/limit".to_string() }]);
    spec.paths.insert("/users".to_string(), Operations { get: Some(get), ..Default::default() });
    assert_eq!(
        validate(&spec).unwrap_err(),
        complaint(
            "The parameter \"#/parameters/limit\" used in \"/users\" is missing from the spec"
        )
    );
}

#[test]
fn a_method_is_checked_against_the_pointers_it_is_given() {
    let params = Some(vec!["#/parameters/limit".to_string()]);
    let definitions = Some(vec!["#/definitions/User".to_string()]);
    let mut method = operation();
    method.parameters = Some(vec![
        ParameterOrRef::Ref { ref_path: "#/parameters/limit".to_string() },
        ParameterOrRef::Parameter {
            name: "id".to_string(),
            location: "path".to_string(),
            description: None,
            required: None,
            format: None,
            param_type: None,
            schema: None,
            unique_items: None,
        },
    ]);
    method.responses.insert("200".to_string(), pointing_to("#/definitions/User"));
    assert_eq!(validate_method("/users", &method, &params, &definitions), Ok(()));
    assert_eq!(
        validate_method("/users", &method, &params, &None),
        Err(complaint(
            "The definition \"#/definitions/User\" used in \"/users\" is missing from the spec"
        ))
    );
    assert_eq!(
        validate_method("/users", &method, &Some(vec![]), &None),
        Err(complaint(
            "The parameter \"#/parameters/limit\" used in \"/users\" is missing from the spec"
        ))
    );
    assert!(spec_contains(&params, "#/parameters/limit"));
    assert!(!spec_contains(&params, "#/parameters/offset"));
    assert!(!spec_contains(&None, "#/parameters/limit"));
}

#[test]
fn errors_say_what_they_hold() {
    let parse = OpenApiError::Parse("not a document".to_string());
    assert_eq!(parse.description(), "not a document");
    assert_eq!(parse.to_string(), "not a document");
    let from: OpenApiError = "broken".to_string().into();
    assert_eq!(from, complaint("broken"));
    assert_eq!(OpenApiError::from("broken".to_string()).description(), "broken");
}

#[test]
fn a_complaint_is_built_from_what_is_written() {
    assert_eq!(
        missing_reference_message("The parameter ", "<pointer>", "<path>"),
        "The parameter <pointer> used in <path> is missing from the spec"
    );
}
