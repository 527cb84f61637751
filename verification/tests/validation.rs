use oatool::field_assert::{
    absence_outcome, equality_outcome, presence_outcome, Assert, Field,
};
use oatool::openapi::{Contact, Info, License, Operation, Operations, Parameter, Spec};
use oatool::ordered_map::OrderedMap;
use oatool::validation::{
    validate_parameter, validate_path, OpenAPIValidation, PathOperation, ValidationOptions,
};
use oatool::validation_results::ValidationResults;

fn text(s: &str) -> Option<String> {
    Some(s.to_string())
}

fn good_operation() -> Operation {
    Operation {
        summary: text("Lists the users"),
        description: text("Lists all users"),
        consumes: None,
        produces: None,
        schemes: None,
        tags: None,
        operation_id: None,
        responses: OrderedMap::new(),
        parameters: None,
    }
}

fn good_document() -> Spec {
    // The snake case form of a path has no `/`, so only a path without one
    // is equal to it.
    let mut paths = OrderedMap::new();
    paths.insert("users".to_string(), Operations {
        get: Some(good_operation()),
        ..Default::default()
    });
    Spec {
        swagger: "2.0".to_string(),
        info: Info {
            title: text("Users"),
            description: text("All about users"),
            version: text("v1"),
            terms_of_service: None,
            license: None,
            contact: Some(Contact { name: text("Me"), email: text("me@example.com"), url: None }),
        },
        paths,
        definitions: Some(OrderedMap::new()),
        schemes: Some(vec!["https".to_string()]),
        host: None,
        base_path: text("/api/v1"),
        consumes: Some(vec!["application/json".to_string()]),
        produces: Some(vec!["application/json".to_string()]),
        parameters: Some(OrderedMap::new()),
        responses: None,
    }
}

fn plain() -> ValidationOptions {
    ValidationOptions::default()
}

fn google() -> ValidationOptions {
    ValidationOptions { support_google_spec: true }
}

#[test]
fn a_good_document_passes() {
    let results = good_document().validate(&plain());
    assert_eq!(results.errors(), Vec::<String>::new());
    assert_eq!(results.warnings(), Vec::<String>::new());
    assert!(!results.failed());
    assert_eq!(results.to_string(), "");
    assert!(!plain().support_google_spec);
}

#[test]
fn a_wrong_version_is_one_error() {
    let mut spec = good_document();
    spec.swagger = "1.0".to_string();
    let results = spec.validate(&plain());
    assert!(results.failed());
    let citing: Vec<String> =
        results.errors().into_iter().filter(|message| message.contains("version")).collect();
    assert_eq!(citing, vec![
        "Expected version to be \"2.0\" but it was Some(\"1.0\")".to_string(),
    ]);
    assert_eq!(results.errors().len(), 1);
    assert_eq!(results.warnings().len(), 0);
    let results = spec.validate(&google());
    let citing: Vec<String> =
        results.errors().into_iter().filter(|message| message.contains("version")).collect();
    assert_eq!(citing.len(), 1);
}

#[test]
fn validation_finds_the_same_every_time() {
    let mut spec = good_document();
    spec.swagger = "3.0".to_string();
    spec.host = text("example.com");
    spec.info.title = None;
    spec.schemes = Some(vec!["http".to_string()]);
    let first = spec.validate(&google());
    let second = spec.validate(&google());
    assert_eq!(first.errors(), second.errors());
    assert_eq!(first.warnings(), second.warnings());
    assert_eq!(first.to_string(), second.to_string());
    assert!(first.errors().len() >= 3);
}

#[test]
fn every_finding_is_reported_in_order() {
    let spec = Spec {
        swagger: "1.2".to_string(),
        info: Info {
            title: None,
            description: None,
            version: None,
            terms_of_service: text("https://example.com/terms"),
            license: Some(License { name: text("MIT"), url: None }),
            contact: None,
        },
        paths: OrderedMap::new(),
        definitions: None,
        schemes: None,
        host: text("example.com"),
        base_path: None,
        consumes: None,
        produces: Some(vec!["text/xml".to_string(), "application/json".to_string()]),
        parameters: None,
        responses: None,
    };
    let results = spec.validate(&google());
    assert_eq!(results.errors(), vec![
        "Expected version to be \"2.0\" but it was Some(\"1.2\")",
        "\"basePath\" does not exist in the spec. It needs to be set to a value.",
        "\"schemes\" does not exist in the spec. It needs to be set to a value.",
        "Expected schemes to be [\"https\"] but it was None",
        "\"consumes\" does not exist in the spec. It needs to be set to a value.",
        "Expected consumes to be [\"application/json\"] but it was None",
        "Expected produces to be [\"application/json\"] but it was Some([\"text/xml\", \"application/json\"])",
        "\"info.title\" does not exist in the spec. It needs to be set to a value.",
        "\"info.description\" does not exist in the spec. It needs to be set to a value.",
        "\"info.version\" does not exist in the spec. It needs to be set to a value.",
        "\"info.contact\" does not exist in the spec. It needs to be set to a value.",
    ]);
    assert_eq!(results.warnings(), vec![
        "\"host\" exists in the spec but it should not.",
        "\"info.terms_of_service\" exists in the spec but it should not.",
        "\"info.license\" exists in the spec but it should not.",
        "\"definitions block\" does not exist in the spec. It needs to be set to a value.",
        "\"parameters block\" does not exist in the spec. It needs to be set to a value.",
    ]);
    assert!(results.failed());
}

#[test]
fn the_version_of_the_api_is_needed_for_conversion_only() {
    let mut info = good_document().info;
    info.version = None;
    assert!(!info.validate(&plain()).failed());
    let results = info.validate(&google());
    assert_eq!(results.errors(), vec![
        "\"info.version\" does not exist in the spec. It needs to be set to a value.",
    ]);
}

#[test]
fn a_contact_needs_name_and_email() {
    let contact = Contact { name: None, email: None, url: text("https://example.com") };
    let results = contact.validate(&plain());
    assert_eq!(results.errors(), vec![
        "\"info.contact.name\" does not exist in the spec. It needs to be set to a value.",
        "\"info.contact.email\" does not exist in the spec. It needs to be set to a value.",
    ]);
    let mut info = good_document().info;
    info.contact = Some(contact);
    let results = info.validate(&plain());
    assert_eq!(results.errors().len(), 2);
    assert_eq!(results.warnings().len(), 0);
}

#[test]
fn the_base_path_must_follow_its_pattern() {
    for good in ["/", "/api", "/api/v1", "/a_b/c1"] {
        let mut spec = good_document();
        spec.base_path = text(good);
        assert!(!spec.validate(&plain()).failed(), "{}", good);
    }
    for bad in ["", "api", "/api/", "/api//v1", "/api/v-1", "//", "/api v1"] {
        let mut spec = good_document();
        spec.base_path = text(bad);
        let results = spec.validate(&plain());
        assert_eq!(results.errors(), vec![format!(
            "The value {} for basePath does not follow the proper format of the guidelines",
            bad
        )]);
    }
}

#[test]
fn a_field_is_matched_against_any_pattern() {
    let value = text("abc123");
    let field = Field::new(&value, "code");
    assert_eq!(field.is_match("^[a-z]+[0-9]+$"), Ok(()));
    assert_eq!(
        field.is_match("^[0-9]+$"),
        Err("The value abc123 for code does not follow the proper format of the guidelines"
            .to_string())
    );
    assert_eq!(
        field.is_match("("),
        Err("The pattern ( for code is not a regular expression".to_string())
    );
    assert_eq!(field.match_outcome("x", Some(true)), Ok(()));
    assert_eq!(
        field.match_outcome("x", Some(false)),
        Err("The value abc123 for code does not follow the proper format of the guidelines"
            .to_string())
    );
    assert_eq!(
        field.match_outcome("x", None),
        Err("The pattern x for code is not a regular expression".to_string())
    );
    let absent: Option<String> = None;
    let field = Field::new(&absent, "code");
    assert_eq!(field.is_match("^[0-9]+$"), Ok(()));
    assert_eq!(field.is_match("("), Ok(()));
    assert_eq!(field.match_outcome("x", Some(false)), Ok(()));
}

#[test]
fn fields_exist_or_not() {
    let present = text("x");
    let absent: Option<String> = None;
    assert_eq!(Field::new(&present, "a.b").exist(), Ok(()));
    assert_eq!(
        Field::new(&absent, "a.b").exist(),
        Err("\"a.b\" does not exist in the spec. It needs to be set to a value.".to_string())
    );
    assert_eq!(Field::new(&absent, "a.b").not_exist(), Ok(()));
    assert_eq!(
        Field::new(&present, "a.b").not_exist(),
        Err("\"a.b\" exists in the spec but it should not.".to_string())
    );
    let list: Option<Vec<u8>> = Some(vec![]);
    assert_eq!(Field::new(&list, "list").exist(), Ok(()));
    assert_eq!(
        Field::new(&absent, "say \"hi\"").exist(),
        Err("\"say \\\"hi\\\"\" does not exist in the spec. It needs to be set to a value."
            .to_string())
    );
}

#[test]
fn a_summary_stays_under_120_characters() {
    let under = text(&"a".repeat(119));
    assert_eq!(Field::new(&under, "summary").length_less_than(120), Ok(()));
    let exactly = "a".repeat(120);
    let at_the_limit = Some(exactly.clone());
    assert_eq!(
        Field::new(&at_the_limit, "summary").length_less_than(120),
        Err(format!("The value of summary is not shorter than 120, for {}", exactly))
    );
    let longer = "a".repeat(121);
    let too_long = Some(longer.clone());
    assert_eq!(
        Field::new(&too_long, "summary").length_less_than(120),
        Err(format!("The value of summary is not shorter than 120, for {}", longer))
    );
    let absent: Option<String> = None;
    assert_eq!(Field::new(&absent, "summary").length_less_than(0), Ok(()));
    let empty = text("");
    assert_eq!(
        Field::new(&empty, "summary").length_less_than(0),
        Err("The value of summary is not shorter than 0, for ".to_string())
    );
    assert_eq!(Field::new(&empty, "summary").length_less_than(1), Ok(()));
    // The length is counted in characters, not in bytes.
    let accents = text(&"\u{e9}".repeat(119));
    assert_eq!(Field::new(&accents, "summary").length_less_than(120), Ok(()));
    let short = text("abc");
    assert_eq!(
        Field::new(&short, "summary").length_less_than(3),
        Err("The value of summary is not shorter than 3, for abc".to_string())
    );
    assert_eq!(Field::new(&short, "summary").length_less_than(4), Ok(()));
}

#[test]
fn fields_are_compared() {
    let version = "2.0".to_string();
    let other = "1.0".to_string();
    let field = Field::new(&version, "version");
    assert_eq!(field.name(), "version");
    assert_eq!(field.data(), Some(&version));
    assert_eq!(field.eq(&"2.0".to_string()), Ok(()));
    assert_eq!(
        field.eq(&other),
        Err("Expected version to be \"1.0\" but it was Some(\"2.0\")".to_string())
    );

    let present = text("a");
    let absent: Option<String> = None;
    let expected = "a".to_string();
    assert_eq!(Field::new(&present, "x").eq(&expected), Ok(()));
    assert_eq!(Field::new(&present, "x").data(), Some(&expected));
    assert_eq!(Field::new(&absent, "x").data(), None);
    assert_eq!(Field::new(&absent, "x").name(), "x");
    assert_eq!(
        Field::new(&absent, "x").eq(&expected),
        Err("Expected x to be \"a\" but it was None".to_string())
    );
    assert_eq!(
        Field::new(&present, "x").eq(&other),
        Err("Expected x to be \"1.0\" but it was Some(\"a\")".to_string())
    );

    let https = vec!["https".to_string()];
    let schemes = Some(vec!["https".to_string()]);
    let both = Some(vec!["http".to_string(), "https".to_string()]);
    let none: Option<Vec<String>> = None;
    assert_eq!(Field::new(&schemes, "schemes").eq(&https), Ok(()));
    assert_eq!(Field::new(&schemes, "schemes").data(), Some(&https[..]));
    assert_eq!(Field::new(&none, "schemes").data(), None);
    assert_eq!(Field::new(&none, "schemes").name(), "schemes");
    assert_eq!(
        Field::new(&both, "schemes").eq(&https),
        Err("Expected schemes to be [\"https\"] but it was Some([\"http\", \"https\"])"
            .to_string())
    );
    assert_eq!(
        Field::new(&none, "schemes").eq(&https),
        Err("Expected schemes to be [\"https\"] but it was None".to_string())
    );
}

#[test]
fn an_operation_needs_a_description() {
    let mut operation = good_operation();
    operation.description = None;
    operation.summary = None;
    let operation = Some(operation);
    let results = PathOperation { path: "/users", operation: &operation }.validate(&plain());
    assert_eq!(results.errors(), vec![
        "\"description in '/users'\" does not exist in the spec. It needs to be set to a value.",
    ]);
    assert_eq!(results.warnings().len(), 0);
    let none = None;
    let results = PathOperation { path: "/users", operation: &none }.validate(&google());
    assert!(!results.failed());
    assert_eq!(results.warnings().len(), 0);
}

#[test]
fn the_operation_id_follows_the_options() {
    let without = Some(good_operation());
    let mut with = good_operation();
    with.operation_id = text("users.list");
    let with = Some(with);
    assert!(!PathOperation { path: "/users", operation: &without }.validate(&plain()).failed());
    assert!(!PathOperation { path: "/users", operation: &with }.validate(&google()).failed());
    let results = PathOperation { path: "/users", operation: &without }.validate(&google());
    assert_eq!(results.errors(), vec![
        "\"operation_id in '/users'\" does not exist in the spec. It needs to be set to a value.",
    ]);
    let results = PathOperation { path: "/users", operation: &with }.validate(&plain());
    assert_eq!(results.errors(), vec![
        "\"operation_id in '/users'\" exists in the spec but it should not.",
    ]);
    assert_eq!(results.warnings().len(), 0);
}

#[test]
fn an_operation_should_not_repeat_what_the_document_says() {
    let mut operation = good_operation();
    operation.schemes = Some(vec!["https".to_string()]);
    operation.consumes = Some(vec![]);
    operation.produces = Some(vec!["application/json".to_string()]);
    operation.summary = text(&"s".repeat(200));
    let operation = Some(operation);
    let results = PathOperation { path: "/a", operation: &operation }.validate(&plain());
    assert_eq!(results.errors(), vec![format!(
        "The value of summary in '/a' is not shorter than 120, for {}",
        "s".repeat(200)
    )]);
    assert_eq!(results.warnings(), vec![
        "\"schemes in '/a'\" exists in the spec but it should not.",
        "\"consumes in '/a'\" exists in the spec but it should not.",
        "\"produces in '/a'\" exists in the spec but it should not.",
    ]);
}

#[test]
fn paths_are_written_in_snake_case() {
    let mut spec = good_document();
    spec.paths.insert("/userAccounts".to_string(), Operations::default());
    spec.paths.insert("user_accounts".to_string(), Operations::default());
    spec.paths.insert("/users".to_string(), Operations::default());
    let results = spec.validate(&plain());
    assert_eq!(results.errors(), vec![
        "Expected path name to be \"user_accounts\" but it was Some(\"/userAccounts\")",
        "Expected path name to be \"users\" but it was Some(\"/users\")",
    ]);

    let mut paths = OrderedMap::new();
    paths.insert("users".to_string(), Operations {
        get: Some(good_operation()),
        post: Some(Operation { description: None, ..good_operation() }),
        ..Default::default()
    });
    let results = paths.validate(&plain());
    assert_eq!(results.errors(), vec![
        "\"description in 'users'\" does not exist in the spec. It needs to be set to a value.",
    ]);
}

#[test]
fn a_path_is_held_to_the_form_it_is_given() {
    let operations = Operations { delete: Some(good_operation()), ..Default::default() };
    let path = "/users".to_string();
    let results = validate_path(&path, &operations, &plain(), &"/users".to_string());
    assert!(!results.failed());
    let results = validate_path(&path, &operations, &google(), &"users".to_string());
    assert_eq!(results.errors(), vec![
        "Expected path name to be \"users\" but it was Some(\"/users\")",
        "\"operation_id in '/users'\" does not exist in the spec. It needs to be set to a value.",
    ]);
}

#[test]
fn parameters_are_written_in_snake_case() {
    let mut parameter = Parameter {
        name: "pageSize".to_string(),
        location: "query".to_string(),
        description: None,
        required: None,
        format: None,
        param_type: None,
        schema: None,
        unique_items: None,
    };
    let results = parameter.validate(&plain());
    assert_eq!(results.errors(), vec![
        "Expected parameter.name pageSize to be \"page_size\" but it was Some(\"pageSize\")",
        "\"parameter.param_type pageSize\" does not exist in the spec. It needs to be set to a value.",
        "\"parameter.description pageSize\" does not exist in the spec. It needs to be set to a value.",
    ]);
    parameter.location = "header".to_string();
    parameter.param_type = text("integer");
    parameter.description = text("How many");
    assert!(!parameter.validate(&plain()).failed());
    parameter.location = "path".to_string();
    parameter.name = "page_size".to_string();
    assert!(!parameter.validate(&plain()).failed());
    let results = validate_parameter(&parameter, &"other".to_string());
    assert_eq!(results.errors(), vec![
        "Expected parameter.name page_size to be \"other\" but it was Some(\"page_size\")",
    ]);
}

#[test]
fn results_are_collected() {
    let mut results = ValidationResults::new();
    assert!(!results.failed());
    results.assert_warn(&Err("careful".to_string()));
    results.assert_warn(&Ok(()));
    assert!(!results.failed());
    results.assert_error(&Ok(()));
    assert!(!results.failed());
    results.assert_error(&Err("broken".to_string()));
    assert!(results.failed());
    results.append_error("also broken");
    results.append_warning("also careful");
    assert_eq!(results.errors(), vec!["broken", "also broken"]);
    assert_eq!(results.warnings(), vec!["careful", "also careful"]);
    assert_eq!(
        results.to_string(),
        "\nerrors\n    broken\n    also broken\n\nwarnings\n    careful\n    also careful\n"
    );

    let mut other = ValidationResults::new();
    other.append_warning("first");
    other.merge(&results);
    assert_eq!(other.errors(), vec!["broken", "also broken"]);
    assert_eq!(other.warnings(), vec!["first", "careful", "also careful"]);

    let mut only_warnings = ValidationResults::new();
    only_warnings.append_warning("careful");
    assert_eq!(only_warnings.to_string(), "\nwarnings\n    careful\n");
    let mut only_errors = ValidationResults::new();
    only_errors.append_error("broken");
    assert_eq!(only_errors.to_string(), "\nerrors\n    broken\n");

    let contact = Contact { name: None, email: text("me@example.com"), url: None };
    only_errors.validate(&contact, &plain());
    assert_eq!(only_errors.errors(), vec![
        "broken",
        "\"info.contact.name\" does not exist in the spec. It needs to be set to a value.",
    ]);
}

#[test]
fn outcomes_are_built_from_what_is_written() {
    assert_eq!(presence_outcome("<name>".to_string(), true), Ok(()));
    assert_eq!(
        presence_outcome("<name>".to_string(), false),
        Err("<name> does not exist in the spec. It needs to be set to a value.".to_string())
    );
    assert_eq!(absence_outcome("<name>".to_string(), false), Ok(()));
    assert_eq!(
        absence_outcome("<name>".to_string(), true),
        Err("<name> exists in the spec but it should not.".to_string())
    );
    assert_eq!(equality_outcome("x", true, "<a>".to_string(), Some("<a>".to_string())), Ok(()));
    assert_eq!(
        equality_outcome("x", false, "<a>".to_string(), Some("<b>".to_string())),
        Err("Expected x to be <a> but it was Some(<b>)".to_string())
    );
    assert_eq!(
        equality_outcome("x", false, "<a>".to_string(), None),
        Err("Expected x to be <a> but it was None".to_string())
    );
    assert_eq!(
        equality_outcome("x", true, "<a>".to_string(), None),
        Err("Expected x to be <a> but it was None".to_string())
    );
}

#[test]
fn an_operation_with_a_summary_of_120_characters_fails() {
    let mut operation = good_operation();
    operation.summary = text(&"s".repeat(120));
    let at_the_limit = Some(operation);
    let results = PathOperation { path: "users", operation: &at_the_limit }.validate(&plain());
    assert_eq!(results.errors(), vec![format!(
        "The value of summary in 'users' is not shorter than 120, for {}",
        "s".repeat(120)
    )]);
    let mut operation = good_operation();
    operation.summary = text(&"s".repeat(119));
    let under = Some(operation);
    assert!(!PathOperation { path: "users", operation: &under }.validate(&plain()).failed());
}
