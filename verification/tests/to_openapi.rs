use oatool::discovery::{
    GoogleMethods, GoogleParams, GoogleResources, GoogleSchemas, Method, Property, Reference,
    Resource, Response, Schema, Spec,
};
use oatool::google_to_openapi::{
    from_google_to_openapi_responses, from_spec_to_openapi_info, google_spec_to_openapi,
    is_convertible, method_is_convertible, method_to_operation, methods_to_operations,
    names_target, param_to_param_location, schema_is_convertible, schema_to_response,
    to_openapi_response, transform_ref_path, OpenAPIParams, NOT_FOUND_DESCRIPTION,
    PLACEHOLDER_CONTACT_EMAIL, PLACEHOLDER_CONTACT_NAME, PLACEHOLDER_HOST,
    SERVER_ERROR_DESCRIPTION, SUCCESS_DESCRIPTION,
};
use oatool::openapi::ParameterOrRef;
use oatool::ordered_map::OrderedMap;

fn plain_method(id: &str, verb: &str, path: &str) -> Method {
    Method {
        id: id.to_string(),
        path: path.to_string(),
        http_method: verb.to_string(),
        description: format!("The method {}", id),
        parameters: None,
        request: None,
        response: None,
        slt: None,
    }
}

fn list_of_users() -> Response {
    Response::ResponseList {
        id: None,
        resource: None,
        response_type: "array".to_string(),
        items: Reference { location: "schemas/User".to_string() },
    }
}

fn document(resources: Vec<(&str, Vec<(&str, Method)>)>) -> Spec {
    let mut all = OrderedMap::new();
    for (name, methods) in resources {
        let mut map = OrderedMap::new();
        for (method_name, method) in methods {
            map.insert(method_name.to_string(), method);
        }
        all.insert(name.to_string(), Resource { methods: map });
    }
    Spec {
        id: "users:v1".to_string(),
        name: "users".to_string(),
        version: "v1".to_string(),
        title: "Users".to_string(),
        description: "All about users".to_string(),
        documentation_link: Some("https://example.com/docs".to_string()),
        protocol: "rest".to_string(),
        base_path: "/api".to_string(),
        schemas: GoogleSchemas(OrderedMap::new()),
        resources: GoogleResources(all),
        aliases: None,
    }
}

#[test]
fn ref_path_to_openapi_takes_the_second_segment() {
    assert_eq!(transform_ref_path("schemas/Region"), "#/definitions/Region");
    assert_eq!(transform_ref_path("schemas/Region/v1.0.0"), "#/definitions/Region");
    assert_eq!(transform_ref_path("anything/User"), "#/definitions/User");
    assert_eq!(transform_ref_path("schemas/"), "#/definitions/");
    assert!(names_target("schemas/Region"));
    assert!(!names_target("Region"));
}

#[test]
fn users_list_becomes_a_get_operation() {
    let mut method = plain_method("users.list", "GET", "users");
    method.response = Some(list_of_users());
    let spec = document(vec![("users", vec![("list", method)])]);
    assert!(is_convertible(&spec));
    let openapi = google_spec_to_openapi(&spec);

    assert_eq!(openapi.paths.len(), 1);
    assert_eq!(openapi.paths.key(0), "/users");
    let operations = openapi.paths.get("/users").unwrap();
    assert!(operations.post.is_none());
    assert!(operations.put.is_none());
    assert!(operations.patch.is_none());
    assert!(operations.delete.is_none());
    assert!(operations.options.is_none());
    assert!(operations.head.is_none());
    let get = operations.get.as_ref().unwrap();
    assert_eq!(get.operation_id, Some("users.list".to_string()));
    assert_eq!(get.description, Some("The method users.list".to_string()));
    assert_eq!(get.parameters, None);
    assert_eq!(get.summary, None);

    assert_eq!(get.responses.len(), 3);
    assert_eq!(get.responses.key(0), "200");
    assert_eq!(get.responses.key(1), "404");
    assert_eq!(get.responses.key(2), "500");
    let ok = get.responses.get("200").unwrap();
    assert_eq!(ok.description, "The operation was successful");
    let schema = ok.schema.as_ref().unwrap();
    assert_eq!(schema.schema_type, Some("array".to_string()));
    assert_eq!(schema.ref_path, None);
    let items = schema.items.as_ref().unwrap();
    assert_eq!(items.ref_path, Some("#/definitions/User".to_string()));
    assert_eq!(items.schema_type, None);
    let not_found = get.responses.get("404").unwrap();
    assert_eq!(not_found.description, "Resource not found.");
    assert!(not_found.schema.is_none());
    let failure = get.responses.get("500").unwrap();
    assert_eq!(failure.description, "Fatal error in the server.");
    assert!(failure.schema.is_none());
}

#[test]
fn the_document_gets_its_fixed_parts() {
    let spec = document(vec![]);
    let openapi = google_spec_to_openapi(&spec);
    assert_eq!(openapi.swagger, "2.0");
    assert_eq!(openapi.schemes, Some(vec!["https".to_string()]));
    assert_eq!(openapi.consumes, Some(vec!["application/json".to_string()]));
    assert_eq!(openapi.produces, Some(vec!["application/json".to_string()]));
    assert_eq!(openapi.host, Some("PLEASE.SETHOST.com".to_string()));
    assert_eq!(openapi.base_path, Some("/api".to_string()));
    assert_eq!(openapi.definitions, Some(OrderedMap::new()));
    assert!(openapi.paths.is_empty());
    assert!(openapi.parameters.is_none());
    assert!(openapi.responses.is_none());
    assert_eq!(PLACEHOLDER_HOST, "PLEASE.SETHOST.com");
    assert_eq!(NOT_FOUND_DESCRIPTION, "Resource not found.");
    assert_eq!(SERVER_ERROR_DESCRIPTION, "Fatal error in the server.");
    assert_eq!(SUCCESS_DESCRIPTION, "The operation was successful");
}

#[test]
fn the_info_carries_a_placeholder_contact() {
    let spec = document(vec![]);
    let info = from_spec_to_openapi_info(&spec);
    assert_eq!(info.title, Some("Users".to_string()));
    assert_eq!(info.description, Some("All about users".to_string()));
    assert_eq!(info.version, Some("v1".to_string()));
    assert_eq!(info.terms_of_service, Some("https://example.com/docs".to_string()));
    assert!(info.license.is_none());
    let contact = info.contact.unwrap();
    assert_eq!(contact.name, Some("<YOUR NAME>".to_string()));
    assert_eq!(contact.email, Some("EMAIL@YOURDOMAIN.COM".to_string()));
    assert_eq!(contact.url, None);
    assert_eq!(PLACEHOLDER_CONTACT_NAME, "<YOUR NAME>");
    assert_eq!(PLACEHOLDER_CONTACT_EMAIL, "EMAIL@YOURDOMAIN.COM");
}

#[test]
fn the_later_method_wins_a_path_and_verb() {
    let first = plain_method("accounts.list", "GET", "people");
    let second = plain_method("users.list", "GET", "people");
    let other = plain_method("users.create", "POST", "people");
    let spec = document(vec![
        ("users", vec![("list", second), ("create", other)]),
        ("accounts", vec![("list", first)]),
    ]);
    let openapi = google_spec_to_openapi(&spec);
    // One path, one operation per verb. Resources are walked in the order of
    // their names, so `users` comes after `accounts` and its method stays.
    assert_eq!(openapi.paths.len(), 1);
    let operations = openapi.paths.get("/people").unwrap();
    assert_eq!(operations.get.as_ref().unwrap().operation_id, Some("users.list".to_string()));
    assert_eq!(operations.post.as_ref().unwrap().operation_id, Some("users.create".to_string()));
}

#[test]
fn methods_go_to_the_slot_of_their_verb() {
    let methods = GoogleMethods(vec![
        plain_method("a.get", "GET", "a"),
        plain_method("a.post", "POST", "a"),
        plain_method("a.put", "PUT", "a"),
        plain_method("a.patch", "PATCH", "a"),
        plain_method("a.delete", "DELETE", "a"),
        plain_method("a.options", "OPTIONS", "a"),
        plain_method("a.head", "HEAD", "a"),
        plain_method("a.trace", "TRACE", "a"),
        plain_method("a.lower", "get", "a"),
    ]);
    let operations = methods_to_operations(&methods);
    assert_eq!(operations.get.unwrap().operation_id, Some("a.get".to_string()));
    assert_eq!(operations.post.unwrap().operation_id, Some("a.post".to_string()));
    assert_eq!(operations.put.unwrap().operation_id, Some("a.put".to_string()));
    assert_eq!(operations.patch.unwrap().operation_id, Some("a.patch".to_string()));
    assert_eq!(operations.delete.unwrap().operation_id, Some("a.delete".to_string()));
    assert_eq!(operations.options.unwrap().operation_id, Some("a.options".to_string()));
    assert_eq!(operations.head.unwrap().operation_id, Some("a.head".to_string()));
}

#[test]
fn report_is_folded_into_post() {
    let methods = GoogleMethods(vec![
        plain_method("a.create", "POST", "a"),
        plain_method("a.report", "REPORT", "a"),
    ]);
    let operations = methods_to_operations(&methods);
    assert_eq!(operations.post.unwrap().operation_id, Some("a.report".to_string()));
    assert!(operations.get.is_none());

    let methods = GoogleMethods(vec![
        plain_method("a.report", "REPORT", "a"),
        plain_method("a.create", "POST", "a"),
    ]);
    let operations = methods_to_operations(&methods);
    assert_eq!(operations.post.unwrap().operation_id, Some("a.create".to_string()));
    assert!(methods_to_operations(&GoogleMethods(vec![])).post.is_none());
}

#[test]
fn paths_come_out_in_order() {
    let spec = document(vec![
        ("users", vec![("get", plain_method("users.get", "GET", "users/{id}"))]),
        ("accounts", vec![("list", plain_method("accounts.list", "GET", "accounts"))]),
        ("zones", vec![("list", plain_method("zones.list", "GET", "a"))]),
    ]);
    let openapi = google_spec_to_openapi(&spec);
    assert_eq!(openapi.paths.len(), 3);
    assert_eq!(openapi.paths.key(0), "/a");
    assert_eq!(openapi.paths.key(1), "/accounts");
    assert_eq!(openapi.paths.key(2), "/users/{id}");
}

#[test]
fn parameters_get_their_defaults() {
    let mut params = OrderedMap::new();
    params.insert("limit".to_string(), Property {
        property_type: Some("integer".to_string()),
        description: Some("How many".to_string()),
        required: Some(false),
        ..Default::default()
    });
    params.insert("id".to_string(), Property::default());
    params.insert("token".to_string(), Property {
        location: Some("header".to_string()),
        required: Some(true),
        format: Some("uuid".to_string()),
        ..Default::default()
    });
    let list = OpenAPIParams::from(&GoogleParams(params)).0;
    assert_eq!(list.len(), 3);
    assert_eq!(list[0], ParameterOrRef::Parameter {
        name: "id".to_string(),
        location: "path".to_string(),
        description: None,
        required: Some(true),
        format: None,
        param_type: Some("string".to_string()),
        schema: None,
        unique_items: None,
    });
    assert_eq!(list[1], ParameterOrRef::Parameter {
        name: "limit".to_string(),
        location: "query".to_string(),
        description: Some("How many".to_string()),
        required: Some(false),
        format: None,
        param_type: Some("integer".to_string()),
        schema: None,
        unique_items: None,
    });
    assert_eq!(list[2], ParameterOrRef::Parameter {
        name: "token".to_string(),
        location: "header".to_string(),
        description: None,
        required: Some(true),
        format: None,
        param_type: Some("string".to_string()),
        schema: None,
        unique_items: None,
    });
}

#[test]
fn a_parameter_is_looked_for_in_the_path_unless_optional() {
    assert_eq!(param_to_param_location(&Property::default()), "path");
    let required = Property { required: Some(true), ..Default::default() };
    assert_eq!(param_to_param_location(&required), "path");
    let optional = Property { required: Some(false), ..Default::default() };
    assert_eq!(param_to_param_location(&optional), "query");
}

#[test]
fn responses_by_shape() {
    let reference = to_openapi_response(&Response::Reference {
        location: "schemas/User".to_string(),
    });
    assert_eq!(reference.description, "The operation was successful");
    let schema = reference.schema.unwrap();
    assert_eq!(schema.ref_path, Some("#/definitions/User".to_string()));
    assert!(schema.items.is_none());
    assert!(schema.properties.is_none());
    assert!(schema.schema_type.is_none());

    let mut properties = OrderedMap::new();
    properties.insert("name".to_string(), Property {
        property_type: Some("string".to_string()),
        description: Some("The name".to_string()),
        format: Some("dropped".to_string()),
        location: Some("dropped".to_string()),
        required: Some(true),
        ..Default::default()
    });
    let single = to_openapi_response(&Response::ResponseSingle {
        id: "x".to_string(),
        resource: "y".to_string(),
        response_type: "object".to_string(),
        properties,
    });
    let schema = single.schema.unwrap();
    assert_eq!(schema.schema_type, Some("object".to_string()));
    assert!(schema.ref_path.is_none());
    let fields = schema.properties.unwrap();
    assert_eq!(fields.len(), 1);
    let name = fields.get("name").unwrap();
    assert_eq!(name.schema_type, Some("string".to_string()));
    assert_eq!(name.description, Some("The name".to_string()));
    assert_eq!(name.format, None);
    assert_eq!(name.required, None);
}

#[test]
fn a_method_without_response_has_the_two_default_responses() {
    let responses = from_google_to_openapi_responses(&None).0;
    assert_eq!(responses.len(), 2);
    assert_eq!(responses.key(0), "404");
    assert_eq!(responses.key(1), "500");
    let operation = method_to_operation(&plain_method("users.delete", "DELETE", "users/{id}"));
    assert_eq!(operation.responses.len(), 2);
    assert!(operation.responses.get("200").is_none());
}

#[test]
fn schemas_become_definitions() {
    let mut properties = OrderedMap::new();
    properties.insert("name".to_string(), Property {
        property_type: Some("string".to_string()),
        description: Some("The name".to_string()),
        ..Default::default()
    });
    let mut schemas = OrderedMap::new();
    schemas.insert("User".to_string(), Schema::ResponseSingle {
        id: "schemas/User".to_string(),
        resource: "users".to_string(),
        schema_type: "object".to_string(),
        properties,
    });
    schemas.insert("Users".to_string(), Schema::ResponseList {
        id: None,
        resource: None,
        schema_type: "array".to_string(),
        items: Reference { location: "schemas/User".to_string() },
    });
    let mut spec = document(vec![]);
    spec.schemas = GoogleSchemas(schemas);
    assert!(is_convertible(&spec));
    let openapi = google_spec_to_openapi(&spec);
    let definitions = openapi.definitions.unwrap();
    assert_eq!(definitions.len(), 2);
    let user = definitions.get("User").unwrap();
    assert_eq!(user.schema_type, Some("object".to_string()));
    assert_eq!(user.ref_path, None);
    let fields = user.properties.as_ref().unwrap();
    assert_eq!(fields.get("name").unwrap().description, Some("The name".to_string()));
    let users = definitions.get("Users").unwrap();
    assert_eq!(users.schema_type, Some("array".to_string()));
    assert_eq!(users.ref_path, Some("#/definitions/User".to_string()));
    assert!(users.properties.is_none());

    let response = schema_to_response(&Schema::ResponseList {
        id: None,
        resource: None,
        schema_type: "array".to_string(),
        items: Reference { location: "schemas/User".to_string() },
    });
    assert_eq!(response.description, "The operation was successful");
    assert_eq!(response.schema.unwrap().ref_path, Some("#/definitions/User".to_string()));
}

#[test]
fn a_pointer_without_name_cannot_be_converted() {
    let mut method = plain_method("users.get", "GET", "users/{id}");
    method.response = Some(Response::Reference { location: "User".to_string() });
    assert!(!method_is_convertible(&method));
    let spec = document(vec![("users", vec![("get", method)])]);
    assert!(!is_convertible(&spec));

    let mut method = plain_method("users.list", "GET", "users");
    method.response = Some(Response::ResponseList {
        id: None,
        resource: None,
        response_type: "array".to_string(),
        items: Reference { location: "User".to_string() },
    });
    assert!(!method_is_convertible(&method));
    method.response = Some(list_of_users());
    assert!(method_is_convertible(&method));

    let list = Schema::ResponseList {
        id: None,
        resource: None,
        schema_type: "array".to_string(),
        items: Reference { location: "User".to_string() },
    };
    assert!(!schema_is_convertible(&list));
    let mut schemas = OrderedMap::new();
    schemas.insert("Users".to_string(), list);
    let mut spec = document(vec![]);
    spec.schemas = GoogleSchemas(schemas);
    assert!(!is_convertible(&spec));
}
