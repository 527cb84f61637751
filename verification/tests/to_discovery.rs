use oatool::discovery::{
    MethodRequest, Property, Reference, Response as DiscoveryResponse,
    Schema as DiscoverySchema, TypeOrReference,
};
use oatool::error::{ConversionError, Flaw};
use oatool::naming::resource_name_of;
use oatool::openapi::{
    Info, Operation, Operations, Parameter, ParameterOrRef, Response, Schema, Spec,
};
use oatool::openapi_to_google::{
    definition_to_schema, get_successful_response, openapi_definitions_to_google_schemas,
    openapi_param_to_google_param, openapi_paths_to_google_resources,
    openapi_response_to_google_response, openapi_schema_to_google_schema,
    openapi_schemas_to_google_properties, openapi_spec_to_google, openapi_spec_to_google_named,
    operation_to_operation_group, operation_to_operation_name, parameter_to_property,
    to_google_method, to_google_resource, transform_ref_path,
};
use oatool::ordered_map::OrderedMap;

fn operation(id: Option<&str>) -> Operation {
    Operation {
        summary: None,
        description: Some("What it does".to_string()),
        consumes: None,
        produces: None,
        schemes: None,
        tags: None,
        operation_id: id.map(|id| id.to_string()),
        responses: OrderedMap::new(),
        parameters: None,
    }
}

fn inline(name: &str, location: &str, schema: Option<Schema>) -> ParameterOrRef {
    ParameterOrRef::Parameter {
        name: name.to_string(),
        location: location.to_string(),
        description: Some(format!("The {}", name)),
        required: Some(true),
        format: Some("ignored".to_string()),
        param_type: Some("string".to_string()),
        schema,
        unique_items: Some(true),
    }
}

fn pointer(target: &str) -> Schema {
    Schema { ref_path: Some(target.to_string()), ..Default::default() }
}

fn response(schema: Option<Schema>) -> Response {
    Response { description: "A response".to_string(), schema }
}

fn document(paths: Vec<(&str, Operations)>) -> Spec {
    let mut map = OrderedMap::new();
    for (path, operations) in paths {
        map.insert(path.to_string(), operations);
    }
    Spec {
        swagger: "2.0".to_string(),
        info: Info {
            title: Some("My API".to_string()),
            description: Some("An API".to_string()),
            version: Some("v1".to_string()),
            terms_of_service: Some("https://example.com/terms".to_string()),
            license: None,
            contact: None,
        },
        paths: map,
        definitions: None,
        schemes: None,
        host: None,
        base_path: Some("/api".to_string()),
        consumes: None,
        produces: None,
        parameters: None,
        responses: None,
    }
}

fn no_parameters() -> OrderedMap<Parameter> {
    OrderedMap::new()
}

#[test]
fn ref_path_to_discovery_takes_the_last_segment() {
    assert_eq!(transform_ref_path("#/definitions/Region"), "schemas/Region");
    assert_eq!(transform_ref_path("#/definitions/a/Region"), "schemas/Region");
    assert_eq!(transform_ref_path("Region"), "schemas/Region");
    assert_eq!(transform_ref_path("#/definitions/"), "schemas/");
}

#[test]
fn an_operation_id_names_group_and_method() {
    let op = operation(Some("users.list"));
    assert_eq!(operation_to_operation_group(&op), Some("users".to_string()));
    assert_eq!(operation_to_operation_name(&op), Some("list".to_string()));
    let op = operation(Some("users.admins.list"));
    assert_eq!(operation_to_operation_group(&op), Some("users".to_string()));
    assert_eq!(operation_to_operation_name(&op), Some("list".to_string()));
    let op = operation(Some("ping"));
    assert_eq!(operation_to_operation_group(&op), Some("ping".to_string()));
    assert_eq!(operation_to_operation_name(&op), Some("ping".to_string()));
    let op = operation(None);
    assert_eq!(operation_to_operation_group(&op), None);
    assert_eq!(operation_to_operation_name(&op), None);
}

#[test]
fn an_operation_without_id_fails_with_its_path_and_verb() {
    let operations = Operations {
        get: Some(operation(Some("users.list"))),
        post: Some(operation(None)),
        ..Default::default()
    };
    let spec = document(vec![("/users", operations)]);
    let error = openapi_spec_to_google(&spec).unwrap_err();
    assert_eq!(error, ConversionError::Operation {
        path: "/users".to_string(),
        verb: "POST".to_string(),
        flaw: Flaw::MissingOperationId,
    });
    let mut paths = OrderedMap::new();
    paths.insert("/zones".to_string(), Operations {
        head: Some(operation(None)),
        ..Default::default()
    });
    let error = openapi_paths_to_google_resources(&paths, &no_parameters()).unwrap_err();
    assert_eq!(error, ConversionError::Operation {
        path: "/zones".to_string(),
        verb: "HEAD".to_string(),
        flaw: Flaw::MissingOperationId,
    });
}

#[test]
fn a_missing_id_is_reported_before_other_flaws() {
    let mut broken = operation(Some("accounts.list"));
    broken.description = None;
    let spec = document(vec![
        ("/accounts", Operations { get: Some(broken), ..Default::default() }),
        ("/users", Operations { get: Some(operation(None)), ..Default::default() }),
    ]);
    let error = openapi_spec_to_google(&spec).unwrap_err();
    assert_eq!(error, ConversionError::Operation {
        path: "/users".to_string(),
        verb: "GET".to_string(),
        flaw: Flaw::MissingOperationId,
    });
}

#[test]
fn operations_are_grouped_by_their_ids() {
    let spec = document(vec![
        ("/users", Operations {
            get: Some(operation(Some("users.list"))),
            post: Some(operation(Some("users.create"))),
            ..Default::default()
        }),
        ("/users/{id}", Operations {
            get: Some(operation(Some("users.get"))),
            delete: Some(operation(Some("users.delete"))),
            options: Some(operation(Some("users.options"))),
            ..Default::default()
        }),
        ("/accounts", Operations {
            put: Some(operation(Some("accounts.replace"))),
            patch: Some(operation(Some("accounts.update"))),
            head: Some(operation(Some("accounts.check"))),
            ..Default::default()
        }),
    ]);
    let discovery = openapi_spec_to_google(&spec).unwrap();
    let resources = discovery.resources.0;
    assert_eq!(resources.len(), 2);
    assert_eq!(resources.key(0), "accounts");
    assert_eq!(resources.key(1), "users");
    let users = &resources.get("users").unwrap().methods;
    assert_eq!(users.len(), 5);
    let list = users.get("list").unwrap();
    assert_eq!(list.id, "users.list");
    assert_eq!(list.path, "users");
    assert_eq!(list.http_method, "GET");
    assert_eq!(list.description, "What it does");
    assert_eq!(list.parameters, None);
    assert_eq!(list.request, None);
    assert_eq!(list.response, None);
    assert_eq!(list.slt, None);
    assert_eq!(users.get("create").unwrap().http_method, "POST");
    assert_eq!(users.get("get").unwrap().path, "users/{id}");
    assert_eq!(users.get("delete").unwrap().http_method, "DELETE");
    assert_eq!(users.get("options").unwrap().http_method, "OPTIONS");
    let accounts = &resources.get("accounts").unwrap().methods;
    assert_eq!(accounts.get("replace").unwrap().http_method, "PUT");
    assert_eq!(accounts.get("update").unwrap().http_method, "PATCH");
    assert_eq!(accounts.get("check").unwrap().http_method, "HEAD");
}

#[test]
fn the_document_gets_its_name_from_its_title() {
    let spec = document(vec![]);
    let discovery = openapi_spec_to_google(&spec).unwrap();
    assert_eq!(discovery.name, "my api");
    assert_eq!(discovery.id, "my api:v1");
    assert_eq!(discovery.title, "My API");
    assert_eq!(discovery.version, "v1");
    assert_eq!(discovery.description, "An API");
    assert_eq!(discovery.documentation_link, Some("https://example.com/terms".to_string()));
    assert_eq!(discovery.protocol, "rest");
    assert_eq!(discovery.base_path, "/api");
    assert!(discovery.schemas.0.is_empty());
    assert!(discovery.resources.0.is_empty());
    assert_eq!(discovery.aliases, None);
    let named = openapi_spec_to_google_named(&spec, "other".to_string()).unwrap();
    assert_eq!(named.name, "other");
    assert_eq!(named.id, "other:v1");
    assert_eq!(named.title, "My API");
}

#[test]
fn a_document_needs_its_metadata() {
    let field = |name: &str| ConversionError::MissingField { field: name.to_string() };
    let mut spec = document(vec![]);
    spec.base_path = None;
    assert_eq!(openapi_spec_to_google(&spec).unwrap_err(), field("basePath"));
    spec.info.description = None;
    assert_eq!(openapi_spec_to_google(&spec).unwrap_err(), field("info.description"));
    spec.info.version = None;
    assert_eq!(openapi_spec_to_google(&spec).unwrap_err(), field("info.version"));
    assert_eq!(
        openapi_spec_to_google_named(&spec, "x".to_string()).unwrap_err(),
        field("info.version")
    );
    spec.info.title = None;
    assert_eq!(openapi_spec_to_google(&spec).unwrap_err(), field("info.title"));
    assert_eq!(
        openapi_spec_to_google_named(&spec, "x".to_string()).unwrap_err(),
        field("info.title")
    );
}

#[test]
fn report_is_recovered_from_the_name() {
    let parameters = no_parameters();
    let op = operation(Some("usage.report"));
    let method = to_google_method("usage".to_string(), &op, "POST", &parameters).unwrap();
    assert_eq!(method.http_method, "REPORT");
    let op = operation(Some("usage.report"));
    let method = to_google_method("usage".to_string(), &op, "GET", &parameters).unwrap();
    assert_eq!(method.http_method, "REPORT");
    let op = operation(Some("report.list"));
    let method = to_google_method("usage".to_string(), &op, "POST", &parameters).unwrap();
    assert_eq!(method.http_method, "POST");
    let op = operation(Some("report"));
    let method = to_google_method("usage".to_string(), &op, "POST", &parameters).unwrap();
    assert_eq!(method.http_method, "REPORT");
}

#[test]
fn an_operation_needs_id_and_description() {
    let parameters = no_parameters();
    let mut op = operation(None);
    op.description = None;
    assert_eq!(
        to_google_method("users".to_string(), &op, "GET", &parameters).unwrap_err(),
        Flaw::MissingOperationId
    );
    let mut op = operation(Some("users.list"));
    op.description = None;
    assert_eq!(
        to_google_method("users".to_string(), &op, "GET", &parameters).unwrap_err(),
        Flaw::MissingDescription
    );
    let spec = document(vec![("/users", Operations { get: Some(op), ..Default::default() })]);
    assert_eq!(openapi_spec_to_google(&spec).unwrap_err(), ConversionError::Operation {
        path: "/users".to_string(),
        verb: "GET".to_string(),
        flaw: Flaw::MissingDescription,
    });
}

#[test]
fn the_body_parameter_becomes_the_request() {
    let mut op = operation(Some("users.create"));
    op.parameters = Some(vec![
        inline("trace", "header", None),
        inline("body", "body", Some(pointer("#/definitions/User"))),
        inline("other", "body", Some(pointer("#/definitions/Other"))),
        inline("id", "path", None),
    ]);
    let method = to_google_method("users".to_string(), &op, "POST", &no_parameters()).unwrap();
    assert_eq!(method.request, Some(MethodRequest { location: "schemas/User".to_string() }));
    let parameters = method.parameters.unwrap().0;
    assert_eq!(parameters.len(), 3);
    assert_eq!(parameters.key(0), "id");
    assert_eq!(parameters.key(1), "other");
    assert_eq!(parameters.key(2), "trace");
    assert!(parameters.get("body").is_none());
}

#[test]
fn only_a_body_with_a_pointer_is_a_request() {
    let mut op = operation(Some("users.create"));
    op.parameters = Some(vec![
        inline("a", "body", None),
        inline("b", "body", Some(Schema::default())),
        inline("c", "query", Some(pointer("#/definitions/User"))),
        ParameterOrRef::Ref { ref_path: "#/parameters/limit".to_string() },
    ]);
    let mut table = OrderedMap::new();
    table.insert("limit".to_string(), Parameter {
        name: "limit".to_string(),
        location: "query".to_string(),
        description: None,
        required: None,
        format: None,
        param_type: None,
        schema: None,
        unique_items: None,
    });
    let method = to_google_method("users".to_string(), &op, "POST", &table).unwrap();
    assert_eq!(method.request, None);
    assert_eq!(method.parameters.unwrap().0.len(), 4);

    let mut op = operation(Some("users.create"));
    op.parameters = Some(vec![]);
    let method = to_google_method("users".to_string(), &op, "POST", &table).unwrap();
    assert_eq!(method.request, None);
    assert_eq!(method.parameters.unwrap().0.len(), 0);
}

#[test]
fn parameters_are_copied_or_resolved() {
    let mut table = OrderedMap::new();
    table.insert("limit".to_string(), Parameter {
        name: "limit".to_string(),
        location: "query".to_string(),
        description: Some("How many".to_string()),
        required: Some(false),
        format: Some("int32".to_string()),
        param_type: Some("integer".to_string()),
        schema: Some(pointer("#/definitions/Ignored")),
        unique_items: None,
    });
    let list_schema = Schema {
        items: Some(Box::new(pointer("#/definitions/Tag"))),
        ..Default::default()
    };
    let first = inline("tags", "query", Some(list_schema));
    let second = ParameterOrRef::Ref { ref_path: "#/parameters/limit".to_string() };
    let params = vec![&first, &second];
    let converted = openapi_param_to_google_param(&params, &table).unwrap().0;
    assert_eq!(converted.len(), 2);
    assert_eq!(converted.get("tags"), Some(&Property {
        property_type: Some("string".to_string()),
        description: Some("The tags".to_string()),
        format: None,
        items: Some(TypeOrReference::Reference { location: "schemas/Tag".to_string() }),
        the_default: None,
        required: Some(true),
        location: Some("query".to_string()),
    }));
    assert_eq!(converted.get("limit"), Some(&Property {
        property_type: Some("integer".to_string()),
        description: Some("How many".to_string()),
        format: None,
        items: None,
        the_default: None,
        required: Some(false),
        location: Some("query".to_string()),
    }));
    let (name, _) = parameter_to_property(&second, &table).unwrap();
    assert_eq!(name, "limit");
}

#[test]
fn of_two_parameters_with_one_name_the_later_stays() {
    let first = inline("id", "path", None);
    let second = inline("id", "query", None);
    let params = vec![&first, &second];
    let converted = openapi_param_to_google_param(&params, &no_parameters()).unwrap().0;
    assert_eq!(converted.len(), 1);
    assert_eq!(converted.get("id").unwrap().location, Some("query".to_string()));
}

#[test]
fn a_parameter_that_points_nowhere_is_a_flaw() {
    let missing = ParameterOrRef::Ref { ref_path: "#/parameters/limit".to_string() };
    let fine = inline("id", "path", None);
    let params = vec![&fine, &missing];
    assert_eq!(
        openapi_param_to_google_param(&params, &no_parameters()).unwrap_err(),
        Flaw::UnresolvedParameter { reference: "#/parameters/limit".to_string() }
    );
    let mut op = operation(Some("users.list"));
    op.parameters = Some(vec![ParameterOrRef::Ref { ref_path: "#/parameters/limit".to_string() }]);
    let spec = document(vec![("/users", Operations { get: Some(op), ..Default::default() })]);
    assert_eq!(openapi_spec_to_google(&spec).unwrap_err(), ConversionError::Operation {
        path: "/users".to_string(),
        verb: "GET".to_string(),
        flaw: Flaw::UnresolvedParameter { reference: "#/parameters/limit".to_string() },
    });
}

#[test]
fn items_of_a_parameter_must_point_somewhere() {
    let list_schema = Schema { items: Some(Box::new(Schema::default())), ..Default::default() };
    let broken = inline("tags", "query", Some(list_schema));
    let params = vec![&broken];
    assert_eq!(
        openapi_param_to_google_param(&params, &no_parameters()).unwrap_err(),
        Flaw::ItemsWithoutReference
    );
}

#[test]
fn the_first_success_with_a_schema_is_the_response() {
    let mut responses = OrderedMap::new();
    responses.insert("404".to_string(), response(Some(pointer("#/definitions/Error"))));
    responses.insert("201".to_string(), response(Some(pointer("#/definitions/Created"))));
    responses.insert("200".to_string(), response(None));
    responses.insert("204".to_string(), response(Some(pointer("#/definitions/Later"))));
    let found = get_successful_response(&responses).unwrap();
    assert_eq!(found.schema.as_ref().unwrap().ref_path, Some("#/definitions/Created".to_string()));

    let mut op = operation(Some("users.create"));
    op.responses = responses;
    let method = to_google_method("users".to_string(), &op, "POST", &no_parameters()).unwrap();
    assert_eq!(
        method.response,
        Some(DiscoveryResponse::Reference { location: "schemas/Created".to_string() })
    );

    let mut none = OrderedMap::new();
    none.insert("404".to_string(), response(Some(pointer("#/definitions/Error"))));
    none.insert("200".to_string(), response(None));
    assert!(get_successful_response(&none).is_none());
    assert!(get_successful_response(&OrderedMap::new()).is_none());
}

#[test]
fn a_response_is_a_pointer_a_list_or_an_object() {
    let reference = Schema {
        ref_path: Some("#/definitions/User".to_string()),
        items: Some(Box::new(pointer("#/definitions/Other"))),
        ..Default::default()
    };
    assert_eq!(
        openapi_response_to_google_response(&response(Some(reference))).unwrap(),
        DiscoveryResponse::Reference { location: "schemas/User".to_string() }
    );

    let mut fields = OrderedMap::new();
    fields.insert("name".to_string(), Schema {
        description: Some("The name".to_string()),
        schema_type: Some("string".to_string()),
        format: Some("dropped".to_string()),
        ..Default::default()
    });
    let list = Schema {
        schema_type: Some("array".to_string()),
        items: Some(Box::new(pointer("#/definitions/User"))),
        properties: Some(fields.clone_for_test()),
        ..Default::default()
    };
    assert_eq!(
        openapi_response_to_google_response(&response(Some(list))).unwrap(),
        DiscoveryResponse::ResponseList {
            id: None,
            resource: None,
            response_type: "array".to_string(),
            items: Reference { location: "schemas/User".to_string() },
        }
    );

    let object = Schema {
        schema_type: Some("object".to_string()),
        properties: Some(fields),
        ..Default::default()
    };
    let mut expected = OrderedMap::new();
    expected.insert("name".to_string(), Property {
        property_type: Some("string".to_string()),
        description: Some("The name".to_string()),
        ..Default::default()
    });
    assert_eq!(
        openapi_response_to_google_response(&response(Some(object))).unwrap(),
        DiscoveryResponse::ResponseSingle {
            id: "NOTSET".to_string(),
            resource: "NOTSET".to_string(),
            response_type: "object".to_string(),
            properties: expected,
        }
    );
}

trait CloneForTest {
    fn clone_for_test(&self) -> Self;
}

impl CloneForTest for OrderedMap<Schema> {
    fn clone_for_test(&self) -> Self {
        let mut copy = OrderedMap::new();
        for i in 0..self.len() {
            let schema = self.value(i);
            copy.insert(self.key(i).clone(), Schema {
                description: schema.description.clone(),
                schema_type: schema.schema_type.clone(),
                format: schema.format.clone(),
                ..Default::default()
            });
        }
        copy
    }
}

#[test]
fn a_response_of_no_known_shape_is_a_flaw() {
    let shapeless = Schema { schema_type: Some("string".to_string()), ..Default::default() };
    assert_eq!(
        openapi_response_to_google_response(&response(Some(shapeless))).unwrap_err(),
        Flaw::UnknownResponse
    );
    assert_eq!(
        openapi_response_to_google_response(&response(None)).unwrap_err(),
        Flaw::UnknownResponse
    );
    let untyped_list = Schema {
        items: Some(Box::new(pointer("#/definitions/User"))),
        ..Default::default()
    };
    assert_eq!(
        openapi_response_to_google_response(&response(Some(untyped_list))).unwrap_err(),
        Flaw::ResponseWithoutType
    );
    let pointless_list = Schema {
        schema_type: Some("array".to_string()),
        items: Some(Box::new(Schema::default())),
        ..Default::default()
    };
    assert_eq!(
        openapi_response_to_google_response(&response(Some(pointless_list))).unwrap_err(),
        Flaw::ItemsWithoutReference
    );
    let untyped_object = Schema { properties: Some(OrderedMap::new()), ..Default::default() };
    assert_eq!(
        openapi_response_to_google_response(&response(Some(untyped_object))).unwrap_err(),
        Flaw::ResponseWithoutType
    );

    let mut op = operation(Some("users.get"));
    let shapeless = Schema { schema_type: Some("string".to_string()), ..Default::default() };
    op.responses.insert("200".to_string(), response(Some(shapeless)));
    let spec = document(vec![("/users/{id}", Operations { get: Some(op), ..Default::default() })]);
    assert_eq!(openapi_spec_to_google(&spec).unwrap_err(), ConversionError::Operation {
        path: "/users/{id}".to_string(),
        verb: "GET".to_string(),
        flaw: Flaw::UnknownResponse,
    });
}

#[test]
fn object_fields_keep_type_and_description() {
    let mut fields = OrderedMap::new();
    fields.insert("b".to_string(), Schema {
        schema_type: Some("integer".to_string()),
        ..Default::default()
    });
    fields.insert("a".to_string(), Schema {
        description: Some("First".to_string()),
        items: Some(Box::new(pointer("#/definitions/Dropped"))),
        ..Default::default()
    });
    let properties = openapi_schema_to_google_schema(&fields);
    assert_eq!(properties.len(), 2);
    assert_eq!(properties.key(0), "a");
    assert_eq!(properties.value(0), &Property {
        description: Some("First".to_string()),
        ..Default::default()
    });
    assert_eq!(properties.value(1), &Property {
        property_type: Some("integer".to_string()),
        ..Default::default()
    });
}

#[test]
fn definitions_become_schemas() {
    assert_eq!(resource_name_of("User"), "users");
    assert_eq!(resource_name_of("UserAccount"), "user_accounts");
    assert_eq!(resource_name_of("Category"), "categories");

    let mut fields = OrderedMap::new();
    fields.insert("name".to_string(), Schema {
        schema_type: Some("string".to_string()),
        description: Some("The name".to_string()),
        ..Default::default()
    });
    fields.insert("tags".to_string(), Schema {
        schema_type: Some("array".to_string()),
        items: Some(Box::new(pointer("#/definitions/Tag"))),
        ..Default::default()
    });
    let mut definitions = OrderedMap::new();
    definitions.insert("UserAccount".to_string(), Schema {
        schema_type: Some("object".to_string()),
        required: Some(vec!["name".to_string()]),
        properties: Some(fields),
        ..Default::default()
    });
    let schemas = openapi_definitions_to_google_schemas(&definitions).unwrap().0;
    assert_eq!(schemas.len(), 1);
    let mut expected = OrderedMap::new();
    expected.insert("name".to_string(), Property {
        property_type: Some("string".to_string()),
        description: Some("The name".to_string()),
        required: Some(true),
        ..Default::default()
    });
    expected.insert("tags".to_string(), Property {
        property_type: Some("array".to_string()),
        items: Some(TypeOrReference::Reference { location: "schemas/Tag".to_string() }),
        required: Some(false),
        ..Default::default()
    });
    assert_eq!(schemas.get("UserAccount"), Some(&DiscoverySchema::ResponseSingle {
        id: "schemas/UserAccount".to_string(),
        resource: "user_accounts".to_string(),
        schema_type: "object".to_string(),
        properties: expected,
    }));
}

#[test]
fn a_definition_takes_the_resource_it_is_given() {
    let definition = Schema {
        schema_type: Some("object".to_string()),
        properties: Some(OrderedMap::new()),
        ..Default::default()
    };
    let schema = definition_to_schema("User", &definition, "people".to_string()).unwrap();
    assert_eq!(schema, DiscoverySchema::ResponseSingle {
        id: "schemas/User".to_string(),
        resource: "people".to_string(),
        schema_type: "object".to_string(),
        properties: OrderedMap::new(),
    });
}

#[test]
fn a_definition_needs_type_and_properties() {
    let mut definitions = OrderedMap::new();
    definitions.insert("User".to_string(), Schema {
        properties: Some(OrderedMap::new()),
        ..Default::default()
    });
    assert_eq!(
        openapi_definitions_to_google_schemas(&definitions).unwrap_err(),
        ConversionError::DefinitionWithoutType { definition: "User".to_string() }
    );
    let mut definitions = OrderedMap::new();
    definitions.insert("User".to_string(), Schema {
        schema_type: Some("object".to_string()),
        ..Default::default()
    });
    assert_eq!(
        openapi_definitions_to_google_schemas(&definitions).unwrap_err(),
        ConversionError::DefinitionWithoutProperties { definition: "User".to_string() }
    );
    let mut fields = OrderedMap::new();
    fields.insert("tags".to_string(), Schema {
        items: Some(Box::new(Schema::default())),
        ..Default::default()
    });
    assert!(openapi_schemas_to_google_properties(&fields, &None).is_none());
    let mut definitions = OrderedMap::new();
    definitions.insert("User".to_string(), Schema {
        schema_type: Some("object".to_string()),
        properties: Some(fields),
        ..Default::default()
    });
    let mut spec = document(vec![]);
    spec.definitions = Some(definitions);
    assert_eq!(
        openapi_spec_to_google(&spec).unwrap_err(),
        ConversionError::DefinitionItemsWithoutReference { definition: "User".to_string() }
    );
}

#[test]
fn of_two_operations_with_one_name_the_later_stays() {
    let first = operation(Some("users.list"));
    let second = operation(Some("users.admins.list"));
    let list = vec![
        ("/users".to_string(), "GET", &first),
        ("/admins".to_string(), "GET", &second),
    ];
    let resource = to_google_resource(&list, &no_parameters()).unwrap();
    assert_eq!(resource.methods.len(), 1);
    let method = resource.methods.get("list").unwrap();
    assert_eq!(method.id, "users.admins.list");
    assert_eq!(method.path, "admins");
}

#[test]
fn errors_name_what_is_at_fault() {
    let operation_error = |flaw: Flaw| ConversionError::Operation {
        path: "/users".to_string(),
        verb: "GET".to_string(),
        flaw,
    };
    assert_eq!(
        operation_error(Flaw::MissingOperationId).message(),
        "GET /users: An operation ID is lacking."
    );
    assert_eq!(
        operation_error(Flaw::MissingDescription).message(),
        "GET /users: A description is lacking."
    );
    assert_eq!(
        operation_error(Flaw::UnresolvedParameter { reference: "#/parameters/x".to_string() })
            .message(),
        "GET /users: The parameter #/parameters/x is missing from the spec."
    );
    assert_eq!(
        operation_error(Flaw::ItemsWithoutReference).message(),
        "GET /users: The items of a list point to no definition."
    );
    assert_eq!(
        operation_error(Flaw::ResponseWithoutType).message(),
        "GET /users: The response needs a type."
    );
    assert_eq!(operation_error(Flaw::UnknownResponse).message(), "GET /users: Unknown response");
    assert_eq!(Flaw::UnknownResponse.message(), "Unknown response");
    assert_eq!(
        ConversionError::MissingField { field: "basePath".to_string() }.message(),
        "The document needs basePath."
    );
    assert_eq!(
        ConversionError::DefinitionWithoutType { definition: "User".to_string() }.message(),
        "Definition User needs a type."
    );
    assert_eq!(
        ConversionError::DefinitionWithoutProperties { definition: "User".to_string() }.message(),
        "Definition User needs a property."
    );
    assert_eq!(
        ConversionError::DefinitionItemsWithoutReference { definition: "User".to_string() }
            .message(),
        "Definition User has a list whose items point to no definition."
    );
}

#[test]
fn a_path_without_a_leading_slash_stays_as_it_is() {
    let report = operation(Some("sales.report"));
    let list = vec![("sales".to_string(), "POST", &report)];
    let resource = to_google_resource(&list, &no_parameters()).unwrap();
    assert_eq!(resource.methods.len(), 1);
    assert_eq!(resource.methods.key(0), "report");
    let method = resource.methods.get("report").unwrap();
    assert_eq!(method.http_method, "REPORT");
    assert_eq!(method.id, "sales.report");
    assert_eq!(method.path, "sales");

    let mut paths = OrderedMap::new();
    paths.insert("users".to_string(), Operations {
        get: Some(operation(Some("users.list"))),
        ..Default::default()
    });
    paths.insert("/accounts/{id}".to_string(), Operations {
        get: Some(operation(Some("accounts.get"))),
        ..Default::default()
    });
    paths.insert("//double".to_string(), Operations {
        get: Some(operation(Some("double.get"))),
        ..Default::default()
    });
    let resources = openapi_paths_to_google_resources(&paths, &no_parameters()).unwrap().0;
    assert_eq!(resources.get("users").unwrap().methods.get("list").unwrap().path, "users");
    assert_eq!(
        resources.get("accounts").unwrap().methods.get("get").unwrap().path,
        "accounts/{id}"
    );
    assert_eq!(resources.get("double").unwrap().methods.get("get").unwrap().path, "/double");
}
