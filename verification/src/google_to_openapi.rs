//! From a Discovery document to an OpenAPI document.
//!
//! Discovery groups methods by resource; OpenAPI groups operations by path.
//! All methods of all resources are laid out by their path, and under each
//! path by their verb. An operation keeps the id of its method, so that the
//! way back can tell where it came from.

use vstd::prelude::*;
use vstd::string::*;
use crate::discovery::{
    GoogleMethods, GoogleParams, GoogleResources, GoogleSchemas, Method, MethodView, Property,
    PropertyView, ResourceView, Response, ResponseView, Schema, SchemaView, Spec, SpecView,
};
use crate::openapi::{
    lemma_schema_view, no_operations, Contact, ContactView, Info, InfoView, Operation,
    OperationView, Operations, OperationsView, ParameterOrRef, ParameterOrRefView,
    Response as OpenApiResponse, ResponseView as OpenApiResponseView, Schema as OpenApiSchema,
    SchemaView as OpenApiSchemaView, Spec as OpenApiSpec, SpecView as OpenApiSpecView,
};
use crate::ordered_map::{
    lemma_upsert_entries, lemma_upsert_greatest, lemma_upsert_without, lookup, sorted, upsert,
    OrderedMap,
};
use crate::text::{
    clone_text, contains_char, joined, one_text, second_segment, second_segment_of, text_eq,
};

verus! {

/// The name of the contact of a converted document, to be replaced by hand.
pub const PLACEHOLDER_CONTACT_NAME: &'static str = "<YOUR NAME>";

/// The email of the contact of a converted document, to be replaced by hand.
pub const PLACEHOLDER_CONTACT_EMAIL: &'static str = "EMAIL@YOURDOMAIN.COM";

/// The host of a converted document, to be replaced by hand.
pub const PLACEHOLDER_HOST: &'static str = "PLEASE.SETHOST.com";

/// What every operation answers where the resource is not there.
pub const NOT_FOUND_DESCRIPTION: &'static str = "Resource not found.";

/// What every operation answers where the server fails.
pub const SERVER_ERROR_DESCRIPTION: &'static str = "Fatal error in the server.";

/// What an operation answers where it succeeds.
pub const SUCCESS_DESCRIPTION: &'static str = "The operation was successful";

/// The paths of an OpenAPI document, by path.
#[derive(Debug, PartialEq)]
pub struct OpenAPIPaths(pub OrderedMap<Operations>);

impl DeepView for OpenAPIPaths {
    type V = Seq<(Seq<char>, OperationsView)>;

    open spec fn deep_view(&self) -> Seq<(Seq<char>, OperationsView)> {
        self.0.deep_view()
    }
}

impl View for OpenAPIPaths {
    type V = Seq<(Seq<char>, OperationsView)>;

    open spec fn view(&self) -> Seq<(Seq<char>, OperationsView)> {
        self.deep_view()
    }
}

/// The responses of an operation, by status code.
#[derive(Debug, PartialEq)]
pub struct OpenAPIResponses(pub OrderedMap<OpenApiResponse>);

impl DeepView for OpenAPIResponses {
    type V = Seq<(Seq<char>, OpenApiResponseView)>;

    open spec fn deep_view(&self) -> Seq<(Seq<char>, OpenApiResponseView)> {
        self.0.deep_view()
    }
}

impl View for OpenAPIResponses {
    type V = Seq<(Seq<char>, OpenApiResponseView)>;

    open spec fn view(&self) -> Seq<(Seq<char>, OpenApiResponseView)> {
        self.deep_view()
    }
}

/// The parameters of an operation, in their order.
#[derive(Debug, PartialEq)]
pub struct OpenAPIParams(pub Vec<ParameterOrRef>);

impl DeepView for OpenAPIParams {
    type V = Seq<ParameterOrRefView>;

    open spec fn deep_view(&self) -> Seq<ParameterOrRefView> {
        self.0.deep_view()
    }
}

impl View for OpenAPIParams {
    type V = Seq<ParameterOrRefView>;

    open spec fn view(&self) -> Seq<ParameterOrRefView> {
        self.deep_view()
    }
}

/// Whether a Discovery pointer names what it points to: whether it holds a
/// `/`, behind which the name stands.
pub open spec fn has_target(discovery_ref: Seq<char>) -> bool {
    discovery_ref.contains('/')
}

/// The OpenAPI pointer for a Discovery pointer: `#/definitions/` and the
/// second of the parts that the `/` separate.
pub open spec fn openapi_ref(discovery_ref: Seq<char>) -> Seq<char> {
    "#/definitions/"@ + second_segment(discovery_ref, '/')
}

/// Whether the pointers of a response name what they point to.
pub open spec fn response_convertible(response: ResponseView) -> bool {
    match response {
        ResponseView::Reference { location } => has_target(location),
        ResponseView::ResponseList { id, resource, response_type, items } => has_target(
            items.location,
        ),
        ResponseView::ResponseSingle { id, resource, response_type, properties } => true,
    }
}

/// Whether the pointers of a method name what they point to.
pub open spec fn method_convertible(method: MethodView) -> bool {
    match method.response {
        Some(response) => response_convertible(response),
        None => true,
    }
}

/// Whether the pointers of a schema name what they point to.
pub open spec fn schema_convertible(schema: SchemaView) -> bool {
    match schema {
        SchemaView::ResponseList { id, resource, schema_type, items } => has_target(
            items.location,
        ),
        SchemaView::ResponseSingle { id, resource, schema_type, properties } => true,
    }
}

/// Whether the pointers of all methods of a resource name what they point to.
pub open spec fn resource_convertible(resource: ResourceView) -> bool {
    forall|i: int|
        0 <= i < resource.methods.len() ==> method_convertible(
            (#[trigger] resource.methods[i]).1,
        )
}

/// Whether a document can be converted: whether all pointers of its schemas
/// and of its methods name what they point to.
pub open spec fn spec_convertible(spec: SpecView) -> bool {
    &&& forall|i: int|
        0 <= i < spec.schemas.len() ==> schema_convertible((#[trigger] spec.schemas[i]).1)
    &&& forall|i: int|
        0 <= i < spec.resources.len() ==> resource_convertible((#[trigger] spec.resources[i]).1)
}

/// The metadata of the OpenAPI document: the title, the description and the
/// version as they are, the link to the documentation as the terms of
/// service, and a contact that is to be replaced by hand.
pub open spec fn info_of(spec: SpecView) -> InfoView {
    InfoView {
        title: Some(spec.title),
        description: Some(spec.description),
        version: Some(spec.version),
        terms_of_service: spec.documentation_link,
        license: None,
        contact: Some(
            ContactView {
                name: Some(PLACEHOLDER_CONTACT_NAME@),
                email: Some(PLACEHOLDER_CONTACT_EMAIL@),
                url: None,
            },
        ),
    }
}

/// Whether a parameter is required: it is unless it says otherwise.
pub open spec fn is_required(parameter: PropertyView) -> bool {
    match parameter.required {
        Some(required) => required,
        None => true,
    }
}

/// Where a parameter that does not say so is looked for: in the path if it
/// is required, else in the query.
pub open spec fn default_location(parameter: PropertyView) -> Seq<char> {
    if is_required(parameter) {
        "path"@
    } else {
        "query"@
    }
}

/// The OpenAPI parameter for the Discovery parameter `name`. Its type is
/// `string` unless it says otherwise.
pub open spec fn parameter_of(name: Seq<char>, parameter: PropertyView) -> ParameterOrRefView {
    ParameterOrRefView::Parameter {
        name,
        location: match parameter.location {
            Some(location) => location,
            None => default_location(parameter),
        },
        description: parameter.description,
        required: Some(is_required(parameter)),
        format: None,
        param_type: Some(
            match parameter.property_type {
                Some(property_type) => property_type,
                None => "string"@,
            },
        ),
        schema: None,
        unique_items: None,
    }
}

/// The OpenAPI parameters for the parameters of a method, in the order of
/// their names.
pub open spec fn parameters_of(parameters: Seq<(Seq<char>, PropertyView)>) -> Seq<
    ParameterOrRefView,
> {
    Seq::new(parameters.len(), |i: int| parameter_of(parameters[i].0, parameters[i].1))
}

/// The OpenAPI schema for a field of an object: its type and its description.
pub open spec fn property_schema(property: PropertyView) -> OpenApiSchemaView {
    OpenApiSchemaView {
        ref_path: None,
        description: property.description,
        schema_type: property.property_type,
        format: None,
        enum_values: None,
        required: None,
        items: None,
        properties: None,
    }
}

/// The OpenAPI schemas for the fields of an object.
pub open spec fn properties_of(properties: Seq<(Seq<char>, PropertyView)>) -> Seq<
    (Seq<char>, OpenApiSchemaView),
> {
    Seq::new(properties.len(), |i: int| (properties[i].0, property_schema(properties[i].1)))
}

/// The schema that only points to the definition that `discovery_ref` names.
pub open spec fn reference_schema(discovery_ref: Seq<char>) -> OpenApiSchemaView {
    OpenApiSchemaView {
        ref_path: Some(openapi_ref(discovery_ref)),
        description: None,
        schema_type: None,
        format: None,
        enum_values: None,
        required: None,
        items: None,
        properties: None,
    }
}

/// The schema of the successful response of an operation.
pub open spec fn response_schema(response: ResponseView) -> OpenApiSchemaView {
    match response {
        ResponseView::Reference { location } => reference_schema(location),
        ResponseView::ResponseList {
            id,
            resource,
            response_type,
            items,
        } => OpenApiSchemaView {
            ref_path: None,
            description: None,
            schema_type: Some(response_type),
            format: None,
            enum_values: None,
            required: None,
            items: Some(Box::new(reference_schema(items.location))),
            properties: None,
        },
        ResponseView::ResponseSingle {
            id,
            resource,
            response_type,
            properties,
        } => OpenApiSchemaView {
            ref_path: None,
            description: None,
            schema_type: Some(response_type),
            format: None,
            enum_values: None,
            required: None,
            items: None,
            properties: Some(properties_of(properties)),
        },
    }
}

/// The successful response of an operation for the response of its method.
pub open spec fn success_response(response: ResponseView) -> OpenApiResponseView {
    OpenApiResponseView {
        description: SUCCESS_DESCRIPTION@,
        schema: Some(response_schema(response)),
    }
}

/// A response that only says what happened.
pub open spec fn plain_response(description: Seq<char>) -> OpenApiResponseView {
    OpenApiResponseView { description, schema: None }
}

/// The responses that every operation has: one under `404` and one under
/// `500`.
pub open spec fn default_responses() -> Seq<(Seq<char>, OpenApiResponseView)> {
    upsert(
        upsert(Seq::empty(), "404"@, plain_response(NOT_FOUND_DESCRIPTION@)),
        "500"@,
        plain_response(SERVER_ERROR_DESCRIPTION@),
    )
}

/// The responses of an operation: the two that every operation has and,
/// where its method has a response, the successful one under `200`.
pub open spec fn responses_of(response: Option<ResponseView>) -> Seq<
    (Seq<char>, OpenApiResponseView),
> {
    match response {
        Some(declared) => upsert(default_responses(), "200"@, success_response(declared)),
        None => default_responses(),
    }
}

/// The operation for a method: it keeps the description and, as its id, the
/// id of the method.
pub open spec fn operation_of(method: MethodView) -> OperationView {
    OperationView {
        summary: None,
        description: Some(method.description),
        consumes: None,
        produces: None,
        schemes: None,
        tags: None,
        operation_id: Some(method.id),
        responses: responses_of(method.response),
        parameters: match method.parameters {
            Some(parameters) => Some(parameters_of(parameters)),
            None => None,
        },
    }
}

/// The operations of a path with one more method. The verb of the method
/// says where its operation goes; `REPORT`, which OpenAPI does not have, goes
/// where `POST` goes. An operation that was there before is replaced. A
/// method with any other verb changes nothing.
pub open spec fn with_method(operations: OperationsView, method: MethodView) -> OperationsView {
    let operation = Some(operation_of(method));
    if method.http_method == "GET"@ {
        OperationsView { get: operation, ..operations }
    } else if method.http_method == "POST"@ || method.http_method == "REPORT"@ {
        OperationsView { post: operation, ..operations }
    } else if method.http_method == "PUT"@ {
        OperationsView { put: operation, ..operations }
    } else if method.http_method == "PATCH"@ {
        OperationsView { patch: operation, ..operations }
    } else if method.http_method == "DELETE"@ {
        OperationsView { delete: operation, ..operations }
    } else if method.http_method == "OPTIONS"@ {
        OperationsView { options: operation, ..operations }
    } else if method.http_method == "HEAD"@ {
        OperationsView { head: operation, ..operations }
    } else {
        operations
    }
}

/// The operations of a path for the first `n` of its methods.
pub open spec fn operations_upto(methods: Seq<MethodView>, n: nat) -> OperationsView
    decreases n,
{
    if n == 0 {
        no_operations()
    } else {
        with_method(operations_upto(methods, (n - 1) as nat), methods[n - 1])
    }
}

/// The operations of a path for its methods, in the order in which they are
/// given: of two methods with the same verb the later one stays.
pub open spec fn operations_of(methods: Seq<MethodView>) -> OperationsView {
    operations_upto(methods, methods.len())
}

/// The path under which a method stands in an OpenAPI document: a `/` and
/// the path of the method.
pub open spec fn path_key(path: Seq<char>) -> Seq<char> {
    "/"@ + path
}

/// The methods of each path with one more method, behind those that share
/// its path.
pub open spec fn add_to_path(groups: Seq<(Seq<char>, Seq<MethodView>)>, method: MethodView) -> Seq<
    (Seq<char>, Seq<MethodView>),
> {
    upsert(
        groups,
        path_key(method.path),
        match lookup(groups, path_key(method.path)) {
            Some(members) => members.push(method),
            None => seq![method],
        },
    )
}

/// The methods of each path, with the first `n` methods of a resource added.
pub open spec fn add_methods_upto(
    groups: Seq<(Seq<char>, Seq<MethodView>)>,
    methods: Seq<(Seq<char>, MethodView)>,
    n: nat,
) -> Seq<(Seq<char>, Seq<MethodView>)>
    decreases n,
{
    if n == 0 {
        groups
    } else {
        add_to_path(add_methods_upto(groups, methods, (n - 1) as nat), methods[n - 1].1)
    }
}

/// The methods of each path for the first `n` resources: the resources in
/// the order of their names, and the methods of each in the order of theirs.
pub open spec fn grouped_upto(resources: Seq<(Seq<char>, ResourceView)>, n: nat) -> Seq<
    (Seq<char>, Seq<MethodView>),
>
    decreases n,
{
    if n == 0 {
        Seq::empty()
    } else {
        add_methods_upto(
            grouped_upto(resources, (n - 1) as nat),
            resources[n - 1].1.methods,
            resources[n - 1].1.methods.len(),
        )
    }
}

/// The methods of a document by their path.
pub open spec fn grouped(resources: Seq<(Seq<char>, ResourceView)>) -> Seq<
    (Seq<char>, Seq<MethodView>),
> {
    grouped_upto(resources, resources.len())
}

/// The paths of the OpenAPI document: under each path of a method, the
/// operations of the methods that share it.
pub open spec fn paths_of(resources: Seq<(Seq<char>, ResourceView)>) -> Seq<
    (Seq<char>, OperationsView),
> {
    Seq::new(
        grouped(resources).len(),
        |i: int| (grouped(resources)[i].0, operations_of(grouped(resources)[i].1)),
    )
}

/// The definition for a schema: a pointer to the schema of its items for a
/// list, the fields with their types and descriptions for an object.
pub open spec fn definition_of(schema: SchemaView) -> OpenApiSchemaView {
    match schema {
        SchemaView::ResponseList { id, resource, schema_type, items } => OpenApiSchemaView {
            ref_path: Some(openapi_ref(items.location)),
            description: None,
            schema_type: Some(schema_type),
            format: None,
            enum_values: None,
            required: None,
            items: None,
            properties: None,
        },
        SchemaView::ResponseSingle {
            id,
            resource,
            schema_type,
            properties,
        } => OpenApiSchemaView {
            ref_path: None,
            description: None,
            schema_type: Some(schema_type),
            format: None,
            enum_values: None,
            required: None,
            items: None,
            properties: Some(properties_of(properties)),
        },
    }
}

/// The definitions of the OpenAPI document: one for each schema, under the
/// same name.
pub open spec fn definitions_of(schemas: Seq<(Seq<char>, SchemaView)>) -> Seq<
    (Seq<char>, OpenApiSchemaView),
> {
    Seq::new(schemas.len(), |i: int| (schemas[i].0, definition_of(schemas[i].1)))
}

/// The OpenAPI document for a Discovery document. It is served over `https`
/// from a host that is to be replaced by hand, and speaks JSON.
pub open spec fn openapi_of(spec: SpecView) -> OpenApiSpecView {
    OpenApiSpecView {
        swagger: "2.0"@,
        info: info_of(spec),
        paths: paths_of(spec.resources),
        definitions: Some(definitions_of(spec.schemas)),
        schemes: Some(seq!["https"@]),
        host: Some(PLACEHOLDER_HOST@),
        base_path: Some(spec.base_path),
        consumes: Some(seq!["application/json"@]),
        produces: Some(seq!["application/json"@]),
        parameters: None,
        responses: None,
    }
}

/// Rewrites a pointer such as `schemas/Region` to `#/definitions/Region`.
/// The pointer must name what it points to.
pub fn transform_ref_path(google_ref: &str) -> (r: String)
    requires
        has_target(google_ref@),
    ensures
        r@ == openapi_ref(google_ref@),
{
    match second_segment_of(google_ref, '/') {
        Some(name) => joined("#/definitions/", name.as_str()),
        None => String::new(),
    }
}

/// Whether a pointer names what it points to.
pub fn names_target(google_ref: &str) -> (r: bool)
    ensures
        r == has_target(google_ref@),
{
    contains_char(google_ref, '/')
}

/// The metadata of the OpenAPI document for a Discovery document.
pub fn from_spec_to_openapi_info(google_spec: &Spec) -> (r: Info)
    ensures
        r@ == info_of(google_spec@),
{
    let contact = Contact {
        name: Some(String::from_str(PLACEHOLDER_CONTACT_NAME)),
        email: Some(String::from_str(PLACEHOLDER_CONTACT_EMAIL)),
        url: None,
    };
    Info {
        title: Some(google_spec.title.clone()),
        description: Some(google_spec.description.clone()),
        version: Some(google_spec.version.clone()),
        terms_of_service: clone_text(&google_spec.documentation_link),
        license: None,
        contact: Some(contact),
    }
}

/// Where a parameter that does not say so is looked for.
pub fn param_to_param_location(param: &Property) -> (r: String)
    ensures
        r@ == default_location(param@),
{
    let required = match param.required {
        Some(required) => required,
        None => true,
    };
    if required {
        String::from_str("path")
    } else {
        String::from_str("query")
    }
}

impl OpenAPIParams {
    /// The OpenAPI parameters for the parameters of a method.
    pub fn from(params: &GoogleParams) -> (r: OpenAPIParams)
        ensures
            r@ == parameters_of(params@),
    {
        OpenAPIParams(google_params_to_openapi_params(params))
    }
}

fn google_params_to_openapi_params(params: &GoogleParams) -> (r: Vec<ParameterOrRef>)
    ensures
        r.deep_view() == parameters_of(params@),
{
    let mut result: Vec<ParameterOrRef> = Vec::new();
    let n = params.0.len();
    let mut i: usize = 0;
    while i < n
        invariant
            i <= n,
            n == params@.len(),
            n == params.0.entries().len(),
            params@ == params.0.deep_view(),
            result@.len() == i,
            forall|j: int|
                0 <= j < i ==> (#[trigger] result@[j]).deep_view() == parameter_of(
                    params@[j].0,
                    params@[j].1,
                ),
        decreases n - i,
    {
        let name = params.0.key(i);
        let param = params.0.value(i);
        let location = match &param.location {
            Some(location) => location.clone(),
            None => param_to_param_location(param),
        };
        let required = match param.required {
            Some(required) => required,
            None => true,
        };
        let param_type = match &param.property_type {
            Some(property_type) => property_type.clone(),
            None => String::from_str("string"),
        };
        result.push(
            ParameterOrRef::Parameter {
                name: name.clone(),
                location,
                description: clone_text(&param.description),
                required: Some(required),
                format: None,
                param_type: Some(param_type),
                schema: None,
                unique_items: None,
            },
        );
        i = i + 1;
    }
    assert(result.deep_view() =~= parameters_of(params@));
    result
}

/// The OpenAPI schemas for the fields of an object.
pub fn google_schema_to_openapi_schema(properties: &OrderedMap<Property>) -> (r: OrderedMap<
    OpenApiSchema,
>)
    ensures
        r.deep_view() == properties_of(properties.deep_view()),
{
    let mut result: OrderedMap<OpenApiSchema> = OrderedMap::new();
    let n = properties.len();
    let mut i: usize = 0;
    while i < n
        invariant
            i <= n,
            n == properties.deep_view().len(),
            n == properties.entries().len(),
            sorted(properties.deep_view()),
            result.deep_view() == properties_of(properties.deep_view()).take(i as int),
        decreases n - i,
    {
        let property = properties.value(i);
        let schema = OpenApiSchema {
            ref_path: None,
            description: clone_text(&property.description),
            schema_type: clone_text(&property.property_type),
            format: None,
            enum_values: None,
            required: None,
            items: None,
            properties: None,
        };
        proof {
            lemma_schema_view(schema);
            assert(schema@ == property_schema(property@));
            lemma_upsert_greatest(result.deep_view(), properties.deep_view()[i as int].0, schema@);
            assert(properties_of(properties.deep_view()).take(i + 1) =~= properties_of(
                properties.deep_view(),
            ).take(i as int).push((properties.deep_view()[i as int].0, schema@)));
        }
        result.insert(properties.key(i).clone(), schema);
        i = i + 1;
    }
    assert(properties_of(properties.deep_view()).take(n as int) =~= properties_of(
        properties.deep_view(),
    ));
    result
}

fn pointer_schema(google_ref: &str) -> (r: OpenApiSchema)
    requires
        has_target(google_ref@),
    ensures
        r@ == reference_schema(google_ref@),
{
    let r = OpenApiSchema {
        ref_path: Some(transform_ref_path(google_ref)),
        description: None,
        schema_type: None,
        format: None,
        enum_values: None,
        required: None,
        items: None,
        properties: None,
    };
    proof {
        lemma_schema_view(r);
    }
    r
}

/// The successful response of an operation for the response of its method.
pub fn to_openapi_response(response: &Response) -> (r: OpenApiResponse)
    requires
        response_convertible(response@),
    ensures
        r@ == success_response(response@),
{
    let schema = match response {
        Response::Reference { location } => pointer_schema(location.as_str()),
        Response::ResponseList { id, resource, response_type, items } => {
            let r = OpenApiSchema {
                ref_path: None,
                description: None,
                schema_type: Some(response_type.clone()),
                format: None,
                enum_values: None,
                required: None,
                items: Some(Box::new(pointer_schema(items.location.as_str()))),
                properties: None,
            };
            proof {
                lemma_schema_view(r);
            }
            r
        },
        Response::ResponseSingle { id, resource, response_type, properties } => {
            let r = OpenApiSchema {
                ref_path: None,
                description: None,
                schema_type: Some(response_type.clone()),
                format: None,
                enum_values: None,
                required: None,
                items: None,
                properties: Some(google_schema_to_openapi_schema(properties)),
            };
            proof {
                lemma_schema_view(r);
            }
            r
        },
    };
    OpenApiResponse { description: String::from_str(SUCCESS_DESCRIPTION), schema: Some(schema) }
}

/// The responses of an operation for the response of its method.
pub fn from_google_to_openapi_responses(response: &Option<Response>) -> (r: OpenAPIResponses)
    requires
        response matches Some(declared) ==> response_convertible(declared@),
    ensures
        r@ == responses_of(response.deep_view()),
{
    let mut responses: OrderedMap<OpenApiResponse> = OrderedMap::new();
    responses.insert(
        String::from_str("404"),
        OpenApiResponse { description: String::from_str(NOT_FOUND_DESCRIPTION), schema: None },
    );
    responses.insert(
        String::from_str("500"),
        OpenApiResponse { description: String::from_str(SERVER_ERROR_DESCRIPTION), schema: None },
    );
    match response {
        Some(declared) => {
            responses.insert(String::from_str("200"), to_openapi_response(declared));
        },
        None => {},
    }
    OpenAPIResponses(responses)
}

/// The operation for a method.
pub fn method_to_operation(method: &Method) -> (r: Operation)
    requires
        method_convertible(method@),
    ensures
        r@ == operation_of(method@),
{
    Operation {
        summary: None,
        description: Some(method.description.clone()),
        consumes: None,
        produces: None,
        schemes: None,
        tags: None,
        operation_id: Some(method.id.clone()),
        responses: from_google_to_openapi_responses(&method.response).0,
        parameters: match &method.parameters {
            Some(parameters) => Some(OpenAPIParams::from(parameters).0),
            None => None,
        },
    }
}

fn place_method(operations: Operations, method: &Method) -> (r: Operations)
    requires
        method_convertible(method@),
    ensures
        r@ == with_method(operations@, method@),
{
    let mut operations = operations;
    let operation = method_to_operation(method);
    let verb = method.http_method.as_str();
    if text_eq(verb, "GET") {
        operations.get = Some(operation);
    } else if text_eq(verb, "POST") || text_eq(verb, "REPORT") {
        operations.post = Some(operation);
    } else if text_eq(verb, "PUT") {
        operations.put = Some(operation);
    } else if text_eq(verb, "PATCH") {
        operations.patch = Some(operation);
    } else if text_eq(verb, "DELETE") {
        operations.delete = Some(operation);
    } else if text_eq(verb, "OPTIONS") {
        operations.options = Some(operation);
    } else if text_eq(verb, "HEAD") {
        operations.head = Some(operation);
    }
    operations
}

fn operations_for(methods: &Vec<&Method>) -> (r: Operations)
    requires
        forall|i: int| 0 <= i < methods@.len() ==> method_convertible((#[trigger] methods@[i])@),
    ensures
        r@ == operations_of(methods.deep_view()),
{
    let mut operations = Operations::default();
    let mut i: usize = 0;
    while i < methods.len()
        invariant
            i <= methods@.len(),
            forall|j: int|
                0 <= j < methods@.len() ==> method_convertible((#[trigger] methods@[j])@),
            operations@ == operations_upto(methods.deep_view(), i as nat),
        decreases methods@.len() - i,
    {
        operations = place_method(operations, methods[i]);
        i = i + 1;
    }
    operations
}

/// The operations of a path for the methods that share it, in the order in
/// which they are given.
pub fn methods_to_operations(methods: &GoogleMethods) -> (r: Operations)
    requires
        forall|i: int| 0 <= i < methods@.len() ==> method_convertible(#[trigger] methods@[i]),
    ensures
        r@ == operations_of(methods@),
{
    let mut borrowed: Vec<&Method> = Vec::new();
    let mut i: usize = 0;
    while i < methods.0.len()
        invariant
            i <= methods.0@.len(),
            borrowed@.len() == i,
            forall|j: int| 0 <= j < i ==> *(#[trigger] borrowed@[j]) == methods.0@[j],
        decreases methods.0@.len() - i,
    {
        borrowed.push(&methods.0[i]);
        i = i + 1;
    }
    assert(borrowed.deep_view() =~= methods@);
    assert forall|i: int| 0 <= i < borrowed@.len() implies method_convertible(
        (#[trigger] borrowed@[i])@,
    ) by {
        assert(borrowed@[i]@ == methods@[i]);
    }
    operations_for(&borrowed)
}

/// The response that carries the definition for a schema.
pub fn schema_to_response(schema: &Schema) -> (r: OpenApiResponse)
    requires
        schema_convertible(schema@),
    ensures
        r@ == (OpenApiResponseView {
            description: SUCCESS_DESCRIPTION@,
            schema: Some(definition_of(schema@)),
        }),
{
    let definition = match schema {
        Schema::ResponseList { id, resource, schema_type, items } => {
            let r = OpenApiSchema {
                ref_path: Some(transform_ref_path(items.location.as_str())),
                description: None,
                schema_type: Some(schema_type.clone()),
                format: None,
                enum_values: None,
                required: None,
                items: None,
                properties: None,
            };
            proof {
                lemma_schema_view(r);
            }
            r
        },
        Schema::ResponseSingle { id, resource, schema_type, properties } => {
            let r = OpenApiSchema {
                ref_path: None,
                description: None,
                schema_type: Some(schema_type.clone()),
                format: None,
                enum_values: None,
                required: None,
                items: None,
                properties: Some(google_schema_to_openapi_schema(properties)),
            };
            proof {
                lemma_schema_view(r);
            }
            r
        },
    };
    OpenApiResponse {
        description: String::from_str(SUCCESS_DESCRIPTION),
        schema: Some(definition),
    }
}

/// Whether the pointers of all methods of all paths name what they point
/// to.
pub open spec fn groups_convertible(groups: Seq<(Seq<char>, Seq<MethodView>)>) -> bool {
    forall|i: int, j: int|
        0 <= i < groups.len() && 0 <= j < groups[i].1.len() ==> method_convertible(
            #[trigger] groups[i].1[j],
        )
}

/// Adding a method whose pointers name what they point to keeps all methods
/// of all paths so.
pub proof fn lemma_add_to_path_convertible(
    groups: Seq<(Seq<char>, Seq<MethodView>)>,
    method: MethodView,
)
    requires
        sorted(groups),
        groups_convertible(groups),
        method_convertible(method),
    ensures
        groups_convertible(add_to_path(groups, method)),
{
    let key = path_key(method.path);
    let members = match lookup(groups, key) {
        Some(members) => members.push(method),
        None => seq![method],
    };
    let after = add_to_path(groups, method);
    lemma_upsert_entries(groups, key, members);
    crate::ordered_map::lemma_position_from(groups, key, 0);
    assert forall|i: int, j: int|
        0 <= i < after.len() && 0 <= j < after[i].1.len() implies method_convertible(
        #[trigger] after[i].1[j],
    ) by {
        if after[i] == (key, members) {
            match lookup(groups, key) {
                Some(old_members) => {
                    let p = crate::ordered_map::position(groups, key);
                    assert(groups[p].1 == old_members);
                    if j < old_members.len() {
                        assert(members[j] == groups[p].1[j]);
                    }
                },
                None => {},
            }
        } else {
            let at = choose|at: int| 0 <= at < groups.len() && groups[at] == after[i];
            assert(after[i].1[j] == groups[at].1[j]);
        }
    }
}

fn group_method<'a>(groups: &mut OrderedMap<Vec<&'a Method>>, method: &'a Method)
    requires
        groups_convertible(old(groups).deep_view()),
        method_convertible(method@),
    ensures
        final(groups).deep_view() == add_to_path(old(groups).deep_view(), method@),
        groups_convertible(final(groups).deep_view()),
{
    let key = joined("/", method.path.as_str());
    let ghost before = groups.deep_view();
    let size = groups.len();
    let mut members = match groups.remove(key.as_str()) {
        Some(members) => members,
        None => Vec::new(),
    };
    members.push(method);
    proof {
        lemma_upsert_without(before, key@, members.deep_view());
        match lookup(before, key@) {
            Some(m) => {
                assert(members.deep_view() =~= m.push(method@));
            },
            None => {
                assert(members.deep_view() =~= seq![method@]);
            },
        }
        lemma_add_to_path_convertible(before, method@);
    }
    groups.insert(key, members);
}

fn group_resource_methods<'a>(
    groups: &mut OrderedMap<Vec<&'a Method>>,
    methods: &'a OrderedMap<Method>,
)
    requires
        groups_convertible(old(groups).deep_view()),
        forall|i: int|
            0 <= i < methods.deep_view().len() ==> method_convertible(
                (#[trigger] methods.deep_view()[i]).1,
            ),
    ensures
        final(groups).deep_view() == add_methods_upto(
            old(groups).deep_view(),
            methods.deep_view(),
            methods.deep_view().len(),
        ),
        groups_convertible(final(groups).deep_view()),
{
    let n = methods.len();
    let mut i: usize = 0;
    while i < n
        invariant
            i <= n,
            n == methods.deep_view().len(),
            n == methods.entries().len(),
            forall|j: int|
                0 <= j < methods.deep_view().len() ==> method_convertible(
                    (#[trigger] methods.deep_view()[j]).1,
                ),
            groups.deep_view() == add_methods_upto(
                old(groups).deep_view(),
                methods.deep_view(),
                i as nat,
            ),
            groups_convertible(groups.deep_view()),
        decreases n - i,
    {
        assert(method_convertible(methods.deep_view()[i as int].1));
        group_method(groups, methods.value(i));
        i = i + 1;
    }
}

fn response_is_convertible(response: &Response) -> (r: bool)
    ensures
        r == response_convertible(response@),
{
    match response {
        Response::Reference { location } => names_target(location.as_str()),
        Response::ResponseList { id, resource, response_type, items } => names_target(
            items.location.as_str(),
        ),
        Response::ResponseSingle { id, resource, response_type, properties } => true,
    }
}

/// Whether the pointers of a method name what they point to.
pub fn method_is_convertible(method: &Method) -> (r: bool)
    ensures
        r == method_convertible(method@),
{
    match &method.response {
        Some(response) => response_is_convertible(response),
        None => true,
    }
}

/// Whether the pointers of a schema name what they point to.
pub fn schema_is_convertible(schema: &Schema) -> (r: bool)
    ensures
        r == schema_convertible(schema@),
{
    match schema {
        Schema::ResponseList { id, resource, schema_type, items } => names_target(
            items.location.as_str(),
        ),
        Schema::ResponseSingle { id, resource, schema_type, properties } => true,
    }
}

fn methods_are_convertible(methods: &OrderedMap<Method>) -> (r: bool)
    ensures
        r == forall|i: int|
            0 <= i < methods.deep_view().len() ==> method_convertible(
                (#[trigger] methods.deep_view()[i]).1,
            ),
{
    let n = methods.len();
    let mut i: usize = 0;
    while i < n
        invariant
            i <= n,
            n == methods.deep_view().len(),
            n == methods.entries().len(),
            forall|j: int|
                0 <= j < i ==> method_convertible((#[trigger] methods.deep_view()[j]).1),
        decreases n - i,
    {
        if !method_is_convertible(methods.value(i)) {
            assert(!method_convertible(methods.deep_view()[i as int].1));
            return false;
        }
        i = i + 1;
    }
    true
}

/// Whether a document can be converted: whether all pointers of its schemas
/// and of its methods name what they point to.
pub fn is_convertible(spec: &Spec) -> (r: bool)
    ensures
        r == spec_convertible(spec@),
{
    let count = spec.schemas.0.len();
    let mut i: usize = 0;
    while i < count
        invariant
            i <= count,
            count == spec@.schemas.len(),
            count == spec.schemas.0.entries().len(),
            spec@.schemas == spec.schemas.0.deep_view(),
            forall|j: int| 0 <= j < i ==> schema_convertible((#[trigger] spec@.schemas[j]).1),
        decreases count - i,
    {
        if !schema_is_convertible(spec.schemas.0.value(i)) {
            assert(!schema_convertible(spec@.schemas[i as int].1));
            return false;
        }
        i = i + 1;
    }
    let size = spec.resources.0.len();
    let mut k: usize = 0;
    while k < size
        invariant
            k <= size,
            size == spec@.resources.len(),
            size == spec.resources.0.entries().len(),
            spec@.resources == spec.resources.0.deep_view(),
            forall|j: int|
                0 <= j < spec@.schemas.len() ==> schema_convertible(
                    (#[trigger] spec@.schemas[j]).1,
                ),
            forall|j: int|
                0 <= j < k ==> resource_convertible((#[trigger] spec@.resources[j]).1),
        decreases size - k,
    {
        let resource = spec.resources.0.value(k);
        assert(resource.deep_view() == spec@.resources[k as int].1);
        assert(resource.deep_view().methods == resource.methods.deep_view());
        if !methods_are_convertible(&resource.methods) {
            assert(!resource_convertible(spec@.resources[k as int].1));
            return false;
        }
        k = k + 1;
    }
    true
}

/// The paths of the OpenAPI document for the resources of a Discovery
/// document.
pub fn resources_to_paths(resources: &GoogleResources) -> (r: OpenAPIPaths)
    requires
        forall|i: int|
            0 <= i < resources@.len() ==> resource_convertible((#[trigger] resources@[i]).1),
    ensures
        r@ == paths_of(resources@),
{
    let mut groups: OrderedMap<Vec<&Method>> = OrderedMap::new();
    let count = resources.0.len();
    let mut i: usize = 0;
    while i < count
        invariant
            i <= count,
            count == resources@.len(),
            count == resources.0.entries().len(),
            resources@ == resources.0.deep_view(),
            forall|j: int|
                0 <= j < resources@.len() ==> resource_convertible((#[trigger] resources@[j]).1),
            groups.deep_view() == grouped_upto(resources@, i as nat),
            groups_convertible(groups.deep_view()),
        decreases count - i,
    {
        let resource = resources.0.value(i);
        assert(resource_convertible(resources@[i as int].1));
        assert(resource.deep_view() == resources@[i as int].1);
        assert(resource.deep_view().methods == resource.methods.deep_view());
        group_resource_methods(&mut groups, &resource.methods);
        i = i + 1;
    }
    let mut paths: OrderedMap<Operations> = OrderedMap::new();
    let size = groups.len();
    let mut g: usize = 0;
    while g < size
        invariant
            g <= size,
            size == groups.deep_view().len(),
            size == groups.entries().len(),
            sorted(groups.deep_view()),
            groups.deep_view() == grouped(resources@),
            groups_convertible(groups.deep_view()),
            paths.deep_view() == paths_of(resources@).take(g as int),
        decreases size - g,
    {
        let members = groups.value(g);
        assert forall|j: int| 0 <= j < members@.len() implies method_convertible(
            (#[trigger] members@[j])@,
        ) by {
            assert(members@[j]@ == groups.deep_view()[g as int].1[j]);
        }
        let operations = operations_for(members);
        proof {
            lemma_upsert_greatest(
                paths.deep_view(),
                groups.deep_view()[g as int].0,
                operations@,
            );
            assert(paths_of(resources@).take(g + 1) =~= paths_of(resources@).take(
                g as int,
            ).push((groups.deep_view()[g as int].0, operations@)));
        }
        paths.insert(groups.key(g).clone(), operations);
        g = g + 1;
    }
    assert(paths_of(resources@).take(size as int) =~= paths_of(resources@));
    OpenAPIPaths(paths)
}

/// The definitions of the OpenAPI document for the schemas of a Discovery
/// document.
pub fn schemas_to_definitions(schemas: &GoogleSchemas) -> (r: OrderedMap<OpenApiSchema>)
    requires
        forall|i: int| 0 <= i < schemas@.len() ==> schema_convertible((#[trigger] schemas@[i]).1),
    ensures
        r.deep_view() == definitions_of(schemas@),
{
    let mut definitions: OrderedMap<OpenApiSchema> = OrderedMap::new();
    let n = schemas.0.len();
    let mut i: usize = 0;
    while i < n
        invariant
            i <= n,
            n == schemas@.len(),
            n == schemas.0.entries().len(),
            schemas@ == schemas.0.deep_view(),
            sorted(schemas@),
            forall|j: int|
                0 <= j < schemas@.len() ==> schema_convertible((#[trigger] schemas@[j]).1),
            definitions.deep_view() == definitions_of(schemas@).take(i as int),
        decreases n - i,
    {
        assert(schema_convertible(schemas@[i as int].1));
        let response = schema_to_response(schemas.0.value(i));
        match response.schema {
            Some(definition) => {
                proof {
                    lemma_upsert_greatest(
                        definitions.deep_view(),
                        schemas@[i as int].0,
                        definition@,
                    );
                    assert(definitions_of(schemas@).take(i + 1) =~= definitions_of(schemas@).take(
                        i as int,
                    ).push((schemas@[i as int].0, definition@)));
                }
                definitions.insert(schemas.0.key(i).clone(), definition);
            },
            None => {},
        }
        i = i + 1;
    }
    assert(definitions_of(schemas@).take(n as int) =~= definitions_of(schemas@));
    definitions
}

/// Converts a Discovery document to an OpenAPI document. The pointers of the
/// document must name what they point to.
pub fn google_spec_to_openapi(spec: &Spec) -> (r: OpenApiSpec)
    requires
        spec_convertible(spec@),
    ensures
        r@ == openapi_of(spec@),
{
    let definitions = schemas_to_definitions(&spec.schemas);
    let paths = resources_to_paths(&spec.resources);
    OpenApiSpec {
        swagger: String::from_str("2.0"),
        info: from_spec_to_openapi_info(spec),
        paths: paths.0,
        definitions: Some(definitions),
        schemes: Some(one_text("https")),
        host: Some(String::from_str(PLACEHOLDER_HOST)),
        base_path: Some(spec.base_path.clone()),
        consumes: Some(one_text("application/json")),
        produces: Some(one_text("application/json")),
        parameters: None,
        responses: None,
    }
}

} // verus!
