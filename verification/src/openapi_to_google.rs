//! From an OpenAPI document to a Discovery document.
//!
//! OpenAPI groups operations by path; Discovery groups methods by resource.
//! The resource of an operation and the name of its method are read from its
//! `operationId`, which is written `<group>.<name>`.

use vstd::prelude::*;
use vstd::string::*;
use crate::discovery::{
    GoogleParams, GoogleResources, GoogleSchemas, Method, MethodRequest, MethodRequestView,
    MethodView, Property, PropertyView, Reference, ReferenceView, Resource, ResourceView,
    Response, ResponseView, Schema as DiscoverySchema, SchemaView as DiscoverySchemaView,
    Spec as DiscoverySpec, SpecView as DiscoverySpecView, TypeOrReference, TypeOrReferenceView,
};
use crate::naming::{lowercase_of, resource_name, resource_name_of, to_lowercase};
use crate::error::{outcome, ConversionError, ConversionErrorView, Flaw, FlawView};
use crate::openapi::{
    lemma_schema_view, Operation, OperationView, Operations, OperationsView, Parameter,
    ParameterOrRef, ParameterOrRefView, ParameterView,
    Response as OpenApiResponse, ResponseView as OpenApiResponseView, Schema, SchemaView, Spec,
    SpecView,
};
use crate::ordered_map::{
    lemma_upsert_greatest, lemma_upsert_without, lookup, sorted, upsert, OrderedMap,
};
use crate::text::{
    clone_text, contains_text, first_segment, first_segment_of, joined, last_segment,
    last_segment_of, starts_with, starts_with_char, strip_leading_slash, text_eq,
    without_leading_slash,
};

verus! {

/// The Discovery pointer for an OpenAPI pointer: `schemas/` and what stands
/// behind the last `/` of the OpenAPI pointer.
pub open spec fn discovery_ref(openapi_ref: Seq<char>) -> Seq<char> {
    "schemas/"@ + last_segment(openapi_ref, '/')
}

/// The group of an operation: what stands before the first `.` of its id.
pub open spec fn operation_group(id: Seq<char>) -> Seq<char> {
    first_segment(id, '.')
}

/// The bare name of an operation: what stands behind the last `.` of its id.
pub open spec fn operation_name(id: Seq<char>) -> Seq<char> {
    last_segment(id, '.')
}

/// Rewrites a pointer such as `#/definitions/Region` to `schemas/Region`.
pub fn transform_ref_path(openapi_ref: &str) -> (r: String)
    ensures
        r@ == discovery_ref(openapi_ref@),
{
    let name = last_segment_of(openapi_ref, '/');
    joined("schemas/", name.as_str())
}

/// The bare name of the operation, where it has an id.
pub fn operation_to_operation_name(operation: &Operation) -> (r: Option<String>)
    ensures
        r.deep_view() == match operation@.operation_id {
            Some(id) => Some(operation_name(id)),
            None => None,
        },
{
    match &operation.operation_id {
        Some(id) => Some(last_segment_of(id.as_str(), '.')),
        None => None,
    }
}

/// The group of the operation, where it has an id.
pub fn operation_to_operation_group(operation: &Operation) -> (r: Option<String>)
    ensures
        r.deep_view() == match operation@.operation_id {
            Some(id) => Some(operation_group(id)),
            None => None,
        },
{
    match &operation.operation_id {
        Some(id) => Some(first_segment_of(id.as_str(), '.')),
        None => None,
    }
}

/// What the items of a parameter are, read from its schema: a pointer where
/// the schema describes a list, nothing otherwise. A list whose items point
/// nowhere is a flaw.
pub open spec fn parameter_items(schema: Option<SchemaView>) -> Result<
    Option<TypeOrReferenceView>,
    FlawView,
> {
    match schema {
        Some(s) => match s.items {
            Some(items) => match items.ref_path {
                Some(target) => Ok(
                    Some(TypeOrReferenceView::Reference { location: discovery_ref(target) }),
                ),
                None => Err(FlawView::ItemsWithoutReference),
            },
            None => Ok(None),
        },
        None => Ok(None),
    }
}

/// The Discovery parameter for an OpenAPI parameter that is spelled out in
/// place.
pub open spec fn inline_parameter(
    location: Seq<char>,
    description: Option<Seq<char>>,
    required: Option<bool>,
    param_type: Option<Seq<char>>,
    schema: Option<SchemaView>,
) -> Result<PropertyView, FlawView> {
    match parameter_items(schema) {
        Ok(items) => Ok(
            PropertyView {
                property_type: param_type,
                description,
                format: None,
                items,
                the_default: None,
                required,
                location: Some(location),
            },
        ),
        Err(flaw) => Err(flaw),
    }
}

/// The Discovery parameter for a parameter of the document that an operation
/// points to.
pub open spec fn shared_parameter(parameter: ParameterView) -> PropertyView {
    PropertyView {
        property_type: parameter.param_type,
        description: parameter.description,
        format: None,
        items: None,
        the_default: None,
        required: parameter.required,
        location: Some(parameter.location),
    }
}

/// The name of the parameter that a pointer such as `#/parameters/limit`
/// points to.
pub open spec fn parameter_ref_name(ref_path: Seq<char>) -> Seq<char> {
    last_segment(ref_path, '/')
}

/// The name and the Discovery parameter for one parameter of an operation.
/// `table` holds the parameters of the document.
pub open spec fn parameter_entry(
    parameter: ParameterOrRefView,
    table: Seq<(Seq<char>, ParameterView)>,
) -> Result<(Seq<char>, PropertyView), FlawView> {
    match parameter {
        ParameterOrRefView::Parameter {
            name,
            location,
            description,
            required,
            format,
            param_type,
            schema,
            unique_items,
        } => match inline_parameter(location, description, required, param_type, schema) {
            Ok(property) => Ok((name, property)),
            Err(flaw) => Err(flaw),
        },
        ParameterOrRefView::Ref { ref_path } => match lookup(table, parameter_ref_name(ref_path)) {
            Some(shared) => Ok((parameter_ref_name(ref_path), shared_parameter(shared))),
            None => Err(FlawView::UnresolvedParameter { reference: ref_path }),
        },
    }
}

/// The parameters of a method, by name, for the first `n` parameters of an
/// operation. Where two parameters share a name the later one stays. The
/// first flaw, in the order of the list, is the one reported.
pub open spec fn parameters_upto(
    parameters: Seq<ParameterOrRefView>,
    table: Seq<(Seq<char>, ParameterView)>,
    n: nat,
) -> Result<Seq<(Seq<char>, PropertyView)>, FlawView>
    decreases n,
{
    if n == 0 {
        Ok(Seq::empty())
    } else {
        match parameters_upto(parameters, table, (n - 1) as nat) {
            Err(flaw) => Err(flaw),
            Ok(before) => match parameter_entry(parameters[n - 1], table) {
                Err(flaw) => Err(flaw),
                Ok((name, property)) => Ok(upsert(before, name, property)),
            },
        }
    }
}

/// The parameters of a method, by name, for the parameters of an operation.
pub open spec fn parameters_of(
    parameters: Seq<ParameterOrRefView>,
    table: Seq<(Seq<char>, ParameterView)>,
) -> Result<Seq<(Seq<char>, PropertyView)>, FlawView> {
    parameters_upto(parameters, table, parameters.len())
}

/// A flaw among the first parameters is the flaw of the whole list.
pub proof fn lemma_parameters_flaw_stays(
    parameters: Seq<ParameterOrRefView>,
    table: Seq<(Seq<char>, ParameterView)>,
    n: nat,
    m: nat,
)
    requires
        n <= m,
        parameters_upto(parameters, table, n) is Err,
    ensures
        parameters_upto(parameters, table, m) == parameters_upto(parameters, table, n),
    decreases m - n,
{
    if n < m {
        lemma_parameters_flaw_stays(parameters, table, n, (m - 1) as nat);
    }
}

fn schema_items_reference(schema: &Option<Schema>) -> (r: Result<Option<TypeOrReference>, Flaw>)
    ensures
        outcome(r) == parameter_items(schema.deep_view()),
{
    match schema {
        Some(s) => {
            proof {
                lemma_schema_view(*s);
            }
            match &s.items {
                Some(items) => match &items.ref_path {
                    Some(target) => Ok(
                        Some(
                            TypeOrReference::Reference {
                                location: transform_ref_path(target.as_str()),
                            },
                        ),
                    ),
                    None => Err(Flaw::ItemsWithoutReference),
                },
                None => Ok(None),
            }
        },
        None => Ok(None),
    }
}

/// The name and the Discovery parameter for one parameter of an operation.
pub fn parameter_to_property(parameter: &ParameterOrRef, parameters: &OrderedMap<Parameter>) -> (r:
    Result<(String, Property), Flaw>)
    ensures
        outcome(r) == parameter_entry(parameter.deep_view(), parameters.deep_view()),
{
    match parameter {
        ParameterOrRef::Parameter {
            name,
            location,
            description,
            required,
            format,
            param_type,
            schema,
            unique_items,
        } => {
            match schema_items_reference(schema) {
                Ok(items) => Ok(
                    (
                        name.clone(),
                        Property {
                            property_type: clone_text(param_type),
                            description: clone_text(description),
                            format: None,
                            items,
                            the_default: None,
                            required: *required,
                            location: Some(location.clone()),
                        },
                    ),
                ),
                Err(flaw) => Err(flaw),
            }
        },
        ParameterOrRef::Ref { ref_path } => {
            let name = last_segment_of(ref_path.as_str(), '/');
            match parameters.get(name.as_str()) {
                Some(shared) => Ok(
                    (
                        name,
                        Property {
                            property_type: clone_text(&shared.param_type),
                            description: clone_text(&shared.description),
                            format: None,
                            items: None,
                            the_default: None,
                            required: shared.required,
                            location: Some(shared.location.clone()),
                        },
                    ),
                ),
                None => Err(Flaw::UnresolvedParameter { reference: ref_path.clone() }),
            }
        },
    }
}

/// The parameters of a method for the parameters of an operation.
/// `parameters` holds the parameters of the document, which an operation may
/// point to.
pub fn openapi_param_to_google_param(
    params: &Vec<&ParameterOrRef>,
    parameters: &OrderedMap<Parameter>,
) -> (r: Result<GoogleParams, Flaw>)
    ensures
        outcome(r) == parameters_of(params.deep_view(), parameters.deep_view()),
{
    let mut result: OrderedMap<Property> = OrderedMap::new();
    let mut i: usize = 0;
    while i < params.len()
        invariant
            i <= params@.len(),
            parameters_upto(params.deep_view(), parameters.deep_view(), i as nat) == Ok::<
                Seq<(Seq<char>, PropertyView)>,
                FlawView,
            >(result.deep_view()),
        decreases params@.len() - i,
    {
        match parameter_to_property(params[i], parameters) {
            Ok((name, property)) => {
                result.insert(name, property);
            },
            Err(flaw) => {
                proof {
                    lemma_parameters_flaw_stays(
                        params.deep_view(),
                        parameters.deep_view(),
                        (i + 1) as nat,
                        params@.len(),
                    );
                }
                return Err(flaw);
            },
        }
        i = i + 1;
    }
    Ok(GoogleParams(result))
}

/// Whether an entry of the responses of an operation counts as a successful
/// response: its status code starts with `2` and it has a schema.
pub open spec fn is_success(entry: (Seq<char>, OpenApiResponseView)) -> bool {
    starts_with(entry.0, '2') && entry.1.schema is Some
}

/// The first successful response at or after the index `i`.
pub open spec fn success_from(responses: Seq<(Seq<char>, OpenApiResponseView)>, i: int) -> Option<
    OpenApiResponseView,
>
    decreases responses.len() - i,
{
    if i < 0 || i >= responses.len() {
        None
    } else if is_success(responses[i]) {
        Some(responses[i].1)
    } else {
        success_from(responses, i + 1)
    }
}

/// The successful response of an operation: the first one, in the order of
/// the status codes, that counts as successful.
pub open spec fn successful_response(
    responses: Seq<(Seq<char>, OpenApiResponseView)>,
) -> Option<OpenApiResponseView> {
    success_from(responses, 0)
}

/// The Discovery property for a field of an object that is spelled out in a
/// response: its type and its description.
pub open spec fn object_property(schema: SchemaView) -> PropertyView {
    PropertyView {
        property_type: schema.schema_type,
        description: schema.description,
        format: None,
        items: None,
        the_default: None,
        required: None,
        location: None,
    }
}

/// The Discovery properties for the fields of an object that is spelled out
/// in a response.
pub open spec fn object_properties(properties: Seq<(Seq<char>, SchemaView)>) -> Seq<
    (Seq<char>, PropertyView),
> {
    Seq::new(properties.len(), |i: int| (properties[i].0, object_property(properties[i].1)))
}

/// The Discovery response for an OpenAPI response. Its schema decides: a
/// pointer gives a reference; else items give a list; else properties give an
/// object; and a schema with none of the three is a flaw, as is a response
/// without schema.
pub open spec fn response_of(response: OpenApiResponseView) -> Result<ResponseView, FlawView> {
    match response.schema {
        None => Err(FlawView::UnknownResponse),
        Some(schema) => match schema.ref_path {
            Some(target) => Ok(ResponseView::Reference { location: discovery_ref(target) }),
            None => match schema.items {
                Some(items) => match schema.schema_type {
                    None => Err(FlawView::ResponseWithoutType),
                    Some(response_type) => match items.ref_path {
                        None => Err(FlawView::ItemsWithoutReference),
                        Some(target) => Ok(
                            ResponseView::ResponseList {
                                id: None,
                                resource: None,
                                response_type,
                                items: ReferenceView { location: discovery_ref(target) },
                            },
                        ),
                    },
                },
                None => match schema.properties {
                    Some(properties) => match schema.schema_type {
                        None => Err(FlawView::ResponseWithoutType),
                        Some(response_type) => Ok(
                            ResponseView::ResponseSingle {
                                id: "NOTSET"@,
                                resource: "NOTSET"@,
                                response_type,
                                properties: object_properties(properties),
                            },
                        ),
                    },
                    None => Err(FlawView::UnknownResponse),
                },
            },
        },
    }
}

/// The response of a method for the responses of an operation: none where no
/// response counts as successful.
pub open spec fn method_response(responses: Seq<(Seq<char>, OpenApiResponseView)>) -> Result<
    Option<ResponseView>,
    FlawView,
> {
    match successful_response(responses) {
        None => Ok(None),
        Some(response) => match response_of(response) {
            Ok(converted) => Ok(Some(converted)),
            Err(flaw) => Err(flaw),
        },
    }
}

/// The first response of an operation whose status code starts with `2` and
/// which has a schema.
pub fn get_successful_response(responses: &OrderedMap<OpenApiResponse>) -> (r: Option<
    &OpenApiResponse,
>)
    ensures
        r.deep_view() == successful_response(responses.deep_view()),
{
    let mut i: usize = 0;
    while i < responses.len()
        invariant
            i <= responses.deep_view().len(),
            responses.deep_view().len() == responses.entries().len(),
            successful_response(responses.deep_view()) == success_from(
                responses.deep_view(),
                i as int,
            ),
        decreases responses.deep_view().len() - i,
    {
        if starts_with_char(responses.key(i).as_str(), '2') && responses.value(i).schema.is_some() {
            return Some(responses.value(i));
        }
        i = i + 1;
    }
    None
}

/// The Discovery properties for the fields of an object that is spelled out
/// in a response.
pub fn openapi_schema_to_google_schema(schemas: &OrderedMap<Schema>) -> (r: OrderedMap<Property>)
    ensures
        r.deep_view() == object_properties(schemas.deep_view()),
{
    let mut result: OrderedMap<Property> = OrderedMap::new();
    let n = schemas.len();
    let mut i: usize = 0;
    while i < n
        invariant
            i <= n,
            n == schemas.deep_view().len(),
            n == schemas.entries().len(),
            sorted(schemas.deep_view()),
            result.deep_view() == object_properties(schemas.deep_view()).take(i as int),
        decreases n - i,
    {
        let schema = schemas.value(i);
        let property = Property {
            property_type: clone_text(&schema.schema_type),
            description: clone_text(&schema.description),
            format: None,
            items: None,
            the_default: None,
            required: None,
            location: None,
        };
        proof {
            lemma_upsert_greatest(result.deep_view(), schemas.deep_view()[i as int].0, property@);
            assert(object_properties(schemas.deep_view()).take(i + 1) =~= object_properties(
                schemas.deep_view(),
            ).take(i as int).push((schemas.deep_view()[i as int].0, property@)));
        }
        result.insert(schemas.key(i).clone(), property);
        i = i + 1;
    }
    assert(object_properties(schemas.deep_view()).take(n as int) =~= object_properties(
        schemas.deep_view(),
    ));
    result
}

/// The Discovery response for an OpenAPI response.
pub fn openapi_response_to_google_response(response: &OpenApiResponse) -> (r: Result<
    Response,
    Flaw,
>)
    ensures
        outcome(r) == response_of(response@),
{
    match &response.schema {
        None => Err(Flaw::UnknownResponse),
        Some(schema) => {
            proof {
                lemma_schema_view(*schema);
            }
            match &schema.ref_path {
                Some(target) => Ok(
                    Response::Reference { location: transform_ref_path(target.as_str()) },
                ),
                None => match &schema.items {
                    Some(items) => match &schema.schema_type {
                        None => Err(Flaw::ResponseWithoutType),
                        Some(response_type) => match &items.ref_path {
                            None => Err(Flaw::ItemsWithoutReference),
                            Some(target) => Ok(
                                Response::ResponseList {
                                    id: None,
                                    resource: None,
                                    response_type: response_type.clone(),
                                    items: Reference {
                                        location: transform_ref_path(target.as_str()),
                                    },
                                },
                            ),
                        },
                    },
                    None => match &schema.properties {
                        Some(properties) => match &schema.schema_type {
                            None => Err(Flaw::ResponseWithoutType),
                            Some(response_type) => Ok(
                                Response::ResponseSingle {
                                    id: String::from_str("NOTSET"),
                                    resource: String::from_str("NOTSET"),
                                    response_type: response_type.clone(),
                                    properties: openapi_schema_to_google_schema(properties),
                                },
                            ),
                        },
                        None => Err(Flaw::UnknownResponse),
                    },
                },
            }
        },
    }
}

/// Whether a parameter carries the request body of its operation: it is
/// spelled out in place, its location is `body`, and its schema points to a
/// definition.
pub open spec fn is_request(parameter: ParameterOrRefView) -> bool {
    match parameter {
        ParameterOrRefView::Parameter {
            name,
            location,
            description,
            required,
            format,
            param_type,
            schema,
            unique_items,
        } => location == "body"@ && match schema {
            Some(s) => s.ref_path is Some,
            None => false,
        },
        ParameterOrRefView::Ref { ref_path } => false,
    }
}

/// The definition that the schema of a parameter points to. Meaningful only
/// for a parameter that carries a request body.
pub open spec fn request_target(parameter: ParameterOrRefView) -> Seq<char> {
    match parameter {
        ParameterOrRefView::Parameter {
            name,
            location,
            description,
            required,
            format,
            param_type,
            schema,
            unique_items,
        } => schema->0.ref_path->0,
        ParameterOrRefView::Ref { ref_path } => ref_path,
    }
}

/// The index of the first parameter at or after `i` that carries a request
/// body, or the length of the list where there is none.
pub open spec fn request_index_from(parameters: Seq<ParameterOrRefView>, i: int) -> int
    decreases parameters.len() - i,
{
    if i < 0 || i >= parameters.len() {
        parameters.len() as int
    } else if is_request(parameters[i]) {
        i
    } else {
        request_index_from(parameters, i + 1)
    }
}

/// The index of the first parameter that carries a request body, or the
/// length of the list where there is none.
pub open spec fn request_index(parameters: Seq<ParameterOrRefView>) -> int {
    request_index_from(parameters, 0)
}

/// The request of a method: the pointer of the first parameter that carries
/// a request body, rewritten for Discovery.
pub open spec fn method_request(parameters: Seq<ParameterOrRefView>) -> Option<MethodRequestView> {
    if request_index(parameters) < parameters.len() {
        Some(
            MethodRequestView {
                location: discovery_ref(request_target(parameters[request_index(parameters)])),
            },
        )
    } else {
        None
    }
}

/// The parameters of an operation without the first one that carries a
/// request body.
pub open spec fn ordinary_parameters(parameters: Seq<ParameterOrRefView>) -> Seq<
    ParameterOrRefView,
> {
    if request_index(parameters) < parameters.len() {
        parameters.remove(request_index(parameters))
    } else {
        parameters
    }
}

/// The verb of a method: `REPORT` where the bare name of the operation is
/// `report`, else the verb under which the operation stands.
pub open spec fn method_verb(id: Seq<char>, verb: Seq<char>) -> Seq<char> {
    if operation_name(id) == "report"@ {
        "REPORT"@
    } else {
        verb
    }
}

/// The parameters of a method: none where the operation has no list of
/// parameters, else what the list gives without the request body.
pub open spec fn method_parameters(
    parameters: Option<Seq<ParameterOrRefView>>,
    table: Seq<(Seq<char>, ParameterView)>,
) -> Result<Option<Seq<(Seq<char>, PropertyView)>>, FlawView> {
    match parameters {
        None => Ok(None),
        Some(list) => match parameters_of(ordinary_parameters(list), table) {
            Ok(converted) => Ok(Some(converted)),
            Err(flaw) => Err(flaw),
        },
    }
}

/// The method for the operation that stands under `verb` at `path`, where
/// `path` is already written as Discovery writes it. The flaws are looked for
/// in this order: the id, the description, the parameters, the response.
pub open spec fn method_of(
    path: Seq<char>,
    verb: Seq<char>,
    operation: OperationView,
    table: Seq<(Seq<char>, ParameterView)>,
) -> Result<MethodView, FlawView> {
    match operation.operation_id {
        None => Err(FlawView::MissingOperationId),
        Some(id) => match operation.description {
            None => Err(FlawView::MissingDescription),
            Some(description) => match method_parameters(operation.parameters, table) {
                Err(flaw) => Err(flaw),
                Ok(parameters) => match method_response(operation.responses) {
                    Err(flaw) => Err(flaw),
                    Ok(response) => Ok(
                        MethodView {
                            id,
                            path,
                            http_method: method_verb(id, verb),
                            description,
                            parameters,
                            request: match operation.parameters {
                                Some(list) => method_request(list),
                                None => None,
                            },
                            response,
                            slt: None,
                        },
                    ),
                },
            },
        },
    }
}

fn parameter_is_request(parameter: &ParameterOrRef) -> (r: bool)
    ensures
        r == is_request(parameter.deep_view()),
{
    match parameter {
        ParameterOrRef::Parameter {
            name,
            location,
            description,
            required,
            format,
            param_type,
            schema,
            unique_items,
        } => text_eq(location.as_str(), "body") && match schema {
            Some(s) => s.ref_path.is_some(),
            None => false,
        },
        ParameterOrRef::Ref { ref_path } => false,
    }
}

fn find_request(parameters: &Vec<ParameterOrRef>) -> (r: usize)
    ensures
        r == request_index(parameters.deep_view()),
        r <= parameters@.len(),
{
    let mut i: usize = 0;
    while i < parameters.len()
        invariant
            i <= parameters@.len(),
            request_index(parameters.deep_view()) == request_index_from(
                parameters.deep_view(),
                i as int,
            ),
        decreases parameters@.len() - i,
    {
        if parameter_is_request(&parameters[i]) {
            return i;
        }
        i = i + 1;
    }
    i
}

fn request_of(parameter: &ParameterOrRef) -> (r: MethodRequest)
    requires
        is_request(parameter.deep_view()),
    ensures
        r@.location == discovery_ref(request_target(parameter.deep_view())),
{
    match parameter {
        ParameterOrRef::Parameter {
            name,
            location,
            description,
            required,
            format,
            param_type,
            schema,
            unique_items,
        } => match schema {
            Some(s) => match &s.ref_path {
                Some(target) => MethodRequest { location: transform_ref_path(target.as_str()) },
                None => MethodRequest { location: String::new() },
            },
            None => MethodRequest { location: String::new() },
        },
        ParameterOrRef::Ref { ref_path } => MethodRequest { location: String::new() },
    }
}

fn all_but(parameters: &Vec<ParameterOrRef>, skip: usize) -> (r: Vec<&ParameterOrRef>)
    ensures
        skip < parameters@.len() ==> r.deep_view() == parameters.deep_view().remove(skip as int),
        skip >= parameters@.len() ==> r.deep_view() == parameters.deep_view(),
{
    let mut rest: Vec<&ParameterOrRef> = Vec::new();
    let mut i: usize = 0;
    while i < parameters.len()
        invariant
            i <= parameters@.len(),
            rest@.len() == if i <= skip {
                i as int
            } else {
                i - 1
            },
            forall|j: int|
                0 <= j < rest@.len() ==> *(#[trigger] rest@[j]) == parameters@[if j < skip {
                    j
                } else {
                    j + 1
                }],
        decreases parameters@.len() - i,
    {
        if i != skip {
            rest.push(&parameters[i]);
        }
        i = i + 1;
    }
    proof {
        if skip < parameters@.len() {
            assert(rest.deep_view() =~= parameters.deep_view().remove(skip as int));
        } else {
            assert(rest.deep_view() =~= parameters.deep_view());
        }
    }
    rest
}

/// The method for the operation that stands under the verb `method_name` at
/// `path`, where `path` is already written as Discovery writes it.
/// `parameters` holds the parameters of the document.
pub fn to_google_method(
    path: String,
    operation: &Operation,
    method_name: &str,
    parameters: &OrderedMap<Parameter>,
) -> (r: Result<Method, Flaw>)
    ensures
        outcome(r) == method_of(path@, method_name@, operation@, parameters.deep_view()),
{
    let id = match &operation.operation_id {
        Some(id) => id.clone(),
        None => {
            return Err(Flaw::MissingOperationId);
        },
    };
    let description = match &operation.description {
        Some(description) => description.clone(),
        None => {
            return Err(Flaw::MissingDescription);
        },
    };
    let mut request: Option<MethodRequest> = None;
    let method_parameters = match &operation.parameters {
        None => None,
        Some(list) => {
            let at = find_request(list);
            if at < list.len() {
                proof {
                    lemma_request_index(list.deep_view(), 0);
                }
                request = Some(request_of(&list[at]));
            }
            let ordinary = all_but(list, at);
            match openapi_param_to_google_param(&ordinary, parameters) {
                Ok(converted) => Some(converted),
                Err(flaw) => {
                    return Err(flaw);
                },
            }
        },
    };
    let response = match get_successful_response(&operation.responses) {
        None => None,
        Some(found) => match openapi_response_to_google_response(found) {
            Ok(converted) => Some(converted),
            Err(flaw) => {
                return Err(flaw);
            },
        },
    };
    let name = last_segment_of(id.as_str(), '.');
    let http_method = if text_eq(name.as_str(), "report") {
        String::from_str("REPORT")
    } else {
        String::from_str(method_name)
    };
    Ok(
        Method {
            id,
            path,
            http_method,
            description,
            parameters: method_parameters,
            request,
            response,
            slt: None,
        },
    )
}

/// What `request_index_from` finds carries a request body.
pub proof fn lemma_request_index(parameters: Seq<ParameterOrRefView>, i: int)
    requires
        0 <= i <= parameters.len(),
    ensures
        i <= request_index_from(parameters, i) <= parameters.len(),
        request_index_from(parameters, i) < parameters.len() ==> is_request(
            parameters[request_index_from(parameters, i)],
        ),
        forall|j: int| i <= j < request_index_from(parameters, i) ==> !is_request(parameters[j]),
    decreases parameters.len() - i,
{
    if i < parameters.len() && !is_request(parameters[i]) {
        lemma_request_index(parameters, i + 1);
    }
}

/// An operation with the path it stands at, as OpenAPI writes it, and the
/// verb it stands under.
pub type Placed = (Seq<char>, Seq<char>, OperationView);

/// The operations of each group, in the order in which the document holds
/// them, with one more operation added to the group that its id names. An
/// operation without id cannot be placed.
pub open spec fn add_to_group(
    groups: Seq<(Seq<char>, Seq<Placed>)>,
    path: Seq<char>,
    verb: Seq<char>,
    operation: Option<OperationView>,
) -> Result<Seq<(Seq<char>, Seq<Placed>)>, ConversionErrorView> {
    match operation {
        None => Ok(groups),
        Some(op) => match op.operation_id {
            None => Err(
                ConversionErrorView::Operation { path, verb, flaw: FlawView::MissingOperationId },
            ),
            Some(id) => Ok(
                upsert(
                    groups,
                    operation_group(id),
                    match lookup(groups, operation_group(id)) {
                        Some(members) => members.push((path, verb, op)),
                        None => seq![(path, verb, op)],
                    },
                ),
            ),
        },
    }
}

/// The result of a step that follows an earlier step: the earlier failure
/// where there was one.
pub open spec fn and_then<T, E>(before: Result<T, E>, step: spec_fn(T) -> Result<T, E>) -> Result<
    T,
    E,
> {
    match before {
        Ok(value) => step(value),
        Err(error) => Err(error),
    }
}

/// The groups with the operations of one path added, verb by verb: GET, POST,
/// PUT, PATCH, DELETE, OPTIONS, HEAD.
pub open spec fn group_path(
    groups: Seq<(Seq<char>, Seq<Placed>)>,
    path: Seq<char>,
    operations: OperationsView,
) -> Result<Seq<(Seq<char>, Seq<Placed>)>, ConversionErrorView> {
    let r = add_to_group(groups, path, "GET"@, operations.get);
    let r = and_then(r, |g| add_to_group(g, path, "POST"@, operations.post));
    let r = and_then(r, |g| add_to_group(g, path, "PUT"@, operations.put));
    let r = and_then(r, |g| add_to_group(g, path, "PATCH"@, operations.patch));
    let r = and_then(r, |g| add_to_group(g, path, "DELETE"@, operations.delete));
    let r = and_then(r, |g| add_to_group(g, path, "OPTIONS"@, operations.options));
    and_then(r, |g| add_to_group(g, path, "HEAD"@, operations.head))
}

/// The groups of the operations of the first `n` paths.
pub open spec fn groups_upto(paths: Seq<(Seq<char>, OperationsView)>, n: nat) -> Result<
    Seq<(Seq<char>, Seq<Placed>)>,
    ConversionErrorView,
>
    decreases n,
{
    if n == 0 {
        Ok(Seq::empty())
    } else {
        match groups_upto(paths, (n - 1) as nat) {
            Err(error) => Err(error),
            Ok(groups) => group_path(groups, paths[n - 1].0, paths[n - 1].1),
        }
    }
}

/// The operations of a document, grouped by what stands before the first `.`
/// of their ids.
pub open spec fn groups_of(paths: Seq<(Seq<char>, OperationsView)>) -> Result<
    Seq<(Seq<char>, Seq<Placed>)>,
    ConversionErrorView,
> {
    groups_upto(paths, paths.len())
}

/// A failure among the first paths is the failure of the whole document.
pub proof fn lemma_groups_failure_stays(paths: Seq<(Seq<char>, OperationsView)>, n: nat, m: nat)
    requires
        n <= m,
        groups_upto(paths, n) is Err,
    ensures
        groups_upto(paths, m) == groups_upto(paths, n),
    decreases m - n,
{
    if n < m {
        lemma_groups_failure_stays(paths, n, (m - 1) as nat);
    }
}

/// The resource for the first `n` operations of a group: each becomes a
/// method under its bare name, and where two share a name the later one
/// stays. The path of a method is the path of its operation without the
/// leading `/`; a path that has none stays as it is.
pub open spec fn resource_upto(
    operations: Seq<Placed>,
    table: Seq<(Seq<char>, ParameterView)>,
    n: nat,
) -> Result<ResourceView, ConversionErrorView>
    decreases n,
{
    if n == 0 {
        Ok(ResourceView { methods: Seq::empty() })
    } else {
        match resource_upto(operations, table, (n - 1) as nat) {
            Err(error) => Err(error),
            Ok(resource) => {
                let (path, verb, operation) = operations[n - 1];
                match method_of(without_leading_slash(path), verb, operation, table) {
                    Err(flaw) => Err(ConversionErrorView::Operation { path, verb, flaw }),
                    Ok(method) => Ok(
                        ResourceView {
                            methods: upsert(resource.methods, operation_name(method.id), method),
                        },
                    ),
                }
            },
        }
    }
}

/// The resource for the operations of a group.
pub open spec fn resource_of(
    operations: Seq<Placed>,
    table: Seq<(Seq<char>, ParameterView)>,
) -> Result<ResourceView, ConversionErrorView> {
    resource_upto(operations, table, operations.len())
}

/// A failure among the first operations is the failure of the whole group.
pub proof fn lemma_resource_failure_stays(
    operations: Seq<Placed>,
    table: Seq<(Seq<char>, ParameterView)>,
    n: nat,
    m: nat,
)
    requires
        n <= m,
        resource_upto(operations, table, n) is Err,
    ensures
        resource_upto(operations, table, m) == resource_upto(operations, table, n),
    decreases m - n,
{
    if n < m {
        lemma_resource_failure_stays(operations, table, n, (m - 1) as nat);
    }
}

/// The resources for the first `n` groups, each under the name of its group.
pub open spec fn resources_upto(
    groups: Seq<(Seq<char>, Seq<Placed>)>,
    table: Seq<(Seq<char>, ParameterView)>,
    n: nat,
) -> Result<Seq<(Seq<char>, ResourceView)>, ConversionErrorView>
    decreases n,
{
    if n == 0 {
        Ok(Seq::empty())
    } else {
        match resources_upto(groups, table, (n - 1) as nat) {
            Err(error) => Err(error),
            Ok(resources) => match resource_of(groups[n - 1].1, table) {
                Err(error) => Err(error),
                Ok(resource) => Ok(resources.push((groups[n - 1].0, resource))),
            },
        }
    }
}

/// A failure among the first groups is the failure of all of them.
pub proof fn lemma_resources_failure_stays(
    groups: Seq<(Seq<char>, Seq<Placed>)>,
    table: Seq<(Seq<char>, ParameterView)>,
    n: nat,
    m: nat,
)
    requires
        n <= m,
        resources_upto(groups, table, n) is Err,
    ensures
        resources_upto(groups, table, m) == resources_upto(groups, table, n),
    decreases m - n,
{
    if n < m {
        lemma_resources_failure_stays(groups, table, n, (m - 1) as nat);
    }
}

/// The resources of a Discovery document for the paths of an OpenAPI
/// document. An operation without id is reported first, in the order of the
/// document; any other flaw is reported group by group.
pub open spec fn resources_of(
    paths: Seq<(Seq<char>, OperationsView)>,
    table: Seq<(Seq<char>, ParameterView)>,
) -> Result<Seq<(Seq<char>, ResourceView)>, ConversionErrorView> {
    match groups_of(paths) {
        Err(error) => Err(error),
        Ok(groups) => resources_upto(groups, table, groups.len()),
    }
}

/// The resource for the operations of one group, each given with the path it
/// stands at and the verb it stands under.
pub fn to_google_resource(
    path_operations: &Vec<(String, &'static str, &Operation)>,
    parameters: &OrderedMap<Parameter>,
) -> (r: Result<Resource, ConversionError>)
    ensures
        outcome(r) == resource_of(path_operations.deep_view(), parameters.deep_view()),
{
    let mut methods: OrderedMap<Method> = OrderedMap::new();
    let mut i: usize = 0;
    while i < path_operations.len()
        invariant
            i <= path_operations@.len(),
            resource_upto(path_operations.deep_view(), parameters.deep_view(), i as nat) == Ok::<
                ResourceView,
                ConversionErrorView,
            >(ResourceView { methods: methods.deep_view() }),
        decreases path_operations@.len() - i,
    {
        let path = &path_operations[i].0;
        let verb = path_operations[i].1;
        let operation = path_operations[i].2;
        let method_path = strip_leading_slash(path.as_str());
        match to_google_method(method_path, operation, verb, parameters) {
            Ok(method) => {
                let name = last_segment_of(method.id.as_str(), '.');
                methods.insert(name, method);
            },
            Err(flaw) => {
                proof {
                    lemma_resource_failure_stays(
                        path_operations.deep_view(),
                        parameters.deep_view(),
                        (i + 1) as nat,
                        path_operations@.len(),
                    );
                }
                return Err(
                    ConversionError::Operation {
                        path: path.clone(),
                        verb: String::from_str(verb),
                        flaw,
                    },
                );
            },
        }
        i = i + 1;
    }
    Ok(Resource { methods })
}

fn group_operation<'a>(
    groups: &mut OrderedMap<Vec<(String, &'static str, &'a Operation)>>,
    path: &str,
    verb: &'static str,
    operation: &'a Option<Operation>,
) -> (r: Result<(), ConversionError>)
    ensures
        match r {
            Ok(_) => add_to_group(old(groups).deep_view(), path@, verb@, operation.deep_view())
                == Ok::<Seq<(Seq<char>, Seq<Placed>)>, ConversionErrorView>(
                final(groups).deep_view(),
            ),
            Err(error) => add_to_group(
                old(groups).deep_view(),
                path@,
                verb@,
                operation.deep_view(),
            ) == Err::<Seq<(Seq<char>, Seq<Placed>)>, ConversionErrorView>(error@),
        },
{
    match operation {
        None => Ok(()),
        Some(op) => match &op.operation_id {
            None => Err(
                ConversionError::Operation {
                    path: String::from_str(path),
                    verb: String::from_str(verb),
                    flaw: Flaw::MissingOperationId,
                },
            ),
            Some(id) => {
                let group = first_segment_of(id.as_str(), '.');
                let ghost before = groups.deep_view();
                let size = groups.len();
                let mut members = match groups.remove(group.as_str()) {
                    Some(members) => members,
                    None => Vec::new(),
                };
                let ghost taken = members.deep_view();
                members.push((String::from_str(path), verb, op));
                proof {
                    lemma_upsert_without(before, group@, members.deep_view());
                    match lookup(before, group@) {
                        Some(m) => {
                            assert(members.deep_view() =~= m.push((path@, verb@, op@)));
                        },
                        None => {
                            assert(members.deep_view() =~= seq![(path@, verb@, op@)]);
                        },
                    }
                }
                groups.insert(group, members);
                Ok(())
            },
        },
    }
}

fn group_path_operations<'a>(
    groups: &mut OrderedMap<Vec<(String, &'static str, &'a Operation)>>,
    path: &str,
    operations: &'a Operations,
) -> (r: Result<(), ConversionError>)
    ensures
        match r {
            Ok(_) => group_path(old(groups).deep_view(), path@, operations@) == Ok::<
                Seq<(Seq<char>, Seq<Placed>)>,
                ConversionErrorView,
            >(final(groups).deep_view()),
            Err(error) => group_path(old(groups).deep_view(), path@, operations@) == Err::<
                Seq<(Seq<char>, Seq<Placed>)>,
                ConversionErrorView,
            >(error@),
        },
{
    match group_operation(groups, path, "GET", &operations.get) {
        Err(error) => {
            return Err(error);
        },
        Ok(_) => {},
    }
    match group_operation(groups, path, "POST", &operations.post) {
        Err(error) => {
            return Err(error);
        },
        Ok(_) => {},
    }
    match group_operation(groups, path, "PUT", &operations.put) {
        Err(error) => {
            return Err(error);
        },
        Ok(_) => {},
    }
    match group_operation(groups, path, "PATCH", &operations.patch) {
        Err(error) => {
            return Err(error);
        },
        Ok(_) => {},
    }
    match group_operation(groups, path, "DELETE", &operations.delete) {
        Err(error) => {
            return Err(error);
        },
        Ok(_) => {},
    }
    match group_operation(groups, path, "OPTIONS", &operations.options) {
        Err(error) => {
            return Err(error);
        },
        Ok(_) => {},
    }
    group_operation(groups, path, "HEAD", &operations.head)
}

/// The resources of a Discovery document for the paths of an OpenAPI
/// document. `parameters` holds the parameters of the document.
pub fn openapi_paths_to_google_resources(
    paths: &OrderedMap<Operations>,
    parameters: &OrderedMap<Parameter>,
) -> (r: Result<GoogleResources, ConversionError>)
    ensures
        outcome(r) == resources_of(paths.deep_view(), parameters.deep_view()),
{
    let mut groups: OrderedMap<Vec<(String, &'static str, &Operation)>> = OrderedMap::new();
    let count = paths.len();
    let mut i: usize = 0;
    while i < count
        invariant
            i <= count,
            count == paths.deep_view().len(),
            count == paths.entries().len(),
            groups_upto(paths.deep_view(), i as nat) == Ok::<
                Seq<(Seq<char>, Seq<Placed>)>,
                ConversionErrorView,
            >(groups.deep_view()),
        decreases count - i,
    {
        match group_path_operations(&mut groups, paths.key(i).as_str(), paths.value(i)) {
            Ok(_) => {},
            Err(error) => {
                proof {
                    lemma_groups_failure_stays(paths.deep_view(), (i + 1) as nat, count as nat);
                }
                return Err(error);
            },
        }
        i = i + 1;
    }
    let mut resources: OrderedMap<Resource> = OrderedMap::new();
    let size = groups.len();
    let mut g: usize = 0;
    while g < size
        invariant
            g <= size,
            size == groups.deep_view().len(),
            size == groups.entries().len(),
            sorted(groups.deep_view()),
            groups_of(paths.deep_view()) == Ok::<
                Seq<(Seq<char>, Seq<Placed>)>,
                ConversionErrorView,
            >(groups.deep_view()),
            resources_upto(groups.deep_view(), parameters.deep_view(), g as nat) == Ok::<
                Seq<(Seq<char>, ResourceView)>,
                ConversionErrorView,
            >(resources.deep_view()),
            resources.deep_view().len() == g,
            forall|j: int|
                0 <= j < g ==> (#[trigger] resources.deep_view()[j]).0 == groups.deep_view()[j].0,
        decreases size - g,
    {
        match to_google_resource(groups.value(g), parameters) {
            Ok(resource) => {
                proof {
                    lemma_upsert_greatest(
                        resources.deep_view(),
                        groups.deep_view()[g as int].0,
                        resource@,
                    );
                }
                resources.insert(groups.key(g).clone(), resource);
            },
            Err(error) => {
                proof {
                    lemma_resources_failure_stays(
                        groups.deep_view(),
                        parameters.deep_view(),
                        (g + 1) as nat,
                        size as nat,
                    );
                }
                return Err(error);
            },
        }
        g = g + 1;
    }
    Ok(GoogleResources(resources))
}

/// Whether a property of a definition is required: whether the list of the
/// required properties names it.
pub open spec fn is_required(name: Seq<char>, required: Option<Seq<Seq<char>>>) -> bool {
    match required {
        Some(names) => names.contains(name),
        None => false,
    }
}

/// The Discovery property for a property of a definition. A list whose items
/// do not point to a definition has none.
pub open spec fn definition_property(
    name: Seq<char>,
    schema: SchemaView,
    required: Option<Seq<Seq<char>>>,
) -> Option<PropertyView> {
    match schema.items {
        Some(items) => match items.ref_path {
            Some(target) => Some(
                PropertyView {
                    property_type: schema.schema_type,
                    description: schema.description,
                    format: None,
                    items: Some(TypeOrReferenceView::Reference { location: discovery_ref(target) }),
                    the_default: None,
                    required: Some(is_required(name, required)),
                    location: None,
                },
            ),
            None => None,
        },
        None => Some(
            PropertyView {
                property_type: schema.schema_type,
                description: schema.description,
                format: None,
                items: None,
                the_default: None,
                required: Some(is_required(name, required)),
                location: None,
            },
        ),
    }
}

/// The Discovery properties for the first `n` properties of a definition, or
/// nothing where one of them has none.
pub open spec fn definition_properties_upto(
    properties: Seq<(Seq<char>, SchemaView)>,
    required: Option<Seq<Seq<char>>>,
    n: nat,
) -> Option<Seq<(Seq<char>, PropertyView)>>
    decreases n,
{
    if n == 0 {
        Some(Seq::empty())
    } else {
        match definition_properties_upto(properties, required, (n - 1) as nat) {
            None => None,
            Some(before) => match definition_property(
                properties[n - 1].0,
                properties[n - 1].1,
                required,
            ) {
                None => None,
                Some(property) => Some(before.push((properties[n - 1].0, property))),
            },
        }
    }
}

/// The Discovery properties for the properties of a definition.
pub open spec fn definition_properties(
    properties: Seq<(Seq<char>, SchemaView)>,
    required: Option<Seq<Seq<char>>>,
) -> Option<Seq<(Seq<char>, PropertyView)>> {
    definition_properties_upto(properties, required, properties.len())
}

/// Where the first properties give nothing, all of them give nothing.
pub proof fn lemma_definition_properties_none_stays(
    properties: Seq<(Seq<char>, SchemaView)>,
    required: Option<Seq<Seq<char>>>,
    n: nat,
    m: nat,
)
    requires
        n <= m,
        definition_properties_upto(properties, required, n) is None,
    ensures
        definition_properties_upto(properties, required, m) is None,
    decreases m - n,
{
    if n < m {
        lemma_definition_properties_none_stays(properties, required, n, (m - 1) as nat);
    }
}

/// The Discovery schema for the definition `name`, which belongs to the
/// resource `resource`. The definition needs a type and properties.
pub open spec fn definition_schema(
    name: Seq<char>,
    definition: SchemaView,
    resource: Seq<char>,
) -> Result<DiscoverySchemaView, ConversionErrorView> {
    match definition.schema_type {
        None => Err(ConversionErrorView::DefinitionWithoutType { definition: name }),
        Some(schema_type) => match definition.properties {
            None => Err(ConversionErrorView::DefinitionWithoutProperties { definition: name }),
            Some(properties) => match definition_properties(properties, definition.required) {
                None => Err(
                    ConversionErrorView::DefinitionItemsWithoutReference { definition: name },
                ),
                Some(converted) => Ok(
                    DiscoverySchemaView::ResponseSingle {
                        id: "schemas/"@ + name,
                        resource,
                        schema_type,
                        properties: converted,
                    },
                ),
            },
        },
    }
}

/// The Discovery schemas for the first `n` definitions, each under the name
/// of its definition.
pub open spec fn schemas_upto(definitions: Seq<(Seq<char>, SchemaView)>, n: nat) -> Result<
    Seq<(Seq<char>, DiscoverySchemaView)>,
    ConversionErrorView,
>
    decreases n,
{
    if n == 0 {
        Ok(Seq::empty())
    } else {
        match schemas_upto(definitions, (n - 1) as nat) {
            Err(error) => Err(error),
            Ok(before) => match definition_schema(
                definitions[n - 1].0,
                definitions[n - 1].1,
                resource_name(definitions[n - 1].0),
            ) {
                Err(error) => Err(error),
                Ok(schema) => Ok(before.push((definitions[n - 1].0, schema))),
            },
        }
    }
}

/// The Discovery schemas for the definitions of an OpenAPI document.
pub open spec fn schemas_of(definitions: Seq<(Seq<char>, SchemaView)>) -> Result<
    Seq<(Seq<char>, DiscoverySchemaView)>,
    ConversionErrorView,
> {
    schemas_upto(definitions, definitions.len())
}

/// A failure among the first definitions is the failure of all of them.
pub proof fn lemma_schemas_failure_stays(
    definitions: Seq<(Seq<char>, SchemaView)>,
    n: nat,
    m: nat,
)
    requires
        n <= m,
        schemas_upto(definitions, n) is Err,
    ensures
        schemas_upto(definitions, m) == schemas_upto(definitions, n),
    decreases m - n,
{
    if n < m {
        lemma_schemas_failure_stays(definitions, n, (m - 1) as nat);
    }
}

/// The Discovery properties for the properties of a definition, of which
/// `required` names the required ones. There are none where a property is a
/// list whose items do not point to a definition.
pub fn openapi_schemas_to_google_properties(
    schemas: &OrderedMap<Schema>,
    required: &Option<Vec<String>>,
) -> (r: Option<OrderedMap<Property>>)
    ensures
        r.deep_view() == definition_properties(schemas.deep_view(), required.deep_view()),
{
    let mut result: OrderedMap<Property> = OrderedMap::new();
    let n = schemas.len();
    let mut i: usize = 0;
    while i < n
        invariant
            i <= n,
            n == schemas.deep_view().len(),
            n == schemas.entries().len(),
            sorted(schemas.deep_view()),
            definition_properties_upto(schemas.deep_view(), required.deep_view(), i as nat)
                == Some(result.deep_view()),
            result.deep_view().len() == i,
            forall|j: int|
                0 <= j < i ==> (#[trigger] result.deep_view()[j]).0 == schemas.deep_view()[j].0,
        decreases n - i,
    {
        let name = schemas.key(i);
        let schema = schemas.value(i);
        proof {
            lemma_schema_view(*schema);
        }
        let is_required = match required {
            Some(names) => contains_text(names, name.as_str()),
            None => false,
        };
        let items = match &schema.items {
            Some(items) => match &items.ref_path {
                Some(target) => Some(
                    TypeOrReference::Reference { location: transform_ref_path(target.as_str()) },
                ),
                None => {
                    proof {
                        lemma_definition_properties_none_stays(
                            schemas.deep_view(),
                            required.deep_view(),
                            (i + 1) as nat,
                            n as nat,
                        );
                    }
                    return None;
                },
            },
            None => None,
        };
        let property = Property {
            property_type: clone_text(&schema.schema_type),
            description: clone_text(&schema.description),
            format: None,
            items,
            the_default: None,
            required: Some(is_required),
            location: None,
        };
        proof {
            lemma_upsert_greatest(result.deep_view(), name@, property@);
        }
        result.insert(name.clone(), property);
        i = i + 1;
    }
    Some(result)
}

/// The Discovery schema for the definition `name`, which belongs to the
/// resource `resource`.
pub fn definition_to_schema(name: &str, definition: &Schema, resource: String) -> (r: Result<
    DiscoverySchema,
    ConversionError,
>)
    ensures
        outcome(r) == definition_schema(name@, definition@, resource@),
{
    proof {
        lemma_schema_view(*definition);
    }
    let schema_type = match &definition.schema_type {
        Some(schema_type) => schema_type.clone(),
        None => {
            return Err(
                ConversionError::DefinitionWithoutType { definition: String::from_str(name) },
            );
        },
    };
    let properties = match &definition.properties {
        Some(properties) => properties,
        None => {
            return Err(
                ConversionError::DefinitionWithoutProperties { definition: String::from_str(name) },
            );
        },
    };
    match openapi_schemas_to_google_properties(properties, &definition.required) {
        Some(converted) => Ok(
            DiscoverySchema::ResponseSingle {
                id: joined("schemas/", name),
                resource,
                schema_type,
                properties: converted,
            },
        ),
        None => Err(
            ConversionError::DefinitionItemsWithoutReference {
                definition: String::from_str(name),
            },
        ),
    }
}

/// The Discovery schemas for the definitions of an OpenAPI document. Each
/// belongs to the resource that its name gives.
pub fn openapi_definitions_to_google_schemas(definitions: &OrderedMap<Schema>) -> (r: Result<
    GoogleSchemas,
    ConversionError,
>)
    ensures
        outcome(r) == schemas_of(definitions.deep_view()),
{
    let mut schemas: OrderedMap<DiscoverySchema> = OrderedMap::new();
    let n = definitions.len();
    let mut i: usize = 0;
    while i < n
        invariant
            i <= n,
            n == definitions.deep_view().len(),
            n == definitions.entries().len(),
            sorted(definitions.deep_view()),
            schemas_upto(definitions.deep_view(), i as nat) == Ok::<
                Seq<(Seq<char>, DiscoverySchemaView)>,
                ConversionErrorView,
            >(schemas.deep_view()),
            schemas.deep_view().len() == i,
            forall|j: int|
                0 <= j < i ==> (#[trigger] schemas.deep_view()[j]).0
                    == definitions.deep_view()[j].0,
        decreases n - i,
    {
        let name = definitions.key(i);
        let resource = resource_name_of(name.as_str());
        match definition_to_schema(name.as_str(), definitions.value(i), resource) {
            Ok(schema) => {
                proof {
                    lemma_upsert_greatest(schemas.deep_view(), name@, schema@);
                }
                schemas.insert(name.clone(), schema);
            },
            Err(error) => {
                proof {
                    lemma_schemas_failure_stays(definitions.deep_view(), (i + 1) as nat, n as nat);
                }
                return Err(error);
            },
        }
        i = i + 1;
    }
    Ok(GoogleSchemas(schemas))
}

/// The entries of a table of the document that may be absent: none where it
/// is absent.
pub open spec fn table_or_empty<T>(table: Option<Seq<(Seq<char>, T)>>) -> Seq<(Seq<char>, T)> {
    match table {
        Some(entries) => entries,
        None => Seq::empty(),
    }
}

/// The Discovery document with the name `name` for an OpenAPI document.
///
/// The title, the version, the description and the base path must be there.
/// The definitions become the schemas and the paths become the resources; a
/// document without definitions or without parameters of its own is taken to
/// have none. The id is the name, a colon and the version. A missing field is
/// reported first, then what is wrong with a definition, then what is wrong
/// with an operation.
pub open spec fn discovery_with_name(spec: SpecView, name: Seq<char>) -> Result<
    DiscoverySpecView,
    ConversionErrorView,
> {
    match spec.info.title {
        None => Err(ConversionErrorView::MissingField { field: "info.title"@ }),
        Some(title) => match spec.info.version {
            None => Err(ConversionErrorView::MissingField { field: "info.version"@ }),
            Some(version) => match spec.info.description {
                None => Err(ConversionErrorView::MissingField { field: "info.description"@ }),
                Some(description) => match spec.base_path {
                    None => Err(ConversionErrorView::MissingField { field: "basePath"@ }),
                    Some(base_path) => match schemas_of(table_or_empty(spec.definitions)) {
                        Err(error) => Err(error),
                        Ok(schemas) => match resources_of(
                            spec.paths,
                            table_or_empty(spec.parameters),
                        ) {
                            Err(error) => Err(error),
                            Ok(resources) => Ok(
                                DiscoverySpecView {
                                    id: name + ":"@ + version,
                                    name,
                                    version,
                                    title,
                                    description,
                                    documentation_link: spec.info.terms_of_service,
                                    protocol: "rest"@,
                                    base_path,
                                    schemas,
                                    resources,
                                    aliases: None,
                                },
                            ),
                        },
                    },
                },
            },
        },
    }
}

/// The Discovery document for an OpenAPI document. Its name is the title in
/// lower case.
pub open spec fn discovery_of(spec: SpecView) -> Result<DiscoverySpecView, ConversionErrorView> {
    match spec.info.title {
        None => Err(ConversionErrorView::MissingField { field: "info.title"@ }),
        Some(title) => discovery_with_name(spec, lowercase_of(title)),
    }
}

/// Converts an OpenAPI document to a Discovery document with the given name.
pub fn openapi_spec_to_google_named(spec: &Spec, name: String) -> (r: Result<
    DiscoverySpec,
    ConversionError,
>)
    ensures
        outcome(r) == discovery_with_name(spec@, name@),
{
    let title = match &spec.info.title {
        Some(title) => title.clone(),
        None => {
            return Err(ConversionError::MissingField { field: String::from_str("info.title") });
        },
    };
    let version = match &spec.info.version {
        Some(version) => version.clone(),
        None => {
            return Err(ConversionError::MissingField { field: String::from_str("info.version") });
        },
    };
    let description = match &spec.info.description {
        Some(description) => description.clone(),
        None => {
            return Err(
                ConversionError::MissingField { field: String::from_str("info.description") },
            );
        },
    };
    let base_path = match &spec.base_path {
        Some(base_path) => base_path.clone(),
        None => {
            return Err(ConversionError::MissingField { field: String::from_str("basePath") });
        },
    };
    let no_definitions: OrderedMap<Schema> = OrderedMap::new();
    let definitions = match &spec.definitions {
        Some(definitions) => definitions,
        None => &no_definitions,
    };
    let schemas = match openapi_definitions_to_google_schemas(definitions) {
        Ok(schemas) => schemas,
        Err(error) => {
            return Err(error);
        },
    };
    let no_parameters: OrderedMap<Parameter> = OrderedMap::new();
    let parameters = match &spec.parameters {
        Some(parameters) => parameters,
        None => &no_parameters,
    };
    let resources = match openapi_paths_to_google_resources(&spec.paths, parameters) {
        Ok(resources) => resources,
        Err(error) => {
            return Err(error);
        },
    };
    let mut id = name.clone();
    id.append(":");
    id.append(version.as_str());
    Ok(
        DiscoverySpec {
            id,
            name,
            version,
            title,
            description,
            documentation_link: clone_text(&spec.info.terms_of_service),
            protocol: String::from_str("rest"),
            base_path,
            schemas,
            resources,
            aliases: None,
        },
    )
}

/// Converts an OpenAPI document to a Discovery document.
pub fn openapi_spec_to_google(spec: &Spec) -> (r: Result<DiscoverySpec, ConversionError>)
    ensures
        outcome(r) == discovery_of(spec@),
{
    match &spec.info.title {
        Some(title) => {
            let name = to_lowercase(title.as_str());
            openapi_spec_to_google_named(spec, name)
        },
        None => Err(ConversionError::MissingField { field: String::from_str("info.title") }),
    }
}

} // verus!
