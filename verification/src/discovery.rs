//! The Discovery document model: an API as a set of named resources, each with
//! named methods that carry their HTTP verb, path, parameters and response.

use vstd::prelude::*;
use crate::ordered_map::OrderedMap;

verus! {

/// A pointer to a schema that is defined elsewhere in the document,
/// written `schemas/<Name>`.
#[derive(Debug, Clone, PartialEq)]
pub struct Reference {
    pub location: String,
}

/// What a [`Reference`] holds, in mathematical terms.
pub struct ReferenceView {
    pub location: Seq<char>,
}

impl DeepView for Reference {
    type V = ReferenceView;

    open spec fn deep_view(&self) -> ReferenceView {
        ReferenceView {
            location: self.location.deep_view(),
        }
    }
}

impl View for Reference {
    type V = ReferenceView;

    open spec fn view(&self) -> ReferenceView {
        self.deep_view()
    }
}

/// What the items of a list property are: a schema defined elsewhere, or a
/// plain type.
#[derive(Debug, Clone, PartialEq)]
#[allow(inconsistent_fields)]
pub enum TypeOrReference {
    /// The items follow the schema at `location`.
    Reference {
        location: String,
    },
    /// The items have the plain type `items_type`.
    Type {
        items_type: String,
    },
}

/// What a [`TypeOrReference`] holds, in mathematical terms.
#[allow(inconsistent_fields)]
pub enum TypeOrReferenceView {
    Reference {
        location: Seq<char>,
    },
    Type {
        items_type: Seq<char>,
    },
}

impl DeepView for TypeOrReference {
    type V = TypeOrReferenceView;

    open spec fn deep_view(&self) -> TypeOrReferenceView {
        match self {
            TypeOrReference::Reference { location } => TypeOrReferenceView::Reference {
                location: location.deep_view(),
            },
            TypeOrReference::Type { items_type } => TypeOrReferenceView::Type {
                items_type: items_type.deep_view(),
            },
        }
    }
}

impl View for TypeOrReference {
    type V = TypeOrReferenceView;

    open spec fn view(&self) -> TypeOrReferenceView {
        self.deep_view()
    }
}

/// A field of a schema, or a parameter of a method: both carry the same set
/// of facts, and a parameter uses `required` and `location` as well.
#[derive(Debug, Clone, PartialEq)]
pub struct Property {
    pub property_type: Option<String>,
    pub description: Option<String>,
    pub format: Option<String>,
    pub items: Option<TypeOrReference>,
    pub the_default: Option<bool>,
    pub required: Option<bool>,
    pub location: Option<String>,
}

/// What a [`Property`] holds, in mathematical terms.
pub struct PropertyView {
    pub property_type: Option<Seq<char>>,
    pub description: Option<Seq<char>>,
    pub format: Option<Seq<char>>,
    pub items: Option<TypeOrReferenceView>,
    pub the_default: Option<bool>,
    pub required: Option<bool>,
    pub location: Option<Seq<char>>,
}

impl DeepView for Property {
    type V = PropertyView;

    open spec fn deep_view(&self) -> PropertyView {
        PropertyView {
            property_type: self.property_type.deep_view(),
            description: self.description.deep_view(),
            format: self.format.deep_view(),
            items: self.items.deep_view(),
            the_default: self.the_default.deep_view(),
            required: self.required.deep_view(),
            location: self.location.deep_view(),
        }
    }
}

impl View for Property {
    type V = PropertyView;

    open spec fn view(&self) -> PropertyView {
        self.deep_view()
    }
}

impl Default for Property {
    /// A property about which nothing is stated.
    fn default() -> (r: Self)
        ensures
            r@ == (PropertyView {
                property_type: None,
                description: None,
                format: None,
                items: None,
                the_default: None,
                required: None,
                location: None,
            }),
    {
        Property {
            property_type: None,
            description: None,
            format: None,
            items: None,
            the_default: None,
            required: None,
            location: None,
        }
    }
}

/// The service level that a method or an API aims at.
#[derive(Debug, Clone, PartialEq)]
pub struct SLT {
    pub percentile_99th: String,
    pub std_dev: String,
    pub requests_per_second: i32,
}

/// What a [`SLT`] holds, in mathematical terms.
pub struct SLTView {
    pub percentile_99th: Seq<char>,
    pub std_dev: Seq<char>,
    pub requests_per_second: i32,
}

impl DeepView for SLT {
    type V = SLTView;

    open spec fn deep_view(&self) -> SLTView {
        SLTView {
            percentile_99th: self.percentile_99th.deep_view(),
            std_dev: self.std_dev.deep_view(),
            requests_per_second: self.requests_per_second.deep_view(),
        }
    }
}

impl View for SLT {
    type V = SLTView;

    open spec fn view(&self) -> SLTView {
        self.deep_view()
    }
}

/// The schema of the body that a method takes, written `schemas/<Name>`.
#[derive(Debug, Clone, PartialEq)]
pub struct MethodRequest {
    pub location: String,
}

/// What a [`MethodRequest`] holds, in mathematical terms.
pub struct MethodRequestView {
    pub location: Seq<char>,
}

impl DeepView for MethodRequest {
    type V = MethodRequestView;

    open spec fn deep_view(&self) -> MethodRequestView {
        MethodRequestView {
            location: self.location.deep_view(),
        }
    }
}

impl View for MethodRequest {
    type V = MethodRequestView;

    open spec fn view(&self) -> MethodRequestView {
        self.deep_view()
    }
}

/// What a method answers with.
#[derive(Debug, Clone, PartialEq)]
#[allow(inconsistent_fields)]
pub enum Response {
    /// One object that follows the schema at `location`.
    Reference {
        location: String,
    },
    /// A list whose items follow the schema that `items` points to.
    ResponseList {
        id: Option<String>,
        resource: Option<String>,
        response_type: String,
        items: Reference,
    },
    /// One object whose fields are spelled out in place.
    ResponseSingle {
        id: String,
        resource: String,
        response_type: String,
        properties: OrderedMap<Property>,
    },
}

/// What a [`Response`] holds, in mathematical terms.
#[allow(inconsistent_fields)]
pub enum ResponseView {
    Reference {
        location: Seq<char>,
    },
    ResponseList {
        id: Option<Seq<char>>,
        resource: Option<Seq<char>>,
        response_type: Seq<char>,
        items: ReferenceView,
    },
    ResponseSingle {
        id: Seq<char>,
        resource: Seq<char>,
        response_type: Seq<char>,
        properties: Seq<(Seq<char>, PropertyView)>,
    },
}

impl DeepView for Response {
    type V = ResponseView;

    open spec fn deep_view(&self) -> ResponseView {
        match self {
            Response::Reference { location } => ResponseView::Reference {
                location: location.deep_view(),
            },
            Response::ResponseList {
                id,
                resource,
                response_type,
                items,
            } => ResponseView::ResponseList {
                id: id.deep_view(),
                resource: resource.deep_view(),
                response_type: response_type.deep_view(),
                items: items.deep_view(),
            },
            Response::ResponseSingle {
                id,
                resource,
                response_type,
                properties,
            } => ResponseView::ResponseSingle {
                id: id.deep_view(),
                resource: resource.deep_view(),
                response_type: response_type.deep_view(),
                properties: properties.deep_view(),
            },
        }
    }
}

impl View for Response {
    type V = ResponseView;

    open spec fn view(&self) -> ResponseView {
        self.deep_view()
    }
}

/// The parameters of a method, by name.
#[derive(Debug, Clone, PartialEq)]
pub struct GoogleParams(pub OrderedMap<Property>);

impl DeepView for GoogleParams {
    type V = Seq<(Seq<char>, PropertyView)>;

    open spec fn deep_view(&self) -> Seq<(Seq<char>, PropertyView)> {
        self.0.deep_view()
    }
}

impl View for GoogleParams {
    type V = Seq<(Seq<char>, PropertyView)>;

    open spec fn view(&self) -> Seq<(Seq<char>, PropertyView)> {
        self.deep_view()
    }
}

/// One operation of a resource. Its `id` is written `<resource>.<method>`.
#[derive(Debug, Clone, PartialEq)]
pub struct Method {
    pub id: String,
    pub path: String,
    pub http_method: String,
    pub description: String,
    pub parameters: Option<GoogleParams>,
    pub request: Option<MethodRequest>,
    pub response: Option<Response>,
    pub slt: Option<SLT>,
}

/// What a [`Method`] holds, in mathematical terms.
pub struct MethodView {
    pub id: Seq<char>,
    pub path: Seq<char>,
    pub http_method: Seq<char>,
    pub description: Seq<char>,
    pub parameters: Option<Seq<(Seq<char>, PropertyView)>>,
    pub request: Option<MethodRequestView>,
    pub response: Option<ResponseView>,
    pub slt: Option<SLTView>,
}

impl DeepView for Method {
    type V = MethodView;

    open spec fn deep_view(&self) -> MethodView {
        MethodView {
            id: self.id.deep_view(),
            path: self.path.deep_view(),
            http_method: self.http_method.deep_view(),
            description: self.description.deep_view(),
            parameters: self.parameters.deep_view(),
            request: self.request.deep_view(),
            response: self.response.deep_view(),
            slt: self.slt.deep_view(),
        }
    }
}

impl View for Method {
    type V = MethodView;

    open spec fn view(&self) -> MethodView {
        self.deep_view()
    }
}

/// A list of methods, in the order in which they are to be processed.
#[derive(Debug, Clone, PartialEq)]
pub struct GoogleMethods(pub Vec<Method>);

impl DeepView for GoogleMethods {
    type V = Seq<MethodView>;

    open spec fn deep_view(&self) -> Seq<MethodView> {
        self.0.deep_view()
    }
}

impl View for GoogleMethods {
    type V = Seq<MethodView>;

    open spec fn view(&self) -> Seq<MethodView> {
        self.deep_view()
    }
}

/// A named group of methods.
#[derive(Debug, Clone, PartialEq)]
pub struct Resource {
    pub methods: OrderedMap<Method>,
}

/// What a [`Resource`] holds, in mathematical terms.
pub struct ResourceView {
    pub methods: Seq<(Seq<char>, MethodView)>,
}

impl DeepView for Resource {
    type V = ResourceView;

    open spec fn deep_view(&self) -> ResourceView {
        ResourceView {
            methods: self.methods.deep_view(),
        }
    }
}

impl View for Resource {
    type V = ResourceView;

    open spec fn view(&self) -> ResourceView {
        self.deep_view()
    }
}

/// The resources of a document, by name.
#[derive(Debug, Clone, PartialEq)]
pub struct GoogleResources(pub OrderedMap<Resource>);

impl DeepView for GoogleResources {
    type V = Seq<(Seq<char>, ResourceView)>;

    open spec fn deep_view(&self) -> Seq<(Seq<char>, ResourceView)> {
        self.0.deep_view()
    }
}

impl View for GoogleResources {
    type V = Seq<(Seq<char>, ResourceView)>;

    open spec fn view(&self) -> Seq<(Seq<char>, ResourceView)> {
        self.deep_view()
    }
}

/// A schema of the document: a list of items that follow another schema, or
/// an object with named fields.
#[derive(Debug, Clone, PartialEq)]
#[allow(inconsistent_fields)]
pub enum Schema {
    /// A list whose items follow the schema that `items` points to.
    ResponseList {
        id: Option<String>,
        resource: Option<String>,
        schema_type: String,
        items: Reference,
    },
    /// An object with the fields in `properties`.
    ResponseSingle {
        id: String,
        resource: String,
        schema_type: String,
        properties: OrderedMap<Property>,
    },
}

/// What a [`Schema`] holds, in mathematical terms.
#[allow(inconsistent_fields)]
pub enum SchemaView {
    ResponseList {
        id: Option<Seq<char>>,
        resource: Option<Seq<char>>,
        schema_type: Seq<char>,
        items: ReferenceView,
    },
    ResponseSingle {
        id: Seq<char>,
        resource: Seq<char>,
        schema_type: Seq<char>,
        properties: Seq<(Seq<char>, PropertyView)>,
    },
}

impl DeepView for Schema {
    type V = SchemaView;

    open spec fn deep_view(&self) -> SchemaView {
        match self {
            Schema::ResponseList { id, resource, schema_type, items } => SchemaView::ResponseList {
                id: id.deep_view(),
                resource: resource.deep_view(),
                schema_type: schema_type.deep_view(),
                items: items.deep_view(),
            },
            Schema::ResponseSingle {
                id,
                resource,
                schema_type,
                properties,
            } => SchemaView::ResponseSingle {
                id: id.deep_view(),
                resource: resource.deep_view(),
                schema_type: schema_type.deep_view(),
                properties: properties.deep_view(),
            },
        }
    }
}

impl View for Schema {
    type V = SchemaView;

    open spec fn view(&self) -> SchemaView {
        self.deep_view()
    }
}

/// The schemas of a document, by name.
#[derive(Debug, Clone, PartialEq)]
pub struct GoogleSchemas(pub OrderedMap<Schema>);

impl DeepView for GoogleSchemas {
    type V = Seq<(Seq<char>, SchemaView)>;

    open spec fn deep_view(&self) -> Seq<(Seq<char>, SchemaView)> {
        self.0.deep_view()
    }
}

impl View for GoogleSchemas {
    type V = Seq<(Seq<char>, SchemaView)>;

    open spec fn view(&self) -> Seq<(Seq<char>, SchemaView)> {
        self.deep_view()
    }
}

/// Fragments that several methods of a document share.
#[derive(Debug, Clone, PartialEq)]
pub struct Aliases {
    pub slts: Option<OrderedMap<SLT>>,
    pub pagination_params: Option<OrderedMap<Property>>,
}

/// What a [`Aliases`] holds, in mathematical terms.
pub struct AliasesView {
    pub slts: Option<Seq<(Seq<char>, SLTView)>>,
    pub pagination_params: Option<Seq<(Seq<char>, PropertyView)>>,
}

impl DeepView for Aliases {
    type V = AliasesView;

    open spec fn deep_view(&self) -> AliasesView {
        AliasesView {
            slts: self.slts.deep_view(),
            pagination_params: self.pagination_params.deep_view(),
        }
    }
}

impl View for Aliases {
    type V = AliasesView;

    open spec fn view(&self) -> AliasesView {
        self.deep_view()
    }
}

/// A Discovery document.
#[derive(Debug, Clone, PartialEq)]
pub struct Spec {
    pub id: String,
    pub name: String,
    pub version: String,
    pub title: String,
    pub description: String,
    pub documentation_link: Option<String>,
    pub protocol: String,
    pub base_path: String,
    pub schemas: GoogleSchemas,
    pub resources: GoogleResources,
    pub aliases: Option<Aliases>,
}

/// What a [`Spec`] holds, in mathematical terms.
pub struct SpecView {
    pub id: Seq<char>,
    pub name: Seq<char>,
    pub version: Seq<char>,
    pub title: Seq<char>,
    pub description: Seq<char>,
    pub documentation_link: Option<Seq<char>>,
    pub protocol: Seq<char>,
    pub base_path: Seq<char>,
    pub schemas: Seq<(Seq<char>, SchemaView)>,
    pub resources: Seq<(Seq<char>, ResourceView)>,
    pub aliases: Option<AliasesView>,
}

impl DeepView for Spec {
    type V = SpecView;

    open spec fn deep_view(&self) -> SpecView {
        SpecView {
            id: self.id.deep_view(),
            name: self.name.deep_view(),
            version: self.version.deep_view(),
            title: self.title.deep_view(),
            description: self.description.deep_view(),
            documentation_link: self.documentation_link.deep_view(),
            protocol: self.protocol.deep_view(),
            base_path: self.base_path.deep_view(),
            schemas: self.schemas.deep_view(),
            resources: self.resources.deep_view(),
            aliases: self.aliases.deep_view(),
        }
    }
}

impl View for Spec {
    type V = SpecView;

    open spec fn view(&self) -> SpecView {
        self.deep_view()
    }
}

/// The list shape of a schema or a response, as a type of its own.
#[derive(Debug, Clone, PartialEq)]
pub struct ResponseList {
    pub id: Option<String>,
    pub resource: Option<String>,
    pub response_type: String,
    pub items: Reference,
}

/// What a [`ResponseList`] holds, in mathematical terms.
pub struct ResponseListView {
    pub id: Option<Seq<char>>,
    pub resource: Option<Seq<char>>,
    pub response_type: Seq<char>,
    pub items: ReferenceView,
}

impl DeepView for ResponseList {
    type V = ResponseListView;

    open spec fn deep_view(&self) -> ResponseListView {
        ResponseListView {
            id: self.id.deep_view(),
            resource: self.resource.deep_view(),
            response_type: self.response_type.deep_view(),
            items: self.items.deep_view(),
        }
    }
}

impl View for ResponseList {
    type V = ResponseListView;

    open spec fn view(&self) -> ResponseListView {
        self.deep_view()
    }
}

/// The object shape of a schema or a response, as a type of its own.
#[derive(Debug, Clone, PartialEq)]
pub struct ResponseSingle {
    pub id: String,
    pub resource: String,
    pub schema_type: String,
    pub properties: OrderedMap<Property>,
}

/// What a [`ResponseSingle`] holds, in mathematical terms.
pub struct ResponseSingleView {
    pub id: Seq<char>,
    pub resource: Seq<char>,
    pub schema_type: Seq<char>,
    pub properties: Seq<(Seq<char>, PropertyView)>,
}

impl DeepView for ResponseSingle {
    type V = ResponseSingleView;

    open spec fn deep_view(&self) -> ResponseSingleView {
        ResponseSingleView {
            id: self.id.deep_view(),
            resource: self.resource.deep_view(),
            schema_type: self.schema_type.deep_view(),
            properties: self.properties.deep_view(),
        }
    }
}

impl View for ResponseSingle {
    type V = ResponseSingleView;

    open spec fn view(&self) -> ResponseSingleView {
        self.deep_view()
    }
}

} // verus!
