//! The OpenAPI 2.0 document model: an API as a set of paths, each with up to
//! one operation per HTTP verb, beside a registry of schema definitions.

use vstd::prelude::*;
use crate::ordered_map::OrderedMap;

verus! {

/// Whom to ask about the API.
#[derive(Debug, Clone, PartialEq)]
pub struct Contact {
    pub name: Option<String>,
    pub email: Option<String>,
    pub url: Option<String>,
}

/// What a [`Contact`] holds, in mathematical terms.
pub struct ContactView {
    pub name: Option<Seq<char>>,
    pub email: Option<Seq<char>>,
    pub url: Option<Seq<char>>,
}

impl DeepView for Contact {
    type V = ContactView;

    open spec fn deep_view(&self) -> ContactView {
        ContactView {
            name: self.name.deep_view(),
            email: self.email.deep_view(),
            url: self.url.deep_view(),
        }
    }
}

impl View for Contact {
    type V = ContactView;

    open spec fn view(&self) -> ContactView {
        self.deep_view()
    }
}

/// The license that the API is offered under.
#[derive(Debug, Clone, PartialEq)]
pub struct License {
    pub name: Option<String>,
    pub url: Option<String>,
}

/// What a [`License`] holds, in mathematical terms.
pub struct LicenseView {
    pub name: Option<Seq<char>>,
    pub url: Option<Seq<char>>,
}

impl DeepView for License {
    type V = LicenseView;

    open spec fn deep_view(&self) -> LicenseView {
        LicenseView {
            name: self.name.deep_view(),
            url: self.url.deep_view(),
        }
    }
}

impl View for License {
    type V = LicenseView;

    open spec fn view(&self) -> LicenseView {
        self.deep_view()
    }
}

/// The metadata of a document.
#[derive(Debug, Clone, PartialEq)]
pub struct Info {
    pub title: Option<String>,
    pub description: Option<String>,
    pub version: Option<String>,
    pub terms_of_service: Option<String>,
    pub license: Option<License>,
    pub contact: Option<Contact>,
}

/// What a [`Info`] holds, in mathematical terms.
pub struct InfoView {
    pub title: Option<Seq<char>>,
    pub description: Option<Seq<char>>,
    pub version: Option<Seq<char>>,
    pub terms_of_service: Option<Seq<char>>,
    pub license: Option<LicenseView>,
    pub contact: Option<ContactView>,
}

impl DeepView for Info {
    type V = InfoView;

    open spec fn deep_view(&self) -> InfoView {
        InfoView {
            title: self.title.deep_view(),
            description: self.description.deep_view(),
            version: self.version.deep_view(),
            terms_of_service: self.terms_of_service.deep_view(),
            license: self.license.deep_view(),
            contact: self.contact.deep_view(),
        }
    }
}

impl View for Info {
    type V = InfoView;

    open spec fn view(&self) -> InfoView {
        self.deep_view()
    }
}

/// The shape of a value. It may point to a definition by `ref_path`, written
/// `#/definitions/<Name>`, describe the items of a list, or name the fields of
/// an object.
#[derive(Debug, PartialEq)]
pub struct Schema {
    pub ref_path: Option<String>,
    pub description: Option<String>,
    pub schema_type: Option<String>,
    pub format: Option<String>,
    pub enum_values: Option<Vec<String>>,
    pub required: Option<Vec<String>>,
    pub items: Option<Box<Schema>>,
    pub properties: Option<OrderedMap<Schema>>,
}

/// What a [`Schema`] holds, in mathematical terms.
pub struct SchemaView {
    pub ref_path: Option<Seq<char>>,
    pub description: Option<Seq<char>>,
    pub schema_type: Option<Seq<char>>,
    pub format: Option<Seq<char>>,
    pub enum_values: Option<Seq<Seq<char>>>,
    pub required: Option<Seq<Seq<char>>>,
    pub items: Option<Box<SchemaView>>,
    pub properties: Option<Seq<(Seq<char>, SchemaView)>>,
}

/// The view of a schema, by recursion over its items and its properties.
pub open spec fn schema_view(s: Schema) -> SchemaView
    decreases s,
{
    SchemaView {
        ref_path: s.ref_path.deep_view(),
        description: s.description.deep_view(),
        schema_type: s.schema_type.deep_view(),
        format: s.format.deep_view(),
        enum_values: s.enum_values.deep_view(),
        required: s.required.deep_view(),
        items: match s.items {
            Some(inner) => Some(Box::new(schema_view(*inner))),
            None => None,
        },
        properties: match s.properties {
            Some(map) => Some(
                Seq::new(
                    map.entries().len(),
                    |i: int|
                        (
                            map.entries()[i].0,
                            if 0 <= i < map.entries().len() {
                                proof {
                                    map.lemma_value_decreases(i);
                                }
                                schema_view(map.entries()[i].1)
                            } else {
                                arbitrary()
                            },
                        ),
                ),
            ),
            None => None,
        },
    }
}

impl DeepView for Schema {
    type V = SchemaView;

    open spec fn deep_view(&self) -> SchemaView {
        schema_view(*self)
    }
}

impl View for Schema {
    type V = SchemaView;

    open spec fn view(&self) -> SchemaView {
        self.deep_view()
    }
}

/// The view of a schema holds the views of its items and of its properties.
pub proof fn lemma_schema_view(s: Schema)
    ensures
        s@.items == match s.items {
            Some(inner) => Some(Box::new(inner@)),
            None => None,
        },
        s@.properties == s.properties.deep_view(),
{
    match s.properties {
        Some(map) => {
            assert(s@.properties->0 =~= map.deep_view());
        },
        None => {},
    }
}

impl Default for Schema {
    /// A schema that states nothing.
    fn default() -> (r: Self)
        ensures
            r@ == empty_schema(),
    {
        Schema {
            ref_path: None,
            description: None,
            schema_type: None,
            format: None,
            enum_values: None,
            required: None,
            items: None,
            properties: None,
        }
    }
}

/// The schema that states nothing.
pub open spec fn empty_schema() -> SchemaView {
    SchemaView {
        ref_path: None,
        description: None,
        schema_type: None,
        format: None,
        enum_values: None,
        required: None,
        items: None,
        properties: None,
    }
}

/// What an operation answers with under one status code.
#[derive(Debug, PartialEq)]
pub struct Response {
    pub description: String,
    pub schema: Option<Schema>,
}

/// What a [`Response`] holds, in mathematical terms.
pub struct ResponseView {
    pub description: Seq<char>,
    pub schema: Option<SchemaView>,
}

impl DeepView for Response {
    type V = ResponseView;

    open spec fn deep_view(&self) -> ResponseView {
        ResponseView {
            description: self.description.deep_view(),
            schema: self.schema.deep_view(),
        }
    }
}

impl View for Response {
    type V = ResponseView;

    open spec fn view(&self) -> ResponseView {
        self.deep_view()
    }
}

/// A parameter of an operation. Its `location` is one of `path`, `query`,
/// `header` and `body`.
#[derive(Debug, PartialEq)]
pub struct Parameter {
    pub name: String,
    pub location: String,
    pub description: Option<String>,
    pub required: Option<bool>,
    pub format: Option<String>,
    pub param_type: Option<String>,
    pub schema: Option<Schema>,
    pub unique_items: Option<bool>,
}

/// What a [`Parameter`] holds, in mathematical terms.
pub struct ParameterView {
    pub name: Seq<char>,
    pub location: Seq<char>,
    pub description: Option<Seq<char>>,
    pub required: Option<bool>,
    pub format: Option<Seq<char>>,
    pub param_type: Option<Seq<char>>,
    pub schema: Option<SchemaView>,
    pub unique_items: Option<bool>,
}

impl DeepView for Parameter {
    type V = ParameterView;

    open spec fn deep_view(&self) -> ParameterView {
        ParameterView {
            name: self.name.deep_view(),
            location: self.location.deep_view(),
            description: self.description.deep_view(),
            required: self.required.deep_view(),
            format: self.format.deep_view(),
            param_type: self.param_type.deep_view(),
            schema: self.schema.deep_view(),
            unique_items: self.unique_items.deep_view(),
        }
    }
}

impl View for Parameter {
    type V = ParameterView;

    open spec fn view(&self) -> ParameterView {
        self.deep_view()
    }
}

/// A parameter of an operation, spelled out in place or named by a pointer
/// into the parameters of the document.
#[derive(Debug, PartialEq)]
#[allow(inconsistent_fields)]
pub enum ParameterOrRef {
    /// A parameter spelled out in place.
    Parameter {
        name: String,
        location: String,
        description: Option<String>,
        required: Option<bool>,
        format: Option<String>,
        param_type: Option<String>,
        schema: Option<Schema>,
        unique_items: Option<bool>,
    },
    /// A pointer to a parameter of the document, written `#/parameters/<name>`.
    Ref {
        ref_path: String,
    },
}

/// What a [`ParameterOrRef`] holds, in mathematical terms.
#[allow(inconsistent_fields)]
pub enum ParameterOrRefView {
    Parameter {
        name: Seq<char>,
        location: Seq<char>,
        description: Option<Seq<char>>,
        required: Option<bool>,
        format: Option<Seq<char>>,
        param_type: Option<Seq<char>>,
        schema: Option<SchemaView>,
        unique_items: Option<bool>,
    },
    Ref {
        ref_path: Seq<char>,
    },
}

impl DeepView for ParameterOrRef {
    type V = ParameterOrRefView;

    open spec fn deep_view(&self) -> ParameterOrRefView {
        match self {
            ParameterOrRef::Parameter {
                name,
                location,
                description,
                required,
                format,
                param_type,
                schema,
                unique_items,
            } => ParameterOrRefView::Parameter {
                name: name.deep_view(),
                location: location.deep_view(),
                description: description.deep_view(),
                required: required.deep_view(),
                format: format.deep_view(),
                param_type: param_type.deep_view(),
                schema: schema.deep_view(),
                unique_items: unique_items.deep_view(),
            },
            ParameterOrRef::Ref { ref_path } => ParameterOrRefView::Ref {
                ref_path: ref_path.deep_view(),
            },
        }
    }
}

impl View for ParameterOrRef {
    type V = ParameterOrRefView;

    open spec fn view(&self) -> ParameterOrRefView {
        self.deep_view()
    }
}

/// What one HTTP verb does on one path. Its `operation_id` is written
/// `<group>.<name>`.
#[derive(Debug, PartialEq)]
pub struct Operation {
    pub summary: Option<String>,
    pub description: Option<String>,
    pub consumes: Option<Vec<String>>,
    pub produces: Option<Vec<String>>,
    pub schemes: Option<Vec<String>>,
    pub tags: Option<Vec<String>>,
    pub operation_id: Option<String>,
    pub responses: OrderedMap<Response>,
    pub parameters: Option<Vec<ParameterOrRef>>,
}

/// What a [`Operation`] holds, in mathematical terms.
pub struct OperationView {
    pub summary: Option<Seq<char>>,
    pub description: Option<Seq<char>>,
    pub consumes: Option<Seq<Seq<char>>>,
    pub produces: Option<Seq<Seq<char>>>,
    pub schemes: Option<Seq<Seq<char>>>,
    pub tags: Option<Seq<Seq<char>>>,
    pub operation_id: Option<Seq<char>>,
    pub responses: Seq<(Seq<char>, ResponseView)>,
    pub parameters: Option<Seq<ParameterOrRefView>>,
}

impl DeepView for Operation {
    type V = OperationView;

    open spec fn deep_view(&self) -> OperationView {
        OperationView {
            summary: self.summary.deep_view(),
            description: self.description.deep_view(),
            consumes: self.consumes.deep_view(),
            produces: self.produces.deep_view(),
            schemes: self.schemes.deep_view(),
            tags: self.tags.deep_view(),
            operation_id: self.operation_id.deep_view(),
            responses: self.responses.deep_view(),
            parameters: self.parameters.deep_view(),
        }
    }
}

impl View for Operation {
    type V = OperationView;

    open spec fn view(&self) -> OperationView {
        self.deep_view()
    }
}

/// The operations of one path: up to one for each HTTP verb.
#[derive(Debug, PartialEq)]
pub struct Operations {
    pub get: Option<Operation>,
    pub post: Option<Operation>,
    pub put: Option<Operation>,
    pub patch: Option<Operation>,
    pub delete: Option<Operation>,
    pub options: Option<Operation>,
    pub head: Option<Operation>,
}

/// What a [`Operations`] holds, in mathematical terms.
pub struct OperationsView {
    pub get: Option<OperationView>,
    pub post: Option<OperationView>,
    pub put: Option<OperationView>,
    pub patch: Option<OperationView>,
    pub delete: Option<OperationView>,
    pub options: Option<OperationView>,
    pub head: Option<OperationView>,
}

impl DeepView for Operations {
    type V = OperationsView;

    open spec fn deep_view(&self) -> OperationsView {
        OperationsView {
            get: self.get.deep_view(),
            post: self.post.deep_view(),
            put: self.put.deep_view(),
            patch: self.patch.deep_view(),
            delete: self.delete.deep_view(),
            options: self.options.deep_view(),
            head: self.head.deep_view(),
        }
    }
}

impl View for Operations {
    type V = OperationsView;

    open spec fn view(&self) -> OperationsView {
        self.deep_view()
    }
}

/// A path without operations.
pub open spec fn no_operations() -> OperationsView {
    OperationsView {
        get: None,
        post: None,
        put: None,
        patch: None,
        delete: None,
        options: None,
        head: None,
    }
}

impl Default for Operations {
    /// A path without operations.
    fn default() -> (r: Self)
        ensures
            r@ == no_operations(),
    {
        Operations {
            get: None,
            post: None,
            put: None,
            patch: None,
            delete: None,
            options: None,
            head: None,
        }
    }
}

/// An OpenAPI 2.0 document.
#[derive(Debug, PartialEq)]
pub struct Spec {
    pub swagger: String,
    pub info: Info,
    pub paths: OrderedMap<Operations>,
    pub definitions: Option<OrderedMap<Schema>>,
    pub schemes: Option<Vec<String>>,
    pub host: Option<String>,
    pub base_path: Option<String>,
    pub consumes: Option<Vec<String>>,
    pub produces: Option<Vec<String>>,
    pub parameters: Option<OrderedMap<Parameter>>,
    pub responses: Option<OrderedMap<Response>>,
}

/// What a [`Spec`] holds, in mathematical terms.
pub struct SpecView {
    pub swagger: Seq<char>,
    pub info: InfoView,
    pub paths: Seq<(Seq<char>, OperationsView)>,
    pub definitions: Option<Seq<(Seq<char>, SchemaView)>>,
    pub schemes: Option<Seq<Seq<char>>>,
    pub host: Option<Seq<char>>,
    pub base_path: Option<Seq<char>>,
    pub consumes: Option<Seq<Seq<char>>>,
    pub produces: Option<Seq<Seq<char>>>,
    pub parameters: Option<Seq<(Seq<char>, ParameterView)>>,
    pub responses: Option<Seq<(Seq<char>, ResponseView)>>,
}

impl DeepView for Spec {
    type V = SpecView;

    open spec fn deep_view(&self) -> SpecView {
        SpecView {
            swagger: self.swagger.deep_view(),
            info: self.info.deep_view(),
            paths: self.paths.deep_view(),
            definitions: self.definitions.deep_view(),
            schemes: self.schemes.deep_view(),
            host: self.host.deep_view(),
            base_path: self.base_path.deep_view(),
            consumes: self.consumes.deep_view(),
            produces: self.produces.deep_view(),
            parameters: self.parameters.deep_view(),
            responses: self.responses.deep_view(),
        }
    }
}

impl View for Spec {
    type V = SpecView;

    open spec fn view(&self) -> SpecView {
        self.deep_view()
    }
}

} // verus!
