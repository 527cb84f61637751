//! A strict check of a document that stops at the first complaint: the
//! metadata must be complete, the only scheme must be `https`, and every
//! pointer of an operation must lead to something that the document holds.

use vstd::prelude::*;
use vstd::string::*;
use crate::error::{OpenApiError, OpenApiErrorView};
use crate::openapi::{
    Operation, OperationView, Parameter, ParameterOrRef, ParameterOrRefView, ResponseView, Spec,
    SpecView,
};
use crate::ordered_map::OrderedMap;
use crate::render::{debug_str, debug_text};
use crate::text::{joined, contains_text, texts_equal};

verus! {

/// The pointers to the entries of a table of the document: for each name the
/// prefix and the name. Nothing where the document has no such table.
pub open spec fn pointers<T>(prefix: Seq<char>, table: Option<Seq<(Seq<char>, T)>>) -> Option<
    Seq<Seq<char>>,
> {
    match table {
        Some(entries) => Some(Seq::new(entries.len(), |i: int| prefix + entries[i].0)),
        None => None,
    }
}

/// Whether a pointer leads to something: whether it is among the pointers
/// that the document offers.
pub open spec fn pointer_known(offered: Option<Seq<Seq<char>>>, pointer: Seq<char>) -> bool {
    match offered {
        Some(list) => list.contains(pointer),
        None => false,
    }
}

/// The complaint about a pointer that leads nowhere, given the pointer and
/// the path as they are written for debugging. `kind` says what the pointer
/// should lead to.
pub open spec fn missing_message(
    kind: Seq<char>,
    written_pointer: Seq<char>,
    written_path: Seq<char>,
) -> Seq<char> {
    kind + written_pointer + " used in "@ + written_path + " is missing from the spec"@
}

/// The complaint about a parameter that an operation points to and the
/// document does not hold.
pub open spec fn missing_parameter_message(pointer: Seq<char>, path: Seq<char>) -> Seq<char> {
    missing_message("The parameter "@, debug_text(pointer), debug_text(path))
}

/// The complaint about a definition that a response points to and the
/// document does not hold.
pub open spec fn missing_definition_message(pointer: Seq<char>, path: Seq<char>) -> Seq<char> {
    missing_message("The definition "@, debug_text(pointer), debug_text(path))
}

/// The complaint about one parameter of an operation, if there is one: it
/// points to a parameter that the document does not hold.
pub open spec fn parameter_complaint(
    parameter: ParameterOrRefView,
    offered: Option<Seq<Seq<char>>>,
    path: Seq<char>,
) -> Option<Seq<char>> {
    match parameter {
        ParameterOrRefView::Ref { ref_path } => if pointer_known(offered, ref_path) {
            None
        } else {
            Some(missing_parameter_message(ref_path, path))
        },
        ParameterOrRefView::Parameter {
            name,
            location,
            description,
            required,
            format,
            param_type,
            schema,
            unique_items,
        } => None,
    }
}

/// The first complaint about the first `n` parameters of an operation.
pub open spec fn parameters_complaint_upto(
    parameters: Seq<ParameterOrRefView>,
    offered: Option<Seq<Seq<char>>>,
    path: Seq<char>,
    n: nat,
) -> Option<Seq<char>>
    decreases n,
{
    if n == 0 {
        None
    } else {
        match parameters_complaint_upto(parameters, offered, path, (n - 1) as nat) {
            Some(complaint) => Some(complaint),
            None => parameter_complaint(parameters[n - 1], offered, path),
        }
    }
}

/// The complaint about one response of an operation, if there is one: its
/// schema points to a definition that the document does not hold.
pub open spec fn response_complaint(
    response: ResponseView,
    offered: Option<Seq<Seq<char>>>,
    path: Seq<char>,
) -> Option<Seq<char>> {
    match response.schema {
        Some(schema) => match schema.ref_path {
            Some(pointer) => if pointer_known(offered, pointer) {
                None
            } else {
                Some(missing_definition_message(pointer, path))
            },
            None => None,
        },
        None => None,
    }
}

/// The first complaint about the first `n` responses of an operation.
pub open spec fn responses_complaint_upto(
    responses: Seq<(Seq<char>, ResponseView)>,
    offered: Option<Seq<Seq<char>>>,
    path: Seq<char>,
    n: nat,
) -> Option<Seq<char>>
    decreases n,
{
    if n == 0 {
        None
    } else {
        match responses_complaint_upto(responses, offered, path, (n - 1) as nat) {
            Some(complaint) => Some(complaint),
            None => response_complaint(responses[n - 1].1, offered, path),
        }
    }
}

/// The first complaint about an operation: about its parameters, in their
/// order, then about its responses, in the order of their status codes.
pub open spec fn method_complaint(
    path: Seq<char>,
    method: OperationView,
    all_params: Option<Seq<Seq<char>>>,
    all_definitions: Option<Seq<Seq<char>>>,
) -> Option<Seq<char>> {
    let about_parameters = match method.parameters {
        Some(parameters) => parameters_complaint_upto(
            parameters,
            all_params,
            path,
            parameters.len(),
        ),
        None => None,
    };
    match about_parameters {
        Some(complaint) => Some(complaint),
        None => responses_complaint_upto(
            method.responses,
            all_definitions,
            path,
            method.responses.len(),
        ),
    }
}

/// The first complaint about the operation under a verb, where there is an
/// operation.
pub open spec fn verb_complaint(
    path: Seq<char>,
    method: Option<OperationView>,
    all_params: Option<Seq<Seq<char>>>,
    all_definitions: Option<Seq<Seq<char>>>,
) -> Option<Seq<char>> {
    match method {
        Some(operation) => method_complaint(path, operation, all_params, all_definitions),
        None => None,
    }
}

/// The first complaint about the first `n` paths of a document. Of each path
/// the operation under GET is looked at, then the one under POST.
pub open spec fn paths_complaint_upto(spec: SpecView, n: nat) -> Option<Seq<char>>
    decreases n,
{
    if n == 0 {
        None
    } else {
        match paths_complaint_upto(spec, (n - 1) as nat) {
            Some(complaint) => Some(complaint),
            None => {
                let all_params = pointers("#/parameters/"@, spec.parameters);
                let all_definitions = pointers("#/definitions/"@, spec.definitions);
                let (path, operations) = spec.paths[n - 1];
                match verb_complaint(path, operations.get, all_params, all_definitions) {
                    Some(complaint) => Some(complaint),
                    None => verb_complaint(path, operations.post, all_params, all_definitions),
                }
            },
        }
    }
}

/// The first complaint about a document, if there is one. The version, the
/// description, the terms of service, the contact and the schemes must be
/// there, in this order; the schemes must be `https` alone; then the paths
/// are looked at in their order.
pub open spec fn document_complaint(spec: SpecView) -> Option<Seq<char>> {
    if spec.info.version is None {
        Some("No API version found. Must specify info.version"@)
    } else if spec.info.description is None {
        Some("No API description found. Must specify info.description"@)
    } else if spec.info.terms_of_service is None {
        Some("No terms of service found. Must specify info.termsOfService"@)
    } else if spec.info.contact is None {
        Some("No contact information found. Must specify info.contact"@)
    } else if spec.schemes is None {
        Some("No schemes information found. Add the https scheme"@)
    } else if spec.schemes != Some(seq!["https"@]) {
        Some("Scheme is not https. Only https is a valid scheme."@)
    } else {
        paths_complaint_upto(spec, spec.paths.len())
    }
}

/// A complaint among the first parameters is the complaint about all.
pub proof fn lemma_parameters_complaint_stays(
    parameters: Seq<ParameterOrRefView>,
    offered: Option<Seq<Seq<char>>>,
    path: Seq<char>,
    n: nat,
    m: nat,
)
    requires
        n <= m,
        parameters_complaint_upto(parameters, offered, path, n) is Some,
    ensures
        parameters_complaint_upto(parameters, offered, path, m) == parameters_complaint_upto(
            parameters,
            offered,
            path,
            n,
        ),
    decreases m - n,
{
    if n < m {
        lemma_parameters_complaint_stays(parameters, offered, path, n, (m - 1) as nat);
    }
}

/// A complaint among the first responses is the complaint about all.
pub proof fn lemma_responses_complaint_stays(
    responses: Seq<(Seq<char>, ResponseView)>,
    offered: Option<Seq<Seq<char>>>,
    path: Seq<char>,
    n: nat,
    m: nat,
)
    requires
        n <= m,
        responses_complaint_upto(responses, offered, path, n) is Some,
    ensures
        responses_complaint_upto(responses, offered, path, m) == responses_complaint_upto(
            responses,
            offered,
            path,
            n,
        ),
    decreases m - n,
{
    if n < m {
        lemma_responses_complaint_stays(responses, offered, path, n, (m - 1) as nat);
    }
}

/// A complaint among the first paths is the complaint about the document.
pub proof fn lemma_paths_complaint_stays(spec: SpecView, n: nat, m: nat)
    requires
        n <= m,
        paths_complaint_upto(spec, n) is Some,
    ensures
        paths_complaint_upto(spec, m) == paths_complaint_upto(spec, n),
    decreases m - n,
{
    if n < m {
        lemma_paths_complaint_stays(spec, n, (m - 1) as nat);
    }
}

/// Whether `key` is among the pointers that the document offers.
pub fn spec_contains(values: &Option<Vec<String>>, key: &str) -> (r: bool)
    ensures
        r == pointer_known(values.deep_view(), key@),
{
    match values {
        Some(list) => contains_text(list, key),
        None => false,
    }
}

/// Writes the complaint about a pointer that leads nowhere, given the
/// pointer and the path as they are written for debugging.
pub fn missing_reference_message(kind: &str, written_pointer: &str, written_path: &str) -> (r:
    String)
    ensures
        r@ == missing_message(kind@, written_pointer@, written_path@),
{
    let mut message = String::from_str(kind);
    message.append(written_pointer);
    message.append(" used in ");
    message.append(written_path);
    message.append(" is missing from the spec");
    message
}

/// Checks that every pointer of an operation leads to something. `path` is
/// where the operation stands; `all_params` and `all_definitions` are the
/// pointers that the document offers.
pub fn validate_method(
    path: &str,
    method: &Operation,
    all_params: &Option<Vec<String>>,
    all_definitions: &Option<Vec<String>>,
) -> (r: Result<(), OpenApiError>)
    ensures
        r is Ok <==> method_complaint(
            path@,
            method@,
            all_params.deep_view(),
            all_definitions.deep_view(),
        ) is None,
        r matches Err(error) ==> error@ == OpenApiErrorView::Validation(
            method_complaint(
                path@,
                method@,
                all_params.deep_view(),
                all_definitions.deep_view(),
            )->0,
        ),
{
    match &method.parameters {
        Some(parameters) => {
            let mut i: usize = 0;
            while i < parameters.len()
                invariant
                    i <= parameters@.len(),
                    method@.parameters == Some(parameters.deep_view()),
                    parameters_complaint_upto(
                        parameters.deep_view(),
                        all_params.deep_view(),
                        path@,
                        i as nat,
                    ) is None,
                decreases parameters@.len() - i,
            {
                match &parameters[i] {
                    ParameterOrRef::Ref { ref_path } => {
                        if !spec_contains(all_params, ref_path.as_str()) {
                            proof {
                                assert(parameters.deep_view()[i as int]
                                    == ParameterOrRefView::Ref { ref_path: ref_path@ });
                                assert(parameters_complaint_upto(
                                    parameters.deep_view(),
                                    all_params.deep_view(),
                                    path@,
                                    (i + 1) as nat,
                                ) == Some(missing_parameter_message(ref_path@, path@)));
                                lemma_parameters_complaint_stays(
                                    parameters.deep_view(),
                                    all_params.deep_view(),
                                    path@,
                                    (i + 1) as nat,
                                    parameters@.len(),
                                );
                            }
                            let message = missing_reference_message(
                                "The parameter ",
                                debug_str(ref_path.as_str()).as_str(),
                                debug_str(path).as_str(),
                            );
                            return Err(OpenApiError::Validation(message));
                        }
                    },
                    _ => {},
                }
                i = i + 1;
            }
        },
        None => {},
    }
    let n = method.responses.len();
    let mut j: usize = 0;
    while j < n
        invariant
            j <= n,
            n == method@.responses.len(),
            n == method.responses.entries().len(),
            method@.responses == method.responses.deep_view(),
            method@.parameters matches Some(parameters) ==> parameters_complaint_upto(
                parameters,
                all_params.deep_view(),
                path@,
                parameters.len(),
            ) is None,
            responses_complaint_upto(
                method@.responses,
                all_definitions.deep_view(),
                path@,
                j as nat,
            ) is None,
        decreases n - j,
    {
        let response = method.responses.value(j);
        match &response.schema {
            Some(schema) => match &schema.ref_path {
                Some(pointer) => {
                    if !spec_contains(all_definitions, pointer.as_str()) {
                        proof {
                            assert(method@.responses[j as int].1 == response@);
                            crate::openapi::lemma_schema_view(*schema);
                            assert(responses_complaint_upto(
                                method@.responses,
                                all_definitions.deep_view(),
                                path@,
                                (j + 1) as nat,
                            ) == Some(missing_definition_message(pointer@, path@)));
                            lemma_responses_complaint_stays(
                                method@.responses,
                                all_definitions.deep_view(),
                                path@,
                                (j + 1) as nat,
                                n as nat,
                            );
                        }
                        let message = missing_reference_message(
                            "The definition ",
                            debug_str(pointer.as_str()).as_str(),
                            debug_str(path).as_str(),
                        );
                        return Err(OpenApiError::Validation(message));
                    }
                },
                None => {},
            },
            None => {},
        }
        j = j + 1;
    }
    Ok(())
}

fn table_pointers<T: DeepView>(prefix: &str, table: &Option<OrderedMap<T>>) -> (r: Option<
    Vec<String>,
>)
    ensures
        r.deep_view() == pointers(prefix@, table.deep_view()),
{
    match table {
        Some(entries) => {
            let mut list: Vec<String> = Vec::new();
            let n = entries.len();
            let mut i: usize = 0;
            while i < n
                invariant
                    i <= n,
                    n == entries.deep_view().len(),
                    n == entries.entries().len(),
                    list@.len() == i,
                    forall|j: int|
                        0 <= j < i ==> (#[trigger] list@[j])@ == prefix@ + entries.deep_view()[j].0,
                decreases n - i,
            {
                list.push(joined(prefix, entries.key(i).as_str()));
                i = i + 1;
            }
            assert(Some(list).deep_view() =~= pointers(prefix@, table.deep_view())) by {
                assert(list.deep_view() =~= pointers(prefix@, table.deep_view())->0);
            }
            Some(list)
        },
        None => None,
    }
}

fn complaint(message: &str) -> (r: OpenApiError)
    ensures
        r@ == OpenApiErrorView::Validation(message@),
{
    OpenApiError::Validation(String::from_str(message))
}

/// Checks a document strictly and hands it back where there is no complaint.
pub fn validate<'a>(borrow_spec: &'a Spec) -> (r: Result<&'a Spec, OpenApiError>)
    ensures
        r is Ok <==> document_complaint(borrow_spec@) is None,
        r matches Ok(spec) ==> spec == borrow_spec,
        r matches Err(error) ==> error@ == OpenApiErrorView::Validation(
            document_complaint(borrow_spec@)->0,
        ),
{
    let param_ids = table_pointers("#/parameters/", &borrow_spec.parameters);
    let def_ids = table_pointers("#/definitions/", &borrow_spec.definitions);
    if borrow_spec.info.version.is_none() {
        return Err(complaint("No API version found. Must specify info.version"));
    }
    if borrow_spec.info.description.is_none() {
        return Err(complaint("No API description found. Must specify info.description"));
    }
    if borrow_spec.info.terms_of_service.is_none() {
        return Err(complaint("No terms of service found. Must specify info.termsOfService"));
    }
    if borrow_spec.info.contact.is_none() {
        return Err(complaint("No contact information found. Must specify info.contact"));
    }
    match &borrow_spec.schemes {
        None => {
            return Err(complaint("No schemes information found. Add the https scheme"));
        },
        Some(schemes) => {
            let mut https: Vec<String> = Vec::new();
            https.push(String::from_str("https"));
            assert(https.deep_view() =~= seq!["https"@]);
            if !texts_equal(schemes.as_slice(), https.as_slice()) {
                return Err(complaint("Scheme is not https. Only https is a valid scheme."));
            }
        },
    }
    let n = borrow_spec.paths.len();
    let mut i: usize = 0;
    while i < n
        invariant
            i <= n,
            n == borrow_spec@.paths.len(),
            n == borrow_spec.paths.entries().len(),
            borrow_spec@.paths == borrow_spec.paths.deep_view(),
            param_ids.deep_view() == pointers("#/parameters/"@, borrow_spec@.parameters),
            def_ids.deep_view() == pointers("#/definitions/"@, borrow_spec@.definitions),
            document_complaint(borrow_spec@) == paths_complaint_upto(
                borrow_spec@,
                borrow_spec@.paths.len(),
            ),
            paths_complaint_upto(borrow_spec@, i as nat) is None,
        decreases n - i,
    {
        let path = borrow_spec.paths.key(i);
        let operations = borrow_spec.paths.value(i);
        assert(borrow_spec@.paths[i as int] == (path@, operations@));
        match &operations.get {
            Some(method) => {
                match validate_method(path.as_str(), method, &param_ids, &def_ids) {
                    Ok(_) => {},
                    Err(error) => {
                        proof {
                            assert(operations@.get == Some(method@));
                            assert(paths_complaint_upto(borrow_spec@, (i + 1) as nat)
                                == method_complaint(
                                path@,
                                method@,
                                param_ids.deep_view(),
                                def_ids.deep_view(),
                            ));
                            lemma_paths_complaint_stays(borrow_spec@, (i + 1) as nat, n as nat);
                        }
                        return Err(error);
                    },
                }
            },
            None => {},
        }
        match &operations.post {
            Some(method) => {
                match validate_method(path.as_str(), method, &param_ids, &def_ids) {
                    Ok(_) => {},
                    Err(error) => {
                        proof {
                            assert(operations@.post == Some(method@));
                            assert(paths_complaint_upto(borrow_spec@, (i + 1) as nat)
                                == method_complaint(
                                path@,
                                method@,
                                param_ids.deep_view(),
                                def_ids.deep_view(),
                            ));
                            lemma_paths_complaint_stays(borrow_spec@, (i + 1) as nat, n as nat);
                        }
                        return Err(error);
                    },
                }
            },
            None => {},
        }
        i = i + 1;
    }
    Ok(borrow_spec)
}

} // verus!
