//! What holds of the two conversions and of the validation, whatever the
//! document.

use vstd::prelude::*;
use crate::discovery::{MethodView, PropertyView, ResourceView, ResponseView};
use crate::error::{ConversionErrorView, FlawView};
use crate::field_assert::{presence_finding, unequal_message};
use crate::google_to_openapi::{
    add_methods_upto, add_to_path, default_responses, grouped, grouped_upto, method_convertible,
    openapi_ref, operation_of, operations_of, parameter_of, parameters_of, path_key, paths_of,
    plain_response, response_convertible, responses_of, success_response, with_method,
    NOT_FOUND_DESCRIPTION, SERVER_ERROR_DESCRIPTION,
};
use crate::openapi::{OperationView, OperationsView, ParameterView, Spec, SpecView};
use crate::openapi_to_google::{
    discovery_ref, group_path, groups_upto, is_request, is_success, lemma_request_index,
    method_of, method_parameters, method_response, method_verb, operation_name,
    ordinary_parameters, parameters_upto, request_index, resources_of, response_of, success_from,
    successful_response, Placed,
};
use crate::ordered_map::{
    has_key, lemma_position_from, lemma_upsert_lookup, lemma_upsert_sorted, lookup, position,
    position_from, sorted, upsert,
};
use crate::render::debug_text;
use crate::text::{
    first_index, last_index, last_segment, lemma_find_from, lemma_last_index_before, lex_less,
    second_segment, without_leading_slash,
};
use crate::validation::{
    fields_report, info_report, paths_report, spec_report, version_finding, OpenAPIValidation,
    ValidationOptions,
};
use crate::validation_results::{
    empty_report, merged, with_error, with_warning, Report, ValidationResults,
};

verus! {

/// What stands behind the last `c` of a text that ends in a name without
/// `c`, behind a prefix that ends in `c`, is the name.
proof fn lemma_last_segment_of_joined(prefix: Seq<char>, name: Seq<char>, c: char)
    requires
        prefix.len() > 0,
        prefix.last() == c,
        !name.contains(c),
    ensures
        last_segment(prefix + name, c) == name,
{
    let s = prefix + name;
    lemma_last_index_before(s, c, s.len() as int);
    let r = last_index(s, c);
    let at = prefix.len() - 1;
    assert(s[at] == c);
    if r > at {
        assert(s[r] == name[r - prefix.len()]);
        assert(name.contains(s[r]));
    }
    assert(r == at);
    assert(s.skip(r + 1) =~= name);
}

/// The second part of a text made of a first part without `c`, a `c`, and a
/// name without `c`, is the name.
proof fn lemma_second_segment_of_joined(first: Seq<char>, name: Seq<char>, c: char)
    requires
        !first.contains(c),
        !name.contains(c),
    ensures
        (first + seq![c] + name).contains(c),
        second_segment(first + seq![c] + name, c) == name,
{
    let s = first + seq![c] + name;
    lemma_find_from(s, c, 0);
    let at = first.len() as int;
    assert(s[at] == c);
    let r = first_index(s, c);
    if r < at {
        assert(s[r] == first[r]);
        assert(first.contains(s[r]));
    }
    assert(r == at);
    assert(s.skip(r + 1) =~= name);
    lemma_find_from(name, c, 0);
    let q = first_index(name, c);
    if q < name.len() {
        assert(name.contains(name[q]));
    }
    assert(name.take(q) =~= name);
}

/// A pointer into the definitions of an OpenAPI document that is rewritten
/// for Discovery and back is the same pointer again. This holds of every
/// pointer `#/definitions/<name>` whose name holds no `/`.
pub proof fn lemma_openapi_ref_round_trip(name: Seq<char>)
    requires
        !name.contains('/'),
    ensures
        openapi_ref(discovery_ref("#/definitions/"@ + name)) == "#/definitions/"@ + name,
{
    reveal_strlit("#/definitions/");
    reveal_strlit("schemas/");
    let prefix = "#/definitions/"@;
    assert(prefix.last() == '/');
    lemma_last_segment_of_joined(prefix, name, '/');
    let first = "schemas"@;
    reveal_strlit("schemas");
    assert(!first.contains('/')) by {
        if first.contains('/') {
            let j = choose|j: int| 0 <= j < first.len() && first[j] == '/';
            assert(first[j] == '/');
        }
    }
    assert("schemas/"@ =~= first + seq!['/']);
    lemma_second_segment_of_joined(first, name, '/');
    assert("schemas/"@ + name =~= first + seq!['/'] + name);
}

/// A pointer into the schemas of a Discovery document that is rewritten for
/// OpenAPI and back is the same pointer again. This holds of every pointer
/// `schemas/<name>` whose name holds no `/`.
pub proof fn lemma_discovery_ref_round_trip(name: Seq<char>)
    requires
        !name.contains('/'),
    ensures
        discovery_ref(openapi_ref("schemas/"@ + name)) == "schemas/"@ + name,
{
    reveal_strlit("#/definitions/");
    reveal_strlit("schemas/");
    reveal_strlit("schemas");
    let first = "schemas"@;
    assert(!first.contains('/')) by {
        if first.contains('/') {
            let j = choose|j: int| 0 <= j < first.len() && first[j] == '/';
            assert(first[j] == '/');
        }
    }
    assert("schemas/"@ + name =~= first + seq!['/'] + name);
    lemma_second_segment_of_joined(first, name, '/');
    let prefix = "#/definitions/"@;
    assert(prefix.last() == '/');
    lemma_last_segment_of_joined(prefix, name, '/');
}

/// Of two methods that go to the same verb of one path, the later one
/// stays: the operations are as if the earlier one had not been there.
pub proof fn lemma_later_method_wins(
    operations: OperationsView,
    earlier: MethodView,
    later: MethodView,
)
    requires
        verb_slot(earlier.http_method) is Some,
        verb_slot(earlier.http_method) == verb_slot(later.http_method),
    ensures
        with_method(with_method(operations, earlier), later) == with_method(operations, later),
{
    lemma_verbs_differ();
}

/// The verb under which the operation of a method stands in an OpenAPI
/// document, where there is one: the verb of the method, or `POST` for
/// `REPORT`.
pub open spec fn verb_slot(http_method: Seq<char>) -> Option<Seq<char>> {
    if http_method == "GET"@ {
        Some("GET"@)
    } else if http_method == "POST"@ || http_method == "REPORT"@ {
        Some("POST"@)
    } else if http_method == "PUT"@ {
        Some("PUT"@)
    } else if http_method == "PATCH"@ {
        Some("PATCH"@)
    } else if http_method == "DELETE"@ {
        Some("DELETE"@)
    } else if http_method == "OPTIONS"@ {
        Some("OPTIONS"@)
    } else if http_method == "HEAD"@ {
        Some("HEAD"@)
    } else {
        None
    }
}

/// The verbs that a path has a place for are seven different texts.
pub proof fn lemma_verbs_differ()
    ensures
        "GET"@ != "POST"@,
        "GET"@ != "PUT"@,
        "GET"@ != "PATCH"@,
        "GET"@ != "DELETE"@,
        "GET"@ != "OPTIONS"@,
        "GET"@ != "HEAD"@,
        "POST"@ != "PUT"@,
        "POST"@ != "PATCH"@,
        "POST"@ != "DELETE"@,
        "POST"@ != "OPTIONS"@,
        "POST"@ != "HEAD"@,
        "PUT"@ != "PATCH"@,
        "PUT"@ != "DELETE"@,
        "PUT"@ != "OPTIONS"@,
        "PUT"@ != "HEAD"@,
        "PATCH"@ != "DELETE"@,
        "PATCH"@ != "OPTIONS"@,
        "PATCH"@ != "HEAD"@,
        "DELETE"@ != "OPTIONS"@,
        "DELETE"@ != "HEAD"@,
        "OPTIONS"@ != "HEAD"@,
{
    reveal_strlit("GET");
    reveal_strlit("POST");
    reveal_strlit("PUT");
    reveal_strlit("PATCH");
    reveal_strlit("DELETE");
    reveal_strlit("OPTIONS");
    reveal_strlit("HEAD");
    assert("GET"@.len() == 3);
    assert("POST"@.len() == 4);
    assert("PUT"@.len() == 3);
    assert("PATCH"@.len() == 5);
    assert("DELETE"@.len() == 6);
    assert("OPTIONS"@.len() == 7);
    assert("HEAD"@.len() == 4);
    assert("GET"@[0] == 'G');
    assert("PUT"@[0] == 'P');
    assert("POST"@[0] == 'P');
    assert("HEAD"@[0] == 'H');
}

/// The parameters that a method gives to its operation all come back as
/// parameters of a method, none of them is taken for a request body, and
/// none has a flaw.
proof fn lemma_parameters_come_back(
    parameters: Seq<(Seq<char>, PropertyView)>,
    table: Seq<(Seq<char>, ParameterView)>,
    n: nat,
)
    requires
        n <= parameters.len(),
    ensures
        request_index(parameters_of(parameters)) == parameters.len(),
        parameters_upto(parameters_of(parameters), table, n) is Ok,
    decreases n,
{
    let list = parameters_of(parameters);
    lemma_request_index(list, 0);
    if request_index(list) < list.len() {
        assert(is_request(list[request_index(list)]));
    }
    if n > 0 {
        lemma_parameters_come_back(parameters, table, (n - 1) as nat);
        assert(list[n - 1] == parameter_of(parameters[n - 1].0, parameters[n - 1].1));
    }
}

/// The two responses that every operation has stand in the order of their
/// status codes, and a response under `200` stands before them.
proof fn lemma_responses_in_order(response: Option<ResponseView>)
    ensures
        default_responses() == seq![
            ("404"@, plain_response(NOT_FOUND_DESCRIPTION@)),
            ("500"@, plain_response(SERVER_ERROR_DESCRIPTION@)),
        ],
        response matches Some(declared) ==> responses_of(response) == seq![
            ("200"@, success_response(declared)),
            ("404"@, plain_response(NOT_FOUND_DESCRIPTION@)),
            ("500"@, plain_response(SERVER_ERROR_DESCRIPTION@)),
        ],
{
    reveal_strlit("404");
    reveal_strlit("500");
    reveal_strlit("200");
    let not_found = plain_response(NOT_FOUND_DESCRIPTION@);
    let server_error = plain_response(SERVER_ERROR_DESCRIPTION@);
    let none = Seq::<(Seq<char>, crate::openapi::ResponseView)>::empty();
    let one = upsert(none, "404"@, not_found);
    assert(position(none, "404"@) == 0);
    assert(one =~= seq![("404"@, not_found)]);
    assert(lex_less("404"@, "500"@));
    lemma_position_from(one, "500"@, 0);
    assert(position_from(one, "500"@, 1) == 1);
    assert(position(one, "500"@) == 1);
    let two = upsert(one, "500"@, server_error);
    assert(two =~= seq![("404"@, not_found), ("500"@, server_error)]);
    match response {
        Some(declared) => {
            assert(!lex_less("404"@, "200"@));
            assert(position(two, "200"@) == 0);
            assert("404"@[0] != "200"@[0]);
            assert(!has_key(two, "200"@));
            let three = upsert(two, "200"@, success_response(declared));
            assert(three =~= seq![
                ("200"@, success_response(declared)),
                ("404"@, not_found),
                ("500"@, server_error),
            ]);
        },
        None => {},
    }
}

/// The response that a method gives to its operation comes back without a
/// flaw.
proof fn lemma_response_comes_back(response: Option<ResponseView>)
    requires
        response matches Some(declared) ==> response_convertible(declared),
    ensures
        method_response(responses_of(response)) is Ok,
{
    reveal_strlit("404");
    reveal_strlit("500");
    reveal_strlit("200");
    lemma_responses_in_order(response);
    let responses = responses_of(response);
    match response {
        Some(declared) => {
            assert(is_success(responses[0]));
            assert(successful_response(responses) == Some(success_response(declared)));
            assert(response_of(success_response(declared)) is Ok);
        },
        None => {
            assert(!is_success(responses[0]));
            assert(!is_success(responses[1]));
            assert(success_from(responses, 2) is None);
            assert(success_from(responses, 1) is None);
            assert(successful_response(responses) is None);
        },
    }
}

/// A method that goes to OpenAPI and comes back keeps its id and its path,
/// and its verb is the one under which its operation stood, or `REPORT`
/// where its bare name is `report`.
///
/// So the verb comes back unchanged for every method whose verb OpenAPI has
/// and whose bare name is not `report`, and for every method with the verb
/// `REPORT` whose bare name is `report`.
pub proof fn lemma_method_round_trip(method: MethodView, table: Seq<(Seq<char>, ParameterView)>)
    requires
        method_convertible(method),
        verb_slot(method.http_method) is Some,
    ensures
        ({
            let verb = verb_slot(method.http_method)->0;
            let back = method_of(
                without_leading_slash(path_key(method.path)),
                verb,
                operation_of(method),
                table,
            );
            &&& back matches Ok(recovered)
            &&& recovered.id == method.id
            &&& recovered.path == method.path
            &&& recovered.http_method == method_verb(method.id, verb)
            &&& operation_name(method.id) != "report"@ && method.http_method != "REPORT"@
                ==> recovered.http_method == method.http_method
            &&& operation_name(method.id) == "report"@ && method.http_method == "REPORT"@
                ==> recovered.http_method == method.http_method
        }),
{
    reveal_strlit("/");
    assert(without_leading_slash(path_key(method.path)) =~= method.path);
    let operation = operation_of(method);
    match method.parameters {
        Some(parameters) => {
            lemma_parameters_come_back(parameters, table, parameters.len());
            assert(ordinary_parameters(parameters_of(parameters)) == parameters_of(parameters));
        },
        None => {},
    }
    assert(method_parameters(operation.parameters, table) is Ok);
    lemma_response_comes_back(method.response);
}

/// Whether the operation that stands under a verb, if there is one, has no
/// id.
pub open spec fn lacks_id(operation: Option<OperationView>) -> bool {
    match operation {
        Some(op) => op.operation_id is None,
        None => false,
    }
}

/// Whether one of the operations of a path has no id.
pub open spec fn path_lacks_id(operations: OperationsView) -> bool {
    ||| lacks_id(operations.get)
    ||| lacks_id(operations.post)
    ||| lacks_id(operations.put)
    ||| lacks_id(operations.patch)
    ||| lacks_id(operations.delete)
    ||| lacks_id(operations.options)
    ||| lacks_id(operations.head)
}

/// Whether an error says that an operation at `path` has no id.
pub open spec fn reports_missing_id(error: ConversionErrorView, path: Seq<char>) -> bool {
    match error {
        ConversionErrorView::Operation { path: at, verb, flaw } => at == path
            && flaw == FlawView::MissingOperationId,
        _ => false,
    }
}

/// The operations of a path can be grouped exactly when each has an id, and
/// the failure names the path.
proof fn lemma_group_path_needs_ids(
    groups: Seq<(Seq<char>, Seq<Placed>)>,
    path: Seq<char>,
    operations: OperationsView,
)
    ensures
        match group_path(groups, path, operations) {
            Ok(_) => !path_lacks_id(operations),
            Err(error) => path_lacks_id(operations) && reports_missing_id(error, path),
        },
{
}

/// Whatever keeps the operations of a document from being grouped is an
/// operation without id, and the error names its path.
proof fn lemma_groups_fail_on_missing_id(paths: Seq<(Seq<char>, OperationsView)>, n: nat)
    requires
        n <= paths.len(),
    ensures
        match groups_upto(paths, n) {
            Ok(_) => forall|j: int| 0 <= j < n ==> !path_lacks_id(#[trigger] paths[j].1),
            Err(error) => exists|j: int|
                0 <= j < n && path_lacks_id(#[trigger] paths[j].1) && reports_missing_id(
                    error,
                    paths[j].0,
                ),
        },
    decreases n,
{
    if n > 0 {
        lemma_groups_fail_on_missing_id(paths, (n - 1) as nat);
        match groups_upto(paths, (n - 1) as nat) {
            Ok(groups) => {
                lemma_group_path_needs_ids(groups, paths[n - 1].0, paths[n - 1].1);
                match groups_upto(paths, n) {
                    Ok(_) => {},
                    Err(error) => {
                        assert(path_lacks_id(paths[n - 1].1) && reports_missing_id(
                            error,
                            paths[n - 1].0,
                        ));
                    },
                }
            },
            Err(error) => {
                let j = choose|j: int|
                    0 <= j < n - 1 && path_lacks_id(#[trigger] paths[j].1) && reports_missing_id(
                        error,
                        paths[j].0,
                    );
                assert(path_lacks_id(paths[j].1) && reports_missing_id(error, paths[j].0));
            },
        }
    }
}

/// A document in which an operation has no id cannot be converted: the
/// conversion of its paths fails, and the error names the path of an
/// operation without id.
pub proof fn lemma_missing_id_fails(
    paths: Seq<(Seq<char>, OperationsView)>,
    table: Seq<(Seq<char>, ParameterView)>,
    i: int,
)
    requires
        0 <= i < paths.len(),
        path_lacks_id(paths[i].1),
    ensures
        resources_of(paths, table) matches Err(error) && exists|j: int|
            0 <= j < paths.len() && path_lacks_id(#[trigger] paths[j].1) && reports_missing_id(
                error,
                paths[j].0,
            ),
{
    lemma_groups_fail_on_missing_id(paths, paths.len());
}

/// Whether the first error of a report is `complaint`.
pub open spec fn first_error_is(report: Report, complaint: Seq<char>) -> bool {
    report.errors.len() > 0 && report.errors[0] == complaint
}

/// What is found later does not change the first error of a report.
proof fn lemma_first_error_stays(report: Report, complaint: Seq<char>)
    requires
        first_error_is(report, complaint),
    ensures
        forall|found: Option<Seq<char>>|
            first_error_is(#[trigger] with_error(report, found), complaint),
        forall|found: Option<Seq<char>>|
            first_error_is(#[trigger] with_warning(report, found), complaint),
        forall|other: Report| first_error_is(#[trigger] merged(report, other), complaint),
{
}

/// A document whose version is not `2.0` fails the validation, and the first
/// error is the complaint about the version.
pub proof fn lemma_wrong_version_fails(spec: SpecView, options: ValidationOptions)
    requires
        spec.swagger != "2.0"@,
    ensures
        first_error_is(
            spec_report(spec, options),
            unequal_message("version"@, debug_text("2.0"@), Some(debug_text(spec.swagger))),
        ),
{
    let complaint = unequal_message(
        "version"@,
        debug_text("2.0"@),
        Some(debug_text(spec.swagger)),
    );
    let fields = fields_report(spec);
    assert(first_error_is(fields, complaint)) by {
        let first = with_error(empty_report(), version_finding(spec.swagger));
        assert(first_error_is(first, complaint));
        lemma_first_error_stays(first, complaint);
    }
    lemma_first_error_stays(fields, complaint);
    let with_info = merged(fields, info_report(spec.info, options));
    lemma_first_error_stays(with_info, complaint);
    let with_paths = merged(with_info, paths_report(spec.paths, options));
    lemma_first_error_stays(with_paths, complaint);
    let with_definitions = with_warning(
        with_paths,
        presence_finding("definitions block"@, spec.definitions is Some),
    );
    lemma_first_error_stays(with_definitions, complaint);
}

/// The methods of a resource without their names, in the order of the names.
pub open spec fn method_values(methods: Seq<(Seq<char>, MethodView)>) -> Seq<MethodView> {
    Seq::new(methods.len(), |i: int| methods[i].1)
}

/// All methods of the first `n` resources of a document, in the order in
/// which they are processed: the resources in their order, and the methods
/// of each in theirs.
pub open spec fn all_methods_upto(resources: Seq<(Seq<char>, ResourceView)>, n: nat) -> Seq<
    MethodView,
>
    decreases n,
{
    if n == 0 {
        Seq::empty()
    } else {
        all_methods_upto(resources, (n - 1) as nat) + method_values(resources[n - 1].1.methods)
    }
}

/// All methods of a document, in the order in which they are processed.
pub open spec fn all_methods(resources: Seq<(Seq<char>, ResourceView)>) -> Seq<MethodView> {
    all_methods_upto(resources, resources.len())
}

/// Whether a method stands at the path `key` of an OpenAPI document.
pub open spec fn at_path(key: Seq<char>) -> spec_fn(MethodView) -> bool {
    |method: MethodView| path_key(method.path) == key
}

/// Whether the methods by path are those of `all`: under each path exactly
/// the methods of `all` that stand at it, in the order of `all`, and no
/// path without a method.
spec fn grouped_as(groups: Seq<(Seq<char>, Seq<MethodView>)>, all: Seq<MethodView>) -> bool {
    &&& sorted(groups)
    &&& forall|key: Seq<char>| #[trigger]
        lookup(groups, key) == if all.filter(at_path(key)).len() > 0 {
            Some(all.filter(at_path(key)))
        } else {
            None
        }
}

proof fn lemma_add_grouped(
    groups: Seq<(Seq<char>, Seq<MethodView>)>,
    all: Seq<MethodView>,
    method: MethodView,
)
    requires
        grouped_as(groups, all),
    ensures
        grouped_as(add_to_path(groups, method), all.push(method)),
{
    let at = path_key(method.path);
    let members = match lookup(groups, at) {
        Some(members) => members.push(method),
        None => seq![method],
    };
    lemma_upsert_sorted(groups, at, members);
    assert forall|key: Seq<char>| #[trigger]
        lookup(add_to_path(groups, method), key) == if all.push(method).filter(
            at_path(key),
        ).len() > 0 {
            Some(all.push(method).filter(at_path(key)))
        } else {
            None
        } by {
        lemma_upsert_lookup(groups, at, members, key);
        all.lemma_filter_push(method, at_path(key));
        assert(lookup(groups, key) == if all.filter(at_path(key)).len() > 0 {
            Some(all.filter(at_path(key)))
        } else {
            None
        });
        if key == at {
            assert(at_path(key)(method));
            if all.filter(at_path(key)).len() == 0 {
                assert(all.filter(at_path(key)).push(method) =~= seq![method]);
            }
        } else {
            assert(!at_path(key)(method));
        }
    }
}

proof fn lemma_add_methods_grouped(
    groups: Seq<(Seq<char>, Seq<MethodView>)>,
    all: Seq<MethodView>,
    methods: Seq<(Seq<char>, MethodView)>,
    n: nat,
)
    requires
        grouped_as(groups, all),
        n <= methods.len(),
    ensures
        grouped_as(
            add_methods_upto(groups, methods, n),
            all + method_values(methods).take(n as int),
        ),
    decreases n,
{
    if n == 0 {
        assert(all + method_values(methods).take(0) =~= all);
    } else {
        lemma_add_methods_grouped(groups, all, methods, (n - 1) as nat);
        let before = all + method_values(methods).take(n - 1);
        lemma_add_grouped(
            add_methods_upto(groups, methods, (n - 1) as nat),
            before,
            methods[n - 1].1,
        );
        assert(before.push(methods[n - 1].1) =~= all + method_values(methods).take(n as int));
    }
}

proof fn lemma_grouped_upto_by_path(resources: Seq<(Seq<char>, ResourceView)>, n: nat)
    requires
        n <= resources.len(),
    ensures
        grouped_as(grouped_upto(resources, n), all_methods_upto(resources, n)),
    decreases n,
{
    if n == 0 {
        let none = Seq::<MethodView>::empty();
        assert forall|key: Seq<char>| none.filter(at_path(key)).len() == 0 by {
            none.lemma_filter_len(at_path(key));
        }
    } else {
        lemma_grouped_upto_by_path(resources, (n - 1) as nat);
        let methods = resources[n - 1].1.methods;
        lemma_add_methods_grouped(
            grouped_upto(resources, (n - 1) as nat),
            all_methods_upto(resources, (n - 1) as nat),
            methods,
            methods.len(),
        );
        assert(method_values(methods).take(methods.len() as int) =~= method_values(methods));
    }
}

/// The paths of a converted document are the paths of the methods, and
/// under each path stand the operations of exactly the methods with that
/// path, placed in the order in which the methods are processed.
pub proof fn lemma_paths_by_method(resources: Seq<(Seq<char>, ResourceView)>, key: Seq<char>)
    ensures
        lookup(paths_of(resources), key) == if all_methods(resources).filter(at_path(key)).len()
            > 0 {
            Some(operations_of(all_methods(resources).filter(at_path(key))))
        } else {
            None
        },
{
    lemma_grouped_upto_by_path(resources, resources.len());
    crate::round_trip::lemma_paths_lookup(resources, key);
    assert(lookup(grouped(resources), key) == if all_methods(resources).filter(
        at_path(key),
    ).len() > 0 {
        Some(all_methods(resources).filter(at_path(key)))
    } else {
        None
    });
}

/// The paths of a converted document stand in order, so that no path occurs
/// twice: all methods that share a path share its one entry, which has one
/// place for each verb.
pub proof fn lemma_paths_are_sorted(resources: Seq<(Seq<char>, ResourceView)>)
    ensures
        sorted(paths_of(resources)),
{
    crate::round_trip::lemma_grouped_sorted(resources, resources.len());
    let groups = grouped(resources);
    let paths = paths_of(resources);
    assert forall|i: int, j: int| 0 <= i < j < paths.len() implies lex_less(
        #[trigger] paths[i].0,
        #[trigger] paths[j].0,
    ) by {
        assert(paths[i].0 == groups[i].0);
        assert(paths[j].0 == groups[j].0);
    }
}

/// A validation of the same document with the same options finds the same
/// every time: the same errors and the same warnings, in the same order.
pub proof fn lemma_validation_repeatable(
    spec: Spec,
    options: ValidationOptions,
    first: ValidationResults,
    second: ValidationResults,
)
    requires
        first@ == spec.report(options),
        second@ == spec.report(options),
    ensures
        first@.errors == second@.errors,
        first@.warnings == second@.warnings,
{
}

} // verus!
