//! A method of a Discovery document that goes to OpenAPI and comes back.
//!
//! On the way to OpenAPI a method may be replaced by a later method that
//! shares its path and its verb; on the way back an operation may be replaced
//! by a later one that shares its group and its name. A method that neither
//! happens to is found again, under the group and the name that its id gives,
//! with its id, its path and its verb.

use vstd::prelude::*;
use crate::discovery::{MethodView, ResourceView};
use crate::error::ConversionErrorView;
use crate::google_to_openapi::{
    add_methods_upto, add_to_path, grouped, grouped_upto, method_convertible, operation_of,
    operations_of, operations_upto, path_key, paths_of, resource_convertible, with_method,
};
use crate::laws::{lemma_method_round_trip, lemma_verbs_differ, verb_slot};
use crate::openapi::{OperationView, OperationsView, ParameterView};
use crate::openapi_to_google::{
    add_to_group, group_path, groups_of, groups_upto, method_of, method_verb, operation_group,
    operation_name, resource_of, resource_upto, resources_of, resources_upto, Placed,
};
use crate::ordered_map::{
    lemma_position_from, lemma_same_keys, lemma_upsert_entries, lemma_upsert_lookup,
    lemma_upsert_sorted, lookup, position, sorted, upsert,
};
use crate::text::{lemma_lex_irreflexive, lex_less, without_leading_slash};

verus! {

/// The operation that stands under a verb of a path.
pub open spec fn operation_under(operations: OperationsView, verb: Seq<char>) -> Option<
    OperationView,
> {
    if verb == "GET"@ {
        operations.get
    } else if verb == "POST"@ {
        operations.post
    } else if verb == "PUT"@ {
        operations.put
    } else if verb == "PATCH"@ {
        operations.patch
    } else if verb == "DELETE"@ {
        operations.delete
    } else if verb == "OPTIONS"@ {
        operations.options
    } else if verb == "HEAD"@ {
        operations.head
    } else {
        None
    }
}

/// Whether two methods go to the same verb of the same path.
pub open spec fn same_place(a: MethodView, b: MethodView) -> bool {
    path_key(a.path) == path_key(b.path) && verb_slot(a.http_method) == verb_slot(b.http_method)
}

/// Whether `method` is among the methods of a path and no method behind it
/// goes to the same verb.
pub open spec fn stays_last(members: Seq<MethodView>, method: MethodView) -> bool {
    exists|i: int|
        0 <= i < members.len() && #[trigger] members[i] == method && forall|j: int|
            i < j < members.len() ==> verb_slot((#[trigger] members[j]).http_method) != verb_slot(
                method.http_method,
            )
}

/// Whether the methods of the path of `method` hold it, with no method
/// behind it that goes to the same verb.
pub open spec fn holds(groups: Seq<(Seq<char>, Seq<MethodView>)>, method: MethodView) -> bool {
    match lookup(groups, path_key(method.path)) {
        Some(members) => stays_last(members, method),
        None => false,
    }
}

/// What `add_to_path` puts under the path of the method it adds.
pub open spec fn members_with(
    groups: Seq<(Seq<char>, Seq<MethodView>)>,
    method: MethodView,
) -> Seq<MethodView> {
    match lookup(groups, path_key(method.path)) {
        Some(members) => members.push(method),
        None => seq![method],
    }
}

proof fn lemma_add_keeps(
    groups: Seq<(Seq<char>, Seq<MethodView>)>,
    method: MethodView,
    other: MethodView,
)
    requires
        sorted(groups),
        holds(groups, method),
        !same_place(other, method),
    ensures
        holds(add_to_path(groups, other), method),
        sorted(add_to_path(groups, other)),
{
    let key = path_key(method.path);
    let added = members_with(groups, other);
    lemma_upsert_lookup(groups, path_key(other.path), added, key);
    lemma_upsert_sorted(groups, path_key(other.path), added);
    if path_key(other.path) == key {
        let members = lookup(groups, key)->0;
        let i = choose|i: int|
            0 <= i < members.len() && #[trigger] members[i] == method && forall|j: int|
                i < j < members.len() ==> verb_slot((#[trigger] members[j]).http_method)
                    != verb_slot(method.http_method);
        assert(added[i] == method);
        assert forall|j: int| i < j < added.len() implies verb_slot(
            (#[trigger] added[j]).http_method,
        ) != verb_slot(method.http_method) by {
            if j < members.len() {
                assert(added[j] == members[j]);
            }
        }
        assert(stays_last(added, method));
    }
}

proof fn lemma_add_places(groups: Seq<(Seq<char>, Seq<MethodView>)>, method: MethodView)
    requires
        sorted(groups),
    ensures
        holds(add_to_path(groups, method), method),
        sorted(add_to_path(groups, method)),
{
    let key = path_key(method.path);
    let added = members_with(groups, method);
    lemma_upsert_lookup(groups, key, added, key);
    lemma_upsert_sorted(groups, key, added);
    assert(added[added.len() - 1] == method);
    assert(stays_last(added, method));
}

proof fn lemma_add_methods_keeps(
    groups: Seq<(Seq<char>, Seq<MethodView>)>,
    methods: Seq<(Seq<char>, MethodView)>,
    n: nat,
    method: MethodView,
)
    requires
        sorted(groups),
        holds(groups, method),
        n <= methods.len(),
        forall|j: int| 0 <= j < n ==> !same_place((#[trigger] methods[j]).1, method),
    ensures
        holds(add_methods_upto(groups, methods, n), method),
        sorted(add_methods_upto(groups, methods, n)),
    decreases n,
{
    if n > 0 {
        lemma_add_methods_keeps(groups, methods, (n - 1) as nat, method);
        assert(!same_place(methods[n - 1].1, method));
        lemma_add_keeps(
            add_methods_upto(groups, methods, (n - 1) as nat),
            method,
            methods[n - 1].1,
        );
    }
}

proof fn lemma_add_methods_sorted(
    groups: Seq<(Seq<char>, Seq<MethodView>)>,
    methods: Seq<(Seq<char>, MethodView)>,
    n: nat,
)
    requires
        sorted(groups),
    ensures
        sorted(add_methods_upto(groups, methods, n)),
    decreases n,
{
    if n > 0 {
        lemma_add_methods_sorted(groups, methods, (n - 1) as nat);
        let before = add_methods_upto(groups, methods, (n - 1) as nat);
        lemma_upsert_sorted(
            before,
            path_key(methods[n - 1].1.path),
            members_with(before, methods[n - 1].1),
        );
    }
}

proof fn lemma_add_methods_places(
    groups: Seq<(Seq<char>, Seq<MethodView>)>,
    methods: Seq<(Seq<char>, MethodView)>,
    n: nat,
    k: int,
)
    requires
        sorted(groups),
        0 <= k < n <= methods.len(),
        forall|j: int| k < j < n ==> !same_place((#[trigger] methods[j]).1, methods[k].1),
    ensures
        holds(add_methods_upto(groups, methods, n), methods[k].1),
        sorted(add_methods_upto(groups, methods, n)),
    decreases n,
{
    let before = add_methods_upto(groups, methods, (n - 1) as nat);
    if n == k + 1 {
        lemma_add_methods_sorted(groups, methods, (n - 1) as nat);
        lemma_add_places(before, methods[k].1);
    } else {
        lemma_add_methods_places(groups, methods, (n - 1) as nat, k);
        assert(!same_place(methods[n - 1].1, methods[k].1));
        lemma_add_keeps(before, methods[k].1, methods[n - 1].1);
    }
}

/// The methods of a document by their path stand in the order of the paths.
pub proof fn lemma_grouped_sorted(resources: Seq<(Seq<char>, ResourceView)>, n: nat)
    ensures
        sorted(grouped_upto(resources, n)),
    decreases n,
{
    if n > 0 {
        lemma_grouped_sorted(resources, (n - 1) as nat);
        lemma_add_methods_sorted(
            grouped_upto(resources, (n - 1) as nat),
            resources[n - 1].1.methods,
            resources[n - 1].1.methods.len(),
        );
    }
}

/// Whether no method that is processed after the method at `k` of the
/// resource at `r` goes to the same verb of the same path.
pub open spec fn none_replaces(resources: Seq<(Seq<char>, ResourceView)>, r: int, k: int) -> bool {
    forall|r2: int, k2: int|
        0 <= r2 < resources.len() && 0 <= k2 < resources[r2].1.methods.len() && (r2 > r || (r2 == r
            && k2 > k)) ==> !same_place(
            (#[trigger] resources[r2].1.methods[k2]).1,
            resources[r].1.methods[k].1,
        )
}

proof fn lemma_grouped_holds(resources: Seq<(Seq<char>, ResourceView)>, n: nat, r: int, k: int)
    requires
        0 <= r < n <= resources.len(),
        0 <= k < resources[r].1.methods.len(),
        none_replaces(resources, r, k),
    ensures
        holds(grouped_upto(resources, n), resources[r].1.methods[k].1),
    decreases n,
{
    let method = resources[r].1.methods[k].1;
    let before = grouped_upto(resources, (n - 1) as nat);
    let methods = resources[n - 1].1.methods;
    lemma_grouped_sorted(resources, (n - 1) as nat);
    if n == r + 1 {
        assert forall|j: int| k < j < methods.len() implies !same_place(
            (#[trigger] methods[j]).1,
            methods[k].1,
        ) by {
            assert(!same_place(resources[r].1.methods[j].1, method));
        }
        lemma_add_methods_places(before, methods, methods.len(), k);
    } else {
        lemma_grouped_holds(resources, (n - 1) as nat, r, k);
        assert forall|j: int| 0 <= j < methods.len() implies !same_place(
            (#[trigger] methods[j]).1,
            method,
        ) by {
            assert(!same_place(resources[n - 1].1.methods[j].1, method));
        }
        lemma_add_methods_keeps(before, methods, methods.len(), method);
    }
}

/// The operation under a verb after one more method was placed: the
/// operation of the method where it goes to that verb, else what was there.
pub proof fn lemma_with_method_under(
    operations: OperationsView,
    method: MethodView,
    verb: Seq<char>,
)
    ensures
        operation_under(with_method(operations, method), verb) == if verb_slot(method.http_method)
            == Some(verb) {
            Some(operation_of(method))
        } else {
            operation_under(operations, verb)
        },
{
    lemma_verbs_differ();
}

/// Of the methods that share a path, the last one that goes to a verb has
/// its operation there.
pub proof fn lemma_operations_hold_last(members: Seq<MethodView>, n: nat, i: int)
    requires
        0 <= i < n <= members.len(),
        verb_slot(members[i].http_method) is Some,
        forall|j: int|
            i < j < n ==> verb_slot((#[trigger] members[j]).http_method) != verb_slot(
                members[i].http_method,
            ),
    ensures
        operation_under(operations_upto(members, n), verb_slot(members[i].http_method)->0) == Some(
            operation_of(members[i]),
        ),
    decreases n,
{
    let verb = verb_slot(members[i].http_method)->0;
    lemma_with_method_under(operations_upto(members, (n - 1) as nat), members[n - 1], verb);
    if n > i + 1 {
        lemma_operations_hold_last(members, (n - 1) as nat, i);
        assert(verb_slot(members[n - 1].http_method) != verb_slot(members[i].http_method));
    }
}

/// The operations of a path are those of the methods that share the path.
pub proof fn lemma_paths_lookup(resources: Seq<(Seq<char>, ResourceView)>, key: Seq<char>)
    ensures
        lookup(paths_of(resources), key) == match lookup(grouped(resources), key) {
            Some(members) => Some(operations_of(members)),
            None => None,
        },
        sorted(paths_of(resources)),
{
    lemma_grouped_sorted(resources, resources.len());
    lemma_same_keys(grouped(resources), paths_of(resources), key);
    lemma_position_from(grouped(resources), key, 0);
}

/// A method that no later method replaces has its operation in the OpenAPI
/// document: under its path, at the place of its verb.
pub proof fn lemma_document_holds_method(resources: Seq<(Seq<char>, ResourceView)>, r: int, k: int)
    requires
        0 <= r < resources.len(),
        0 <= k < resources[r].1.methods.len(),
        verb_slot(resources[r].1.methods[k].1.http_method) is Some,
        none_replaces(resources, r, k),
    ensures
        ({
            let method = resources[r].1.methods[k].1;
            &&& lookup(paths_of(resources), path_key(method.path)) matches Some(operations)
            &&& operation_under(operations, verb_slot(method.http_method)->0) == Some(
                operation_of(method),
            )
        }),
{
    let method = resources[r].1.methods[k].1;
    lemma_grouped_holds(resources, resources.len(), r, k);
    lemma_paths_lookup(resources, path_key(method.path));
    let members = lookup(grouped(resources), path_key(method.path))->0;
    let i = choose|i: int|
        0 <= i < members.len() && #[trigger] members[i] == method && forall|j: int|
            i < j < members.len() ==> verb_slot((#[trigger] members[j]).http_method) != verb_slot(
                method.http_method,
            );
    lemma_operations_hold_last(members, members.len(), i);
}

/// Whether an operation that stands at a path under a verb can become a
/// method: it has an id, and the conversion finds no flaw in it.
pub open spec fn sound(x: Placed, table: Seq<(Seq<char>, ParameterView)>) -> bool {
    x.2.operation_id is Some && method_of(without_leading_slash(x.0), x.1, x.2, table) is Ok
}

/// The group that the id of an operation names.
pub open spec fn group_of(x: Placed) -> Seq<char> {
    operation_group(x.2.operation_id->0)
}

/// The bare name that the id of an operation gives.
pub open spec fn name_of(x: Placed) -> Seq<char> {
    operation_name(x.2.operation_id->0)
}

/// Whether two operations differ in their group or in their bare name.
pub open spec fn differs(y: Placed, x: Placed) -> bool {
    group_of(y) != group_of(x) || name_of(y) != name_of(x)
}

spec fn all_sound(
    groups: Seq<(Seq<char>, Seq<Placed>)>,
    table: Seq<(Seq<char>, ParameterView)>,
) -> bool {
    forall|g: int, j: int|
        0 <= g < groups.len() && 0 <= j < groups[g].1.len() ==> sound(
            #[trigger] groups[g].1[j],
            table,
        )
}

spec fn only(members: Seq<Placed>, x: Placed) -> bool {
    members.contains(x) && forall|j: int|
        0 <= j < members.len() ==> #[trigger] members[j] == x || name_of(members[j]) != name_of(x)
}

spec fn in_state(groups: Seq<(Seq<char>, Seq<Placed>)>, x: Placed, placed: bool) -> bool {
    match lookup(groups, group_of(x)) {
        Some(members) => if placed {
            only(members, x)
        } else {
            forall|j: int| 0 <= j < members.len() ==> name_of(#[trigger] members[j]) != name_of(x)
        },
        None => !placed,
    }
}

spec fn slot_fine(
    path: Seq<char>,
    verb: Seq<char>,
    operation: Option<OperationView>,
    x: Placed,
    here: bool,
    table: Seq<(Seq<char>, ParameterView)>,
) -> bool {
    match operation {
        Some(op) => sound((path, verb, op), table) && (if here && verb == x.1 {
            path == x.0 && op == x.2
        } else {
            differs((path, verb, op), x)
        }),
        None => !(here && verb == x.1),
    }
}

spec fn path_fine(
    path: Seq<char>,
    operations: OperationsView,
    x: Placed,
    here: bool,
    table: Seq<(Seq<char>, ParameterView)>,
) -> bool {
    &&& slot_fine(path, "GET"@, operations.get, x, here, table)
    &&& slot_fine(path, "POST"@, operations.post, x, here, table)
    &&& slot_fine(path, "PUT"@, operations.put, x, here, table)
    &&& slot_fine(path, "PATCH"@, operations.patch, x, here, table)
    &&& slot_fine(path, "DELETE"@, operations.delete, x, here, table)
    &&& slot_fine(path, "OPTIONS"@, operations.options, x, here, table)
    &&& slot_fine(path, "HEAD"@, operations.head, x, here, table)
    &&& here ==> is_verb(x.1)
}

/// Whether a text is one of the verbs that a path has a place for.
pub open spec fn is_verb(verb: Seq<char>) -> bool {
    ||| verb == "GET"@
    ||| verb == "POST"@
    ||| verb == "PUT"@
    ||| verb == "PATCH"@
    ||| verb == "DELETE"@
    ||| verb == "OPTIONS"@
    ||| verb == "HEAD"@
}

proof fn lemma_group_step(
    groups: Seq<(Seq<char>, Seq<Placed>)>,
    path: Seq<char>,
    verb: Seq<char>,
    operation: Option<OperationView>,
    x: Placed,
    placed: bool,
    here: bool,
    table: Seq<(Seq<char>, ParameterView)>,
)
    requires
        sorted(groups),
        all_sound(groups, table),
        in_state(groups, x, placed),
        x.2.operation_id is Some,
        slot_fine(path, verb, operation, x, here, table),
        here && verb == x.1 ==> !placed,
    ensures
        add_to_group(groups, path, verb, operation) matches Ok(after) && sorted(after)
            && all_sound(after, table) && in_state(after, x, placed || (here && verb == x.1)),
{
    match operation {
        None => {},
        Some(op) => {
            let y: Placed = (path, verb, op);
            let group = group_of(y);
            let members = match lookup(groups, group) {
                Some(members) => members.push(y),
                None => seq![y],
            };
            let after = upsert(groups, group, members);
            assert(add_to_group(groups, path, verb, operation) == Ok::<
                Seq<(Seq<char>, Seq<Placed>)>,
                ConversionErrorView,
            >(after));
            lemma_upsert_sorted(groups, group, members);
            lemma_upsert_entries(groups, group, members);
            lemma_position_from(groups, group, 0);
            assert forall|j: int| 0 <= j < members.len() implies sound(
                #[trigger] members[j],
                table,
            ) by {
                match lookup(groups, group) {
                    Some(old_members) => {
                        let p = position(groups, group);
                        assert(groups[p].1 == old_members);
                        if j < old_members.len() {
                            assert(members[j] == groups[p].1[j]);
                        }
                    },
                    None => {},
                }
            }
            assert forall|g: int, j: int|
                0 <= g < after.len() && 0 <= j < after[g].1.len() implies sound(
                #[trigger] after[g].1[j],
                table,
            ) by {
                if after[g] == (group, members) {
                    assert(after[g].1[j] == members[j]);
                } else {
                    let at = choose|at: int| 0 <= at < groups.len() && groups[at] == after[g];
                    assert(after[g].1[j] == groups[at].1[j]);
                }
            }
            lemma_upsert_lookup(groups, group, members, group_of(x));
            if group == group_of(x) {
                if here && verb == x.1 {
                    assert(y == x);
                    assert(members[members.len() - 1] == x);
                    assert(members.contains(x));
                    assert forall|j: int| 0 <= j < members.len() implies #[trigger] members[j] == x
                        || name_of(members[j]) != name_of(x) by {
                        match lookup(groups, group) {
                            Some(old_members) => {
                                if j < old_members.len() {
                                    assert(members[j] == old_members[j]);
                                }
                            },
                            None => {},
                        }
                    }
                } else {
                    assert(name_of(y) != name_of(x));
                    match lookup(groups, group) {
                        Some(old_members) => {
                            if placed {
                                let i = choose|i: int|
                                    0 <= i < old_members.len() && old_members[i] == x;
                                assert(members[i] == x);
                                assert(members.contains(x));
                                assert forall|j: int|
                                    0 <= j < members.len() implies #[trigger] members[j] == x
                                    || name_of(members[j]) != name_of(x) by {
                                    if j < old_members.len() {
                                        assert(members[j] == old_members[j]);
                                    }
                                }
                            } else {
                                assert forall|j: int| 0 <= j < members.len() implies name_of(
                                    #[trigger] members[j],
                                ) != name_of(x) by {
                                    if j < old_members.len() {
                                        assert(members[j] == old_members[j]);
                                    }
                                }
                            }
                        },
                        None => {},
                    }
                }
            }
        },
    }
}

proof fn lemma_group_path_step(
    groups: Seq<(Seq<char>, Seq<Placed>)>,
    path: Seq<char>,
    operations: OperationsView,
    x: Placed,
    placed: bool,
    here: bool,
    table: Seq<(Seq<char>, ParameterView)>,
)
    requires
        sorted(groups),
        all_sound(groups, table),
        in_state(groups, x, placed),
        x.2.operation_id is Some,
        path_fine(path, operations, x, here, table),
        here ==> !placed,
    ensures
        group_path(groups, path, operations) matches Ok(after) && sorted(after) && all_sound(
            after,
            table,
        ) && in_state(after, x, placed || here),
{
    lemma_verbs_differ();
    let v = x.1;
    lemma_group_step(groups, path, "GET"@, operations.get, x, placed, here, table);
    let after_get = add_to_group(groups, path, "GET"@, operations.get)->Ok_0;
    let placed_get = placed || (here && v == "GET"@);
    lemma_group_step(after_get, path, "POST"@, operations.post, x, placed_get, here, table);
    let after_post = add_to_group(after_get, path, "POST"@, operations.post)->Ok_0;
    let placed_post = placed_get || (here && v == "POST"@);
    lemma_group_step(after_post, path, "PUT"@, operations.put, x, placed_post, here, table);
    let after_put = add_to_group(after_post, path, "PUT"@, operations.put)->Ok_0;
    let placed_put = placed_post || (here && v == "PUT"@);
    lemma_group_step(after_put, path, "PATCH"@, operations.patch, x, placed_put, here, table);
    let after_patch = add_to_group(after_put, path, "PATCH"@, operations.patch)->Ok_0;
    let placed_patch = placed_put || (here && v == "PATCH"@);
    lemma_group_step(
        after_patch,
        path,
        "DELETE"@,
        operations.delete,
        x,
        placed_patch,
        here,
        table,
    );
    let after_delete = add_to_group(after_patch, path, "DELETE"@, operations.delete)->Ok_0;
    let placed_delete = placed_patch || (here && v == "DELETE"@);
    lemma_group_step(
        after_delete,
        path,
        "OPTIONS"@,
        operations.options,
        x,
        placed_delete,
        here,
        table,
    );
    let after_options = add_to_group(after_delete, path, "OPTIONS"@, operations.options)->Ok_0;
    let placed_options = placed_delete || (here && v == "OPTIONS"@);
    lemma_group_step(
        after_options,
        path,
        "HEAD"@,
        operations.head,
        x,
        placed_options,
        here,
        table,
    );
}

proof fn lemma_groups_track(
    paths: Seq<(Seq<char>, OperationsView)>,
    n: nat,
    x: Placed,
    at: int,
    table: Seq<(Seq<char>, ParameterView)>,
)
    requires
        n <= paths.len(),
        0 <= at < paths.len(),
        x.2.operation_id is Some,
        forall|j: int|
            0 <= j < paths.len() ==> path_fine(
                (#[trigger] paths[j]).0,
                paths[j].1,
                x,
                j == at,
                table,
            ),
    ensures
        groups_upto(paths, n) matches Ok(groups) && sorted(groups) && all_sound(groups, table)
            && in_state(groups, x, at < n),
    decreases n,
{
    if n > 0 {
        lemma_groups_track(paths, (n - 1) as nat, x, at, table);
        let before = groups_upto(paths, (n - 1) as nat)->Ok_0;
        assert(path_fine(paths[n - 1].0, paths[n - 1].1, x, n - 1 == at, table));
        lemma_group_path_step(
            before,
            paths[n - 1].0,
            paths[n - 1].1,
            x,
            at < n - 1,
            n - 1 == at,
            table,
        );
    }
}

proof fn lemma_resource_holds(
    members: Seq<Placed>,
    table: Seq<(Seq<char>, ParameterView)>,
    n: nat,
    x: Placed,
    tracked_x: bool,
)
    requires
        n <= members.len(),
        forall|j: int| 0 <= j < members.len() ==> sound(#[trigger] members[j], table),
        tracked_x ==> forall|j: int|
            0 <= j < members.len() ==> #[trigger] members[j] == x || name_of(members[j])
                != name_of(x),
    ensures
        resource_upto(members, table, n) matches Ok(resource) && sorted(resource.methods) && (
        tracked_x && (exists|j: int| 0 <= j < n && members[j] == x) ==> lookup(
            resource.methods,
            name_of(x),
        ) == Some(method_of(without_leading_slash(x.0), x.1, x.2, table)->Ok_0)),
    decreases n,
{
    if n > 0 {
        lemma_resource_holds(members, table, (n - 1) as nat, x, tracked_x);
        let before = resource_upto(members, table, (n - 1) as nat)->Ok_0;
        let y = members[n - 1];
        assert(sound(y, table));
        let method = method_of(without_leading_slash(y.0), y.1, y.2, table)->Ok_0;
        assert(method.id == y.2.operation_id->0);
        lemma_upsert_sorted(before.methods, operation_name(method.id), method);
        lemma_upsert_lookup(before.methods, operation_name(method.id), method, name_of(x));
        if tracked_x && (exists|j: int| 0 <= j < n && members[j] == x) {
            if y == x {
            } else {
                assert(name_of(y) != name_of(x));
                let j = choose|j: int| 0 <= j < n && members[j] == x;
                assert(j < n - 1);
            }
        }
    }
}

proof fn lemma_resources_follow(
    groups: Seq<(Seq<char>, Seq<Placed>)>,
    table: Seq<(Seq<char>, ParameterView)>,
    n: nat,
)
    requires
        n <= groups.len(),
        all_sound(groups, table),
    ensures
        resources_upto(groups, table, n) matches Ok(resources) && resources.len() == n && forall|
            j: int,
        |
            0 <= j < n ==> (#[trigger] resources[j]).0 == groups[j].0 && resource_of(
                groups[j].1,
                table,
            ) == Ok::<ResourceView, ConversionErrorView>(resources[j].1),
    decreases n,
{
    if n > 0 {
        lemma_resources_follow(groups, table, (n - 1) as nat);
        let members = groups[n - 1].1;
        assert forall|j: int| 0 <= j < members.len() implies sound(
            #[trigger] members[j],
            table,
        ) by {
            assert(sound(groups[n - 1].1[j], table));
        }
        lemma_resource_holds(members, table, members.len(), members[0], false);
    }
}

/// Whether every operation of a document has an id and becomes a method
/// without a flaw.
pub open spec fn every_operation_sound(
    paths: Seq<(Seq<char>, OperationsView)>,
    table: Seq<(Seq<char>, ParameterView)>,
) -> bool {
    forall|j: int, verb: Seq<char>|
        0 <= j < paths.len() && is_verb(verb) ==> match #[trigger] operation_under(
            paths[j].1,
            verb,
        ) {
            Some(op) => sound((paths[j].0, verb, op), table),
            None => true,
        }
}

/// Whether no operation of a document but the one under `verb` at the path
/// at `at` has the group and the bare name of that one.
pub open spec fn alone(paths: Seq<(Seq<char>, OperationsView)>, at: int, verb: Seq<char>) -> bool {
    forall|j: int, other: Seq<char>|
        0 <= j < paths.len() && is_verb(other) && !(j == at && other == verb)
            ==> match #[trigger] operation_under(paths[j].1, other) {
            Some(op) => differs(
                (paths[j].0, other, op),
                (paths[at].0, verb, operation_under(paths[at].1, verb)->0),
            ),
            None => true,
        }
}

/// An operation of a document that converts without flaw, whose group and
/// bare name no other operation shares, becomes the method under that group
/// and that name.
pub proof fn lemma_operation_becomes_method(
    paths: Seq<(Seq<char>, OperationsView)>,
    table: Seq<(Seq<char>, ParameterView)>,
    at: int,
    verb: Seq<char>,
)
    requires
        0 <= at < paths.len(),
        is_verb(verb),
        operation_under(paths[at].1, verb) is Some,
        every_operation_sound(paths, table),
        alone(paths, at, verb),
    ensures
        ({
            let x: Placed = (paths[at].0, verb, operation_under(paths[at].1, verb)->0);
            &&& sound(x, table)
            &&& resources_of(paths, table) matches Ok(resources)
            &&& lookup(resources, group_of(x)) matches Some(resource)
            &&& lookup(resource.methods, name_of(x)) == Some(
                method_of(without_leading_slash(x.0), x.1, x.2, table)->Ok_0,
            )
        }),
{
    lemma_verbs_differ();
    let x: Placed = (paths[at].0, verb, operation_under(paths[at].1, verb)->0);
    assert(sound(x, table));
    assert forall|j: int| 0 <= j < paths.len() implies path_fine(
        (#[trigger] paths[j]).0,
        paths[j].1,
        x,
        j == at,
        table,
    ) by {
        let ops = paths[j].1;
        let path = paths[j].0;
        assert(operation_under(ops, "GET"@) == ops.get);
        assert(operation_under(ops, "POST"@) == ops.post);
        assert(operation_under(ops, "PUT"@) == ops.put);
        assert(operation_under(ops, "PATCH"@) == ops.patch);
        assert(operation_under(ops, "DELETE"@) == ops.delete);
        assert(operation_under(ops, "OPTIONS"@) == ops.options);
        assert(operation_under(ops, "HEAD"@) == ops.head);
        assert(is_verb("GET"@) && is_verb("POST"@) && is_verb("PUT"@) && is_verb("PATCH"@)
            && is_verb("DELETE"@) && is_verb("OPTIONS"@) && is_verb("HEAD"@));
    }
    lemma_groups_track(paths, paths.len(), x, at, table);
    let groups = groups_of(paths)->Ok_0;
    lemma_resources_follow(groups, table, groups.len());
    let resources = resources_upto(groups, table, groups.len())->Ok_0;
    lemma_same_keys(groups, resources, group_of(x));
    lemma_position_from(groups, group_of(x), 0);
    let p = position(groups, group_of(x));
    let members = groups[p].1;
    assert(lookup(groups, group_of(x)) == Some(members));
    assert forall|j: int| 0 <= j < members.len() implies sound(#[trigger] members[j], table) by {
        assert(sound(groups[p].1[j], table));
    }
    lemma_resource_holds(members, table, members.len(), x, true);
    assert(resources[p].0 == groups[p].0);
}

/// Whether a method is one of the methods of a document.
pub open spec fn in_document(
    resources: Seq<(Seq<char>, ResourceView)>,
    method: MethodView,
) -> bool {
    exists|r: int, k: int|
        0 <= r < resources.len() && 0 <= k < resources[r].1.methods.len() && (
        #[trigger] resources[r].1.methods[k]).1 == method
}

spec fn from_document(
    groups: Seq<(Seq<char>, Seq<MethodView>)>,
    resources: Seq<(Seq<char>, ResourceView)>,
) -> bool {
    forall|g: int, j: int|
        0 <= g < groups.len() && 0 <= j < groups[g].1.len() ==> path_key(
            (#[trigger] groups[g].1[j]).path,
        ) == groups[g].0 && in_document(resources, groups[g].1[j])
}

proof fn lemma_add_from_document(
    groups: Seq<(Seq<char>, Seq<MethodView>)>,
    method: MethodView,
    resources: Seq<(Seq<char>, ResourceView)>,
)
    requires
        sorted(groups),
        from_document(groups, resources),
        in_document(resources, method),
    ensures
        from_document(add_to_path(groups, method), resources),
        sorted(add_to_path(groups, method)),
{
    let key = path_key(method.path);
    let members = members_with(groups, method);
    let after = add_to_path(groups, method);
    lemma_upsert_sorted(groups, key, members);
    lemma_upsert_entries(groups, key, members);
    lemma_position_from(groups, key, 0);
    assert forall|g: int, j: int|
        0 <= g < after.len() && 0 <= j < after[g].1.len() implies path_key(
        (#[trigger] after[g].1[j]).path,
    ) == after[g].0 && in_document(resources, after[g].1[j]) by {
        if after[g] == (key, members) {
            match lookup(groups, key) {
                Some(old_members) => {
                    let p = position(groups, key);
                    assert(groups[p].1 == old_members);
                    if j < old_members.len() {
                        assert(members[j] == groups[p].1[j]);
                    }
                },
                None => {},
            }
        } else {
            let at = choose|at: int| 0 <= at < groups.len() && groups[at] == after[g];
            assert(after[g].1[j] == groups[at].1[j]);
        }
    }
}

proof fn lemma_add_methods_from_document(
    groups: Seq<(Seq<char>, Seq<MethodView>)>,
    methods: Seq<(Seq<char>, MethodView)>,
    n: nat,
    resources: Seq<(Seq<char>, ResourceView)>,
)
    requires
        sorted(groups),
        from_document(groups, resources),
        n <= methods.len(),
        forall|j: int| 0 <= j < methods.len() ==> in_document(resources, (#[trigger] methods[j]).1),
    ensures
        from_document(add_methods_upto(groups, methods, n), resources),
        sorted(add_methods_upto(groups, methods, n)),
    decreases n,
{
    if n > 0 {
        lemma_add_methods_from_document(groups, methods, (n - 1) as nat, resources);
        assert(in_document(resources, methods[n - 1].1));
        lemma_add_from_document(
            add_methods_upto(groups, methods, (n - 1) as nat),
            methods[n - 1].1,
            resources,
        );
    }
}

proof fn lemma_grouped_from_document(resources: Seq<(Seq<char>, ResourceView)>, n: nat)
    requires
        n <= resources.len(),
    ensures
        from_document(grouped_upto(resources, n), resources),
        sorted(grouped_upto(resources, n)),
    decreases n,
{
    if n > 0 {
        lemma_grouped_from_document(resources, (n - 1) as nat);
        let methods = resources[n - 1].1.methods;
        assert forall|j: int| 0 <= j < methods.len() implies in_document(
            resources,
            (#[trigger] methods[j]).1,
        ) by {
            assert(resources[n - 1].1.methods[j].1 == methods[j].1);
        }
        lemma_add_methods_from_document(
            grouped_upto(resources, (n - 1) as nat),
            methods,
            methods.len(),
            resources,
        );
    }
}

proof fn lemma_operation_has_method(members: Seq<MethodView>, n: nat, verb: Seq<char>)
    requires
        n <= members.len(),
    ensures
        operation_under(operations_upto(members, n), verb) matches Some(op) ==> exists|j: int|
            0 <= j < n && op == operation_of(#[trigger] members[j]) && verb_slot(
                members[j].http_method,
            ) == Some(verb),
    decreases n,
{
    if n > 0 {
        lemma_operation_has_method(members, (n - 1) as nat, verb);
        lemma_with_method_under(operations_upto(members, (n - 1) as nat), members[n - 1], verb);
        match operation_under(operations_upto(members, n), verb) {
            Some(op) => {
                if verb_slot(members[n - 1].http_method) == Some(verb) {
                    assert(op == operation_of(members[n - 1]));
                } else {
                    let j = choose|j: int|
                        0 <= j < n - 1 && op == operation_of(#[trigger] members[j]) && verb_slot(
                            members[j].http_method,
                        ) == Some(verb);
                    assert(op == operation_of(members[j]));
                }
            },
            None => {},
        }
    }
}

/// Whether no other method of a document has an id that gives the group and
/// the bare name of the id of the method at `k` of the resource at `r`.
pub open spec fn unique_name(resources: Seq<(Seq<char>, ResourceView)>, r: int, k: int) -> bool {
    forall|r2: int, k2: int|
        0 <= r2 < resources.len() && 0 <= k2 < resources[r2].1.methods.len() && !(r2 == r && k2
            == k) ==> operation_group((#[trigger] resources[r2].1.methods[k2]).1.id)
            != operation_group(resources[r].1.methods[k].1.id) || operation_name(
            resources[r2].1.methods[k2].1.id,
        ) != operation_name(resources[r].1.methods[k].1.id)
}

/// A method of a Discovery document comes back from OpenAPI.
///
/// Take a document whose pointers all name what they point to, and in it a
/// method whose verb OpenAPI has a place for, that no later method replaces,
/// and whose group and bare name no other method shares. The OpenAPI
/// document for the Discovery document converts back without failure, and
/// the resources that come back hold, under the group and the bare name that
/// the id of the method gives, a method with the same id and the same path.
/// Its verb is the one under which the operation stood, or `REPORT` where
/// the bare name is `report`: so the verb is the same too, unless the method
/// had the verb `REPORT` under another name, or the name `report` with
/// another verb.
pub proof fn lemma_document_round_trip(
    resources: Seq<(Seq<char>, ResourceView)>,
    table: Seq<(Seq<char>, ParameterView)>,
    r: int,
    k: int,
)
    requires
        forall|i: int|
            0 <= i < resources.len() ==> resource_convertible((#[trigger] resources[i]).1),
        0 <= r < resources.len(),
        0 <= k < resources[r].1.methods.len(),
        verb_slot(resources[r].1.methods[k].1.http_method) is Some,
        none_replaces(resources, r, k),
        unique_name(resources, r, k),
    ensures
        ({
            let method = resources[r].1.methods[k].1;
            let verb = verb_slot(method.http_method)->0;
            &&& resources_of(paths_of(resources), table) matches Ok(back)
            &&& lookup(back, operation_group(method.id)) matches Some(resource)
            &&& lookup(resource.methods, operation_name(method.id)) matches Some(recovered)
            &&& recovered.id == method.id
            &&& recovered.path == method.path
            &&& recovered.http_method == method_verb(method.id, verb)
            &&& operation_name(method.id) != "report"@ && method.http_method != "REPORT"@
                ==> recovered.http_method == method.http_method
            &&& operation_name(method.id) == "report"@ && method.http_method == "REPORT"@
                ==> recovered.http_method == method.http_method
        }),
{
    let method = resources[r].1.methods[k].1;
    let verb = verb_slot(method.http_method)->0;
    let key = path_key(method.path);
    let paths = paths_of(resources);
    let groups = grouped(resources);
    lemma_verbs_differ();
    lemma_grouped_from_document(resources, resources.len());
    lemma_document_holds_method(resources, r, k);
    lemma_paths_lookup(resources, key);
    lemma_position_from(paths, key, 0);
    let at = position(paths, key);
    assert(paths[at].0 == key);
    assert(operation_under(paths[at].1, verb) == Some(operation_of(method)));
    assert(resource_convertible(resources[r].1));
    assert(method_convertible(resources[r].1.methods[k].1));
    lemma_method_round_trip(method, table);

    assert forall|j: int, other: Seq<char>| 0 <= j < paths.len() && is_verb(other) implies (
    match #[trigger] operation_under(paths[j].1, other) {
        Some(op) => sound((paths[j].0, other, op), table) && (!(j == at && other == verb)
            ==> differs((paths[j].0, other, op), (paths[at].0, verb, operation_of(method)))),
        None => true,
    }) by {
        match operation_under(paths[j].1, other) {
            Some(op) => {
                let members = groups[j].1;
                assert(paths[j] == (groups[j].0, operations_of(members)));
                lemma_operation_has_method(members, members.len(), other);
                let i = choose|i: int|
                    0 <= i < members.len() && op == operation_of(#[trigger] members[i])
                        && verb_slot(members[i].http_method) == Some(other);
                let source = members[i];
                assert(source == groups[j].1[i]);
                assert(path_key(source.path) == groups[j].0 && in_document(resources, source));
                let (r2, k2) = choose|r2: int, k2: int|
                    0 <= r2 < resources.len() && 0 <= k2 < resources[r2].1.methods.len() && (
                    #[trigger] resources[r2].1.methods[k2]).1 == source;
                assert(resource_convertible(resources[r2].1));
                assert(method_convertible(resources[r2].1.methods[k2].1));
                lemma_method_round_trip(source, table);
                if !(j == at && other == verb) {
                    if r2 == r && k2 == k {
                        assert(paths[j].0 == paths[at].0);
                        if j < at {
                            assert(lex_less(paths[j].0, paths[at].0));
                        } else if at < j {
                            assert(lex_less(paths[at].0, paths[j].0));
                        }
                        lemma_lex_irreflexive(paths[at].0);
                    } else {
                        assert(operation_group(resources[r2].1.methods[k2].1.id)
                            != operation_group(method.id) || operation_name(
                            resources[r2].1.methods[k2].1.id,
                        ) != operation_name(method.id));
                    }
                }
            },
            None => {},
        }
    }
    assert(every_operation_sound(paths, table));
    assert(alone(paths, at, verb));
    lemma_operation_becomes_method(paths, table, at, verb);
}

/// Whether an operation stands in a document at its path under its verb.
spec fn placed_in(paths: Seq<(Seq<char>, OperationsView)>, x: Placed) -> bool {
    exists|j: int|
        0 <= j < paths.len() && (#[trigger] paths[j]).0 == x.0 && is_verb(x.1) && operation_under(
            paths[j].1,
            x.1,
        ) == Some(x.2)
}

spec fn all_placed(
    groups: Seq<(Seq<char>, Seq<Placed>)>,
    paths: Seq<(Seq<char>, OperationsView)>,
    table: Seq<(Seq<char>, ParameterView)>,
) -> bool {
    forall|g: int, j: int|
        0 <= g < groups.len() && 0 <= j < groups[g].1.len() ==> placed_in(
            paths,
            #[trigger] groups[g].1[j],
        ) && sound(groups[g].1[j], table) && group_of(groups[g].1[j]) == groups[g].0
}

proof fn lemma_place_step(
    groups: Seq<(Seq<char>, Seq<Placed>)>,
    paths: Seq<(Seq<char>, OperationsView)>,
    path: Seq<char>,
    verb: Seq<char>,
    operation: Option<OperationView>,
    table: Seq<(Seq<char>, ParameterView)>,
)
    requires
        sorted(groups),
        all_placed(groups, paths, table),
        operation matches Some(op) ==> placed_in(paths, (path, verb, op)) && sound(
            (path, verb, op),
            table,
        ),
    ensures
        add_to_group(groups, path, verb, operation) matches Ok(after) && sorted(after)
            && all_placed(after, paths, table),
{
    match operation {
        None => {},
        Some(op) => {
            let y: Placed = (path, verb, op);
            let group = group_of(y);
            let members = match lookup(groups, group) {
                Some(members) => members.push(y),
                None => seq![y],
            };
            let after = upsert(groups, group, members);
            assert(add_to_group(groups, path, verb, operation) == Ok::<
                Seq<(Seq<char>, Seq<Placed>)>,
                ConversionErrorView,
            >(after));
            lemma_upsert_sorted(groups, group, members);
            lemma_upsert_entries(groups, group, members);
            lemma_position_from(groups, group, 0);
            assert forall|j: int| 0 <= j < members.len() implies placed_in(
                paths,
                #[trigger] members[j],
            ) && sound(members[j], table) && group_of(members[j]) == group by {
                match lookup(groups, group) {
                    Some(old_members) => {
                        let p = position(groups, group);
                        assert(groups[p].1 == old_members);
                        if j < old_members.len() {
                            assert(members[j] == groups[p].1[j]);
                        }
                    },
                    None => {},
                }
            }
            assert forall|g: int, j: int|
                0 <= g < after.len() && 0 <= j < after[g].1.len() implies placed_in(
                paths,
                #[trigger] after[g].1[j],
            ) && sound(after[g].1[j], table) && group_of(after[g].1[j]) == after[g].0 by {
                if after[g] == (group, members) {
                    assert(after[g].1[j] == members[j]);
                } else {
                    let at = choose|at: int| 0 <= at < groups.len() && groups[at] == after[g];
                    assert(after[g].1[j] == groups[at].1[j]);
                }
            }
        },
    }
}

proof fn lemma_place_path(
    groups: Seq<(Seq<char>, Seq<Placed>)>,
    paths: Seq<(Seq<char>, OperationsView)>,
    at: int,
    table: Seq<(Seq<char>, ParameterView)>,
)
    requires
        sorted(groups),
        all_placed(groups, paths, table),
        0 <= at < paths.len(),
        every_operation_sound(paths, table),
    ensures
        group_path(groups, paths[at].0, paths[at].1) matches Ok(after) && sorted(after)
            && all_placed(after, paths, table),
{
    lemma_verbs_differ();
    let path = paths[at].0;
    let ops = paths[at].1;
    assert(operation_under(ops, "GET"@) == ops.get && is_verb("GET"@));
    assert(operation_under(ops, "POST"@) == ops.post && is_verb("POST"@));
    assert(operation_under(ops, "PUT"@) == ops.put && is_verb("PUT"@));
    assert(operation_under(ops, "PATCH"@) == ops.patch && is_verb("PATCH"@));
    assert(operation_under(ops, "DELETE"@) == ops.delete && is_verb("DELETE"@));
    assert(operation_under(ops, "OPTIONS"@) == ops.options && is_verb("OPTIONS"@));
    assert(operation_under(ops, "HEAD"@) == ops.head && is_verb("HEAD"@));
    lemma_place_step(groups, paths, path, "GET"@, ops.get, table);
    let after_get = add_to_group(groups, path, "GET"@, ops.get)->Ok_0;
    lemma_place_step(after_get, paths, path, "POST"@, ops.post, table);
    let after_post = add_to_group(after_get, path, "POST"@, ops.post)->Ok_0;
    lemma_place_step(after_post, paths, path, "PUT"@, ops.put, table);
    let after_put = add_to_group(after_post, path, "PUT"@, ops.put)->Ok_0;
    lemma_place_step(after_put, paths, path, "PATCH"@, ops.patch, table);
    let after_patch = add_to_group(after_put, path, "PATCH"@, ops.patch)->Ok_0;
    lemma_place_step(after_patch, paths, path, "DELETE"@, ops.delete, table);
    let after_delete = add_to_group(after_patch, path, "DELETE"@, ops.delete)->Ok_0;
    lemma_place_step(after_delete, paths, path, "OPTIONS"@, ops.options, table);
    let after_options = add_to_group(after_delete, path, "OPTIONS"@, ops.options)->Ok_0;
    lemma_place_step(after_options, paths, path, "HEAD"@, ops.head, table);
}

proof fn lemma_groups_placed(
    paths: Seq<(Seq<char>, OperationsView)>,
    n: nat,
    table: Seq<(Seq<char>, ParameterView)>,
)
    requires
        n <= paths.len(),
        every_operation_sound(paths, table),
    ensures
        groups_upto(paths, n) matches Ok(groups) && sorted(groups) && all_placed(
            groups,
            paths,
            table,
        ),
    decreases n,
{
    if n > 0 {
        lemma_groups_placed(paths, (n - 1) as nat, table);
        lemma_place_path(groups_upto(paths, (n - 1) as nat)->Ok_0, paths, n - 1, table);
    }
}

/// The method that an operation becomes.
pub open spec fn method_for(x: Placed, table: Seq<(Seq<char>, ParameterView)>) -> MethodView {
    method_of(without_leading_slash(x.0), x.1, x.2, table)->Ok_0
}

proof fn lemma_resource_methods(
    members: Seq<Placed>,
    table: Seq<(Seq<char>, ParameterView)>,
    n: nat,
)
    requires
        n <= members.len(),
        forall|j: int| 0 <= j < members.len() ==> sound(#[trigger] members[j], table),
    ensures
        resource_upto(members, table, n) matches Ok(resource) && forall|i: int|
            0 <= i < resource.methods.len() ==> exists|j: int|
                0 <= j < n && #[trigger] resource.methods[i] == (
                    name_of(#[trigger] members[j]),
                    method_for(members[j], table),
                ),
    decreases n,
{
    if n > 0 {
        lemma_resource_methods(members, table, (n - 1) as nat);
        let before = resource_upto(members, table, (n - 1) as nat)->Ok_0;
        let y = members[n - 1];
        assert(sound(y, table));
        let method = method_for(y, table);
        assert(method.id == y.2.operation_id->0);
        let after = upsert(before.methods, operation_name(method.id), method);
        lemma_upsert_entries(before.methods, operation_name(method.id), method);
        assert forall|i: int| 0 <= i < after.len() implies exists|j: int|
            0 <= j < n && #[trigger] after[i] == (
                name_of(#[trigger] members[j]),
                method_for(members[j], table),
            ) by {
            if after[i] == (operation_name(method.id), method) {
                assert(after[i] == (name_of(members[n - 1]), method_for(members[n - 1], table)));
            } else {
                let at = choose|at: int|
                    0 <= at < before.methods.len() && before.methods[at] == after[i];
                let j = choose|j: int|
                    0 <= j < n - 1 && #[trigger] before.methods[at] == (
                        name_of(#[trigger] members[j]),
                        method_for(members[j], table),
                    );
                assert(after[i] == (name_of(members[j]), method_for(members[j], table)));
            }
        }
    }
}

/// Whether an operation is the operation of a method of a document, placed
/// at the path and under the verb where that method goes.
pub open spec fn origin(
    resources: Seq<(Seq<char>, ResourceView)>,
    x: Placed,
    r: int,
    k: int,
) -> bool {
    &&& 0 <= r < resources.len()
    &&& 0 <= k < resources[r].1.methods.len()
    &&& x.2 == operation_of(resources[r].1.methods[k].1)
    &&& verb_slot(resources[r].1.methods[k].1.http_method) == Some(x.1)
    &&& path_key(resources[r].1.methods[k].1.path) == x.0
}

/// Whether a method is what a method of the document comes back as: it has
/// the id and the path of that method, and its verb is the one under which
/// the operation of that method stood, or `REPORT` where the bare name is
/// `report`.
pub open spec fn comes_back_from(
    resources: Seq<(Seq<char>, ResourceView)>,
    recovered: MethodView,
    r: int,
    k: int,
) -> bool {
    &&& 0 <= r < resources.len()
    &&& 0 <= k < resources[r].1.methods.len()
    &&& verb_slot(resources[r].1.methods[k].1.http_method) is Some
    &&& recovered.id == resources[r].1.methods[k].1.id
    &&& recovered.path == resources[r].1.methods[k].1.path
    &&& recovered.http_method == method_verb(
        resources[r].1.methods[k].1.id,
        verb_slot(resources[r].1.methods[k].1.http_method)->0,
    )
}

/// Every operation of the OpenAPI document for a Discovery document is the
/// operation of one of its methods, stands where that method goes, and
/// becomes a method again without a flaw.
proof fn lemma_converted_operations(
    resources: Seq<(Seq<char>, ResourceView)>,
    table: Seq<(Seq<char>, ParameterView)>,
    at: int,
    verb: Seq<char>,
)
    requires
        forall|i: int|
            0 <= i < resources.len() ==> resource_convertible((#[trigger] resources[i]).1),
        0 <= at < paths_of(resources).len(),
        operation_under(paths_of(resources)[at].1, verb) is Some,
    ensures
        ({
            let x: Placed = (
                paths_of(resources)[at].0,
                verb,
                operation_under(paths_of(resources)[at].1, verb)->0,
            );
            &&& sound(x, table)
            &&& exists|r: int, k: int|
                #![trigger resources[r].1.methods[k]]
                origin(resources, x, r, k) && comes_back_from(
                    resources,
                    method_for(x, table),
                    r,
                    k,
                )
        }),
{
    let paths = paths_of(resources);
    let groups = grouped(resources);
    let op = operation_under(paths[at].1, verb)->0;
    let x: Placed = (paths[at].0, verb, op);
    lemma_grouped_from_document(resources, resources.len());
    let members = groups[at].1;
    assert(paths[at] == (groups[at].0, operations_of(members)));
    lemma_operation_has_method(members, members.len(), verb);
    let i = choose|i: int|
        0 <= i < members.len() && op == operation_of(#[trigger] members[i]) && verb_slot(
            members[i].http_method,
        ) == Some(verb);
    let source = members[i];
    assert(source == groups[at].1[i]);
    assert(path_key(source.path) == groups[at].0 && in_document(resources, source));
    let (r, k) = choose|r: int, k: int|
        0 <= r < resources.len() && 0 <= k < resources[r].1.methods.len() && (
        #[trigger] resources[r].1.methods[k]).1 == source;
    assert(resource_convertible(resources[r].1));
    assert(method_convertible(resources[r].1.methods[k].1));
    lemma_method_round_trip(source, table);
    assert(origin(resources, x, r, k) && comes_back_from(resources, method_for(x, table), r, k));
}

/// The OpenAPI document for a Discovery document converts back without
/// failure, and what comes back holds no method that the document lacks:
/// every method that comes back stands under the group and the bare name
/// that its id gives, and has the id and the path of a method of the
/// document whose verb OpenAPI has a place for.
pub proof fn lemma_no_foreign_method(
    resources: Seq<(Seq<char>, ResourceView)>,
    table: Seq<(Seq<char>, ParameterView)>,
)
    requires
        forall|i: int|
            0 <= i < resources.len() ==> resource_convertible((#[trigger] resources[i]).1),
    ensures
        resources_of(paths_of(resources), table) matches Ok(back) && forall|g: int, i: int|
            0 <= g < back.len() && 0 <= i < back[g].1.methods.len() ==> back[g].0
                == operation_group((#[trigger] back[g].1.methods[i]).1.id) && back[g].1.methods[i].0
                == operation_name(back[g].1.methods[i].1.id) && exists|r: int, k: int|
                #![trigger resources[r].1.methods[k]]
                comes_back_from(resources, back[g].1.methods[i].1, r, k),
{
    let paths = paths_of(resources);
    assert forall|j: int, verb: Seq<char>| 0 <= j < paths.len() && is_verb(verb) implies (
    match #[trigger] operation_under(paths[j].1, verb) {
        Some(op) => sound((paths[j].0, verb, op), table),
        None => true,
    }) by {
        if operation_under(paths[j].1, verb) is Some {
            lemma_converted_operations(resources, table, j, verb);
        }
    }
    lemma_groups_placed(paths, paths.len(), table);
    let groups = groups_of(paths)->Ok_0;
    assert(all_sound(groups, table)) by {
        assert forall|g: int, j: int|
            0 <= g < groups.len() && 0 <= j < groups[g].1.len() implies sound(
            #[trigger] groups[g].1[j],
            table,
        ) by {
            assert(placed_in(paths, groups[g].1[j]) && sound(groups[g].1[j], table));
        }
    }
    lemma_resources_follow(groups, table, groups.len());
    let back = resources_upto(groups, table, groups.len())->Ok_0;
    assert forall|g: int, i: int|
        0 <= g < back.len() && 0 <= i < back[g].1.methods.len() implies back[g].0
        == operation_group((#[trigger] back[g].1.methods[i]).1.id) && back[g].1.methods[i].0
        == operation_name(back[g].1.methods[i].1.id) && exists|r: int, k: int|
        #![trigger resources[r].1.methods[k]]
        comes_back_from(resources, back[g].1.methods[i].1, r, k) by {
        let members = groups[g].1;
        assert(back[g].0 == groups[g].0);
        assert forall|j: int| 0 <= j < members.len() implies sound(
            #[trigger] members[j],
            table,
        ) by {
            assert(sound(groups[g].1[j], table));
        }
        lemma_resource_methods(members, table, members.len());
        let j = choose|j: int|
            0 <= j < members.len() && #[trigger] back[g].1.methods[i] == (
                name_of(#[trigger] members[j]),
                method_for(members[j], table),
            );
        let x = members[j];
        assert(x == groups[g].1[j]);
        assert(placed_in(paths, x) && sound(x, table) && group_of(x) == groups[g].0);
        let at = choose|at: int|
            0 <= at < paths.len() && (#[trigger] paths[at]).0 == x.0 && is_verb(x.1)
                && operation_under(paths[at].1, x.1) == Some(x.2);
        lemma_converted_operations(resources, table, at, x.1);
        assert(method_for(x, table).id == x.2.operation_id->0);
    }
}

/// Whether the resources that came back hold the method at `k` of the
/// resource at `r`: under the group and the bare name that its id gives,
/// with its id, its path, and the verb under which its operation stood, or
/// `REPORT` where the bare name is `report`.
pub open spec fn came_back(
    resources: Seq<(Seq<char>, ResourceView)>,
    back: Seq<(Seq<char>, ResourceView)>,
    r: int,
    k: int,
) -> bool {
    let method = resources[r].1.methods[k].1;
    &&& lookup(back, operation_group(method.id)) matches Some(resource)
    &&& lookup(resource.methods, operation_name(method.id)) matches Some(recovered)
    &&& comes_back_from(resources, recovered, r, k)
}

/// Every method of a Discovery document comes back from OpenAPI, and
/// nothing else does.
///
/// Take a document whose pointers all name what they point to, in which
/// every method has a verb that OpenAPI has a place for, no two methods go
/// to the same verb of the same path, and no two methods have ids that give
/// the same group and the same bare name. Then every method is found again
/// with its id and its path, and every method that is found is one of them.
pub proof fn lemma_every_method_comes_back(
    resources: Seq<(Seq<char>, ResourceView)>,
    table: Seq<(Seq<char>, ParameterView)>,
)
    requires
        forall|i: int|
            0 <= i < resources.len() ==> resource_convertible((#[trigger] resources[i]).1),
        forall|r: int, k: int|
            0 <= r < resources.len() && 0 <= k < resources[r].1.methods.len() ==> verb_slot(
                (#[trigger] resources[r].1.methods[k]).1.http_method,
            ) is Some && none_replaces(resources, r, k) && unique_name(resources, r, k),
    ensures
        resources_of(paths_of(resources), table) matches Ok(back) && (forall|r: int, k: int|
            #![trigger resources[r].1.methods[k]]
            0 <= r < resources.len() && 0 <= k < resources[r].1.methods.len() ==> came_back(
                resources,
                back,
                r,
                k,
            )) && (forall|g: int, i: int|
            0 <= g < back.len() && 0 <= i < back[g].1.methods.len() ==> exists|r: int, k: int|
                #![trigger resources[r].1.methods[k]]
                comes_back_from(resources, (#[trigger] back[g].1.methods[i]).1, r, k)),
{
    lemma_no_foreign_method(resources, table);
    let back = resources_of(paths_of(resources), table)->Ok_0;
    assert forall|r: int, k: int|
        #![trigger resources[r].1.methods[k]]
        0 <= r < resources.len() && 0 <= k < resources[r].1.methods.len() implies came_back(
        resources,
        back,
        r,
        k,
    ) by {
        assert(verb_slot(resources[r].1.methods[k].1.http_method) is Some && none_replaces(
            resources,
            r,
            k,
        ) && unique_name(resources, r, k));
        lemma_document_round_trip(resources, table, r, k);
    }
}

} // verus!
