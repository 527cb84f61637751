use oatool::discovery::{
    GoogleResources, GoogleSchemas, Method, Reference, Resource, Response, Spec,
};
use oatool::google_to_openapi::{
    google_spec_to_openapi, is_convertible, transform_ref_path as to_openapi_ref,
};
use oatool::openapi_to_google::{openapi_spec_to_google, transform_ref_path as to_discovery_ref};
use oatool::ordered_map::OrderedMap;

fn method(id: &str, verb: &str, path: &str, response: Option<Response>) -> Method {
    Method {
        id: id.to_string(),
        path: path.to_string(),
        http_method: verb.to_string(),
        description: format!("The method {}", id),
        parameters: None,
        request: None,
        response,
        slt: None,
    }
}

fn document(methods: Vec<Method>) -> Spec {
    let mut resources: OrderedMap<Resource> = OrderedMap::new();
    for method in methods {
        let group = method.id.split('.').next().unwrap().to_string();
        let name = method.id.split('.').last().unwrap().to_string();
        let mut resource = match resources.remove(&group) {
            Some(resource) => resource,
            None => Resource { methods: OrderedMap::new() },
        };
        resource.methods.insert(name, method);
        resources.insert(group, resource);
    }
    Spec {
        id: "users:v1".to_string(),
        name: "users".to_string(),
        version: "v1".to_string(),
        title: "users".to_string(),
        description: "All about users".to_string(),
        documentation_link: None,
        protocol: "rest".to_string(),
        base_path: "/api".to_string(),
        schemas: GoogleSchemas(OrderedMap::new()),
        resources: GoogleResources(resources),
        aliases: None,
    }
}

#[test]
fn pointers_come_back() {
    for name in ["User", "Region", "a", "", "user_account", "v1.0.0"] {
        let openapi = format!("#/definitions/{}", name);
        let discovery = format!("schemas/{}", name);
        assert_eq!(to_discovery_ref(&openapi), discovery);
        assert_eq!(to_openapi_ref(&discovery), openapi);
        assert_eq!(to_openapi_ref(&to_discovery_ref(&openapi)), openapi);
        assert_eq!(to_discovery_ref(&to_openapi_ref(&discovery)), discovery);
    }
}

#[test]
fn a_name_with_a_slash_does_not_come_back() {
    assert_eq!(to_openapi_ref(&to_discovery_ref("#/definitions/a/b")), "#/definitions/b");
    assert_eq!(to_discovery_ref(&to_openapi_ref("schemas/a/b")), "schemas/a");
}

#[test]
fn methods_come_back() {
    let list = Response::ResponseList {
        id: None,
        resource: None,
        response_type: "array".to_string(),
        items: Reference { location: "schemas/User".to_string() },
    };
    let one = Response::Reference { location: "schemas/User".to_string() };
    let methods = vec![
        method("users.list", "GET", "users", Some(list)),
        method("users.create", "POST", "users", Some(one.clone())),
        method("users.get", "GET", "users/{id}", Some(one.clone())),
        method("users.replace", "PUT", "users/{id}", None),
        method("users.update", "PATCH", "users/{id}", None),
        method("users.delete", "DELETE", "users/{id}", None),
        method("users.check", "HEAD", "users/{id}", None),
        method("users.options", "OPTIONS", "users/{id}", None),
        method("usage.report", "REPORT", "usage", Some(one)),
        method("accounts.list", "GET", "", None),
    ];
    let spec = document(methods.clone());
    assert!(is_convertible(&spec));
    let back = openapi_spec_to_google(&google_spec_to_openapi(&spec)).unwrap();
    assert_eq!(back.resources.0.len(), 3);
    for source in methods {
        let group = source.id.split('.').next().unwrap();
        let name = source.id.split('.').last().unwrap();
        let recovered = back.resources.0.get(group).unwrap().methods.get(name).unwrap();
        assert_eq!(recovered.id, source.id);
        assert_eq!(recovered.path, source.path);
        assert_eq!(recovered.http_method, source.http_method);
        assert_eq!(recovered.description, source.description);
        assert_eq!(recovered.response, source.response);
    }
    assert_eq!(back.resources, spec.resources);
    assert_eq!(back.title, spec.title);
    assert_eq!(back.name, spec.name);
    assert_eq!(back.id, spec.id);
    assert_eq!(back.version, spec.version);
    assert_eq!(back.description, spec.description);
    assert_eq!(back.base_path, spec.base_path);
}

#[test]
fn report_comes_back_only_under_its_name() {
    let spec = document(vec![
        method("usage.summary", "REPORT", "usage", None),
        method("logs.report", "POST", "logs", None),
    ]);
    let back = openapi_spec_to_google(&google_spec_to_openapi(&spec)).unwrap();
    let summary = back.resources.0.get("usage").unwrap().methods.get("summary").unwrap();
    assert_eq!(summary.http_method, "POST");
    assert_eq!(summary.id, "usage.summary");
    assert_eq!(summary.path, "usage");
    let report = back.resources.0.get("logs").unwrap().methods.get("report").unwrap();
    assert_eq!(report.http_method, "REPORT");
    assert_eq!(report.id, "logs.report");
    assert_eq!(report.path, "logs");
}

#[test]
fn an_unknown_verb_is_lost() {
    let spec = document(vec![method("users.trace", "TRACE", "users", None)]);
    let openapi = google_spec_to_openapi(&spec);
    assert_eq!(openapi.paths.len(), 1);
    let back = openapi_spec_to_google(&openapi).unwrap();
    assert!(back.resources.0.is_empty());
}

#[test]
fn nothing_comes_back_that_was_not_there() {
    let methods = vec![
        method("users.list", "GET", "users", None),
        method("users.create", "POST", "users", None),
        method("users.trace", "TRACE", "users", None),
        method("accounts.list", "GET", "accounts", None),
        method("accounts.replaced", "GET", "zones", None),
        method("zones.list", "GET", "zones", None),
    ];
    let spec = document(methods.clone());
    let back = openapi_spec_to_google(&google_spec_to_openapi(&spec)).unwrap();
    let mut found = Vec::new();
    for (group, resource) in back.resources.0.into_entries() {
        for (name, recovered) in resource.methods.into_entries() {
            assert_eq!(group, recovered.id.split('.').next().unwrap());
            assert_eq!(name, recovered.id.split('.').last().unwrap());
            let source = methods.iter().find(|m| m.id == recovered.id).unwrap();
            assert_eq!(recovered.path, source.path);
            assert_eq!(recovered.http_method, source.http_method);
            found.push(recovered.id);
        }
    }
    // The method with a verb that OpenAPI has no place for is lost, and so
    // is the one that a later method with its path and verb replaced.
    assert_eq!(found, vec!["accounts.list", "users.create", "users.list", "zones.list"]);
}
