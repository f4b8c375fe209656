use students_api::routes::{
    config, Method, Operation, Route, Scope, ServiceConfig, API_PREFIX, STUDENTS_PATH,
    STUDENT_PATH,
};

fn route(method: Method, path: &'static str, operation: Operation) -> Route {
    Route { method, path, operation }
}

fn api_scope() -> Scope {
    Scope {
        prefix: "/api",
        routes: vec![
            route(Method::Post, "/students", Operation::CreateStudent),
            route(Method::Get, "/students", Operation::GetAllStudents),
            route(Method::Get, "/students/{id}", Operation::GetStudent),
            route(Method::Delete, "/students/{id}", Operation::DeleteStudent),
        ],
    }
}

#[test]
fn config_registers_the_four_routes_under_the_prefix() {
    let mut cfg = ServiceConfig { scopes: Vec::new() };
    config(&mut cfg);
    assert_eq!(cfg, ServiceConfig { scopes: vec![api_scope()] });
}

#[test]
fn config_adds_behind_what_is_registered() {
    let other = Scope {
        prefix: "/health",
        routes: vec![route(Method::Get, "/", Operation::GetAllStudents)],
    };
    let mut cfg = ServiceConfig { scopes: vec![other.clone()] };
    config(&mut cfg);
    assert_eq!(cfg.scopes, vec![other, api_scope()]);
}

#[test]
fn no_two_routes_share_method_and_path() {
    let routes = api_scope().routes;
    for i in 0..routes.len() {
        for j in (i + 1)..routes.len() {
            assert!(routes[i].method != routes[j].method || routes[i].path != routes[j].path);
        }
    }
}

#[test]
fn paths_are_those_of_the_service() {
    assert_eq!(API_PREFIX, "/api");
    assert_eq!(STUDENTS_PATH, "/students");
    assert_eq!(STUDENT_PATH, "/students/{id}");
}
