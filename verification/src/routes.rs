//! The HTTP surface: which method and path lead to which operation.

use vstd::prelude::*;

verus! {

/// The prefix under which every route of the service lies.
pub const API_PREFIX: &'static str = "/api";

/// The path of the collection, below the prefix.
pub const STUDENTS_PATH: &'static str = "/students";

/// The path of one student, below the prefix; `{id}` stands for one segment.
pub const STUDENT_PATH: &'static str = "/students/{id}";

#[derive(Clone, Copy, Debug, PartialEq, Eq, Structural)]
pub enum Method {
    Get,
    Post,
    Delete,
}

/// The four operations of the service.
#[derive(Clone, Copy, Debug, PartialEq, Eq, Structural)]
pub enum Operation {
    CreateStudent,
    GetAllStudents,
    GetStudent,
    DeleteStudent,
}

/// One route: requests with this method on this path go to this operation.
#[derive(Clone, Copy, Debug, PartialEq, Eq)]
pub struct Route {
    pub method: Method,
    pub path: &'static str,
    pub operation: Operation,
}

pub struct RouteView {
    pub method: Method,
    pub path: Seq<char>,
    pub operation: Operation,
}

impl View for Route {
    type V = RouteView;

    open spec fn view(&self) -> RouteView {
        RouteView { method: self.method, path: self.path@, operation: self.operation }
    }
}

/// Routes that share a path prefix.
#[derive(Clone, Debug, PartialEq, Eq)]
pub struct Scope {
    pub prefix: &'static str,
    pub routes: Vec<Route>,
}

pub struct ScopeView {
    pub prefix: Seq<char>,
    pub routes: Seq<RouteView>,
}

impl View for Scope {
    type V = ScopeView;

    open spec fn view(&self) -> ScopeView {
        ScopeView { prefix: self.prefix@, routes: self.routes@.map_values(|r: Route| r@) }
    }
}

/// What a server is to register: scopes, in the order in which they were added.
#[derive(Clone, Debug, PartialEq, Eq)]
pub struct ServiceConfig {
    pub scopes: Vec<Scope>,
}

impl View for ServiceConfig {
    type V = Seq<ScopeView>;

    open spec fn view(&self) -> Seq<ScopeView> {
        self.scopes@.map_values(|s: Scope| s@)
    }
}

/// The routes of the service, in the order of their registration.
pub open spec fn student_routes() -> Seq<RouteView> {
    seq![
        RouteView {
            method: Method::Post,
            path: STUDENTS_PATH@,
            operation: Operation::CreateStudent,
        },
        RouteView {
            method: Method::Get,
            path: STUDENTS_PATH@,
            operation: Operation::GetAllStudents,
        },
        RouteView { method: Method::Get, path: STUDENT_PATH@, operation: Operation::GetStudent },
        RouteView {
            method: Method::Delete,
            path: STUDENT_PATH@,
            operation: Operation::DeleteStudent,
        },
    ]
}

/// The scope of the service: its four routes under the prefix.
pub open spec fn api_scope() -> ScopeView {
    ScopeView { prefix: API_PREFIX@, routes: student_routes() }
}

/// Registers the service: adds its scope behind whatever `cfg` already holds.
pub fn config(cfg: &mut ServiceConfig)
    ensures
        final(cfg)@ == old(cfg)@.push(api_scope()),
{
    let mut routes: Vec<Route> = Vec::new();
    routes.push(
        Route { method: Method::Post, path: STUDENTS_PATH, operation: Operation::CreateStudent },
    );
    routes.push(
        Route { method: Method::Get, path: STUDENTS_PATH, operation: Operation::GetAllStudents },
    );
    routes.push(
        Route { method: Method::Get, path: STUDENT_PATH, operation: Operation::GetStudent },
    );
    routes.push(
        Route { method: Method::Delete, path: STUDENT_PATH, operation: Operation::DeleteStudent },
    );
    let scope = Scope { prefix: API_PREFIX, routes };
    assert(scope@.routes =~= student_routes());
    cfg.scopes.push(scope);
    assert(cfg@ =~= old(cfg)@.push(api_scope()));
}

/// No two routes of the service share both method and path: a request
/// matches one operation at most.
pub proof fn lemma_routes_are_distinct(i: int, j: int)
    requires
        0 <= i < j < student_routes().len(),
    ensures
        student_routes()[i].method != student_routes()[j].method || student_routes()[i].path
            != student_routes()[j].path,
{
    reveal_strlit("/students");
    reveal_strlit("/students/{id}");
    assert(STUDENTS_PATH@.len() != STUDENT_PATH@.len());
}

} // verus!
