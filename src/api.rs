use vstd::prelude::*;

use crate::codec::{encode_user, encode_users, user_text, users_text};
use crate::store::{Store, StoreError, add_result, added, result_view};
use crate::user::{CreateUserPayload, User, is_v4};

verus! {

/// A namespace of the HTTP surface. Both behave alike.
#[derive(Debug, PartialEq, Eq, Structural, Clone, Copy)]
pub enum ApiVersion {
    V1,
    V2,
}

/// What a request on the users resource asks for.
#[derive(Debug, PartialEq, Eq, Structural, Clone, Copy)]
pub enum Action {
    Create,
    List,
}

/// Where a request goes.
#[derive(Debug, PartialEq, Eq, Structural, Clone, Copy)]
pub enum Route {
    Endpoint(ApiVersion, Action),
    /// The path is known but not with this method.
    MethodNotAllowed,
    NotFound,
}

/// A status code and a body.
pub struct ApiResponse {
    pub status: u16,
    pub body: String,
}

/// The path prefix of a version.
pub open spec fn version_prefix(v: ApiVersion) -> Seq<char> {
    match v {
        ApiVersion::V1 => "/v1"@,
        ApiVersion::V2 => "/v2"@,
    }
}

/// The version whose prefix a path starts with.
pub open spec fn version_of(path: Seq<char>) -> Option<ApiVersion> {
    if path.len() >= 3 && path.take(3) == "/v1"@ {
        Some(ApiVersion::V1)
    } else if path.len() >= 3 && path.take(3) == "/v2"@ {
        Some(ApiVersion::V2)
    } else {
        None
    }
}

/// The action of a method on the users resource.
pub open spec fn action_of(method: Seq<char>) -> Option<Action> {
    if method == "POST"@ {
        Some(Action::Create)
    } else if method == "GET"@ || method == "HEAD"@ {
        Some(Action::List)
    } else {
        None
    }
}

/// The route of a request: `/users` under a version prefix, by method.
pub open spec fn route_of(method: Seq<char>, path: Seq<char>) -> Route {
    match version_of(path) {
        Some(v) => if path.skip(3) == "/users"@ {
            match action_of(method) {
                Some(a) => Route::Endpoint(v, a),
                None => Route::MethodNotAllowed,
            }
        } else {
            Route::NotFound
        },
        None => Route::NotFound,
    }
}

/// The same route, as reached under another version.
pub open spec fn at_version(r: Route, v: ApiVersion) -> Route {
    match r {
        Route::Endpoint(_, a) => Route::Endpoint(v, a),
        _ => r,
    }
}

fn same_text(a: &str, b: &str) -> (r: bool)
    ensures
        r == (a@ == b@),
{
    a.to_owned() == b.to_owned()
}

fn version_of_path(path: &str) -> (r: Option<ApiVersion>)
    ensures
        r == version_of(path@),
{
    let n = path.unicode_len();
    if n < 3 {
        return None;
    }
    let head = path.substring_char(0, 3);
    assert(head@ =~= path@.take(3));
    if same_text(head, "/v1") {
        Some(ApiVersion::V1)
    } else if same_text(head, "/v2") {
        Some(ApiVersion::V2)
    } else {
        None
    }
}

fn action_of_method(method: &str) -> (r: Option<Action>)
    ensures
        r == action_of(method@),
{
    if same_text(method, "POST") {
        Some(Action::Create)
    } else if same_text(method, "GET") || same_text(method, "HEAD") {
        Some(Action::List)
    } else {
        None
    }
}

/// Dispatches a request by method and path. `POST` creates, `GET` (and `HEAD`)
/// lists; `/v1/users` and `/v2/users` are the only paths.
pub fn route(method: &str, path: &str) -> (r: Route)
    ensures
        r == route_of(method@, path@),
{
    match version_of_path(path) {
        Some(v) => {
            let n = path.unicode_len();
            let rest = path.substring_char(3, n);
            assert(rest@ =~= path@.skip(3));
            if same_text(rest, "/users") {
                match action_of_method(method) {
                    Some(a) => Route::Endpoint(v, a),
                    None => Route::MethodNotAllowed,
                }
            } else {
                Route::NotFound
            }
        },
        None => Route::NotFound,
    }
}

/// The two versions route alike: a request reaches under `/v1` whatever it
/// reaches under `/v2` with the rest of its path unchanged, and the other way round.
pub proof fn version_parity(method: Seq<char>, rest: Seq<char>)
    ensures
        route_of(method, version_prefix(ApiVersion::V1) + rest) == at_version(
            route_of(method, version_prefix(ApiVersion::V2) + rest),
            ApiVersion::V1,
        ),
        route_of(method, version_prefix(ApiVersion::V2) + rest) == at_version(
            route_of(method, version_prefix(ApiVersion::V1) + rest),
            ApiVersion::V2,
        ),
{
    reveal_strlit("/v1");
    reveal_strlit("/v2");
    let under_v1 = "/v1"@ + rest;
    let under_v2 = "/v2"@ + rest;
    assert(under_v1.take(3) =~= "/v1"@);
    assert(under_v2.take(3) =~= "/v2"@);
    assert(under_v1.skip(3) =~= rest);
    assert(under_v2.skip(3) =~= rest);
    assert("/v1"@[2] != "/v2"@[2]);
    assert(version_of(under_v1) == Some(ApiVersion::V1));
    assert(version_of(under_v2) == Some(ApiVersion::V2));
}

/// Creates a record from the payload, with a fresh identifier, and adds it.
/// Returns the record and what the store's `add_user` returned: the document
/// to write back, or why there is none.
pub fn create_user(store: &mut Store, payload: CreateUserPayload) -> (r: (User, Result<String, StoreError>))
    requires
        old(store).wf(),
    ensures
        final(store).wf(),
        r.0.name@ == payload.name@,
        r.0.email@ == payload.email@,
        is_v4(r.0.id),
        final(store)@ == added(old(store)@, r.0@),
        result_view(r.1) == add_result(old(store)@, r.0@),
{
    let user = User::new(payload.name, payload.email);
    let kept = user.duplicate();
    let stored = store.add_user(user);
    (kept, stored)
}

/// The body of a failed create.
pub open spec fn create_failure_body() -> Seq<char> {
    "Failed to create user"@
}

/// The response to a create, from the record and whether storing it (writing
/// the document back included) succeeded: 201 with the record as JSON, else
/// 500 with an opaque message.
pub fn create_response(user: &User, stored: &Result<(), StoreError>) -> (r: ApiResponse)
    ensures
        stored is Ok ==> r.status == 201 && r.body@ == user_text(user@, false),
        stored is Err ==> r.status == 500 && r.body@ == create_failure_body(),
{
    if stored.is_ok() {
        ApiResponse { status: 201, body: encode_user(user, false) }
    } else {
        ApiResponse { status: 500, body: "Failed to create user".to_owned() }
    }
}

/// The response to a list: 200 with every record, in order, as a JSON array.
pub fn get_users_handler(store: &Store) -> (r: ApiResponse)
    ensures
        r.status == 200,
        r.body@ == users_text(store@, false),
{
    let users = store.get_users();
    ApiResponse { status: 200, body: encode_users(&users, false) }
}

} // verus!
