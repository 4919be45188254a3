use users_api::api::{
    create_response, create_user, get_users_handler, route, Action, ApiVersion, Route,
};
use users_api::codec::{encode_user, encode_users, frame_array, frame_object};
use users_api::store::{Store, StoreError};
use users_api::user::{CreateUserPayload, User};

const ADA_ID: u128 = 0x67e5504410b1426f9247bb680e5fe0c8;

fn ada() -> User {
    User { id: ADA_ID, name: "Ada".to_string(), email: "ada@example.com".to_string() }
}

fn record(id: u128, name: &str) -> User {
    User { id, name: name.to_string(), email: format!("{}@example.com", name) }
}

fn payload(name: &str, email: &str) -> CreateUserPayload {
    CreateUserPayload { name: name.to_string(), email: email.to_string() }
}

#[test]
fn new_user_keeps_name_and_email() {
    let u = User::new("Ada".to_string(), "ada@example.com".to_string());
    assert_eq!(u.name, "Ada");
    assert_eq!(u.email, "ada@example.com");
    assert_eq!((u.id >> 76) & 0xf, 4);
    assert_eq!((u.id >> 62) & 3, 2);
}

#[test]
fn new_users_get_distinct_ids() {
    let a = User::new("a".to_string(), "a@x".to_string());
    let b = User::new("a".to_string(), "a@x".to_string());
    assert_ne!(a.id, b.id);
}

#[test]
fn id_text_is_hyphenated_lower_case() {
    assert_eq!(ada().id_text(), "67e55044-10b1-426f-9247-bb680e5fe0c8");
    let u = User::new("x".to_string(), "y".to_string());
    let t = u.id_text();
    assert_eq!(t.len(), 36);
    assert_eq!(&t[14..15], "4");
}

#[test]
fn duplicate_copies_every_field() {
    let a = ada();
    let b = a.duplicate();
    assert_eq!(b.id, a.id);
    assert_eq!(b.name, a.name);
    assert_eq!(b.email, a.email);
}

#[test]
fn frame_object_compact_and_pretty() {
    assert_eq!(frame_object("\"i\"", "\"n\"", "\"e\"", false), "{\"id\":\"i\",\"name\":\"n\",\"email\":\"e\"}");
    assert_eq!(
        frame_object("\"i\"", "\"n\"", "\"e\"", true),
        "  {\n    \"id\": \"i\",\n    \"name\": \"n\",\n    \"email\": \"e\"\n  }"
    );
}

#[test]
fn frame_array_layouts() {
    assert_eq!(frame_array(&vec![], false), "[]");
    assert_eq!(frame_array(&vec![], true), "[]");
    assert_eq!(frame_array(&vec!["1".to_string()], false), "[1]");
    assert_eq!(frame_array(&vec!["1".to_string(), "2".to_string()], false), "[1,2]");
    assert_eq!(frame_array(&vec!["  1".to_string(), "  2".to_string()], true), "[\n  1,\n  2\n]");
}

#[test]
fn encode_user_quotes_and_escapes() {
    assert_eq!(
        encode_user(&ada(), false),
        "{\"id\":\"67e55044-10b1-426f-9247-bb680e5fe0c8\",\"name\":\"Ada\",\"email\":\"ada@example.com\"}"
    );
    let odd = User { id: 1, name: "A \"q\"\n".to_string(), email: "b\\c".to_string() };
    assert_eq!(
        encode_user(&odd, false),
        "{\"id\":\"00000000-0000-0000-0000-000000000001\",\"name\":\"A \\\"q\\\"\\n\",\"email\":\"b\\\\c\"}"
    );
}

#[test]
fn encode_user_escapes_control_characters() {
    let odd = User { id: 0xff, name: "\u{1}\t\u{8}\u{c}\r\u{1f}".to_string(), email: "é/".to_string() };
    assert_eq!(
        encode_user(&odd, false),
        "{\"id\":\"00000000-0000-0000-0000-0000000000ff\",\"name\":\"\\u0001\\t\\b\\f\\r\\u001f\",\"email\":\"é/\"}"
    );
}

#[test]
fn empty_and_odd_names_are_created() {
    let mut s = Store::new();
    let (u, stored) = create_user(&mut s, payload("", "not-an-email"));
    let r = create_response(&u, &stored.map(|_| ()));
    assert_eq!(r.status, 201);
    assert!(r.body.ends_with(",\"name\":\"\",\"email\":\"not-an-email\"}"));
}

#[test]
fn encode_users_pretty_document() {
    assert_eq!(encode_users(&vec![], true), "[]");
    let doc = encode_users(&vec![ada()], true);
    assert_eq!(
        doc,
        "[\n  {\n    \"id\": \"67e55044-10b1-426f-9247-bb680e5fe0c8\",\n    \"name\": \"Ada\",\n    \"email\": \"ada@example.com\"\n  }\n]"
    );
}

#[test]
fn empty_store_and_document() {
    let s = Store::new();
    assert_eq!(s.len(), 0);
    assert!(s.get_users().is_empty());
    assert_eq!(Store::empty_document(), "[]");
}

#[test]
fn cold_start_lists_nothing() {
    let s = Store::from_loaded(Err(StoreError::Io)).unwrap();
    assert!(s.get_users().is_empty());
    let s = Store::from_loaded(Err(StoreError::Parse)).unwrap();
    assert_eq!(s.len(), 0);
    let r = get_users_handler(&Store::from_loaded(Ok(vec![])).unwrap());
    assert_eq!(r.status, 200);
    assert_eq!(r.body, "[]");
}

#[test]
fn loaded_records_are_kept_in_order() {
    let s = Store::from_loaded(Ok(vec![record(1, "a"), record(2, "b")])).unwrap();
    let us = s.get_users();
    assert_eq!(us.len(), 2);
    assert_eq!(us[0].name, "a");
    assert_eq!(us[1].name, "b");
}

#[test]
fn loaded_records_with_shared_ids_are_reported() {
    let s = Store::from_loaded(Ok(vec![record(1, "a"), record(1, "b")]));
    assert!(matches!(s, Err(StoreError::DuplicateId)));
}

#[test]
fn add_after_corrupt_file_starts_afresh() {
    let mut s = Store::from_loaded(Err(StoreError::Parse)).unwrap();
    let doc = s.add_user(record(5, "e")).unwrap();
    assert_eq!(doc, encode_users(&vec![record(5, "e")], true));
    assert_eq!(s.len(), 1);
}

#[test]
fn add_user_returns_the_whole_document() {
    let mut s = Store::new();
    let doc = s.add_user(ada()).unwrap();
    assert_eq!(doc, encode_users(&vec![ada()], true));
    assert!(s.contains_id(ADA_ID));
    assert!(!s.contains_id(ADA_ID + 1));
}

#[test]
fn add_user_refuses_a_taken_id() {
    let mut s = Store::new();
    s.add_user(record(7, "a")).unwrap();
    assert_eq!(s.add_user(record(7, "b")), Err(StoreError::DuplicateId));
    let us = s.get_users();
    assert_eq!(us.len(), 1);
    assert_eq!(us[0].name, "a");
}

#[test]
fn adds_are_listed_in_order() {
    let mut s = Store::new();
    for i in 0..5u128 {
        s.add_user(record(i + 10, &format!("u{}", i))).unwrap();
    }
    let us = s.get_users();
    assert_eq!(us.len(), 5);
    for (i, u) in us.iter().enumerate() {
        assert_eq!(u.id, i as u128 + 10);
        assert_eq!(u.name, format!("u{}", i));
    }
}

#[test]
fn many_creates_keep_every_record_once() {
    let mut s = Store::new();
    let mut ids = Vec::new();
    for i in 0..50 {
        let (u, stored) = create_user(&mut s, payload(&format!("n{}", i), "e@x"));
        assert!(stored.is_ok());
        ids.push(u.id);
    }
    let listed: Vec<u128> = s.get_users().iter().map(|u| u.id).collect();
    assert_eq!(listed, ids);
    let mut sorted = ids.clone();
    sorted.sort();
    sorted.dedup();
    assert_eq!(sorted.len(), 50);
}

#[test]
fn list_twice_gives_equal_records() {
    let mut s = Store::new();
    s.add_user(record(3, "c")).unwrap();
    let a = get_users_handler(&s);
    let b = get_users_handler(&s);
    assert_eq!(a.status, b.status);
    assert_eq!(a.body, b.body);
}

#[test]
fn create_then_list_round_trip() {
    let mut s = Store::new();
    let (u, stored) = create_user(&mut s, payload("Ada", "ada@example.com"));
    let stored = stored.map(|_| ());
    let created = create_response(&u, &stored);
    assert_eq!(created.status, 201);
    let id = u.id_text();
    assert_eq!(
        created.body,
        format!("{{\"id\":\"{}\",\"name\":\"Ada\",\"email\":\"ada@example.com\"}}", id)
    );
    let listed = get_users_handler(&s);
    assert_eq!(listed.status, 200);
    assert_eq!(listed.body, format!("[{}]", created.body));
}

#[test]
fn failed_store_gives_opaque_500() {
    let r = create_response(&ada(), &Err(StoreError::Io));
    assert_eq!(r.status, 500);
    assert_eq!(r.body, "Failed to create user");
    let r = create_response(&ada(), &Err(StoreError::DuplicateId));
    assert_eq!(r.status, 500);
    assert_eq!(r.body, "Failed to create user");
}

#[test]
fn routes_by_method_and_path() {
    assert_eq!(route("POST", "/v1/users"), Route::Endpoint(ApiVersion::V1, Action::Create));
    assert_eq!(route("GET", "/v1/users"), Route::Endpoint(ApiVersion::V1, Action::List));
    assert_eq!(route("HEAD", "/v2/users"), Route::Endpoint(ApiVersion::V2, Action::List));
    assert_eq!(route("DELETE", "/v1/users"), Route::MethodNotAllowed);
    assert_eq!(route("GET", "/v3/users"), Route::NotFound);
    assert_eq!(route("GET", "/v1/users/"), Route::NotFound);
    assert_eq!(route("GET", "/users"), Route::NotFound);
    assert_eq!(route("GET", ""), Route::NotFound);
}

#[test]
fn versions_behave_alike() {
    for m in ["GET", "POST", "PUT", "HEAD"] {
        for rest in ["/users", "/other", ""] {
            let a = route(m, &format!("/v1{}", rest));
            let b = route(m, &format!("/v2{}", rest));
            match (a, b) {
                (Route::Endpoint(ApiVersion::V1, x), Route::Endpoint(ApiVersion::V2, y)) => assert_eq!(x, y),
                (x, y) => assert_eq!(x, y),
            }
        }
    }
    let mut s1 = Store::new();
    let mut s2 = Store::new();
    let (u1, r1) = create_user(&mut s1, payload("Ada", "ada@example.com"));
    let (u2, r2) = create_user(&mut s2, payload("Ada", "ada@example.com"));
    let c1 = create_response(&u1, &r1.map(|_| ()));
    let c2 = create_response(&u2, &r2.map(|_| ()));
    assert_eq!(c1.status, c2.status);
    assert_eq!(c1.body.replace(&u1.id_text(), "ID"), c2.body.replace(&u2.id_text(), "ID"));
}
