use uma_protection::errors::ErrorMessage;
use uma_protection::federation::ResourceDescription;
use uma_protection::introspection::{introspect_token, GrantedPermission, RptData};
use uma_protection::permission::{request_permission_ticket, Permission};
use uma_protection::registration::{
    create_resource_registration, delete_resource_registration, list_resource_registration,
    read_resource_registration, update_resource_registration,
};
use uma_protection::request::HttpMethod;
use uma_protection::storage::{KeyValueStore, MemoryStore};

fn description(scopes: &[&str]) -> ResourceDescription {
    ResourceDescription {
        resource_scopes: scopes.iter().map(|s| s.to_string()).collect(),
        description: None,
        icon_uri: None,
        name: None,
        resource_type: None,
    }
}

fn assert_unsupported(e: &ErrorMessage) {
    assert_eq!(e.status_code, 405);
    assert_eq!(e.error_code, "unsupported_method_type");
}

#[test]
fn resource_registration_test() {
    let mut store = MemoryStore::<ResourceDescription>::new();

    // Create: POST rreg/ with a full description.
    let submitted = ResourceDescription {
        resource_scopes: vec![
            "read-public".to_string(),
            "post-updates".to_string(),
            "read-private".to_string(),
            "http://www.example.com/scopes/all".to_string(),
        ],
        description: None,
        icon_uri: Some("http://www.example.com/icons/sharesocial.png".to_string()),
        name: Some("Tweedl Social Service".to_string()),
        resource_type: Some("http://www.example.com/rsrcs/socialstream/140-compatible".to_string()),
    };
    let created = create_resource_registration(&mut store, HttpMethod::Post, submitted.clone())
        .expect("create must succeed");
    assert_eq!(created._id.len(), 36);
    assert!(created.user_access_policy_uri.is_none());
    assert!(created.resource_description.is_none());

    // Read: GET rreg/{id} answers the stored description under the same id.
    let path = format!("/{}", created._id);
    let read = read_resource_registration(&store, HttpMethod::Get, &path)
        .expect("read must succeed");
    assert_eq!(read._id, created._id);
    let stored = read.resource_description.expect("read answers the description");
    assert_eq!(stored.resource_scopes, submitted.resource_scopes);
    assert_eq!(stored.icon_uri, submitted.icon_uri);
    assert_eq!(stored.name, submitted.name);
    assert_eq!(stored.resource_type, submitted.resource_type);

    // Update: PUT rreg/{id} replaces the description wholesale.
    let replacement = ResourceDescription {
        resource_scopes: vec![
            "http://photoz.example.com/dev/scopes/view".to_string(),
            "public-read".to_string(),
        ],
        description: Some("Collection of digital photographs".to_string()),
        icon_uri: Some("http://www.example.com/icons/sky.png".to_string()),
        name: Some("Photo Album".to_string()),
        resource_type: Some("http://www.example.com/rsrcs/photoalbum".to_string()),
    };
    let updated =
        update_resource_registration(&mut store, HttpMethod::Put, &path, replacement.clone())
            .expect("update must succeed");
    assert_eq!(updated._id, created._id);
    let reread = read_resource_registration(&store, HttpMethod::Get, &path)
        .expect("read after update must succeed");
    let reread_description = reread.resource_description.expect("description answered");
    assert_eq!(reread_description.resource_scopes, replacement.resource_scopes);
    assert_eq!(reread_description.name, replacement.name);

    // Delete: DELETE rreg/{id}, then the listing is empty again.
    let deleted = delete_resource_registration(&mut store, HttpMethod::Delete, &path)
        .expect("delete must succeed");
    assert_eq!(deleted._id, created._id);
    let root = "/".to_string();
    let listed = list_resource_registration(&store, HttpMethod::Get, &root)
        .expect("list must succeed");
    assert!(listed.is_empty());
}

#[test]
fn permission_test() {
    let mut store = MemoryStore::<Vec<Permission>>::new();
    let requested = vec![Permission::new(
        "112210f47de98100".to_string(),
        vec![
            "view".to_string(),
            "http://photoz.example.com/dev/actions/print".to_string(),
        ],
    )];
    let response = request_permission_ticket(&mut store, HttpMethod::Post, requested)
        .expect("ticket issuance must succeed");
    assert_eq!(response.ticket.len(), 36);
    let stored = store.get(&response.ticket).expect("the permission set is stored");
    assert_eq!(stored.len(), 1);
    assert_eq!(stored[0].resource_id, "112210f47de98100");
    assert_eq!(
        stored[0].resource_scopes,
        vec![
            "view".to_string(),
            "http://photoz.example.com/dev/actions/print".to_string()
        ]
    );
}

#[test]
fn token_introspection_test() {
    let mut store = MemoryStore::<RptData>::new();
    store.set(
        "sbjsbhs-rpt".to_string(),
        RptData {
            iat: 1256912345,
            exp: 1256953732,
            nbf: None,
            permissions: vec![GrantedPermission {
                resource_id: "112210f47de98100".to_string(),
                resource_scopes: vec![
                    "view".to_string(),
                    "http://photoz.example.com/dev/actions/print".to_string(),
                ],
                exp: Some(1256953732),
                iat: None,
                nbf: None,
            }],
        },
    );
    let token = "sbjsbhs-rpt".to_string();
    let answer = introspect_token(&store, HttpMethod::Post, &token, 1256920000)
        .expect("introspection must succeed");
    assert!(answer.active);
    assert_eq!(answer.exp, Some(1256953732));
    assert_eq!(answer.iat, Some(1256912345));
    assert_eq!(answer.permissions.len(), 1);
    assert_eq!(answer.permissions[0].resource_id, "112210f47de98100");
    assert_eq!(answer.permissions[0].exp, Some(1256953732));
    assert_eq!(answer.permissions[0].iat, None);
    assert_eq!(answer.permissions[0].nbf, None);
}

#[test]
fn create_then_read_round_trip() {
    let mut store = MemoryStore::<ResourceDescription>::new();
    let submitted = description(&["read", "write"]);
    let created = create_resource_registration(&mut store, HttpMethod::Post, submitted.clone())
        .expect("create must succeed");
    let path = format!("/{}", created._id);
    let read = read_resource_registration(&store, HttpMethod::Get, &path)
        .expect("read must succeed");
    let stored = read.resource_description.expect("description answered");
    assert_eq!(stored.resource_scopes, submitted.resource_scopes);
    assert_eq!(stored.description, submitted.description);
    assert_eq!(stored.icon_uri, submitted.icon_uri);
    assert_eq!(stored.name, submitted.name);
    assert_eq!(stored.resource_type, submitted.resource_type);
}

#[test]
fn delete_nonexistent_then_twice() {
    let mut store = MemoryStore::<ResourceDescription>::new();
    let missing = "/no-such-id".to_string();
    let e = delete_resource_registration(&mut store, HttpMethod::Delete, &missing)
        .expect_err("deleting a nonexistent id must fail");
    assert_eq!(e.status_code, 404);
    assert_eq!(e.error_code, "not_found");

    let created = create_resource_registration(&mut store, HttpMethod::Post, description(&["s"]))
        .expect("create must succeed");
    let path = format!("/{}", created._id);
    delete_resource_registration(&mut store, HttpMethod::Delete, &path)
        .expect("first delete succeeds");
    let second = delete_resource_registration(&mut store, HttpMethod::Delete, &path)
        .expect_err("second delete must fail");
    assert_eq!(second.status_code, 404);
    assert_eq!(second.error_code, "not_found");
}

#[test]
fn list_reflects_exactly_the_stored_ids() {
    let mut store = MemoryStore::<ResourceDescription>::new();
    let mut ids = Vec::new();
    for scopes in [["a"], ["b"], ["c"]] {
        let created =
            create_resource_registration(&mut store, HttpMethod::Post, description(&scopes))
                .expect("create must succeed");
        ids.push(created._id);
    }
    let root = "/".to_string();
    let mut listed = list_resource_registration(&store, HttpMethod::Get, &root)
        .expect("list must succeed");
    assert_eq!(listed.len(), 3);
    listed.sort();
    ids.sort();
    assert_eq!(listed, ids);
}

#[test]
fn update_of_a_missing_id_stores_silently() {
    let mut store = MemoryStore::<ResourceDescription>::new();
    let path = "/never-created".to_string();
    let updated =
        update_resource_registration(&mut store, HttpMethod::Put, &path, description(&["x"]))
            .expect("update of a missing id succeeds");
    assert_eq!(updated._id, "never-created");
    let read = read_resource_registration(&store, HttpMethod::Get, &path)
        .expect("the silently created description is readable");
    let stored = read.resource_description.expect("description answered");
    assert_eq!(stored.resource_scopes, vec!["x".to_string()]);
}

#[test]
fn registration_rejects_unsupported_methods() {
    let mut store = MemoryStore::<ResourceDescription>::new();
    let path = "/some-id".to_string();
    let e = create_resource_registration(&mut store, HttpMethod::Get, description(&["s"]))
        .expect_err("create with GET must fail");
    assert_unsupported(&e);
    let e = read_resource_registration(&store, HttpMethod::Post, &path)
        .expect_err("read with POST must fail");
    assert_unsupported(&e);
    let e = update_resource_registration(&mut store, HttpMethod::Delete, &path, description(&["s"]))
        .expect_err("update with DELETE must fail");
    assert_unsupported(&e);
    let e = delete_resource_registration(&mut store, HttpMethod::Put, &path)
        .expect_err("delete with PUT must fail");
    assert_unsupported(&e);
    let root = "/".to_string();
    let e = list_resource_registration(&store, HttpMethod::Post, &root)
        .expect_err("list with POST must fail");
    assert_unsupported(&e);
}

#[test]
fn list_rejects_a_non_root_target() {
    let store = MemoryStore::<ResourceDescription>::new();
    let target = "/some-id".to_string();
    let e = list_resource_registration(&store, HttpMethod::Get, &target)
        .expect_err("list of a non-root target must fail");
    assert_eq!(e.status_code, 400);
    assert_eq!(e.error_code, "invalid_request");
}

#[test]
fn two_identical_ticket_requests_yield_distinct_resolvable_tickets() {
    let mut store = MemoryStore::<Vec<Permission>>::new();
    let request = || {
        vec![Permission::new(
            "R1".to_string(),
            vec!["view".to_string()],
        )]
    };
    let first = request_permission_ticket(&mut store, HttpMethod::Post, request())
        .expect("first request succeeds");
    let second = request_permission_ticket(&mut store, HttpMethod::Post, request())
        .expect("second request succeeds");
    assert_ne!(first.ticket, second.ticket);
    for ticket in [&first.ticket, &second.ticket] {
        let stored = store.get(ticket).expect("each ticket resolves");
        assert_eq!(stored.len(), 1);
        assert_eq!(stored[0].resource_id, "R1");
        assert_eq!(stored[0].resource_scopes, vec!["view".to_string()]);
    }
}

#[test]
fn scenario_register_view_print() {
    let mut store = MemoryStore::<ResourceDescription>::new();
    let created =
        create_resource_registration(&mut store, HttpMethod::Post, description(&["view", "print"]))
            .expect("registration answers 201 with a fresh id");
    assert_eq!(created._id.len(), 36);
    let path = format!("/{}", created._id);
    let read = read_resource_registration(&store, HttpMethod::Get, &path)
        .expect("reading the fresh id answers 200");
    assert_eq!(
        read.resource_description.expect("description answered").resource_scopes,
        vec!["view".to_string(), "print".to_string()]
    );
    delete_resource_registration(&mut store, HttpMethod::Delete, &path)
        .expect("deletion answers 204");
    let e = read_resource_registration(&store, HttpMethod::Get, &path)
        .expect_err("reading the deleted id answers 404");
    assert_eq!(e.status_code, 404);
    assert_eq!(e.error_code, "not_found");
}

#[test]
fn scenario_ticket_for_r1() {
    let mut store = MemoryStore::<Vec<Permission>>::new();
    let requested = vec![Permission::new("R1".to_string(), vec!["view".to_string()])];
    let response = request_permission_ticket(&mut store, HttpMethod::Post, requested)
        .expect("ticket issuance answers 201");
    assert!(!response.ticket.is_empty());
    assert_ne!(response.ticket, "R1");
}

#[test]
fn ticket_request_rejects_unsupported_methods() {
    let mut store = MemoryStore::<Vec<Permission>>::new();
    let requested = vec![Permission::new("R1".to_string(), vec![])];
    let e = request_permission_ticket(&mut store, HttpMethod::Get, requested)
        .expect_err("ticket request with GET must fail");
    assert_unsupported(&e);
}

#[test]
fn introspection_rejects_unsupported_methods() {
    let store = MemoryStore::<RptData>::new();
    let token = "rpt".to_string();
    let e = introspect_token(&store, HttpMethod::Get, &token, 0)
        .expect_err("introspection with GET must fail");
    assert_unsupported(&e);
}

#[test]
fn introspection_of_an_unknown_token_is_inactive() {
    let store = MemoryStore::<RptData>::new();
    let token = "unknown".to_string();
    let answer = introspect_token(&store, HttpMethod::Post, &token, 0)
        .expect("introspection succeeds");
    assert!(!answer.active);
    assert_eq!(answer.exp, None);
    assert_eq!(answer.iat, None);
    assert!(answer.permissions.is_empty());
}

#[test]
fn introspection_outside_the_window_is_inactive() {
    let mut store = MemoryStore::<RptData>::new();
    store.set(
        "rpt".to_string(),
        RptData { iat: 100, exp: 200, nbf: Some(150), permissions: vec![] },
    );
    let token = "rpt".to_string();
    let expired = introspect_token(&store, HttpMethod::Post, &token, 250).unwrap();
    assert!(!expired.active);
    let premature = introspect_token(&store, HttpMethod::Post, &token, 120).unwrap();
    assert!(!premature.active, "before the not-before instant the token is inactive");
    let not_yet_issued = introspect_token(&store, HttpMethod::Post, &token, 50).unwrap();
    assert!(!not_yet_issued.active);
}

#[test]
fn introspection_refines_permission_timestamps() {
    let mut store = MemoryStore::<RptData>::new();
    store.set(
        "rpt".to_string(),
        RptData {
            iat: 1000,
            exp: 2000,
            nbf: Some(1100),
            permissions: vec![
                GrantedPermission {
                    resource_id: "a".to_string(),
                    resource_scopes: vec!["view".to_string()],
                    exp: Some(3000),
                    iat: Some(900),
                    nbf: Some(1050),
                },
                GrantedPermission {
                    resource_id: "b".to_string(),
                    resource_scopes: vec![],
                    exp: Some(1500),
                    iat: Some(1200),
                    nbf: None,
                },
            ],
        },
    );
    let token = "rpt".to_string();
    let answer = introspect_token(&store, HttpMethod::Post, &token, 1300).unwrap();
    assert!(answer.active);
    // The token-level exp of 2000 pre-dates the permission-level 3000 and
    // governs; the token-level iat of 1000 post-dates 900 and governs; the
    // token-level nbf of 1100 post-dates 1050 and governs.
    assert_eq!(answer.permissions[0].exp, Some(2000));
    assert_eq!(answer.permissions[0].iat, Some(1000));
    assert_eq!(answer.permissions[0].nbf, Some(1100));
    // A stricter permission-level bound stays.
    assert_eq!(answer.permissions[1].exp, Some(1500));
    assert_eq!(answer.permissions[1].iat, Some(1200));
    assert_eq!(answer.permissions[1].nbf, None);
    assert_eq!(answer.permissions[0].resource_scopes, vec!["view".to_string()]);
}
