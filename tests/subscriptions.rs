use zero2prod::form::{accepts_form, fields_from_pairs, is_form_media_type};
use zero2prod::{
    begin_subscription, decode_subscription, finish_subscription, health_check, not_found, route,
    FormData, FormError, FormField, Method, Route, StoreError, SubscribeAction, SubscriptionRecord,
};

const FORM: &str = "application/x-www-form-urlencoded";

/// Runs one subscription request against an in-memory table, the way the
/// server does against the database, and returns the status.
fn submit(table: &mut Vec<SubscriptionRecord>, media_type: &str, body: &str, reachable: bool) -> u16 {
    let decoded = decode_subscription(media_type, body.as_bytes());
    match begin_subscription(decoded, 7, 1_700_000_000_000_000) {
        SubscribeAction::Respond(resp) => {
            assert!(resp.body.is_empty());
            resp.status
        }
        SubscribeAction::Insert(rec) => {
            let write = if reachable {
                table.push(rec);
                Ok(())
            } else {
                Err(StoreError)
            };
            let resp = finish_subscription(write);
            assert!(resp.body.is_empty());
            resp.status
        }
    }
}

fn pairs(items: &[(&str, &str)]) -> Vec<(String, String)> {
    items.iter().map(|(k, v)| (k.to_string(), v.to_string())).collect()
}

#[test]
fn health_check_works() {
    assert_eq!(route(Method::Get, "/health_check"), Route::HealthCheck);
    let response = health_check();
    assert_eq!(response.status, 200);
    assert_eq!(0, response.body.len());
}

#[test]
fn subscribe_returns_a_200_for_valid_form_data() {
    let mut table = Vec::new();
    assert_eq!(route(Method::Post, "/subscriptions"), Route::Subscribe);
    let status = submit(&mut table, FORM, "name=le%20guin&email=ursula_le_guin%40gmail.com", true);
    assert_eq!(200, status);
    assert_eq!(table.len(), 1);
    assert_eq!(table[0].email, "ursula_le_guin@gmail.com");
    assert_eq!(table[0].name, "le guin");
    assert_eq!(table[0].id, 7);
    assert_eq!(table[0].subscribed_at, 1_700_000_000_000_000);
}

#[test]
fn subscribe_returns_a_400_when_data_is_missing() {
    let test_cases = vec![
        ("naem=le%20guin", "missing email"),
        ("email=ursula_le_guin%40gmail.com", "missing name"),
        ("", "missing both name and email"),
    ];
    for (invalid_body, error_message) in test_cases {
        let mut table = Vec::new();
        let status = submit(&mut table, FORM, invalid_body, true);
        assert_eq!(
            400, status,
            "The API did not fail with 400 Bad Request when the payload was {}.",
            error_message
        );
        assert!(table.is_empty());
    }
}

#[test]
fn missing_fields_are_named() {
    assert_eq!(
        decode_subscription(FORM, b"naem=le%20guin"),
        Err(FormError::MissingField(FormField::Email))
    );
    assert_eq!(
        decode_subscription(FORM, b"email=ursula_le_guin%40gmail.com"),
        Err(FormError::MissingField(FormField::Name))
    );
    assert_eq!(decode_subscription(FORM, b""), Err(FormError::MissingField(FormField::Email)));
}

#[test]
fn unreachable_store_gives_500_and_no_record() {
    let mut table = Vec::new();
    let status = submit(&mut table, FORM, "name=le%20guin&email=ursula_le_guin%40gmail.com", false);
    assert_eq!(500, status);
    assert!(table.is_empty());
    assert_eq!(finish_subscription(Err(StoreError)).status, 500);
    assert_eq!(finish_subscription(Ok(())).status, 200);
}

#[test]
fn each_accepted_request_stores_one_record() {
    let mut table = Vec::new();
    let body = "name=le%20guin&email=ursula_le_guin%40gmail.com";
    assert_eq!(submit(&mut table, FORM, body, true), 200);
    assert_eq!(submit(&mut table, FORM, body, true), 200);
    assert_eq!(table.len(), 2);
    assert_eq!(table[0], table[1]);
}

#[test]
fn decoding_the_same_body_twice_agrees() {
    let body = b"email=a%40b.c&name=Ada+Lovelace";
    let first = decode_subscription(FORM, body);
    let second = decode_subscription(FORM, body);
    assert_eq!(first, second);
    assert_eq!(
        first,
        Ok(FormData { email: "a@b.c".to_string(), name: "Ada Lovelace".to_string() })
    );
}

#[test]
fn extra_fields_are_ignored() {
    assert_eq!(
        decode_subscription(FORM, b"source=web&name=x&&email=y&utm=z"),
        Ok(FormData { email: "y".to_string(), name: "x".to_string() })
    );
}

#[test]
fn repeated_field_is_refused() {
    assert_eq!(
        decode_subscription(FORM, b"name=a&email=b&name=c"),
        Err(FormError::DuplicateField(FormField::Name))
    );
    assert_eq!(
        decode_subscription(FORM, b"email=a&email=b"),
        Err(FormError::DuplicateField(FormField::Email))
    );
}

#[test]
fn other_content_types_are_refused() {
    assert_eq!(
        decode_subscription("application/json", b"name=a&email=b"),
        Err(FormError::UnsupportedContentType)
    );
    assert_eq!(decode_subscription("", b"name=a&email=b"), Err(FormError::UnsupportedContentType));
    let mut table = Vec::new();
    assert_eq!(submit(&mut table, "text/plain", "name=a&email=b", true), 400);
    assert!(table.is_empty());
}

#[test]
fn media_type_is_compared_without_case() {
    assert!(accepts_form("Application/X-WWW-Form-URLEncoded"));
    assert!(accepts_form(FORM));
    assert!(!accepts_form("application/x-www-form"));
    assert!(is_form_media_type(FORM));
    assert!(!is_form_media_type("Application/X-WWW-Form-URLEncoded"));
}

#[test]
fn fields_are_read_from_pairs() {
    assert_eq!(
        fields_from_pairs(&pairs(&[("email", "e"), ("name", "n")])),
        Ok(FormData { email: "e".to_string(), name: "n".to_string() })
    );
    assert_eq!(fields_from_pairs(&pairs(&[])), Err(FormError::MissingField(FormField::Email)));
    assert_eq!(
        fields_from_pairs(&pairs(&[("Name", "n"), ("email", "e")])),
        Err(FormError::MissingField(FormField::Name))
    );
    assert_eq!(
        fields_from_pairs(&pairs(&[("name", "n"), ("name", "m"), ("email", "e"), ("email", "f")])),
        Err(FormError::DuplicateField(FormField::Name))
    );
}

#[test]
fn unknown_routes_are_not_found() {
    assert_eq!(route(Method::Post, "/health_check"), Route::NotFound);
    assert_eq!(route(Method::Get, "/subscriptions"), Route::NotFound);
    assert_eq!(route(Method::Other, "/health_check"), Route::NotFound);
    assert_eq!(route(Method::Get, "/health_check/"), Route::NotFound);
    assert_eq!(route(Method::Get, "/"), Route::NotFound);
    let response = not_found();
    assert_eq!(response.status, 404);
    assert!(response.body.is_empty());
}
