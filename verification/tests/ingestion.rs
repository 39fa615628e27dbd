//! Scenario behaviour of the ingestion pipeline: form assembly, the handler
//! decisions, and the record built for persistence.

use zero2prod::outcome::{health_check, HttpOutcome};
use zero2prod::persistence::subscription_record;
use zero2prod::subscriptions::{
    form_from_pairs, subscribe_request, subscribe_response, FormData, FormError, StorageError,
    SubscribeAction,
};

fn pairs(entries: &[(&str, &str)]) -> Vec<(String, String)> {
    entries
        .iter()
        .map(|(k, v)| (k.to_string(), v.to_string()))
        .collect()
}

#[test]
fn valid_submission_is_persisted_verbatim() {
    let form = form_from_pairs(&pairs(&[
        ("name", "le guin"),
        ("email", "ursula_le_guin@gmail.com"),
    ]))
    .unwrap();
    match subscribe_request(form) {
        SubscribeAction::Persist(subscriber) => {
            let record = subscription_record(&subscriber);
            assert_eq!(record.email, "ursula_le_guin@gmail.com");
            assert_eq!(record.name, "le guin");
            let outcome = subscribe_response(&Ok(()));
            assert_eq!(outcome, HttpOutcome::Success);
            assert_eq!(outcome.status_code(), 200);
        }
        SubscribeAction::Reject(_) => panic!("a valid submission must be persisted"),
    }
}

#[test]
fn empty_name_is_rejected_before_storage() {
    let form = FormData {
        email: "ursula_le_guin@gmail.com".to_string(),
        name: String::new(),
    };
    match subscribe_request(form) {
        SubscribeAction::Reject(outcome) => {
            assert_eq!(outcome, HttpOutcome::BadRequest);
            assert_eq!(outcome.status_code(), 400);
        }
        SubscribeAction::Persist(_) => panic!("an empty name must be rejected"),
    }
}

#[test]
fn invalid_email_is_rejected_before_storage() {
    let form = FormData {
        email: "not-an-email".to_string(),
        name: "le guin".to_string(),
    };
    match subscribe_request(form) {
        SubscribeAction::Reject(outcome) => {
            assert_eq!(outcome, HttpOutcome::BadRequest);
            assert_eq!(outcome.status_code(), 400);
        }
        SubscribeAction::Persist(_) => panic!("an invalid email must be rejected"),
    }
}

#[test]
fn missing_email_field_is_a_client_error() {
    let r = form_from_pairs(&pairs(&[("name", "le guin")]));
    assert_eq!(r.unwrap_err(), FormError::MissingField);
}

#[test]
fn missing_name_field_is_a_client_error() {
    let r = form_from_pairs(&pairs(&[("email", "ursula_le_guin@gmail.com")]));
    assert_eq!(r.unwrap_err(), FormError::MissingField);
}

#[test]
fn duplicate_field_is_a_client_error() {
    let r = form_from_pairs(&pairs(&[
        ("name", "le guin"),
        ("name", "ursula"),
        ("email", "ursula_le_guin@gmail.com"),
    ]));
    assert_eq!(r.unwrap_err(), FormError::DuplicateField);
}

#[test]
fn unknown_fields_are_ignored() {
    let form = form_from_pairs(&pairs(&[
        ("name", "le guin"),
        ("hue", "blue"),
        ("email", "ursula_le_guin@gmail.com"),
    ]))
    .unwrap();
    assert_eq!(form.name, "le guin");
    assert_eq!(form.email, "ursula_le_guin@gmail.com");
}

#[test]
fn health_check_succeeds_without_any_dependency() {
    let outcome = health_check();
    assert_eq!(outcome, HttpOutcome::Success);
    assert_eq!(outcome.status_code(), 200);
}

#[test]
fn storage_failure_maps_to_internal_server_error() {
    let failed: Result<(), StorageError> = Err(StorageError {
        detail: "connection refused".to_string(),
    });
    let outcome = subscribe_response(&failed);
    assert_eq!(outcome, HttpOutcome::InternalServerError);
    assert_eq!(outcome.status_code(), 500);
}

#[test]
fn records_carry_fresh_identifiers() {
    let form = FormData {
        email: "ursula_le_guin@gmail.com".to_string(),
        name: "le guin".to_string(),
    };
    let subscriber = form.try_into().unwrap();
    let first = subscription_record(&subscriber);
    let second = subscription_record(&subscriber);
    assert_ne!(first.id, second.id);
}
