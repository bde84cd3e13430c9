use std::sync::atomic::{AtomicUsize, Ordering};
use std::sync::{Arc, Mutex};

use url::ParseError;
use workos::identifiers::{ApiKey, ClientId};
use workos::key_set::{KeySet, KeySetSlot};
use workos::user_management::{JwksError, JwksLookup, UserManagement};
use workos::workos::WorkOs;

/// What a lookup came to, with the failure of a fetch told apart from the
/// errors of the lookup itself.
#[derive(Debug)]
enum Failure {
    Lookup(JwksError),
    Fetch(String),
}

/// One whole lookup as a caller runs it: the steps of the library around a
/// lock and a fetch. `fetch` stands for the transport and counts its calls.
fn lookup(
    workos: &WorkOs,
    slot: &Mutex<KeySetSlot>,
    fetches: &AtomicUsize,
    fetch: &dyn Fn(&str) -> Result<String, String>,
) -> Result<KeySet, Failure> {
    let user_management = workos.user_management();
    user_management.require_client_id().map_err(Failure::Lookup)?;
    let mut guard = slot
        .lock()
        .map_err(|err| Failure::Lookup(JwksError::Poison(err.to_string())))?;
    match user_management.jwks(&guard).map_err(Failure::Lookup)? {
        JwksLookup::Cached(key_set) => Ok(key_set),
        JwksLookup::Fetch { source, request } => {
            fetches.fetch_add(1, Ordering::SeqCst);
            let outcome = fetch(&request.url).map(|document| KeySet::new(source, document));
            guard.complete(outcome).map_err(Failure::Fetch)
        }
    }
}

fn client() -> WorkOs {
    WorkOs::builder(&ApiKey::from("sk_example_123456789"))
        .client_id(&ClientId::from("client_123456789"))
        .build()
}

#[test]
fn the_first_lookup_fetches_and_the_next_ones_do_not() {
    let workos = client();
    let slot = Mutex::new(KeySetSlot::new());
    let fetches = AtomicUsize::new(0);
    let fetch = |url: &str| Ok(format!("{{\"keys\":[],\"from\":\"{url}\"}}"));

    let first = lookup(&workos, &slot, &fetches, &fetch).unwrap();
    assert_eq!(fetches.load(Ordering::SeqCst), 1);
    assert_eq!(first.source(), &ClientId::from("client_123456789"));
    assert_eq!(
        first.document(),
        "{\"keys\":[],\"from\":\"https://api.workos.com/sso/jwks/client_123456789\"}"
    );

    let other = |_: &str| Ok("another document".to_string());
    for _ in 0..5 {
        let again = lookup(&workos, &slot, &fetches, &other).unwrap();
        assert_eq!(again, first);
    }
    assert_eq!(fetches.load(Ordering::SeqCst), 1);
    assert_eq!(slot.lock().unwrap().get(), Some(first));
}

#[test]
fn first_lookups_through_one_lock_fetch_once() {
    let workos = Arc::new(client());
    let slot = Arc::new(Mutex::new(KeySetSlot::new()));
    let fetches = Arc::new(AtomicUsize::new(0));

    let callers: Vec<_> = (0..8)
        .map(|n| (Arc::clone(&workos), Arc::clone(&slot), Arc::clone(&fetches), n))
        .collect();
    let results: Vec<KeySet> = callers
        .into_iter()
        .map(|(workos, slot, fetches, n)| {
            let fetch = move |_: &str| Ok(format!("document of caller {n}"));
            lookup(&workos, &slot, &fetches, &fetch).unwrap()
        })
        .collect();

    assert_eq!(fetches.load(Ordering::SeqCst), 1);
    assert_eq!(results.len(), 8);
    for result in &results {
        assert_eq!(result, &results[0]);
    }
    assert_eq!(results[0].document(), "document of caller 0");
    assert_eq!(slot.lock().unwrap().get().as_ref(), Some(&results[0]));
}

#[test]
fn a_lookup_without_client_id_fails_and_fetches_nothing() {
    let workos = WorkOs::new(&ApiKey::from("sk_example_123456789"));
    let slot = Mutex::new(KeySetSlot::new());
    let fetches = AtomicUsize::new(0);
    let fetch = |_: &str| Ok("document".to_string());

    let result = lookup(&workos, &slot, &fetches, &fetch);

    assert!(matches!(result, Err(Failure::Lookup(JwksError::MissingClientId))));
    assert_eq!(fetches.load(Ordering::SeqCst), 0);
    assert!(!slot.lock().unwrap().is_populated());

    let user_management = UserManagement::new(&workos);
    assert!(matches!(
        user_management.require_client_id(),
        Err(JwksError::MissingClientId)
    ));
    assert!(matches!(
        user_management.jwks(&KeySetSlot::new()),
        Err(JwksError::MissingClientId)
    ));
}

#[test]
fn a_lookup_without_client_id_fails_on_a_slot_that_holds_a_key_set() {
    let workos = WorkOs::new(&ApiKey::from("sk_example_123456789"));
    let mut slot = KeySetSlot::new();
    let stored: Result<KeySet, ()> =
        slot.complete(Ok(KeySet::new(ClientId::from("client_1"), "document".to_string())));
    assert!(stored.is_ok());

    assert!(matches!(
        workos.user_management().jwks(&slot),
        Err(JwksError::MissingClientId)
    ));
}

#[test]
fn a_failed_fetch_is_handed_on_and_leaves_the_slot_empty() {
    let workos = client();
    let slot = Mutex::new(KeySetSlot::new());
    let fetches = AtomicUsize::new(0);
    let failing = |_: &str| Err("connection refused".to_string());

    let result = lookup(&workos, &slot, &fetches, &failing);
    assert!(matches!(result, Err(Failure::Fetch(ref reason)) if reason == "connection refused"));
    assert_eq!(fetches.load(Ordering::SeqCst), 1);
    assert!(!slot.lock().unwrap().is_populated());
    assert_eq!(slot.lock().unwrap().get(), None);

    let working = |_: &str| Ok("document".to_string());
    let retried = lookup(&workos, &slot, &fetches, &working).unwrap();
    assert_eq!(fetches.load(Ordering::SeqCst), 2);
    assert_eq!(retried.document(), "document");
    assert!(slot.lock().unwrap().is_populated());
}

#[test]
fn a_lock_that_cannot_be_taken_is_an_error_of_its_own() {
    let error = JwksError::Poison("poisoned lock: another task failed inside".to_string());

    assert!(!matches!(error, JwksError::MissingClientId));
    assert!(!matches!(error, JwksError::Url(_)));
    assert!(matches!(
        error,
        JwksError::Poison(ref reason) if reason == "poisoned lock: another task failed inside"
    ));
}

#[test]
fn the_key_set_is_fetched_from_a_url_of_the_client_id() {
    let workos = WorkOs::builder(&ApiKey::from("sk_example_123456789"))
        .base_url("https://auth.your-app.com/v1")
        .unwrap()
        .client_id(&ClientId::from("client_123456789"))
        .build();
    let user_management = workos.user_management();

    assert_eq!(
        user_management.get_jwks_url(&ClientId::from("client_123456789")).unwrap(),
        "https://auth.your-app.com/sso/jwks/client_123456789"
    );
    match user_management.jwks(&KeySetSlot::new()).unwrap() {
        JwksLookup::Fetch { source, request } => {
            assert_eq!(source, ClientId::from("client_123456789"));
            assert_eq!(request.url, "https://auth.your-app.com/sso/jwks/client_123456789");
            assert!(request.query.is_empty());
            assert_eq!(request.bearer, None);
        }
        JwksLookup::Cached(_) => panic!("an empty slot holds no key set"),
    }
}

#[test]
fn a_url_that_cannot_be_built_fails_the_lookup() {
    let workos = WorkOs::builder(&ApiKey::from("sk_example_123456789"))
        .base_url("mailto:keys@example.com")
        .unwrap()
        .client_id(&ClientId::from("client_123456789"))
        .build();
    let slot = Mutex::new(KeySetSlot::new());
    let fetches = AtomicUsize::new(0);
    let fetch = |_: &str| Ok("document".to_string());

    let result = lookup(&workos, &slot, &fetches, &fetch);

    assert!(matches!(
        result,
        Err(Failure::Lookup(JwksError::Url(ParseError::RelativeUrlWithCannotBeABaseBase)))
    ));
    assert_eq!(fetches.load(Ordering::SeqCst), 0);
    assert!(!slot.lock().unwrap().is_populated());
}

#[test]
fn a_slot_keeps_the_first_key_set_it_was_given() {
    let mut slot = KeySetSlot::new();
    assert!(!slot.is_populated());

    let first = KeySet::new(ClientId::from("client_1"), "first".to_string());
    let stored: Result<KeySet, String> = slot.complete(Ok(first.clone()));
    assert_eq!(stored, Ok(first.clone()));
    assert!(slot.is_populated());

    let second = KeySet::new(ClientId::from("client_2"), "second".to_string());
    let kept: Result<KeySet, String> = slot.complete(Ok(second));
    assert_eq!(kept, Ok(first.clone()));

    let after_failure: Result<KeySet, String> = slot.complete(Err("late failure".to_string()));
    assert_eq!(after_failure, Ok(first.clone()));
    assert_eq!(slot.get(), Some(first));
}

#[test]
fn a_resolved_url_is_where_the_key_set_is_fetched() {
    let source = ClientId::from("client_123456789");

    match UserManagement::fetch_from(&source, Ok("https://example.com/keys".to_string())) {
        Ok(JwksLookup::Fetch { source: from, request }) => {
            assert_eq!(from, source);
            assert_eq!(request.url, "https://example.com/keys");
            assert!(request.query.is_empty());
            assert_eq!(request.bearer, None);
        }
        other => panic!("a fetch was expected, not {other:?}"),
    }

    assert!(matches!(
        UserManagement::fetch_from(&source, Err(ParseError::InvalidDomainCharacter)),
        Err(JwksError::Url(ParseError::InvalidDomainCharacter))
    ));
}
