use url::{ParseError, Url};
use workos::identifiers::{ApiKey, ClientId};
use workos::workos::{WorkOs, WorkOsBuilder};

#[test]
fn it_supports_setting_the_base_url_through_the_builder() {
    let workos = WorkOs::builder(&ApiKey::from("sk_example_123456789"))
        .base_url("https://auth.your-app.com")
        .unwrap()
        .build();

    assert_eq!(
        workos.base_url(),
        Url::parse("https://auth.your-app.com").unwrap().as_str()
    )
}

#[test]
fn it_supports_setting_the_api_key_through_the_builder() {
    let workos = WorkOs::builder(&ApiKey::from("sk_example_123456789"))
        .key(&ApiKey::from("sk_another_api_key"))
        .build();

    assert_eq!(workos.key(), &ApiKey::from("sk_another_api_key"))
}

#[test]
fn the_default_base_url_is_the_api_of_workos() {
    let workos = WorkOs::new(&ApiKey::from("sk_example_123456789"));

    assert_eq!(workos.base_url(), "https://api.workos.com/");
    assert_eq!(
        workos.base_url(),
        Url::parse("https://api.workos.com").unwrap().as_str()
    );
    assert_eq!(workos.key().as_str(), "sk_example_123456789");
    assert!(workos.client_id().is_none());
}

#[test]
fn the_base_url_is_stored_as_the_parser_serializes_it() {
    let key = ApiKey::from("sk_example_123456789");
    let workos = WorkOsBuilder::new(&key)
        .base_url("HTTPS://Auth.Your-App.com:443/v1/../v2")
        .unwrap()
        .build();

    assert_eq!(workos.base_url(), "https://auth.your-app.com/v2");
}

#[test]
fn a_base_url_that_is_no_absolute_url_is_refused() {
    let key = ApiKey::from("sk_example_123456789");

    let relative = WorkOsBuilder::new(&key).base_url("auth.your-app.com");
    assert!(matches!(relative, Err(ParseError::RelativeUrlWithoutBase)));

    let empty_host = WorkOsBuilder::new(&key).base_url("https://");
    assert!(matches!(empty_host, Err(ParseError::EmptyHost)));
}

#[test]
fn the_builder_keeps_what_was_set_before() {
    let key = ApiKey::from("sk_example_123456789");
    let other = ApiKey::from("sk_another_api_key");
    let client_id = ClientId::from("client_123456789");

    let workos = WorkOs::builder(&key)
        .client_id(&client_id)
        .key(&other)
        .base_url("https://auth.your-app.com")
        .unwrap()
        .build();

    assert_eq!(workos.key(), &other);
    assert_eq!(workos.client_id(), Some(&client_id));
    assert_eq!(workos.base_url(), "https://auth.your-app.com/");
}

#[test]
fn a_clone_of_the_client_is_configured_alike() {
    let client_id = ClientId::from(String::from("client_123456789"));
    let workos = WorkOs::builder(&ApiKey::from("sk_example_123456789"))
        .client_id(&client_id)
        .build();
    let copy = workos.clone();

    assert_eq!(copy.base_url(), workos.base_url());
    assert_eq!(copy.key(), workos.key());
    assert_eq!(copy.client_id(), workos.client_id());
}

#[test]
fn a_parsed_base_url_is_taken_as_it_is() {
    let key = ApiKey::from("sk_example_123456789");
    let client_id = ClientId::from("client_123456789");

    let workos = WorkOsBuilder::new(&key)
        .client_id(&client_id)
        .with_parsed_base_url(Ok("https://auth.your-app.com/".to_string()))
        .unwrap()
        .build();
    assert_eq!(workos.base_url(), "https://auth.your-app.com/");
    assert_eq!(workos.key(), &key);
    assert_eq!(workos.client_id(), Some(&client_id));

    let failed = WorkOsBuilder::new(&key).with_parsed_base_url(Err(ParseError::InvalidPort));
    assert!(matches!(failed, Err(ParseError::InvalidPort)));
}
