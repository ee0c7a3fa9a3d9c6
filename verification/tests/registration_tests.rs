use parrot_sessions::registration::{
    auth_signature, complete_registration, credentials_from, exchange_url, ConfigError,
    Credentials, RegisterError,
};
use parrot_sessions::settings::SettingsStore;

#[test]
fn credentials_require_api_key_first() {
    assert_eq!(
        credentials_from(None, Some(String::from("s"))).unwrap_err(),
        ConfigError::MissingApiKey
    );
    assert_eq!(
        credentials_from(None, None).unwrap_err(),
        ConfigError::MissingApiKey
    );
    assert_eq!(
        credentials_from(Some(String::from("k")), None).unwrap_err(),
        ConfigError::MissingSharedSecret
    );
    let c = credentials_from(Some(String::from("k")), Some(String::from("s"))).unwrap();
    assert_eq!(c.api_key, "k");
    assert_eq!(c.shared_secret, "s");
}

#[test]
fn signature_matches_digest_of_base_string() {
    let api_key = "0123456789abcdef";
    let token = "fedcba9876543210";
    let secret = "s3cr3t";
    let sig = auth_signature(api_key, token, secret);
    let base = format!("api_key{}methodauth.getSessiontoken{}{}", api_key, token, secret);
    let expected = format!("{:x}", md5::compute(base));
    assert_eq!(sig, expected);
    assert_eq!(sig.len(), 32);
}

#[test]
fn exchange_url_carries_every_parameter() {
    let credentials = Credentials {
        api_key: String::from("mykey"),
        shared_secret: String::from("mysecret"),
    };
    let token = "usertoken";
    let url = exchange_url(&credentials, token);
    let sig = auth_signature("mykey", token, "mysecret");
    assert!(url.starts_with("https://ws.audioscrobbler.com/2.0?"));
    assert!(url.contains("method=auth.getSession"));
    assert!(url.contains("token=usertoken"));
    assert!(url.contains("api_key=mykey"));
    assert!(url.contains(&format!("api_sig={}", sig)));
    assert!(url.contains("format=json"));
    assert_eq!(url.len(), 93 + "mykey".len() + token.len() + sig.len());
}

#[test]
fn successful_exchange_stores_the_token() {
    let mut store = SettingsStore::new();
    let r = complete_registration(&mut store, 5, 500, Some(String::from("sessionkey")));
    assert_eq!(r, Ok(()));
    let settings = store.get(5).unwrap();
    assert_eq!(settings.lastfm_session_key(500).unwrap(), "sessionkey");
    assert!(settings.lastfm_session_key(501).is_none());
}

#[test]
fn failed_exchange_leaves_the_store_untouched() {
    let mut store = SettingsStore::new();
    assert_eq!(
        complete_registration(&mut store, 5, 500, Some(String::from("first"))),
        Ok(())
    );
    let r = complete_registration(&mut store, 5, 501, None);
    assert_eq!(r, Err(RegisterError::ExchangeFailed));
    let settings = store.get(5).unwrap();
    assert_eq!(settings.lastfm_session_key(500).unwrap(), "first");
    assert!(settings.lastfm_session_key(501).is_none());
}

#[test]
fn reregistration_replaces_only_that_users_token() {
    let mut store = SettingsStore::new();
    assert_eq!(
        complete_registration(&mut store, 5, 500, Some(String::from("old"))),
        Ok(())
    );
    assert_eq!(
        complete_registration(&mut store, 5, 501, Some(String::from("other"))),
        Ok(())
    );
    assert_eq!(
        complete_registration(&mut store, 5, 500, Some(String::from("new"))),
        Ok(())
    );
    let settings = store.get(5).unwrap();
    assert_eq!(settings.lastfm_session_key(500).unwrap(), "new");
    assert_eq!(settings.lastfm_session_key(501).unwrap(), "other");
}

#[test]
fn store_entries_are_per_guild() {
    let mut store = SettingsStore::new();
    assert_eq!(
        complete_registration(&mut store, 5, 500, Some(String::from("five"))),
        Ok(())
    );
    assert_eq!(
        complete_registration(&mut store, 6, 500, Some(String::from("six"))),
        Ok(())
    );
    assert_eq!(store.get(5).unwrap().lastfm_session_key(500).unwrap(), "five");
    assert_eq!(store.get(6).unwrap().lastfm_session_key(500).unwrap(), "six");
    assert!(store.get(7).is_none());
}

#[test]
fn ensure_entry_creates_lazily_and_keeps_existing() {
    let mut store = SettingsStore::new();
    store.ensure_entry(9);
    let s = store.get(9).unwrap();
    assert_eq!(s.guild(), 9);
    assert!(s.lastfm_session_key(500).is_none());
    // an existing entry is kept as it is
    assert_eq!(
        complete_registration(&mut store, 9, 500, Some(String::from("tok"))),
        Ok(())
    );
    store.ensure_entry(9);
    assert_eq!(store.get(9).unwrap().lastfm_session_key(500).unwrap(), "tok");
}
