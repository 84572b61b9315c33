use tmlr::auth::{create_auth_data, TimeularAuth, TimeularCredentials};
use tmlr::settings::{Authentication, Settings};

#[test]
fn test_create_auth_data() {
    // No Settings
    do_test_create_auth_data(None, None);

    // Empty Settings
    do_test_create_auth_data(
        Some(&Settings {
            auth: None,
            alias: None,
        }),
        None,
    );

    // Settings with Authentication Section only
    do_test_create_auth_data(
        Some(&Settings {
            auth: Some(Authentication {
                api_key: None,
                api_secret: None,
            }),
            alias: None,
        }),
        None,
    );

    // Settings with api_key only
    do_test_create_auth_data(
        Some(&Settings {
            auth: Some(Authentication {
                api_key: Some("key".to_owned()),
                api_secret: None,
            }),
            alias: None,
        }),
        None,
    );

    // Settings with api_secret only
    do_test_create_auth_data(
        Some(&Settings {
            auth: Some(Authentication {
                api_key: None,
                api_secret: Some("secret".to_owned()),
            }),
            alias: None,
        }),
        None,
    );

    // Settings with api_key and api_secret
    do_test_create_auth_data(
        Some(&Settings {
            auth: Some(Authentication {
                api_key: Some("key".to_owned()),
                api_secret: Some("secret".to_owned()),
            }),
            alias: None,
        }),
        Some(TimeularAuth::new("key".to_owned(), "secret".to_owned())),
    );
}

fn do_test_create_auth_data(
    settings: Option<&Settings>,
    default_auth_data: Option<TimeularAuth>,
) {
    let api_key = Some("some_api_key");
    let api_secret = Some("some_api_secret");
    let auth_data = Some(TimeularAuth::new(
        api_key.expect("value is there").to_owned(),
        api_secret.expect("value is there").to_owned(),
    ));

    assert!(matches!(
        create_auth_data(settings, None, None),
        default_auth_data
    ));
    assert!(matches!(
        create_auth_data(settings, None, api_secret),
        default_auth_data
    ));
    assert!(matches!(
        create_auth_data(settings, api_key, None),
        default_auth_data
    ));
    assert!(matches!(
        create_auth_data(None, api_key, api_secret),
        auth_data
    ));
}

fn stored(key: Option<&str>, secret: Option<&str>) -> Settings {
    Settings {
        auth: Some(Authentication {
            api_key: key.map(|k| k.to_owned()),
            api_secret: secret.map(|s| s.to_owned()),
        }),
        alias: None,
    }
}

#[test]
fn flags_win_over_stored_credentials() {
    let cfg = stored(Some("file-key"), Some("file-secret"));
    let auth = create_auth_data(Some(&cfg), Some("flag-key"), Some("flag-secret"));
    assert_eq!(
        auth,
        Some(TimeularAuth::new("flag-key".to_owned(), "flag-secret".to_owned()))
    );
}

#[test]
fn stored_credentials_used_without_both_flags() {
    let cfg = stored(Some("file-key"), Some("file-secret"));
    let expected = Some(TimeularAuth::new(
        "file-key".to_owned(),
        "file-secret".to_owned(),
    ));
    assert_eq!(create_auth_data(Some(&cfg), Some("flag-key"), None), expected);
    assert_eq!(create_auth_data(Some(&cfg), None, Some("flag-secret")), expected);
    assert_eq!(create_auth_data(Some(&cfg), None, None), expected);
}

#[test]
fn half_a_pair_gives_no_credentials() {
    let cfg = stored(Some("file-key"), None);
    assert_eq!(create_auth_data(Some(&cfg), None, Some("s")), None);
    assert_eq!(create_auth_data(None, Some("k"), None), None);
    assert_eq!(create_auth_data(None, None, None), None);
}

#[test]
fn new_auth_has_no_token() {
    let auth = TimeularAuth::new("k".to_owned(), "s".to_owned());
    assert_eq!(
        auth.credentials,
        TimeularCredentials {
            api_key: "k".to_owned(),
            api_secret: "s".to_owned()
        }
    );
    assert_eq!(auth.token, None);
}

#[test]
fn credentials_need_both_fields() {
    let pair = |k: &str, s: &str| TimeularCredentials {
        api_key: k.to_owned(),
        api_secret: s.to_owned(),
    };
    assert!(pair("k", "s").is_valid());
    assert!(!pair("", "s").is_valid());
    assert!(!pair("k", "").is_valid());
    assert!(!pair("", "").is_valid());
}
