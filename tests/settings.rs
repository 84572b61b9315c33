use std::collections::HashMap;
use tmlr::error::{ConfigurationError, Error};
use tmlr::settings::{
    get_default_cfg_dir, get_default_file_path, load_settings, Alias, AliasTable,
    Authentication, Settings,
};

#[test]
fn test_alias_add_activity_alias() {
    let mut alias = Alias {
        activity: None,
        tag: None,
    };

    alias.add_activity_alias("a".to_owned(), "Some Activity".to_owned());
    let mut result = HashMap::with_capacity(2);
    result.insert("a", "Some Activity");
    assert!(matches!(
        alias,
        Alias {
            activity: Some(ref result),
            tag: None
        }
    ));

    alias.add_activity_alias("b".to_owned(), "Some Other Activity".to_owned());
    result.insert("b", "Some Other Activity");
    assert!(matches!(
        alias,
        Alias {
            activity: Some(result),
            tag: None
        }
    ));
}

#[test]
fn test_alias_add_tag_alias() {
    let mut alias = Alias {
        activity: None,
        tag: None,
    };

    alias.add_tag_alias("x".to_owned(), "Tag x".to_owned());
    let mut result = HashMap::with_capacity(2);
    result.insert("x", "Tag x");
    assert!(matches!(
        alias,
        Alias {
            activity: None,
            tag: Some(ref result)
        }
    ));

    alias.add_tag_alias("y".to_owned(), "Tag y".to_owned());
    result.insert("y", "Tag y");
    assert!(matches!(
        alias,
        Alias {
            activity: None,
            tag: Some(result)
        }
    ));
}

#[test]
fn test_alias_remove_tag_alias() {
    let mut tag_map = AliasTable::new();
    tag_map.insert("x".to_owned(), "Tag x".to_owned());
    tag_map.insert("y".to_owned(), "Tag y".to_owned());

    let mut alias = Alias {
        activity: None,
        tag: Some(tag_map),
    };

    alias.remove_tag_alias("x");
    let mut result = HashMap::with_capacity(1);
    result.insert("y".to_owned(), "Tag y".to_owned());

    assert!(matches!(
        alias,
        Alias {
            activity: None,
            tag: Some(ref result)
        }
    ));

    alias.remove_tag_alias("y");
    assert!(matches!(
        alias,
        Alias {
            activity: None,
            tag: None
        }
    ));
}

#[test]
fn test_alias_remove_activity_alias() {
    let mut activity_map = AliasTable::new();
    activity_map.insert("a".to_owned(), "Acitivy A".to_owned());
    activity_map.insert("b".to_owned(), "Activity B".to_owned());

    let mut alias = Alias {
        activity: Some(activity_map),
        tag: None,
    };

    alias.remove_activity_alias("b");
    let mut result = HashMap::with_capacity(1);
    result.insert("a".to_owned(), "Activity B".to_owned());

    assert!(matches!(
        alias,
        Alias {
            activity: Some(ref result),
            tag: None
        }
    ));

    alias.remove_activity_alias("a");
    assert!(matches!(
        alias,
        Alias {
            activity: None,
            tag: None
        }
    ));
}

#[test]
fn test_settings_add_activity_alias() {
    let mut settings = Settings {
        auth: None,
        alias: None,
    };

    settings.add_activity_alias("a".to_owned(), "Activity A".to_owned());
    let mut result = HashMap::with_capacity(2);
    result.insert("a", "Activity A");
    assert!(matches!(
        settings,
        Settings{
            auth: None,
            alias: Some(Alias {
                activity: Some(ref result),
                tag: None
            })
        }
    ));

    settings.add_activity_alias("b".to_owned(), "Activity B".to_owned());
    result.insert("b", "Activity B");
    assert!(matches!(
        settings,
        Settings{
            auth: None,
            alias: Some(Alias {
                activity: Some(ref result),
                tag: None
            })
        }
    ));
}

#[test]
fn test_settings_add_tag_alias() {
    let mut settings = Settings {
        auth: None,
        alias: None,
    };

    settings.add_tag_alias("x".to_owned(), "Tag X".to_owned());
    let mut result = HashMap::with_capacity(2);
    result.insert("x", "Tag X");
    assert!(matches!(
        settings,
        Settings{
            auth: None,
            alias: Some(Alias {
                activity: None,
                tag: Some(ref result)
            })
        }
    ));

    settings.add_tag_alias("y".to_owned(), "Tag Y".to_owned());
    result.insert("y", "Tag Y");
    assert!(matches!(
        settings,
        Settings{
            auth: None,
            alias: Some(Alias {
                activity: None,
                tag: Some(ref result)
            })
        }
    ));
}

#[test]
fn test_settings_remove_tag_alias() {
    let mut tag_map = AliasTable::new();
    tag_map.insert("x".to_owned(), "Tag x".to_owned());
    tag_map.insert("y".to_owned(), "Tag y".to_owned());

    let mut settings = Settings {
        auth: None,
        alias: Some(Alias {
            activity: None,
            tag: Some(tag_map),
        }),
    };

    settings.remove_tag_alias("x");
    let mut result = HashMap::with_capacity(1);
    result.insert("y".to_owned(), "Tag y".to_owned());

    assert!(matches!(
        settings,
        Settings{
            auth: None,
            alias: Some(Alias{
                activity: None,
                tag: Some(ref result)
            })
        }
    ));

    settings.remove_tag_alias("y");
    assert!(matches!(
        settings,
        Settings {
            auth: None,
            alias: None
        }
    ));
}

#[test]
fn test_settings_remove_activity_alias() {
    let mut activity_map = AliasTable::new();
    activity_map.insert("a".to_owned(), "Acitivy A".to_owned());
    activity_map.insert("b".to_owned(), "Activity B".to_owned());

    let mut settings = Settings {
        auth: None,
        alias: Some(Alias {
            activity: Some(activity_map),
            tag: None,
        }),
    };

    settings.remove_activity_alias("b");
    let mut result = HashMap::with_capacity(1);
    result.insert("a".to_owned(), "Activity B".to_owned());

    assert!(matches!(
        settings,
        Settings{
            auth: None,
            alias: Some(Alias {
                activity: Some(ref result),
                tag: None
            })
        }
    ));

    settings.remove_activity_alias("a");
    assert!(matches!(
        settings,
        Settings {
            auth: None,
            alias: None
        }
    ));
}

fn table(pairs: &[(&str, &str)]) -> AliasTable {
    let mut t = AliasTable::new();
    for (k, v) in pairs {
        t.insert(k.to_string(), v.to_string());
    }
    t
}

#[test]
fn alias_keys_are_lower_cased() {
    let mut alias = Alias {
        activity: None,
        tag: None,
    };
    alias.add_activity_alias("Deep".to_owned(), "ac-1".to_owned());
    alias.add_tag_alias("MiXeD".to_owned(), "7".to_owned());
    assert_eq!(alias.activity, Some(table(&[("deep", "ac-1")])));
    assert_eq!(alias.tag, Some(table(&[("mixed", "7")])));
}

#[test]
fn alias_added_twice_keeps_the_latest_id() {
    let mut alias = Alias {
        activity: None,
        tag: None,
    };
    alias.add_activity_alias("a".to_owned(), "first".to_owned());
    alias.add_activity_alias("A".to_owned(), "second".to_owned());
    assert_eq!(alias.activity, Some(table(&[("a", "second")])));
}

#[test]
fn alias_removal_is_case_insensitive() {
    let mut alias = Alias {
        activity: Some(table(&[("a", "x"), ("b", "y")])),
        tag: Some(table(&[("t", "1")])),
    };
    alias.remove_activity_alias("A");
    assert_eq!(alias.activity, Some(table(&[("b", "y")])));
    alias.remove_tag_alias("T");
    assert_eq!(alias.tag, None);
    assert_eq!(alias.activity, Some(table(&[("b", "y")])));
}

#[test]
fn removing_an_unknown_alias_changes_nothing() {
    let mut alias = Alias {
        activity: Some(table(&[("a", "x")])),
        tag: None,
    };
    alias.remove_activity_alias("zzz");
    alias.remove_tag_alias("zzz");
    assert_eq!(alias.activity, Some(table(&[("a", "x")])));
    assert_eq!(alias.tag, None);
}

#[test]
fn table_stores_replaces_and_removes_by_exact_name() {
    let mut t = AliasTable::new();
    assert!(t.is_empty());
    t.insert("Key".to_owned(), "v".to_owned());
    t.insert("other".to_owned(), "w".to_owned());
    t.insert("Key".to_owned(), "v2".to_owned());
    assert_eq!(t.len(), 2);
    assert_eq!(
        t.entries(),
        &[
            ("Key".to_owned(), "v2".to_owned()),
            ("other".to_owned(), "w".to_owned())
        ]
    );
    assert_eq!(t.get("Key"), Some(&"v2".to_owned()));
    assert_eq!(t.get("key"), None);
    t.remove("key");
    assert_eq!(t.len(), 2);
    t.remove("Key");
    assert_eq!(t.entries(), &[("other".to_owned(), "w".to_owned())]);
    t.remove("other");
    assert!(t.is_empty());
}

#[test]
fn settings_removal_keeps_other_section() {
    let mut settings = Settings {
        auth: None,
        alias: Some(Alias {
            activity: Some(table(&[("a", "x")])),
            tag: Some(table(&[("t", "1")])),
        }),
    };
    settings.remove_activity_alias("a");
    assert_eq!(
        settings.alias,
        Some(Alias {
            activity: None,
            tag: Some(table(&[("t", "1")])),
        })
    );
    settings.remove_tag_alias("t");
    assert_eq!(settings.alias, None);
    settings.remove_tag_alias("t");
    assert_eq!(settings.alias, None);
}

#[test]
fn settings_alias_keeps_credentials() {
    let auth = Authentication {
        api_key: Some("k".to_owned()),
        api_secret: Some("s".to_owned()),
    };
    let mut settings = Settings {
        auth: Some(auth.clone()),
        alias: None,
    };
    settings.add_tag_alias("X".to_owned(), "9".to_owned());
    assert_eq!(settings.auth, Some(auth));
    assert_eq!(
        settings.alias,
        Some(Alias {
            activity: None,
            tag: Some(table(&[("x", "9")])),
        })
    );
}

#[test]
fn set_auth_stores_both_fields() {
    let mut settings = Settings::default();
    settings.add_activity_alias("a".to_owned(), "1".to_owned());
    settings.set_auth("key", "secret");
    assert_eq!(
        settings.auth,
        Some(Authentication {
            api_key: Some("key".to_owned()),
            api_secret: Some("secret".to_owned()),
        })
    );
    assert!(settings.alias.is_some());
}

#[test]
fn missing_default_file_means_empty_settings() {
    let r = load_settings(None, Err(ConfigurationError::FileNotFoundError("f".to_owned())));
    assert_eq!(
        r,
        Ok(Settings {
            auth: None,
            alias: None
        })
    );
}

#[test]
fn missing_custom_file_is_an_error() {
    let r = load_settings(
        Some("custom.toml"),
        Err(ConfigurationError::FileNotFoundError("custom.toml".to_owned())),
    );
    assert_eq!(
        r,
        Err(Error::Config(ConfigurationError::FileNotFoundError(
            "custom.toml".to_owned()
        )))
    );
}

#[test]
fn other_load_failures_are_reported() {
    let r = load_settings(None, Err(ConfigurationError::MessageError("bad".to_owned())));
    assert_eq!(
        r,
        Err(Error::Config(ConfigurationError::MessageError("bad".to_owned())))
    );
}

#[test]
fn loaded_settings_are_kept() {
    let s = Settings {
        auth: Some(Authentication {
            api_key: Some("k".to_owned()),
            api_secret: None,
        }),
        alias: None,
    };
    assert_eq!(load_settings(Some("p"), Ok(s.clone())), Ok(s));
}

#[test]
fn default_paths() {
    assert_eq!(get_default_cfg_dir(Some("/home/u")), "/home/u/.tmlr");
    assert_eq!(get_default_cfg_dir(None), ".tmlr");
    assert_eq!(
        get_default_file_path(Some("/home/u")),
        "/home/u/.tmlr/config.toml"
    );
    assert_eq!(get_default_file_path(None), ".tmlr/config.toml");
}
