//! The credential pair and what a session starts from.
use crate::settings::Settings;
use vstd::prelude::*;

verus! {

/// An API key and its secret.
#[derive(Debug, Clone, PartialEq, Eq)]
pub struct TimeularCredentials {
    pub api_key: String,
    pub api_secret: String,
}

/// Credentials, and a token where one is already known.
#[derive(Debug, Clone, PartialEq, Eq)]
pub struct TimeularAuth {
    pub credentials: TimeularCredentials,
    pub token: Option<String>,
}

impl TimeularCredentials {
    /// Both fields are present and non-empty.
    pub open spec fn valid(&self) -> bool {
        self.api_key@.len() > 0 && self.api_secret@.len() > 0
    }

    pub fn is_valid(&self) -> (r: bool)
        ensures
            r == self.valid(),
    {
        !self.api_key.as_str().is_empty() && !self.api_secret.as_str().is_empty()
    }
}

impl TimeularAuth {
    /// Credentials without a token.
    pub fn new(api_key: String, api_secret: String) -> (a: Self)
        ensures
            a.credentials.api_key == api_key,
            a.credentials.api_secret == api_secret,
            a.token is None,
    {
        TimeularAuth { credentials: TimeularCredentials { api_key, api_secret }, token: None }
    }
}

/// The credentials that the settings file holds, where it holds both fields.
pub open spec fn configured_auth(cfg: Option<&Settings>) -> Option<TimeularAuth> {
    match cfg {
        Some(c) => match c.auth {
            Some(a) => match (a.api_key, a.api_secret) {
                (Some(k), Some(s)) => Some(
                    TimeularAuth {
                        credentials: TimeularCredentials { api_key: k, api_secret: s },
                        token: None,
                    },
                ),
                _ => None,
            },
            None => None,
        },
        None => None,
    }
}

/// The credentials to use: a key and secret given together on the command line
/// win over those of the settings file; one of the two alone is ignored.
pub fn create_auth_data(cfg: Option<&Settings>, api_key: Option<&str>, api_secret: Option<&str>) -> (r:
    Option<TimeularAuth>)
    ensures
        match (api_key, api_secret) {
            (Some(k), Some(s)) => r matches Some(a) && a.credentials.api_key@ == k@
                && a.credentials.api_secret@ == s@ && a.token is None,
            _ => r == configured_auth(cfg),
        },
{
    let auth = match cfg {
        Some(c) => match &c.auth {
            Some(auth_cfg) => match (&auth_cfg.api_key, &auth_cfg.api_secret) {
                (Some(key), Some(secret)) => Some(TimeularAuth::new(key.clone(), secret.clone())),
                _ => None,
            },
            None => None,
        },
        None => None,
    };
    match (api_key, api_secret) {
        (Some(key), Some(secret)) => {
            let token = match auth {
                Some(a) => a.token,
                None => None,
            };
            Some(
                TimeularAuth {
                    credentials: TimeularCredentials {
                        api_key: String::from_str(key),
                        api_secret: String::from_str(secret),
                    },
                    token,
                },
            )
        },
        _ => auth,
    }
}

} // verus!
