//! The stored credentials: a key and secret for the read interface, and a
//! handle and password for the interactive session.

use vstd::prelude::*;
use crate::store::{auth_read_message, spec_auth_read_message, FileFault};

verus! {

/// Help shown to a user who has no key yet.
pub const AUTH_HELP_MSG: &'static str =
    "To generate an API key & secret, go to https://codeforces.com/settings/api";

/// Credentials for the read interface.
#[derive(Debug, PartialEq, Eq)]
pub struct ApiAuth {
    pub key: Option<String>,
    pub secret: Option<String>,
}

/// Credentials for the interactive session.
#[derive(Debug, PartialEq, Eq)]
pub struct LoginAuth {
    pub handle_or_email: Option<String>,
    pub password: Option<String>,
}

/// All stored credentials.
#[derive(Debug, PartialEq, Eq)]
pub struct Auth {
    pub api: Option<ApiAuth>,
    pub login: Option<LoginAuth>,
}

/// The words that report stored credentials without a complete key and
/// secret.
pub open spec fn spec_missing_api_message() -> Seq<char> {
    "missing api credentials in auth.yml"@
}

/// The words that report stored credentials without a complete handle and
/// password.
pub open spec fn spec_missing_login_message() -> Seq<char> {
    "missing login credentials in auth.yml"@
}

impl Auth {
    /// Key and secret, where both are stored.
    pub open spec fn spec_api_pair(self) -> Option<(String, String)> {
        match self.api {
            Some(ApiAuth { key: Some(k), secret: Some(s) }) => Some((k, s)),
            _ => None,
        }
    }

    /// Handle and password, where both are stored.
    pub open spec fn spec_login_pair(self) -> Option<(String, String)> {
        match self.login {
            Some(LoginAuth { handle_or_email: Some(h), password: Some(p) }) => Some((h, p)),
            _ => None,
        }
    }
}

/// Key and secret from the credentials as they were loaded.
///
/// A fault in loading is reported in its own words; credentials that lack
/// the key or the secret are reported as missing.
pub fn get_api_key_secret_from_file(loaded: Result<Auth, FileFault>) -> (r: Result<
    (String, String),
    &'static str,
>)
    ensures
        match loaded {
            Ok(auth) => match auth.spec_api_pair() {
                Some(pair) => r == Ok::<(String, String), &'static str>(pair),
                None => r matches Err(m) && m@ == spec_missing_api_message(),
            },
            Err(fault) => r matches Err(m) && m@ == spec_auth_read_message(fault),
        },
{
    match loaded {
        Ok(auth) => match auth.api {
            Some(ApiAuth { key: Some(k), secret: Some(s) }) => Ok((k, s)),
            _ => Err("missing api credentials in auth.yml"),
        },
        Err(fault) => Err(auth_read_message(fault)),
    }
}

/// Handle and password from the credentials as they were loaded.
///
/// A fault in loading is reported in its own words; credentials that lack
/// the handle or the password are reported as missing.
pub fn get_login_details_from_file(loaded: Result<Auth, FileFault>) -> (r: Result<
    (String, String),
    &'static str,
>)
    ensures
        match loaded {
            Ok(auth) => match auth.spec_login_pair() {
                Some(pair) => r == Ok::<(String, String), &'static str>(pair),
                None => r matches Err(m) && m@ == spec_missing_login_message(),
            },
            Err(fault) => r matches Err(m) && m@ == spec_auth_read_message(fault),
        },
{
    match loaded {
        Ok(auth) => match auth.login {
            Some(LoginAuth { handle_or_email: Some(h), password: Some(p) }) => Ok((h, p)),
            _ => Err("missing login credentials in auth.yml"),
        },
        Err(fault) => Err(auth_read_message(fault)),
    }
}

/// The credentials to store when new ones are given. Each of the two groups
/// is taken as given if any part of it is given; a group of which nothing is
/// given is taken from what was stored, if anything could be loaded.
pub open spec fn spec_set_auth_creds(
    api_key: Option<String>,
    api_secret: Option<String>,
    login_handle: Option<String>,
    login_password: Option<String>,
    stored: Option<Auth>,
) -> Auth {
    Auth {
        api: if api_key is Some || api_secret is Some {
            Some(ApiAuth { key: api_key, secret: api_secret })
        } else if stored is Some {
            stored->Some_0.api
        } else {
            None
        },
        login: if login_handle is Some || login_password is Some {
            Some(LoginAuth { handle_or_email: login_handle, password: login_password })
        } else if stored is Some {
            stored->Some_0.login
        } else {
            None
        },
    }
}

/// The credentials to write to the file, given the new ones and what the
/// file held so far. A file that could not be loaded counts as holding
/// nothing.
pub fn set_auth_creds(
    api_key: Option<String>,
    api_secret: Option<String>,
    login_handle: Option<String>,
    login_password: Option<String>,
    stored: Result<Auth, FileFault>,
) -> (auth: Auth)
    ensures
        auth == spec_set_auth_creds(
            api_key,
            api_secret,
            login_handle,
            login_password,
            match stored {
                Ok(a) => Some(a),
                Err(_) => None,
            },
        ),
{
    let mut auth = Auth { api: None, login: None };
    if api_key.is_some() || api_secret.is_some() {
        auth.api = Some(ApiAuth { key: api_key, secret: api_secret });
    }
    if login_handle.is_some() || login_password.is_some() {
        auth.login = Some(LoginAuth { handle_or_email: login_handle, password: login_password });
    }
    if let Ok(old) = stored {
        if auth.api.is_none() {
            auth.api = old.api;
        }
        if auth.login.is_none() {
            auth.login = old.login;
        }
    }
    auth
}

/// Key and secret for a request: the two given on the command line if both
/// are there, and else those from the credentials as they were loaded.
pub fn get_api_key_secret(
    key: Option<String>,
    secret: Option<String>,
    loaded: Result<Auth, FileFault>,
) -> (r: Result<(String, String), &'static str>)
    ensures
        key is Some && secret is Some ==> r == Ok::<(String, String), &'static str>(
            (key->Some_0, secret->Some_0),
        ),
        !(key is Some && secret is Some) ==> match loaded {
            Ok(auth) => match auth.spec_api_pair() {
                Some(pair) => r == Ok::<(String, String), &'static str>(pair),
                None => r matches Err(m) && m@ == spec_missing_api_message(),
            },
            Err(fault) => r matches Err(m) && m@ == spec_auth_read_message(fault),
        },
{
    match (key, secret) {
        (Some(k), Some(s)) => Ok((k, s)),
        _ => get_api_key_secret_from_file(loaded),
    }
}

/// Handle and password for a session: the two given on the command line if
/// both are there, and else those from the credentials as they were loaded.
pub fn get_login_details(
    handle: Option<String>,
    password: Option<String>,
    loaded: Result<Auth, FileFault>,
) -> (r: Result<(String, String), &'static str>)
    ensures
        handle is Some && password is Some ==> r == Ok::<(String, String), &'static str>(
            (handle->Some_0, password->Some_0),
        ),
        !(handle is Some && password is Some) ==> match loaded {
            Ok(auth) => match auth.spec_login_pair() {
                Some(pair) => r == Ok::<(String, String), &'static str>(pair),
                None => r matches Err(m) && m@ == spec_missing_login_message(),
            },
            Err(fault) => r matches Err(m) && m@ == spec_auth_read_message(fault),
        },
{
    match (handle, password) {
        (Some(h), Some(p)) => Ok((h, p)),
        _ => get_login_details_from_file(loaded),
    }
}

/// Whether a login request on the command line names a whole pair: key and
/// secret, or handle and password.
pub fn names_whole_pair(key: bool, secret: bool, handle: bool, password: bool) -> (b: bool)
    ensures
        b == ((key && secret) || (handle && password)),
{
    (key && secret) || (handle && password)
}

/// What a user typed for a pair of which the second part is asked for only
/// if the first is given. A blank first part gives up the pair; a blank
/// second part after a first one is refused.
pub open spec fn spec_entered_pair(first: String, second: String) -> Option<
    (Option<String>, Option<String>),
> {
    if first@.len() == 0 {
        Some((None, None))
    } else if second@.len() == 0 {
        None
    } else {
        Some((Some(first), Some(second)))
    }
}

/// Key and secret as a user typed them, both already trimmed.
pub fn entered_api_pair(key: String, secret: String) -> (r: Result<
    (Option<String>, Option<String>),
    &'static str,
>)
    ensures
        match spec_entered_pair(key, secret) {
            Some(pair) => r == Ok::<(Option<String>, Option<String>), &'static str>(pair),
            None => r matches Err(m) && m@
                == "API secret field is required (leave `API key`field blank to ignore)"@,
        },
{
    if key.as_str().is_empty() {
        Ok((None, None))
    } else if secret.as_str().is_empty() {
        Err("API secret field is required (leave `API key`field blank to ignore)")
    } else {
        Ok((Some(key), Some(secret)))
    }
}

/// Handle and password as a user typed them, both already trimmed.
pub fn entered_login_pair(handle: String, password: String) -> (r: Result<
    (Option<String>, Option<String>),
    &'static str,
>)
    ensures
        match spec_entered_pair(handle, password) {
            Some(pair) => r == Ok::<(Option<String>, Option<String>), &'static str>(pair),
            None => r matches Err(m) && m@
                == "password field is required (leave `handle or email` field blank to ignore)"@,
        },
{
    if handle.as_str().is_empty() {
        Ok((None, None))
    } else if password.as_str().is_empty() {
        Err("password field is required (leave `handle or email` field blank to ignore)")
    } else {
        Ok((Some(handle), Some(password)))
    }
}

} // verus!
