//! The stored defaults: a default user and a default language.

use vstd::prelude::*;
use vstd::string::StringExecFns;
use crate::store::{config_read_message, spec_config_read_message, FileFault};

verus! {

/// The stored defaults.
#[derive(Debug, PartialEq, Eq)]
pub struct Config {
    pub default_user: Option<String>,
    pub default_program_type_id: Option<i64>,
}

/// The defaults as they were loaded, or the words for what went wrong.
pub fn get_config(loaded: Result<Config, FileFault>) -> (r: Result<Config, &'static str>)
    ensures
        match loaded {
            Ok(config) => r == Ok::<Config, &'static str>(config),
            Err(fault) => r matches Err(m) && m@ == spec_config_read_message(fault),
        },
{
    match loaded {
        Ok(config) => Ok(config),
        Err(fault) => Err(config_read_message(fault)),
    }
}

/// The defaults to store when new ones are given: the stored ones, if any
/// could be loaded, fill in what the new ones leave open.
pub open spec fn spec_set_config(
    default_user: Option<String>,
    default_program_type_id: Option<i64>,
    stored: Option<Config>,
) -> Config {
    Config {
        default_user: if default_user is None && stored is Some {
            stored->Some_0.default_user
        } else {
            default_user
        },
        default_program_type_id: if default_program_type_id is None && stored is Some {
            stored->Some_0.default_program_type_id
        } else {
            default_program_type_id
        },
    }
}

/// The defaults to write to the file, given the new ones and what the file
/// held so far. A file that could not be loaded counts as holding nothing.
pub fn set_config(
    default_user: Option<String>,
    default_program_type_id: Option<i64>,
    stored: Result<Config, FileFault>,
) -> (config: Config)
    ensures
        config == spec_set_config(
            default_user,
            default_program_type_id,
            match stored {
                Ok(c) => Some(c),
                Err(_) => None,
            },
        ),
{
    let mut config = Config { default_user, default_program_type_id };
    if let Ok(old) = stored {
        if config.default_user.is_none() {
            config.default_user = old.default_user;
        }
        if config.default_program_type_id.is_none() {
            config.default_program_type_id = old.default_program_type_id;
        }
    }
    config
}

/// How a failure to load the defaults is introduced.
pub open spec fn spec_no_access_prefix() -> Seq<char> {
    "unable to access defaults in config.yml, specific error: \n\t"@
}

fn no_access(message: &'static str) -> (text: String)
    ensures
        text@ == spec_no_access_prefix() + message@,
{
    let mut text = String::from_str("unable to access defaults in config.yml, specific error: \n\t");
    text.append(message);
    text
}

/// The handle to use where none is given: the default user.
///
/// `config` is what `get_config` gave. A failure to load is reported with
/// its own words behind a prefix; defaults without a user are reported as
/// such.
pub fn default_handle(config: Result<Config, &'static str>) -> (r: Result<String, String>)
    ensures
        match config {
            Ok(c) => match c.default_user {
                Some(user) => r == Ok::<String, String>(user),
                None => r matches Err(m) && m@
                    == "no default user set, either run `caffeine config` to do so, or provide a handle as the first argument (see help)"@,
            },
            Err(e) => r matches Err(m) && m@ == spec_no_access_prefix() + e@,
        },
{
    match config {
        Ok(Config { default_user: Some(user), .. }) => Ok(user),
        Err(e) => Err(no_access(e)),
        _ => Err(
            String::from_str(
                "no default user set, either run `caffeine config` to do so, or provide a handle as the first argument (see help)",
            ),
        ),
    }
}

/// The handles to use where none are given: the default user alone.
pub fn default_handles(config: Result<Config, &'static str>) -> (r: Result<Vec<String>, String>)
    ensures
        match config {
            Ok(c) => match c.default_user {
                Some(user) => r matches Ok(users) && users@ == seq![user],
                None => r matches Err(m) && m@
                    == "no default user set, either run `caffeine config` to do so, or provide handles as arguments (see help)"@,
            },
            Err(e) => r matches Err(m) && m@ == spec_no_access_prefix() + e@,
        },
{
    match config {
        Ok(Config { default_user: Some(user), .. }) => {
            let mut users: Vec<String> = Vec::new();
            users.push(user);
            assert(users@ =~= seq![user]);
            Ok(users)
        },
        Err(e) => Err(no_access(e)),
        _ => Err(
            String::from_str(
                "no default user set, either run `caffeine config` to do so, or provide handles as arguments (see help)",
            ),
        ),
    }
}

/// The language to use where none is given: the default one.
pub fn default_program_type_id(config: Result<Config, &'static str>) -> (r: Result<i64, String>)
    ensures
        match config {
            Ok(c) => match c.default_program_type_id {
                Some(id) => r == Ok::<i64, String>(id),
                None => r matches Err(m) && m@
                    == "no default program type id (programming language) set, either run `caffeine config` to do so, or provide one as an argument (see help)"@,
            },
            Err(e) => r matches Err(m) && m@ == spec_no_access_prefix() + e@,
        },
{
    match config {
        Ok(Config { default_program_type_id: Some(id), .. }) => Ok(id),
        Err(e) => Err(no_access(e)),
        _ => Err(
            String::from_str(
                "no default program type id (programming language) set, either run `caffeine config` to do so, or provide one as an argument (see help)",
            ),
        ),
    }
}

} // verus!
