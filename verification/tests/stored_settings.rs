use caffeine_cf::auth::{
    entered_api_pair, entered_login_pair, get_api_key_secret, get_api_key_secret_from_file,
    get_login_details, get_login_details_from_file, names_whole_pair, set_auth_creds, ApiAuth,
    Auth, LoginAuth,
};
use caffeine_cf::config::{
    default_handle, default_handles, default_program_type_id, get_config, set_config, Config,
};
use caffeine_cf::store::{
    auth_read_message, auth_write_message, config_read_message, config_write_message, FileFault,
};

fn s(text: &str) -> Option<String> {
    Some(text.to_string())
}

fn full_auth() -> Auth {
    Auth {
        api: Some(ApiAuth { key: s("k1"), secret: s("s1") }),
        login: Some(LoginAuth { handle_or_email: s("me"), password: s("pw") }),
    }
}

#[test]
fn api_pair_comes_from_the_loaded_credentials() {
    assert_eq!(get_api_key_secret_from_file(Ok(full_auth())), Ok(("k1".to_string(), "s1".to_string())));
    assert_eq!(get_login_details_from_file(Ok(full_auth())), Ok(("me".to_string(), "pw".to_string())));
}

#[test]
fn incomplete_credentials_are_reported_as_missing() {
    let no_secret = Auth { api: Some(ApiAuth { key: s("k1"), secret: None }), login: None };
    assert_eq!(get_api_key_secret_from_file(Ok(no_secret)), Err("missing api credentials in auth.yml"));
    let no_key = Auth { api: Some(ApiAuth { key: None, secret: s("s1") }), login: None };
    assert_eq!(get_api_key_secret_from_file(Ok(no_key)), Err("missing api credentials in auth.yml"));
    let nothing = Auth { api: None, login: None };
    assert_eq!(get_api_key_secret_from_file(Ok(nothing)), Err("missing api credentials in auth.yml"));
    let no_password = Auth { api: None, login: Some(LoginAuth { handle_or_email: s("me"), password: None }) };
    assert_eq!(get_login_details_from_file(Ok(no_password)), Err("missing login credentials in auth.yml"));
    let nothing = Auth { api: None, login: None };
    assert_eq!(get_login_details_from_file(Ok(nothing)), Err("missing login credentials in auth.yml"));
}

#[test]
fn load_faults_are_reported_in_their_own_words() {
    assert_eq!(
        get_api_key_secret_from_file(Err(FileFault::NotFound)),
        Err("(auth.yml not found) use `caffeine login` to setup
                        API keys and/or login details.")
    );
    assert_eq!(
        get_login_details_from_file(Err(FileFault::Malformed)),
        Err("failed to parse auth.yml file")
    );
    assert_eq!(get_config(Err(FileFault::PermissionDenied)), Err("could not open config.yml, permission denied"));
}

#[test]
fn every_fault_has_its_message() {
    let faults = [
        FileFault::NoPath,
        FileFault::NotFound,
        FileFault::PermissionDenied,
        FileFault::OpenFailed,
        FileFault::Interrupted,
        FileFault::TransferFailed,
        FileFault::Malformed,
    ];
    let auth_read = [
        "couldn't find a valid path to store keys",
        "(auth.yml not found) use `caffeine login` to setup\n                        API keys and/or login details.",
        "could not open auth.yml, permission denied",
        "could not open auth.yml, unknown reason",
        "reading from auth.yml file was interrupted",
        "reading from auth.yml failed unexpectedly",
        "failed to parse auth.yml file",
    ];
    let auth_write = [
        "couldn't find a valid path to store keys",
        "could not open auth.yml, parent dir does not exist",
        "could not open auth.yml, permission denied",
        "could not open auth.yml, unknown reason",
        "writing to auth.yml file was interrupted",
        "writing to auth.yml failed unexpectedly",
        "writing to auth.yml failed unexpectedly",
    ];
    let config_read = [
        "couldn't find a valid path to place config at",
        "(config.yml not found) use `caffeine config` to setup defaults.",
        "could not open config.yml, permission denied",
        "could not open config.yml, unknown reason",
        "reading from config.yml file was interrupted",
        "reading from config.yml failed unexpectedly",
        "failed to parse config.yml file",
    ];
    let config_write = [
        "couldn't find a valid path to store keys",
        "could not open config.yml, parent dir does not exist",
        "could not open config.yml, permission denied",
        "could not open config.yml, unknown reason",
        "writing to config.yml file was interrupted",
        "writing to config.yml failed unexpectedly",
        "writing to config.yml failed unexpectedly",
    ];
    for i in 0..faults.len() {
        assert_eq!(auth_read_message(faults[i]), auth_read[i]);
        assert_eq!(auth_write_message(faults[i]), auth_write[i]);
        assert_eq!(config_read_message(faults[i]), config_read[i]);
        assert_eq!(config_write_message(faults[i]), config_write[i]);
    }
}

#[test]
fn command_line_pair_wins_over_the_file() {
    assert_eq!(
        get_api_key_secret(s("ck"), s("cs"), Err(FileFault::NotFound)),
        Ok(("ck".to_string(), "cs".to_string()))
    );
    assert_eq!(get_api_key_secret(s("ck"), None, Ok(full_auth())), Ok(("k1".to_string(), "s1".to_string())));
    assert_eq!(
        get_api_key_secret(None, None, Err(FileFault::OpenFailed)),
        Err("could not open auth.yml, unknown reason")
    );
    assert_eq!(
        get_login_details(s("h"), s("p"), Ok(full_auth())),
        Ok(("h".to_string(), "p".to_string()))
    );
    assert_eq!(get_login_details(None, s("p"), Ok(full_auth())), Ok(("me".to_string(), "pw".to_string())));
    assert_eq!(
        get_login_details(None, None, Ok(Auth { api: None, login: None })),
        Err("missing login credentials in auth.yml")
    );
}

#[test]
fn new_credentials_replace_a_group_and_keep_the_other() {
    let merged = set_auth_creds(s("k2"), s("s2"), None, None, Ok(full_auth()));
    assert_eq!(merged.api, Some(ApiAuth { key: s("k2"), secret: s("s2") }));
    assert_eq!(merged.login, Some(LoginAuth { handle_or_email: s("me"), password: s("pw") }));
    let merged = set_auth_creds(None, None, s("you"), None, Ok(full_auth()));
    assert_eq!(merged.api, Some(ApiAuth { key: s("k1"), secret: s("s1") }));
    assert_eq!(merged.login, Some(LoginAuth { handle_or_email: s("you"), password: None }));
}

#[test]
fn credentials_are_written_afresh_when_nothing_could_be_loaded() {
    let merged = set_auth_creds(s("k2"), s("s2"), None, None, Err(FileFault::NotFound));
    assert_eq!(merged, Auth { api: Some(ApiAuth { key: s("k2"), secret: s("s2") }), login: None });
    let merged = set_auth_creds(None, None, None, None, Err(FileFault::Malformed));
    assert_eq!(merged, Auth { api: None, login: None });
    let merged = set_auth_creds(None, None, None, None, Ok(full_auth()));
    assert_eq!(merged, full_auth());
}

#[test]
fn whole_pairs_on_the_command_line() {
    assert!(names_whole_pair(true, true, false, false));
    assert!(names_whole_pair(false, false, true, true));
    assert!(names_whole_pair(true, true, true, false));
    assert!(!names_whole_pair(true, false, false, true));
    assert!(!names_whole_pair(false, false, false, false));
}

#[test]
fn typed_pairs_need_their_second_part() {
    assert_eq!(entered_api_pair(String::new(), String::new()), Ok((None, None)));
    assert_eq!(entered_api_pair(String::new(), "x".to_string()), Ok((None, None)));
    assert_eq!(entered_api_pair("k".to_string(), "x".to_string()), Ok((s("k"), s("x"))));
    assert_eq!(
        entered_api_pair("k".to_string(), String::new()),
        Err("API secret field is required (leave `API key`field blank to ignore)")
    );
    assert_eq!(entered_login_pair(String::new(), String::new()), Ok((None, None)));
    assert_eq!(entered_login_pair("h".to_string(), "p".to_string()), Ok((s("h"), s("p"))));
    assert_eq!(
        entered_login_pair("h".to_string(), String::new()),
        Err("password field is required (leave `handle or email` field blank to ignore)")
    );
}

#[test]
fn loaded_defaults_are_handed_on() {
    let config = Config { default_user: s("me"), default_program_type_id: Some(54) };
    assert_eq!(get_config(Ok(config)), Ok(Config { default_user: s("me"), default_program_type_id: Some(54) }));
    assert_eq!(
        get_config(Err(FileFault::NotFound)),
        Err("(config.yml not found) use `caffeine config` to setup defaults.")
    );
}

#[test]
fn new_defaults_are_filled_in_from_the_stored_ones() {
    let stored = || Ok(Config { default_user: s("me"), default_program_type_id: Some(54) });
    assert_eq!(
        set_config(s("you"), None, stored()),
        Config { default_user: s("you"), default_program_type_id: Some(54) }
    );
    assert_eq!(
        set_config(None, Some(31), stored()),
        Config { default_user: s("me"), default_program_type_id: Some(31) }
    );
    assert_eq!(
        set_config(s("you"), Some(31), stored()),
        Config { default_user: s("you"), default_program_type_id: Some(31) }
    );
    assert_eq!(
        set_config(s("you"), None, Err(FileFault::NotFound)),
        Config { default_user: s("you"), default_program_type_id: None }
    );
    assert_eq!(
        set_config(None, None, Err(FileFault::Malformed)),
        Config { default_user: None, default_program_type_id: None }
    );
}

#[test]
fn defaults_stand_in_for_missing_arguments() {
    let config = || Ok(Config { default_user: s("me"), default_program_type_id: Some(54) });
    assert_eq!(default_handle(config()), Ok("me".to_string()));
    assert_eq!(default_handles(config()), Ok(vec!["me".to_string()]));
    assert_eq!(default_program_type_id(config()), Ok(54));
}

#[test]
fn missing_defaults_are_explained() {
    let empty = || Ok(Config { default_user: None, default_program_type_id: None });
    assert_eq!(
        default_handle(empty()),
        Err("no default user set, either run `caffeine config` to do so, or provide a handle as the first argument (see help)".to_string())
    );
    assert_eq!(
        default_handles(empty()),
        Err("no default user set, either run `caffeine config` to do so, or provide handles as arguments (see help)".to_string())
    );
    assert_eq!(
        default_program_type_id(empty()),
        Err("no default program type id (programming language) set, either run `caffeine config` to do so, or provide one as an argument (see help)".to_string())
    );
    let failed = || get_config(Err(FileFault::Malformed));
    assert_eq!(
        default_handle(failed()),
        Err("unable to access defaults in config.yml, specific error: \n\tfailed to parse config.yml file".to_string())
    );
    assert_eq!(
        default_handles(failed()),
        Err("unable to access defaults in config.yml, specific error: \n\tfailed to parse config.yml file".to_string())
    );
    assert_eq!(
        default_program_type_id(failed()),
        Err("unable to access defaults in config.yml, specific error: \n\tfailed to parse config.yml file".to_string())
    );
}
