//! What can go wrong with the two files that hold credentials and defaults,
//! and the words in which each fault is reported. The files themselves are
//! read and written by the caller, who reports a fault as a plain value.

use vstd::prelude::*;

verus! {

/// Name of the file that holds the credentials.
pub const AUTH_FILE_NAME: &'static str = "auth.yml";

/// Name of the file that holds the defaults.
pub const CONF_FILE_NAME: &'static str = "config.yml";

/// Why a file could not be read or written.
#[derive(Clone, Copy, Debug, PartialEq, Eq, Structural)]
pub enum FileFault {
    /// No directory could be found to keep the file in.
    NoPath,
    /// The file, or on writing its directory, does not exist.
    NotFound,
    /// The file may not be opened.
    PermissionDenied,
    /// The file could not be opened for another reason.
    OpenFailed,
    /// The transfer was interrupted.
    Interrupted,
    /// The transfer failed for another reason.
    TransferFailed,
    /// The file's content is not what it should be.
    Malformed,
}

pub open spec fn spec_auth_read_message(fault: FileFault) -> Seq<char> {
    match fault {
        FileFault::NoPath => "couldn't find a valid path to store keys"@,
        FileFault::NotFound => "(auth.yml not found) use `caffeine login` to setup\n                        API keys and/or login details."@,
        FileFault::PermissionDenied => "could not open auth.yml, permission denied"@,
        FileFault::OpenFailed => "could not open auth.yml, unknown reason"@,
        FileFault::Interrupted => "reading from auth.yml file was interrupted"@,
        FileFault::TransferFailed => "reading from auth.yml failed unexpectedly"@,
        FileFault::Malformed => "failed to parse auth.yml file"@,
    }
}

pub open spec fn spec_auth_write_message(fault: FileFault) -> Seq<char> {
    match fault {
        FileFault::NoPath => "couldn't find a valid path to store keys"@,
        FileFault::NotFound => "could not open auth.yml, parent dir does not exist"@,
        FileFault::PermissionDenied => "could not open auth.yml, permission denied"@,
        FileFault::OpenFailed => "could not open auth.yml, unknown reason"@,
        FileFault::Interrupted => "writing to auth.yml file was interrupted"@,
        FileFault::TransferFailed => "writing to auth.yml failed unexpectedly"@,
        FileFault::Malformed => "writing to auth.yml failed unexpectedly"@,
    }
}

pub open spec fn spec_config_read_message(fault: FileFault) -> Seq<char> {
    match fault {
        FileFault::NoPath => "couldn't find a valid path to place config at"@,
        FileFault::NotFound => "(config.yml not found) use `caffeine config` to setup defaults."@,
        FileFault::PermissionDenied => "could not open config.yml, permission denied"@,
        FileFault::OpenFailed => "could not open config.yml, unknown reason"@,
        FileFault::Interrupted => "reading from config.yml file was interrupted"@,
        FileFault::TransferFailed => "reading from config.yml failed unexpectedly"@,
        FileFault::Malformed => "failed to parse config.yml file"@,
    }
}

pub open spec fn spec_config_write_message(fault: FileFault) -> Seq<char> {
    match fault {
        FileFault::NoPath => "couldn't find a valid path to store keys"@,
        FileFault::NotFound => "could not open config.yml, parent dir does not exist"@,
        FileFault::PermissionDenied => "could not open config.yml, permission denied"@,
        FileFault::OpenFailed => "could not open config.yml, unknown reason"@,
        FileFault::Interrupted => "writing to config.yml file was interrupted"@,
        FileFault::TransferFailed => "writing to config.yml failed unexpectedly"@,
        FileFault::Malformed => "writing to config.yml failed unexpectedly"@,
    }
}

/// The words for a fault met while reading the credentials.
pub fn auth_read_message(fault: FileFault) -> (m: &'static str)
    ensures
        m@ == spec_auth_read_message(fault),
{
    match fault {
        FileFault::NoPath => "couldn't find a valid path to store keys",
        FileFault::NotFound => "(auth.yml not found) use `caffeine login` to setup\n                        API keys and/or login details.",
        FileFault::PermissionDenied => "could not open auth.yml, permission denied",
        FileFault::OpenFailed => "could not open auth.yml, unknown reason",
        FileFault::Interrupted => "reading from auth.yml file was interrupted",
        FileFault::TransferFailed => "reading from auth.yml failed unexpectedly",
        FileFault::Malformed => "failed to parse auth.yml file",
    }
}

/// The words for a fault met while writing the credentials.
pub fn auth_write_message(fault: FileFault) -> (m: &'static str)
    ensures
        m@ == spec_auth_write_message(fault),
{
    match fault {
        FileFault::NoPath => "couldn't find a valid path to store keys",
        FileFault::NotFound => "could not open auth.yml, parent dir does not exist",
        FileFault::PermissionDenied => "could not open auth.yml, permission denied",
        FileFault::OpenFailed => "could not open auth.yml, unknown reason",
        FileFault::Interrupted => "writing to auth.yml file was interrupted",
        FileFault::TransferFailed => "writing to auth.yml failed unexpectedly",
        FileFault::Malformed => "writing to auth.yml failed unexpectedly",
    }
}

/// The words for a fault met while reading the defaults.
pub fn config_read_message(fault: FileFault) -> (m: &'static str)
    ensures
        m@ == spec_config_read_message(fault),
{
    match fault {
        FileFault::NoPath => "couldn't find a valid path to place config at",
        FileFault::NotFound => "(config.yml not found) use `caffeine config` to setup defaults.",
        FileFault::PermissionDenied => "could not open config.yml, permission denied",
        FileFault::OpenFailed => "could not open config.yml, unknown reason",
        FileFault::Interrupted => "reading from config.yml file was interrupted",
        FileFault::TransferFailed => "reading from config.yml failed unexpectedly",
        FileFault::Malformed => "failed to parse config.yml file",
    }
}

/// The words for a fault met while writing the defaults.
pub fn config_write_message(fault: FileFault) -> (m: &'static str)
    ensures
        m@ == spec_config_write_message(fault),
{
    match fault {
        FileFault::NoPath => "couldn't find a valid path to store keys",
        FileFault::NotFound => "could not open config.yml, parent dir does not exist",
        FileFault::PermissionDenied => "could not open config.yml, permission denied",
        FileFault::OpenFailed => "could not open config.yml, unknown reason",
        FileFault::Interrupted => "writing to config.yml file was interrupted",
        FileFault::TransferFailed => "writing to config.yml failed unexpectedly",
        FileFault::Malformed => "writing to config.yml failed unexpectedly",
    }
}

} // verus!
