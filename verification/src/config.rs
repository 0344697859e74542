//! Settings of the object store, where they are kept, and the static
//! credentials that sign every request.

use std::path::PathBuf;
use vstd::prelude::*;

verus! {

/// `std::path::PathBuf`, carried through as it was configured; nothing is
/// claimed of what it holds.
#[verifier::external_type_specification]
#[verifier::external_body]
pub struct ExPathBuf(std::path::PathBuf);

/// Where the settings live, below the user's home directory.
pub const CONFIG_PATH: &'static str = ".config/shorty.toml";

/// The whole settings document.
#[derive(Debug, PartialEq, Eq)]
pub struct Config {
    pub s3: S3Config,
}

/// Settings of the object store.
#[derive(Debug, PartialEq, Eq)]
pub struct S3Config {
    pub endpoint: String,
    pub tls: Option<S3TlsConfig>,
    pub bucket: String,
    pub key: String,
    pub secret: String,
}

/// Configuration used for mutual TLS.
#[derive(Debug, PartialEq, Eq)]
pub struct S3TlsConfig {
    pub certificate: PathBuf,
    pub key: PathBuf,
}

/// Why no settings could be had. Each is fatal; no default stands in.
#[derive(Clone, Debug, PartialEq, Eq)]
pub enum ConfigError {
    /// The environment names no home directory.
    HomeMissing,
    /// The settings file could not be read.
    Unreadable,
    /// The settings file is no valid document; the parser's words are kept.
    Malformed(String),
}

impl ConfigError {
    /// What `message` returns.
    pub open spec fn spec_message(self) -> Seq<char> {
        match self {
            ConfigError::HomeMissing => "$HOME missing"@,
            ConfigError::Unreadable => "couldn't load config from "@ + CONFIG_PATH@,
            ConfigError::Malformed(detail) => detail@,
        }
    }

    /// The line shown to the user.
    pub fn message(&self) -> (text: String)
        ensures
            text@ == self.spec_message(),
    {
        match self {
            ConfigError::HomeMissing => String::from_str("$HOME missing"),
            ConfigError::Unreadable => String::from_str("couldn't load config from ").concat(
                CONFIG_PATH,
            ),
            ConfigError::Malformed(detail) => detail.clone(),
        }
    }
}

/// `relative` below `base`, as paths are joined where `/` parts them: a
/// `relative` that begins at the root stands for itself; otherwise it follows
/// `base`, with one `/` between the two unless `base` is empty or ends in one.
pub open spec fn joined_path(base: Seq<char>, relative: Seq<char>) -> Seq<char> {
    if relative.len() > 0 && relative[0] == '/' {
        relative
    } else if base.len() == 0 || base.last() == '/' {
        base + relative
    } else {
        base + seq!['/'] + relative
    }
}

/// Joins `relative` to `base`.
pub fn join_path(base: &str, relative: &str) -> (joined: String)
    ensures
        joined@ == joined_path(base@, relative@),
{
    let relative_len = relative.unicode_len();
    if relative_len > 0 && relative.get_char(0) == '/' {
        return String::from_str(relative);
    }
    let base_len = base.unicode_len();
    if base_len == 0 || base.get_char(base_len - 1) == '/' {
        String::from_str(base).concat(relative)
    } else {
        proof {
            reveal_strlit("/");
            assert("/"@ =~= seq!['/']);
        }
        String::from_str(base).concat("/").concat(relative)
    }
}

impl Config {
    /// Where the settings file is looked for, given what the environment
    /// says of the home directory: at `CONFIG_PATH` below it. Without a home
    /// directory there is no such place, and nothing else may be tried.
    pub fn locate(home: Option<&str>) -> (place: Result<String, ConfigError>)
        ensures
            home is None ==> place == Err::<String, ConfigError>(ConfigError::HomeMissing),
            home matches Some(dir) ==> place is Ok && place->Ok_0@ == joined_path(
                dir@,
                CONFIG_PATH@,
            ),
    {
        match home {
            None => Err(ConfigError::HomeMissing),
            Some(dir) => Ok(join_path(dir, CONFIG_PATH)),
        }
    }
}

/// A fixed pair of access key and secret.
#[derive(Clone, Debug, PartialEq, Eq)]
pub struct Credentials {
    key: String,
    secret: String,
}

/// What a request is signed with.
#[derive(Clone, Debug, PartialEq, Eq)]
pub struct ResolvedCredentials {
    pub key: String,
    pub secret: String,
    /// Session token; static credentials have none.
    pub token: Option<String>,
    /// Seconds since the epoch at which the pair expires; static credentials
    /// never do.
    pub expires_at: Option<i64>,
}

/// Why credentials could not be resolved.
#[derive(Clone, Debug, PartialEq, Eq)]
pub struct CredentialsError {
    pub message: String,
}

impl Credentials {
    /// The access key the pair was made with.
    pub closed spec fn access_key(self) -> Seq<char> {
        self.key@
    }

    /// The secret the pair was made with.
    pub closed spec fn secret_key(self) -> Seq<char> {
        self.secret@
    }

    pub fn new(key: String, secret: String) -> (made: Credentials)
        ensures
            made.access_key() == key@,
            made.secret_key() == secret@,
    {
        Credentials { key, secret }
    }

    /// Resolves the current credentials. This always succeeds with the pair
    /// given at construction, without token or expiry.
    pub fn credentials(&self) -> (resolved: Result<ResolvedCredentials, CredentialsError>)
        ensures
            resolved is Ok,
            resolved->Ok_0.key@ == self.access_key(),
            resolved->Ok_0.secret@ == self.secret_key(),
            resolved->Ok_0.token is None,
            resolved->Ok_0.expires_at is None,
    {
        Ok(
            ResolvedCredentials {
                key: self.key.clone(),
                secret: self.secret.clone(),
                token: None,
                expires_at: None,
            },
        )
    }
}

} // verus!
