//! Service settings: what is read from `settings.toml` and the environment, and
//! its validation into the settings the service runs with.
use vstd::prelude::*;
use http::uri::{Authority, InvalidUri};

verus! {

#[verifier::external_type_specification]
#[verifier::external_body]
pub struct ExAuthority(Authority);

#[verifier::external_type_specification]
#[verifier::external_body]
pub struct ExInvalidUri(InvalidUri);

/// An IP address, as the address to listen on carries it.
#[derive(Clone, Copy, Debug, PartialEq, Eq)]
pub enum IpAddress {
    /// An IPv4 address, by its four octets.
    V4([u8; 4]),
    /// An IPv6 address, by its eight segments, with flow label and scope.
    V6 { segments: [u16; 8], flowinfo: u32, scope_id: u32 },
}

/// An IP address and port to listen for connections on.
#[derive(Clone, Copy, Debug, PartialEq, Eq)]
pub struct ListenAddress {
    pub ip: IpAddress,
    pub port: u16,
}

/// The settings as read, before validation.
pub struct SettingsSerdes {
    /// IP and port to listen for connections on
    pub listen: ListenAddress,
    /// Path to forward requests to
    pub base_path: String,
    /// Path to forward for errors
    pub error_path: String,
    /// Error page will be cached for the given number of seconds if this is set to a nonzero value
    pub error_ttl: Option<u32>,
    /// Redis URI
    pub redis_uri: String,
    /// Etcd URI (not used yet)
    pub etcd_uri: Option<String>,
}

/// The validated settings the service runs with.
pub struct Settings {
    /// IP and port to listen for connections on
    pub listen: ListenAddress,
    /// Path to forward requests to
    pub base_path: Authority,
    /// Path to forward for errors
    pub error_path: Authority,
    /// Redis URI
    pub redis_uri: String,
    /// Error page will be cached for the given number of seconds if this is set to a nonzero value
    pub error_ttl: Option<u32>,
}

/// Why the settings were refused.
pub enum SettingsError {
    /// `base_path` is not a URI authority.
    InvalidBasePath(InvalidUri),
    /// `error_path` is not a URI authority.
    InvalidErrorPath(InvalidUri),
}

/// Whether `Authority::from_str` accepts `s` (host, optional user info and port).
pub uninterp spec fn authority_parses(s: Seq<char>) -> bool;

/// The text an authority holds: what `Authority::as_str` returns.
pub uninterp spec fn authority_text(a: Authority) -> Seq<char>;

/// `Authority::from_str`: succeeds exactly on the texts it accepts; the empty
/// text is refused; an accepted text is kept unchanged as the authority's text.
#[verifier::external_body]
fn parse_authority(s: &str) -> (res: Result<Authority, InvalidUri>)
    ensures
        res is Ok <==> authority_parses(s@),
        s@.len() == 0 ==> res is Err,
        res matches Ok(a) ==> authority_text(a) == s@,
{
    s.parse::<Authority>()
}

/// The settings built from what was read and the outcomes of parsing its two
/// paths: `base_path` is checked first, then `error_path`.
pub open spec fn settings_outcome_matches(
    raw: SettingsSerdes,
    base: Result<Authority, InvalidUri>,
    error: Result<Authority, InvalidUri>,
    res: Result<Settings, SettingsError>,
) -> bool {
    match base {
        Err(e) => res == Err::<Settings, SettingsError>(SettingsError::InvalidBasePath(e)),
        Ok(b) => match error {
            Err(e) => res == Err::<Settings, SettingsError>(SettingsError::InvalidErrorPath(e)),
            Ok(ep) => res matches Ok(s) && s.listen == raw.listen && s.base_path == b
                && s.error_path == ep && s.redis_uri == raw.redis_uri && s.error_ttl
                == raw.error_ttl,
        },
    }
}

/// Builds the settings from what was read and the parsed paths; the first path
/// that failed to parse is reported.
pub fn settings_from_parsed(
    raw: SettingsSerdes,
    base: Result<Authority, InvalidUri>,
    error: Result<Authority, InvalidUri>,
) -> (res: Result<Settings, SettingsError>)
    ensures
        settings_outcome_matches(raw, base, error, res),
{
    match base {
        Err(e) => Err(SettingsError::InvalidBasePath(e)),
        Ok(b) => match error {
            Err(e) => Err(SettingsError::InvalidErrorPath(e)),
            Ok(ep) => Ok(
                Settings {
                    listen: raw.listen,
                    base_path: b,
                    error_path: ep,
                    redis_uri: raw.redis_uri,
                    error_ttl: raw.error_ttl,
                },
            ),
        },
    }
}

/// Validates the settings as read: both paths must be URI authorities. The
/// listen address, Redis URI and error TTL are kept; the Etcd URI is not used.
pub fn validate_settings(raw: SettingsSerdes) -> (res: Result<Settings, SettingsError>)
    ensures
        res is Ok <==> authority_parses(raw.base_path@) && authority_parses(raw.error_path@),
        res matches Err(SettingsError::InvalidBasePath(_)) <==> !authority_parses(
            raw.base_path@,
        ),
        res matches Err(SettingsError::InvalidErrorPath(_)) <==> authority_parses(
            raw.base_path@,
        ) && !authority_parses(raw.error_path@),
        res matches Ok(s) ==> s.listen == raw.listen && s.redis_uri == raw.redis_uri
            && s.error_ttl == raw.error_ttl,
        res matches Ok(s) ==> authority_text(s.base_path) == raw.base_path@ && authority_text(
            s.error_path,
        ) == raw.error_path@,
{
    let base = parse_authority(raw.base_path.as_str());
    match base {
        Err(e) => Err(SettingsError::InvalidBasePath(e)),
        Ok(b) => {
            let error = parse_authority(raw.error_path.as_str());
            settings_from_parsed(raw, Ok(b), error)
        },
    }
}

impl SettingsError {
    /// The settings field that was refused, as the error message names it.
    pub fn field_name(&self) -> (name: &'static str)
        ensures
            self is InvalidBasePath ==> name@ == "base_path"@,
            self is InvalidErrorPath ==> name@ == "error_path"@,
    {
        match self {
            SettingsError::InvalidBasePath(_) => "base_path",
            SettingsError::InvalidErrorPath(_) => "error_path",
        }
    }

    /// The parse error of the refused field.
    pub fn cause(&self) -> (e: &InvalidUri)
        ensures
            match self {
                SettingsError::InvalidBasePath(c) => *e == *c,
                SettingsError::InvalidErrorPath(c) => *e == *c,
            },
    {
        match self {
            SettingsError::InvalidBasePath(e) => e,
            SettingsError::InvalidErrorPath(e) => e,
        }
    }
}

} // verus!
