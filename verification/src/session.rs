//! The parts of opening an SSH session that compute rather than talk to the
//! network: where the private key is, and what each failure is reported as.

use vstd::prelude::*;

verus! {

/// Whether `shellexpand` may replace the leading `~` of `p` by a home directory: `p`
/// is `~` alone or `~` followed by a path separator (`\` counting on Windows only).
pub open spec fn tilde_prefixed(p: Seq<char>) -> bool {
    &&& p.len() >= 1
    &&& p[0] == '~'
    &&& (p.len() == 1 || p[1] == '/' || p[1] == '\\')
}

/// Whether `p` is `~` alone or `~` followed by `/`: the forms that are expanded on
/// every platform.
pub open spec fn tilde_slash(p: Seq<char>) -> bool {
    &&& p.len() >= 1
    &&& p[0] == '~'
    &&& (p.len() == 1 || p[1] == '/')
}

/// Calls `shellexpand::tilde_with_context` with `home` as the home directory. Its source
/// returns the input unchanged when no home directory is given or the input is not `~`
/// alone or `~` followed by a separator; otherwise it returns the home directory
/// followed by the input without its `~`. `~\` counts as such a form only on Windows,
/// so for it both outcomes are allowed.
#[verifier::external_body]
fn expand_tilde_with(path: &str, home: Option<String>) -> (r: String)
    ensures
        home is None || !tilde_prefixed(path@) ==> r@ == path@,
        home is Some && tilde_slash(path@) ==> r@ == home->0@ + path@.drop_first(),
        home is Some && tilde_prefixed(path@) ==> (r@ == path@ || r@ == home->0@
            + path@.drop_first()),
{
    shellexpand::tilde_with_context(path, move || home).into_owned()
}

/// The file to read the private key from: `key_path` with a leading `~` (alone or
/// followed by `/`) replaced by the user's home directory `home`, when one is known.
pub fn resolve_key_path(key_path: &str, home: Option<String>) -> (r: String)
    ensures
        home is None || !tilde_prefixed(key_path@) ==> r@ == key_path@,
        home is Some && tilde_slash(key_path@) ==> r@ == home->0@ + key_path@.drop_first(),
        home is Some && tilde_prefixed(key_path@) ==> (r@ == key_path@ || r@ == home->0@
            + key_path@.drop_first()),
{
    expand_tilde_with(key_path, home)
}

/// Why a session could not be opened.
pub enum SessionFailure {
    /// The TCP connection to `addr` (`host:port`) failed.
    TcpConnect { addr: String, detail: String },
    ReadTimeout(String),
    WriteTimeout(String),
    NewSession(String),
    Handshake(String),
    /// The key file (after `~` expansion) does not exist.
    KeyNotFound(String),
    Authentication(String),
    NotAuthenticated,
}

pub open spec fn failure_text(f: SessionFailure) -> Seq<char> {
    match f {
        SessionFailure::TcpConnect { addr, detail } => "TCP connect to "@ + addr@ + " failed: "@
            + detail@,
        SessionFailure::ReadTimeout(d) => "Failed to set read timeout: "@ + d@,
        SessionFailure::WriteTimeout(d) => "Failed to set write timeout: "@ + d@,
        SessionFailure::NewSession(d) => "Failed to create SSH session: "@ + d@,
        SessionFailure::Handshake(d) => "SSH handshake failed: "@ + d@,
        SessionFailure::KeyNotFound(p) => "SSH key not found: "@ + p@,
        SessionFailure::Authentication(d) => "SSH key authentication failed: "@ + d@,
        SessionFailure::NotAuthenticated => "SSH authentication not confirmed"@,
    }
}

impl SessionFailure {
    /// The text of the failure, as handed back in `SshInput::Opened`.
    pub fn message(&self) -> (r: String)
        ensures
            r@ == failure_text(*self),
    {
        match self {
            SessionFailure::TcpConnect { addr, detail } => String::from_str("TCP connect to ").concat(
                addr.as_str(),
            ).concat(" failed: ").concat(detail.as_str()),
            SessionFailure::ReadTimeout(d) => String::from_str(
                "Failed to set read timeout: ",
            ).concat(d.as_str()),
            SessionFailure::WriteTimeout(d) => String::from_str(
                "Failed to set write timeout: ",
            ).concat(d.as_str()),
            SessionFailure::NewSession(d) => String::from_str(
                "Failed to create SSH session: ",
            ).concat(d.as_str()),
            SessionFailure::Handshake(d) => String::from_str("SSH handshake failed: ").concat(
                d.as_str(),
            ),
            SessionFailure::KeyNotFound(p) => String::from_str("SSH key not found: ").concat(
                p.as_str(),
            ),
            SessionFailure::Authentication(d) => String::from_str(
                "SSH key authentication failed: ",
            ).concat(d.as_str()),
            SessionFailure::NotAuthenticated => String::from_str("SSH authentication not confirmed"),
        }
    }
}

} // verus!
