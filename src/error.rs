//! The error type shared by the whole runtime core.

use vstd::prelude::*;

verus! {

/// Every failure the runtime core reports.
#[derive(Debug, Clone, PartialEq, Eq)]
pub enum Error {
    /// The target triple's architecture could not be determined.
    Architecture,
    /// The target triple's operating system could not be determined.
    Os,
    /// The target triple's environment could not be determined.
    Environment,
    /// Resources were requested on a platform that cannot provide them.
    UnsupportedPlatform,
    /// The parent process could not be found.
    ParentProcess,
    /// The parent process id could not be found.
    ParentPid,
    /// The child process could not be found.
    ChildProcess,
    /// An input/output failure, with its message.
    Io(String),
    /// A window with this label already exists.
    DuplicateLabel(String),
    /// State of this type is already managed.
    StateAlreadyManaged(String),
    /// The API category is not on the allowlist.
    ApiNotAllowlisted(String),
    /// A module was called that the configuration does not set up.
    NotConfigured(String),
    /// A message could not be decoded, with the decoder's message.
    Json(String),
    /// The native webview backend reported a failure.
    Runtime(String),
    /// The icon bytes or path could not be turned into an icon.
    InvalidIcon(String),
    /// A plugin failed to initialize: the plugin name and its message.
    PluginInitialization(String, String),
    /// The setup hook failed, with its message.
    Setup(String),
}

/// The human-readable text of an error.
pub open spec fn error_text(e: Error) -> Seq<char> {
    match e {
        Error::Architecture => "Unable to determine target-architecture"@,
        Error::Os => "Unable to determine target-os"@,
        Error::Environment => "Unable to determine target-environment"@,
        Error::UnsupportedPlatform => "Unsupported platform for reading resources"@,
        Error::ParentProcess => "Could not get parent process"@,
        Error::ParentPid => "Could not get parent PID"@,
        Error::ChildProcess => "Could not get child process"@,
        Error::Io(m) => m@,
        Error::DuplicateLabel(l) => "a window with label '"@ + l@ + "' already exists"@,
        Error::StateAlreadyManaged(t) => "state for type '"@ + t@ + "' is already being managed"@,
        Error::ApiNotAllowlisted(a) => "'"@ + a@ + "' not on the allowlist"@,
        Error::NotConfigured(a) => "'"@ + a@ + "' is not configured"@,
        Error::Json(m) => "JSON error: "@ + m@,
        Error::Runtime(m) => "runtime error: "@ + m@,
        Error::InvalidIcon(m) => "invalid icon: "@ + m@,
        Error::PluginInitialization(p, m) => "failed to initialize plugin `"@ + p@ + "`: "@ + m@,
        Error::Setup(m) => "error encountered during setup hook: "@ + m@,
    }
}

/// `head + mid`, as a new string.
fn prefixed(head: &str, mid: &String) -> (r: String)
    ensures
        r@ == head@ + mid@,
{
    let mut r = String::from_str(head);
    r.append(mid.as_str());
    r
}

/// `head + mid + tail`, as a new string.
fn surround(head: &str, mid: &String, tail: &str) -> (r: String)
    ensures
        r@ == head@ + mid@ + tail@,
{
    let mut r = String::from_str(head);
    r.append(mid.as_str());
    r.append(tail);
    r
}

impl Error {
    /// The text that describes this error to a person.
    pub fn message(&self) -> (r: String)
        ensures
            r@ == error_text(*self),
    {
        match self {
            Error::Architecture => String::from_str("Unable to determine target-architecture"),
            Error::Os => String::from_str("Unable to determine target-os"),
            Error::Environment => String::from_str("Unable to determine target-environment"),
            Error::UnsupportedPlatform => String::from_str(
                "Unsupported platform for reading resources",
            ),
            Error::ParentProcess => String::from_str("Could not get parent process"),
            Error::ParentPid => String::from_str("Could not get parent PID"),
            Error::ChildProcess => String::from_str("Could not get child process"),
            Error::Io(m) => m.clone(),
            Error::DuplicateLabel(l) => surround("a window with label '", l, "' already exists"),
            Error::StateAlreadyManaged(t) => surround(
                "state for type '",
                t,
                "' is already being managed",
            ),
            Error::ApiNotAllowlisted(a) => surround("'", a, "' not on the allowlist"),
            Error::NotConfigured(a) => surround("'", a, "' is not configured"),
            Error::Json(m) => prefixed("JSON error: ", m),
            Error::Runtime(m) => prefixed("runtime error: ", m),
            Error::InvalidIcon(m) => prefixed("invalid icon: ", m),
            Error::PluginInitialization(p, m) => {
                let mut r = surround("failed to initialize plugin `", p, "`: ");
                r.append(m.as_str());
                r
            },
            Error::Setup(m) => prefixed("error encountered during setup hook: ", m),
        }
    }
}

} // verus!
