//! The application's configuration, as the runtime core reads it.

use crate::window::WindowConfig;
use vstd::prelude::*;

verus! {

/// Which built-in API categories window scripts may call.
#[derive(Debug, Clone, Copy, PartialEq, Eq, Structural)]
pub struct Allowlist {
    pub app_all: bool,
    pub process_all: bool,
    pub fs_all: bool,
    pub window_all: bool,
    /// Whether scripts may create windows; needs `window_all` too.
    pub window_create: bool,
    pub shell_all: bool,
    pub event_all: bool,
    pub dialog_all: bool,
    pub cli_all: bool,
    pub notification_all: bool,
    pub http_all: bool,
    pub global_shortcut_all: bool,
}

/// How the application checks for updates.
#[derive(Debug, Clone, Copy, PartialEq, Eq, Structural)]
pub struct UpdaterConfig {
    /// Whether updates are checked at all.
    pub active: bool,
    /// Whether the built-in dialog asks the user.
    pub dialog: bool,
}

/// The application's configuration.
pub struct Config {
    /// The windows created at startup, in order.
    pub windows: Vec<WindowConfig>,
    pub allowlist: Allowlist,
    /// The bundle identifier, which notifications are sent under.
    pub bundle_identifier: String,
    /// Whether a command-line interface is configured.
    pub cli: bool,
    pub updater: UpdaterConfig,
    /// The content security policy, if any.
    pub csp: Option<String>,
    /// Where content is loaded from during development: a URL or a directory.
    pub dev_path: String,
    /// The directory of the built front end.
    pub dist_dir: String,
}

/// The application's name and version.
pub struct PackageInfo {
    pub name: String,
    pub version: String,
}

/// Everything the application is started with.
pub struct Context {
    pub config: Config,
    pub package_info: PackageInfo,
}

} // verus!
