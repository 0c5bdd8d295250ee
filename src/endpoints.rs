//! The built-in modules of the invoke bridge: their tags, the allowlist that gates them,
//! and the routing of a decoded module message.

pub mod notification;
pub mod window;

use crate::config::{Allowlist, Config};
use crate::error::Error;
use crate::manager::WindowManager;
use crate::text::str_eq;
use crate::window::{Dispatch, Monitor, PhysicalPosition, PhysicalSize, Window};
use vstd::prelude::*;

verus! {

/// The answer of a built-in command, before it is written as JSON.
#[derive(Debug, PartialEq, Eq)]
pub enum InvokeResponse {
    Null,
    Bool(bool),
    Text(String),
    Position(PhysicalPosition),
    Size(PhysicalSize),
    Monitor(Option<Monitor>),
    Monitors(Vec<Monitor>),
}

/// The tags of the built-in modules.
#[derive(Debug, Clone, Copy, PartialEq, Eq, Structural)]
pub enum ModuleTag {
    App,
    Process,
    Fs,
    Window,
    Shell,
    Event,
    Internal,
    Dialog,
    Cli,
    Notification,
    Http,
    GlobalShortcut,
}

/// The module a tag names; tags are case-sensitive.
pub open spec fn module_tag_of(s: Seq<char>) -> Option<ModuleTag> {
    if s == "App"@ {
        Some(ModuleTag::App)
    } else if s == "Process"@ {
        Some(ModuleTag::Process)
    } else if s == "Fs"@ {
        Some(ModuleTag::Fs)
    } else if s == "Window"@ {
        Some(ModuleTag::Window)
    } else if s == "Shell"@ {
        Some(ModuleTag::Shell)
    } else if s == "Event"@ {
        Some(ModuleTag::Event)
    } else if s == "Internal"@ {
        Some(ModuleTag::Internal)
    } else if s == "Dialog"@ {
        Some(ModuleTag::Dialog)
    } else if s == "Cli"@ {
        Some(ModuleTag::Cli)
    } else if s == "Notification"@ {
        Some(ModuleTag::Notification)
    } else if s == "Http"@ {
        Some(ModuleTag::Http)
    } else if s == "GlobalShortcut"@ {
        Some(ModuleTag::GlobalShortcut)
    } else {
        None
    }
}

/// The module that a tag names, if any.
pub fn parse_module_tag(s: &str) -> (r: Option<ModuleTag>)
    ensures
        r == module_tag_of(s@),
{
    if str_eq(s, "App") {
        Some(ModuleTag::App)
    } else if str_eq(s, "Process") {
        Some(ModuleTag::Process)
    } else if str_eq(s, "Fs") {
        Some(ModuleTag::Fs)
    } else if str_eq(s, "Window") {
        Some(ModuleTag::Window)
    } else if str_eq(s, "Shell") {
        Some(ModuleTag::Shell)
    } else if str_eq(s, "Event") {
        Some(ModuleTag::Event)
    } else if str_eq(s, "Internal") {
        Some(ModuleTag::Internal)
    } else if str_eq(s, "Dialog") {
        Some(ModuleTag::Dialog)
    } else if str_eq(s, "Cli") {
        Some(ModuleTag::Cli)
    } else if str_eq(s, "Notification") {
        Some(ModuleTag::Notification)
    } else if str_eq(s, "Http") {
        Some(ModuleTag::Http)
    } else if str_eq(s, "GlobalShortcut") {
        Some(ModuleTag::GlobalShortcut)
    } else {
        None
    }
}

/// Whether the allowlist lets scripts reach a module that the host runs.
pub open spec fn host_module_allowed(tag: ModuleTag, allowlist: Allowlist) -> bool {
    match tag {
        ModuleTag::Process => allowlist.process_all,
        ModuleTag::Fs => allowlist.fs_all,
        ModuleTag::Shell => allowlist.shell_all,
        ModuleTag::Dialog => allowlist.dialog_all,
        ModuleTag::Cli => allowlist.cli_all,
        ModuleTag::Http => allowlist.http_all,
        ModuleTag::GlobalShortcut => allowlist.global_shortcut_all,
        _ => true,
    }
}

/// The name of a module's allowlist category.
pub open spec fn category(tag: ModuleTag) -> Seq<char> {
    match tag {
        ModuleTag::App => "app"@,
        ModuleTag::Process => "process"@,
        ModuleTag::Fs => "fs"@,
        ModuleTag::Window => "window"@,
        ModuleTag::Shell => "shell"@,
        ModuleTag::Event => "event"@,
        ModuleTag::Internal => "internal"@,
        ModuleTag::Dialog => "dialog"@,
        ModuleTag::Cli => "cli"@,
        ModuleTag::Notification => "notification"@,
        ModuleTag::Http => "http"@,
        ModuleTag::GlobalShortcut => "globalShortcut"@,
    }
}

fn category_name(tag: ModuleTag) -> (r: String)
    ensures
        r@ == category(tag),
{
    match tag {
        ModuleTag::App => String::from_str("app"),
        ModuleTag::Process => String::from_str("process"),
        ModuleTag::Fs => String::from_str("fs"),
        ModuleTag::Window => String::from_str("window"),
        ModuleTag::Shell => String::from_str("shell"),
        ModuleTag::Event => String::from_str("event"),
        ModuleTag::Internal => String::from_str("internal"),
        ModuleTag::Dialog => String::from_str("dialog"),
        ModuleTag::Cli => String::from_str("cli"),
        ModuleTag::Notification => String::from_str("notification"),
        ModuleTag::Http => String::from_str("http"),
        ModuleTag::GlobalShortcut => String::from_str("globalShortcut"),
    }
}

/// A decoded module message.
pub enum Module {
    /// A window command, run here.
    Window(window::Cmd),
    /// A notification command, decided here.
    Notification(notification::Cmd),
    /// A command of a module that the host runs, with the JSON text of its message.
    Host(ModuleTag, String),
}

/// What becomes of a module message.
pub enum Outcome {
    /// Answer the invoke with this result.
    Respond(Result<InvokeResponse, Error>),
    /// Carry out a notification action.
    Notification(notification::Action),
    /// Hand the message to the host's implementation of the module.
    Host(ModuleTag, String),
}

/// The notification result an outcome carries, if it carries one.
pub open spec fn notification_outcome(o: Outcome) -> Option<Result<notification::Action, Error>> {
    match o {
        Outcome::Notification(a) => Some(Ok(a)),
        Outcome::Respond(Err(e)) => Some(Err(e)),
        _ => None,
    }
}

/// What becomes of a module message, and how the window table changes: a window command
/// answers what `window::Cmd::run` gives, a notification command carries what
/// `notification::Cmd::run` gives, and a host module is handed on when the allowlist lets
/// it through (the command-line module also needs a configured interface).
pub open spec fn module_result(
    m: Module,
    config: Config,
    settings: notification::Settings,
    old_labels: Seq<Seq<char>>,
    new_labels: Seq<Seq<char>>,
    r: Outcome,
) -> bool {
    match m {
        Module::Window(cmd) => r matches Outcome::Respond(res) && window::window_result(
            cmd,
            config.allowlist,
            old_labels,
            new_labels,
            res,
        ),
        Module::Notification(cmd) => new_labels == old_labels && (notification_outcome(r) matches Some(
            res,
        ) && notification::notification_result(
            cmd,
            config.allowlist,
            config.bundle_identifier,
            settings,
            res,
        )),
        Module::Host(tag, message) => new_labels == old_labels && (if !host_module_allowed(
            tag,
            config.allowlist,
        ) {
            r matches Outcome::Respond(Err(Error::ApiNotAllowlisted(a))) && a@ == category(tag)
        } else if tag == ModuleTag::Cli && !config.cli {
            r matches Outcome::Respond(Err(Error::NotConfigured(a))) && a@ == category(tag)
        } else {
            r == Outcome::Host(tag, message)
        }),
    }
}

impl Module {
    /// Runs or routes a module message from `window`.
    pub fn run<D: Dispatch>(
        self,
        window: &Window<D>,
        manager: &mut WindowManager<D>,
        config: &Config,
        settings: &notification::Settings,
    ) -> (r: Outcome)
        requires
            old(manager).wf(),
            old(manager).salt_count() + old(manager).labels().len() + 1 < u64::MAX,
        ensures
            final(manager).wf(),
            module_result(self, *config, *settings, old(manager).labels(), final(manager).labels(), r),
    {
        match self {
            Module::Window(cmd) => Outcome::Respond(cmd.run(window, manager, &config.allowlist)),
            Module::Notification(cmd) => match cmd.run(
                &config.allowlist,
                &config.bundle_identifier,
                settings,
            ) {
                Ok(action) => Outcome::Notification(action),
                Err(e) => Outcome::Respond(Err(e)),
            },
            Module::Host(tag, message) => {
                if !host_allowed(tag, &config.allowlist) {
                    Outcome::Respond(Err(Error::ApiNotAllowlisted(category_name(tag))))
                } else if tag == ModuleTag::Cli && !config.cli {
                    Outcome::Respond(Err(Error::NotConfigured(category_name(tag))))
                } else {
                    Outcome::Host(tag, message)
                }
            },
        }
    }
}

fn host_allowed(tag: ModuleTag, allowlist: &Allowlist) -> (r: bool)
    ensures
        r == host_module_allowed(tag, *allowlist),
{
    match tag {
        ModuleTag::Process => allowlist.process_all,
        ModuleTag::Fs => allowlist.fs_all,
        ModuleTag::Shell => allowlist.shell_all,
        ModuleTag::Dialog => allowlist.dialog_all,
        ModuleTag::Cli => allowlist.cli_all,
        ModuleTag::Http => allowlist.http_all,
        ModuleTag::GlobalShortcut => allowlist.global_shortcut_all,
        _ => true,
    }
}

/// Handles a message for a built-in module: a message that could not be decoded is
/// answered with its decoding error; a decoded one is run or routed.
pub fn handle<D: Dispatch>(
    decoded: Result<Module, String>,
    window: &Window<D>,
    manager: &mut WindowManager<D>,
    config: &Config,
    settings: &notification::Settings,
) -> (r: Outcome)
    requires
        old(manager).wf(),
        old(manager).salt_count() + old(manager).labels().len() + 1 < u64::MAX,
    ensures
        final(manager).wf(),
        decoded matches Err(m) ==> r == Outcome::Respond(Err(Error::Json(m))),
        decoded is Err ==> final(manager).labels() == old(manager).labels(),
        decoded matches Ok(m) ==> module_result(
            m,
            *config,
            *settings,
            old(manager).labels(),
            final(manager).labels(),
            r,
        ),
{
    match decoded {
        Ok(module) => module.run(window, manager, config, settings),
        Err(m) => Outcome::Respond(Err(Error::Json(m))),
    }
}

} // verus!
