//! The notification module of the invoke bridge.
//!
//! Showing a notification, asking the user, and reading or writing the stored answer are
//! done by the caller; this module decides what to do and what to answer.

use crate::config::Allowlist;
use crate::endpoints::InvokeResponse;
use crate::error::Error;
use vstd::prelude::*;

verus! {

/// The answer when notifications are allowed.
pub open spec fn permission_granted() -> Seq<char> {
    "granted"@
}

/// The answer when notifications are not allowed.
pub open spec fn permission_denied() -> Seq<char> {
    "denied"@
}

/// The options of one notification.
pub struct NotificationOptions {
    /// The notification title.
    pub title: String,
    /// The notification body.
    pub body: Option<String>,
    /// The notification icon.
    pub icon: Option<String>,
}

/// The commands of the notification module.
pub enum Cmd {
    /// Show a notification.
    Notification { options: NotificationOptions },
    /// Ask for the permission to show notifications.
    RequestNotificationPermission,
    /// Tell whether notifications are allowed.
    IsNotificationPermissionGranted,
}

/// The stored settings that concern notifications.
pub struct Settings {
    /// The user's answer, once given.
    pub allow_notification: Option<bool>,
}

/// A notification ready to be shown.
pub struct Notification {
    /// The application identifier it is shown under.
    pub identifier: String,
    pub title: String,
    pub body: Option<String>,
    pub icon: Option<String>,
}

/// The user's answer to the permission question.
#[derive(Debug, Clone, Copy, PartialEq, Eq, Structural)]
pub enum AskResponse {
    Yes,
    No,
}

/// What a permission request needs.
pub enum PermissionRequest {
    /// The answer is known already.
    Answer(String),
    /// The user must be asked.
    Ask,
}

/// What the caller does for a notification command.
pub enum Action {
    /// Answer the invoke with this value.
    Respond(InvokeResponse),
    /// Show this notification, then answer with nothing.
    Show(Notification),
    /// Ask the user, record the answer with `apply_answer`, and answer with its result.
    Ask,
}

/// The notification that `options` describe, under `identifier`.
pub fn send(options: NotificationOptions, identifier: &String) -> (r: Notification)
    ensures
        r.identifier == *identifier,
        r.title == options.title,
        r.body == options.body,
        r.icon == options.icon,
{
    Notification {
        identifier: identifier.clone(),
        title: options.title,
        body: options.body,
        icon: options.icon,
    }
}

/// The stored answer: a boolean when there is one, nothing when the user was never asked.
pub fn is_permission_granted(settings: &Settings) -> (r: InvokeResponse)
    ensures
        match settings.allow_notification {
            Some(b) => r == InvokeResponse::Bool(b),
            None => r is Null,
        },
{
    match settings.allow_notification {
        Some(b) => InvokeResponse::Bool(b),
        None => InvokeResponse::Null,
    }
}

/// The answer to a permission request where it is stored; otherwise the user must be asked.
pub fn request_permission(settings: &Settings) -> (r: PermissionRequest)
    ensures
        match settings.allow_notification {
            Some(true) => r matches PermissionRequest::Answer(a) && a@ == permission_granted(),
            Some(false) => r matches PermissionRequest::Answer(a) && a@ == permission_denied(),
            None => r is Ask,
        },
{
    match settings.allow_notification {
        Some(true) => PermissionRequest::Answer(String::from_str("granted")),
        Some(false) => PermissionRequest::Answer(String::from_str("denied")),
        None => PermissionRequest::Ask,
    }
}

/// Records the user's answer in the settings and gives the text answered to the script.
pub fn apply_answer(settings: &mut Settings, answer: AskResponse) -> (r: String)
    ensures
        final(settings).allow_notification == Some(answer == AskResponse::Yes),
        answer == AskResponse::Yes ==> r@ == permission_granted(),
        answer == AskResponse::No ==> r@ == permission_denied(),
{
    match answer {
        AskResponse::Yes => {
            settings.allow_notification = Some(true);
            String::from_str("granted")
        },
        AskResponse::No => {
            settings.allow_notification = Some(false);
            String::from_str("denied")
        },
    }
}

/// What a notification command gives. Without `notification_all` on the allowlist every
/// command fails with the not-allowlisted error of the category.
pub open spec fn notification_result(
    cmd: Cmd,
    allowlist: Allowlist,
    identifier: String,
    settings: Settings,
    r: Result<Action, Error>,
) -> bool {
    if !allowlist.notification_all {
        r matches Err(Error::ApiNotAllowlisted(a)) && a@ == "notification"@
    } else {
        match cmd {
            Cmd::Notification { options } => r matches Ok(Action::Show(n)) && n.identifier
                == identifier && n.title == options.title && n.body == options.body && n.icon
                == options.icon,
            Cmd::IsNotificationPermissionGranted => r matches Ok(Action::Respond(v)) && match settings.allow_notification {
                Some(b) => v == InvokeResponse::Bool(b),
                None => v is Null,
            },
            Cmd::RequestNotificationPermission => match settings.allow_notification {
                Some(true) => r matches Ok(Action::Respond(InvokeResponse::Text(a))) && a@
                    == permission_granted(),
                Some(false) => r matches Ok(Action::Respond(InvokeResponse::Text(a))) && a@
                    == permission_denied(),
                None => r matches Ok(Action::Ask),
            },
        }
    }
}

impl Cmd {
    /// Decides what a notification command does; every command needs `notification_all`
    /// on the allowlist.
    pub fn run(self, allowlist: &Allowlist, identifier: &String, settings: &Settings) -> (r: Result<
        Action,
        Error,
    >)
        ensures
            notification_result(self, *allowlist, *identifier, *settings, r),
    {
        if !allowlist.notification_all {
            return Err(Error::ApiNotAllowlisted(String::from_str("notification")));
        }
        match self {
            Cmd::Notification { options } => Ok(Action::Show(send(options, identifier))),
            Cmd::IsNotificationPermissionGranted => Ok(Action::Respond(is_permission_granted(settings))),
            Cmd::RequestNotificationPermission => match request_permission(settings) {
                PermissionRequest::Answer(a) => Ok(Action::Respond(InvokeResponse::Text(a))),
                PermissionRequest::Ask => Ok(Action::Ask),
            },
        }
    }
}

} // verus!
