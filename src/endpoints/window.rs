//! The window module of the invoke bridge: geometry and state commands on the calling
//! window, and the creation of new windows.

use crate::config::Allowlist;
use crate::endpoints::InvokeResponse;
use crate::error::Error;
use crate::json::{json_string, json_string_of};
use crate::manager::WindowManager;
use crate::window::{
    DetachedWindow, Dispatch, Icon, IconDto, Message, Monitor, PendingWindow, PhysicalPosition, PhysicalSize,
    WebviewAttributes, Window, WindowConfig, WindowUrl,
};
use vstd::prelude::*;

verus! {

/// The commands of the window module.
pub enum Cmd {
    CreateWebview { options: WindowConfig },
    // Getters
    InnerPosition,
    OuterPosition,
    InnerSize,
    OuterSize,
    IsFullscreen,
    IsMaximized,
    CurrentMonitor,
    PrimaryMonitor,
    AvailableMonitors,
    // Setters
    SetResizable(bool),
    SetTitle(String),
    Maximize,
    Unmaximize,
    Minimize,
    Unminimize,
    Show,
    Hide,
    Close,
    SetDecorations(bool),
    SetAlwaysOnTop(bool),
    SetSize(PhysicalSize),
    SetMinSize(Option<PhysicalSize>),
    SetMaxSize(Option<PhysicalSize>),
    SetPosition(PhysicalPosition),
    SetFullscreen(bool),
    SetIcon { icon: IconDto },
    StartDragging,
}

/// The event every other window receives when a script creates a window.
pub open spec fn window_created_event() -> Seq<char> {
    "tauri://window-created"@
}

/// Whether a command changes the window and answers with nothing.
pub open spec fn is_setter(cmd: Cmd) -> bool {
    !(cmd is CreateWebview || cmd is InnerPosition || cmd is OuterPosition || cmd is InnerSize
        || cmd is OuterSize || cmd is IsFullscreen || cmd is IsMaximized || cmd is CurrentMonitor
        || cmd is PrimaryMonitor || cmd is AvailableMonitors)
}

/// Whether `v` is an answer of the shape that `cmd` gives.
pub open spec fn answers(cmd: Cmd, v: InvokeResponse) -> bool {
    match cmd {
        Cmd::InnerPosition | Cmd::OuterPosition => v is Position,
        Cmd::InnerSize | Cmd::OuterSize => v is Size,
        Cmd::IsFullscreen | Cmd::IsMaximized => v is Bool,
        Cmd::CurrentMonitor | Cmd::PrimaryMonitor => v is Monitor,
        Cmd::AvailableMonitors => v is Monitors,
        _ => v is Null,
    }
}

/// The message a setter hands to the window's dispatcher.
pub open spec fn setter_message(cmd: Cmd) -> Message {
    match cmd {
        Cmd::SetResizable(b) => Message::SetResizable(b),
        Cmd::SetTitle(t) => Message::SetTitle(t),
        Cmd::Maximize => Message::Maximize,
        Cmd::Unmaximize => Message::Unmaximize,
        Cmd::Minimize => Message::Minimize,
        Cmd::Unminimize => Message::Unminimize,
        Cmd::Show => Message::Show,
        Cmd::Hide => Message::Hide,
        Cmd::Close => Message::Close,
        Cmd::SetDecorations(b) => Message::SetDecorations(b),
        Cmd::SetAlwaysOnTop(b) => Message::SetAlwaysOnTop(b),
        Cmd::SetSize(s) => Message::SetSize(s),
        Cmd::SetMinSize(s) => Message::SetMinSize(s),
        Cmd::SetMaxSize(s) => Message::SetMaxSize(s),
        Cmd::SetPosition(p) => Message::SetPosition(p),
        Cmd::SetFullscreen(b) => Message::SetFullscreen(b),
        Cmd::SetIcon { icon } => Message::SetIcon(
            match icon {
                IconDto::File(path) => Icon::File(path),
                IconDto::Raw(raw) => Icon::Raw(raw),
            },
        ),
        _ => Message::StartDragging,
    }
}

/// What a window command gives, and how it changes the window table. Every command
/// needs `window_all`, and creating a window `window_create` as well.
pub open spec fn window_result(
    cmd: Cmd,
    allowlist: Allowlist,
    old_labels: Seq<Seq<char>>,
    new_labels: Seq<Seq<char>>,
    r: Result<InvokeResponse, Error>,
) -> bool {
    &&& !allowlist.window_all ==> (r matches Err(Error::ApiNotAllowlisted(a)) && a@
        == "window > all"@)
    &&& allowlist.window_all && cmd is CreateWebview && !allowlist.window_create ==> (r matches Err(
        Error::ApiNotAllowlisted(a),
    ) && a@ == "window > create"@)
    &&& !(allowlist.window_all && allowlist.window_create && cmd is CreateWebview) ==> new_labels
        == old_labels
    &&& r matches Ok(v) ==> answers(cmd, v)
    &&& cmd matches Cmd::CreateWebview { options } ==> {
        &&& old_labels.contains(options.label@) && allowlist.window_all && allowlist.window_create
            ==> r == Err::<InvokeResponse, Error>(Error::DuplicateLabel(options.label)) && new_labels
            == old_labels
        &&& r is Ok ==> new_labels == old_labels.push(options.label@)
    }
}

/// The payload of the window-created event: the new window's label.
pub fn window_created_payload(label: &str) -> (r: String)
    ensures
        r@ == "{\"label\":"@ + json_string(label@) + "}"@,
{
    let mut payload = String::from_str("{\"label\":");
    payload.append(json_string_of(label).as_str());
    payload.append("}");
    payload
}

/// The answer of a setter, from the dispatcher's result: nothing on success, the
/// dispatcher's error otherwise.
pub fn setter_answer(res: Result<(), Error>) -> (r: Result<InvokeResponse, Error>)
    ensures
        res is Ok ==> r == Ok::<InvokeResponse, Error>(InvokeResponse::Null),
        res matches Err(e) ==> r == Err::<InvokeResponse, Error>(e),
{
    match res {
        Ok(()) => Ok(InvokeResponse::Null),
        Err(e) => Err(e),
    }
}

/// The answer of a position query: the dispatcher's position, or its error.
pub fn position_answer(res: Result<PhysicalPosition, Error>) -> (r: Result<InvokeResponse, Error>)
    ensures
        res matches Ok(p) ==> r == Ok::<InvokeResponse, Error>(InvokeResponse::Position(p)),
        res matches Err(e) ==> r == Err::<InvokeResponse, Error>(e),
{
    match res {
        Ok(p) => Ok(InvokeResponse::Position(p)),
        Err(e) => Err(e),
    }
}

/// The answer of a size query: the dispatcher's size, or its error.
pub fn size_answer(res: Result<PhysicalSize, Error>) -> (r: Result<InvokeResponse, Error>)
    ensures
        res matches Ok(s) ==> r == Ok::<InvokeResponse, Error>(InvokeResponse::Size(s)),
        res matches Err(e) ==> r == Err::<InvokeResponse, Error>(e),
{
    match res {
        Ok(s) => Ok(InvokeResponse::Size(s)),
        Err(e) => Err(e),
    }
}

/// The answer of a state query: the dispatcher's flag, or its error.
pub fn flag_answer(res: Result<bool, Error>) -> (r: Result<InvokeResponse, Error>)
    ensures
        res matches Ok(b) ==> r == Ok::<InvokeResponse, Error>(InvokeResponse::Bool(b)),
        res matches Err(e) ==> r == Err::<InvokeResponse, Error>(e),
{
    match res {
        Ok(b) => Ok(InvokeResponse::Bool(b)),
        Err(e) => Err(e),
    }
}

/// The answer of a monitor query: the dispatcher's monitor, or its error.
pub fn monitor_answer(res: Result<Option<Monitor>, Error>) -> (r: Result<InvokeResponse, Error>)
    ensures
        res matches Ok(m) ==> r == Ok::<InvokeResponse, Error>(InvokeResponse::Monitor(m)),
        res matches Err(e) ==> r == Err::<InvokeResponse, Error>(e),
{
    match res {
        Ok(m) => Ok(InvokeResponse::Monitor(m)),
        Err(e) => Err(e),
    }
}

/// The answer of the monitor list query: the dispatcher's list, or its error.
pub fn monitors_answer(res: Result<Vec<Monitor>, Error>) -> (r: Result<InvokeResponse, Error>)
    ensures
        res matches Ok(ms) ==> r == Ok::<InvokeResponse, Error>(InvokeResponse::Monitors(ms)),
        res matches Err(e) ==> r == Err::<InvokeResponse, Error>(e),
{
    match res {
        Ok(ms) => Ok(InvokeResponse::Monitors(ms)),
        Err(e) => Err(e),
    }
}

fn clone_url(url: &WindowUrl) -> (r: WindowUrl)
    ensures
        r == *url,
{
    match url {
        WindowUrl::External(u) => WindowUrl::External(u.clone()),
        WindowUrl::App(p) => WindowUrl::App(p.clone()),
    }
}

fn not_allowlisted(api: &str) -> (r: Error)
    ensures
        r matches Error::ApiNotAllowlisted(a) && a@ == api@,
{
    Error::ApiNotAllowlisted(String::from_str(api))
}

impl Cmd {
    /// The dispatcher message of a setter.
    pub fn into_message(self) -> (r: Message)
        requires
            is_setter(self),
        ensures
            r == setter_message(self),
    {
        match self {
            Cmd::SetResizable(b) => Message::SetResizable(b),
            Cmd::SetTitle(t) => Message::SetTitle(t),
            Cmd::Maximize => Message::Maximize,
            Cmd::Unmaximize => Message::Unmaximize,
            Cmd::Minimize => Message::Minimize,
            Cmd::Unminimize => Message::Unminimize,
            Cmd::Show => Message::Show,
            Cmd::Hide => Message::Hide,
            Cmd::Close => Message::Close,
            Cmd::SetDecorations(b) => Message::SetDecorations(b),
            Cmd::SetAlwaysOnTop(b) => Message::SetAlwaysOnTop(b),
            Cmd::SetSize(s) => Message::SetSize(s),
            Cmd::SetMinSize(s) => Message::SetMinSize(s),
            Cmd::SetMaxSize(s) => Message::SetMaxSize(s),
            Cmd::SetPosition(p) => Message::SetPosition(p),
            Cmd::SetFullscreen(b) => Message::SetFullscreen(b),
            Cmd::SetIcon { icon } => Message::SetIcon(Icon::from(icon)),
            _ => Message::StartDragging,
        }
    }

    /// Runs the command on `window`. Every command needs `window_all` on the allowlist,
    /// and creating a window needs `window_create` too; a command that is not allowed
    /// fails without reaching the dispatcher.
    pub fn run<D: Dispatch>(
        self,
        window: &Window<D>,
        manager: &mut WindowManager<D>,
        allowlist: &Allowlist,
    ) -> (r: Result<InvokeResponse, Error>)
        requires
            old(manager).wf(),
            old(manager).salt_count() + old(manager).labels().len() + 1 < u64::MAX,
        ensures
            final(manager).wf(),
            window_result(self, *allowlist, old(manager).labels(), final(manager).labels(), r),
    {
        if !allowlist.window_all {
            return Err(not_allowlisted("window > all"));
        }
        match self {
            Cmd::CreateWebview { options } => {
                if !allowlist.window_create {
                    return Err(not_allowlisted("window > create"));
                }
                let label = options.label.clone();
                let pending = PendingWindow::with_config(
                    &options,
                    WebviewAttributes::new(clone_url(&options.url)),
                    label.clone(),
                );
                let existing = manager.labels_vec();
                let pending = manager.prepare_window(pending, &existing)?;
                let mut dispatcher = window.dispatcher();
                let built = dispatcher.create_window(pending)?;
                let created = manager.attach_window(
                    DetachedWindow { label: label.clone(), dispatcher: built.dispatcher },
                )?;
                let payload = window_created_payload(label.as_str());
                created.emit_others(manager, "tauri://window-created", Some(payload.as_str()))?;
                Ok(InvokeResponse::Null)
            },
            // Getters
            Cmd::InnerPosition => position_answer(window.inner_position()),
            Cmd::OuterPosition => position_answer(window.outer_position()),
            Cmd::InnerSize => size_answer(window.inner_size()),
            Cmd::OuterSize => size_answer(window.outer_size()),
            Cmd::IsFullscreen => flag_answer(window.is_fullscreen()),
            Cmd::IsMaximized => flag_answer(window.is_maximized()),
            Cmd::CurrentMonitor => monitor_answer(window.current_monitor()),
            Cmd::PrimaryMonitor => monitor_answer(window.primary_monitor()),
            Cmd::AvailableMonitors => monitors_answer(window.available_monitors()),
            setter => setter_answer(window.send(setter.into_message())),
        }
    }
}

} // verus!
