//! Window descriptions, the backend abstraction, and window handles whose identity is their label.

use crate::error::Error;
use vstd::prelude::*;
use vstd::std_specs::cmp::PartialEqSpec;

verus! {

/// An icon, either a path to an image file or the raw bytes of one.
pub enum Icon {
    /// Icon from a file path.
    File(String),
    /// Icon from raw bytes.
    Raw(Vec<u8>),
}

/// An icon as it arrives in a window command.
pub enum IconDto {
    /// Icon from a file path.
    File(String),
    /// Icon from raw bytes.
    Raw(Vec<u8>),
}

impl From<IconDto> for Icon {
    fn from(icon: IconDto) -> (r: Icon) {
        match icon {
            IconDto::File(path) => Icon::File(path),
            IconDto::Raw(raw) => Icon::Raw(raw),
        }
    }
}

impl vstd::std_specs::convert::FromSpecImpl<IconDto> for Icon {
    open spec fn obeys_from_spec() -> bool {
        true
    }

    open spec fn from_spec(icon: IconDto) -> Icon {
        match icon {
            IconDto::File(path) => Icon::File(path),
            IconDto::Raw(raw) => Icon::Raw(raw),
        }
    }
}

/// A size in physical pixels.
#[derive(Debug, Clone, Copy, PartialEq, Eq, Structural)]
pub struct PhysicalSize {
    pub width: u32,
    pub height: u32,
}

/// A position in physical pixels.
#[derive(Debug, Clone, Copy, PartialEq, Eq, Structural)]
pub struct PhysicalPosition {
    pub x: i32,
    pub y: i32,
}

/// A monitor attached to the system.
#[derive(Debug, PartialEq, Eq)]
pub struct Monitor {
    /// The monitor's name, where the system gives one.
    pub name: Option<String>,
    /// The monitor's resolution.
    pub size: PhysicalSize,
    /// The top-left corner of the monitor on the desktop.
    pub position: PhysicalPosition,
}

/// An event from a window.
#[derive(Debug, Clone, PartialEq, Eq)]
pub enum WindowEvent {
    /// The client area's new size.
    Resized(PhysicalSize),
    /// The window's new position.
    Moved(PhysicalPosition),
    /// The window has been requested to close.
    CloseRequested,
    /// The window has been destroyed.
    Destroyed,
    /// The window gained (`true`) or lost (`false`) focus.
    Focused(bool),
    /// The scale factor changed; the client area's new size.
    ScaleFactorChanged { new_inner_size: PhysicalSize },
}

/// Where a window's content comes from.
#[derive(Debug, PartialEq, Eq)]
pub enum WindowUrl {
    /// An external URL, such as a development server; loaded as it is.
    External(String),
    /// A path of the application's own assets.
    App(String),
}

/// Whether a URL text is external: it starts with `http://` or `https://`.
pub open spec fn is_external_url(s: Seq<char>) -> bool {
    (s.len() >= 7 && s.subrange(0, 7) == "http://"@) || (s.len() >= 8 && s.subrange(0, 8)
        == "https://"@)
}

impl WindowUrl {
    /// An external URL for `http` and `https` addresses, an asset path otherwise.
    pub fn parse(s: String) -> (r: WindowUrl)
        ensures
            is_external_url(s@) ==> r == WindowUrl::External(s),
            !is_external_url(s@) ==> r == WindowUrl::App(s),
    {
        proof {
            reveal_strlit("http://");
            reveal_strlit("https://");
        }
        if crate::text::starts_with(s.as_str(), "http://") || crate::text::starts_with(
            s.as_str(),
            "https://",
        ) {
            WindowUrl::External(s)
        } else {
            WindowUrl::App(s)
        }
    }
}

/// The declarative description of a window.
pub struct WindowConfig {
    /// The window's unique label.
    pub label: String,
    /// What the window loads.
    pub url: WindowUrl,
    /// The title bar text.
    pub title: String,
    /// Initial size.
    pub width: u32,
    pub height: u32,
    /// Optional bounds on the size.
    pub min_size: Option<PhysicalSize>,
    pub max_size: Option<PhysicalSize>,
    /// Optional initial position.
    pub position: Option<PhysicalPosition>,
    pub resizable: bool,
    pub fullscreen: bool,
    pub maximized: bool,
    pub visible: bool,
    pub transparent: bool,
    pub decorations: bool,
    pub always_on_top: bool,
}

/// The window part of what a backend builds a window from.
pub struct WindowAttributes {
    pub title: String,
    pub size: PhysicalSize,
    pub min_size: Option<PhysicalSize>,
    pub max_size: Option<PhysicalSize>,
    pub position: Option<PhysicalPosition>,
    pub resizable: bool,
    pub fullscreen: bool,
    pub maximized: bool,
    pub visible: bool,
    pub transparent: bool,
    pub decorations: bool,
    pub always_on_top: bool,
    pub icon: Option<Icon>,
}

/// The title and size a window gets when nothing else is said.
pub const DEFAULT_WIDTH: u32 = 800;
pub const DEFAULT_HEIGHT: u32 = 600;

/// The attributes that carry every window setting of `c`, with no icon.
pub open spec fn config_attributes(c: &WindowConfig) -> WindowAttributes {
    WindowAttributes {
        title: c.title,
        size: PhysicalSize { width: c.width, height: c.height },
        min_size: c.min_size,
        max_size: c.max_size,
        position: c.position,
        resizable: c.resizable,
        fullscreen: c.fullscreen,
        maximized: c.maximized,
        visible: c.visible,
        transparent: c.transparent,
        decorations: c.decorations,
        always_on_top: c.always_on_top,
        icon: None,
    }
}

/// Whether `a` are the attributes of a plain window: empty title, default size, no bounds,
/// position or icon, visible, decorated, resizable, and no other flag.
pub open spec fn is_default_attributes(a: WindowAttributes) -> bool {
    &&& a.title@ == Seq::<char>::empty()
    &&& a.size == (PhysicalSize { width: DEFAULT_WIDTH, height: DEFAULT_HEIGHT })
    &&& a.min_size is None
    &&& a.max_size is None
    &&& a.position is None
    &&& a.resizable && a.visible && a.decorations
    &&& !a.fullscreen && !a.maximized && !a.transparent && !a.always_on_top
    &&& a.icon is None
}

/// Whether `w` are the attributes of a webview that loads `url` and nothing more.
pub open spec fn is_plain_webview(w: WebviewAttributes, url: WindowUrl) -> bool {
    &&& w.url == url
    &&& w.initialization_scripts@.len() == 0
    &&& w.uri_scheme_protocols@.len() == 0
}

impl WindowAttributes {
    /// Attributes of a plain, visible, decorated, resizable window.
    pub fn new() -> (r: WindowAttributes)
        ensures
            is_default_attributes(r),
            r.title@ == Seq::<char>::empty(),
            r.size == (PhysicalSize { width: DEFAULT_WIDTH, height: DEFAULT_HEIGHT }),
            r.min_size is None,
            r.max_size is None,
            r.position is None,
            r.resizable && r.visible && r.decorations,
            !r.fullscreen && !r.maximized && !r.transparent && !r.always_on_top,
            r.icon is None,
    {
        WindowAttributes {
            title: String::new(),
            size: PhysicalSize { width: DEFAULT_WIDTH, height: DEFAULT_HEIGHT },
            min_size: None,
            max_size: None,
            position: None,
            resizable: true,
            fullscreen: false,
            maximized: false,
            visible: true,
            transparent: false,
            decorations: true,
            always_on_top: false,
            icon: None,
        }
    }

    /// Attributes that carry every window setting of `config`.
    pub fn with_config(config: &WindowConfig) -> (r: WindowAttributes)
        ensures
            r == config_attributes(config),
    {
        WindowAttributes {
            title: config.title.clone(),
            size: PhysicalSize { width: config.width, height: config.height },
            min_size: config.min_size,
            max_size: config.max_size,
            position: config.position,
            resizable: config.resizable,
            fullscreen: config.fullscreen,
            maximized: config.maximized,
            visible: config.visible,
            transparent: config.transparent,
            decorations: config.decorations,
            always_on_top: config.always_on_top,
            icon: None,
        }
    }
}

/// The webview part of what a backend builds a window from.
pub struct WebviewAttributes {
    /// What the webview loads.
    pub url: WindowUrl,
    /// Scripts run before the page's own scripts, in order.
    pub initialization_scripts: Vec<String>,
    /// URI schemes whose requests this webview hands to a custom protocol.
    pub uri_scheme_protocols: Vec<String>,
}

impl WebviewAttributes {
    /// Attributes of a webview that loads `url` and nothing more.
    pub fn new(url: WindowUrl) -> (r: WebviewAttributes)
        ensures
            is_plain_webview(r, url),
            r.url == url,
            r.initialization_scripts@.len() == 0,
            r.uri_scheme_protocols@.len() == 0,
    {
        WebviewAttributes { url, initialization_scripts: Vec::new(), uri_scheme_protocols: Vec::new() }
    }
}

/// Sets the URL a webview builder loads.
pub trait WebviewBuilderExtPrivate: Sized {
    /// Sets the webview url.
    fn url(self, url: String) -> Self;
}

/// A custom URI scheme and the handler that answers its requests.
pub struct CustomProtocol<H> {
    /// Name of the protocol.
    pub name: String,
    /// Handler for the protocol.
    pub handler: H,
}

/// A file-drop event on a window.
#[derive(Debug, Clone)]
pub enum FileDropEvent {
    /// The files have been dragged onto the window, but have not been dropped yet.
    Hovered(Vec<String>),
    /// The files have been dropped onto the window.
    Dropped(Vec<String>),
    /// The file drop was aborted.
    Cancelled,
}

/// The URL every window starts from before its own is resolved.
pub open spec fn start_url() -> Seq<char> {
    "tauri://localhost"@
}

/// A window that has yet to be built.
pub struct PendingWindow {
    /// The label that the window will be named.
    pub label: String,
    /// The window attributes the window will be created with.
    pub window_attributes: WindowAttributes,
    /// The webview attributes the webview will be created with.
    pub webview_attributes: WebviewAttributes,
    /// The resolved URL to load on the webview.
    pub url: String,
}

impl PendingWindow {
    /// A pending window with a label and the given attributes.
    pub fn new(
        window_attributes: WindowAttributes,
        webview_attributes: WebviewAttributes,
        label: String,
    ) -> (r: PendingWindow)
        ensures
            r.label == label,
            r.window_attributes == window_attributes,
            r.webview_attributes == webview_attributes,
            r.url@ == start_url(),
    {
        PendingWindow {
            window_attributes,
            webview_attributes,
            label,
            url: String::from_str("tauri://localhost"),
        }
    }

    /// A pending window built from a window description.
    pub fn with_config(
        window_config: &WindowConfig,
        webview_attributes: WebviewAttributes,
        label: String,
    ) -> (r: PendingWindow)
        ensures
            r.label == label,
            r.window_attributes == config_attributes(window_config),
            r.webview_attributes == webview_attributes,
            r.url@ == start_url(),
    {
        PendingWindow {
            window_attributes: WindowAttributes::with_config(window_config),
            webview_attributes,
            label,
            url: String::from_str("tauri://localhost"),
        }
    }
}

/// Messages a backend's dispatcher carries to the window it is bound to.
pub enum Message {
    /// Evaluate a script on the webview.
    EvalScript(String),
    SetResizable(bool),
    SetTitle(String),
    Maximize,
    Unmaximize,
    Minimize,
    Unminimize,
    Show,
    Hide,
    Close,
    SetDecorations(bool),
    SetAlwaysOnTop(bool),
    SetSize(PhysicalSize),
    SetMinSize(Option<PhysicalSize>),
    SetMaxSize(Option<PhysicalSize>),
    SetPosition(PhysicalPosition),
    SetFullscreen(bool),
    SetIcon(Icon),
    StartDragging,
}

/// A thread-safe handle to one live window of a native backend.
///
/// Every method reports whether the native call succeeded; the implementation marshals
/// the call to the thread that owns the window where the toolkit needs it.
pub trait Dispatch: Clone + Sized {
    /// Creates another window through the same backend.
    fn create_window(&mut self, pending: PendingWindow) -> Result<DetachedWindow<Self>, Error>;

    fn inner_position(&self) -> Result<PhysicalPosition, Error>;

    fn outer_position(&self) -> Result<PhysicalPosition, Error>;

    fn inner_size(&self) -> Result<PhysicalSize, Error>;

    fn outer_size(&self) -> Result<PhysicalSize, Error>;

    fn is_fullscreen(&self) -> Result<bool, Error>;

    fn is_maximized(&self) -> Result<bool, Error>;

    fn current_monitor(&self) -> Result<Option<Monitor>, Error>;

    fn primary_monitor(&self) -> Result<Option<Monitor>, Error>;

    fn available_monitors(&self) -> Result<Vec<Monitor>, Error>;

    fn set_resizable(&self, resizable: bool) -> Result<(), Error>;

    fn set_title(&self, title: String) -> Result<(), Error>;

    fn maximize(&self) -> Result<(), Error>;

    fn unmaximize(&self) -> Result<(), Error>;

    fn minimize(&self) -> Result<(), Error>;

    fn unminimize(&self) -> Result<(), Error>;

    fn show(&self) -> Result<(), Error>;

    fn hide_window(&self) -> Result<(), Error>;

    fn close(&self) -> Result<(), Error>;

    fn set_decorations(&self, decorations: bool) -> Result<(), Error>;

    fn set_always_on_top(&self, always_on_top: bool) -> Result<(), Error>;

    fn set_size(&self, size: PhysicalSize) -> Result<(), Error>;

    fn set_min_size(&self, size: Option<PhysicalSize>) -> Result<(), Error>;

    fn set_max_size(&self, size: Option<PhysicalSize>) -> Result<(), Error>;

    fn set_position(&self, position: PhysicalPosition) -> Result<(), Error>;

    fn set_fullscreen(&self, fullscreen: bool) -> Result<(), Error>;

    /// Sets the window icon; fails with `InvalidIcon` where the backend cannot decode it.
    fn set_icon(&self, icon: Icon) -> Result<(), Error>;

    fn start_dragging(&self) -> Result<(), Error>;

    /// Evaluates a script in the window's webview.
    fn eval_script(&self, script: String) -> Result<(), Error>;
}

/// A native webview backend.
pub trait Runtime: Sized {
    /// The handle type of this backend's windows.
    type Dispatcher: Dispatch;

    /// Starts the backend.
    fn new() -> Result<Self, Error>;

    /// Builds the window that `pending` describes.
    fn create_window(&mut self, pending: PendingWindow) -> Result<DetachedWindow<Self::Dispatcher>, Error>;

    /// Runs the backend's event loop; the process exits from inside it.
    fn run(self);
}

/// Relies on std's `Hash for String`, so that a window's label can stand for the window in
/// hashed collections; nothing is assumed of what it feeds the hasher.
pub assume_specification<H: core::hash::Hasher>[ <String as core::hash::Hash>::hash::<H> ](
    s: &String,
    state: &mut H,
);

/// A window that the backend has built and the manager does not track yet.
pub struct DetachedWindow<D> {
    /// Name of the window.
    pub label: String,
    /// The handle of the window.
    pub dispatcher: D,
}

impl<D: Clone> Clone for DetachedWindow<D> {
    fn clone(&self) -> (r: Self)
        ensures
            r.label == self.label,
    {
        DetachedWindow { label: self.label.clone(), dispatcher: self.dispatcher.clone() }
    }
}

impl<D> core::hash::Hash for DetachedWindow<D> {
    /// Only the label takes part in the hash.
    fn hash<H: core::hash::Hasher>(&self, state: &mut H) {
        self.label.hash(state)
    }
}

impl<D> PartialEq for DetachedWindow<D> {
    /// Only the labels are compared.
    fn eq(&self, other: &Self) -> (r: bool) {
        self.label == other.label
    }
}

impl<D> vstd::std_specs::cmp::PartialEqSpecImpl for DetachedWindow<D> {
    open spec fn obeys_eq_spec() -> bool {
        true
    }

    open spec fn eq_spec(&self, other: &Self) -> bool {
        self.label@ == other.label@
    }
}

impl<D> Eq for DetachedWindow<D> {}

/// A window tracked by a window manager.
pub struct Window<D> {
    /// The window as the backend built it.
    pub window: DetachedWindow<D>,
}

impl<D: Clone> Clone for Window<D> {
    fn clone(&self) -> (r: Self)
        ensures
            r.window.label == self.window.label,
    {
        Window { window: self.window.clone() }
    }
}

impl<D> core::hash::Hash for Window<D> {
    /// Only the label takes part in the hash.
    fn hash<H: core::hash::Hasher>(&self, state: &mut H) {
        self.window.label.hash(state)
    }
}

impl<D> PartialEq for Window<D> {
    /// Only the labels are compared.
    fn eq(&self, other: &Self) -> (r: bool) {
        self.window.label == other.window.label
    }
}

impl<D> vstd::std_specs::cmp::PartialEqSpecImpl for Window<D> {
    open spec fn obeys_eq_spec() -> bool {
        true
    }

    open spec fn eq_spec(&self, other: &Self) -> bool {
        self.window.label@ == other.window.label@
    }
}

impl<D> Eq for Window<D> {}

/// Two window handles are the same window exactly when their labels agree, whatever
/// their dispatchers are.
pub proof fn lemma_window_identity_is_label<D>(a: Window<D>, b: Window<D>)
    ensures
        a.eq_spec(&b) <==> a.label_spec() == b.label_spec(),
        a.window.eq_spec(&b.window) <==> a.eq_spec(&b),
{
}

impl<D> Window<D> {
    /// The label of this window.
    pub open spec fn label_spec(&self) -> Seq<char> {
        self.window.label@
    }
}

impl<D: Dispatch> Window<D> {
    /// A window handle for a window that the manager tracks.
    pub fn new(window: DetachedWindow<D>) -> (r: Self)
        ensures
            r.window == window,
    {
        Window { window }
    }

    /// The label of this window.
    pub fn label(&self) -> (r: &String)
        ensures
            r@ == self.label_spec(),
    {
        &self.window.label
    }

    /// A handle on this window's dispatcher.
    pub fn dispatcher(&self) -> D {
        self.window.dispatcher.clone()
    }

    /// Evaluates a script on this window.
    pub fn eval(&self, js: &str) -> Result<(), Error> {
        self.window.dispatcher.eval_script(String::from_str(js))
    }

    pub fn inner_position(&self) -> Result<PhysicalPosition, Error> {
        self.window.dispatcher.inner_position()
    }

    pub fn outer_position(&self) -> Result<PhysicalPosition, Error> {
        self.window.dispatcher.outer_position()
    }

    pub fn inner_size(&self) -> Result<PhysicalSize, Error> {
        self.window.dispatcher.inner_size()
    }

    pub fn outer_size(&self) -> Result<PhysicalSize, Error> {
        self.window.dispatcher.outer_size()
    }

    pub fn is_fullscreen(&self) -> Result<bool, Error> {
        self.window.dispatcher.is_fullscreen()
    }

    pub fn is_maximized(&self) -> Result<bool, Error> {
        self.window.dispatcher.is_maximized()
    }

    pub fn current_monitor(&self) -> Result<Option<Monitor>, Error> {
        self.window.dispatcher.current_monitor()
    }

    pub fn primary_monitor(&self) -> Result<Option<Monitor>, Error> {
        self.window.dispatcher.primary_monitor()
    }

    pub fn available_monitors(&self) -> Result<Vec<Monitor>, Error> {
        self.window.dispatcher.available_monitors()
    }

    pub fn set_resizable(&self, resizable: bool) -> Result<(), Error> {
        self.window.dispatcher.set_resizable(resizable)
    }

    pub fn set_title(&self, title: &str) -> Result<(), Error> {
        self.window.dispatcher.set_title(String::from_str(title))
    }

    pub fn maximize(&self) -> Result<(), Error> {
        self.window.dispatcher.maximize()
    }

    pub fn unmaximize(&self) -> Result<(), Error> {
        self.window.dispatcher.unmaximize()
    }

    pub fn minimize(&self) -> Result<(), Error> {
        self.window.dispatcher.minimize()
    }

    pub fn unminimize(&self) -> Result<(), Error> {
        self.window.dispatcher.unminimize()
    }

    pub fn show(&self) -> Result<(), Error> {
        self.window.dispatcher.show()
    }

    pub fn hide_window(&self) -> Result<(), Error> {
        self.window.dispatcher.hide_window()
    }

    pub fn close(&self) -> Result<(), Error> {
        self.window.dispatcher.close()
    }

    pub fn set_decorations(&self, decorations: bool) -> Result<(), Error> {
        self.window.dispatcher.set_decorations(decorations)
    }

    pub fn set_always_on_top(&self, always_on_top: bool) -> Result<(), Error> {
        self.window.dispatcher.set_always_on_top(always_on_top)
    }

    pub fn set_size(&self, size: PhysicalSize) -> Result<(), Error> {
        self.window.dispatcher.set_size(size)
    }

    pub fn set_min_size(&self, size: Option<PhysicalSize>) -> Result<(), Error> {
        self.window.dispatcher.set_min_size(size)
    }

    pub fn set_max_size(&self, size: Option<PhysicalSize>) -> Result<(), Error> {
        self.window.dispatcher.set_max_size(size)
    }

    pub fn set_position(&self, position: PhysicalPosition) -> Result<(), Error> {
        self.window.dispatcher.set_position(position)
    }

    pub fn set_fullscreen(&self, fullscreen: bool) -> Result<(), Error> {
        self.window.dispatcher.set_fullscreen(fullscreen)
    }

    pub fn set_icon(&self, icon: Icon) -> Result<(), Error> {
        self.window.dispatcher.set_icon(icon)
    }

    pub fn start_dragging(&self) -> Result<(), Error> {
        self.window.dispatcher.start_dragging()
    }

    /// Hands one message to this window's dispatcher.
    pub fn send(&self, message: Message) -> Result<(), Error> {
        let d = &self.window.dispatcher;
        match message {
            Message::EvalScript(script) => d.eval_script(script),
            Message::SetResizable(b) => d.set_resizable(b),
            Message::SetTitle(title) => d.set_title(title),
            Message::Maximize => d.maximize(),
            Message::Unmaximize => d.unmaximize(),
            Message::Minimize => d.minimize(),
            Message::Unminimize => d.unminimize(),
            Message::Show => d.show(),
            Message::Hide => d.hide_window(),
            Message::Close => d.close(),
            Message::SetDecorations(b) => d.set_decorations(b),
            Message::SetAlwaysOnTop(b) => d.set_always_on_top(b),
            Message::SetSize(size) => d.set_size(size),
            Message::SetMinSize(size) => d.set_min_size(size),
            Message::SetMaxSize(size) => d.set_max_size(size),
            Message::SetPosition(position) => d.set_position(position),
            Message::SetFullscreen(b) => d.set_fullscreen(b),
            Message::SetIcon(icon) => d.set_icon(icon),
            Message::StartDragging => d.start_dragging(),
        }
    }
}

} // verus!
