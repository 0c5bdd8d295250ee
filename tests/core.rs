use tauri::bundle::record_bundle;
use tauri::endpoints::window::{
    flag_answer, monitor_answer, monitors_answer, position_answer, setter_answer, size_answer,
    window_created_payload,
};
use tauri::window::{PhysicalPosition, PhysicalSize};
use tauri::app::{App, UpdaterMode};
use tauri::bundle::{bundle_project, check_icons, Bundle, Bundler, PackageType, Settings};
use tauri::config::UpdaterConfig;
use tauri::context::{asset_source, default_window_icon, embedded_csp, join_path, package_field, AssetSource};
use tauri::endpoints::notification::{
    apply_answer, is_permission_granted, request_permission, send, Action, AskResponse, Cmd,
    NotificationOptions, PermissionRequest, Settings as NotificationSettings,
};
use tauri::endpoints::{parse_module_tag, InvokeResponse, ModuleTag};
use tauri::error::Error;
use tauri::event::{EventHandler, Listeners};
use tauri::ipc::plugin_target;
use tauri::salt::{push_decimal, SaltPool};
use tauri::state::StateManager;
use tauri::text::{find_char, find_str, starts_with, str_eq};
use tauri::json::json_string_of;
use tauri::manager::inject_csp;
use tauri::window::{Icon, IconDto, PendingWindow, WebviewAttributes, WindowAttributes, WindowConfig, WindowUrl};
use tauri::config::Allowlist;

fn allowlist(notification_all: bool) -> Allowlist {
    Allowlist {
        app_all: false,
        process_all: false,
        fs_all: false,
        window_all: false,
        window_create: false,
        shell_all: false,
        event_all: false,
        dialog_all: false,
        cli_all: false,
        notification_all,
        http_all: false,
        global_shortcut_all: false,
    }
}

#[test]
fn second_counter_registration_fails_and_keeps_the_first() {
    let mut state: StateManager<i32> = StateManager::new();
    assert!(state.set("Counter".to_string(), 0));
    assert!(!state.set("Counter".to_string(), 1));
    assert_eq!(state.get(&"Counter".to_string()), Some(&0));
    assert_eq!(state.get(&"Other".to_string()), None);
    assert!(state.set("Other".to_string(), 7));
    assert_eq!(state.get(&"Other".to_string()), Some(&7));
}

#[test]
fn salt_verifies_exactly_once() {
    let mut pool = SaltPool::new();
    let a = pool.generate_salt();
    let b = pool.generate_salt();
    assert_ne!(a, b);
    assert!(a.starts_with("0-") && a[2..].chars().all(|c| c.is_ascii_digit()));
    assert!(b.starts_with("1-") && b[2..].chars().all(|c| c.is_ascii_digit()));
    assert_eq!(pool.issued_count(), 2);
    assert!(pool.verify_salt(&a));
    assert!(!pool.verify_salt(&a));
    assert!(pool.verify_salt(&b));
    assert!(!pool.verify_salt(&b));
    assert!(!pool.verify_salt(&String::new()));
}

#[test]
fn decimal_notation() {
    let mut s = String::from("x");
    push_decimal(&mut s, 0);
    assert_eq!(s, "x0");
    let mut s = String::new();
    push_decimal(&mut s, 1203);
    assert_eq!(s, "1203");
    let mut s = String::new();
    push_decimal(&mut s, u64::MAX);
    assert_eq!(s, "18446744073709551615");
}

#[test]
fn once_fires_once_and_listen_every_time() {
    let mut bus = Listeners::new();
    let once = bus.once("tick".to_string(), None);
    let always = bus.listen("tick".to_string(), None);
    assert_eq!(once, EventHandler { id: 0 });
    assert_eq!(always, EventHandler { id: 1 });
    assert_eq!(bus.trigger("tick", None), vec![once, always]);
    assert_eq!(bus.trigger("tick", None), vec![always]);
    assert_eq!(bus.trigger("tick", Some("main")), vec![always]);
    assert!(bus.unlisten(always));
    assert!(bus.trigger("tick", None).is_empty());
}

#[test]
fn scoped_listeners_match_their_window_only() {
    let mut bus = Listeners::new();
    let main = bus.listen("ping".to_string(), Some("main".to_string()));
    let about = bus.listen("ping".to_string(), Some("about".to_string()));
    let global = bus.listen("ping".to_string(), None);
    let other = bus.listen("pong".to_string(), Some("main".to_string()));
    assert_eq!(bus.trigger("ping", None), vec![main, about, global]);
    assert_eq!(bus.trigger("ping", Some("main")), vec![main, global]);
    assert_eq!(bus.trigger("pong", Some("about")), Vec::<EventHandler>::new());
    assert_eq!(bus.trigger("pong", Some("main")), vec![other]);
}

#[test]
fn notification_commands_follow_the_allowlist() {
    let ident = "com.example.app".to_string();
    let unknown = NotificationSettings { allow_notification: None };
    let options = NotificationOptions { title: "Hi".to_string(), body: Some("there".to_string()), icon: None };
    match (Cmd::Notification { options }).run(&allowlist(true), &ident, &unknown) {
        Ok(Action::Show(n)) => {
            assert_eq!(n.identifier, "com.example.app");
            assert_eq!(n.title, "Hi");
            assert_eq!(n.body, Some("there".to_string()));
            assert_eq!(n.icon, None);
        }
        _ => panic!("expected a notification"),
    }
    let options = NotificationOptions { title: "Hi".to_string(), body: None, icon: None };
    match (Cmd::Notification { options }).run(&allowlist(false), &ident, &unknown) {
        Err(e) => assert_eq!(e.message(), "'notification' not on the allowlist"),
        _ => panic!("expected an allowlist error"),
    }
    match Cmd::IsNotificationPermissionGranted.run(&allowlist(false), &ident, &unknown) {
        Err(e) => assert_eq!(e, Error::ApiNotAllowlisted("notification".to_string())),
        _ => panic!("expected an allowlist error"),
    }
    match Cmd::RequestNotificationPermission.run(&allowlist(false), &ident, &unknown) {
        Err(e) => assert_eq!(e, Error::ApiNotAllowlisted("notification".to_string())),
        _ => panic!("expected an allowlist error"),
    }
    match Cmd::IsNotificationPermissionGranted.run(&allowlist(true), &ident, &unknown) {
        Ok(Action::Respond(v)) => assert_eq!(v, InvokeResponse::Null),
        _ => panic!("expected no answer yet"),
    }
    match Cmd::RequestNotificationPermission.run(&allowlist(true), &ident, &unknown) {
        Ok(Action::Ask) => {}
        _ => panic!("expected a question"),
    }
    let granted = NotificationSettings { allow_notification: Some(true) };
    match Cmd::RequestNotificationPermission.run(&allowlist(true), &ident, &granted) {
        Ok(Action::Respond(v)) => assert_eq!(v, InvokeResponse::Text("granted".to_string())),
        _ => panic!("expected granted"),
    }
}

#[test]
fn permission_answers_are_recorded() {
    let mut settings = NotificationSettings { allow_notification: None };
    assert!(matches!(request_permission(&settings), PermissionRequest::Ask));
    assert_eq!(is_permission_granted(&settings), InvokeResponse::Null);
    assert_eq!(apply_answer(&mut settings, AskResponse::No), "denied");
    assert_eq!(settings.allow_notification, Some(false));
    assert_eq!(is_permission_granted(&settings), InvokeResponse::Bool(false));
    match request_permission(&settings) {
        PermissionRequest::Answer(a) => assert_eq!(a, "denied"),
        PermissionRequest::Ask => panic!("already answered"),
    }
    assert_eq!(apply_answer(&mut settings, AskResponse::Yes), "granted");
    assert_eq!(settings.allow_notification, Some(true));
    let n = send(
        NotificationOptions { title: "T".to_string(), body: None, icon: Some("i.png".to_string()) },
        &"id".to_string(),
    );
    assert_eq!(n.identifier, "id");
    assert_eq!(n.icon, Some("i.png".to_string()));
}

#[test]
fn module_tags_are_case_sensitive() {
    assert_eq!(parse_module_tag("Window"), Some(ModuleTag::Window));
    assert_eq!(parse_module_tag("GlobalShortcut"), Some(ModuleTag::GlobalShortcut));
    assert_eq!(parse_module_tag("Notification"), Some(ModuleTag::Notification));
    assert_eq!(parse_module_tag("window"), None);
    assert_eq!(parse_module_tag(""), None);
}

#[test]
fn plugin_names_and_text_helpers() {
    assert_eq!(plugin_target("plugin:store|get"), "store");
    assert_eq!(plugin_target("plugin:store"), "store");
    assert_eq!(plugin_target("plugin:|x"), "");
    assert!(str_eq("abc", "abc"));
    assert!(!str_eq("abc", "abd"));
    assert!(!str_eq("ab", "abc"));
    assert!(starts_with("plugin:x", "plugin:"));
    assert!(!starts_with("plug", "plugin:"));
    assert_eq!(find_char("a|b|c", '|'), Some(1));
    assert_eq!(find_char("abc", '|'), None);
}

struct RecordingBundler {
    calls: Vec<String>,
    fail_on: Option<PackageType>,
}

impl Bundler for RecordingBundler {
    fn bundle(&mut self, package_type: PackageType, _settings: &Settings, previous: &Vec<Bundle>) -> Result<Vec<String>, Error> {
        if self.fail_on == Some(package_type) {
            return Err(Error::Io("disk full".to_string()));
        }
        self.calls.push(format!("{:?} after {}", package_type, previous.len()));
        Ok(vec![format!("out/{:?}", package_type)])
    }
    fn copy_resources(&mut self, _settings: &Settings) -> Result<(), Error> {
        self.calls.push("resources".to_string());
        Ok(())
    }
    fn copy_binaries(&mut self, _settings: &Settings) -> Result<(), Error> {
        self.calls.push("binaries".to_string());
        Ok(())
    }
    fn finished(&mut self, bundles: &Vec<Bundle>) -> Result<(), Error> {
        self.calls.push(format!("finished {}", bundles.len()));
        Ok(())
    }
}

#[test]
fn bundles_follow_the_package_types() {
    let settings = Settings {
        package_types: vec![PackageType::MacOsBundle, PackageType::Dmg, PackageType::Updater],
        icon_files: vec!["icons/32x32.png".to_string()],
        out_dir: "target/release/bundle".to_string(),
    };
    let mut b = RecordingBundler { calls: Vec::new(), fail_on: None };
    let bundles = bundle_project(&settings, &mut b).ok().unwrap();
    assert_eq!(bundles.len(), 3);
    assert_eq!(bundles[1].package_type, PackageType::Dmg);
    assert_eq!(bundles[1].bundle_paths, vec!["out/Dmg".to_string()]);
    assert_eq!(
        b.calls,
        vec![
            "MacOsBundle after 0".to_string(),
            "Dmg after 1".to_string(),
            "Updater after 2".to_string(),
            "resources".to_string(),
            "binaries".to_string(),
            "finished 3".to_string(),
        ]
    );
    let mut failing = RecordingBundler { calls: Vec::new(), fail_on: Some(PackageType::Dmg) };
    assert_eq!(bundle_project(&settings, &mut failing).err(), Some(Error::Io("disk full".to_string())));
    assert_eq!(failing.calls, vec!["MacOsBundle after 0".to_string()]);
}

#[test]
fn icons_are_checked() {
    let mut settings = Settings { package_types: vec![], icon_files: vec![], out_dir: String::new() };
    assert_eq!(check_icons(&settings), Ok(false));
    settings.icon_files.push("icon.png".to_string());
    assert_eq!(check_icons(&settings), Ok(true));
}

#[test]
fn context_choices() {
    let parent = "/app/src-tauri".to_string();
    match asset_source(true, &"http://localhost:8080".to_string(), &"../dist".to_string(), &parent) {
        AssetSource::DevServer => {}
        _ => panic!("a dev server embeds nothing"),
    }
    match asset_source(true, &"../src".to_string(), &"../dist".to_string(), &parent) {
        AssetSource::Directory(d) => assert_eq!(d, "/app/src-tauri/../src"),
        _ => panic!("expected the dev directory"),
    }
    match asset_source(false, &"http://localhost:8080".to_string(), &"../dist".to_string(), &parent) {
        AssetSource::Directory(d) => assert_eq!(d, "/app/src-tauri/../dist"),
        _ => panic!("expected the dist directory"),
    }
    assert_eq!(join_path("/base/", "x"), "/base/x");
    assert_eq!(join_path("/base", "/abs"), "/abs");
    assert_eq!(join_path("", "rel"), "rel");
    assert_eq!(embedded_csp(&Some("default-src 'self'".to_string())), Some("default-src 'self'".to_string()));
    assert_eq!(embedded_csp(&None), None);
    let icons = vec!["icons/32x32.png".to_string(), "icons/app.ico".to_string(), "icons/b.ico".to_string()];
    assert_eq!(default_window_icon(&icons), "icons/app.ico");
    assert_eq!(default_window_icon(&vec!["a.png".to_string()]), "icons/icon.ico");
    assert_eq!(package_field(&Some("Name".to_string()), &"crate".to_string()), "Name");
    assert_eq!(package_field(&None, &"crate".to_string()), "crate");
}

#[test]
fn updater_modes() {
    type A = App<NoRuntime, (), ()>;
    assert_eq!(A::updater_mode(&UpdaterConfig { active: true, dialog: true }), UpdaterMode::Dialog);
    assert_eq!(A::updater_mode(&UpdaterConfig { active: true, dialog: false }), UpdaterMode::Listen);
    assert_eq!(A::updater_mode(&UpdaterConfig { active: false, dialog: true }), UpdaterMode::Off);
}

struct NoRuntime;

#[derive(Clone)]
struct NoDispatch;

impl tauri::window::Dispatch for NoDispatch {
    fn create_window(&mut self, _p: PendingWindow) -> Result<tauri::window::DetachedWindow<Self>, Error> {
        Err(Error::Runtime("none".to_string()))
    }
    fn inner_position(&self) -> Result<tauri::window::PhysicalPosition, Error> { Err(Error::Os) }
    fn outer_position(&self) -> Result<tauri::window::PhysicalPosition, Error> { Err(Error::Os) }
    fn inner_size(&self) -> Result<tauri::window::PhysicalSize, Error> { Err(Error::Os) }
    fn outer_size(&self) -> Result<tauri::window::PhysicalSize, Error> { Err(Error::Os) }
    fn is_fullscreen(&self) -> Result<bool, Error> { Err(Error::Os) }
    fn is_maximized(&self) -> Result<bool, Error> { Err(Error::Os) }
    fn current_monitor(&self) -> Result<Option<tauri::window::Monitor>, Error> { Err(Error::Os) }
    fn primary_monitor(&self) -> Result<Option<tauri::window::Monitor>, Error> { Err(Error::Os) }
    fn available_monitors(&self) -> Result<Vec<tauri::window::Monitor>, Error> { Err(Error::Os) }
    fn set_resizable(&self, _b: bool) -> Result<(), Error> { Err(Error::Os) }
    fn set_title(&self, _t: String) -> Result<(), Error> { Err(Error::Os) }
    fn maximize(&self) -> Result<(), Error> { Err(Error::Os) }
    fn unmaximize(&self) -> Result<(), Error> { Err(Error::Os) }
    fn minimize(&self) -> Result<(), Error> { Err(Error::Os) }
    fn unminimize(&self) -> Result<(), Error> { Err(Error::Os) }
    fn show(&self) -> Result<(), Error> { Err(Error::Os) }
    fn hide_window(&self) -> Result<(), Error> { Err(Error::Os) }
    fn close(&self) -> Result<(), Error> { Err(Error::Os) }
    fn set_decorations(&self, _b: bool) -> Result<(), Error> { Err(Error::Os) }
    fn set_always_on_top(&self, _b: bool) -> Result<(), Error> { Err(Error::Os) }
    fn set_size(&self, _s: tauri::window::PhysicalSize) -> Result<(), Error> { Err(Error::Os) }
    fn set_min_size(&self, _s: Option<tauri::window::PhysicalSize>) -> Result<(), Error> { Err(Error::Os) }
    fn set_max_size(&self, _s: Option<tauri::window::PhysicalSize>) -> Result<(), Error> { Err(Error::Os) }
    fn set_position(&self, _p: tauri::window::PhysicalPosition) -> Result<(), Error> { Err(Error::Os) }
    fn set_fullscreen(&self, _b: bool) -> Result<(), Error> { Err(Error::Os) }
    fn set_icon(&self, _i: Icon) -> Result<(), Error> { Err(Error::Os) }
    fn start_dragging(&self) -> Result<(), Error> { Err(Error::Os) }
    fn eval_script(&self, _s: String) -> Result<(), Error> { Err(Error::Os) }
}

impl tauri::window::Runtime for NoRuntime {
    type Dispatcher = NoDispatch;
    fn new() -> Result<Self, Error> {
        Err(Error::UnsupportedPlatform)
    }
    fn create_window(&mut self, _p: PendingWindow) -> Result<tauri::window::DetachedWindow<NoDispatch>, Error> {
        Err(Error::UnsupportedPlatform)
    }
    fn run(self) {}
}

#[test]
fn error_messages() {
    assert_eq!(Error::Architecture.message(), "Unable to determine target-architecture");
    assert_eq!(Error::Os.message(), "Unable to determine target-os");
    assert_eq!(Error::Environment.message(), "Unable to determine target-environment");
    assert_eq!(Error::UnsupportedPlatform.message(), "Unsupported platform for reading resources");
    assert_eq!(Error::ParentProcess.message(), "Could not get parent process");
    assert_eq!(Error::ParentPid.message(), "Could not get parent PID");
    assert_eq!(Error::ChildProcess.message(), "Could not get child process");
    assert_eq!(Error::Io("denied".to_string()).message(), "denied");
    assert_eq!(Error::DuplicateLabel("main".to_string()).message(), "a window with label 'main' already exists");
    assert_eq!(Error::Json("eof".to_string()).message(), "JSON error: eof");
    assert_eq!(Error::Runtime("x".to_string()).message(), "runtime error: x");
    assert_eq!(Error::InvalidIcon("png".to_string()).message(), "invalid icon: png");
    assert_eq!(Error::Setup("nope".to_string()).message(), "error encountered during setup hook: nope");
}

#[test]
fn window_descriptions() {
    let config = WindowConfig {
        label: "main".to_string(),
        url: WindowUrl::External("https://example.com".to_string()),
        title: "Main".to_string(),
        width: 1024,
        height: 768,
        min_size: None,
        max_size: None,
        position: None,
        resizable: false,
        fullscreen: true,
        maximized: false,
        visible: true,
        transparent: false,
        decorations: false,
        always_on_top: true,
    };
    let p = PendingWindow::with_config(&config, WebviewAttributes::new(WindowUrl::App("x".to_string())), "main".to_string());
    assert_eq!(p.url, "tauri://localhost");
    assert_eq!(p.window_attributes.title, "Main");
    assert_eq!(p.window_attributes.size.width, 1024);
    assert!(p.window_attributes.fullscreen && p.window_attributes.always_on_top);
    assert!(!p.window_attributes.resizable && !p.window_attributes.decorations);
    let d = WindowAttributes::new();
    assert_eq!((d.size.width, d.size.height), (800, 600));
    assert!(d.resizable && d.visible && d.decorations && d.icon.is_none());
    match Icon::from(IconDto::Raw(vec![1, 2])) {
        Icon::Raw(b) => assert_eq!(b, vec![1, 2]),
        Icon::File(_) => panic!("raw stays raw"),
    }
    match Icon::from(IconDto::File("a.png".to_string())) {
        Icon::File(p) => assert_eq!(p, "a.png"),
        Icon::Raw(_) => panic!("file stays file"),
    }
    let w = WebviewAttributes::new(WindowUrl::App("index.html".to_string()));
    assert_eq!(w.url, WindowUrl::App("index.html".to_string()));
    assert!(w.initialization_scripts.is_empty());
}

struct Counting {
    name: String,
    handled: std::rc::Rc<std::cell::RefCell<Vec<String>>>,
}

impl tauri::plugin::Plugin for Counting {
    fn name(&self) -> String {
        self.name.clone()
    }
    fn initialize(&mut self, _config: &tauri::config::Config) -> Result<(), String> {
        self.handled.borrow_mut().push(format!("init {}", self.name));
        Ok(())
    }
    fn extend_api(&mut self, invoke: tauri::ipc::Invoke) {
        self.handled.borrow_mut().push(format!("{} got {}", self.name, invoke.message.command));
    }
}

fn invoke(command: &str) -> tauri::ipc::Invoke {
    tauri::ipc::Invoke {
        message: tauri::ipc::InvokeMessage {
            window: "main".to_string(),
            command: command.to_string(),
            payload: "{}".to_string(),
        },
        resolver: tauri::ipc::InvokeResolver::new("main".to_string(), "1".to_string(), "2".to_string()),
    }
}

#[test]
fn plugins_initialize_in_order_and_receive_their_commands() {
    let log = std::rc::Rc::new(std::cell::RefCell::new(Vec::new()));
    let mut store = tauri::plugin::PluginStore::new();
    store.register(Counting { name: "first".to_string(), handled: log.clone() });
    store.register(Counting { name: "second".to_string(), handled: log.clone() });
    let config = tauri::config::Config {
        windows: Vec::new(),
        allowlist: allowlist(false),
        bundle_identifier: String::new(),
        cli: false,
        updater: UpdaterConfig { active: false, dialog: false },
        csp: None,
        dev_path: String::new(),
        dist_dir: String::new(),
    };
    assert_eq!(store.initialize(&config), Ok(()));
    assert!(store.extend_api(invoke("plugin:second|save")).is_none());
    match store.extend_api(invoke("plugin:third|save")) {
        Some((back, text)) => {
            assert_eq!(text, "plugin third not found");
            assert_eq!(back.message.command, "plugin:third|save");
        }
        None => panic!("no such plugin"),
    }
    assert_eq!(
        *log.borrow(),
        vec!["init first".to_string(), "init second".to_string(), "second got plugin:second|save".to_string()]
    );
}

#[test]
fn window_urls_are_classified() {
    assert_eq!(WindowUrl::parse("https://example.com".to_string()), WindowUrl::External("https://example.com".to_string()));
    assert_eq!(WindowUrl::parse("http://localhost:1420".to_string()), WindowUrl::External("http://localhost:1420".to_string()));
    assert_eq!(WindowUrl::parse("index.html".to_string()), WindowUrl::App("index.html".to_string()));
    assert_eq!(WindowUrl::parse("httpfoo".to_string()), WindowUrl::App("httpfoo".to_string()));
}

#[test]
fn json_strings_escape_like_serde_json() {
    assert_eq!(json_string_of("plain"), "\"plain\"");
    assert_eq!(json_string_of("a\"b\\c"), "\"a\\\"b\\\\c\"");
    assert_eq!(json_string_of("\n\t\r\u{8}\u{c}"), "\"\\n\\t\\r\\b\\f\"");
    assert_eq!(json_string_of("\u{1}\u{1f}"), "\"\\u0001\\u001f\"");
    assert_eq!(json_string_of("é/"), "\"é/\"");
}

#[test]
fn substrings_are_found_first() {
    assert_eq!(find_str("a<head><head>", "<head>"), Some(1));
    assert_eq!(find_str("abc", "abcd"), None);
    assert_eq!(find_str("abc", ""), Some(0));
    assert_eq!(find_str("abc", "x"), None);
    assert_eq!(inject_csp("<head>", "x"), "<head><meta http-equiv=\"Content-Security-Policy\" content=\"x\">");
}

#[test]
fn bundle_outcomes_are_recorded() {
    let mut bundles: Vec<Bundle> = Vec::new();
    assert_eq!(record_bundle(&mut bundles, PackageType::Deb, Ok(vec!["a.deb".to_string()])), Ok(()));
    assert_eq!(bundles.len(), 1);
    assert_eq!(bundles[0].bundle_paths, vec!["a.deb".to_string()]);
    assert_eq!(
        record_bundle(&mut bundles, PackageType::Rpm, Err(Error::Io("x".to_string()))),
        Err(Error::Io("x".to_string()))
    );
    assert_eq!(bundles.len(), 1);
}

#[test]
fn window_answers_follow_the_dispatcher() {
    assert_eq!(setter_answer(Ok(())), Ok(InvokeResponse::Null));
    assert_eq!(setter_answer(Err(Error::Os)), Err(Error::Os));
    assert_eq!(
        position_answer(Ok(PhysicalPosition { x: 1, y: 2 })),
        Ok(InvokeResponse::Position(PhysicalPosition { x: 1, y: 2 }))
    );
    assert_eq!(size_answer(Ok(PhysicalSize { width: 3, height: 4 })), Ok(InvokeResponse::Size(PhysicalSize { width: 3, height: 4 })));
    assert_eq!(flag_answer(Ok(true)), Ok(InvokeResponse::Bool(true)));
    assert_eq!(flag_answer(Err(Error::Os)), Err(Error::Os));
    assert_eq!(monitor_answer(Ok(None)), Ok(InvokeResponse::Monitor(None)));
    assert_eq!(monitors_answer(Ok(Vec::new())), Ok(InvokeResponse::Monitors(Vec::new())));
    assert_eq!(window_created_payload("say \"x\""), "{\"label\":\"say \\\"x\\\"\"}");
}
