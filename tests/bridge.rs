use std::cell::RefCell;
use std::collections::hash_map::DefaultHasher;
use std::hash::{Hash, Hasher};
use std::rc::Rc;

use tauri::app::Builder;
use tauri::config::{Allowlist, Config, Context, PackageInfo, UpdaterConfig};
use tauri::endpoints::window::Cmd;
use tauri::endpoints::{handle, InvokeResponse, Module, ModuleTag, Outcome};
use tauri::endpoints::notification::Settings;
use tauri::error::Error;
use tauri::ipc::{InvokePayload, InvokeResolver, Routed};
use tauri::manager::WindowManager;
use tauri::plugin::Plugin;
use tauri::window::{
    DetachedWindow, Dispatch, Icon, IconDto, Monitor, PendingWindow, PhysicalPosition,
    PhysicalSize, Runtime, WebviewAttributes, Window, WindowAttributes, WindowConfig, WindowUrl,
};

type Log = Rc<RefCell<Vec<String>>>;

#[derive(Clone)]
struct Fake {
    label: String,
    log: Log,
}

impl Fake {
    fn note(&self, what: &str) -> Result<(), Error> {
        self.log.borrow_mut().push(format!("{}:{}", what, self.label));
        Ok(())
    }
}

impl Dispatch for Fake {
    fn create_window(&mut self, pending: PendingWindow) -> Result<DetachedWindow<Self>, Error> {
        self.log.borrow_mut().push(format!("create:{}:{}", pending.label, pending.url));
        Ok(DetachedWindow {
            label: pending.label.clone(),
            dispatcher: Fake { label: pending.label, log: self.log.clone() },
        })
    }
    fn inner_position(&self) -> Result<PhysicalPosition, Error> {
        Ok(PhysicalPosition { x: 10, y: 20 })
    }
    fn outer_position(&self) -> Result<PhysicalPosition, Error> {
        Ok(PhysicalPosition { x: 5, y: 15 })
    }
    fn inner_size(&self) -> Result<PhysicalSize, Error> {
        Ok(PhysicalSize { width: 800, height: 600 })
    }
    fn outer_size(&self) -> Result<PhysicalSize, Error> {
        Ok(PhysicalSize { width: 820, height: 640 })
    }
    fn is_fullscreen(&self) -> Result<bool, Error> {
        Ok(false)
    }
    fn is_maximized(&self) -> Result<bool, Error> {
        Ok(true)
    }
    fn current_monitor(&self) -> Result<Option<Monitor>, Error> {
        Ok(None)
    }
    fn primary_monitor(&self) -> Result<Option<Monitor>, Error> {
        Err(Error::Runtime("no monitor".to_string()))
    }
    fn available_monitors(&self) -> Result<Vec<Monitor>, Error> {
        Ok(Vec::new())
    }
    fn set_resizable(&self, resizable: bool) -> Result<(), Error> {
        self.note(&format!("set_resizable:{}", resizable))
    }
    fn set_title(&self, title: String) -> Result<(), Error> {
        self.note(&format!("set_title:{}", title))
    }
    fn maximize(&self) -> Result<(), Error> {
        self.note("maximize")
    }
    fn unmaximize(&self) -> Result<(), Error> {
        self.note("unmaximize")
    }
    fn minimize(&self) -> Result<(), Error> {
        self.note("minimize")
    }
    fn unminimize(&self) -> Result<(), Error> {
        self.note("unminimize")
    }
    fn show(&self) -> Result<(), Error> {
        self.note("show")
    }
    fn hide_window(&self) -> Result<(), Error> {
        self.note("hide")
    }
    fn close(&self) -> Result<(), Error> {
        self.note("close")
    }
    fn set_decorations(&self, decorations: bool) -> Result<(), Error> {
        self.note(&format!("set_decorations:{}", decorations))
    }
    fn set_always_on_top(&self, always_on_top: bool) -> Result<(), Error> {
        self.note(&format!("set_always_on_top:{}", always_on_top))
    }
    fn set_size(&self, size: PhysicalSize) -> Result<(), Error> {
        self.note(&format!("set_size:{}x{}", size.width, size.height))
    }
    fn set_min_size(&self, _size: Option<PhysicalSize>) -> Result<(), Error> {
        self.note("set_min_size")
    }
    fn set_max_size(&self, _size: Option<PhysicalSize>) -> Result<(), Error> {
        self.note("set_max_size")
    }
    fn set_position(&self, position: PhysicalPosition) -> Result<(), Error> {
        self.note(&format!("set_position:{},{}", position.x, position.y))
    }
    fn set_fullscreen(&self, fullscreen: bool) -> Result<(), Error> {
        self.note(&format!("set_fullscreen:{}", fullscreen))
    }
    fn set_icon(&self, icon: Icon) -> Result<(), Error> {
        match icon {
            Icon::File(path) => self.note(&format!("set_icon:{}", path)),
            Icon::Raw(bytes) if bytes.is_empty() => Err(Error::InvalidIcon("empty".to_string())),
            Icon::Raw(bytes) => self.note(&format!("set_icon:{} bytes", bytes.len())),
        }
    }
    fn start_dragging(&self) -> Result<(), Error> {
        self.note("start_dragging")
    }
    fn eval_script(&self, script: String) -> Result<(), Error> {
        self.note(&format!("eval:{}", script))
    }
}

struct FakeRuntime {
    log: Log,
}

impl Runtime for FakeRuntime {
    type Dispatcher = Fake;
    fn new() -> Result<Self, Error> {
        Ok(FakeRuntime { log: Rc::new(RefCell::new(Vec::new())) })
    }
    fn create_window(&mut self, pending: PendingWindow) -> Result<DetachedWindow<Fake>, Error> {
        if pending.label == "broken" {
            return Err(Error::Runtime("cannot build".to_string()));
        }
        Ok(DetachedWindow {
            label: pending.label.clone(),
            dispatcher: Fake { label: pending.label, log: self.log.clone() },
        })
    }
    fn run(self) {}
}

struct TestPlugin {
    name: String,
    fail: bool,
}

impl Plugin for TestPlugin {
    fn name(&self) -> String {
        self.name.clone()
    }
    fn initialize(&mut self, _config: &Config) -> Result<(), String> {
        if self.fail {
            Err("boom".to_string())
        } else {
            Ok(())
        }
    }
    fn extend_api(&mut self, _invoke: tauri::ipc::Invoke) {}
}

fn allow_all() -> Allowlist {
    Allowlist {
        app_all: true,
        process_all: true,
        fs_all: true,
        window_all: true,
        window_create: true,
        shell_all: true,
        event_all: true,
        dialog_all: true,
        cli_all: true,
        notification_all: true,
        http_all: true,
        global_shortcut_all: true,
    }
}

fn allow_none() -> Allowlist {
    Allowlist {
        app_all: false,
        process_all: false,
        fs_all: false,
        window_all: false,
        window_create: false,
        shell_all: false,
        event_all: false,
        dialog_all: false,
        cli_all: false,
        notification_all: false,
        http_all: false,
        global_shortcut_all: false,
    }
}

fn window_config(label: &str) -> WindowConfig {
    WindowConfig {
        label: label.to_string(),
        url: WindowUrl::App("index.html".to_string()),
        title: format!("{} title", label),
        width: 640,
        height: 480,
        min_size: None,
        max_size: None,
        position: None,
        resizable: true,
        fullscreen: false,
        maximized: false,
        visible: true,
        transparent: false,
        decorations: true,
        always_on_top: false,
    }
}

fn config(allowlist: Allowlist, windows: Vec<WindowConfig>) -> Config {
    Config {
        windows,
        allowlist,
        bundle_identifier: "com.example.app".to_string(),
        cli: false,
        updater: UpdaterConfig { active: false, dialog: false },
        csp: None,
        dev_path: "http://localhost:8080".to_string(),
        dist_dir: "../dist".to_string(),
    }
}

fn package() -> PackageInfo {
    PackageInfo { name: "app".to_string(), version: "0.1.0".to_string() }
}

fn manager(allowlist: Allowlist) -> WindowManager<Fake> {
    WindowManager::new(config(allowlist, Vec::new()), package(), "__emit".to_string())
}

fn attach(m: &mut WindowManager<Fake>, label: &str, log: &Log) -> Window<Fake> {
    m.attach_window(DetachedWindow {
        label: label.to_string(),
        dispatcher: Fake { label: label.to_string(), log: log.clone() },
    })
    .expect("label is free")
}

fn new_log() -> Log {
    Rc::new(RefCell::new(Vec::new()))
}

fn salt_of(script: &str) -> String {
    let end = script.rfind('\'').unwrap();
    let start = script[..end].rfind('\'').unwrap();
    script[start + 1..end].to_string()
}

#[test]
fn attaching_a_second_window_with_a_label_fails() {
    let log = new_log();
    let mut m = manager(allow_all());
    attach(&mut m, "main", &log);
    let second = m.attach_window(DetachedWindow {
        label: "main".to_string(),
        dispatcher: Fake { label: "other".to_string(), log: log.clone() },
    });
    assert_eq!(second.err(), Some(Error::DuplicateLabel("main".to_string())));
    assert_eq!(m.labels_vec(), vec!["main".to_string()]);
    attach(&mut m, "about", &log);
    assert_eq!(m.labels_vec(), vec!["main".to_string(), "about".to_string()]);
    assert!(m.has_window(&"about".to_string()));
    assert!(!m.has_window(&"settings".to_string()));
}

#[test]
fn prepare_window_rejects_existing_label_and_resolves_urls() {
    let m = manager(allow_all());
    let existing = vec!["main".to_string()];
    let dup = PendingWindow::new(
        WindowAttributes::new(),
        WebviewAttributes::new(WindowUrl::App("index.html".to_string())),
        "main".to_string(),
    );
    assert_eq!(m.prepare_window(dup, &existing).err(), Some(Error::DuplicateLabel("main".to_string())));
    let local = PendingWindow::new(
        WindowAttributes::new(),
        WebviewAttributes::new(WindowUrl::App("index.html".to_string())),
        "about".to_string(),
    );
    assert_eq!(local.url, "tauri://localhost");
    let prepared = m.prepare_window(local, &existing).ok().unwrap();
    assert_eq!(prepared.url, "tauri://localhost/index.html");
    let remote = PendingWindow::new(
        WindowAttributes::new(),
        WebviewAttributes::new(WindowUrl::External("http://localhost:8080".to_string())),
        "dev".to_string(),
    );
    assert_eq!(m.prepare_window(remote, &existing).ok().unwrap().url, "http://localhost:8080");
}

#[test]
fn window_identity_is_the_label() {
    let log = new_log();
    let a = DetachedWindow { label: "main".to_string(), dispatcher: Fake { label: "x".to_string(), log: log.clone() } };
    let b = DetachedWindow { label: "main".to_string(), dispatcher: Fake { label: "y".to_string(), log: new_log() } };
    let c = DetachedWindow { label: "about".to_string(), dispatcher: Fake { label: "x".to_string(), log: log.clone() } };
    assert!(a == b);
    assert!(a != c);
    let hash = |d: &DetachedWindow<Fake>| {
        let mut h = DefaultHasher::new();
        d.hash(&mut h);
        h.finish()
    };
    assert_eq!(hash(&a), hash(&b));
    let wa = Window::new(a.clone());
    let wb = Window::new(b.clone());
    assert!(wa == wb);
    let mut h1 = DefaultHasher::new();
    wa.hash(&mut h1);
    let mut h2 = DefaultHasher::new();
    wb.hash(&mut h2);
    assert_eq!(h1.finish(), h2.finish());
    assert!(wa != Window::new(c));
}

#[test]
fn set_title_reaches_the_dispatcher_once() {
    let log = new_log();
    let mut m = manager(allow_all());
    let main = attach(&mut m, "main", &log);
    let allow = allow_all();
    let r = Cmd::SetTitle("Hello".to_string()).run(&main, &mut m, &allow);
    assert_eq!(r, Ok(InvokeResponse::Null));
    assert_eq!(*log.borrow(), vec!["set_title:Hello:main".to_string()]);
}

#[test]
fn window_commands_outside_the_allowlist_never_reach_the_dispatcher() {
    let log = new_log();
    let mut m = manager(allow_none());
    let main = attach(&mut m, "main", &log);
    let allow = allow_none();
    let r = Cmd::SetTitle("Hello".to_string()).run(&main, &mut m, &allow);
    let e = r.err().unwrap();
    assert_eq!(e, Error::ApiNotAllowlisted("window > all".to_string()));
    assert_eq!(e.message(), "'window > all' not on the allowlist");
    assert!(log.borrow().is_empty());
    let mut no_create = allow_all();
    no_create.window_create = false;
    let r = Cmd::CreateWebview { options: window_config("about") }.run(&main, &mut m, &no_create);
    assert_eq!(r.err(), Some(Error::ApiNotAllowlisted("window > create".to_string())));
    assert!(log.borrow().is_empty());
    assert_eq!(m.labels_vec(), vec!["main".to_string()]);
}

#[test]
fn window_getters_answer_with_their_values() {
    let log = new_log();
    let mut m = manager(allow_all());
    let main = attach(&mut m, "main", &log);
    let allow = allow_all();
    assert_eq!(
        Cmd::InnerSize.run(&main, &mut m, &allow),
        Ok(InvokeResponse::Size(PhysicalSize { width: 800, height: 600 }))
    );
    assert_eq!(
        Cmd::OuterPosition.run(&main, &mut m, &allow),
        Ok(InvokeResponse::Position(PhysicalPosition { x: 5, y: 15 }))
    );
    assert_eq!(Cmd::IsMaximized.run(&main, &mut m, &allow), Ok(InvokeResponse::Bool(true)));
    assert_eq!(Cmd::CurrentMonitor.run(&main, &mut m, &allow), Ok(InvokeResponse::Monitor(None)));
    assert_eq!(
        Cmd::PrimaryMonitor.run(&main, &mut m, &allow),
        Err(Error::Runtime("no monitor".to_string()))
    );
    assert_eq!(Cmd::AvailableMonitors.run(&main, &mut m, &allow), Ok(InvokeResponse::Monitors(Vec::new())));
}

#[test]
fn window_setters_forward_their_arguments() {
    let log = new_log();
    let mut m = manager(allow_all());
    let main = attach(&mut m, "main", &log);
    let allow = allow_all();
    assert_eq!(Cmd::SetSize(PhysicalSize { width: 3, height: 4 }).run(&main, &mut m, &allow), Ok(InvokeResponse::Null));
    assert_eq!(Cmd::Hide.run(&main, &mut m, &allow), Ok(InvokeResponse::Null));
    assert_eq!(
        Cmd::SetIcon { icon: IconDto::File("icon.png".to_string()) }.run(&main, &mut m, &allow),
        Ok(InvokeResponse::Null)
    );
    assert_eq!(
        Cmd::SetIcon { icon: IconDto::Raw(Vec::new()) }.run(&main, &mut m, &allow),
        Err(Error::InvalidIcon("empty".to_string()))
    );
    assert_eq!(
        *log.borrow(),
        vec!["set_size:3x4:main".to_string(), "hide:main".to_string(), "set_icon:icon.png:main".to_string()]
    );
}

#[test]
fn creating_a_window_attaches_it_and_tells_the_others() {
    let log = new_log();
    let mut m = manager(allow_all());
    let main = attach(&mut m, "main", &log);
    attach(&mut m, "about", &log);
    let allow = allow_all();
    let r = Cmd::CreateWebview { options: window_config("settings") }.run(&main, &mut m, &allow);
    assert_eq!(r, Ok(InvokeResponse::Null));
    assert_eq!(m.labels_vec(), vec!["main".to_string(), "about".to_string(), "settings".to_string()]);
    let entries = log.borrow().clone();
    assert_eq!(entries[0], "create:settings:tauri://localhost/index.html");
    assert_eq!(entries.len(), 3);
    assert!(entries[1].starts_with("eval:window['__emit']({event: \"tauri://window-created\", payload: {\"label\":\"settings\"}}, '"));
    assert!(entries[1].ends_with(":main"));
    assert!(entries[2].ends_with(":about"));
    let again = Cmd::CreateWebview { options: window_config("about") }.run(&main, &mut m, &allow);
    assert_eq!(again, Err(Error::DuplicateLabel("about".to_string())));
}

#[test]
fn emit_others_skips_the_sender() {
    let log = new_log();
    let mut m = manager(allow_all());
    let about = attach(&mut m, "main", &log);
    let about = {
        let _ = about;
        attach(&mut m, "about", &log)
    };
    attach(&mut m, "settings", &log);
    assert_eq!(m.recipients("about"), vec!["main".to_string(), "settings".to_string()]);
    let reached = about.emit_others(&mut m, "ping", Some("1")).unwrap();
    assert_eq!(reached.len(), 2);
    assert_eq!(reached[0].0, "main");
    assert_eq!(reached[1].0, "settings");
    for (_, script) in &reached {
        assert!(script.starts_with("window['__emit']({event: \"ping\", payload: 1}, '"));
    }
    assert_ne!(reached[0].1, reached[1].1);
    let entries = log.borrow().clone();
    assert_eq!(entries.len(), 2);
    assert!(entries[0].ends_with(":main"));
    assert!(entries[1].ends_with(":settings"));
    assert!(entries.iter().all(|e| !e.ends_with(":about")));
    let reached = m.emit_filter("ping", None, None).unwrap();
    let labels: Vec<String> = reached.into_iter().map(|(l, _)| l).collect();
    assert_eq!(labels, vec!["main".to_string(), "about".to_string(), "settings".to_string()]);
}

#[test]
fn emitted_salt_verifies_once() {
    let log = new_log();
    let mut m = manager(allow_all());
    let main = attach(&mut m, "main", &log);
    main.emit(&mut m, "ping", None).unwrap();
    let entry = log.borrow()[0].clone();
    let script = entry.trim_start_matches("eval:").trim_end_matches(":main").to_string();
    assert!(script.starts_with("window['__emit']({event: \"ping\", payload: null}, '"));
    let salt = salt_of(&script);
    assert!(!salt.is_empty());
    assert!(main.verify_salt(&mut m, &salt));
    assert!(!main.verify_salt(&mut m, &salt));
    assert!(!m.verify_salt(&"not a salt".to_string()));
}

#[test]
fn event_names_are_written_as_json_strings() {
    let mut m = manager(allow_all());
    let script = m.emit_script("say \"hi\"", Some("{\"a\":1}"));
    assert!(script.starts_with("window['__emit']({event: \"say \\\"hi\\\"\", payload: {\"a\":1}}, '"));
    assert!(script.ends_with("')"));
}

#[test]
fn windows_listening_on_ping_receive_unscoped_and_scoped_triggers() {
    let log = new_log();
    let mut m = manager(allow_all());
    let main = attach(&mut m, "main", &log);
    let about = attach(&mut m, "about", &log);
    let hm = main.listen(&mut m, "ping".to_string());
    let ha = about.listen(&mut m, "ping".to_string());
    let fired = m.trigger("ping", None);
    assert_eq!(fired, vec![hm, ha]);
    let fired = main.trigger(&mut m, "ping");
    assert_eq!(fired, vec![hm]);
    let fired = m.trigger("ping", Some("about"));
    assert_eq!(fired, vec![ha]);
    assert!(m.trigger("pong", None).is_empty());
}

#[test]
fn window_once_fires_a_single_time() {
    let log = new_log();
    let mut m = manager(allow_all());
    let main = attach(&mut m, "main", &log);
    let h = main.once(&mut m, "ready".to_string());
    assert_eq!(main.trigger(&mut m, "ready"), vec![h]);
    assert!(main.trigger(&mut m, "ready").is_empty());
    let g = m.listen("ready".to_string(), None);
    assert_eq!(m.trigger("ready", Some("main")), vec![g]);
    assert!(m.unlisten(g));
    assert!(!m.unlisten(g));
    assert!(m.trigger("ready", None).is_empty());
}

#[test]
fn messages_route_by_precedence() {
    let log = new_log();
    let mut m = manager(allow_all());
    let main = attach(&mut m, "main", &log);
    let payload = |module: Option<&str>| InvokePayload {
        callback: "cb1".to_string(),
        error: "err1".to_string(),
        tauri_module: module.map(|s| s.to_string()),
        inner: "{\"x\":1}".to_string(),
    };
    match main.on_message("__initialized".to_string(), payload(Some("Window"))) {
        Routed::PageLoad(p) => assert_eq!(p, "{\"x\":1}"),
        _ => panic!("expected page load"),
    }
    match main.on_message("plugin:store|get".to_string(), payload(Some("Window"))) {
        Routed::Module(tag, invoke) => {
            assert_eq!(tag, "Window");
            assert_eq!(invoke.message.command, "plugin:store|get");
            assert_eq!(invoke.message.window, "main");
        }
        _ => panic!("expected module"),
    }
    match main.on_message("plugin:store|get".to_string(), payload(None)) {
        Routed::Plugin(name, invoke) => {
            assert_eq!(name, "store");
            assert_eq!(invoke.resolver.callback, "cb1");
            assert_eq!(invoke.resolver.error, "err1");
        }
        _ => panic!("expected plugin"),
    }
    match main.on_message("plugin:bare".to_string(), payload(None)) {
        Routed::Plugin(name, _) => assert_eq!(name, "bare"),
        _ => panic!("expected plugin"),
    }
    match main.on_message("greet".to_string(), payload(None)) {
        Routed::Command(invoke) => {
            assert_eq!(invoke.message.command, "greet");
            assert_eq!(invoke.message.payload, "{\"x\":1}");
        }
        _ => panic!("expected command"),
    }
}

#[test]
fn resolver_answers_through_one_callback() {
    let r = InvokeResolver::new("main".to_string(), "cb1".to_string(), "err1".to_string());
    assert_eq!(r.respond(Ok("{\"ok\":true}".to_string())), "window['cb1']({\"ok\":true})");
    let r = InvokeResolver::new("main".to_string(), "cb1".to_string(), "err1".to_string());
    assert_eq!(r.respond(Err("bad \"input\"".to_string())), "window['err1'](\"bad \\\"input\\\"\")");
    let r = InvokeResolver::new("main".to_string(), "cb1".to_string(), "err1".to_string());
    assert_eq!(r.resolve("null".to_string()), "window['cb1'](null)");
    let r = InvokeResolver::new("main".to_string(), "cb1".to_string(), "err1".to_string());
    assert_eq!(r.reject("nope"), "window['err1'](\"nope\")");
}

#[test]
fn resolver_delivers_into_the_window() {
    let log = new_log();
    let mut m = manager(allow_all());
    let main = attach(&mut m, "main", &log);
    let r = InvokeResolver::new("main".to_string(), "7".to_string(), "8".to_string());
    r.deliver(&main, Err("failed".to_string())).unwrap();
    assert_eq!(*log.borrow(), vec!["eval:window['8'](\"failed\"):main".to_string()]);
}

#[test]
fn module_messages_are_gated_and_routed() {
    let log = new_log();
    let mut m = manager(allow_all());
    let main = attach(&mut m, "main", &log);
    let settings = Settings { allow_notification: None };
    let cfg = config(allow_none(), Vec::new());
    match handle(Ok(Module::Host(ModuleTag::Fs, "{}".to_string())), &main, &mut m, &cfg, &settings) {
        Outcome::Respond(Err(e)) => assert_eq!(e, Error::ApiNotAllowlisted("fs".to_string())),
        _ => panic!("expected an allowlist error"),
    }
    let cfg = config(allow_all(), Vec::new());
    match handle(Ok(Module::Host(ModuleTag::Fs, "{}".to_string())), &main, &mut m, &cfg, &settings) {
        Outcome::Host(tag, msg) => {
            assert_eq!(tag, ModuleTag::Fs);
            assert_eq!(msg, "{}");
        }
        _ => panic!("expected the host module"),
    }
    match handle(Ok(Module::Host(ModuleTag::Cli, "{}".to_string())), &main, &mut m, &cfg, &settings) {
        Outcome::Respond(Err(e)) => {
            assert_eq!(e, Error::NotConfigured("cli".to_string()));
            assert_eq!(e.message(), "'cli' is not configured");
        }
        _ => panic!("cli is not configured"),
    }
    match handle(Err("unknown variant `Nope`".to_string()), &main, &mut m, &cfg, &settings) {
        Outcome::Respond(Err(e)) => assert_eq!(e, Error::Json("unknown variant `Nope`".to_string())),
        _ => panic!("expected a decoding error"),
    }
    match handle(Ok(Module::Window(Cmd::Maximize)), &main, &mut m, &cfg, &settings) {
        Outcome::Respond(r) => assert_eq!(r, Ok(InvokeResponse::Null)),
        _ => panic!("expected a response"),
    }
    assert_eq!(*log.borrow(), vec!["maximize:main".to_string()]);
}

#[test]
fn builder_creates_added_then_configured_windows() {
    let cfg = config(allow_all(), vec![window_config("main"), window_config("about")]);
    let app = Builder::<TestPlugin, i32>::new()
        .plugin(TestPlugin { name: "store".to_string(), fail: false })
        .create_window("splash".to_string(), WindowUrl::App("splash.html".to_string()), |w, v| (w, v))
        .run::<FakeRuntime>(Context { config: cfg, package_info: package() }, "__emit".to_string())
        .ok()
        .expect("start succeeds");
    assert_eq!(
        app.manager.labels_vec(),
        vec!["splash".to_string(), "main".to_string(), "about".to_string()]
    );
    app.run();
}

#[test]
fn builder_fails_on_duplicate_labels_and_bad_parts() {
    let cfg = config(allow_all(), vec![window_config("main")]);
    let r = Builder::<TestPlugin, i32>::new()
        .create_window("main".to_string(), WindowUrl::App("a.html".to_string()), |w, v| (w, v))
        .run::<FakeRuntime>(Context { config: cfg, package_info: package() }, "__emit".to_string());
    assert_eq!(r.err(), Some(Error::DuplicateLabel("main".to_string())));

    let cfg = config(allow_all(), vec![window_config("broken")]);
    let r = Builder::<TestPlugin, i32>::new()
        .run::<FakeRuntime>(Context { config: cfg, package_info: package() }, "__emit".to_string());
    assert_eq!(r.err(), Some(Error::Runtime("cannot build".to_string())));

    let cfg = config(allow_all(), Vec::new());
    let r = Builder::<TestPlugin, i32>::new()
        .plugin(TestPlugin { name: "ok".to_string(), fail: false })
        .plugin(TestPlugin { name: "bad".to_string(), fail: true })
        .run::<FakeRuntime>(Context { config: cfg, package_info: package() }, "__emit".to_string());
    let e = r.err().unwrap();
    assert_eq!(e, Error::PluginInitialization("bad".to_string(), "boom".to_string()));
    assert_eq!(e.message(), "failed to initialize plugin `bad`: boom");
}

#[test]
fn managing_a_type_twice_is_a_startup_error() {
    let cfg = config(allow_all(), Vec::new());
    let r = Builder::<TestPlugin, i32>::new()
        .manage("Counter".to_string(), 0)
        .manage("Counter".to_string(), 1)
        .run::<FakeRuntime>(Context { config: cfg, package_info: package() }, "__emit".to_string());
    let e = r.err().unwrap();
    assert_eq!(e, Error::StateAlreadyManaged("Counter".to_string()));
    assert_eq!(e.message(), "state for type 'Counter' is already being managed");

    let cfg = config(allow_all(), Vec::new());
    let app = Builder::<TestPlugin, i32>::new()
        .manage("Counter".to_string(), 0)
        .manage("Name".to_string(), 5)
        .run::<FakeRuntime>(Context { config: cfg, package_info: package() }, "__emit".to_string())
        .ok()
        .unwrap();
    assert_eq!(app.state.get(&"Counter".to_string()), Some(&0));
    assert_eq!(app.state.get(&"Name".to_string()), Some(&5));
}

#[test]
fn messages_reach_the_matching_dispatcher_method() {
    let log = new_log();
    let mut m = manager(allow_all());
    let main = attach(&mut m, "main", &log);
    main.send(tauri::window::Message::SetTitle("T".to_string())).unwrap();
    main.send(tauri::window::Message::SetFullscreen(true)).unwrap();
    main.send(tauri::window::Message::EvalScript("1".to_string())).unwrap();
    assert_eq!(
        *log.borrow(),
        vec!["set_title:T:main".to_string(), "set_fullscreen:true:main".to_string(), "eval:1:main".to_string()]
    );
    assert_eq!(main.label(), "main");
}

#[test]
fn emitting_with_no_other_window_reaches_nobody() {
    let log = new_log();
    let mut m = manager(allow_all());
    let main = attach(&mut m, "main", &log);
    let reached = main.emit_others(&mut m, "ping", None).unwrap();
    assert!(reached.is_empty());
    assert!(log.borrow().is_empty());
}

#[test]
fn handler_ids_are_unique_across_windows() {
    let log = new_log();
    let mut m = manager(allow_all());
    let main = attach(&mut m, "main", &log);
    let about = attach(&mut m, "about", &log);
    let ids = vec![
        main.listen(&mut m, "a".to_string()),
        about.once(&mut m, "a".to_string()),
        m.listen("b".to_string(), None),
        main.once(&mut m, "b".to_string()),
    ];
    for i in 0..ids.len() {
        for j in 0..ids.len() {
            if i != j {
                assert_ne!(ids[i], ids[j]);
            }
        }
    }
}

#[test]
fn set_title_through_handle_answers_null_on_the_callback() {
    let log = new_log();
    let mut m = manager(allow_all());
    let main = attach(&mut m, "main", &log);
    let cfg = config(allow_all(), Vec::new());
    let settings = Settings { allow_notification: None };
    let outcome = handle(
        Ok(Module::Window(Cmd::SetTitle("Hello".to_string()))),
        &main,
        &mut m,
        &cfg,
        &settings,
    );
    let resolver = InvokeResolver::new("main".to_string(), "c".to_string(), "e".to_string());
    match outcome {
        Outcome::Respond(Ok(InvokeResponse::Null)) => resolver.deliver(&main, Ok("null".to_string())).unwrap(),
        _ => panic!("expected success"),
    }
    assert_eq!(
        *log.borrow(),
        vec!["set_title:Hello:main".to_string(), "eval:window['c'](null):main".to_string()]
    );
}

#[test]
fn a_not_allowlisted_command_reaches_the_error_callback() {
    let log = new_log();
    let mut m = manager(allow_none());
    let main = attach(&mut m, "main", &log);
    let cfg = config(allow_none(), Vec::new());
    let settings = Settings { allow_notification: Some(true) };
    let resolver = InvokeResolver::new("main".to_string(), "c".to_string(), "e".to_string());
    match handle(Ok(Module::Window(Cmd::SetTitle("Hello".to_string()))), &main, &mut m, &cfg, &settings) {
        Outcome::Respond(Err(err)) => resolver.deliver(&main, Err(err.message())).unwrap(),
        _ => panic!("expected the allowlist error"),
    }
    assert_eq!(
        *log.borrow(),
        vec!["eval:window['e'](\"'window > all' not on the allowlist\"):main".to_string()]
    );
    match handle(
        Ok(Module::Notification(tauri::endpoints::notification::Cmd::IsNotificationPermissionGranted)),
        &main,
        &mut m,
        &cfg,
        &settings,
    ) {
        Outcome::Respond(Err(err)) => assert_eq!(err, Error::ApiNotAllowlisted("notification".to_string())),
        _ => panic!("expected the allowlist error"),
    }
}

#[test]
fn created_windows_carry_what_setup_made() {
    let cfg = config(allow_all(), Vec::new());
    let app = Builder::<TestPlugin, i32>::new()
        .create_window("tall".to_string(), WindowUrl::App("a.html".to_string()), |mut w, v| {
            w.size = PhysicalSize { width: 10, height: 2000 };
            w.title = "Tall".to_string();
            (w, v)
        })
        .run::<FakeRuntime>(Context { config: cfg, package_info: package() }, "__emit".to_string())
        .ok()
        .unwrap();
    assert_eq!(app.manager.labels_vec(), vec!["tall".to_string()]);
}

#[test]
fn configured_policy_is_placed_into_local_html() {
    let mut cfg = config(allow_all(), Vec::new());
    cfg.csp = Some("default-src 'self'".to_string());
    let m: WindowManager<Fake> = WindowManager::new(cfg, package(), "__emit".to_string());
    assert_eq!(
        m.rewrite_html("<html><head><title>x</title></head></html>"),
        "<html><head><meta http-equiv=\"Content-Security-Policy\" content=\"default-src 'self'\"><title>x</title></head></html>"
    );
    assert_eq!(
        m.rewrite_html("<p>hi</p>"),
        "<meta http-equiv=\"Content-Security-Policy\" content=\"default-src 'self'\"><p>hi</p>"
    );
    let plain = manager(allow_all());
    assert_eq!(plain.rewrite_html("<head></head>"), "<head></head>");
}

#[test]
fn duplicate_labels_are_refused_before_the_backend_starts() {
    let cfg = config(allow_all(), vec![window_config("broken"), window_config("broken")]);
    let r = Builder::<TestPlugin, i32>::new()
        .run::<FakeRuntime>(Context { config: cfg, package_info: package() }, "__emit".to_string());
    assert_eq!(r.err(), Some(Error::DuplicateLabel("broken".to_string())));
}

#[test]
fn emitted_salts_are_fresh() {
    let log = new_log();
    let mut m = manager(allow_all());
    let main = attach(&mut m, "main", &log);
    main.emit(&mut m, "a", None).unwrap();
    main.emit(&mut m, "b", None).unwrap();
    let entries = log.borrow().clone();
    let s1 = salt_of(entries[0].trim_end_matches(":main"));
    let s2 = salt_of(entries[1].trim_end_matches(":main"));
    assert_ne!(s1, s2);
    assert_eq!(m.salts_issued(), 2);
}
