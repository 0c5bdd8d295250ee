//! The application builder and the running application.
//!
//! Building gathers plugins, managed state and windows; `run` starts the backend, creates
//! and attaches every window, initializes the plugins, and hands back the application,
//! whose setup hook and event loop the caller then runs.

use crate::config::{Config, Context, UpdaterConfig};
use crate::error::Error;
use crate::manager::WindowManager;
use crate::plugin::{Plugin, PluginStore};
use crate::state::{StateManager, managed_after};
use crate::window::{
    DetachedWindow, PendingWindow, Runtime, WebviewAttributes, WindowAttributes, WindowConfig,
    WindowUrl, is_default_attributes, is_plain_webview, start_url,
};
use vstd::prelude::*;

verus! {

/// The labels of a sequence of pending windows, in order.
pub open spec fn pending_labels(ps: Seq<PendingWindow>) -> Seq<Seq<char>> {
    ps.map_values(|p: PendingWindow| p.label@)
}

/// The labels of a sequence of window descriptions, in order.
pub open spec fn config_labels(cs: Seq<WindowConfig>) -> Seq<Seq<char>> {
    cs.map_values(|c: WindowConfig| c.label@)
}

/// A label that two pending windows share, if any.
fn duplicate_label(pending: &Vec<PendingWindow>) -> (r: Option<String>)
    ensures
        r is None ==> pending_labels(pending@).no_duplicates(),
        r matches Some(l) ==> !pending_labels(pending@).no_duplicates() && pending_labels(
            pending@,
        ).contains(l@),
{
    let ghost ls = pending_labels(pending@);
    let mut i: usize = 0;
    while i < pending.len()
        invariant
            ls == pending_labels(pending@),
            0 <= i <= pending@.len(),
            forall|a: int, b: int| 0 <= a < i && 0 <= b < ls.len() && a != b ==> ls[a] != ls[b],
        decreases pending@.len() - i,
    {
        let mut j: usize = 0;
        while j < pending.len()
            invariant
                ls == pending_labels(pending@),
                0 <= i < pending@.len(),
                0 <= j <= pending@.len(),
                forall|a: int, b: int| 0 <= a < i && 0 <= b < ls.len() && a != b ==> ls[a] != ls[b],
                forall|b: int| 0 <= b < j && b != i ==> ls[i as int] != ls[b],
            decreases pending@.len() - j,
        {
            if i != j && pending[i].label == pending[j].label {
                proof {
                    assert(ls[i as int] == ls[j as int]);
                }
                return Some(pending[i].label.clone());
            }
            j = j + 1;
        }
        i = i + 1;
    }
    None
}

/// A running application.
pub struct App<R: Runtime, P, S> {
    pub runtime: R,
    pub manager: WindowManager<R::Dispatcher>,
    pub plugins: PluginStore<P>,
    pub state: StateManager<S>,
}

/// What the updater does when the application starts.
#[derive(Debug, Clone, Copy, PartialEq, Eq, Structural)]
pub enum UpdaterMode {
    /// Check for updates and ask through the built-in dialog.
    Dialog,
    /// Only listen for update requests from the front end.
    Listen,
    /// Do nothing.
    Off,
}

impl<R: Runtime, P, S> App<R, P, S> {
    /// What the updater does with this configuration.
    pub fn updater_mode(updater: &UpdaterConfig) -> (r: UpdaterMode)
        ensures
            r == (if updater.active && updater.dialog {
                UpdaterMode::Dialog
            } else if updater.active {
                UpdaterMode::Listen
            } else {
                UpdaterMode::Off
            }),
    {
        if updater.dialog && updater.active {
            UpdaterMode::Dialog
        } else if updater.active {
            UpdaterMode::Listen
        } else {
            UpdaterMode::Off
        }
    }

    /// Runs the backend's event loop.
    pub fn run(self) {
        self.runtime.run()
    }
}

/// Builds an application.
pub struct Builder<P, S> {
    pending_windows: Vec<PendingWindow>,
    plugins: PluginStore<P>,
    state: StateManager<S>,
    config_error: Option<Error>,
}

fn clone_url(url: &WindowUrl) -> (r: WindowUrl)
    ensures
        r == *url,
{
    match url {
        WindowUrl::External(u) => WindowUrl::External(u.clone()),
        WindowUrl::App(p) => WindowUrl::App(p.clone()),
    }
}

impl<P: Plugin, S> Builder<P, S> {
    /// The windows added so far, in order.
    pub closed spec fn pending(&self) -> Seq<PendingWindow> {
        self.pending_windows@
    }

    /// The managed state registered so far.
    pub closed spec fn managed(&self) -> Map<Seq<char>, S> {
        self.state@
    }

    /// The plugins registered so far.
    pub closed spec fn plugins(&self) -> Seq<P> {
        self.plugins@
    }

    /// The configuration error that `run` reports, if any.
    pub closed spec fn config_error(&self) -> Option<Error> {
        self.config_error
    }

    pub closed spec fn wf(&self) -> bool {
        self.state.wf()
    }

    /// A builder with nothing registered.
    pub fn new() -> (r: Self)
        ensures
            r.wf(),
            r.pending().len() == 0,
            r.plugins().len() == 0,
            r.managed() == Map::<Seq<char>, S>::empty(),
            r.config_error() is None,
    {
        Builder {
            pending_windows: Vec::new(),
            plugins: PluginStore::new(),
            state: StateManager::new(),
            config_error: None,
        }
    }

    /// Adds a plugin.
    pub fn plugin(self, plugin: P) -> (r: Self)
        requires
            self.wf(),
        ensures
            r.wf(),
            r.plugins() == self.plugins().push(plugin),
            r.pending() == self.pending(),
            r.managed() == self.managed(),
            r.config_error() == self.config_error(),
    {
        let mut b = self;
        b.plugins.register(plugin);
        b
    }

    /// Adds `state` to the managed state under its type's name. A second value for the
    /// same type is refused, the first one stays, and `run` reports the error.
    pub fn manage(self, key: String, state: S) -> (r: Self)
        requires
            self.wf(),
        ensures
            r.wf(),
            r.managed() == managed_after(self.managed(), key@, state),
            r.pending() == self.pending(),
            r.plugins() == self.plugins(),
            self.managed().contains_key(key@) && self.config_error() is None ==> r.config_error()
                == Some(Error::StateAlreadyManaged(key)),
            !(self.managed().contains_key(key@) && self.config_error() is None)
                ==> r.config_error() == self.config_error(),
    {
        let mut b = self;
        let name = key.clone();
        if !b.state.set(key, state) && b.config_error.is_none() {
            b.config_error = Some(Error::StateAlreadyManaged(name));
        }
        b
    }

    /// Adds a window that loads `url`; `setup` shapes its attributes.
    pub fn create_window<F>(self, label: String, url: WindowUrl, setup: F) -> (r: Self)
        where
            F: FnOnce(WindowAttributes, WebviewAttributes) -> (WindowAttributes, WebviewAttributes),
        requires
            self.wf(),
            forall|a: WindowAttributes, b: WebviewAttributes| setup.requires((a, b)),
        ensures
            r.wf(),
            r.pending().len() == self.pending().len() + 1,
            r.pending().drop_last() == self.pending(),
            r.pending().last().label == label,
            r.pending().last().url@ == start_url(),
            exists|a: WindowAttributes, w: WebviewAttributes|
                is_default_attributes(a) && is_plain_webview(w, url) && #[trigger] setup.ensures(
                    (a, w),
                    (r.pending().last().window_attributes, r.pending().last().webview_attributes),
                ),
            r.managed() == self.managed(),
            r.plugins() == self.plugins(),
            r.config_error() == self.config_error(),
    {
        let a0 = WindowAttributes::new();
        let w0 = WebviewAttributes::new(url);
        let ghost given = (a0, w0);
        let (window_attributes, webview_attributes) = setup(a0, w0);
        let ghost made = (window_attributes, webview_attributes);
        let mut b = self;
        let ghost before = b.pending_windows@;
        b.pending_windows.push(PendingWindow::new(window_attributes, webview_attributes, label));
        proof {
            assert(b.pending_windows@.drop_last() =~= before);
            assert(setup.ensures(given, made));
            assert(b.pending_windows@.last().window_attributes == made.0);
            assert(b.pending_windows@.last().webview_attributes == made.1);
        }
        b
    }

    /// Starts the application: reports a configuration error, then a label that two
    /// windows share, before anything is built; starts the backend,
    /// creates and attaches the added windows and then those of the configuration, in
    /// order, and then initializes the plugins in registration order, stopping at the first
    /// that fails. Any failure aborts the start. On success every
    /// window is attached, under its own label, and the labels are unique.
    pub fn run<R: Runtime>(self, context: Context, emit_function_name: String) -> (r: Result<
        App<R, P, S>,
        Error,
    >)
        requires
            self.wf(),
        ensures
            self.config_error() matches Some(e) ==> r == Err::<App<R, P, S>, Error>(e),
            self.config_error() is None && !(pending_labels(self.pending()) + config_labels(
                context.config.windows@,
            )).no_duplicates() ==> (r matches Err(Error::DuplicateLabel(l)) && (pending_labels(
                self.pending(),
            ) + config_labels(context.config.windows@)).contains(l@)),
            r matches Ok(app) ==> {
                &&& app.manager.wf()
                &&& app.manager.labels() == pending_labels(self.pending()) + config_labels(
                    context.config.windows@,
                )
                &&& app.manager.labels().no_duplicates()
                &&& app.state@ == self.managed()
                &&& app.plugins@.len() == self.plugins().len()
            },
    {
        if let Some(e) = self.config_error {
            return Err(e);
        }
        let mut pending = self.pending_windows;
        let ghost added = pending@;
        let mut i: usize = 0;
        while i < context.config.windows.len()
            invariant
                0 <= i <= context.config.windows@.len(),
                pending@.len() == added.len() + i,
                pending_labels(pending@) == pending_labels(added) + config_labels(
                    context.config.windows@.take(i as int),
                ),
            decreases context.config.windows@.len() - i,
        {
            let c = &context.config.windows[i];
            let ghost before = pending@;
            pending.push(
                PendingWindow::with_config(
                    c,
                    WebviewAttributes::new(clone_url(&c.url)),
                    c.label.clone(),
                ),
            );
            proof {
                assert(pending_labels(pending@) =~= pending_labels(before).push(c.label@));
                assert(config_labels(context.config.windows@.take(i + 1)) =~= config_labels(
                    context.config.windows@.take(i as int),
                ).push(c.label@));
            }
            i = i + 1;
        }
        proof {
            assert(context.config.windows@.take(context.config.windows@.len() as int)
                =~= context.config.windows@);
        }
        if let Some(l) = duplicate_label(&pending) {
            return Err(Error::DuplicateLabel(l));
        }
        let ghost expected = pending_labels(pending@);
        let ghost windows = context.config.windows@;
        let mut manager: WindowManager<R::Dispatcher> = WindowManager::new(
            context.config,
            context.package_info,
            emit_function_name,
        );
        let mut runtime = R::new()?;
        let n = pending.len();
        let mut k: usize = 0;
        while k < n
            invariant
                n == expected.len(),
                0 <= k <= n,
                pending@.len() == n - k,
                pending_labels(pending@) == expected.skip(k as int),
                manager.wf(),
                manager.labels() == expected.take(k as int),
                self.config_error() is None,
                expected == pending_labels(self.pending()) + config_labels(windows),
                expected.no_duplicates(),
                windows == context.config.windows@,
            decreases n - k,
        {
            let ghost before = pending@;
            let p = pending.remove(0);
            proof {
                assert(pending_labels(pending@) =~= pending_labels(before).skip(1));
                assert(expected.skip(k as int)[0] == p.label@);
                assert(expected.skip(k + 1) =~= expected.skip(k as int).skip(1));
            }
            let label = p.label.clone();
            let existing = manager.labels_vec();
            let prepared = manager.prepare_window(p, &existing)?;
            let built = runtime.create_window(prepared)?;
            manager.attach_window(DetachedWindow { label, dispatcher: built.dispatcher })?;
            proof {
                assert(expected.take(k + 1) =~= expected.take(k as int).push(expected[k as int]));
            }
            k = k + 1;
        }
        proof {
            assert(expected.take(n as int) =~= expected);
            crate::manager::lemma_labels_unique(manager);
        }
        let mut plugins = self.plugins;
        plugins.initialize(manager.config())?;
        Ok(App { runtime, manager, plugins, state: self.state })
    }
}

} // verus!
