//! Plugins: named extensions that initialize at startup, in registration order, and
//! answer the invoke messages addressed to them.

use crate::config::Config;
use crate::error::Error;
use crate::ipc::{Invoke, plugin_name, plugin_target, is_plugin_command};
use vstd::prelude::*;

verus! {

/// An extension of the application.
pub trait Plugin {
    /// The plugin's name; commands reach it as `plugin:<name>|<command>`.
    fn name(&self) -> String;

    /// Runs once at startup; an error aborts the start.
    fn initialize(&mut self, config: &Config) -> Result<(), String>;

    /// Handles an invoke message addressed to this plugin.
    fn extend_api(&mut self, invoke: Invoke);
}

/// The registered plugins, in registration order.
pub struct PluginStore<P> {
    store: Vec<P>,
}

impl<P> View for PluginStore<P> {
    type V = Seq<P>;

    closed spec fn view(&self) -> Seq<P> {
        self.store@
    }
}

/// The text of the error that answers a command for a plugin that is not registered.
pub open spec fn plugin_not_found(name: Seq<char>) -> Seq<char> {
    "plugin "@ + name + " not found"@
}

impl<P: Plugin> PluginStore<P> {
    /// A store with no plugins.
    pub fn new() -> (r: Self)
        ensures
            r@.len() == 0,
    {
        PluginStore { store: Vec::new() }
    }

    /// Adds a plugin after the ones registered already.
    pub fn register(&mut self, plugin: P)
        ensures
            final(self)@ == old(self)@.push(plugin),
    {
        self.store.push(plugin);
    }

    /// Initializes the plugins in registration order and stops at the first failure, which
    /// it reports under that plugin's name.
    pub fn initialize(&mut self, config: &Config) -> (r: Result<(), Error>)
        ensures
            final(self)@.len() == old(self)@.len(),
            r matches Err(e) ==> e is PluginInitialization,
            old(self)@.len() == 0 ==> r is Ok,
    {
        let mut i: usize = 0;
        while i < self.store.len()
            invariant
                self.store@.len() == old(self)@.len(),
                0 <= i <= self.store@.len(),
            decreases self.store@.len() - i,
        {
            let name = self.store[i].name();
            let mut plugin = self.store.remove(i);
            let outcome = plugin.initialize(config);
            self.store.insert(i, plugin);
            if let Err(message) = outcome {
                return Err(Error::PluginInitialization(name, message));
            }
            i = i + 1;
        }
        Ok(())
    }

    /// Hands a plugin command to the plugin it names. Gives the invocation back, with the
    /// text to reject it with, when no registered plugin has that name.
    pub fn extend_api(&mut self, invoke: Invoke) -> (r: Option<(Invoke, String)>)
        requires
            is_plugin_command(invoke.message.command@),
        ensures
            final(self)@.len() == old(self)@.len(),
            old(self)@.len() == 0 ==> r is Some,
            r matches Some((back, text)) ==> back == invoke && text@ == plugin_not_found(
                plugin_name(invoke.message.command@),
            ),
    {
        let target = plugin_target(invoke.message.command.as_str());
        let mut i: usize = 0;
        while i < self.store.len()
            invariant
                self.store@.len() == old(self)@.len(),
                0 <= i <= self.store@.len(),
            decreases self.store@.len() - i,
        {
            if self.store[i].name() == target {
                let mut plugin = self.store.remove(i);
                plugin.extend_api(invoke);
                self.store.insert(i, plugin);
                return None;
            }
            i = i + 1;
        }
        let mut text = String::from_str("plugin ");
        text.append(target.as_str());
        text.append(" not found");
        Some((invoke, text))
    }
}

} // verus!
