//! The invoke bridge: messages from a window's scripts, their routing, and the one-shot
//! resolver that answers each of them.

use crate::error::Error;
use crate::json::{json_string, json_string_of};
use crate::text::{find_char, starts_with, str_eq};
use crate::window::{Dispatch, Window};
use vstd::prelude::*;
use vstd::string::StrSliceExecFns;

verus! {

/// An invoke message as it arrives from a window's script context.
pub struct InvokePayload {
    /// The id of the script function that receives a success.
    pub callback: String,
    /// The id of the script function that receives an error.
    pub error: String,
    /// The built-in module the message is for, if any.
    pub tauri_module: Option<String>,
    /// The JSON text of the message's own fields.
    pub inner: String,
}

/// A raw request from a webview's RPC channel.
pub struct RpcRequest {
    /// The command.
    pub command: String,
    /// The JSON text of its parameters, if any.
    pub params: Option<String>,
}

/// A command invocation, scoped to the window it came from.
pub struct InvokeMessage {
    /// The label of the originating window.
    pub window: String,
    /// The command name.
    pub command: String,
    /// The JSON text of the arguments.
    pub payload: String,
}

/// The pair of script callbacks that answers one invoke message. Answering consumes it,
/// so a message is answered at most once.
pub struct InvokeResolver {
    /// The label of the window to answer.
    pub window: String,
    pub callback: String,
    pub error: String,
}

/// A message together with its resolver.
pub struct Invoke {
    pub message: InvokeMessage,
    pub resolver: InvokeResolver,
}

/// Where an invoke message goes.
pub enum Routed {
    /// The page-load signal, with its JSON payload.
    PageLoad(String),
    /// A built-in module, by tag.
    Module(String, Invoke),
    /// A plugin's extension handler: the plugin's name and the invocation.
    Plugin(String, Invoke),
    /// The user's command table.
    Command(Invoke),
}

/// The reserved command that signals a page load.
pub open spec fn page_load_command() -> Seq<char> {
    "__initialized"@
}

/// The prefix of commands addressed to a plugin.
pub open spec fn plugin_prefix() -> Seq<char> {
    "plugin:"@
}

/// Whether a command is addressed to a plugin.
pub open spec fn is_plugin_command(command: Seq<char>) -> bool {
    plugin_prefix().len() <= command.len() && command.subrange(0, plugin_prefix().len() as int)
        == plugin_prefix()
}

/// The plugin a plugin command names: what follows the prefix, up to the first `|`.
pub open spec fn plugin_name(command: Seq<char>) -> Seq<char> {
    let rest = command.subrange(plugin_prefix().len() as int, command.len() as int);
    if rest.contains('|') {
        let k = choose|k: int| 0 <= k < rest.len() && rest[k] == '|' && !rest.subrange(0, k).contains('|');
        rest.subrange(0, k)
    } else {
        rest
    }
}

/// The script that calls the script function `id` with `arg`.
pub open spec fn callback_js(id: Seq<char>, arg: Seq<char>) -> Seq<char> {
    "window['"@ + id + "']("@ + arg + ")"@
}

/// The script that answers a result: the success callback with the JSON value, or the
/// error callback with the message as a JSON string.
pub open spec fn response_js(callback: Seq<char>, error: Seq<char>, result: Result<String, String>) -> Seq<
    char,
> {
    match result {
        Ok(json) => callback_js(callback, json@),
        Err(message) => callback_js(error, json_string(message@)),
    }
}

/// The name of the plugin that a plugin command addresses.
pub fn plugin_target(command: &str) -> (r: String)
    requires
        is_plugin_command(command@),
    ensures
        r@ == plugin_name(command@),
{
    proof {
        reveal_strlit("plugin:");
    }
    let n = command.unicode_len();
    let rest = command.substring_char(7, n);
    match find_char(rest, '|') {
        Some(k) => {
            proof {
                let r = rest@;
                assert(r.contains('|'));
                let j = choose|j: int| 0 <= j < r.len() && r[j] == '|' && !r.subrange(0, j).contains('|');
                if j < k {
                    assert(r.subrange(0, k as int)[j] == '|');
                } else if k < j {
                    assert(r.subrange(0, j)[k as int] == '|');
                }
            }
            String::from_str(rest.substring_char(0, k))
        },
        None => String::from_str(rest),
    }
}

fn script_call(id: &String, arg: &str) -> (r: String)
    ensures
        r@ == callback_js(id@, arg@),
{
    let mut js = String::from_str("window['");
    js.append(id.as_str());
    js.append("'](");
    js.append(arg);
    js.append(")");
    js
}

impl InvokeResolver {
    /// A resolver that answers `window` through `callback` or `error`.
    pub fn new(window: String, callback: String, error: String) -> (r: InvokeResolver)
        ensures
            r.window == window,
            r.callback == callback,
            r.error == error,
    {
        InvokeResolver { window, callback, error }
    }

    /// The script that answers `result`: exactly one of the two callbacks, the success one
    /// with the JSON value, the error one with the message as a JSON string.
    pub fn respond(self, result: Result<String, String>) -> (r: String)
        ensures
            r@ == response_js(self.callback@, self.error@, result),
    {
        match result {
            Ok(json) => script_call(&self.callback, json.as_str()),
            Err(message) => script_call(&self.error, json_string_of(message.as_str()).as_str()),
        }
    }

    /// Answers with a JSON value through the success callback.
    pub fn resolve(self, json: String) -> (r: String)
        ensures
            r@ == callback_js(self.callback@, json@),
    {
        script_call(&self.callback, json.as_str())
    }

    /// Answers with a message through the error callback.
    pub fn reject(self, message: &str) -> (r: String)
        ensures
            r@ == callback_js(self.error@, json_string(message@)),
    {
        script_call(&self.error, json_string_of(message).as_str())
    }

    /// Answers `result` in `window`, which must be the window the message came from.
    pub fn deliver<D: Dispatch>(self, window: &Window<D>, result: Result<String, String>) -> (r:
        Result<(), Error>)
        requires
            window.label_spec() == self.window@,
    {
        window.window.dispatcher.eval_script(self.respond(result))
    }
}

impl<D: Dispatch> Window<D> {
    /// Routes a message that arrived from this window: the page-load signal, a built-in
    /// module, a plugin, or the user's commands, in that order of precedence.
    pub fn on_message(&self, command: String, payload: InvokePayload) -> (r: Routed)
        ensures
            command@ == page_load_command() ==> r == Routed::PageLoad(payload.inner),
            command@ != page_load_command() ==> match r {
                Routed::PageLoad(_) => false,
                Routed::Module(m, invoke) => payload.tauri_module == Some(m) && invoke_of(
                    invoke,
                    self.label_spec(),
                    command,
                    payload,
                ),
                Routed::Plugin(p, invoke) => payload.tauri_module is None && is_plugin_command(
                    command@,
                ) && p@ == plugin_name(command@) && invoke_of(invoke, self.label_spec(), command, payload),
                Routed::Command(invoke) => payload.tauri_module is None && !is_plugin_command(command@)
                    && invoke_of(invoke, self.label_spec(), command, payload),
            },
    {
        proof {
            reveal_strlit("__initialized");
        }
        if str_eq(command.as_str(), "__initialized") {
            return Routed::PageLoad(payload.inner);
        }
        let plugin = starts_with(command.as_str(), "plugin:");
        let target = if payload.tauri_module.is_none() && plugin {
            Some(plugin_target(command.as_str()))
        } else {
            None
        };
        let resolver = InvokeResolver::new(self.window.label.clone(), payload.callback, payload.error);
        let message = InvokeMessage { window: self.window.label.clone(), command, payload: payload.inner };
        let invoke = Invoke { message, resolver };
        match payload.tauri_module {
            Some(module) => Routed::Module(module, invoke),
            None => match target {
                Some(p) => Routed::Plugin(p, invoke),
                None => Routed::Command(invoke),
            },
        }
    }
}

/// Whether `invoke` carries `command` and `payload` from the window labelled `window`.
pub open spec fn invoke_of(invoke: Invoke, window: Seq<char>, command: String, payload: InvokePayload) -> bool {
    &&& invoke.message.window@ == window
    &&& invoke.message.command == command
    &&& invoke.message.payload == payload.inner
    &&& invoke.resolver.window@ == window
    &&& invoke.resolver.callback == payload.callback
    &&& invoke.resolver.error == payload.error
}

/// Whether a callback id can stand between the quotes of a script call.
pub open spec fn quote_free(id: Seq<char>) -> bool {
    !id.contains('\'')
}

/// A call of one callback is never a call of the other: with two distinct quote-free ids,
/// no script calls both, whatever the arguments.
pub proof fn lemma_callbacks_distinguishable(
    callback: Seq<char>,
    error: Seq<char>,
    a: Seq<char>,
    b: Seq<char>,
)
    requires
        callback != error,
        quote_free(callback),
        quote_free(error),
    ensures
        callback_js(callback, a) != callback_js(error, b),
{
    reveal_strlit("window['");
    reveal_strlit("'](");
    let p = "window['"@;
    let s1 = callback_js(callback, a);
    let s2 = callback_js(error, b);
    assert(s1 == p + callback + "']("@ + a + ")"@);
    assert forall|i: int| 0 <= i < callback.len() implies s1[8 + i] == callback[i] by {
        assert((p + callback)[8 + i] == callback[i]);
    }
    assert forall|i: int| 0 <= i < error.len() implies s2[8 + i] == error[i] by {
        assert((p + error)[8 + i] == error[i]);
    }
    assert(s1[8 + callback.len() as int] == '\'') by {
        assert((p + callback + "']("@)[8 + callback.len() as int] == '\'');
    }
    assert(s2[8 + error.len() as int] == '\'') by {
        assert((p + error + "']("@)[8 + error.len() as int] == '\'');
    }
    if s1 == s2 {
        if callback.len() < error.len() {
            assert(error.contains(error[callback.len() as int]));
        } else if error.len() < callback.len() {
            assert(callback.contains(callback[error.len() as int]));
        } else {
            assert(callback =~= error) by {
                assert forall|i: int| 0 <= i < callback.len() implies callback[i] == error[i] by {
                    assert(s1[8 + i] == s2[8 + i]);
                }
            }
        }
    }
}

/// Answering consumes the resolver, and every result is answered through exactly one of
/// its callbacks: a value through the success callback, a message through the error one.
pub proof fn lemma_response_uses_one_callback(
    callback: Seq<char>,
    error: Seq<char>,
    result: Result<String, String>,
)
    ensures
        result is Ok ==> response_js(callback, error, result) == callback_js(callback, result->Ok_0@),
        result is Err ==> response_js(callback, error, result) == callback_js(
            error,
            json_string(result->Err_0@),
        ),
        callback != error && quote_free(callback) && quote_free(error) ==> (forall|arg: Seq<char>|
            #![trigger callback_js(callback, arg)]
            #![trigger callback_js(error, arg)]
            (result is Ok ==> response_js(callback, error, result) != callback_js(error, arg))
                && (result is Err ==> response_js(callback, error, result) != callback_js(
                callback,
                arg,
            ))),
{
    if callback != error && quote_free(callback) && quote_free(error) {
        assert forall|arg: Seq<char>|
            (result is Ok ==> response_js(callback, error, result) != callback_js(error, arg)) && (
            result is Err ==> response_js(callback, error, result) != callback_js(callback, arg)) by {
            match result {
                Ok(json) => lemma_callbacks_distinguishable(callback, error, json@, arg),
                Err(m) => lemma_callbacks_distinguishable(error, callback, json_string(m@), arg),
            }
        }
    }
}

} // verus!
