//! The window manager: the table of live windows, the event bus, and the salt pool of
//! one application, and the operations that span windows.

use crate::config::{Config, PackageInfo};
use crate::error::Error;
use crate::event::{EventHandler, Listeners, fired_by, kept_after, opt_str_view};
use crate::json::{json_string, json_string_of};
use crate::salt::SaltPool;
use crate::text::{find_str, occurs_at};
use crate::window::{DetachedWindow, Dispatch, PendingWindow, Window, WindowUrl};
use vstd::prelude::*;
use vstd::string::StrSliceExecFns;

verus! {

/// The labels of a sequence of windows, in order.
pub open spec fn labels_of<D>(ws: Seq<DetachedWindow<D>>) -> Seq<Seq<char>> {
    ws.map_values(|w: DetachedWindow<D>| w.label@)
}

/// Whether a label differs from `sender`.
pub open spec fn not_label(sender: Seq<char>) -> spec_fn(Seq<char>) -> bool {
    |l: Seq<char>| l != sender
}

/// Whether an emission from `sender` (from no window, when `None`) goes to the window
/// labelled `l`.
pub open spec fn emit_pred(sender: Option<Seq<char>>) -> spec_fn(Seq<char>) -> bool {
    |l: Seq<char>| sender is None || l != sender->0
}

/// The labels of a sequence of deliveries.
pub open spec fn reached_labels(v: Seq<(String, String)>) -> Seq<Seq<char>> {
    v.map_values(|p: (String, String)| p.0@)
}

/// Every delivery carries the delivery script of `event` with `payload`, under some salt
/// of `salts`.
pub open spec fn scripts_fit(
    v: Seq<(String, String)>,
    function: Seq<char>,
    event: Seq<char>,
    payload: Seq<char>,
    salts: Set<Seq<char>>,
) -> bool {
    forall|j: int|
        #![trigger v[j]]
        0 <= j < v.len() ==> exists|salt: Seq<char>|
            #[trigger] salts.contains(salt) && v[j].1@ == emit_js(function, event, payload, salt)
}

/// The script that delivers an event to a window: the emit function called with the
/// event and its payload, and a salt.
pub open spec fn emit_js(
    function: Seq<char>,
    event: Seq<char>,
    payload: Seq<char>,
    salt: Seq<char>,
) -> Seq<char> {
    "window['"@ + function + "']({event: "@ + json_string(event) + ", payload: "@ + payload
        + "}, '"@ + salt + "')"@
}

/// The payload text of an optional JSON payload.
pub open spec fn payload_text(payload: Option<&str>) -> Seq<char> {
    match payload {
        Some(p) => p@,
        None => "null"@,
    }
}

/// The URL a window loads: an external URL as it is, an asset path under the app scheme.
pub open spec fn resolved_url(url: WindowUrl) -> Seq<char> {
    match url {
        WindowUrl::External(u) => u@,
        WindowUrl::App(path) => "tauri://localhost/"@ + path@,
    }
}

/// The tag that carries a content security policy.
pub open spec fn csp_meta(csp: Seq<char>) -> Seq<char> {
    "<meta http-equiv=\"Content-Security-Policy\" content=\""@ + csp + "\">"@
}

/// Whether `r` is `html` with the policy tag placed right after the first `<head>`, or in
/// front of everything when there is no `<head>`.
pub open spec fn csp_injected(html: Seq<char>, csp: Seq<char>, r: Seq<char>) -> bool {
    if exists|k: int| occurs_at(html, "<head>"@, k) {
        exists|k: int|
            occurs_at(html, "<head>"@, k) && (forall|j: int| 0 <= j < k ==> !occurs_at(html, "<head>"@, j))
                && r == html.subrange(0, k + 6) + csp_meta(csp) + html.subrange(k + 6, html.len() as int)
    } else {
        r == csp_meta(csp) + html
    }
}

/// Places a content security policy into an HTML document.
pub fn inject_csp(html: &str, csp: &str) -> (r: String)
    ensures
        csp_injected(html@, csp@, r@),
{
    proof {
        reveal_strlit("<head>");
    }
    let mut meta = String::from_str("<meta http-equiv=\"Content-Security-Policy\" content=\"");
    meta.append(csp);
    meta.append("\">");
    match find_str(html, "<head>") {
        Some(k) => {
            let n = html.unicode_len();
            let mut r = String::from_str(html.substring_char(0, k + 6));
            r.append(meta.as_str());
            r.append(html.substring_char(k + 6, n));
            proof {
                assert(occurs_at(html@, "<head>"@, k as int));
            }
            r
        },
        None => {
            meta.append(html);
            meta
        },
    }
}

/// The process-wide state of one application.
pub struct WindowManager<D> {
    windows: Vec<DetachedWindow<D>>,
    listeners: Listeners,
    salts: SaltPool,
    emit_function_name: String,
    config: Config,
    package_info: PackageInfo,
}

impl<D> WindowManager<D> {
    /// The labels of the attached windows, in the order they were attached.
    pub closed spec fn labels(&self) -> Seq<Seq<char>> {
        labels_of(self.windows@)
    }

    /// The listeners registered on the event bus.
    pub closed spec fn listeners(&self) -> Seq<crate::event::Listener> {
        self.listeners@
    }

    /// How many registrations the event bus has handed out.
    pub closed spec fn registered(&self) -> nat {
        self.listeners.next_id() as nat
    }

    /// The salts that would verify now.
    pub closed spec fn salts(&self) -> Set<Seq<char>> {
        self.salts.contents()
    }

    /// The content security policy of the configuration.
    pub closed spec fn csp(&self) -> Option<Seq<char>> {
        match self.config.csp {
            Some(c) => Some(c@),
            None => None,
        }
    }

    /// Every salt issued so far, used or not.
    pub closed spec fn issued_salts(&self) -> Set<Seq<char>> {
        self.salts.issued()
    }

    /// How many salts have been issued.
    pub closed spec fn salt_count(&self) -> nat {
        self.salts.count()
    }

    /// The name of the script function that receives events.
    pub closed spec fn emit_function(&self) -> Seq<char> {
        self.emit_function_name@
    }

    /// Labels are unique and the event bus is well formed.
    pub closed spec fn wf(&self) -> bool {
        &&& self.labels().no_duplicates()
        &&& self.listeners.wf()
        &&& self.salts.wf()
    }
}

impl<D: Dispatch> WindowManager<D> {
    /// A manager with no windows, listeners or salts.
    pub fn new(config: Config, package_info: PackageInfo, emit_function_name: String) -> (r: Self)
        ensures
            r.wf(),
            r.labels().len() == 0,
            r.listeners().len() == 0,
            r.registered() == 0,
            r.salts() == Set::<Seq<char>>::empty(),
            r.issued_salts() == Set::<Seq<char>>::empty(),
            r.salt_count() == 0,
            r.emit_function() == emit_function_name@,
    {
        let r = WindowManager {
            windows: Vec::new(),
            listeners: Listeners::new(),
            salts: SaltPool::new(),
            emit_function_name,
            config,
            package_info,
        };
        proof {
            assert(r.labels() =~= Seq::<Seq<char>>::empty());
        }
        r
    }

    /// How many salts have been issued; emitting needs this below `u64::MAX`.
    pub fn salts_issued(&self) -> (r: u64)
        ensures
            r as nat == self.salt_count(),
    {
        self.salts.issued_count()
    }

    /// How many listener registrations have been handed out; registering needs this below
    /// `u64::MAX`.
    pub fn registrations(&self) -> (r: u64)
        ensures
            r as nat == self.registered(),
    {
        self.listeners.next_id_value()
    }

    /// The application's configuration.
    pub fn config(&self) -> &Config {
        &self.config
    }

    /// The application's name and version.
    pub fn package_info(&self) -> &PackageInfo {
        &self.package_info
    }

    /// A local HTML document as windows receive it: with the configured content security
    /// policy placed into it, or as it is when none is configured.
    pub fn rewrite_html(&self, html: &str) -> (r: String)
        ensures
            match self.csp() {
                Some(c) => csp_injected(html@, c, r@),
                None => r@ == html@,
            },
    {
        match &self.config.csp {
            Some(c) => inject_csp(html, c.as_str()),
            None => String::from_str(html),
        }
    }

    /// The labels of the attached windows, in the order they were attached.
    pub fn labels_vec(&self) -> (r: Vec<String>)
        ensures
            r@.map_values(|s: String| s@) == self.labels(),
    {
        let mut r: Vec<String> = Vec::new();
        let mut i: usize = 0;
        while i < self.windows.len()
            invariant
                0 <= i <= self.windows@.len(),
                r@.map_values(|s: String| s@) == labels_of(self.windows@.take(i as int)),
            decreases self.windows@.len() - i,
        {
            let ghost before = r@;
            r.push(self.windows[i].label.clone());
            proof {
                assert(r@.map_values(|s: String| s@) =~= before.map_values(|s: String| s@).push(
                    self.windows@[i as int].label@,
                ));
                assert(labels_of(self.windows@.take(i + 1)) =~= labels_of(self.windows@.take(i as int)).push(
                    self.windows@[i as int].label@,
                ));
            }
            i = i + 1;
        }
        proof {
            assert(self.windows@.take(self.windows@.len() as int) =~= self.windows@);
        }
        r
    }

    fn position(&self, label: &String) -> (r: Option<usize>)
        ensures
            match r {
                Some(i) => i < self.windows@.len() && self.labels()[i as int] == label@,
                None => !self.labels().contains(label@),
            },
    {
        let mut i: usize = 0;
        while i < self.windows.len()
            invariant
                0 <= i <= self.windows@.len(),
                forall|j: int| 0 <= j < i ==> self.labels()[j] != label@,
            decreases self.windows@.len() - i,
        {
            if self.windows[i].label == *label {
                return Some(i);
            }
            i = i + 1;
        }
        None
    }

    /// Whether a window with this label is attached.
    pub fn has_window(&self, label: &String) -> (r: bool)
        ensures
            r == self.labels().contains(label@),
    {
        self.position(label).is_some()
    }

    /// The attached window with this label, if any.
    pub fn get_window(&self, label: &String) -> (r: Option<Window<D>>)
        ensures
            match r {
                Some(w) => self.labels().contains(label@) && w.label_spec() == label@,
                None => !self.labels().contains(label@),
            },
    {
        match self.position(label) {
            Some(i) => Some(Window::new(self.windows[i].clone())),
            None => None,
        }
    }

    /// Checks a pending window's label against `existing_labels` and resolves the URL it
    /// loads.
    pub fn prepare_window(&self, pending: PendingWindow, existing_labels: &Vec<String>) -> (r: Result<
        PendingWindow,
        Error,
    >)
        ensures
            existing_labels@.map_values(|s: String| s@).contains(pending.label@) ==> r == Err::<
                PendingWindow,
                Error,
            >(Error::DuplicateLabel(pending.label)),
            !existing_labels@.map_values(|s: String| s@).contains(pending.label@) ==> (r matches Ok(
                p,
            ) && p.label == pending.label && p.window_attributes == pending.window_attributes
                && p.webview_attributes == pending.webview_attributes
                && p.url@ == resolved_url(pending.webview_attributes.url)),
    {
        let mut i: usize = 0;
        while i < existing_labels.len()
            invariant
                0 <= i <= existing_labels@.len(),
                forall|j: int| 0 <= j < i ==> existing_labels@[j]@ != pending.label@,
            decreases existing_labels@.len() - i,
        {
            if existing_labels[i] == pending.label {
                proof {
                    assert(existing_labels@.map_values(|s: String| s@)[i as int] == pending.label@);
                }
                return Err(Error::DuplicateLabel(pending.label));
            }
            i = i + 1;
        }
        proof {
            let views = existing_labels@.map_values(|s: String| s@);
            if views.contains(pending.label@) {
                let k = choose|k: int| 0 <= k < views.len() && views[k] == pending.label@;
                assert(existing_labels@[k]@ == pending.label@);
            }
        }
        let url = match &pending.webview_attributes.url {
            WindowUrl::External(u) => u.clone(),
            WindowUrl::App(path) => {
                let mut u = String::from_str("tauri://localhost/");
                u.append(path.as_str());
                u
            },
        };
        let mut pending = pending;
        pending.url = url;
        Ok(pending)
    }

    /// Starts tracking a window the backend has built. Fails, and changes nothing, when a
    /// window with the same label is attached already.
    pub fn attach_window(&mut self, window: DetachedWindow<D>) -> (r: Result<Window<D>, Error>)
        requires
            old(self).wf(),
        ensures
            final(self).wf(),
            final(self).listeners() == old(self).listeners(),
            final(self).registered() == old(self).registered(),
            final(self).salts() == old(self).salts(),
            final(self).salt_count() == old(self).salt_count(),
            final(self).issued_salts() == old(self).issued_salts(),
            final(self).emit_function() == old(self).emit_function(),
            old(self).labels().contains(window.label@) ==> r == Err::<Window<D>, Error>(
                Error::DuplicateLabel(window.label),
            ) && final(self).labels() == old(self).labels(),
            !old(self).labels().contains(window.label@) ==> (r matches Ok(w) && w.window.label
                == window.label && final(self).labels() == old(self).labels().push(window.label@)),
    {
        if self.has_window(&window.label) {
            return Err(Error::DuplicateLabel(window.label));
        }
        let ghost before = self.windows@;
        let attached = window.clone();
        self.windows.push(window);
        proof {
            assert(labels_of(self.windows@) =~= labels_of(before).push(attached.label@));
        }
        Ok(Window::new(attached))
    }

    /// The labels that an emission from `sender` reaches: every attached window but the
    /// sender, in table order.
    pub fn recipients(&self, sender: &str) -> (r: Vec<String>)
        ensures
            r@.map_values(|s: String| s@) == self.labels().filter(not_label(sender@)),
    {
        let mut r: Vec<String> = Vec::new();
        let mut i: usize = 0;
        while i < self.windows.len()
            invariant
                0 <= i <= self.windows@.len(),
                r@.map_values(|s: String| s@) == labels_of(self.windows@.take(i as int)).filter(
                    not_label(sender@),
                ),
            decreases self.windows@.len() - i,
        {
            let ghost before = r@;
            let l = &self.windows[i].label;
            proof {
                assert(labels_of(self.windows@.take(i + 1)) =~= labels_of(self.windows@.take(i as int)).push(l@));
                labels_of(self.windows@.take(i as int)).lemma_filter_push(l@, not_label(sender@));
            }
            if !crate::text::str_eq(l.as_str(), sender) {
                r.push(l.clone());
                proof {
                    assert(r@.map_values(|s: String| s@) =~= before.map_values(|s: String| s@).push(l@));
                }
            }
            i = i + 1;
        }
        proof {
            assert(self.windows@.take(self.windows@.len() as int) =~= self.windows@);
        }
        r
    }

    /// Issues a new salt.
    pub fn generate_salt(&mut self) -> (r: String)
        requires
            old(self).wf(),
            old(self).salt_count() < u64::MAX,
        ensures
            final(self).wf(),
            !old(self).issued_salts().contains(r@),
            final(self).issued_salts() == old(self).issued_salts().insert(r@),
            final(self).salt_count() == old(self).salt_count() + 1,
            final(self).salts() == old(self).salts().insert(r@),
            final(self).labels() == old(self).labels(),
            final(self).listeners() == old(self).listeners(),
            final(self).registered() == old(self).registered(),
            final(self).emit_function() == old(self).emit_function(),
    {
        self.salts.generate_salt()
    }

    /// Whether `salt` was issued and not used yet; using it removes it.
    pub fn verify_salt(&mut self, salt: &String) -> (r: bool)
        requires
            old(self).wf(),
        ensures
            final(self).wf(),
            r == old(self).salts().contains(salt@),
            final(self).salts() == old(self).salts().remove(salt@),
            final(self).issued_salts() == old(self).issued_salts(),
            final(self).salt_count() == old(self).salt_count(),
            final(self).labels() == old(self).labels(),
            final(self).listeners() == old(self).listeners(),
            final(self).registered() == old(self).registered(),
    {
        self.salts.verify_salt(salt)
    }

    /// The delivery script of `event` with `payload` under a newly issued salt.
    pub fn emit_script(&mut self, event: &str, payload: Option<&str>) -> (r: String)
        requires
            old(self).wf(),
            old(self).salt_count() < u64::MAX,
        ensures
            final(self).salt_count() == old(self).salt_count() + 1,
            final(self).wf(),
            final(self).labels() == old(self).labels(),
            final(self).listeners() == old(self).listeners(),
            final(self).registered() == old(self).registered(),
            final(self).emit_function() == old(self).emit_function(),
            exists|salt: Seq<char>|
                !old(self).issued_salts().contains(salt) && final(self).issued_salts()
                    == old(self).issued_salts().insert(salt) && final(self).salts()
                    == old(self).salts().insert(salt) && r@ == emit_js(
                    old(self).emit_function(),
                    event@,
                    payload_text(payload),
                    salt,
                ),
    {
        let event_json = json_string_of(event);
        let ghost before = self.salts.contents();
        let ghost issued_before = self.salts.issued();
        let salt = self.salts.generate_salt();
        let mut js = String::from_str("window['");
        js.append(self.emit_function_name.as_str());
        js.append("']({event: ");
        js.append(event_json.as_str());
        js.append(", payload: ");
        match payload {
            Some(p) => js.append(p),
            None => js.append("null"),
        }
        js.append("}, '");
        js.append(salt.as_str());
        js.append("')");
        proof {
            assert(js@ == emit_js(self.emit_function_name@, event@, payload_text(payload), salt@));
            assert(self.salts.contents() == before.insert(salt@));
            assert(!old(self).issued_salts().contains(salt@) && self.issued_salts()
                == old(self).issued_salts().insert(salt@) && self.salts() == old(self).salts().insert(
                salt@,
            ) && js@ == emit_js(
                old(self).emit_function(),
                event@,
                payload_text(payload),
                salt@,
            ));
        }
        js
    }

    /// Emits `event` to every attached window that is not `sender` (to all windows when
    /// `sender` is `None`), one script per window, each under its own new salt. Returns the
    /// labels reached with the scripts they were sent, in table order. Stops at the first
    /// window whose script evaluation fails; with no window to reach it succeeds.
    pub fn emit_filter(&mut self, event: &str, payload: Option<&str>, sender: Option<&str>) -> (r:
        Result<Vec<(String, String)>, Error>)
        requires
            old(self).wf(),
            old(self).salt_count() + old(self).labels().len() < u64::MAX,
        ensures
            final(self).wf(),
            final(self).labels() == old(self).labels(),
            final(self).listeners() == old(self).listeners(),
            final(self).registered() == old(self).registered(),
            final(self).emit_function() == old(self).emit_function(),
            old(self).salts().subset_of(final(self).salts()),
            r matches Ok(reached) ==> reached_labels(reached@) == old(self).labels().filter(
                emit_pred(opt_str_view(sender)),
            ),
            r matches Ok(reached) ==> scripts_fit(
                reached@,
                old(self).emit_function(),
                event@,
                payload_text(payload),
                final(self).salts(),
            ),
            old(self).labels().filter(emit_pred(opt_str_view(sender))).len() == 0 ==> (r matches Ok(
                reached,
            ) && reached@.len() == 0),
    {
        broadcast use vstd::seq_lib::group_filter_ensures;

        let mut reached: Vec<(String, String)> = Vec::new();
        let mut i: usize = 0;
        let ghost ls = self.labels();
        while i < self.windows.len()
            invariant
                self.wf(),
                self.labels() == ls,
                ls == old(self).labels(),
                self.listeners() == old(self).listeners(),
                self.registered() == old(self).registered(),
                self.emit_function() == old(self).emit_function(),
                old(self).salts().subset_of(self.salts()),
                self.salt_count() <= old(self).salt_count() + i,
                old(self).salt_count() + ls.len() < u64::MAX,
                0 <= i <= ls.len(),
                reached_labels(reached@) == ls.take(i as int).filter(emit_pred(opt_str_view(sender))),
                scripts_fit(
                    reached@,
                    old(self).emit_function(),
                    event@,
                    payload_text(payload),
                    self.salts(),
                ),
            decreases ls.len() - i,
        {
            let ghost before = reached@;
            let ghost pred = emit_pred(opt_str_view(sender));
            let skip = match sender {
                Some(s) => crate::text::str_eq(self.windows[i].label.as_str(), s),
                None => false,
            };
            proof {
                assert(ls.take(i + 1) =~= ls.take(i as int).push(ls[i as int]));
                ls.take(i as int).lemma_filter_push(ls[i as int], pred);
                assert(!skip <==> pred(ls[i as int]));
            }
            if !skip {
                proof {
                    ls.lemma_filter_contains(pred, i as int);
                }
                let ghost salts0 = self.salts();
                assert(self.windows@.len() == ls.len());
                let script = self.emit_script(event, payload);
                let ghost new_salt = choose|salt: Seq<char>|
                    self.salts() == salts0.insert(salt) && script@ == emit_js(
                        old(self).emit_function(),
                        event@,
                        payload_text(payload),
                        salt,
                    );
                self.windows[i].dispatcher.eval_script(script.clone())?;
                reached.push((self.windows[i].label.clone(), script));
                proof {
                    assert(reached_labels(reached@) =~= reached_labels(before).push(ls[i as int]));
                    lemma_scripts_fit_push(
                        before,
                        reached@.last(),
                        old(self).emit_function(),
                        event@,
                        payload_text(payload),
                        salts0,
                        self.salts(),
                        new_salt,
                    );
                    assert(reached@ == before.push(reached@.last()));
                }
            } else {
                assert(reached@ == before);
            }
            i = i + 1;
        }
        proof {
            assert(ls.take(ls.len() as int) =~= ls);
        }
        Ok(reached)
    }

    /// Registers a persistent listener.
    pub fn listen(&mut self, event: String, window: Option<String>) -> (r: EventHandler)
        requires
            old(self).wf(),
            old(self).registered() < u64::MAX,
        ensures
            final(self).wf(),
            final(self).registered() == old(self).registered() + 1,
            final(self).listeners() == old(self).listeners().push(
                crate::event::Listener { event, window, id: r.id, once: false },
            ),
            r.id as nat == old(self).registered(),
            !crate::event::ids_of(old(self).listeners()).contains(r.id),
            final(self).labels() == old(self).labels(),
            final(self).salts() == old(self).salts(),
    {
        self.listeners.listen(event, window)
    }

    /// Registers a one-shot listener.
    pub fn once(&mut self, event: String, window: Option<String>) -> (r: EventHandler)
        requires
            old(self).wf(),
            old(self).registered() < u64::MAX,
        ensures
            final(self).wf(),
            final(self).registered() == old(self).registered() + 1,
            final(self).listeners() == old(self).listeners().push(
                crate::event::Listener { event, window, id: r.id, once: true },
            ),
            r.id as nat == old(self).registered(),
            !crate::event::ids_of(old(self).listeners()).contains(r.id),
            final(self).labels() == old(self).labels(),
            final(self).salts() == old(self).salts(),
    {
        self.listeners.once(event, window)
    }

    /// Removes a listener; returns whether it was registered.
    pub fn unlisten(&mut self, handler: EventHandler) -> (r: bool)
        requires
            old(self).wf(),
        ensures
            final(self).wf(),
            final(self).registered() == old(self).registered(),
            final(self).listeners() == old(self).listeners().filter(
                crate::event::other_than(handler.id),
            ),
            r == crate::event::ids_of(old(self).listeners()).contains(handler.id),
            final(self).labels() == old(self).labels(),
            final(self).salts() == old(self).salts(),
    {
        self.listeners.unlisten(handler)
    }

    /// Fires the listeners a trigger of `event` in scope `window` matches; returns their
    /// ids in registration order and drops the one-shot ones.
    pub fn trigger(&mut self, event: &str, window: Option<&str>) -> (r: Vec<EventHandler>)
        requires
            old(self).wf(),
        ensures
            final(self).wf(),
            final(self).registered() == old(self).registered(),
            final(self).listeners() == kept_after(old(self).listeners(), event@, opt_str_view(window)),
            r@.map_values(|h: EventHandler| h.id) == fired_by(
                old(self).listeners(),
                event@,
                opt_str_view(window),
            ),
            final(self).labels() == old(self).labels(),
            final(self).salts() == old(self).salts(),
    {
        self.listeners.trigger(event, window)
    }
}

proof fn lemma_scripts_fit_push(
    v: Seq<(String, String)>,
    next: (String, String),
    function: Seq<char>,
    event: Seq<char>,
    payload: Seq<char>,
    salts0: Set<Seq<char>>,
    salts1: Set<Seq<char>>,
    salt: Seq<char>,
)
    requires
        scripts_fit(v, function, event, payload, salts0),
        salts0.subset_of(salts1),
        salts1.contains(salt),
        next.1@ == emit_js(function, event, payload, salt),
    ensures
        scripts_fit(v.push(next), function, event, payload, salts1),
{
    let w = v.push(next);
    assert forall|j: int| #![trigger w[j]] 0 <= j < w.len() implies exists|s: Seq<char>|
        #[trigger] salts1.contains(s) && w[j].1@ == emit_js(function, event, payload, s) by {
        if j < v.len() {
            assert(w[j] == v[j]);
            let s = choose|s: Seq<char>|
                #[trigger] salts0.contains(s) && v[j].1@ == emit_js(function, event, payload, s);
            assert(salts1.contains(s));
        } else {
            assert(w[j] == next);
            assert(salts1.contains(salt));
        }
    }
}

/// An emission from no window reaches every attached window.
pub proof fn lemma_emit_from_nowhere_reaches_all(labels: Seq<Seq<char>>)
    ensures
        labels.filter(emit_pred(None)) == labels,
    decreases labels.len(),
{
    reveal(Seq::filter);
    if labels.len() > 0 {
        lemma_emit_from_nowhere_reaches_all(labels.drop_last());
        assert(labels.drop_last().push(labels.last()) =~= labels);
    }
}

/// An emission from a window reaches every other attached window and never the sender,
/// whatever order the table holds them in.
pub proof fn lemma_emit_others_reaches_all_but_sender(labels: Seq<Seq<char>>, sender: Seq<char>)
    ensures
        forall|l: Seq<char>|
            labels.filter(not_label(sender)).contains(l) <==> (labels.contains(l) && l != sender),
{
    broadcast use vstd::seq_lib::group_filter_ensures;

    assert forall|l: Seq<char>|
        labels.filter(not_label(sender)).contains(l) <==> (labels.contains(l) && l != sender) by {
        if labels.filter(not_label(sender)).contains(l) {
            labels.lemma_filter_contains_rev(not_label(sender), l);
            let k = choose|k: int|
                0 <= k < labels.filter(not_label(sender)).len() && labels.filter(
                    not_label(sender),
                )[k] == l;
            assert(not_label(sender)(labels.filter(not_label(sender))[k]));
        }
        if labels.contains(l) && l != sender {
            let k = choose|k: int| 0 <= k < labels.len() && labels[k] == l;
            assert(not_label(sender)(labels[k]));
        }
    }
}

/// The handler ids of one application are pairwise distinct, and every one of them is
/// below the number of registrations handed out, which each registration raises by one.
pub proof fn lemma_handler_ids_unique<D>(manager: WindowManager<D>)
    requires
        manager.wf(),
    ensures
        crate::event::ids_of(manager.listeners()).no_duplicates(),
        forall|i: int|
            0 <= i < manager.listeners().len() ==> (manager.listeners()[i].id as nat)
                < manager.registered(),
{
    manager.listeners.lemma_wf_facts();
}

/// The windows of one application have pairwise distinct labels.
pub proof fn lemma_labels_unique<D>(manager: WindowManager<D>)
    requires
        manager.wf(),
    ensures
        forall|i: int, j: int|
            0 <= i < manager.labels().len() && 0 <= j < manager.labels().len() && i != j
                ==> manager.labels()[i] != manager.labels()[j],
{
}

impl<D: Dispatch> Window<D> {
    /// Emits an event to this window: the delivery script of `emit_script`, under a newly
    /// issued salt, is evaluated by this window's dispatcher.
    pub fn emit(&self, manager: &mut WindowManager<D>, event: &str, payload: Option<&str>) -> (r:
        Result<(), Error>)
        requires
            old(manager).wf(),
            old(manager).salt_count() < u64::MAX,
        ensures
            final(manager).wf(),
            final(manager).labels() == old(manager).labels(),
            final(manager).listeners() == old(manager).listeners(),
            final(manager).registered() == old(manager).registered(),
            final(manager).salt_count() == old(manager).salt_count() + 1,
            exists|salt: Seq<char>|
                !old(manager).issued_salts().contains(salt) && final(manager).issued_salts()
                    == old(manager).issued_salts().insert(salt) && final(manager).salts()
                    == old(manager).salts().insert(salt),
    {
        let script = manager.emit_script(event, payload);
        self.window.dispatcher.eval_script(script)
    }

    /// Emits an event to every attached window except this one; returns the labels reached
    /// with their scripts, as `emit_filter` does.
    pub fn emit_others(&self, manager: &mut WindowManager<D>, event: &str, payload: Option<&str>) -> (r:
        Result<Vec<(String, String)>, Error>)
        requires
            old(manager).wf(),
            old(manager).salt_count() + old(manager).labels().len() < u64::MAX,
        ensures
            final(manager).wf(),
            final(manager).labels() == old(manager).labels(),
            final(manager).listeners() == old(manager).listeners(),
            final(manager).registered() == old(manager).registered(),
            old(manager).salts().subset_of(final(manager).salts()),
            r matches Ok(reached) ==> reached_labels(reached@) == old(manager).labels().filter(
                not_label(self.label_spec()),
            ),
            r matches Ok(reached) ==> scripts_fit(
                reached@,
                old(manager).emit_function(),
                event@,
                payload_text(payload),
                final(manager).salts(),
            ),
            old(manager).labels().filter(not_label(self.label_spec())).len() == 0 ==> (r matches Ok(
                reached,
            ) && reached@.len() == 0),
    {
        proof {
            assert(emit_pred(Some(self.label_spec())) =~= not_label(self.label_spec()));
        }
        manager.emit_filter(event, payload, Some(self.window.label.as_str()))
    }

    /// Listens to an event on this window.
    pub fn listen(&self, manager: &mut WindowManager<D>, event: String) -> (r: EventHandler)
        requires
            old(manager).wf(),
            old(manager).registered() < u64::MAX,
        ensures
            final(manager).wf(),
            final(manager).registered() == old(manager).registered() + 1,
            final(manager).listeners() == old(manager).listeners().push(
                crate::event::Listener {
                    event,
                    window: Some(self.window.label),
                    id: r.id,
                    once: false,
                },
            ),
            r.id as nat == old(manager).registered(),
            !crate::event::ids_of(old(manager).listeners()).contains(r.id),
            final(manager).labels() == old(manager).labels(),
    {
        manager.listen(event, Some(self.window.label.clone()))
    }

    /// Listens to an event on this window a single time.
    pub fn once(&self, manager: &mut WindowManager<D>, event: String) -> (r: EventHandler)
        requires
            old(manager).wf(),
            old(manager).registered() < u64::MAX,
        ensures
            final(manager).wf(),
            final(manager).registered() == old(manager).registered() + 1,
            final(manager).listeners() == old(manager).listeners().push(
                crate::event::Listener {
                    event,
                    window: Some(self.window.label),
                    id: r.id,
                    once: true,
                },
            ),
            r.id as nat == old(manager).registered(),
            !crate::event::ids_of(old(manager).listeners()).contains(r.id),
            final(manager).labels() == old(manager).labels(),
    {
        manager.once(event, Some(self.window.label.clone()))
    }

    /// Triggers an event on this window.
    pub fn trigger(&self, manager: &mut WindowManager<D>, event: &str) -> (r: Vec<EventHandler>)
        requires
            old(manager).wf(),
        ensures
            final(manager).wf(),
            final(manager).listeners() == kept_after(
                old(manager).listeners(),
                event@,
                Some(self.window.label@),
            ),
            r@.map_values(|h: EventHandler| h.id) == fired_by(
                old(manager).listeners(),
                event@,
                Some(self.window.label@),
            ),
            final(manager).labels() == old(manager).labels(),
    {
        manager.trigger(event, Some(self.window.label.as_str()))
    }

    /// Whether `salt` was issued by the manager and not used yet; using it removes it.
    pub fn verify_salt(&self, manager: &mut WindowManager<D>, salt: &String) -> (r: bool)
        requires
            old(manager).wf(),
        ensures
            final(manager).wf(),
            final(manager).issued_salts() == old(manager).issued_salts(),
            r == old(manager).salts().contains(salt@),
            final(manager).salts() == old(manager).salts().remove(salt@),
    {
        manager.verify_salt(salt)
    }
}

} // verus!
