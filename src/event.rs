//! The event bus: named events, optionally scoped to one window, with persistent and
//! one-shot listeners.
//!
//! The bus decides which registrations a trigger fires and drops the one-shot ones; the
//! handlers themselves are kept by the caller under the returned ids.

use crate::text::str_eq;
use vstd::prelude::*;

verus! {

/// The id of one registration, for invoking its handler and for removing it.
#[derive(Debug, Clone, Copy, PartialEq, Eq, Structural, Hash)]
pub struct EventHandler {
    pub id: u64,
}

/// One registration on the bus.
#[derive(Debug)]
pub struct Listener {
    /// The event name listened to.
    pub event: String,
    /// The window the registration is scoped to; `None` listens everywhere.
    pub window: Option<String>,
    /// The registration's id.
    pub id: u64,
    /// Whether the registration is removed after it fires once.
    pub once: bool,
}

/// The label a scope names, as a sequence of characters.
pub open spec fn scope_view(w: Option<String>) -> Option<Seq<char>> {
    match w {
        Some(s) => Some(s@),
        None => None,
    }
}

/// Whether a trigger of `event` in scope `window` fires `l`: the names agree, and the
/// trigger is unscoped, or the registration is unscoped, or the two scopes are the same window.
pub open spec fn fires(l: Listener, event: Seq<char>, window: Option<Seq<char>>) -> bool {
    &&& l.event@ == event
    &&& (window is None || scope_view(l.window) is None || scope_view(l.window) == window)
}

/// The registrations that a trigger leaves in place: all but the one-shot ones it fires.
pub open spec fn kept_after(
    ls: Seq<Listener>,
    event: Seq<char>,
    window: Option<Seq<char>>,
) -> Seq<Listener> {
    ls.filter(stays(event, window))
}

/// Whether a registration stays on the bus after a trigger.
pub open spec fn stays(event: Seq<char>, window: Option<Seq<char>>) -> spec_fn(Listener) -> bool {
    |l: Listener| !(fires(l, event, window) && l.once)
}

/// Whether a registration fires on a trigger.
pub open spec fn hit_by(event: Seq<char>, window: Option<Seq<char>>) -> spec_fn(Listener) -> bool {
    |l: Listener| fires(l, event, window)
}

/// Whether a registration has an id other than `id`.
pub open spec fn other_than(id: u64) -> spec_fn(Listener) -> bool {
    |l: Listener| l.id != id
}

/// The ids a trigger fires, in registration order.
pub open spec fn fired_by(ls: Seq<Listener>, event: Seq<char>, window: Option<Seq<char>>) -> Seq<
    u64,
> {
    ls.filter(hit_by(event, window)).map_values(|l: Listener| l.id)
}

/// The ids of a sequence of registrations.
pub open spec fn ids_of(ls: Seq<Listener>) -> Seq<u64> {
    ls.map_values(|l: Listener| l.id)
}

/// The registry of all listeners of one application.
pub struct Listeners {
    listeners: Vec<Listener>,
    next_id: u64,
}

fn clone_scope(w: &Option<String>) -> (r: Option<String>)
    ensures
        r == *w,
{
    match w {
        Some(s) => Some(s.clone()),
        None => None,
    }
}

impl View for Listeners {
    type V = Seq<Listener>;

    closed spec fn view(&self) -> Seq<Listener> {
        self.listeners@
    }
}

impl Listeners {
    /// Ids are unique, and below the next id to hand out.
    pub closed spec fn wf(&self) -> bool {
        &&& ids_of(self.listeners@).no_duplicates()
        &&& forall|i: int| 0 <= i < self.listeners@.len() ==> self.listeners@[i].id < self.next_id
    }

    /// The id the next registration gets.
    pub closed spec fn next_id(&self) -> u64 {
        self.next_id
    }

    /// What well-formedness gives: unique ids, all below the next id.
    pub proof fn lemma_wf_facts(&self)
        requires
            self.wf(),
        ensures
            ids_of(self@).no_duplicates(),
            forall|i: int| 0 <= i < self@.len() ==> self@[i].id < self.next_id(),
    {
    }

    /// The id the next registration gets.
    pub fn next_id_value(&self) -> (r: u64)
        ensures
            r == self.next_id(),
    {
        self.next_id
    }

    /// A registry with no listeners.
    pub fn new() -> (r: Listeners)
        ensures
            r.wf(),
            r@.len() == 0,
            r.next_id() == 0,
    {
        Listeners { listeners: Vec::new(), next_id: 0 }
    }

    fn register(&mut self, event: String, window: Option<String>, once: bool) -> (r: EventHandler)
        requires
            old(self).wf(),
            old(self).next_id() < u64::MAX,
        ensures
            final(self).wf(),
            r.id == old(self).next_id(),
            final(self).next_id() == old(self).next_id() + 1,
            final(self)@ == old(self)@.push(Listener { event, window, id: r.id, once }),
            !ids_of(old(self)@).contains(r.id),
    {
        let id = self.next_id;
        let ghost old_ls = self.listeners@;
        self.listeners.push(Listener { event, window, id, once });
        self.next_id = id + 1;
        proof {
            assert(ids_of(self.listeners@) =~= ids_of(old_ls).push(id));
            assert(!ids_of(old_ls).contains(id)) by {
                if ids_of(old_ls).contains(id) {
                    let k = choose|k: int| 0 <= k < ids_of(old_ls).len() && ids_of(old_ls)[k] == id;
                    assert(old_ls[k].id < id);
                }
            }
        }
        EventHandler { id }
    }

    /// Registers a handler that fires on every matching trigger until it is removed.
    pub fn listen(&mut self, event: String, window: Option<String>) -> (r: EventHandler)
        requires
            old(self).wf(),
            old(self).next_id() < u64::MAX,
        ensures
            final(self).wf(),
            r.id == old(self).next_id(),
            final(self).next_id() == old(self).next_id() + 1,
            final(self)@ == old(self)@.push(Listener { event, window, id: r.id, once: false }),
            !ids_of(old(self)@).contains(r.id),
    {
        self.register(event, window, false)
    }

    /// Registers a handler that fires on the first matching trigger only.
    pub fn once(&mut self, event: String, window: Option<String>) -> (r: EventHandler)
        requires
            old(self).wf(),
            old(self).next_id() < u64::MAX,
        ensures
            final(self).wf(),
            r.id == old(self).next_id(),
            final(self).next_id() == old(self).next_id() + 1,
            final(self)@ == old(self)@.push(Listener { event, window, id: r.id, once: true }),
            !ids_of(old(self)@).contains(r.id),
    {
        self.register(event, window, true)
    }

    /// Removes the registration with id `handler`; returns whether there was one.
    pub fn unlisten(&mut self, handler: EventHandler) -> (r: bool)
        requires
            old(self).wf(),
        ensures
            final(self).wf(),
            final(self).next_id() == old(self).next_id(),
            final(self)@ == old(self)@.filter(other_than(handler.id)),
            r == ids_of(old(self)@).contains(handler.id),
    {
        let ghost old_ls = self.listeners@;
        let mut kept: Vec<Listener> = Vec::new();
        let mut found = false;
        let mut i: usize = 0;
        while i < self.listeners.len()
            invariant
                self.listeners@ == old_ls,
                self.wf(),
                0 <= i <= old_ls.len(),
                kept@ == old_ls.take(i as int).filter(other_than(handler.id)),
                found == ids_of(old_ls.take(i as int)).contains(handler.id),
            decreases old_ls.len() - i,
        {
            let l = &self.listeners[i];
            proof {
                assert(old_ls.take(i + 1) =~= old_ls.take(i as int).push(old_ls[i as int]));
                old_ls.take(i as int).lemma_filter_push(old_ls[i as int], other_than(handler.id));
                assert(ids_of(old_ls.take(i + 1)) =~= ids_of(old_ls.take(i as int)).push(l.id));
            }
            if l.id != handler.id {
                assert(other_than(handler.id)(old_ls[i as int]));
                kept.push(Listener { event: l.event.clone(), window: clone_scope(&l.window), id: l.id, once: l.once });
            } else {
                assert(ids_of(old_ls.take(i + 1))[i as int] == handler.id);
                found = true;
            }
            proof {
                let s0 = ids_of(old_ls.take(i as int));
                let s1 = s0.push(old_ls[i as int].id);
                if s1.contains(handler.id) && old_ls[i as int].id != handler.id {
                    let k = choose|k: int| 0 <= k < s1.len() && s1[k] == handler.id;
                    assert(s0[k] == handler.id);
                }
                if s0.contains(handler.id) {
                    let k = choose|k: int| 0 <= k < s0.len() && s0[k] == handler.id;
                    assert(s1[k] == handler.id);
                }
            }
            i = i + 1;
        }
        proof {
            assert(old_ls.take(old_ls.len() as int) =~= old_ls);
            lemma_filter_keeps_wf(old_ls, other_than(handler.id), self.next_id);
        }
        self.listeners = kept;
        found
    }

    /// Fires every registration that a trigger of `event` in scope `window` matches and
    /// drops the one-shot ones among them; returns the fired ids in registration order.
    pub fn trigger(&mut self, event: &str, window: Option<&str>) -> (r: Vec<EventHandler>)
        requires
            old(self).wf(),
        ensures
            final(self).wf(),
            final(self).next_id() == old(self).next_id(),
            final(self)@ == kept_after(old(self)@, event@, opt_str_view(window)),
            r@.map_values(|h: EventHandler| h.id) == fired_by(old(self)@, event@, opt_str_view(window)),
    {
        let ghost old_ls = self.listeners@;
        let mut kept: Vec<Listener> = Vec::new();
        let mut fired: Vec<EventHandler> = Vec::new();
        let mut i: usize = 0;
        while i < self.listeners.len()
            invariant
                self.listeners@ == old_ls,
                self.wf(),
                0 <= i <= old_ls.len(),
                kept@ == old_ls.take(i as int).filter(stays(event@, opt_str_view(window))),
                fired@.map_values(|h: EventHandler| h.id) == old_ls.take(i as int).filter(hit_by(event@, opt_str_view(window))).map_values(
                    |l: Listener| l.id,
                ),
            decreases old_ls.len() - i,
        {
            let l = &self.listeners[i];
            let m = listener_fires(l, event, window);
            proof {
                assert(old_ls.take(i + 1) =~= old_ls.take(i as int).push(old_ls[i as int]));
                old_ls.take(i as int).lemma_filter_push(old_ls[i as int], stays(event@, opt_str_view(window)));
                old_ls.take(i as int).lemma_filter_push(old_ls[i as int], hit_by(event@, opt_str_view(window)));
            }
            if m {
                let ghost before = fired@;
                fired.push(EventHandler { id: l.id });
                proof {
                    assert(fired@.map_values(|h: EventHandler| h.id) =~= before.map_values(
                        |h: EventHandler| h.id,
                    ).push(l.id));
                    assert(old_ls.take(i as int).filter(hit_by(event@, opt_str_view(window))).push(old_ls[i as int]).map_values(
                        |l: Listener| l.id,
                    ) =~= old_ls.take(i as int).filter(hit_by(event@, opt_str_view(window))).map_values(|l: Listener| l.id).push(l.id));
                }
            }
            if !(m && l.once) {
                kept.push(Listener { event: l.event.clone(), window: clone_scope(&l.window), id: l.id, once: l.once });
            }
            i = i + 1;
        }
        proof {
            assert(old_ls.take(old_ls.len() as int) =~= old_ls);
            lemma_filter_keeps_wf(old_ls, stays(event@, opt_str_view(window)), self.next_id);
        }
        self.listeners = kept;
        fired
    }
}

/// The label a borrowed scope names.
pub open spec fn opt_str_view(w: Option<&str>) -> Option<Seq<char>> {
    match w {
        Some(s) => Some(s@),
        None => None,
    }
}

fn listener_fires(l: &Listener, event: &str, window: Option<&str>) -> (r: bool)
    ensures
        r == fires(*l, event@, opt_str_view(window)),
{
    if !str_eq(l.event.as_str(), event) {
        return false;
    }
    match (window, &l.window) {
        (Some(w), Some(own)) => str_eq(own.as_str(), w),
        _ => true,
    }
}

/// A one-shot registration fires at most once: when a trigger fires it, no later
/// trigger of any event in any scope fires its id again.
pub proof fn lemma_once_fires_at_most_once(
    bus: Listeners,
    l: Listener,
    event1: Seq<char>,
    window1: Option<Seq<char>>,
    event2: Seq<char>,
    window2: Option<Seq<char>>,
)
    requires
        bus.wf(),
        bus@.contains(l),
        l.once,
    ensures
        fired_by(bus@, event1, window1).contains(l.id) ==> !fired_by(
            kept_after(bus@, event1, window1),
            event2,
            window2,
        ).contains(l.id),
{
    broadcast use vstd::seq_lib::group_filter_ensures;

    let ls = bus@;
    let keep = stays(event1, window1);
    let kept = ls.filter(keep);
    if fired_by(ls, event1, window1).contains(l.id) {
        lemma_fired_id_fires(ls, l, event1, window1);
        if fired_by(kept, event2, window2).contains(l.id) {
            let hits = kept.filter(hit_by(event2, window2));
            let ids = hits.map_values(|x: Listener| x.id);
            let k = choose|k: int| 0 <= k < ids.len() && ids[k] == l.id;
            let x = hits[k];
            assert(hits.contains(x));
            kept.lemma_filter_contains_rev(hit_by(event2, window2), x);
            let j = choose|j: int| 0 <= j < kept.len() && kept[j] == x;
            assert(keep(kept[j]));
            ls.lemma_filter_contains_rev(keep, x);
            let a = choose|a: int| 0 <= a < ls.len() && ls[a] == x;
            let b = choose|b: int| 0 <= b < ls.len() && ls[b] == l;
            assert(ids_of(ls)[a] == ids_of(ls)[b]);
        }
    }
}

/// A persistent registration fires on every trigger that matches it and stays on the bus
/// for the next one.
pub proof fn lemma_listen_fires_every_time(
    bus: Listeners,
    l: Listener,
    event: Seq<char>,
    window: Option<Seq<char>>,
)
    requires
        bus.wf(),
        bus@.contains(l),
        !l.once,
        fires(l, event, window),
    ensures
        fired_by(bus@, event, window).contains(l.id),
        kept_after(bus@, event, window).contains(l),
{
    broadcast use vstd::seq_lib::group_filter_ensures;

    let ls = bus@;
    let i = choose|i: int| 0 <= i < ls.len() && ls[i] == l;
    assert(hit_by(event, window)(ls[i]));
    assert(stays(event, window)(ls[i]));
    let hits = ls.filter(hit_by(event, window));
    assert(hits.contains(l));
    let k = choose|k: int| 0 <= k < hits.len() && hits[k] == l;
    assert(hits.map_values(|x: Listener| x.id)[k] == l.id);
}

/// If a trigger fires the id of a registration, the trigger matches that registration.
proof fn lemma_fired_id_fires(ls: Seq<Listener>, l: Listener, event: Seq<char>, window: Option<Seq<char>>)
    requires
        ids_of(ls).no_duplicates(),
        ls.contains(l),
        fired_by(ls, event, window).contains(l.id),
    ensures
        fires(l, event, window),
{
    broadcast use vstd::seq_lib::group_filter_ensures;

    let hits = ls.filter(hit_by(event, window));
    let ids = hits.map_values(|x: Listener| x.id);
            let k = choose|k: int| 0 <= k < ids.len() && ids[k] == l.id;
    let x = hits[k];
    assert(hits.contains(x));
    ls.lemma_filter_contains_rev(hit_by(event, window), x);
    let a = choose|a: int| 0 <= a < ls.len() && ls[a] == x;
    let b = choose|b: int| 0 <= b < ls.len() && ls[b] == l;
    assert(ids_of(ls)[a] == ids_of(ls)[b]);
}

proof fn lemma_filter_keeps_wf(ls: Seq<Listener>, pred: spec_fn(Listener) -> bool, next: u64)
    requires
        ids_of(ls).no_duplicates(),
        forall|i: int| 0 <= i < ls.len() ==> ls[i].id < next,
    ensures
        ids_of(ls.filter(pred)).no_duplicates(),
        forall|i: int| 0 <= i < ls.filter(pred).len() ==> ls.filter(pred)[i].id < next,
    decreases ls.len(),
{
    reveal(Seq::filter);
    if ls.len() > 0 {
        let init = ls.drop_last();
        assert(ids_of(ls) =~= ids_of(init).push(ls.last().id));
        assert forall|i: int, j: int|
            0 <= i < ids_of(init).len() && 0 <= j < ids_of(init).len() && i != j implies ids_of(
                init,
            )[i] != ids_of(init)[j] by {
            assert(ids_of(ls)[i] == ids_of(init)[i] && ids_of(ls)[j] == ids_of(init)[j]);
        }
        lemma_filter_keeps_wf(init, pred, next);
        let f = init.filter(pred);
        broadcast use vstd::seq_lib::group_filter_ensures;
        if pred(ls.last()) {
            assert(ids_of(f.push(ls.last())) =~= ids_of(f).push(ls.last().id));
            assert forall|i: int| 0 <= i < ids_of(f).len() implies ids_of(f)[i] != ls.last().id by {
                let x = f[i];
                assert(f.contains(x));
                init.lemma_filter_contains_rev(pred, x);
                let k = choose|k: int| 0 <= k < init.len() && init[k] == x;
                assert(ids_of(ls)[k] == x.id);
                assert(ids_of(ls)[ls.len() - 1] == ls.last().id);
            }
        }
    }
}

} // verus!
