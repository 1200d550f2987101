//! The priority scheduler: a registry of active listeners and the dispatch
//! pass that feeds one event to them, tier by tier.
//!
//! A dispatch pass invokes every live listener of a tier, applies the
//! interception each handler requests, and checks the flag between tiers:
//! once the event is intercepted no lower tier is dispatched.  A handler's
//! `false` continuation retires only that listener.  After the pass, closed
//! and retired listeners are evicted.  The pass returns its invocation log,
//! and the contracts pin down the log's structure and the registry's new
//! state for every possible set of handler responses.

use vstd::prelude::*;

use crate::event::Event;
use crate::listener::Handler;
use crate::listener::Listener;

verus! {

/// One handler invocation as recorded by a dispatch pass: which listener
/// ran, at which tier, and what its flow said.
#[derive(Clone, Copy, PartialEq, Eq, Structural, Debug)]
pub struct Invocation {
    pub id: u64,
    pub priority: crate::listener::Priority,
    pub keep_listening: bool,
    pub intercept: bool,
}

/// The invocation concerns a listener that was live in the registry `ls`.
pub open spec fn live_entry<H>(ls: Seq<Listener<H>>, inv: Invocation) -> bool {
    exists|j: int|
        0 <= j < ls.len() && (#[trigger] ls[j]).id == inv.id && !ls[j].closed && ls[j].priority
            == inv.priority
}

/// Some invocation in `log` ran the listener with identifier `id`.
pub open spec fn invoked(log: Seq<Invocation>, id: u64) -> bool {
    exists|k: int| 0 <= k < log.len() && (#[trigger] log[k]).id == id
}

/// Structure every dispatch log has, whatever the handlers answered: only
/// live listeners ran, each at most once, tiers in order from `Top` down,
/// and nothing ran below the tier of an interception.
pub open spec fn well_formed_log<H>(ls: Seq<Listener<H>>, log: Seq<Invocation>) -> bool {
    &&& forall|k: int| 0 <= k < log.len() ==> live_entry(ls, #[trigger] log[k])
    &&& forall|k1: int, k2: int|
        0 <= k1 < k2 < log.len() ==> (#[trigger] log[k1]).id != (#[trigger] log[k2]).id
    &&& forall|k1: int, k2: int|
        0 <= k1 <= k2 < log.len() ==> (#[trigger] log[k1]).priority.rank() <= (#[trigger] log[k2]).priority.rank()
    &&& forall|k: int, m: int|
        0 <= k < log.len() && 0 <= m < log.len() && (#[trigger] log[k]).intercept ==> (#[trigger] log[m]).priority.rank() <= log[k].priority.rank()
}

/// Whether a listener stays registered after a pass with log `log`: it was
/// not closed, and no invocation of it withdrew its continuation.
pub open spec fn retained<H>(log: Seq<Invocation>, l: Listener<H>) -> bool {
    !l.closed && forall|k: int|
        0 <= k < log.len() && (#[trigger] log[k]).id == l.id ==> log[k].keep_listening
}

/// The registry left behind by a pass: the retained listeners, in order.
pub open spec fn retained_in<H>(log: Seq<Invocation>, ls: Seq<Listener<H>>) -> Seq<Listener<H>> {
    ls.filter(|l: Listener<H>| retained(log, l))
}

/// The registry of active listeners, dispatching each incoming event in
/// priority order.  An explicit context handle; the host keeps one per
/// process.
pub struct Worker<H> {
    listeners: Vec<Listener<H>>,
    next_id: u64,
}

impl<H> Worker<H> {
    /// The registered listeners, in registration order.
    pub closed spec fn spec_listeners(&self) -> Seq<Listener<H>> {
        self.listeners@
    }

    /// The identifier the next registration will get.
    pub closed spec fn spec_next_id(&self) -> u64 {
        self.next_id
    }

    /// Identifiers are unique and below the next one to be handed out.
    pub open spec fn wf(&self) -> bool {
        &&& forall|i: int, j: int|
            0 <= i < j < self.spec_listeners().len() ==> (#[trigger] self.spec_listeners()[i]).id
                != (#[trigger] self.spec_listeners()[j]).id
        &&& forall|i: int|
            0 <= i < self.spec_listeners().len() ==> (#[trigger] self.spec_listeners()[i]).id
                < self.spec_next_id()
    }

    pub fn new() -> (w: Self)
        ensures
            w.wf(),
            w.spec_listeners() == Seq::<Listener<H>>::empty(),
            w.spec_next_id() == 0,
    {
        Worker { listeners: Vec::new(), next_id: 0 }
    }

    /// Whether the registry can still hand out a fresh identifier.
    pub fn can_register(&self) -> (r: bool)
        ensures
            r == (self.spec_next_id() < u64::MAX),
    {
        self.next_id < u64::MAX
    }

    /// Hands a listener to the registry.  The identifier field of the
    /// argument is ignored; the registry assigns the next free one and
    /// returns it.
    pub fn register(&mut self, listener: Listener<H>) -> (id: u64)
        requires
            old(self).wf(),
            old(self).spec_next_id() < u64::MAX,
        ensures
            final(self).wf(),
            id == old(self).spec_next_id(),
            final(self).spec_next_id() == old(self).spec_next_id() + 1,
            final(self).spec_listeners() == old(self).spec_listeners().push(
                Listener { id, ..listener },
            ),
    {
        let id = self.next_id;
        self.next_id = self.next_id + 1;
        let Listener { name, concurrent, handler, closed, priority, id: _ } = listener;
        self.listeners.push(Listener { name, concurrent, handler, closed, priority, id });
        id
    }

    /// Marks the listener with the given identifier as closed.  Invoked when
    /// the listener's guard is closed; the listener is skipped by every
    /// later pass and evicted by the next one.
    pub fn close_id(&mut self, id: u64)
        requires
            old(self).wf(),
        ensures
            final(self).wf(),
            final(self).spec_next_id() == old(self).spec_next_id(),
            final(self).spec_listeners().len() == old(self).spec_listeners().len(),
            forall|i: int|
                0 <= i < old(self).spec_listeners().len() ==> #[trigger] final(self).spec_listeners()[i] == (if old(self).spec_listeners()[i].id == id {
                    Listener { closed: true, ..old(self).spec_listeners()[i] }
                } else {
                    old(self).spec_listeners()[i]
                }),
    {
        let ghost ls = self.listeners@;
        let mut i: usize = 0;
        while i < self.listeners.len()
            invariant
                0 <= i as int <= ls.len(),
                self.listeners@.len() == ls.len(),
                self.next_id == old(self).spec_next_id(),
                ls == old(self).spec_listeners(),
                forall|j: int|
                    0 <= j < i as int ==> #[trigger] self.listeners@[j] == (if ls[j].id == id {
                        Listener { closed: true, ..ls[j] }
                    } else {
                        ls[j]
                    }),
                forall|j: int| i as int <= j < ls.len() ==> #[trigger] self.listeners@[j] == ls[j],
            decreases ls.len() - i as int,
        {
            if self.listeners[i].id == id {
                let l = &mut self.listeners[i];
                l.closed = true;
            }
            i += 1;
        }
    }
}

impl<H: Handler> Worker<H> {
    /// One full dispatch pass for `e`.
    ///
    /// Tiers run from `Top` to `Base`; within a tier every live listener's
    /// handler runs once, and an interception it requests is applied at
    /// once.  Between tiers the flag is checked: if set, the remaining tiers
    /// are skipped.  Afterwards the closed and retired listeners are
    /// evicted.  The returned log records every invocation in order; the
    /// clauses below tie the final interception flag, the log and the new
    /// registry exactly to the handlers' answers.
    pub fn dispatch(&mut self, e: &mut Event) -> (log: Vec<Invocation>)
        requires
            old(self).wf(),
        ensures
            final(self).wf(),
            final(self).spec_next_id() == old(self).spec_next_id(),
            Event::same_payload(*old(e), *final(e)),
            final(e).spec_intercepted() == (old(e).spec_intercepted() || exists|k: int|
                0 <= k < log@.len() && (#[trigger] log@[k]).intercept),
            well_formed_log(old(self).spec_listeners(), log@),
            !final(e).spec_intercepted() ==> forall|j: int|
                0 <= j < old(self).spec_listeners().len() && !(#[trigger] old(self).spec_listeners()[j]).closed ==> invoked(log@, old(self).spec_listeners()[j].id),
            forall|j: int|
                0 <= j < old(self).spec_listeners().len() && !(#[trigger] old(self).spec_listeners()[j]).closed && !invoked(
                    log@,
                    old(self).spec_listeners()[j].id,
                ) ==> final(e).spec_intercepted() && (forall|k: int|
                    0 <= k < log@.len() ==> (#[trigger] log@[k]).priority.rank() < old(self).spec_listeners()[j].priority.rank()),
            final(self).spec_listeners() == retained_in(log@, old(self).spec_listeners()),
    {
        let ghost ls = self.listeners@;
        let mut log: Vec<Invocation> = Vec::new();
        let mut tier: u8 = 0;
        let mut halted = false;
        while tier < 5 && !halted
            invariant
                old(self).wf(),
                self.listeners@ == ls,
                ls == old(self).spec_listeners(),
                self.next_id == old(self).spec_next_id(),
                0 <= tier as int <= 5,
                Event::same_payload(*old(e), *e),
                e.spec_intercepted() == (old(e).spec_intercepted() || exists|k: int|
                    0 <= k < log@.len() && (#[trigger] log@[k]).intercept),
                halted ==> e.spec_intercepted(),
                !halted ==> forall|k: int| 0 <= k < log@.len() ==> !(#[trigger] log@[k]).intercept,
                forall|k: int| 0 <= k < log@.len() ==> live_entry(ls, #[trigger] log@[k]),
                forall|k1: int, k2: int|
                    0 <= k1 < k2 < log@.len() ==> (#[trigger] log@[k1]).id != (
                    #[trigger] log@[k2]).id,
                forall|k1: int, k2: int|
                    0 <= k1 <= k2 < log@.len() ==> (#[trigger] log@[k1]).priority.rank() <= (
                    #[trigger] log@[k2]).priority.rank(),
                forall|k: int|
                    0 <= k < log@.len() ==> (#[trigger] log@[k]).priority.rank() < tier as int,
                forall|k: int, m: int|
                    0 <= k < log@.len() && 0 <= m < log@.len() && (#[trigger] log@[k]).intercept
                        ==> (#[trigger] log@[m]).priority.rank() <= log@[k].priority.rank(),
                forall|j: int|
                    0 <= j < ls.len() && !(#[trigger] ls[j]).closed && ls[j].priority.rank()
                        < tier as int ==> invoked(log@, ls[j].id),
            decreases 5 - tier as int,
        {
            let ghost tier_start_log = log@;
            let mut i: usize = 0;
            while i < self.listeners.len()
                invariant
                    old(self).wf(),
                    self.listeners@ == ls,
                    ls == old(self).spec_listeners(),
                    self.next_id == old(self).spec_next_id(),
                    0 <= i as int <= ls.len(),
                    0 <= tier as int,
                    (tier as int) < 5,
                    Event::same_payload(*old(e), *e),
                    e.spec_intercepted() == (old(e).spec_intercepted() || exists|k: int|
                        0 <= k < log@.len() && (#[trigger] log@[k]).intercept),
                    forall|k: int|
                        0 <= k < log@.len() ==> exists|j: int|
                            0 <= j < ls.len() && (#[trigger] ls[j]).id == (#[trigger] log@[k]).id
                                && !ls[j].closed && ls[j].priority == log@[k].priority && (
                            ls[j].priority.rank() < tier as int || j < i as int),
                    forall|k1: int, k2: int|
                        0 <= k1 < k2 < log@.len() ==> (#[trigger] log@[k1]).id != (
                        #[trigger] log@[k2]).id,
                    forall|k1: int, k2: int|
                        0 <= k1 <= k2 < log@.len() ==> (#[trigger] log@[k1]).priority.rank() <= (
                        #[trigger] log@[k2]).priority.rank(),
                    forall|k: int|
                        0 <= k < log@.len() ==> (#[trigger] log@[k]).priority.rank() <= tier as int,
                    forall|k: int|
                        0 <= k < log@.len() && (#[trigger] log@[k]).intercept
                            ==> log@[k].priority.rank() == tier as int,
                    forall|j: int|
                        0 <= j < ls.len() && !(#[trigger] ls[j]).closed && ls[j].priority.rank()
                            < tier as int ==> invoked(log@, ls[j].id),
                    forall|j: int|
                        0 <= j < i as int && !(#[trigger] ls[j]).closed && ls[j].priority.rank()
                            == tier as int ==> invoked(log@, ls[j].id),
                decreases ls.len() - i as int,
            {
                if self.listeners[i].priority.index() == tier && !self.listeners[i].closed {
                    let flow = self.listeners[i].handler.invoke(e);
                    if flow.intercept {
                        e.intercept();
                    }
                    let entry = Invocation {
                        id: self.listeners[i].id,
                        priority: self.listeners[i].priority,
                        keep_listening: flow.keep_listening,
                        intercept: flow.intercept,
                    };
                    proof {
                        assert forall|k: int| 0 <= k < log@.len() implies (#[trigger] log@[k]).id
                            != ls[i as int].id by {
                            if log@[k].id == ls[i as int].id {
                                let j = choose|j: int|
                                    0 <= j < ls.len() && (#[trigger] ls[j]).id == log@[k].id
                                        && !ls[j].closed && ls[j].priority == log@[k].priority && (
                                    ls[j].priority.rank() < tier as int || j < i as int);
                                assert(ls[j].id == ls[i as int].id);
                                assert(j == i as int);
                            }
                        }
                    }
                    let ghost pre_log = log@;
                    log.push(entry);
                    proof {
                        lemma_log_push(pre_log, entry);
                        assert(log@ == pre_log.push(entry));
                        assert((#[trigger] log@[log@.len() - 1]) == entry);
                    }
                }
                i += 1;
            }
            tier = tier + 1;
            if e.is_intercepted() {
                halted = true;
            }
        }
        proof {
            assert forall|p: crate::listener::Priority| p.rank() < 5 by {}
        }
        self.evict(&log);
        log
    }

    /// Removes from the registry every listener that the pass `log` closed
    /// or that was already closed.
    fn evict(&mut self, log: &Vec<Invocation>)
        requires
            old(self).wf(),
        ensures
            final(self).wf(),
            final(self).spec_next_id() == old(self).spec_next_id(),
            final(self).spec_listeners() == retained_in(log@, old(self).spec_listeners()),
    {
        let ghost ls = old(self).spec_listeners();
        let ghost p = |l: Listener<H>| retained(log@, l);
        let mut i: usize = 0;
        let ghost j: int = 0;
        proof {
            assert(ls.subrange(0, 0).filter(p) =~= Seq::<Listener<H>>::empty());
            assert(self.listeners@ =~= ls.subrange(0, 0).filter(p) + ls.subrange(
                0,
                ls.len() as int,
            ));
        }
        while i < self.listeners.len()
            invariant
                0 <= j <= ls.len(),
                i as int == ls.subrange(0, j).filter(p).len(),
                self.listeners@ == ls.subrange(0, j).filter(p) + ls.subrange(j, ls.len() as int),
                self.next_id == old(self).spec_next_id(),
                ls == old(self).spec_listeners(),
                p == (|l: Listener<H>| retained(log@, l)),
            decreases ls.len() - j,
        {
            let ghost prefix = ls.subrange(0, j).filter(p);
            assert(self.listeners@[i as int] == ls[j]);
            let keep = !self.listeners[i].closed && !logged_stop(log, self.listeners[i].id);
            proof {
                assert(keep == p(ls[j]));
                assert(ls.subrange(0, j + 1).drop_last() =~= ls.subrange(0, j));
                assert(ls.subrange(0, j + 1).last() == ls[j]);
                reveal(Seq::filter);
                assert(ls.subrange(0, j + 1).filter(p) == if p(ls[j]) {
                    prefix.push(ls[j])
                } else {
                    prefix
                });
            }
            if keep {
                i += 1;
                proof {
                    j = j + 1;
                    assert(self.listeners@ =~= ls.subrange(0, j).filter(p) + ls.subrange(
                        j,
                        ls.len() as int,
                    ));
                }
            } else {
                self.listeners.remove(i);
                proof {
                    j = j + 1;
                    assert(self.listeners@ =~= ls.subrange(0, j).filter(p) + ls.subrange(
                        j,
                        ls.len() as int,
                    ));
                }
            }
        }
        proof {
            assert(ls.subrange(0, ls.len() as int) =~= ls);
            assert(ls.subrange(j, ls.len() as int) =~= Seq::<Listener<H>>::empty());
            assert(self.listeners@ =~= ls.filter(p));
            assert(self.listeners@ =~= retained_in(log@, ls));
            lemma_filter_keeps_wf(ls, p, old(self).spec_next_id());
        }
    }
}

/// Scans a pass log for an invocation of `id` that withdrew its
/// continuation.
fn logged_stop(log: &Vec<Invocation>, id: u64) -> (r: bool)
    ensures
        r == exists|k: int|
            0 <= k < log@.len() && (#[trigger] log@[k]).id == id && !log@[k].keep_listening,
{
    let mut k: usize = 0;
    while k < log.len()
        invariant
            0 <= k as int <= log@.len(),
            forall|m: int|
                0 <= m < k as int ==> !((#[trigger] log@[m]).id == id && !log@[m].keep_listening),
        decreases log@.len() - k as int,
    {
        if log[k].id == id && !log[k].keep_listening {
            return true;
        }
        k += 1;
    }
    false
}

/// How one appended invocation changes what a log reports: everything
/// already invoked stays invoked, the new entry's listener is invoked, and
/// the log carries an interception exactly if it did before or the new
/// entry intercepts.
proof fn lemma_log_push(log: Seq<Invocation>, entry: Invocation)
    ensures
        forall|id: u64| #[trigger] invoked(log, id) ==> invoked(log.push(entry), id),
        invoked(log.push(entry), entry.id),
        (exists|k: int| 0 <= k < log.push(entry).len() && (#[trigger] log.push(entry)[k]).intercept)
            == ((exists|k: int| 0 <= k < log.len() && (#[trigger] log[k]).intercept)
            || entry.intercept),
{
    let l2 = log.push(entry);
    assert(l2[l2.len() - 1] == entry);
    assert forall|id: u64| #[trigger] invoked(log, id) implies invoked(l2, id) by {
        let k = choose|k: int| 0 <= k < log.len() && (#[trigger] log[k]).id == id;
        assert((#[trigger] l2[k]).id == id);
    }
    if exists|k: int| 0 <= k < log.len() && (#[trigger] log[k]).intercept {
        let k = choose|k: int| 0 <= k < log.len() && (#[trigger] log[k]).intercept;
        assert((#[trigger] l2[k]).intercept);
    } else if !entry.intercept {
        assert forall|k: int| 0 <= k < l2.len() implies !(#[trigger] l2[k]).intercept by {
            if k < log.len() {
                assert(l2[k] == log[k]);
            } else {
                assert(l2[k] == entry);
            }
        }
    }
}

/// Every element of a filtered sequence occurs in the sequence it was
/// selected from.
proof fn lemma_filter_member<A>(s: Seq<A>, p: spec_fn(A) -> bool, i: int)
    requires
        0 <= i < s.filter(p).len(),
    ensures
        exists|m: int| 0 <= m < s.len() && #[trigger] s[m] == s.filter(p)[i],
    decreases s.len(),
{
    reveal(Seq::filter);
    if s.len() > 0 {
        let prefix = s.drop_last();
        if i < prefix.filter(p).len() {
            lemma_filter_member(prefix, p, i);
            let m = choose|m: int| 0 <= m < prefix.len() && #[trigger] prefix[m] == prefix.filter(
                p,
            )[i];
            assert(s[m] == s.filter(p)[i]);
        } else {
            assert(s[s.len() - 1] == s.filter(p)[i]);
        }
    }
}

/// A subsequence selected by `filter` keeps identifiers unique and bounded.
proof fn lemma_filter_keeps_wf<H>(
    ls: Seq<Listener<H>>,
    p: spec_fn(Listener<H>) -> bool,
    bound: u64,
)
    requires
        forall|i: int, j: int|
            0 <= i < j < ls.len() ==> (#[trigger] ls[i]).id != (#[trigger] ls[j]).id,
        forall|i: int| 0 <= i < ls.len() ==> (#[trigger] ls[i]).id < bound,
    ensures
        forall|i: int, j: int|
            0 <= i < j < ls.filter(p).len() ==> (#[trigger] ls.filter(p)[i]).id != (
            #[trigger] ls.filter(p)[j]).id,
        forall|i: int| 0 <= i < ls.filter(p).len() ==> (#[trigger] ls.filter(p)[i]).id < bound,
    decreases ls.len(),
{
    reveal(Seq::filter);
    if ls.len() > 0 {
        let prefix = ls.drop_last();
        assert forall|i: int| 0 <= i < prefix.len() implies #[trigger] prefix[i] == ls[i] by {}
        lemma_filter_keeps_wf(prefix, p, bound);
        let fp = prefix.filter(p);
        assert forall|i: int| 0 <= i < fp.len() implies (#[trigger] fp[i]).id != ls[ls.len()
            - 1].id && fp[i].id < bound by {
            lemma_filter_member(prefix, p, i);
            let m = choose|m: int| 0 <= m < prefix.len() && #[trigger] prefix[m] == fp[i];
            assert(ls[m].id != ls[ls.len() - 1].id);
        }
        if p(ls.last()) {
            assert(ls.filter(p) == fp.push(ls.last()));
        } else {
            assert(ls.filter(p) == fp);
        }
    }
}

/// Law: a listener that is closed when a pass begins receives no further
/// events — no invocation of the pass carries its identifier — and the
/// pass evicts it: no listener with its identifier remains registered.
pub proof fn lemma_closed_listener_stays_silent<H>(
    ls: Seq<Listener<H>>,
    log: Seq<Invocation>,
    after: Seq<Listener<H>>,
    j: int,
)
    requires
        well_formed_log(ls, log),
        after == retained_in(log, ls),
        forall|i1: int, i2: int|
            0 <= i1 < i2 < ls.len() ==> (#[trigger] ls[i1]).id != (#[trigger] ls[i2]).id,
        0 <= j < ls.len(),
        ls[j].closed,
    ensures
        !invoked(log, ls[j].id),
        forall|i: int| 0 <= i < after.len() ==> (#[trigger] after[i]).id != ls[j].id,
{
    if invoked(log, ls[j].id) {
        let k = choose|k: int| 0 <= k < log.len() && (#[trigger] log[k]).id == ls[j].id;
        assert(live_entry(ls, log[k]));
        let j2 = choose|j2: int|
            0 <= j2 < ls.len() && (#[trigger] ls[j2]).id == log[k].id && !ls[j2].closed
                && ls[j2].priority == log[k].priority;
        assert(j2 == j);
    }
    let p = |l: Listener<H>| retained(log, l);
    assert forall|i: int| 0 <= i < after.len() implies (#[trigger] after[i]).id != ls[j].id by {
        lemma_filter_member(ls, p, i);
        let m = choose|m: int| 0 <= m < ls.len() && #[trigger] ls[m] == ls.filter(p)[i];
        ls.lemma_filter_pred(p, i);
        assert(retained(log, ls[m]));
        if ls[m].id == ls[j].id {
            assert(m == j);
        }
    }
}

/// Law: an invocation that intercepts at the top tier confines the whole
/// pass to the top tier — interception short-circuits every lower tier.
pub proof fn lemma_top_interception_confines_log<H>(
    ls: Seq<Listener<H>>,
    log: Seq<Invocation>,
    k: int,
)
    requires
        well_formed_log(ls, log),
        0 <= k < log.len(),
        log[k].intercept,
        log[k].priority == crate::listener::Priority::Top,
    ensures
        forall|m: int|
            0 <= m < log.len() ==> (#[trigger] log[m]).priority == crate::listener::Priority::Top,
{
    assert forall|m: int| 0 <= m < log.len() implies (#[trigger] log[m]).priority
        == crate::listener::Priority::Top by {
        assert(log[m].priority.rank() <= log[k].priority.rank());
    }
}

/// Law: a pass groups its invocations by tier in dispatch order — an
/// invocation of a higher tier (smaller rank) is always logged before one
/// of a lower tier, whatever tiers lie between them.
pub proof fn lemma_tier_grouping<H>(ls: Seq<Listener<H>>, log: Seq<Invocation>, ka: int, kb: int)
    requires
        well_formed_log(ls, log),
        0 <= ka < log.len(),
        0 <= kb < log.len(),
        log[ka].priority.rank() < log[kb].priority.rank(),
    ensures
        ka < kb,
{
}

} // verus!
