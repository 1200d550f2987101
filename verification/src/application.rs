//! Process-wide application state the dispatch engine's handlers consult:
//! which accounts are registered, and which account answers for which
//! group.
//!
//! The host keeps one `App` per process and shares it; the concurrent map
//! it uses for that is plumbing, while the rules on the map's content are
//! verified here over an association list with unique keys.  Accounts and
//! groups appear as their numeric identifiers; the domain objects behind
//! them live with the host.

use vstd::prelude::*;

verus! {

/// The first value bound to key `g`, scanning front to back.
pub open spec fn spec_lookup(s: Seq<(i64, i64)>, g: i64) -> Option<i64>
    decreases s.len(),
{
    if s.len() == 0 {
        None
    } else if s.first().0 == g {
        Some(s.first().1)
    } else {
        spec_lookup(s.drop_first(), g)
    }
}

/// The explicit application context: the registered accounts and the
/// group-to-account assignment.
pub struct App {
    bots: Vec<i64>,
    group_bot: Vec<(i64, i64)>,
}

impl App {
    /// The registered accounts, in registration order.
    pub closed spec fn spec_bots(&self) -> Seq<i64> {
        self.bots@
    }

    /// The group-to-account pairs, in insertion order.
    pub closed spec fn spec_group_bot(&self) -> Seq<(i64, i64)> {
        self.group_bot@
    }

    /// Accounts and group keys are registered at most once.
    pub open spec fn wf(&self) -> bool {
        &&& forall|i: int, j: int|
            0 <= i < j < self.spec_bots().len() ==> #[trigger] self.spec_bots()[i]
                != #[trigger] self.spec_bots()[j]
        &&& forall|i: int, j: int|
            0 <= i < j < self.spec_group_bot().len() ==> (#[trigger] self.spec_group_bot()[i]).0
                != (#[trigger] self.spec_group_bot()[j]).0
    }

    pub fn new() -> (r: Self)
        ensures
            r.wf(),
            r.spec_bots() == Seq::<i64>::empty(),
            r.spec_group_bot() == Seq::<(i64, i64)>::empty(),
    {
        App { bots: Vec::new(), group_bot: Vec::new() }
    }

    /// The registered accounts, as plain values.
    pub fn bots(&self) -> (r: Vec<i64>)
        ensures
            r@ == self.spec_bots(),
    {
        let mut out: Vec<i64> = Vec::new();
        let mut i: usize = 0;
        while i < self.bots.len()
            invariant
                0 <= i as int <= self.bots@.len(),
                out@ == self.bots@.subrange(0, i as int),
            decreases self.bots@.len() - i as int,
        {
            out.push(self.bots[i]);
            proof {
                assert(out@ =~= self.bots@.subrange(0, i as int + 1));
            }
            i += 1;
        }
        proof {
            assert(out@ =~= self.bots@);
        }
        out
    }

    /// The account answering for `group_id`, if one is assigned.
    pub fn group_bot(&self, group_id: i64) -> (r: Option<i64>)
        ensures
            r == spec_lookup(self.spec_group_bot(), group_id),
    {
        let ghost all = self.group_bot@;
        let mut i: usize = 0;
        proof {
            assert(all.subrange(0, all.len() as int) =~= all);
        }
        while i < self.group_bot.len()
            invariant
                0 <= i as int <= all.len(),
                self.group_bot@ == all,
                spec_lookup(all, group_id) == spec_lookup(
                    all.subrange(i as int, all.len() as int),
                    group_id,
                ),
                forall|j: int| 0 <= j < i as int ==> (#[trigger] all[j]).0 != group_id,
            decreases all.len() - i as int,
        {
            let ghost rest = all.subrange(i as int, all.len() as int);
            proof {
                assert(rest.first() == all[i as int]);
                assert(rest.drop_first() =~= all.subrange(i as int + 1, all.len() as int));
            }
            if self.group_bot[i].0 == group_id {
                proof {
                    assert(spec_lookup(rest, group_id) == Some(rest.first().1));
                }
                return Some(self.group_bot[i].1);
            }
            i += 1;
        }
        proof {
            assert(all.subrange(i as int, all.len() as int).len() == 0);
        }
        None
    }

    /// Assigns `bot_id` to `group_id`, replacing any earlier assignment,
    /// and returns the assignment that was replaced.
    pub fn set_group_bot(&mut self, group_id: i64, bot_id: i64) -> (r: Option<i64>)
        requires
            old(self).wf(),
        ensures
            final(self).wf(),
            final(self).spec_bots() == old(self).spec_bots(),
            r == spec_lookup(old(self).spec_group_bot(), group_id),
            r is None ==> final(self).spec_group_bot() == old(self).spec_group_bot().push(
                (group_id, bot_id),
            ),
            r is Some ==> exists|i: int|
                0 <= i < old(self).spec_group_bot().len() && (#[trigger] old(self).spec_group_bot()[i]) == (group_id, r->0) && final(self).spec_group_bot() == old(self).spec_group_bot().update(i, (group_id, bot_id)),
    {
        let ghost all = self.group_bot@;
        let mut i: usize = 0;
        proof {
            assert(all.subrange(0, all.len() as int) =~= all);
        }
        while i < self.group_bot.len()
            invariant
                0 <= i as int <= all.len(),
                self.group_bot@ == all,
                self.bots@ == old(self).spec_bots(),
                old(self).wf(),
                all == old(self).spec_group_bot(),
                spec_lookup(all, group_id) == spec_lookup(
                    all.subrange(i as int, all.len() as int),
                    group_id,
                ),
                forall|j: int| 0 <= j < i as int ==> (#[trigger] all[j]).0 != group_id,
            decreases all.len() - i as int,
        {
            let ghost rest = all.subrange(i as int, all.len() as int);
            proof {
                assert(rest.first() == all[i as int]);
                assert(rest.drop_first() =~= all.subrange(i as int + 1, all.len() as int));
            }
            if self.group_bot[i].0 == group_id {
                let prev = self.group_bot[i].1;
                self.group_bot[i] = (group_id, bot_id);
                proof {
                    assert(self.group_bot@ =~= all.update(i as int, (group_id, bot_id)));
                }
                return Some(prev);
            }
            i += 1;
        }
        proof {
            assert(all.subrange(i as int, all.len() as int).len() == 0);
        }
        self.group_bot.push((group_id, bot_id));
        None
    }

    /// Whether `bot_id` is the account that answers for `group_id`.  An
    /// unassigned group is claimed for `bot_id` on the way; an assignment
    /// to another account stands and the check fails.
    pub fn check_group_bot(&mut self, bot_id: i64, group_id: i64) -> (r: bool)
        requires
            old(self).wf(),
        ensures
            final(self).wf(),
            final(self).spec_bots() == old(self).spec_bots(),
            r == (spec_lookup(old(self).spec_group_bot(), group_id) is None || spec_lookup(
                old(self).spec_group_bot(),
                group_id,
            ) == Some(bot_id)),
            spec_lookup(old(self).spec_group_bot(), group_id) is None ==> final(self).spec_group_bot() == old(self).spec_group_bot().push((group_id, bot_id)),
            spec_lookup(old(self).spec_group_bot(), group_id) is Some ==> final(self).spec_group_bot() == old(self).spec_group_bot(),
    {
        match self.group_bot(group_id) {
            Some(id) => id == bot_id,
            None => {
                self.set_group_bot(group_id, bot_id);
                true
            },
        }
    }

    /// Registers an account; an already registered account is handed back
    /// and nothing changes.
    pub fn add_bot(&mut self, bot: i64) -> (r: Option<i64>)
        requires
            old(self).wf(),
        ensures
            final(self).wf(),
            final(self).spec_group_bot() == old(self).spec_group_bot(),
            r is Some <==> old(self).spec_bots().contains(bot),
            r is Some ==> r == Some(bot) && final(self).spec_bots() == old(self).spec_bots(),
            r is None ==> final(self).spec_bots() == old(self).spec_bots().push(bot),
    {
        let mut i: usize = 0;
        while i < self.bots.len()
            invariant
                0 <= i as int <= self.bots@.len(),
                old(self).wf(),
                self.bots@ == old(self).spec_bots(),
                self.group_bot@ == old(self).spec_group_bot(),
                forall|j: int| 0 <= j < i as int ==> #[trigger] self.bots@[j] != bot,
            decreases self.bots@.len() - i as int,
        {
            if self.bots[i] == bot {
                assert(old(self).spec_bots()[i as int] == bot);
                return Some(bot);
            }
            i += 1;
        }
        proof {
            assert forall|j: int| 0 <= j < self.bots@.len() implies #[trigger] self.bots@[j]
                != bot by {}
            if old(self).spec_bots().contains(bot) {
                let j = choose|j: int|
                    0 <= j < old(self).spec_bots().len() && old(self).spec_bots()[j] == bot;
                assert(self.bots@[j] != bot);
            }
        }
        self.bots.push(bot);
        None
    }

    /// Unregisters an account, handing it back if it was registered.
    pub fn remove_bot(&mut self, bot: i64) -> (r: Option<i64>)
        requires
            old(self).wf(),
        ensures
            final(self).wf(),
            final(self).spec_group_bot() == old(self).spec_group_bot(),
            r is Some <==> old(self).spec_bots().contains(bot),
            r is Some ==> r == Some(bot) && exists|i: int|
                0 <= i < old(self).spec_bots().len() && #[trigger] old(self).spec_bots()[i] == bot
                    && final(self).spec_bots() == old(self).spec_bots().remove(i),
            r is None ==> final(self).spec_bots() == old(self).spec_bots(),
    {
        let mut i: usize = 0;
        while i < self.bots.len()
            invariant
                0 <= i as int <= self.bots@.len(),
                self.bots@ == old(self).spec_bots(),
                self.group_bot@ == old(self).spec_group_bot(),
                old(self).wf(),
                forall|j: int| 0 <= j < i as int ==> #[trigger] self.bots@[j] != bot,
            decreases self.bots@.len() - i as int,
        {
            if self.bots[i] == bot {
                assert(old(self).spec_bots()[i as int] == bot);
                self.bots.remove(i);
                proof {
                    let before = old(self).spec_bots();
                    let after = self.bots@;
                    assert(after == before.remove(i as int));
                    assert forall|p: int, q: int| 0 <= p < q < after.len() implies after[p]
                        != after[q] by {
                        if p < i as int {
                            assert(after[p] == before[p]);
                        } else {
                            assert(after[p] == before[p + 1]);
                        }
                        if q < i as int {
                            assert(after[q] == before[q]);
                        } else {
                            assert(after[q] == before[q + 1]);
                        }
                    }
                }
                return Some(bot);
            }
            i += 1;
        }
        proof {
            assert forall|j: int| 0 <= j < self.bots@.len() implies #[trigger] self.bots@[j]
                != bot by {}
            if old(self).spec_bots().contains(bot) {
                let j = choose|j: int|
                    0 <= j < old(self).spec_bots().len() && old(self).spec_bots()[j] == bot;
                assert(self.bots@[j] != bot);
            }
        }
        None
    }
}

} // verus!
