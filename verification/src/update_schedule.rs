//! When remote subscriptions are due for an automatic update: each one's
//! deadline is its interval after its last attempt or success, and no
//! earlier than a deadline this process remembered for it.
use vstd::prelude::*;

use crate::domain::{AppState, AppStateView, ExactClone, ExactEq, SubscriptionView, MAX_SAFE_INTEGER};
use crate::order::{key_lt, sort_indices, texts_of};
use crate::selected_subscription::{arranged, ids_ascending, permute};
use crate::subscription_management::SubscriptionOperationError;
use crate::subscription_update::UpdateSnapshot;
use crate::text::chars_of;

verus! {

/// `a + b`, or the largest `u64` where that does not fit.
pub open spec fn saturating_sum(a: u64, b: u64) -> u64 {
    if a + b > u64::MAX { u64::MAX } else { (a + b) as u64 }
}

/// The time `minutes` after `at`, saturating.
pub open spec fn after_minutes(at: u64, minutes: u32) -> u64 {
    saturating_sum(at, (minutes * 60_000) as u64)
}

fn after_minutes_exec(at: u64, minutes: u32) -> (r: u64)
    ensures
        r == after_minutes(at, minutes),
{
    let span: u64 = (minutes as u64) * 60_000;
    at.saturating_add(span)
}

/// One remembered deadline.
#[derive(Clone, Debug, PartialEq, Eq)]
pub struct RememberedDeadline {
    pub subscription_id: String,
    pub deadline_ms: u64,
}

/// Deadlines this process remembered for subscriptions, at most one each.
pub struct ProcessDeadlines {
    entries: Vec<RememberedDeadline>,
}

impl ProcessDeadlines {
    /// The remembered deadline of each subscription.
    pub closed spec fn deadlines(&self) -> Map<Seq<char>, u64> {
        Map::new(
            |id: Seq<char>| exists|k: int| 0 <= k < self.entries@.len() && self.entries@[k].subscription_id@ == id,
            |id: Seq<char>| self.entries@[self.position(id)].deadline_ms,
        )
    }

    closed spec fn position(&self, id: Seq<char>) -> int {
        choose|k: int| 0 <= k < self.entries@.len() && self.entries@[k].subscription_id@ == id
    }

    /// No subscription has two entries.
    pub closed spec fn wf(&self) -> bool {
        forall|a: int, b: int| 0 <= a < b < self.entries@.len() ==> self.entries@[a].subscription_id@ != self.entries@[b].subscription_id@
    }

    /// Nothing remembered.
    pub fn new() -> (r: Self)
        ensures
            r.wf(),
            r.deadlines() == Map::<Seq<char>, u64>::empty(),
    {
        let r = ProcessDeadlines { entries: Vec::new() };
        proof {
            assert(r.deadlines() =~= Map::<Seq<char>, u64>::empty());
        }
        r
    }

    /// The remembered deadline of subscription `id`, if any.
    pub fn get(&self, id: &str) -> (r: Option<u64>)
        requires
            self.wf(),
        ensures
            r == (if self.deadlines().contains_key(id@) { Some(self.deadlines()[id@]) } else { None }),
    {
        let mut i: usize = 0;
        while i < self.entries.len()
            invariant
                i <= self.entries.len(),
                self.wf(),
                forall|k: int| 0 <= k < i ==> self.entries@[k].subscription_id@ != id@,
            decreases self.entries.len() - i,
        {
            if crate::text::str_eq(self.entries[i].subscription_id.as_str(), id) {
                proof {
                    let p = self.position(id@);
                    assert(self.entries@[i as int].subscription_id@ == id@);
                    if p != i as int {
                        if p < i {
                            assert(self.entries@[p].subscription_id@ != self.entries@[i as int].subscription_id@);
                        } else {
                            assert(self.entries@[i as int].subscription_id@ != self.entries@[p].subscription_id@);
                        }
                    }
                }
                return Some(self.entries[i].deadline_ms);
            }
            i = i + 1;
        }
        None
    }

    fn find(&self, id: &str) -> (r: Option<usize>)
        requires
            self.wf(),
        ensures
            match r {
                Some(k) => k < self.entries@.len() && self.entries@[k as int].subscription_id@ == id@,
                None => forall|k: int| 0 <= k < self.entries@.len() ==> self.entries@[k].subscription_id@ != id@,
            },
    {
        let mut i: usize = 0;
        while i < self.entries.len()
            invariant
                i <= self.entries.len(),
                forall|k: int| 0 <= k < i ==> self.entries@[k].subscription_id@ != id@,
            decreases self.entries.len() - i,
        {
            if crate::text::str_eq(self.entries[i].subscription_id.as_str(), id) {
                return Some(i);
            }
            i = i + 1;
        }
        None
    }

    /// Remembers `deadline_ms` for subscription `id`, replacing an earlier one.
    pub fn insert(&mut self, id: String, deadline_ms: u64)
        requires
            old(self).wf(),
        ensures
            final(self).wf(),
            final(self).deadlines() == old(self).deadlines().insert(id@, deadline_ms),
    {
        let ghost before = self.entries@;
        let ghost expected = old(self).deadlines().insert(id@, deadline_ms);
        match self.find(id.as_str()) {
            Some(k) => {
                let entry = RememberedDeadline { subscription_id: id, deadline_ms };
                let ghost ev = entry;
                self.entries.set(k, entry);
                proof {
                    assert(self.entries@ == before.update(k as int, ev));
                    assert forall|a: int, b: int| 0 <= a < b < self.entries@.len() implies self.entries@[a].subscription_id@ != self.entries@[b].subscription_id@ by {
                        assert(self.entries@[a].subscription_id@ == before[a].subscription_id@);
                        assert(self.entries@[b].subscription_id@ == before[b].subscription_id@);
                    }
                    assert forall|x: Seq<char>| #![auto] self.deadlines().contains_key(x) == expected.contains_key(x) by {
                        if self.deadlines().contains_key(x) {
                            let q = choose|q: int| 0 <= q < self.entries@.len() && self.entries@[q].subscription_id@ == x;
                            assert(before[q].subscription_id@ == x);
                        } else if expected.contains_key(x) && x != id@ {
                            let q = choose|q: int| 0 <= q < before.len() && before[q].subscription_id@ == x;
                            assert(self.entries@[q].subscription_id@ == x);
                        } else if x == id@ {
                            assert(self.entries@[k as int].subscription_id@ == x);
                        }
                    }
                    assert forall|x: Seq<char>| #![auto] self.deadlines().contains_key(x) implies self.deadlines()[x] == expected[x] by {
                        let p = self.position(x);
                        if x == id@ {
                            if p != k as int {
                                assert(self.entries@[p].subscription_id@ == before[p].subscription_id@);
                                if p < k as int {
                                    assert(before[p].subscription_id@ != before[k as int].subscription_id@);
                                } else {
                                    assert(before[k as int].subscription_id@ != before[p].subscription_id@);
                                }
                            }
                        } else {
                            let po = old(self).position(x);
                            assert(p != k as int);
                            assert(before[p].subscription_id@ == x);
                            if p != po {
                                if p < po {
                                    assert(before[p].subscription_id@ != before[po].subscription_id@);
                                } else {
                                    assert(before[po].subscription_id@ != before[p].subscription_id@);
                                }
                            }
                        }
                    }
                    assert(self.deadlines() =~= expected);
                }
            },
            None => {
                let entry = RememberedDeadline { subscription_id: id, deadline_ms };
                let ghost ev = entry;
                self.entries.push(entry);
                proof {
                    assert(self.entries@ == before.push(ev));
                    assert forall|x: Seq<char>| #![auto] self.deadlines().contains_key(x) == expected.contains_key(x) by {
                        if self.deadlines().contains_key(x) && x != id@ {
                            let q = choose|q: int| 0 <= q < self.entries@.len() && self.entries@[q].subscription_id@ == x;
                            assert(q < before.len());
                            assert(before[q].subscription_id@ == x);
                        } else if expected.contains_key(x) && x != id@ {
                            let q = choose|q: int| 0 <= q < before.len() && before[q].subscription_id@ == x;
                            assert(self.entries@[q].subscription_id@ == x);
                        } else if x == id@ {
                            assert(self.entries@[before.len() as int].subscription_id@ == x);
                        }
                    }
                    assert forall|x: Seq<char>| #![auto] self.deadlines().contains_key(x) implies self.deadlines()[x] == expected[x] by {
                        let p = self.position(x);
                        if x == id@ {
                            if p != before.len() as int {
                                assert(before[p].subscription_id@ != id@);
                            }
                        } else {
                            let po = old(self).position(x);
                            assert(p < before.len());
                            assert(before[p].subscription_id@ == x);
                            if p != po {
                                if p < po {
                                    assert(before[p].subscription_id@ != before[po].subscription_id@);
                                } else {
                                    assert(before[po].subscription_id@ != before[p].subscription_id@);
                                }
                            }
                        }
                    }
                    assert(self.deadlines() =~= expected);
                    assert forall|a: int, b: int| 0 <= a < b < self.entries@.len() implies self.entries@[a].subscription_id@ != self.entries@[b].subscription_id@ by {
                        if b == before.len() as int {
                            assert(before[a].subscription_id@ != id@);
                        }
                    }
                }
            },
        }
    }

    /// Remembers when the snapshot's subscription is next due after an
    /// attempt at `attempted_at_ms`; a subscription without an interval
    /// gets no deadline.
    pub fn remember(&mut self, snapshot: &UpdateSnapshot, attempted_at_ms: u64)
        requires
            old(self).wf(),
        ensures
            final(self).wf(),
            final(self).deadlines() == match snapshot.update_policy.interval_minutes {
                Some(m) => old(self).deadlines().insert(snapshot.subscription_id@, after_minutes(attempted_at_ms, m)),
                None => old(self).deadlines(),
            },
    {
        if let Some(minutes) = snapshot.update_policy.interval_minutes {
            let deadline = after_minutes_exec(attempted_at_ms, minutes);
            self.insert(snapshot.subscription_id.0.exact_clone(), deadline);
        }
    }
}

/// The later of two times.
pub open spec fn later(a: u64, b: u64) -> u64 {
    if a >= b { a } else { b }
}

/// Subscription `sub` is due at `now`: it is remote, updates automatically
/// with an interval, and `now` has reached both the interval after its
/// last attempt or success and the remembered deadline.
pub open spec fn is_due(sub: SubscriptionView, remembered: Option<u64>, now: u64) -> bool {
    &&& sub.source is Remote
    &&& sub.update_policy.allow_auto_update
    &&& sub.update_policy.interval_minutes matches Some(m) && {
        let base = later(
            match sub.last_attempt_at_ms { Some(t) => t, None => 0 },
            match sub.last_success_at_ms { Some(t) => t, None => 0 },
        );
        now >= later(match remembered { Some(d) => d, None => 0 }, after_minutes(base, m))
    }
}

/// The ids of the due subscriptions, in state order.
pub open spec fn due_ids(subs: Seq<SubscriptionView>, remembered: Map<Seq<char>, u64>, now: u64) -> Seq<Seq<char>>
    decreases subs.len(),
{
    if subs.len() == 0 {
        Seq::empty()
    } else {
        let init = due_ids(subs.drop_last(), remembered, now);
        let sub = subs.last();
        let r = if remembered.contains_key(sub.id) { Some(remembered[sub.id]) } else { None };
        if is_due(sub, r, now) {
            init.push(sub.id)
        } else {
            init
        }
    }
}

fn due_exec(sub: &crate::domain::Subscription, remembered: Option<u64>, now: u64) -> (r: bool)
    ensures
        r == is_due(sub@, remembered, now),
{
    let is_remote = match &sub.source {
        crate::domain::SubscriptionSource::Remote { .. } => true,
        crate::domain::SubscriptionSource::Manual => false,
    };
    if !is_remote || !sub.update_policy.allow_auto_update {
        return false;
    }
    let minutes = match sub.update_policy.interval_minutes {
        Some(m) => m,
        None => {
            return false;
        },
    };
    let attempt = match sub.last_attempt_at_ms {
        Some(t) => t,
        None => 0,
    };
    let success = match sub.last_success_at_ms {
        Some(t) => t,
        None => 0,
    };
    let base = if attempt >= success { attempt } else { success };
    let persisted = after_minutes_exec(base, minutes);
    let kept = match remembered {
        Some(d) => d,
        None => 0,
    };
    let deadline = if kept >= persisted { kept } else { persisted };
    now >= deadline
}

fn sorted_texts(v: &Vec<String>) -> (r: Vec<String>)
    ensures
        arranged(r.deep_view(), v.deep_view()),
        ids_ascending(r.deep_view()),
{
    let mut p: Vec<i64> = Vec::new();
    let mut t: Vec<Vec<char>> = Vec::new();
    let mut i: usize = 0;
    while i < v.len()
        invariant
            i <= v.len(),
            p.len() == i,
            t.len() == i,
            forall|k: int| 0 <= k < i ==> #[trigger] p@[k] == 0 && texts_of(t@)[k] == v.deep_view()[k],
        decreases v.len() - i,
    {
        let ghost tb = t@;
        proof {
            assert(v.deep_view()[i as int] == v[i as int]@);
        }
        let c = chars_of(v[i].as_str());
        p.push(0);
        t.push(c);
        proof {
            assert(texts_of(t@) =~= texts_of(tb).push(c@));
        }
        i = i + 1;
    }
    let order = sort_indices(&p, &t);
    let r = permute(v, &order);
    proof {
        assert forall|a: int, b: int| 0 <= a < b < r.deep_view().len() implies !key_lt(0, r.deep_view()[b], 0, r.deep_view()[a]) by {
            assert(r.deep_view()[a] == v.deep_view()[order@[a] as int]);
            assert(r.deep_view()[b] == v.deep_view()[order@[b] as int]);
            assert(p@[order@[a] as int] == 0);
            assert(p@[order@[b] as int] == 0);
        }
    }
    r
}

/// The ids of the subscriptions due at `now_ms`, sorted; a time beyond the
/// largest safe integer is invalid input.
pub fn due_subscription_ids(state: &AppState, deadlines: &ProcessDeadlines, now_ms: u64) -> (r: Result<
    Vec<String>,
    SubscriptionOperationError,
>)
    requires
        deadlines.wf(),
    ensures
        now_ms > MAX_SAFE_INTEGER ==> r == Err::<Vec<String>, SubscriptionOperationError>(SubscriptionOperationError::InvalidInput),
        now_ms <= MAX_SAFE_INTEGER ==> (r matches Ok(ids) && arranged(ids.deep_view(), due_ids(state@.subscriptions, deadlines.deadlines(), now_ms))
            && ids_ascending(ids.deep_view())),
{
    if now_ms > MAX_SAFE_INTEGER {
        return Err(SubscriptionOperationError::InvalidInput);
    }
    let ghost subs = state@.subscriptions;
    let mut due: Vec<String> = Vec::new();
    let mut i: usize = 0;
    while i < state.subscriptions.len()
        invariant
            i <= state.subscriptions.len(),
            subs == state@.subscriptions,
            deadlines.wf(),
            due.deep_view() == due_ids(subs.take(i as int), deadlines.deadlines(), now_ms),
        decreases state.subscriptions.len() - i,
    {
        let sub = &state.subscriptions[i];
        let remembered = deadlines.get(sub.id.0.as_str());
        proof {
            assert(subs.take(i + 1).drop_last() =~= subs.take(i as int));
            assert(subs.take(i + 1).last() == subs[i as int]);
            assert(subs[i as int] == sub@);
        }
        if due_exec(sub, remembered, now_ms) {
            let ghost before = due.deep_view();
            let id = sub.id.0.exact_clone();
            due.push(id);
            proof {
                assert(due.deep_view() =~= before.push(id@));
            }
        }
        i = i + 1;
    }
    proof {
        assert(subs.take(state.subscriptions.len() as int) =~= subs);
    }
    Ok(sorted_texts(&due))
}

/// The later of a subscription's last attempt and last success, in
/// milliseconds (0 where neither happened).
pub open spec fn last_contact_ms(sub: SubscriptionView) -> int {
    let attempt: int = match sub.last_attempt_at_ms {
        Some(t) => t as int,
        None => 0,
    };
    let success: int = match sub.last_success_at_ms {
        Some(t) => t as int,
        None => 0,
    };
    if attempt >= success { attempt } else { success }
}

/// `sub` is remote, updates automatically with an interval that has passed
/// since its last attempt or success (or the clock is at its largest
/// value), and its remembered deadline, if any, has come.
pub open spec fn may_be_scheduled(sub: SubscriptionView, remembered: Map<Seq<char>, u64>, now: u64) -> bool {
    &&& sub.source is Remote
    &&& sub.update_policy.allow_auto_update
    &&& sub.update_policy.interval_minutes is Some
    &&& (now >= last_contact_ms(sub) + sub.update_policy.interval_minutes->0 * 60_000 || now == u64::MAX)
    &&& remembered.contains_key(sub.id) ==> now >= remembered[sub.id]
}

/// Scheduling takes exactly the subscriptions that are remote, update
/// automatically, have an interval, whose interval has passed since their
/// last attempt or success (or the clock is at its largest value), and
/// whose remembered deadline, if any, has come; a subscription with
/// automatic updates off is never scheduled.
pub proof fn law_due_subscriptions(subs: Seq<SubscriptionView>, remembered: Map<Seq<char>, u64>, now: u64)
    ensures
        forall|k: int|
            #![trigger due_ids(subs, remembered, now)[k]]
            0 <= k < due_ids(subs, remembered, now).len() ==> exists|j: int|
                #![trigger subs[j]]
                0 <= j < subs.len() && subs[j].id == due_ids(subs, remembered, now)[k] && may_be_scheduled(subs[j], remembered, now),
        forall|j: int|
            #![trigger subs[j]]
            0 <= j < subs.len() && subs[j].source is Remote && subs[j].update_policy.allow_auto_update
                && subs[j].update_policy.interval_minutes is Some && now >= last_contact_ms(subs[j])
                + subs[j].update_policy.interval_minutes->0 * 60_000 && (remembered.contains_key(subs[j].id)
                ==> now >= remembered[subs[j].id]) ==> due_ids(subs, remembered, now).contains(subs[j].id),
    decreases subs.len(),
{
    if subs.len() > 0 {
        let prev = subs.drop_last();
        law_due_subscriptions(prev, remembered, now);
        let init = due_ids(prev, remembered, now);
        let all = due_ids(subs, remembered, now);
        assert forall|k: int|
            #![trigger all[k]]
            0 <= k < all.len() implies exists|j: int|
                #![trigger subs[j]]
                0 <= j < subs.len() && subs[j].id == all[k] && may_be_scheduled(subs[j], remembered, now) by {
            if k < init.len() {
                assert(all[k] == init[k]);
                let j = choose|j: int|
                    #![trigger prev[j]]
                    0 <= j < prev.len() && prev[j].id == init[k] && may_be_scheduled(prev[j], remembered, now);
                assert(subs[j] == prev[j]);
            } else {
                let j = subs.len() - 1;
                assert(subs[j] == subs.last());
            }
        }
        assert forall|j: int|
            #![trigger subs[j]]
            0 <= j < subs.len() && subs[j].source is Remote && subs[j].update_policy.allow_auto_update
                && subs[j].update_policy.interval_minutes is Some && now >= last_contact_ms(subs[j])
                + subs[j].update_policy.interval_minutes->0 * 60_000 && (remembered.contains_key(subs[j].id)
                ==> now >= remembered[subs[j].id]) implies all.contains(subs[j].id) by {
            if j < prev.len() {
                assert(subs[j] == prev[j]);
                let k = choose|k: int| 0 <= k < init.len() && init[k] == prev[j].id;
                if all.len() > init.len() {
                    assert(all[k] == init[k]);
                } else {
                    assert(all[k] == init[k]);
                }
            } else {
                assert(subs[j] == subs.last());
                assert(all[init.len() as int] == subs[j].id);
            }
        }
    }
}

} // verus!
