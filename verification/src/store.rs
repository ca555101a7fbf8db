//! A store of alerts and of wizard states, held in memory.
//!
//! Alerts are numbered from one in the order in which they are saved and are
//! never removed; an alert that fired stays, inactive.  Each session has at
//! most one wizard state.

use crate::models::{
    alert_views, AlertType, PriceAlert, PriceAlertView, UserState, UserStateView,
};
use crate::text::clone_texts;
use vstd::prelude::*;

verus! {

/// Why the store did not do what was asked.
#[derive(Debug, Clone, Copy, PartialEq, Eq, Structural)]
pub enum StoreError {
    /// No alert has this identifier.
    UnknownAlert,
    /// The alert fired before.
    AlreadyTriggered,
    /// The store holds as many alerts as it can number.
    Full,
}

/// Alerts by identifier and wizard states by session.
pub struct AlertStore {
    alerts: Vec<PriceAlert>,
    sessions: Vec<(i64, UserState)>,
}

/// The alerts among `alerts` that are active, in the same order.
pub open spec fn active_among(alerts: Seq<PriceAlertView>) -> Seq<PriceAlertView>
    decreases alerts.len(),
{
    if alerts.len() == 0 {
        Seq::<PriceAlertView>::empty()
    } else {
        let before = active_among(alerts.drop_last());
        if alerts.last().is_active {
            before.push(alerts.last())
        } else {
            before
        }
    }
}

/// Whether `id` is the identifier of one of `count` stored alerts.
pub open spec fn is_stored(count: nat, id: i64) -> bool {
    1 <= id <= count
}

/// Every active alert among `alerts` is one of `alerts`, and every active one
/// of `alerts` is among them.
pub proof fn lemma_active_among(alerts: Seq<PriceAlertView>)
    ensures
        forall|a: PriceAlertView| #[trigger]
            active_among(alerts).contains(a) <==> alerts.contains(a) && a.is_active,
    decreases alerts.len(),
{
    if alerts.len() > 0 {
        let init = alerts.drop_last();
        let last = alerts.last();
        lemma_active_among(init);
        assert forall|a: PriceAlertView| #[trigger]
            active_among(alerts).contains(a) <==> alerts.contains(a) && a.is_active by {
            if active_among(alerts).contains(a) {
                let i = choose|i: int|
                    0 <= i < active_among(alerts).len() && active_among(alerts)[i] == a;
                if i < active_among(init).len() {
                    assert(active_among(init)[i] == a);
                    assert(active_among(init).contains(a));
                    let j = choose|j: int| 0 <= j < init.len() && init[j] == a;
                    assert(alerts[j] == a);
                } else {
                    assert(a == last);
                    assert(alerts[alerts.len() - 1] == a);
                }
            }
            if alerts.contains(a) && a.is_active {
                let j = choose|j: int| 0 <= j < alerts.len() && alerts[j] == a;
                if j < init.len() {
                    assert(init[j] == a);
                    assert(init.contains(a));
                    assert(active_among(init).contains(a));
                    let i = choose|i: int|
                        0 <= i < active_among(init).len() && active_among(init)[i] == a;
                    assert(active_among(alerts)[i] == a);
                } else {
                    assert(active_among(alerts)[active_among(alerts).len() - 1] == a);
                }
            }
        }
    }
}

/// Whether the alerts are numbered from one in their order.
pub open spec fn numbered_from_one(alerts: Seq<PriceAlertView>) -> bool {
    forall|k: int| 0 <= k < alerts.len() ==> (#[trigger] alerts[k]).id == Some((k + 1) as i64)
}

/// Whether `after` is what one operation of the store makes of the alerts
/// `before`: nothing, one alert more, or one active alert triggered.
pub open spec fn store_step(before: Seq<PriceAlertView>, after: Seq<PriceAlertView>) -> bool {
    ||| after == before
    ||| exists|alert: PriceAlertView|
        before.len() + 1 < i64::MAX && after == before.push(
            #[trigger] alert.saved_as((before.len() + 1) as i64),
        )
    ||| exists|id: i64, now: i64|
        is_stored(before.len(), id) && before[id - 1].is_active && after == before.update(
            id - 1,
            #[trigger] before[id - 1].triggered(now),
        )
}

/// Once an alert was marked as triggered it is not among the active alerts.
pub proof fn law_triggered_is_not_active(alerts: Seq<PriceAlertView>, id: i64, now: i64)
    requires
        numbered_from_one(alerts),
        alerts.len() < i64::MAX,
        is_stored(alerts.len(), id),
    ensures
        forall|a: PriceAlertView| #[trigger]
            active_among(alerts.update(id - 1, alerts[id - 1].triggered(now))).contains(a) ==> a.id
                != Some(id),
{
    let after = alerts.update(id - 1, alerts[id - 1].triggered(now));
    lemma_active_among(after);
    assert forall|a: PriceAlertView| #[trigger] active_among(after).contains(a) implies a.id
        != Some(id) by {
        let k = choose|k: int| 0 <= k < after.len() && after[k] == a;
        if k != id - 1 {
            assert(after[k] == alerts[k]);
        }
    }
}

/// No operation of the store changes an alert that is not active: it stays
/// triggered, with the time at which it fired, and stays out of the active
/// alerts.  The alerts stay numbered from one.
pub proof fn law_inactive_stays_inactive(
    before: Seq<PriceAlertView>,
    after: Seq<PriceAlertView>,
    k: int,
)
    requires
        store_step(before, after),
        0 <= k < before.len(),
        !before[k].is_active,
    ensures
        k < after.len(),
        after[k] == before[k],
        !active_among(after).contains(after[k]),
        numbered_from_one(before) ==> numbered_from_one(after),
{
    lemma_active_among(after);
    if numbered_from_one(before) {
        assert forall|j: int| 0 <= j < after.len() implies (#[trigger] after[j]).id == Some(
            (j + 1) as i64,
        ) by {
            if j < before.len() {
                assert(before[j].id == Some((j + 1) as i64));
            }
        }
    }
}

/// Whether each list of alerts but the first is what one operation of the
/// store makes of the list before it.
pub open spec fn is_history(states: Seq<Seq<PriceAlertView>>) -> bool {
    forall|i: int| 0 <= i < states.len() - 1 ==> store_step(#[trigger] states[i], states[i + 1])
}

/// Once an alert is triggered it never returns: after any number of
/// operations of the store it is what it was and is not among the active
/// alerts.
pub proof fn law_triggered_never_returns(states: Seq<Seq<PriceAlertView>>, k: int)
    requires
        states.len() > 0,
        is_history(states),
        0 <= k < states[0].len(),
        !states[0][k].is_active,
    ensures
        k < states.last().len(),
        states.last()[k] == states[0][k],
        !active_among(states.last()).contains(states[0][k]),
    decreases states.len(),
{
    if states.len() == 1 {
        lemma_active_among(states[0]);
    } else {
        let earlier = states.drop_last();
        assert forall|i: int| 0 <= i < earlier.len() - 1 implies store_step(
            #[trigger] earlier[i],
            earlier[i + 1],
        ) by {
            assert(store_step(states[i], states[i + 1]));
        }
        law_triggered_never_returns(earlier, k);
        let last_index = states.len() - 2;
        assert(store_step(states[last_index], states[last_index + 1]));
        law_inactive_stays_inactive(earlier.last(), states.last(), k);
    }
}

/// Whether no session occurs twice.
spec fn keys_distinct(entries: Seq<(i64, UserState)>) -> bool {
    forall|i: int, j: int| 0 <= i < j < entries.len() ==> entries[i].0 != entries[j].0
}

/// Whether some entry is for `session`.
spec fn has_key(entries: Seq<(i64, UserState)>, session: i64) -> bool {
    exists|i: int| 0 <= i < entries.len() && entries[i].0 == session
}

/// The states by session.
spec fn as_map(entries: Seq<(i64, UserState)>) -> Map<i64, UserStateView> {
    Map::new(
        |id: i64| has_key(entries, id),
        |id: i64| entries[choose|i: int| 0 <= i < entries.len() && entries[i].0 == id].1@,
    )
}

/// The map holds each entry under its session.
proof fn lemma_entry(entries: Seq<(i64, UserState)>, i: int)
    requires
        keys_distinct(entries),
        0 <= i < entries.len(),
    ensures
        as_map(entries).dom().contains(entries[i].0),
        as_map(entries)[entries[i].0] == entries[i].1@,
{
    let id = entries[i].0;
    assert(has_key(entries, id));
    let k = choose|k: int| 0 <= k < entries.len() && entries[k].0 == id;
    if k < i {
        assert(entries[k].0 != entries[i].0);
    }
    if i < k {
        assert(entries[i].0 != entries[k].0);
    }
}

/// A new entry for a session that has none is an insertion into the map.
proof fn lemma_as_map_push(entries: Seq<(i64, UserState)>, session: i64, state: UserState)
    requires
        keys_distinct(entries),
        !has_key(entries, session),
    ensures
        keys_distinct(entries.push((session, state))),
        as_map(entries.push((session, state))) == as_map(entries).insert(session, state@),
{
    let grown = entries.push((session, state));
    let n = entries.len() as int;
    assert forall|i: int, j: int| 0 <= i < j < grown.len() implies grown[i].0 != grown[j].0 by {
        if j == n {
            assert(grown[i] == entries[i]);
            if grown[i].0 == session {
                assert(has_key(entries, session));
            }
        } else {
            assert(grown[i] == entries[i] && grown[j] == entries[j]);
        }
    }
    let left = as_map(grown);
    let right = as_map(entries).insert(session, state@);
    assert forall|id: i64| left.dom().contains(id) <==> right.dom().contains(id) by {
        if has_key(grown, id) {
            let k = choose|k: int| 0 <= k < grown.len() && grown[k].0 == id;
            if k < n {
                assert(entries[k].0 == id);
                assert(has_key(entries, id));
            }
        }
        if has_key(entries, id) {
            let k = choose|k: int| 0 <= k < entries.len() && entries[k].0 == id;
            assert(grown[k].0 == id);
            assert(has_key(grown, id));
        }
        if id == session {
            assert(grown[n].0 == id);
            assert(has_key(grown, id));
        }
    }
    assert forall|id: i64| left.dom().contains(id) implies left[id] == right[id] by {
        let k = choose|k: int| 0 <= k < grown.len() && grown[k].0 == id;
        lemma_entry(grown, k);
        if k < n {
            assert(entries[k] == grown[k]);
            lemma_entry(entries, k);
            if id == session {
                assert(has_key(entries, session));
            }
        }
    }
    assert(left =~= right);
}

/// A new state in the entry of a session is an insertion into the map.
proof fn lemma_as_map_update(entries: Seq<(i64, UserState)>, i: int, state: UserState)
    requires
        keys_distinct(entries),
        0 <= i < entries.len(),
    ensures
        keys_distinct(entries.update(i, (entries[i].0, state))),
        as_map(entries.update(i, (entries[i].0, state))) == as_map(entries).insert(
            entries[i].0,
            state@,
        ),
{
    let session = entries[i].0;
    let changed = entries.update(i, (session, state));
    assert forall|a: int, b: int| 0 <= a < b < changed.len() implies changed[a].0
        != changed[b].0 by {
        assert(changed[a].0 == entries[a].0 && changed[b].0 == entries[b].0);
    }
    let left = as_map(changed);
    let right = as_map(entries).insert(session, state@);
    assert forall|id: i64| left.dom().contains(id) <==> right.dom().contains(id) by {
        if has_key(changed, id) {
            let k = choose|k: int| 0 <= k < changed.len() && changed[k].0 == id;
            assert(entries[k].0 == id);
            assert(has_key(entries, id));
        }
        if has_key(entries, id) {
            let k = choose|k: int| 0 <= k < entries.len() && entries[k].0 == id;
            assert(changed[k].0 == id);
            assert(has_key(changed, id));
        }
        if id == session {
            assert(changed[i].0 == id);
            assert(has_key(changed, id));
        }
    }
    assert forall|id: i64| left.dom().contains(id) implies left[id] == right[id] by {
        let k = choose|k: int| 0 <= k < changed.len() && changed[k].0 == id;
        lemma_entry(changed, k);
        assert(entries[k].0 == id);
        if k != i {
            assert(changed[k] == entries[k]);
            lemma_entry(entries, k);
            if k < i {
                assert(entries[k].0 != entries[i].0);
            } else {
                assert(entries[i].0 != entries[k].0);
            }
        }
    }
    assert(left =~= right);
}

/// Dropping the entry of a session is a removal from the map.
proof fn lemma_as_map_remove(entries: Seq<(i64, UserState)>, i: int)
    requires
        keys_distinct(entries),
        0 <= i < entries.len(),
    ensures
        keys_distinct(entries.remove(i)),
        as_map(entries.remove(i)) == as_map(entries).remove(entries[i].0),
{
    let session = entries[i].0;
    let shrunk = entries.remove(i);
    let back = |k: int|
        if k < i {
            k
        } else {
            k + 1
        };
    assert forall|k: int| 0 <= k < shrunk.len() implies shrunk[k] == entries[back(k)] by {}
    assert forall|a: int, b: int| 0 <= a < b < shrunk.len() implies shrunk[a].0 != shrunk[b].0 by {
        assert(shrunk[a] == entries[back(a)] && shrunk[b] == entries[back(b)]);
        assert(back(a) < back(b));
    }
    let left = as_map(shrunk);
    let right = as_map(entries).remove(session);
    assert forall|id: i64| left.dom().contains(id) <==> right.dom().contains(id) by {
        if has_key(shrunk, id) {
            let k = choose|k: int| 0 <= k < shrunk.len() && shrunk[k].0 == id;
            assert(shrunk[k] == entries[back(k)]);
            assert(has_key(entries, id));
            if back(k) < i {
                assert(entries[back(k)].0 != entries[i].0);
            } else {
                assert(entries[i].0 != entries[back(k)].0);
            }
        }
        if has_key(entries, id) && id != session {
            let k = choose|k: int| 0 <= k < entries.len() && entries[k].0 == id;
            if k < i {
                assert(shrunk[k] == entries[back(k)]);
                assert(shrunk[k].0 == id);
            } else {
                assert(shrunk[k - 1] == entries[back(k - 1)]);
                assert(shrunk[k - 1].0 == id);
            }
            assert(has_key(shrunk, id));
        }
    }
    assert forall|id: i64| left.dom().contains(id) implies left[id] == right[id] by {
        let k = choose|k: int| 0 <= k < shrunk.len() && shrunk[k].0 == id;
        lemma_entry(shrunk, k);
        assert(shrunk[k] == entries[back(k)]);
        lemma_entry(entries, back(k));
    }
    assert(left =~= right);
}

impl AlertType {
    /// A copy of the variant.
    pub fn duplicate(&self) -> (copy: AlertType)
        ensures
            copy@ == self@,
    {
        match self {
            AlertType::Price { target_price, condition } => AlertType::Price {
                target_price: *target_price,
                condition: *condition,
            },
            AlertType::Depeg { target_price, differential, exchanges } => AlertType::Depeg {
                target_price: *target_price,
                differential: *differential,
                exchanges: clone_texts(exchanges),
            },
            AlertType::PairDepeg {
                token1,
                token2,
                expected_ratio,
                differential,
            } => AlertType::PairDepeg {
                token1: token1.clone(),
                token2: token2.clone(),
                expected_ratio: *expected_ratio,
                differential: *differential,
            },
        }
    }
}

impl PriceAlert {
    /// A copy of the alert.
    pub fn duplicate(&self) -> (copy: PriceAlert)
        ensures
            copy@ == self@,
    {
        PriceAlert {
            id: self.id,
            user_id: self.user_id,
            symbol: self.symbol.clone(),
            alert_type: self.alert_type.duplicate(),
            created_at: self.created_at,
            triggered_at: self.triggered_at,
            is_active: self.is_active,
        }
    }
}

impl AlertStore {
    #[verifier::type_invariant]
    spec fn consistent(self) -> bool {
        &&& self.alerts.len() < i64::MAX
        &&& forall|k: int|
            0 <= k < self.alerts.len() ==> (#[trigger] self.alerts[k]).id == Some((k + 1) as i64)
        &&& keys_distinct(self.sessions@)
    }

    /// The alerts, in the order in which they were saved.
    pub closed spec fn alerts(&self) -> Seq<PriceAlertView> {
        alert_views(self.alerts@)
    }

    /// The wizard state of each session that has one.
    pub closed spec fn sessions(&self) -> Map<i64, UserStateView> {
        as_map(self.sessions@)
    }

    /// Whether the alerts are numbered from one in their order.
    pub open spec fn numbered(&self) -> bool {
        numbered_from_one(self.alerts()) && self.alerts().len() < i64::MAX
    }

    /// An empty store.
    pub fn new() -> (store: AlertStore)
        ensures
            store.alerts().len() == 0,
            store.sessions() == Map::<i64, UserStateView>::empty(),
    {
        let store = AlertStore { alerts: Vec::new(), sessions: Vec::new() };
        proof {
            assert(as_map(store.sessions@) =~= Map::<i64, UserStateView>::empty());
        }
        store
    }

    /// The number of alerts ever saved.
    pub fn alert_count(&self) -> (count: usize)
        ensures
            count == self.alerts().len(),
            self.numbered(),
    {
        proof {
            use_type_invariant(self);
        }
        self.alerts.len()
    }

    /// Saves an alert under the next identifier and returns that identifier.
    /// The alert is stored with this identifier, active and not yet fired,
    /// whatever the alert itself said of these.
    pub fn save_alert(&mut self, alert: PriceAlert) -> (r: Result<i64, StoreError>)
        ensures
            final(self).sessions() == old(self).sessions(),
            old(self).alerts().len() + 1 < i64::MAX ==> r == Ok::<i64, StoreError>(
                (old(self).alerts().len() + 1) as i64,
            ) && final(self).alerts() == old(self).alerts().push(
                alert@.saved_as((old(self).alerts().len() + 1) as i64),
            ),
            old(self).alerts().len() + 1 >= i64::MAX ==> r == Err::<i64, StoreError>(
                StoreError::Full,
            ) && final(self).alerts() == old(self).alerts(),
    {
        proof {
            use_type_invariant(&*self);
        }
        let count = self.alerts.len();
        if count as u64 + 1 >= i64::MAX as u64 {
            return Err(StoreError::Full);
        }
        let id = (count as u64 + 1) as i64;
        let mut stored = alert;
        stored.id = Some(id);
        stored.triggered_at = None;
        stored.is_active = true;
        let mut alerts: Vec<PriceAlert> = Vec::new();
        std::mem::swap(&mut self.alerts, &mut alerts);
        alerts.push(stored);
        std::mem::swap(&mut self.alerts, &mut alerts);
        proof {
            assert(self.alerts() =~= old(self).alerts().push(alert@.saved_as(id)));
        }
        Ok(id)
    }

    /// The alert saved under `id`, if there is one.
    pub fn get_alert(&self, id: i64) -> (alert: Option<PriceAlert>)
        ensures
            is_stored(self.alerts().len(), id) ==> alert is Some && alert->0@ == self.alerts()[id
                - 1],
            !is_stored(self.alerts().len(), id) ==> alert is None,
    {
        proof {
            use_type_invariant(self);
        }
        if id < 1 || id as u64 > self.alerts.len() as u64 {
            return None;
        }
        let index = (id - 1) as usize;
        Some(self.alerts[index].duplicate())
    }

    /// The active alerts, in the order in which they were saved.
    pub fn get_active_alerts(&self) -> (active: Vec<PriceAlert>)
        ensures
            alert_views(active@) == active_among(self.alerts()),
    {
        let mut active: Vec<PriceAlert> = Vec::new();
        let mut i: usize = 0;
        while i < self.alerts.len()
            invariant
                i <= self.alerts.len(),
                alert_views(active@) == active_among(self.alerts().take(i as int)),
            decreases self.alerts.len() - i,
        {
            proof {
                assert(self.alerts().take(i + 1).drop_last() =~= self.alerts().take(i as int));
                assert(self.alerts().take(i + 1).last() == self.alerts@[i as int]@);
            }
            if self.alerts[i].is_active {
                let ghost before = active@;
                active.push(self.alerts[i].duplicate());
                proof {
                    assert(alert_views(active@) =~= alert_views(before).push(
                        self.alerts@[i as int]@,
                    ));
                }
            }
            i += 1;
        }
        proof {
            assert(self.alerts().take(i as int) =~= self.alerts());
        }
        active
    }

    /// Records that the alert `id` fired at `now`.
    ///
    /// Succeeds exactly if there is such an alert and it is active.  It is
    /// then inactive and carries the time; no other alert changes.
    pub fn mark_triggered(&mut self, id: i64, now: i64) -> (r: Result<(), StoreError>)
        ensures
            final(self).sessions() == old(self).sessions(),
            !is_stored(old(self).alerts().len(), id) ==> r == Err::<(), StoreError>(
                StoreError::UnknownAlert,
            ) && final(self).alerts() == old(self).alerts(),
            is_stored(old(self).alerts().len(), id) && !old(self).alerts()[id - 1].is_active ==> r
                == Err::<(), StoreError>(StoreError::AlreadyTriggered) && final(self).alerts()
                == old(self).alerts(),
            is_stored(old(self).alerts().len(), id) && old(self).alerts()[id - 1].is_active ==> r
                == Ok::<(), StoreError>(()) && final(self).alerts() == old(self).alerts().update(
                id - 1,
                old(self).alerts()[id - 1].triggered(now),
            ),
    {
        proof {
            use_type_invariant(&*self);
        }
        if id < 1 || id as u64 > self.alerts.len() as u64 {
            return Err(StoreError::UnknownAlert);
        }
        let index = (id - 1) as usize;
        if !self.alerts[index].is_active {
            return Err(StoreError::AlreadyTriggered);
        }
        let mut fired = self.alerts[index].duplicate();
        fired.mark_triggered(now);
        let mut alerts: Vec<PriceAlert> = Vec::new();
        std::mem::swap(&mut self.alerts, &mut alerts);
        alerts.set(index, fired);
        std::mem::swap(&mut self.alerts, &mut alerts);
        proof {
            assert(self.alerts() =~= old(self).alerts().update(
                id - 1,
                old(self).alerts()[id - 1].triggered(now),
            ));
        }
        Ok(())
    }

    /// Position of the state of `session` among the states, if it has one.
    fn find_session(&self, session: i64) -> (at: Option<usize>)
        ensures
            at matches Some(i) ==> i < self.sessions.len() && self.sessions[i as int].0 == session,
            at is None ==> !has_key(self.sessions@, session),
    {
        let mut i: usize = 0;
        while i < self.sessions.len()
            invariant
                i <= self.sessions.len(),
                forall|j: int| 0 <= j < i ==> self.sessions[j].0 != session,
            decreases self.sessions.len() - i,
        {
            if self.sessions[i].0 == session {
                return Some(i);
            }
            i += 1;
        }
        None
    }

    /// The wizard state of `session`, if it has one.
    pub fn get_conversation_state(&self, session: i64) -> (state: Option<UserState>)
        ensures
            self.sessions().dom().contains(session) ==> state is Some && state->0@
                == self.sessions()[session],
            !self.sessions().dom().contains(session) ==> state is None,
    {
        proof {
            use_type_invariant(self);
        }
        match self.find_session(session) {
            Some(i) => {
                proof {
                    lemma_entry(self.sessions@, i as int);
                }
                Some(self.sessions[i].1.duplicate())
            },
            None => None,
        }
    }

    /// Makes `state` the wizard state of `session`, in place of any it had.
    pub fn save_conversation_state(&mut self, session: i64, state: UserState)
        ensures
            final(self).alerts() == old(self).alerts(),
            final(self).sessions() == old(self).sessions().insert(session, state@),
    {
        proof {
            use_type_invariant(&*self);
        }
        let found = self.find_session(session);
        let mut sessions: Vec<(i64, UserState)> = Vec::new();
        std::mem::swap(&mut self.sessions, &mut sessions);
        match found {
            Some(i) => {
                proof {
                    lemma_as_map_update(sessions@, i as int, state);
                }
                sessions.set(i, (session, state));
            },
            None => {
                proof {
                    lemma_as_map_push(sessions@, session, state);
                }
                sessions.push((session, state));
            },
        }
        std::mem::swap(&mut self.sessions, &mut sessions);
    }

    /// Removes the wizard state of `session`, if it has one.
    pub fn clear_conversation_state(&mut self, session: i64)
        ensures
            final(self).alerts() == old(self).alerts(),
            final(self).sessions() == old(self).sessions().remove(session),
    {
        proof {
            use_type_invariant(&*self);
        }
        match self.find_session(session) {
            Some(i) => {
                let mut sessions: Vec<(i64, UserState)> = Vec::new();
                std::mem::swap(&mut self.sessions, &mut sessions);
                proof {
                    lemma_as_map_remove(sessions@, i as int);
                }
                sessions.remove(i);
                std::mem::swap(&mut self.sessions, &mut sessions);
            },
            None => {
                proof {
                    assert(self.sessions() =~= old(self).sessions().remove(session));
                }
            },
        }
    }
}

} // verus!
