//! The state of the relay pool: for each relay URL whether it is connected,
//! whether the user wants it connected, its reconnect state and its
//! persistent subscriptions.
//!
//! The pool is a total map from relay URLs to relay states: a URL that was
//! never mentioned is idle.

use vstd::prelude::*;
use crate::backoff::{MAX_BACKOFF_EXP, next_backoff_exp};
use crate::net::{relay_key, relay_key_spec};

verus! {

/// One persistent subscription of a relay.
#[derive(Debug)]
pub struct Subscription {
    pub sub_id: String,
    /// The filter as compact JSON text.
    pub filter: String,
}

pub struct SubscriptionView {
    pub sub_id: Seq<char>,
    pub filter: Seq<char>,
}

impl View for Subscription {
    type V = SubscriptionView;

    open spec fn view(&self) -> SubscriptionView {
        SubscriptionView { sub_id: self.sub_id@, filter: self.filter@ }
    }
}

/// The views of a list of subscriptions.
pub open spec fn subscription_views(subs: Seq<Subscription>) -> Seq<SubscriptionView> {
    Seq::new(subs.len(), |i: int| subs[i]@)
}

/// What the pool knows of one relay.
pub struct RelayView {
    /// A connection entry exists.
    pub connected: bool,
    /// The user wants the relay connected.
    pub desired: bool,
    /// The reconnect backoff exponent.
    pub backoff_exp: nat,
    /// A reconnect is scheduled or under way.
    pub reconnect_in_flight: bool,
    /// The persistent subscriptions, oldest first.
    pub subscriptions: Seq<SubscriptionView>,
}

/// The state of a relay that was never mentioned.
pub open spec fn idle_relay() -> RelayView {
    RelayView {
        connected: false,
        desired: false,
        backoff_exp: 0,
        reconnect_in_flight: false,
        subscriptions: Seq::empty(),
    }
}

/// Some subscription in `subs` has the id `id`.
pub open spec fn has_id(subs: Seq<SubscriptionView>, id: Seq<char>) -> bool {
    exists|i: int| 0 <= i < subs.len() && (#[trigger] subs[i]).sub_id == id
}

/// The place of the subscription with the id `id`.
pub open spec fn id_index(subs: Seq<SubscriptionView>, id: Seq<char>) -> int {
    choose|i: int| 0 <= i < subs.len() && (#[trigger] subs[i]).sub_id == id
}

/// No two subscriptions share an id.
pub open spec fn distinct_ids(subs: Seq<SubscriptionView>) -> bool {
    forall|i: int, j: int|
        0 <= i < subs.len() && 0 <= j < subs.len() && i != j ==> (#[trigger] subs[i]).sub_id != (
        #[trigger] subs[j]).sub_id
}

/// The filter stored under `id`.
pub open spec fn filter_of(subs: Seq<SubscriptionView>, id: Seq<char>) -> Option<Seq<char>> {
    if has_id(subs, id) {
        Some(subs[id_index(subs, id)].filter)
    } else {
        None
    }
}

/// `subs` with `filter` stored under `id`: in the place of the old filter if
/// there was one, at the end otherwise.
pub open spec fn upsert(subs: Seq<SubscriptionView>, id: Seq<char>, filter: Seq<char>) -> Seq<
    SubscriptionView,
> {
    if has_id(subs, id) {
        subs.update(id_index(subs, id), SubscriptionView { sub_id: id, filter })
    } else {
        subs.push(SubscriptionView { sub_id: id, filter })
    }
}

/// `subs` without the subscription `id`.
pub open spec fn without(subs: Seq<SubscriptionView>, id: Seq<char>) -> Seq<SubscriptionView> {
    if has_id(subs, id) {
        subs.remove(id_index(subs, id))
    } else {
        subs
    }
}

impl RelayView {
    /// The exponent is at most six, a reconnect is in flight only for a
    /// wanted relay, and no two subscriptions share an id.
    pub open spec fn wf(self) -> bool {
        &&& self.backoff_exp <= MAX_BACKOFF_EXP as nat
        &&& self.reconnect_in_flight ==> self.desired
        &&& distinct_ids(self.subscriptions)
    }

    pub open spec fn wanted(self) -> RelayView {
        RelayView { desired: true, ..self }
    }

    /// A connection was installed: the reconnect state drops to zero.
    pub open spec fn established(self) -> RelayView {
        RelayView { connected: true, backoff_exp: 0, reconnect_in_flight: false, ..self }
    }

    /// The user disconnected: nothing is left but the subscriptions.
    pub open spec fn released(self) -> RelayView {
        RelayView {
            connected: false,
            desired: false,
            backoff_exp: 0,
            reconnect_in_flight: false,
            ..self
        }
    }

    /// The connection entry is gone.
    pub open spec fn dropped(self) -> RelayView {
        RelayView { connected: false, ..self }
    }

    /// Whether a call of the reconnect scheduler schedules anything.
    pub open spec fn can_schedule(self) -> bool {
        self.desired && !self.reconnect_in_flight
    }

    /// The reconnect scheduler ran: a reconnect is scheduled if the relay is
    /// wanted and none was in flight, and the exponent grows by one.
    pub open spec fn scheduled(self) -> RelayView {
        if self.can_schedule() {
            RelayView {
                reconnect_in_flight: true,
                backoff_exp: next_backoff_exp(self.backoff_exp),
                ..self
            }
        } else {
            self
        }
    }

    /// The in-flight flag is cleared.
    pub open spec fn settled(self) -> RelayView {
        RelayView { reconnect_in_flight: false, ..self }
    }

    pub open spec fn subscribed(self, id: Seq<char>, filter: Seq<char>) -> RelayView {
        RelayView { subscriptions: upsert(self.subscriptions, id, filter), ..self }
    }

    pub open spec fn unsubscribed(self, id: Seq<char>) -> RelayView {
        RelayView { subscriptions: without(self.subscriptions, id), ..self }
    }
}

/// The pool as a total map from relay URLs to relay states.
pub type PoolView = Map<Seq<char>, RelayView>;

/// The state of the relay that `url` names.
pub open spec fn relay_of(pool: PoolView, url: Seq<char>) -> RelayView {
    pool[relay_key_spec(url)]
}

/// The pool with the state `relay` for the relay that `url` names.
pub open spec fn with_relay(pool: PoolView, url: Seq<char>, relay: RelayView) -> PoolView {
    pool.insert(relay_key_spec(url), relay)
}

/// The pool in which every relay is idle.
pub open spec fn empty_pool() -> PoolView {
    Map::total(|url: Seq<char>| idle_relay())
}

/// Every URL has a state, and every state is well formed.
pub open spec fn pool_wf(pool: PoolView) -> bool {
    &&& forall|url: Seq<char>| pool.dom().contains(url)
    &&& forall|url: Seq<char>| (#[trigger] pool[url]).wf()
}

struct RelayEntry {
    url: String,
    connected: bool,
    desired: bool,
    backoff_exp: u32,
    reconnect_in_flight: bool,
    subscriptions: Vec<Subscription>,
}

impl RelayEntry {
    spec fn state(self) -> RelayView {
        RelayView {
            connected: self.connected,
            desired: self.desired,
            backoff_exp: self.backoff_exp as nat,
            reconnect_in_flight: self.reconnect_in_flight,
            subscriptions: subscription_views(self.subscriptions@),
        }
    }
}

spec fn has_url(relays: Seq<RelayEntry>, url: Seq<char>) -> bool {
    exists|i: int| 0 <= i < relays.len() && (#[trigger] relays[i]).url@ == url
}

spec fn url_index(relays: Seq<RelayEntry>, url: Seq<char>) -> int {
    choose|i: int| 0 <= i < relays.len() && (#[trigger] relays[i]).url@ == url
}

spec fn distinct_urls(relays: Seq<RelayEntry>) -> bool {
    forall|i: int, j: int|
        0 <= i < relays.len() && 0 <= j < relays.len() && i != j ==> (#[trigger] relays[i]).url@
            != (#[trigger] relays[j]).url@
}

spec fn state_of(relays: Seq<RelayEntry>, url: Seq<char>) -> RelayView {
    if has_url(relays, url) {
        relays[url_index(relays, url)].state()
    } else {
        idle_relay()
    }
}

spec fn view_of(relays: Seq<RelayEntry>) -> PoolView {
    Map::total(|url: Seq<char>| state_of(relays, url))
}

spec fn entries_wf(relays: Seq<RelayEntry>) -> bool {
    &&& distinct_urls(relays)
    &&& forall|i: int| 0 <= i < relays.len() ==> (#[trigger] relays[i]).state().wf()
}

proof fn lemma_state_at(relays: Seq<RelayEntry>, i: int)
    requires
        distinct_urls(relays),
        0 <= i < relays.len(),
    ensures
        has_url(relays, relays[i].url@),
        url_index(relays, relays[i].url@) == i,
        state_of(relays, relays[i].url@) == relays[i].state(),
{
    let url = relays[i].url@;
    assert(has_url(relays, url));
    let j = url_index(relays, url);
    assert(0 <= j < relays.len() && relays[j].url@ == url);
}

proof fn lemma_view_wf(relays: Seq<RelayEntry>)
    requires
        entries_wf(relays),
    ensures
        pool_wf(view_of(relays)),
{
    let pool = view_of(relays);
    assert forall|url: Seq<char>| (#[trigger] pool[url]).wf() by {
        if has_url(relays, url) {
            let j = url_index(relays, url);
            assert(relays[j].state().wf());
        }
    }
}

/// Replacing the entry at `i` by one with the same URL changes the view at
/// that URL only.
proof fn lemma_view_replaced(before: Seq<RelayEntry>, after: Seq<RelayEntry>, i: int)
    requires
        distinct_urls(before),
        0 <= i < before.len(),
        after.len() == before.len(),
        after[i].url@ == before[i].url@,
        forall|j: int| 0 <= j < before.len() && j != i ==> after[j] == before[j],
    ensures
        distinct_urls(after),
        view_of(after) == view_of(before).insert(before[i].url@, after[i].state()),
{
    let url = before[i].url@;
    assert(distinct_urls(after)) by {
        assert forall|a: int, b: int|
            0 <= a < after.len() && 0 <= b < after.len() && a != b implies (#[trigger] after[a]).url@
            != (#[trigger] after[b]).url@ by {
            assert(after[a].url@ == before[a].url@);
            assert(after[b].url@ == before[b].url@);
        }
    }
    assert forall|u: Seq<char>| #[trigger]
        state_of(after, u) == (if u == url {
            after[i].state()
        } else {
            state_of(before, u)
        }) by {
        if u == url {
            lemma_state_at(after, i);
        } else if has_url(before, u) {
            let j = url_index(before, u);
            assert(j != i);
            assert(after[j] == before[j]);
            lemma_state_at(before, j);
            lemma_state_at(after, j);
        } else {
            if has_url(after, u) {
                let j = url_index(after, u);
                assert(before[j].url@ == u);
                assert(false);
            }
        }
    }
    assert(view_of(after) =~= view_of(before).insert(url, after[i].state()));
}

/// Adding an entry for a URL that has none changes the view at that URL only.
proof fn lemma_view_pushed(before: Seq<RelayEntry>, entry: RelayEntry)
    requires
        distinct_urls(before),
        !has_url(before, entry.url@),
    ensures
        distinct_urls(before.push(entry)),
        view_of(before.push(entry)) == view_of(before).insert(entry.url@, entry.state()),
        state_of(before, entry.url@) == idle_relay(),
{
    let after = before.push(entry);
    let url = entry.url@;
    let last = before.len() as int;
    assert(distinct_urls(after)) by {
        assert forall|a: int, b: int|
            0 <= a < after.len() && 0 <= b < after.len() && a != b implies (#[trigger] after[a]).url@
            != (#[trigger] after[b]).url@ by {
            if a < last && b < last {
                assert(after[a] == before[a]);
                assert(after[b] == before[b]);
            } else if a < last {
                assert(after[a] == before[a]);
                assert(before[a].url@ != url);
            } else {
                assert(after[b] == before[b]);
                assert(before[b].url@ != url);
            }
        }
    }
    assert forall|u: Seq<char>| #[trigger]
        state_of(after, u) == (if u == url {
            entry.state()
        } else {
            state_of(before, u)
        }) by {
        if u == url {
            lemma_state_at(after, last);
        } else if has_url(before, u) {
            let j = url_index(before, u);
            assert(after[j] == before[j]);
            lemma_state_at(before, j);
            lemma_state_at(after, j);
        } else {
            if has_url(after, u) {
                let j = url_index(after, u);
                assert(j < last);
                assert(before[j].url@ == u);
                assert(false);
            }
        }
    }
    assert(view_of(after) =~= view_of(before).insert(url, entry.state()));
}

proof fn lemma_id_at(subs: Seq<SubscriptionView>, k: int)
    requires
        distinct_ids(subs),
        0 <= k < subs.len(),
    ensures
        has_id(subs, subs[k].sub_id),
        id_index(subs, subs[k].sub_id) == k,
{
    let id = subs[k].sub_id;
    assert(has_id(subs, id));
    let j = id_index(subs, id);
    assert(0 <= j < subs.len() && subs[j].sub_id == id);
}

/// Storing a filter keeps the ids distinct.
pub proof fn lemma_upsert_distinct(subs: Seq<SubscriptionView>, id: Seq<char>, filter: Seq<char>)
    requires
        distinct_ids(subs),
    ensures
        distinct_ids(upsert(subs, id, filter)),
        has_id(upsert(subs, id, filter), id),
        filter_of(upsert(subs, id, filter), id) == Some(filter),
{
    let after = upsert(subs, id, filter);
    if has_id(subs, id) {
        let k = id_index(subs, id);
        assert forall|i: int, j: int|
            0 <= i < after.len() && 0 <= j < after.len() && i != j implies (#[trigger] after[i]).sub_id
            != (#[trigger] after[j]).sub_id by {
            assert(after[i].sub_id == subs[i].sub_id);
            assert(after[j].sub_id == subs[j].sub_id);
        }
        assert(after[k].sub_id == id);
        lemma_id_at(after, k);
    } else {
        let last = subs.len() as int;
        assert forall|i: int, j: int|
            0 <= i < after.len() && 0 <= j < after.len() && i != j implies (#[trigger] after[i]).sub_id
            != (#[trigger] after[j]).sub_id by {
            if i < last {
                assert(after[i] == subs[i]);
            }
            if j < last {
                assert(after[j] == subs[j]);
            }
        }
        assert(after[last].sub_id == id);
        lemma_id_at(after, last);
    }
}

/// Removing a subscription keeps the ids distinct, and the id is gone.
pub proof fn lemma_without_distinct(subs: Seq<SubscriptionView>, id: Seq<char>)
    requires
        distinct_ids(subs),
    ensures
        distinct_ids(without(subs, id)),
        !has_id(without(subs, id), id),
{
    let after = without(subs, id);
    if has_id(subs, id) {
        let k = id_index(subs, id);
        assert forall|i: int| 0 <= i < after.len() implies (#[trigger] after[i]) == subs[if i < k {
            i
        } else {
            i + 1
        }] by {}
        assert forall|i: int, j: int|
            0 <= i < after.len() && 0 <= j < after.len() && i != j implies (#[trigger] after[i]).sub_id
            != (#[trigger] after[j]).sub_id by {
            let a = if i < k { i } else { i + 1 };
            let b = if j < k { j } else { j + 1 };
            assert(after[i] == subs[a]);
            assert(after[j] == subs[b]);
        }
        if has_id(after, id) {
            let j = id_index(after, id);
            let b = if j < k { j } else { j + 1 };
            assert(after[j] == subs[b]);
            assert(subs[b].sub_id == subs[k].sub_id);
            assert(false);
        }
    }
}

/// A stored filter is found under its id, and storing it leaves every other
/// id as it was: `upsert` is the insertion into the mapping from ids to
/// filters.
pub proof fn lemma_subscribe_is_insert(
    subs: Seq<SubscriptionView>,
    id: Seq<char>,
    filter: Seq<char>,
    other: Seq<char>,
)
    requires
        distinct_ids(subs),
    ensures
        filter_of(upsert(subs, id, filter), id) == Some(filter),
        other != id ==> filter_of(upsert(subs, id, filter), other) == filter_of(subs, other),
{
    lemma_upsert_distinct(subs, id, filter);
    let after = upsert(subs, id, filter);
    if other != id {
        if has_id(subs, other) {
            let j = id_index(subs, other);
            assert(after[j] == subs[j]);
            lemma_id_at(after, j);
        } else if has_id(after, other) {
            let j = id_index(after, other);
            if j < subs.len() && after[j] == subs[j] {
                assert(subs[j].sub_id == other);
            }
            assert(false);
        }
    }
}

/// A removed id is no longer found, and removing it leaves every other id as
/// it was: `without` is the removal from the mapping from ids to filters.
pub proof fn lemma_unsubscribe_is_remove(subs: Seq<SubscriptionView>, id: Seq<char>, other: Seq<char>)
    requires
        distinct_ids(subs),
    ensures
        filter_of(without(subs, id), id) is None,
        other != id ==> filter_of(without(subs, id), other) == filter_of(subs, other),
{
    lemma_without_distinct(subs, id);
    let after = without(subs, id);
    if other != id && has_id(subs, id) {
        let k = id_index(subs, id);
        if has_id(subs, other) {
            let j = id_index(subs, other);
            let moved = if j < k { j } else { j - 1 };
            assert(after[moved] == subs[j]);
            lemma_id_at(after, moved);
        } else if has_id(after, other) {
            let j = id_index(after, other);
            let origin = if j < k { j } else { j + 1 };
            assert(after[j] == subs[origin]);
            assert(subs[origin].sub_id == other);
            assert(false);
        }
    }
}

/// Subscribing and then unsubscribing the same id leaves the subscriptions as
/// they were without that id: empty, if the relay had no other subscription.
pub proof fn lemma_subscribe_then_unsubscribe(
    subs: Seq<SubscriptionView>,
    id: Seq<char>,
    filter: Seq<char>,
)
    requires
        distinct_ids(subs),
    ensures
        without(upsert(subs, id, filter), id) == without(subs, id),
        (forall|i: int| 0 <= i < subs.len() ==> (#[trigger] subs[i]).sub_id == id) ==> without(
            upsert(subs, id, filter),
            id,
        ) == Seq::<SubscriptionView>::empty(),
{
    lemma_upsert_distinct(subs, id, filter);
    let after = upsert(subs, id, filter);
    if has_id(subs, id) {
        let k = id_index(subs, id);
        assert(after[k].sub_id == id);
        lemma_id_at(after, k);
        assert(after.remove(k) =~= subs.remove(k));
    } else {
        let last = subs.len() as int;
        assert(after[last].sub_id == id);
        lemma_id_at(after, last);
        assert(after.remove(last) =~= subs);
    }
    if forall|i: int| 0 <= i < subs.len() ==> (#[trigger] subs[i]).sub_id == id {
        if subs.len() >= 2 {
            assert(subs[0].sub_id == subs[1].sub_id);
            assert(false);
        }
        if subs.len() == 1 {
            assert(subs[0].sub_id == id);
            assert(has_id(subs, id));
        }
        assert(without(subs, id) =~= Seq::<SubscriptionView>::empty());
    }
}

/// Every transition of a relay's state keeps it well formed.
pub proof fn lemma_transitions_keep_wf(relay: RelayView, id: Seq<char>, filter: Seq<char>)
    requires
        relay.wf(),
    ensures
        relay.wanted().wf(),
        relay.established().wf(),
        relay.released().wf(),
        relay.dropped().wf(),
        relay.scheduled().wf(),
        relay.settled().wf(),
        relay.subscribed(id, filter).wf(),
        relay.unsubscribed(id).wf(),
{
    lemma_upsert_distinct(relay.subscriptions, id, filter);
    lemma_without_distinct(relay.subscriptions, id);
}

/// A relay with a pending reconnect is a relay that the user wants connected.
/// The scheduler never makes a reconnect pending for any other relay, and
/// never a second one.
pub proof fn lemma_pending_reconnect_is_wanted(pool: PoolView, url: Seq<char>)
    requires
        pool_wf(pool),
    ensures
        pool[url].reconnect_in_flight ==> pool[url].desired,
        pool[url].scheduled().reconnect_in_flight ==> pool[url].scheduled().desired,
        !pool[url].desired ==> pool[url].scheduled() == pool[url],
        pool[url].reconnect_in_flight ==> pool[url].scheduled() == pool[url],
{
    assert(pool[url].wf());
}

/// A connection entry comes only with an installed connection and goes only
/// with a disconnect or a lost connection; nothing else touches it.
pub proof fn lemma_connection_entry_changes(relay: RelayView, id: Seq<char>, filter: Seq<char>)
    ensures
        relay.established().connected,
        !relay.released().connected,
        !relay.dropped().connected,
        relay.wanted().connected == relay.connected,
        relay.scheduled().connected == relay.connected,
        relay.settled().connected == relay.connected,
        relay.subscribed(id, filter).connected == relay.connected,
        relay.unsubscribed(id).connected == relay.connected,
{
}

/// The subscriptions of a relay do not depend on its connection: subscribing
/// and unsubscribing read nothing but the subscriptions and change nothing
/// else, and no other transition touches the subscriptions.
pub proof fn lemma_subscriptions_independent(
    a: RelayView,
    b: RelayView,
    id: Seq<char>,
    filter: Seq<char>,
)
    requires
        a.subscriptions == b.subscriptions,
    ensures
        a.subscribed(id, filter).subscriptions == b.subscribed(id, filter).subscriptions,
        a.unsubscribed(id).subscriptions == b.unsubscribed(id).subscriptions,
        a.subscribed(id, filter) == (RelayView {
            subscriptions: a.subscribed(id, filter).subscriptions,
            ..a
        }),
        a.unsubscribed(id) == (RelayView { subscriptions: a.unsubscribed(id).subscriptions, ..a }),
        a.wanted().subscriptions == a.subscriptions,
        a.established().subscriptions == a.subscriptions,
        a.released().subscriptions == a.subscriptions,
        a.dropped().subscriptions == a.subscriptions,
        a.scheduled().subscriptions == a.subscriptions,
        a.settled().subscriptions == a.subscriptions,
{
}

fn find_subscription(subs: &Vec<Subscription>, id: &str) -> (r: Option<usize>)
    requires
        distinct_ids(subscription_views(subs@)),
    ensures
        match r {
            Some(k) => k < subs.len() && subs@[k as int].sub_id@ == id@ && has_id(
                subscription_views(subs@),
                id@,
            ) && id_index(subscription_views(subs@), id@) == k,
            None => !has_id(subscription_views(subs@), id@),
        },
{
    let wanted = id.to_string();
    let ghost views = subscription_views(subs@);
    let mut k: usize = 0;
    while k < subs.len()
        invariant
            k <= subs.len(),
            wanted@ == id@,
            views == subscription_views(subs@),
            distinct_ids(views),
            forall|j: int| 0 <= j < k ==> (#[trigger] views[j]).sub_id != id@,
        decreases subs.len() - k,
    {
        if subs[k].sub_id == wanted {
            proof {
                assert(views[k as int].sub_id == id@);
                lemma_id_at(views, k as int);
            }
            return Some(k);
        }
        assert(views[k as int].sub_id != id@);
        k = k + 1;
    }
    None
}

fn upsert_subscription(subs: &mut Vec<Subscription>, id: String, filter: String)
    requires
        distinct_ids(subscription_views(old(subs)@)),
    ensures
        subscription_views(final(subs)@) == upsert(subscription_views(old(subs)@), id@, filter@),
        distinct_ids(subscription_views(final(subs)@)),
{
    let ghost before = subscription_views(subs@);
    proof {
        lemma_upsert_distinct(before, id@, filter@);
    }
    match find_subscription(subs, id.as_str()) {
        Some(k) => {
            subs.set(k, Subscription { sub_id: id, filter });
            assert(subscription_views(subs@) =~= upsert(before, id@, filter@));
        },
        None => {
            subs.push(Subscription { sub_id: id, filter });
            assert(subscription_views(subs@) =~= upsert(before, id@, filter@));
        },
    }
}

fn delete_subscription(subs: &mut Vec<Subscription>, id: &str)
    requires
        distinct_ids(subscription_views(old(subs)@)),
    ensures
        subscription_views(final(subs)@) == without(subscription_views(old(subs)@), id@),
        distinct_ids(subscription_views(final(subs)@)),
{
    let ghost before = subscription_views(subs@);
    proof {
        lemma_without_distinct(before, id@);
    }
    match find_subscription(subs, id) {
        Some(k) => {
            let _ = subs.remove(k);
            assert(subscription_views(subs@) =~= without(before, id@));
        },
        None => {},
    }
}

fn copy_subscriptions(subs: &Vec<Subscription>) -> (copy: Vec<Subscription>)
    ensures
        subscription_views(copy@) == subscription_views(subs@),
{
    let mut copy: Vec<Subscription> = Vec::new();
    let mut k: usize = 0;
    while k < subs.len()
        invariant
            k <= subs.len(),
            copy@.len() == k,
            forall|j: int| 0 <= j < k ==> (#[trigger] copy@[j])@ == subs@[j]@,
        decreases subs.len() - k,
    {
        copy.push(Subscription { sub_id: subs[k].sub_id.clone(), filter: subs[k].filter.clone() });
        k = k + 1;
    }
    assert(subscription_views(copy@) =~= subscription_views(subs@));
    copy
}


/// The relay pool.
pub struct RelayPool {
    relays: Vec<RelayEntry>,
}

impl View for RelayPool {
    type V = PoolView;

    closed spec fn view(&self) -> PoolView {
        view_of(self.relays@)
    }
}

impl RelayPool {
    /// The pool's own invariant. Every function of the pool keeps it.
    pub closed spec fn wf(&self) -> bool {
        entries_wf(self.relays@)
    }

    /// In a well-formed pool every relay's state is well formed: above all, a
    /// reconnect is in flight only for a relay that the user wants connected.
    pub proof fn lemma_wf(&self)
        requires
            self.wf(),
        ensures
            pool_wf(self@),
    {
        lemma_view_wf(self.relays@);
    }

    /// A pool in which every relay is idle.
    pub fn new() -> (pool: Self)
        ensures
            pool.wf(),
            pool@ == empty_pool(),
    {
        let pool = RelayPool { relays: Vec::new() };
        proof {
            assert forall|url: Seq<char>| #[trigger] state_of(pool.relays@, url) == idle_relay() by {
                assert(!has_url(pool.relays@, url));
            }
            assert(pool@ =~= empty_pool());
        }
        pool
    }

    fn find(&self, url: &str) -> (r: Option<usize>)
        requires
            self.wf(),
        ensures
            match r {
                Some(i) => i < self.relays@.len() && self.relays@[i as int].url@ == url@
                    && self@[url@] == self.relays@[i as int].state(),
                None => !has_url(self.relays@, url@) && self@[url@] == idle_relay(),
            },
    {
        let wanted = url.to_string();
        let mut i: usize = 0;
        while i < self.relays.len()
            invariant
                i <= self.relays.len(),
                wanted@ == url@,
                self.wf(),
                forall|j: int| 0 <= j < i ==> (#[trigger] self.relays@[j]).url@ != url@,
            decreases self.relays.len() - i,
        {
            if self.relays[i].url == wanted {
                proof {
                    lemma_state_at(self.relays@, i as int);
                }
                return Some(i);
            }
            i = i + 1;
        }
        None
    }

    /// The place of the entry for `url`, which is made if there is none.
    fn entry(&mut self, url: &str) -> (i: usize)
        requires
            old(self).wf(),
        ensures
            final(self).wf(),
            final(self)@ == old(self)@,
            i < final(self).relays@.len(),
            final(self).relays@[i as int].url@ == url@,
            final(self).relays@[i as int].state() == old(self)@[url@],
    {
        match self.find(url) {
            Some(i) => i,
            None => {
                let fresh = RelayEntry {
                    url: url.to_string(),
                    connected: false,
                    desired: false,
                    backoff_exp: 0,
                    reconnect_in_flight: false,
                    subscriptions: Vec::new(),
                };
                proof {
                    assert(subscription_views(fresh.subscriptions@) =~= Seq::empty());
                    assert(fresh.state() == idle_relay());
                    lemma_view_pushed(self.relays@, fresh);
                    assert(view_of(self.relays@).insert(url@, idle_relay()) =~= view_of(
                        self.relays@,
                    ));
                }
                self.relays.push(fresh);
                self.relays.len() - 1
            },
        }
    }

    /// Whether a connection entry exists for `url`.
    pub fn is_connected(&self, url: &str) -> (b: bool)
        requires
            self.wf(),
        ensures
            b == relay_of(self@, url@).connected,
    {
        let key = relay_key(url);
        let url = key.as_str();
        match self.find(url) {
            Some(i) => self.relays[i].connected,
            None => false,
        }
    }

    /// Whether the user wants `url` connected.
    pub fn is_desired(&self, url: &str) -> (b: bool)
        requires
            self.wf(),
        ensures
            b == relay_of(self@, url@).desired,
    {
        let key = relay_key(url);
        let url = key.as_str();
        match self.find(url) {
            Some(i) => self.relays[i].desired,
            None => false,
        }
    }

    /// Whether a reconnect of `url` is scheduled or under way.
    pub fn is_reconnect_in_flight(&self, url: &str) -> (b: bool)
        requires
            self.wf(),
        ensures
            b == relay_of(self@, url@).reconnect_in_flight,
    {
        let key = relay_key(url);
        let url = key.as_str();
        match self.find(url) {
            Some(i) => self.relays[i].reconnect_in_flight,
            None => false,
        }
    }

    /// The reconnect backoff exponent of `url`.
    pub fn backoff_exponent(&self, url: &str) -> (exp: u32)
        requires
            self.wf(),
        ensures
            exp == relay_of(self@, url@).backoff_exp,
            exp <= MAX_BACKOFF_EXP,
    {
        let key = relay_key(url);
        let url = key.as_str();
        match self.find(url) {
            Some(i) => {
                assert(self.relays@[i as int].state().wf());
                self.relays[i].backoff_exp
            },
            None => 0,
        }
    }
    /// The user wants `url` connected.
    pub fn want(&mut self, url: &str)
        requires
            old(self).wf(),
        ensures
            final(self).wf(),
            final(self)@ == with_relay(old(self)@, url@, relay_of(old(self)@, url@).wanted()),
    {
        let key = relay_key(url);
        let url = key.as_str();
        let i = self.entry(url);
        let ghost before = self.relays@;
        self.relays[i].desired = true;
        proof {
            lemma_view_replaced(before, self.relays@, i as int);
            assert(before[i as int].state().wf());
        }
    }

    /// A connection to `url` was installed: the entry exists from now on and
    /// the reconnect state drops to zero.
    pub fn install_connection(&mut self, url: &str)
        requires
            old(self).wf(),
        ensures
            final(self).wf(),
            final(self)@ == with_relay(old(self)@, url@, relay_of(old(self)@, url@).established()),
    {
        let key = relay_key(url);
        let url = key.as_str();
        let i = self.entry(url);
        let ghost before = self.relays@;
        self.relays[i].connected = true;
        self.relays[i].backoff_exp = 0;
        self.relays[i].reconnect_in_flight = false;
        proof {
            lemma_view_replaced(before, self.relays@, i as int);
            assert(before[i as int].state().wf());
        }
    }

    /// The user gives `url` up: it is no longer wanted, its reconnect state
    /// drops to zero and its connection entry goes. The subscriptions stay.
    /// Returns whether there was a connection entry.
    pub fn release(&mut self, url: &str) -> (was_connected: bool)
        requires
            old(self).wf(),
        ensures
            final(self).wf(),
            final(self)@ == with_relay(old(self)@, url@, relay_of(old(self)@, url@).released()),
            was_connected == relay_of(old(self)@, url@).connected,
    {
        let key = relay_key(url);
        let url = key.as_str();
        let i = self.entry(url);
        let ghost before = self.relays@;
        let was_connected = self.relays[i].connected;
        self.relays[i].connected = false;
        self.relays[i].desired = false;
        self.relays[i].backoff_exp = 0;
        self.relays[i].reconnect_in_flight = false;
        proof {
            lemma_view_replaced(before, self.relays@, i as int);
            assert(before[i as int].state().wf());
        }
        was_connected
    }

    /// The connection entry of `url` goes.
    pub fn drop_connection(&mut self, url: &str)
        requires
            old(self).wf(),
        ensures
            final(self).wf(),
            final(self)@ == with_relay(old(self)@, url@, relay_of(old(self)@, url@).dropped()),
    {
        let key = relay_key(url);
        let url = key.as_str();
        let i = self.entry(url);
        let ghost before = self.relays@;
        self.relays[i].connected = false;
        proof {
            lemma_view_replaced(before, self.relays@, i as int);
            assert(before[i as int].state().wf());
        }
    }

    /// Runs the reconnect scheduler for `url`. A reconnect is scheduled only
    /// for a wanted relay that has none in flight; the delay then comes from
    /// the exponent as it stood, and the exponent grows by one.
    pub fn schedule(&mut self, url: &str) -> (delay_ms: Option<u64>)
        requires
            old(self).wf(),
        ensures
            final(self).wf(),
            final(self)@ == with_relay(old(self)@, url@, relay_of(old(self)@, url@).scheduled()),
            delay_ms == (if relay_of(old(self)@, url@).can_schedule() {
                Some(crate::backoff::backoff_delay_ms(relay_of(old(self)@, url@).backoff_exp) as u64)
            } else {
                None
            }),
    {
        let key = relay_key(url);
        let url = key.as_str();
        let i = self.entry(url);
        let ghost before = self.relays@;
        assert(before[i as int].state().wf());
        if self.relays[i].desired && !self.relays[i].reconnect_in_flight {
            let exp = self.relays[i].backoff_exp;
            let delay = crate::backoff::compute_backoff_delay(exp);
            self.relays[i].reconnect_in_flight = true;
            self.relays[i].backoff_exp = crate::backoff::bump_backoff_exp(exp);
            proof {
                lemma_view_replaced(before, self.relays@, i as int);
            }
            Some(delay)
        } else {
            proof {
                assert(old(self)@.insert(url@, old(self)@[url@]) =~= old(self)@);
            }
            None
        }
    }

    /// Clears the in-flight flag of `url`.
    pub fn settle(&mut self, url: &str)
        requires
            old(self).wf(),
        ensures
            final(self).wf(),
            final(self)@ == with_relay(old(self)@, url@, relay_of(old(self)@, url@).settled()),
    {
        let key = relay_key(url);
        let url = key.as_str();
        let i = self.entry(url);
        let ghost before = self.relays@;
        self.relays[i].reconnect_in_flight = false;
        proof {
            lemma_view_replaced(before, self.relays@, i as int);
            assert(before[i as int].state().wf());
        }
    }

    /// Stores `filter` under `sub_id` for `url`, over an older filter if there
    /// is one.
    pub fn put_subscription(&mut self, url: &str, sub_id: String, filter: String)
        requires
            old(self).wf(),
        ensures
            final(self).wf(),
            final(self)@ == with_relay(old(self)@, url@, relay_of(old(self)@, url@).subscribed(sub_id@, filter@)),
    {
        let key = relay_key(url);
        let url = key.as_str();
        let i = self.entry(url);
        let ghost before = self.relays@;
        assert(before[i as int].state().wf());
        upsert_subscription(&mut self.relays[i].subscriptions, sub_id, filter);
        proof {
            lemma_view_replaced(before, self.relays@, i as int);
        }
    }

    /// Removes the subscription `sub_id` of `url`, if there is one.
    pub fn remove_subscription(&mut self, url: &str, sub_id: &str)
        requires
            old(self).wf(),
        ensures
            final(self).wf(),
            final(self)@ == with_relay(old(self)@, url@, relay_of(old(self)@, url@).unsubscribed(sub_id@)),
    {
        let key = relay_key(url);
        let url = key.as_str();
        let i = self.entry(url);
        let ghost before = self.relays@;
        assert(before[i as int].state().wf());
        delete_subscription(&mut self.relays[i].subscriptions, sub_id);
        proof {
            lemma_view_replaced(before, self.relays@, i as int);
        }
    }

    /// The persistent subscriptions of `url`, oldest first.
    pub fn subscriptions(&self, url: &str) -> (subs: Vec<Subscription>)
        requires
            self.wf(),
        ensures
            subscription_views(subs@) == relay_of(self@, url@).subscriptions,
    {
        let key = relay_key(url);
        let url = key.as_str();
        match self.find(url) {
            Some(i) => copy_subscriptions(&self.relays[i].subscriptions),
            None => {
                let subs: Vec<Subscription> = Vec::new();
                assert(subscription_views(subs@) =~= Seq::empty());
                subs
            },
        }
    }
}

} // verus!
