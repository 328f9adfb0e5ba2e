//! Deleting a subscription with everything it owns: its providers, their
//! nodes and its implicit pools, as long as nothing else refers to them.
use vstd::prelude::*;

use crate::domain::{
    AppState, AppStateView, ExactClone, ExactEq, NodePool, NodePoolView, PoolKind, Provider,
    ProviderId, ProviderView, ProxyNode, ProxyNodeView, RoutePolicyView, RouteTarget,
    RouteTargetView, Subscription, SubscriptionId, SubscriptionView, MAX_SAFE_INTEGER,
};
use crate::proxy_routing::first_index;
use crate::subscription_management::{subscription_id_ok, validate_id, SubscriptionOperationError};
use crate::subscription_update::{find_subscription, subscription_keys};
use crate::validation::validation_error;

verus! {

/// Ids of the providers of subscription `sid`, in order.
pub open spec fn provider_ids_of(providers: Seq<ProviderView>, sid: Seq<char>) -> Seq<Seq<char>>
    decreases providers.len(),
{
    if providers.len() == 0 {
        Seq::empty()
    } else {
        let r = provider_ids_of(providers.drop_last(), sid);
        if providers.last().subscription_id == sid { r.push(providers.last().id) } else { r }
    }
}

/// A pool the subscription owns: an implicit pool fed only by its providers.
pub open spec fn owned_pool(p: NodePoolView, pids: Seq<Seq<char>>) -> bool {
    p.kind == PoolKind::ImplicitProvider && p.sources.len() > 0 && forall|k: int|
        0 <= k < p.sources.len() ==> pids.contains(#[trigger] p.sources[k].provider_id)
}

/// Ids of the pools the subscription owns.
pub open spec fn owned_pool_ids(pools: Seq<NodePoolView>, pids: Seq<Seq<char>>) -> Seq<Seq<char>>
    decreases pools.len(),
{
    if pools.len() == 0 {
        Seq::empty()
    } else {
        let r = owned_pool_ids(pools.drop_last(), pids);
        if owned_pool(pools.last(), pids) { r.push(pools.last().id) } else { r }
    }
}

/// The nodes that belong to none of the providers `pids`.
pub open spec fn nodes_kept(nodes: Seq<ProxyNodeView>, pids: Seq<Seq<char>>) -> Seq<ProxyNodeView>
    decreases nodes.len(),
{
    if nodes.len() == 0 {
        Seq::empty()
    } else {
        let r = nodes_kept(nodes.drop_last(), pids);
        if !pids.contains(nodes.last().provider_id) { r.push(nodes.last()) } else { r }
    }
}

/// The pools not in `owned`.
pub open spec fn pools_kept(pools: Seq<NodePoolView>, owned: Seq<Seq<char>>) -> Seq<NodePoolView>
    decreases pools.len(),
{
    if pools.len() == 0 {
        Seq::empty()
    } else {
        let r = pools_kept(pools.drop_last(), owned);
        if !owned.contains(pools.last().id) { r.push(pools.last()) } else { r }
    }
}

/// The providers not in `pids`.
pub open spec fn providers_kept(providers: Seq<ProviderView>, pids: Seq<Seq<char>>) -> Seq<ProviderView>
    decreases providers.len(),
{
    if providers.len() == 0 {
        Seq::empty()
    } else {
        let r = providers_kept(providers.drop_last(), pids);
        if !pids.contains(providers.last().id) { r.push(providers.last()) } else { r }
    }
}

/// The subscriptions other than `sid`.
pub open spec fn subscriptions_kept(subs: Seq<SubscriptionView>, sid: Seq<char>) -> Seq<SubscriptionView>
    decreases subs.len(),
{
    if subs.len() == 0 {
        Seq::empty()
    } else {
        let r = subscriptions_kept(subs.drop_last(), sid);
        if subs.last().id != sid { r.push(subs.last()) } else { r }
    }
}

/// The target points at a pool in `owned`.
pub open spec fn targets_owned(t: RouteTargetView, owned: Seq<Seq<char>>) -> bool {
    t matches RouteTargetView::Pool(p) && owned.contains(p)
}

/// Something outside the subscription refers to what it owns: another pool
/// takes nodes from its providers, or a route or the default target points
/// at a pool it owns.
pub open spec fn delete_conflict(s: AppStateView, pids: Seq<Seq<char>>, owned: Seq<Seq<char>>) -> bool {
    ||| exists|i: int| 0 <= i < s.pools.len() && !owned.contains(#[trigger] s.pools[i].id) && exists|k: int|
        0 <= k < s.pools[i].sources.len() && pids.contains(s.pools[i].sources[k].provider_id)
    ||| exists|i: int| 0 <= i < s.routes.len() && targets_owned((#[trigger] s.routes[i]).target, owned)
    ||| targets_owned(s.default_target, owned)
}

/// The state without subscription `sid`, its providers `pids`, their
/// nodes and the pools in `owned`.
pub open spec fn without_subscription(s: AppStateView, sid: Seq<char>, pids: Seq<Seq<char>>, owned: Seq<Seq<char>>) -> AppStateView {
    AppStateView {
        nodes: nodes_kept(s.nodes, pids),
        pools: pools_kept(s.pools, owned),
        providers: providers_kept(s.providers, pids),
        subscriptions: subscriptions_kept(s.subscriptions, sid),
        ..s
    }
}

/// What deleting subscription `id` makes of `s`. The active subscription
/// can only go while its runtime is stopped; it leaves no selection behind
/// and advances the generation.
pub open spec fn delete_result(s: AppStateView, id: Seq<char>, active_runtime_stopped: bool) -> Result<AppStateView, SubscriptionOperationError> {
    if !subscription_id_ok(id) {
        Err(SubscriptionOperationError::InvalidInput)
    } else {
        match first_index(subscription_keys(s.subscriptions), id) {
            None => Err(SubscriptionOperationError::NotFound),
            Some(i) => {
                let sid = s.subscriptions[i].id;
                let is_active = s.active_subscription_id == Some(sid);
                let pids = provider_ids_of(s.providers, sid);
                let owned = owned_pool_ids(s.pools, pids);
                if is_active && !active_runtime_stopped {
                    Err(SubscriptionOperationError::ReferenceConflict)
                } else if pids.len() == 0 {
                    Err(SubscriptionOperationError::ValidationFailed)
                } else if delete_conflict(s, pids, owned) {
                    Err(SubscriptionOperationError::ReferenceConflict)
                } else if is_active && s.active_configuration_generation + 1 > MAX_SAFE_INTEGER {
                    Err(SubscriptionOperationError::ValidationFailed)
                } else {
                    let t = without_subscription(s, sid, pids, owned);
                    let u = if is_active {
                        AppStateView {
                            active_subscription_id: None,
                            active_configuration_generation: (s.active_configuration_generation + 1) as u64,
                            ..t
                        }
                    } else {
                        t
                    };
                    if validation_error(u) is Some {
                        Err(SubscriptionOperationError::ValidationFailed)
                    } else {
                        Ok(u)
                    }
                }
            },
        }
    }
}

fn contains_text(v: &Vec<String>, x: &String) -> (r: bool)
    ensures
        r == v.deep_view().contains(x@),
{
    let mut i: usize = 0;
    while i < v.len()
        invariant
            i <= v.len(),
            forall|k: int| 0 <= k < i ==> v.deep_view()[k] != x@,
        decreases v.len() - i,
    {
        if v[i].same(x) {
            proof {
                assert(v.deep_view()[i as int] == x@);
            }
            return true;
        }
        i = i + 1;
    }
    false
}

fn provider_ids_exec(providers: &Vec<Provider>, sid: &SubscriptionId) -> (r: Vec<String>)
    ensures
        r.deep_view() == provider_ids_of(providers.deep_view(), sid@),
{
    let ghost all = providers.deep_view();
    let mut r: Vec<String> = Vec::new();
    let mut i: usize = 0;
    while i < providers.len()
        invariant
            i <= providers.len(),
            all == providers.deep_view(),
            r.deep_view() =~= provider_ids_of(all.take(i as int), sid@),
        decreases providers.len() - i,
    {
        proof {
            assert(all.take(i + 1).drop_last() =~= all.take(i as int));
            assert(all.take(i + 1).last() == all[i as int]);
        }
        if providers[i].subscription_id.same(sid) {
            let ghost before = r.deep_view();
            let id = providers[i].id.0.exact_clone();
            r.push(id);
            proof {
                assert(r.deep_view() =~= before.push(id@));
            }
        } else {
            proof {
            }
        }
        i = i + 1;
    }
    proof {
        assert(all.take(providers.len() as int) =~= all);
    }
    r
}

fn is_owned_pool(p: &NodePool, pids: &Vec<String>) -> (r: bool)
    ensures
        r == owned_pool(p.deep_view(), pids.deep_view()),
{
    if p.kind != PoolKind::ImplicitProvider || p.sources.len() == 0 {
        return false;
    }
    let mut k: usize = 0;
    while k < p.sources.len()
        invariant
            k <= p.sources.len(),
            forall|j: int| 0 <= j < k ==> pids.deep_view().contains(#[trigger] p.deep_view().sources[j].provider_id),
        decreases p.sources.len() - k,
    {
        proof {
            assert(p.deep_view().sources[k as int].provider_id == p.sources[k as int].provider_id@);
        }
        if !contains_text(pids, &p.sources[k].provider_id.0) {
            return false;
        }
        k = k + 1;
    }
    true
}

fn owned_pool_ids_exec(pools: &Vec<NodePool>, pids: &Vec<String>) -> (r: Vec<String>)
    ensures
        r.deep_view() == owned_pool_ids(pools.deep_view(), pids.deep_view()),
{
    let ghost all = pools.deep_view();
    let ghost pv = pids.deep_view();
    let mut r: Vec<String> = Vec::new();
    let mut i: usize = 0;
    while i < pools.len()
        invariant
            i <= pools.len(),
            all == pools.deep_view(),
            pv == pids.deep_view(),
            r.deep_view() =~= owned_pool_ids(all.take(i as int), pv),
        decreases pools.len() - i,
    {
        proof {
            assert(all.take(i + 1).drop_last() =~= all.take(i as int));
            assert(all.take(i + 1).last() == all[i as int]);
        }
        if is_owned_pool(&pools[i], pids) {
            let ghost before = r.deep_view();
            let id = pools[i].id.0.exact_clone();
            r.push(id);
            proof {
                assert(r.deep_view() =~= before.push(id@));
            }
        } else {
            proof {
            }
        }
        i = i + 1;
    }
    proof {
        assert(all.take(pools.len() as int) =~= all);
    }
    r
}

fn pool_conflict(pools: &Vec<NodePool>, pids: &Vec<String>, owned: &Vec<String>) -> (r: bool)
    ensures
        r == exists|i: int| 0 <= i < pools.deep_view().len() && !owned.deep_view().contains(#[trigger] pools.deep_view()[i].id)
            && exists|k: int| 0 <= k < pools.deep_view()[i].sources.len() && pids.deep_view().contains(pools.deep_view()[i].sources[k].provider_id),
{
    let ghost all = pools.deep_view();
    let mut i: usize = 0;
    while i < pools.len()
        invariant
            i <= pools.len(),
            all == pools.deep_view(),
            forall|j: int| 0 <= j < i ==> !(!owned.deep_view().contains(#[trigger] all[j].id) && exists|k: int|
                0 <= k < all[j].sources.len() && pids.deep_view().contains(all[j].sources[k].provider_id)),
        decreases pools.len() - i,
    {
        let p = &pools[i];
        proof {
            assert(all[i as int] == p.deep_view());
            assert(p.deep_view().id == p.id@);
        }
        if !contains_text(owned, &p.id.0) {
            let mut k: usize = 0;
            while k < p.sources.len()
                invariant
                    k <= p.sources.len(),
                    all == pools.deep_view(),
                    i < pools.len(),
                    all[i as int] == p.deep_view(),
                    !owned.deep_view().contains(all[i as int].id),
                    forall|j: int| 0 <= j < k ==> !pids.deep_view().contains(#[trigger] p.deep_view().sources[j].provider_id),
                decreases p.sources.len() - k,
            {
                proof {
                    assert(p.deep_view().sources[k as int].provider_id == p.sources[k as int].provider_id@);
                }
                if contains_text(pids, &p.sources[k].provider_id.0) {
                    proof {
                        assert(!owned.deep_view().contains(all[i as int].id));
                        assert(pids.deep_view().contains(all[i as int].sources[k as int].provider_id));
                    }
                    return true;
                }
                k = k + 1;
            }
        }
        i = i + 1;
    }
    false
}

fn target_owned(t: &RouteTarget, owned: &Vec<String>) -> (r: bool)
    ensures
        r == targets_owned(t.deep_view(), owned.deep_view()),
{
    match t {
        RouteTarget::Pool(p) => contains_text(owned, &p.0),
        _ => false,
    }
}

fn route_conflict(routes: &Vec<crate::domain::RoutePolicy>, owned: &Vec<String>) -> (r: bool)
    ensures
        r == exists|i: int| 0 <= i < routes.deep_view().len() && targets_owned((#[trigger] routes.deep_view()[i]).target, owned.deep_view()),
{
    let ghost all = routes.deep_view();
    let mut i: usize = 0;
    while i < routes.len()
        invariant
            i <= routes.len(),
            all == routes.deep_view(),
            forall|j: int| 0 <= j < i ==> !targets_owned((#[trigger] all[j]).target, owned.deep_view()),
        decreases routes.len() - i,
    {
        proof {
            assert(all[i as int] == routes[i as int].deep_view());
        }
        if target_owned(&routes[i].target, owned) {
            return true;
        }
        i = i + 1;
    }
    false
}

fn keep_nodes(nodes: &Vec<ProxyNode>, pids: &Vec<String>) -> (r: Vec<ProxyNode>)
    ensures
        r.deep_view() == nodes_kept(nodes.deep_view(), pids.deep_view()),
{
    let ghost all = nodes.deep_view();
    let ghost pv = pids.deep_view();
    let mut r: Vec<ProxyNode> = Vec::new();
    let mut i: usize = 0;
    while i < nodes.len()
        invariant
            i <= nodes.len(),
            all == nodes.deep_view(),
            pv == pids.deep_view(),
            r.deep_view() =~= nodes_kept(all.take(i as int), pv),
        decreases nodes.len() - i,
    {
        proof {
            assert(all.take(i + 1).drop_last() =~= all.take(i as int));
            assert(all.take(i + 1).last() == all[i as int]);
            assert(all[i as int].provider_id == nodes[i as int].provider_id@);
        }
        if !contains_text(pids, &nodes[i].provider_id.0) {
            let ghost before = r.deep_view();
            let n = nodes[i].exact_clone();
            r.push(n);
            proof {
                assert(r.deep_view() =~= before.push(n.deep_view()));
            }
        }
        i = i + 1;
    }
    proof {
        assert(all.take(nodes.len() as int) =~= all);
    }
    r
}

fn keep_pools(pools: &Vec<NodePool>, owned: &Vec<String>) -> (r: Vec<NodePool>)
    ensures
        r.deep_view() == pools_kept(pools.deep_view(), owned.deep_view()),
{
    let ghost all = pools.deep_view();
    let ghost ov = owned.deep_view();
    let mut r: Vec<NodePool> = Vec::new();
    let mut i: usize = 0;
    while i < pools.len()
        invariant
            i <= pools.len(),
            all == pools.deep_view(),
            ov == owned.deep_view(),
            r.deep_view() =~= pools_kept(all.take(i as int), ov),
        decreases pools.len() - i,
    {
        proof {
            assert(all.take(i + 1).drop_last() =~= all.take(i as int));
            assert(all.take(i + 1).last() == all[i as int]);
            assert(all[i as int].id == pools[i as int].id@);
        }
        if !contains_text(owned, &pools[i].id.0) {
            let ghost before = r.deep_view();
            let p = pools[i].exact_clone();
            r.push(p);
            proof {
                assert(r.deep_view() =~= before.push(p.deep_view()));
            }
        }
        i = i + 1;
    }
    proof {
        assert(all.take(pools.len() as int) =~= all);
    }
    r
}

fn keep_providers(providers: &Vec<Provider>, pids: &Vec<String>) -> (r: Vec<Provider>)
    ensures
        r.deep_view() == providers_kept(providers.deep_view(), pids.deep_view()),
{
    let ghost all = providers.deep_view();
    let ghost pv = pids.deep_view();
    let mut r: Vec<Provider> = Vec::new();
    let mut i: usize = 0;
    while i < providers.len()
        invariant
            i <= providers.len(),
            all == providers.deep_view(),
            pv == pids.deep_view(),
            r.deep_view() =~= providers_kept(all.take(i as int), pv),
        decreases providers.len() - i,
    {
        proof {
            assert(all.take(i + 1).drop_last() =~= all.take(i as int));
            assert(all.take(i + 1).last() == all[i as int]);
            assert(all[i as int].id == providers[i as int].id@);
        }
        if !contains_text(pids, &providers[i].id.0) {
            let ghost before = r.deep_view();
            let p = providers[i].exact_clone();
            r.push(p);
            proof {
                assert(r.deep_view() =~= before.push(p.deep_view()));
            }
        }
        i = i + 1;
    }
    proof {
        assert(all.take(providers.len() as int) =~= all);
    }
    r
}

fn keep_subscriptions(subs: &Vec<Subscription>, sid: &SubscriptionId) -> (r: Vec<Subscription>)
    ensures
        r.deep_view() == subscriptions_kept(subs.deep_view(), sid@),
{
    let ghost all = subs.deep_view();
    let mut r: Vec<Subscription> = Vec::new();
    let mut i: usize = 0;
    while i < subs.len()
        invariant
            i <= subs.len(),
            all == subs.deep_view(),
            r.deep_view() =~= subscriptions_kept(all.take(i as int), sid@),
        decreases subs.len() - i,
    {
        proof {
            assert(all.take(i + 1).drop_last() =~= all.take(i as int));
            assert(all.take(i + 1).last() == all[i as int]);
        }
        if !subs[i].id.same(sid) {
            let ghost before = r.deep_view();
            let x = subs[i].exact_clone();
            r.push(x);
            proof {
                assert(r.deep_view() =~= before.push(x.deep_view()));
            }
        }
        i = i + 1;
    }
    proof {
        assert(all.take(subs.len() as int) =~= all);
    }
    r
}

/// Deletes subscription `id` from `state` (read under the state lock) and
/// returns the state to save.
pub fn delete_subscription(state: &AppState, id: &str, active_runtime_stopped: bool) -> (r: Result<
    AppState,
    SubscriptionOperationError,
>)
    ensures
        match delete_result(state@, id@, active_runtime_stopped) {
            Ok(t) => r matches Ok(s) && s@ == t,
            Err(e) => r == Err::<AppState, SubscriptionOperationError>(e),
        },
{
    validate_id(id)?;
    let index = match find_subscription(state, id) {
        Some(i) => i,
        None => {
            return Err(SubscriptionOperationError::NotFound);
        },
    };
    let sid = state.subscriptions[index].id.exact_clone();
    let is_active = match &state.active_subscription_id {
        Some(active) => active.same(&sid),
        None => false,
    };
    if is_active && !active_runtime_stopped {
        return Err(SubscriptionOperationError::ReferenceConflict);
    }
    let pids = provider_ids_exec(&state.providers, &sid);
    if pids.len() == 0 {
        return Err(SubscriptionOperationError::ValidationFailed);
    }
    let owned = owned_pool_ids_exec(&state.pools, &pids);
    if pool_conflict(&state.pools, &pids, &owned) || route_conflict(&state.routes, &owned) || target_owned(
        &state.default_target,
        &owned,
    ) {
        return Err(SubscriptionOperationError::ReferenceConflict);
    }
    if is_active && state.active_configuration_generation >= MAX_SAFE_INTEGER {
        return Err(SubscriptionOperationError::ValidationFailed);
    }
    let mut candidate = state.exact_clone();
    candidate.nodes = keep_nodes(&state.nodes, &pids);
    candidate.pools = keep_pools(&state.pools, &owned);
    candidate.providers = keep_providers(&state.providers, &pids);
    candidate.subscriptions = keep_subscriptions(&state.subscriptions, &sid);
    if is_active {
        candidate.active_subscription_id = None;
        candidate.active_configuration_generation = state.active_configuration_generation + 1;
    }
    match candidate.validate() {
        Ok(()) => Ok(candidate),
        Err(_) => Err(SubscriptionOperationError::ValidationFailed),
    }
}

} // verus!
