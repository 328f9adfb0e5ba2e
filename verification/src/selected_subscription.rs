//! Projection of the persisted state onto the runtime configuration of the
//! selected subscription.
use vstd::prelude::*;

use crate::domain::{
    AppState, AppStateView, ExactClone, ExactEq, NodeId, NodePool, NodePoolView, PoolId, PoolKind,
    PoolSource, PoolSourceView, ProviderId, ProviderView, ProxyNode, ProxyNodeView, RoutePolicy,
    RoutePolicyView, RouteTarget, RouteTargetView, RuntimeIntent, RuntimePool, RuntimePoolView,
    SelectionPolicy, SelectionPolicyView, SubscriptionId,
};
use crate::order::{is_permutation, key_lt, sort_indices, texts_of};
use crate::text::chars_of;
use crate::validation::{
    contains_exact, members_of, pool_ids, resolve_members, subscription_ids, valid_state,
    StateValidationError,
};

verus! {

/// The runtime configuration derived from the selected subscription.
#[derive(Clone, Debug, Eq, PartialEq)]
pub struct SelectedRuntimeProjection {
    pub runtime_intent: RuntimeIntent,
    pub projected_default_target: RouteTarget,
    pub selected_subscription_id: SubscriptionId,
    pub selected_generation: u64,
}

/// Why the selected subscription cannot be projected.
#[derive(Clone, Copy, Debug, Eq, PartialEq, Structural)]
pub enum SelectionProjectionError {
    SelectionRequired,
    NotFound,
    SelectionConflict,
    ConfigurationFailed,
}

impl SelectionProjectionError {
    /// Every state validation failure means the configuration cannot be built.
    pub fn from_validation(_e: StateValidationError) -> (r: Self)
        ensures
            r == SelectionProjectionError::ConfigurationFailed,
    {
        SelectionProjectionError::ConfigurationFailed
    }
}

// ---------------------------------------------------------------------------
// Specification
// ---------------------------------------------------------------------------

/// Identity of the pool that holds every node of the selected subscription.
pub open spec fn implicit_pool_id(sel: Seq<char>) -> Seq<char> {
    "runtime-active-"@ + sel
}

/// Identities of the providers that belong to subscription `sel`, in order.
pub open spec fn selected_provider_ids(ps: Seq<ProviderView>, sel: Seq<char>) -> Seq<Seq<char>>
    decreases ps.len(),
{
    if ps.len() == 0 {
        Seq::empty()
    } else {
        let rest = selected_provider_ids(ps.drop_last(), sel);
        if ps.last().subscription_id == sel {
            rest.push(ps.last().id)
        } else {
            rest
        }
    }
}

/// Identities of the nodes served by one of the providers `pids`, in order.
pub open spec fn selected_node_ids(nodes: Seq<ProxyNodeView>, pids: Seq<Seq<char>>) -> Seq<Seq<char>>
    decreases nodes.len(),
{
    if nodes.len() == 0 {
        Seq::empty()
    } else {
        let rest = selected_node_ids(nodes.drop_last(), pids);
        if pids.contains(nodes.last().provider_id) {
            rest.push(nodes.last().id)
        } else {
            rest
        }
    }
}

/// The sources whose provider is one of `pids`.
pub open spec fn narrow_sources(srcs: Seq<PoolSourceView>, pids: Seq<Seq<char>>) -> Seq<PoolSourceView>
    decreases srcs.len(),
{
    if srcs.len() == 0 {
        Seq::empty()
    } else {
        let rest = narrow_sources(srcs.drop_last(), pids);
        if pids.contains(srcs.last().provider_id) {
            rest.push(srcs.last())
        } else {
            rest
        }
    }
}

/// A provider pool keeps only the sources of the selected subscription; a custom pool keeps all.
pub open spec fn narrowed(p: NodePoolView, pids: Seq<Seq<char>>) -> NodePoolView {
    if p.kind == PoolKind::ImplicitProvider {
        NodePoolView { sources: narrow_sources(p.sources, pids), ..p }
    } else {
        p
    }
}

/// Whether a state pool appears in the runtime configuration.
pub open spec fn included(p: NodePoolView, pids: Seq<Seq<char>>) -> bool {
    p.enabled && narrowed(p, pids).sources.len() > 0
}

pub open spec fn runtime_of(nodes: Seq<ProxyNodeView>, q: NodePoolView) -> RuntimePoolView {
    RuntimePoolView { id: q.id, members: members_of(nodes, q), selection: q.selection }
}

/// A pool with no members, or whose manual choice is not one of its members.
pub open spec fn pool_conflict(nodes: Seq<ProxyNodeView>, q: NodePoolView) -> bool {
    members_of(nodes, q).len() == 0 || (q.selection matches SelectionPolicyView::Manual {
        selected_node_id: Some(id),
    } && !members_of(nodes, q).contains(id))
}

pub open spec fn any_pool_conflict(
    nodes: Seq<ProxyNodeView>,
    pools: Seq<NodePoolView>,
    pids: Seq<Seq<char>>,
) -> bool {
    exists|k: int|
        0 <= k < pools.len() && included(#[trigger] pools[k], pids) && pool_conflict(
            nodes,
            narrowed(pools[k], pids),
        )
}

/// Runtime pools of the included state pools, in state order.
pub open spec fn runtime_pools_of(
    nodes: Seq<ProxyNodeView>,
    pools: Seq<NodePoolView>,
    pids: Seq<Seq<char>>,
) -> Seq<RuntimePoolView>
    decreases pools.len(),
{
    if pools.len() == 0 {
        Seq::empty()
    } else {
        let rest = runtime_pools_of(nodes, pools.drop_last(), pids);
        if included(pools.last(), pids) {
            rest.push(runtime_of(nodes, narrowed(pools.last(), pids)))
        } else {
            rest
        }
    }
}

/// Members of the included custom pools, concatenated in state order.
pub open spec fn custom_member_ids(
    nodes: Seq<ProxyNodeView>,
    pools: Seq<NodePoolView>,
    pids: Seq<Seq<char>>,
) -> Seq<Seq<char>>
    decreases pools.len(),
{
    if pools.len() == 0 {
        Seq::empty()
    } else {
        let rest = custom_member_ids(nodes, pools.drop_last(), pids);
        if included(pools.last(), pids) && pools.last().kind == PoolKind::Custom {
            rest + members_of(nodes, pools.last())
        } else {
            rest
        }
    }
}

/// The nodes whose identity is in `a` or in `b`, in order.
pub open spec fn kept_nodes(nodes: Seq<ProxyNodeView>, a: Seq<Seq<char>>, b: Seq<Seq<char>>) -> Seq<ProxyNodeView>
    decreases nodes.len(),
{
    if nodes.len() == 0 {
        Seq::empty()
    } else {
        let rest = kept_nodes(nodes.drop_last(), a, b);
        if a.contains(nodes.last().id) || b.contains(nodes.last().id) {
            rest.push(nodes.last())
        } else {
            rest
        }
    }
}

pub open spec fn enabled_routes(routes: Seq<RoutePolicyView>) -> Seq<RoutePolicyView>
    decreases routes.len(),
{
    if routes.len() == 0 {
        Seq::empty()
    } else {
        let rest = enabled_routes(routes.drop_last());
        if routes.last().enabled {
            rest.push(routes.last())
        } else {
            rest
        }
    }
}

/// Whether the runtime configuration holds a pool with identity `id`.
pub open spec fn projected_pool(s: AppStateView, sel: Seq<char>, id: Seq<char>) -> bool {
    let pids = selected_provider_ids(s.providers, sel);
    id == implicit_pool_id(sel) || exists|k: int|
        0 <= k < s.pools.len() && included(#[trigger] s.pools[k], pids) && s.pools[k].id == id
}

pub open spec fn route_conflict(s: AppStateView, sel: Seq<char>) -> bool {
    exists|k: int|
        0 <= k < s.routes.len() && (#[trigger] s.routes[k]).enabled && (s.routes[k].target matches RouteTargetView::Pool(p)
            && !projected_pool(s, sel, p))
}

/// The default target in the runtime configuration; `None` when it names a pool that is not there.
pub open spec fn projected_default(s: AppStateView, sel: Seq<char>) -> Option<RouteTargetView> {
    match s.default_target {
        RouteTargetView::Unconfigured => Some(RouteTargetView::Pool(implicit_pool_id(sel))),
        RouteTargetView::Pool(p) => if projected_pool(s, sel, p) {
            Some(RouteTargetView::Pool(p))
        } else {
            None
        },
        RouteTargetView::Direct => Some(RouteTargetView::Direct),
        RouteTargetView::Block => Some(RouteTargetView::Block),
    }
}

/// The first reason, in a fixed order, why the state cannot be projected.
pub open spec fn projection_error(s: AppStateView) -> Option<SelectionProjectionError> {
    match s.active_subscription_id {
        None => Some(SelectionProjectionError::SelectionRequired),
        Some(sel) => {
            let pids = selected_provider_ids(s.providers, sel);
            if !subscription_ids(s).contains(sel) {
                Some(SelectionProjectionError::NotFound)
            } else if !valid_state(s) {
                Some(SelectionProjectionError::ConfigurationFailed)
            } else if pids.len() == 0 {
                Some(SelectionProjectionError::ConfigurationFailed)
            } else if selected_node_ids(s.nodes, pids).len() == 0 {
                Some(SelectionProjectionError::ConfigurationFailed)
            } else if pool_ids(s).contains(implicit_pool_id(sel)) {
                Some(SelectionProjectionError::SelectionConflict)
            } else if any_pool_conflict(s.nodes, s.pools, pids) {
                Some(SelectionProjectionError::SelectionConflict)
            } else if route_conflict(s, sel) {
                Some(SelectionProjectionError::SelectionConflict)
            } else if projected_default(s, sel) is None {
                Some(SelectionProjectionError::SelectionConflict)
            } else {
                None
            }
        },
    }
}

/// `out` is `inp` rearranged.
pub open spec fn arranged<T>(out: Seq<T>, inp: Seq<T>) -> bool {
    exists|perm: Seq<usize>|
        #![trigger is_permutation(perm, inp.len())]
        is_permutation(perm, inp.len()) && out.len() == inp.len() && forall|k: int|
            0 <= k < out.len() ==> out[k] == inp[perm[k] as int]
}

pub open spec fn ids_ascending(ids: Seq<Seq<char>>) -> bool {
    forall|a: int, b: int| 0 <= a < b < ids.len() ==> !key_lt(0, ids[b], 0, ids[a])
}

pub open spec fn nodes_ascending(v: Seq<ProxyNodeView>) -> bool {
    forall|a: int, b: int| 0 <= a < b < v.len() ==> !key_lt(0, v[b].id, 0, v[a].id)
}

pub open spec fn pools_ascending(v: Seq<RuntimePoolView>) -> bool {
    forall|a: int, b: int| 0 <= a < b < v.len() ==> !key_lt(0, v[b].id, 0, v[a].id)
}

pub open spec fn routes_ascending(v: Seq<RoutePolicyView>) -> bool {
    forall|a: int, b: int|
        0 <= a < b < v.len() ==> !key_lt(v[b].priority as int, v[b].id, v[a].priority as int, v[a].id)
}

/// What a successful projection of `s` is.
pub open spec fn projection_of(s: AppStateView, sel: Seq<char>, p: SelectedRuntimeProjection) -> bool {
    let pids = selected_provider_ids(s.providers, sel);
    let base = selected_node_ids(s.nodes, pids);
    let custom = custom_member_ids(s.nodes, s.pools, pids);
    &&& p.selected_subscription_id@ == sel
    &&& p.selected_generation == s.active_configuration_generation
    &&& Some(p.projected_default_target@) == projected_default(s, sel)
    &&& arranged(p.runtime_intent.nodes.deep_view(), kept_nodes(s.nodes, base, custom))
    &&& nodes_ascending(p.runtime_intent.nodes.deep_view())
    &&& exists|members: Seq<Seq<char>>|
        arranged(members, base) && ids_ascending(members) && arranged(
            p.runtime_intent.pools.deep_view(),
            seq![RuntimePoolView {
                id: implicit_pool_id(sel),
                members,
                selection: SelectionPolicyView::Manual { selected_node_id: None },
            }] + runtime_pools_of(s.nodes, s.pools, pids),
        )
    &&& pools_ascending(p.runtime_intent.pools.deep_view())
    &&& arranged(p.runtime_intent.routes.deep_view(), enabled_routes(s.routes))
    &&& routes_ascending(p.runtime_intent.routes.deep_view())
}

// ---------------------------------------------------------------------------
// Implementation
// ---------------------------------------------------------------------------

fn selected_providers(s: &AppState, sel: &SubscriptionId) -> (r: Vec<ProviderId>)
    ensures
        r.deep_view() == selected_provider_ids(s@.providers, sel@),
{
    let mut r: Vec<ProviderId> = Vec::new();
    let mut i: usize = 0;
    while i < s.providers.len()
        invariant
            i <= s.providers.len(),
            r.deep_view() == selected_provider_ids(s@.providers.take(i as int), sel@),
        decreases s.providers.len() - i,
    {
        let ghost before = r.deep_view();
        proof {
            let t = s@.providers.take(i + 1);
            assert(t.drop_last() =~= s@.providers.take(i as int));
            assert(t.last() == s.providers[i as int]@);
        }
        if s.providers[i].subscription_id.same(sel) {
            let id = s.providers[i].id.exact_clone();
            r.push(id);
            proof {
                assert(r.deep_view() =~= before.push(id@));
            }
        }
        i = i + 1;
    }
    proof {
        assert(s@.providers.take(s.providers.len() as int) =~= s@.providers);
    }
    r
}

fn selected_nodes(nodes: &Vec<ProxyNode>, pids: &Vec<ProviderId>) -> (r: Vec<NodeId>)
    ensures
        r.deep_view() == selected_node_ids(nodes.deep_view(), pids.deep_view()),
{
    let mut r: Vec<NodeId> = Vec::new();
    let mut i: usize = 0;
    while i < nodes.len()
        invariant
            i <= nodes.len(),
            r.deep_view() == selected_node_ids(nodes.deep_view().take(i as int), pids.deep_view()),
        decreases nodes.len() - i,
    {
        let ghost before = r.deep_view();
        proof {
            let t = nodes.deep_view().take(i + 1);
            assert(t.drop_last() =~= nodes.deep_view().take(i as int));
            assert(t.last() == nodes[i as int]@);
        }
        if contains_exact(pids, &nodes[i].provider_id) {
            let id = nodes[i].id.exact_clone();
            r.push(id);
            proof {
                assert(r.deep_view() =~= before.push(id@));
            }
        }
        i = i + 1;
    }
    proof {
        assert(nodes.deep_view().take(nodes.len() as int) =~= nodes.deep_view());
    }
    r
}

fn narrow(pool: &NodePool, pids: &Vec<ProviderId>) -> (r: NodePool)
    ensures
        r@ == narrowed(pool@, pids.deep_view()),
{
    let mut q = pool.exact_clone();
    if pool.kind == PoolKind::ImplicitProvider {
        let mut srcs: Vec<PoolSource> = Vec::new();
        let mut i: usize = 0;
        while i < pool.sources.len()
            invariant
                i <= pool.sources.len(),
                srcs.deep_view() == narrow_sources(pool@.sources.take(i as int), pids.deep_view()),
            decreases pool.sources.len() - i,
        {
            let ghost before = srcs.deep_view();
            proof {
                let t = pool@.sources.take(i + 1);
                assert(t.drop_last() =~= pool@.sources.take(i as int));
                assert(t.last() == pool.sources[i as int]@);
            }
            if contains_exact(pids, &pool.sources[i].provider_id) {
                let src = pool.sources[i].exact_clone();
                srcs.push(src);
                proof {
                    assert(srcs.deep_view() =~= before.push(src@));
                }
            }
            i = i + 1;
        }
        proof {
            assert(pool@.sources.take(pool.sources.len() as int) =~= pool@.sources);
        }
        q.sources = srcs;
    }
    q
}

fn keep_nodes(nodes: &Vec<ProxyNode>, a: &Vec<NodeId>, b: &Vec<NodeId>) -> (r: Vec<ProxyNode>)
    ensures
        r.deep_view() == kept_nodes(nodes.deep_view(), a.deep_view(), b.deep_view()),
{
    let mut r: Vec<ProxyNode> = Vec::new();
    let mut i: usize = 0;
    while i < nodes.len()
        invariant
            i <= nodes.len(),
            r.deep_view() == kept_nodes(nodes.deep_view().take(i as int), a.deep_view(), b.deep_view()),
        decreases nodes.len() - i,
    {
        let ghost before = r.deep_view();
        proof {
            let t = nodes.deep_view().take(i + 1);
            assert(t.drop_last() =~= nodes.deep_view().take(i as int));
            assert(t.last() == nodes[i as int]@);
        }
        if contains_exact(a, &nodes[i].id) || contains_exact(b, &nodes[i].id) {
            let n = nodes[i].exact_clone();
            r.push(n);
            proof {
                assert(r.deep_view() =~= before.push(n@));
            }
        }
        i = i + 1;
    }
    proof {
        assert(nodes.deep_view().take(nodes.len() as int) =~= nodes.deep_view());
    }
    r
}

fn keep_enabled_routes(routes: &Vec<RoutePolicy>) -> (r: Vec<RoutePolicy>)
    ensures
        r.deep_view() == enabled_routes(routes.deep_view()),
{
    let mut r: Vec<RoutePolicy> = Vec::new();
    let mut i: usize = 0;
    while i < routes.len()
        invariant
            i <= routes.len(),
            r.deep_view() == enabled_routes(routes.deep_view().take(i as int)),
        decreases routes.len() - i,
    {
        let ghost before = r.deep_view();
        proof {
            let t = routes.deep_view().take(i + 1);
            assert(t.drop_last() =~= routes.deep_view().take(i as int));
            assert(t.last() == routes[i as int]@);
        }
        if routes[i].enabled {
            let x = routes[i].exact_clone();
            r.push(x);
            proof {
                assert(r.deep_view() =~= before.push(x@));
            }
        }
        i = i + 1;
    }
    proof {
        assert(routes.deep_view().take(routes.len() as int) =~= routes.deep_view());
    }
    r
}

/// `v` rearranged by `order`.
pub fn permute<T: ExactClone>(v: &Vec<T>, order: &Vec<usize>) -> (r: Vec<T>)
    requires
        is_permutation(order@, v.len() as nat),
    ensures
        r.deep_view().len() == v.len(),
        forall|k: int| 0 <= k < v.len() ==> #[trigger] r.deep_view()[k] == v.deep_view()[order@[k] as int],
        arranged(r.deep_view(), v.deep_view()),
{
    let mut r: Vec<T> = Vec::new();
    let mut i: usize = 0;
    while i < order.len()
        invariant
            is_permutation(order@, v.len() as nat),
            i <= order.len(),
            r.deep_view().len() == i,
            forall|k: int| 0 <= k < i ==> #[trigger] r.deep_view()[k] == v.deep_view()[order@[k] as int],
        decreases order.len() - i,
    {
        let ghost before = r.deep_view();
        let x = v[order[i]].exact_clone();
        r.push(x);
        proof {
            assert(r.deep_view() =~= before.push(x.deep_view()));
        }
        i = i + 1;
    }
    proof {
        assert(is_permutation(order@, v.deep_view().len()));
    }
    r
}

fn node_keys(v: &Vec<ProxyNode>) -> (r: (Vec<i64>, Vec<Vec<char>>))
    ensures
        r.0.len() == v.len(),
        r.1.len() == v.len(),
        forall|k: int| 0 <= k < v.len() ==> #[trigger] r.0@[k] == 0 && texts_of(r.1@)[k] == v.deep_view()[k].id,
{
    let mut p: Vec<i64> = Vec::new();
    let mut t: Vec<Vec<char>> = Vec::new();
    let mut i: usize = 0;
    while i < v.len()
        invariant
            i <= v.len(),
            p.len() == i,
            t.len() == i,
            forall|k: int| 0 <= k < i ==> #[trigger] p@[k] == 0 && texts_of(t@)[k] == v.deep_view()[k].id,
        decreases v.len() - i,
    {
        let ghost tb = t@;
        let c = chars_of(v[i].id.0.as_str());
        p.push(0);
        t.push(c);
        proof {
            assert(texts_of(t@) =~= texts_of(tb).push(c@));
        }
        i = i + 1;
    }
    (p, t)
}

fn id_keys(v: &Vec<NodeId>) -> (r: (Vec<i64>, Vec<Vec<char>>))
    ensures
        r.0.len() == v.len(),
        r.1.len() == v.len(),
        forall|k: int| 0 <= k < v.len() ==> #[trigger] r.0@[k] == 0 && texts_of(r.1@)[k] == v.deep_view()[k],
{
    let mut p: Vec<i64> = Vec::new();
    let mut t: Vec<Vec<char>> = Vec::new();
    let mut i: usize = 0;
    while i < v.len()
        invariant
            i <= v.len(),
            p.len() == i,
            t.len() == i,
            forall|k: int| 0 <= k < i ==> #[trigger] p@[k] == 0 && texts_of(t@)[k] == v.deep_view()[k],
        decreases v.len() - i,
    {
        let ghost tb = t@;
        let c = chars_of(v[i].0.as_str());
        p.push(0);
        t.push(c);
        proof {
            assert(texts_of(t@) =~= texts_of(tb).push(c@));
        }
        i = i + 1;
    }
    (p, t)
}

fn pool_keys(v: &Vec<RuntimePool>) -> (r: (Vec<i64>, Vec<Vec<char>>))
    ensures
        r.0.len() == v.len(),
        r.1.len() == v.len(),
        forall|k: int| 0 <= k < v.len() ==> #[trigger] r.0@[k] == 0 && texts_of(r.1@)[k] == v.deep_view()[k].id,
{
    let mut p: Vec<i64> = Vec::new();
    let mut t: Vec<Vec<char>> = Vec::new();
    let mut i: usize = 0;
    while i < v.len()
        invariant
            i <= v.len(),
            p.len() == i,
            t.len() == i,
            forall|k: int| 0 <= k < i ==> #[trigger] p@[k] == 0 && texts_of(t@)[k] == v.deep_view()[k].id,
        decreases v.len() - i,
    {
        let ghost tb = t@;
        let c = chars_of(v[i].id.0.as_str());
        p.push(0);
        t.push(c);
        proof {
            assert(texts_of(t@) =~= texts_of(tb).push(c@));
        }
        i = i + 1;
    }
    (p, t)
}

fn route_keys(v: &Vec<RoutePolicy>) -> (r: (Vec<i64>, Vec<Vec<char>>))
    ensures
        r.0.len() == v.len(),
        r.1.len() == v.len(),
        forall|k: int| 0 <= k < v.len() ==> #[trigger] r.0@[k] == v.deep_view()[k].priority && texts_of(r.1@)[k] == v.deep_view()[k].id,
{
    let mut p: Vec<i64> = Vec::new();
    let mut t: Vec<Vec<char>> = Vec::new();
    let mut i: usize = 0;
    while i < v.len()
        invariant
            i <= v.len(),
            p.len() == i,
            t.len() == i,
            forall|k: int| 0 <= k < i ==> #[trigger] p@[k] == v.deep_view()[k].priority && texts_of(t@)[k] == v.deep_view()[k].id,
        decreases v.len() - i,
    {
        let ghost tb = t@;
        let ghost pb = p@;
        let c = chars_of(v[i].id.0.as_str());
        let pr = v[i].priority as i64;
        p.push(pr);
        t.push(c);
        proof {
            assert(texts_of(t@) =~= texts_of(tb).push(c@));
            assert(p@ =~= pb.push(pr));
            assert(pr == v.deep_view()[i as int].priority);
        }
        i = i + 1;
    }
    (p, t)
}

/// Runtime pools of the included state pools, the members of the included
/// custom pools, and the identities of the runtime pools; `Err` when a pool
/// conflicts with its selection.
fn collect_runtime_pools(state: &AppState, pids: &Vec<ProviderId>) -> (r: Result<(Vec<RuntimePool>, Vec<NodeId>, Vec<PoolId>), ()>)
    ensures
        r is Err <==> any_pool_conflict(state@.nodes, state@.pools, pids.deep_view()),
        r matches Ok((rp, custom, ids)) ==> {
            &&& rp.deep_view() == runtime_pools_of(state@.nodes, state@.pools, pids.deep_view())
            &&& custom.deep_view() == custom_member_ids(state@.nodes, state@.pools, pids.deep_view())
            &&& forall|x: Seq<char>| #[trigger] ids.deep_view().contains(x) <==> exists|k: int|
                0 <= k < state@.pools.len() && included(#[trigger] state@.pools[k], pids.deep_view()) && state@.pools[k].id == x
        },
{
    let ghost nodes = state@.nodes;
    let ghost pv = pids.deep_view();
    let mut rp: Vec<RuntimePool> = Vec::new();
    let mut custom: Vec<NodeId> = Vec::new();
    let mut ids: Vec<PoolId> = Vec::new();
    let mut i: usize = 0;
    while i < state.pools.len()
        invariant
            i <= state.pools.len(),
            nodes == state@.nodes,
            pv == pids.deep_view(),
            rp.deep_view() == runtime_pools_of(nodes, state@.pools.take(i as int), pv),
            custom.deep_view() == custom_member_ids(nodes, state@.pools.take(i as int), pv),
            forall|x: Seq<char>| #[trigger] ids.deep_view().contains(x) <==> exists|k: int|
                0 <= k < i && included(#[trigger] state@.pools[k], pv) && state@.pools[k].id == x,
            forall|k: int| 0 <= k < i ==> !(included(#[trigger] state@.pools[k], pv) && pool_conflict(nodes, narrowed(state@.pools[k], pv))),
        decreases state.pools.len() - i,
    {
        let pool = &state.pools[i];
        let ghost t = state@.pools.take(i + 1);
        proof {
            assert(t.drop_last() =~= state@.pools.take(i as int));
            assert(t.last() == pool@);
            assert(state@.pools[i as int] == pool@);
        }
        let ghost rp0 = rp.deep_view();
        let ghost custom0 = custom.deep_view();
        let ghost ids0 = ids.deep_view();
        if pool.enabled {
            let q = narrow(pool, pids);
            if q.sources.len() > 0 {
                let members = resolve_members(&state.nodes, &q);
                let conflict = members.len() == 0 || match &q.selection {
                    SelectionPolicy::Manual { selected_node_id: Some(id) } => !contains_exact(&members, id),
                    _ => false,
                };
                if conflict {
                    return Err(());
                }
                if pool.kind == PoolKind::Custom {
                    let mut j: usize = 0;
                    while j < members.len()
                        invariant
                            j <= members.len(),
                            custom.deep_view() == custom0 + members.deep_view().take(j as int),
                        decreases members.len() - j,
                    {
                        let ghost cb = custom.deep_view();
                        let m = members[j].exact_clone();
                        custom.push(m);
                        proof {
                            assert(custom.deep_view() =~= cb.push(m@));
                            assert(members.deep_view().take(j + 1) =~= members.deep_view().take(j as int).push(members.deep_view()[j as int]));
                            assert(custom0 + members.deep_view().take(j + 1) =~= (custom0 + members.deep_view().take(j as int)).push(m@));
                        }
                        j = j + 1;
                    }
                    proof {
                        assert(members.deep_view().take(members.len() as int) =~= members.deep_view());
                        assert(q@ == pool@);
                    }
                }
                let rid = q.id.exact_clone();
                let id2 = q.id.exact_clone();
                let sel = q.selection.exact_clone();
                let r1 = RuntimePool { id: rid, members, selection: sel };
                rp.push(r1);
                ids.push(id2);
                proof {
                    assert(rp.deep_view() =~= rp0.push(r1@));
                    assert(ids.deep_view() =~= ids0.push(id2@));
                    assert(r1@ == runtime_of(nodes, narrowed(pool@, pv)));
                    assert forall|x: Seq<char>| #[trigger] ids.deep_view().contains(x) <==> exists|k: int|
                        0 <= k < i + 1 && included(#[trigger] state@.pools[k], pv) && state@.pools[k].id == x by {
                        if ids.deep_view().contains(x) {
                            let j = choose|j: int| 0 <= j < ids.deep_view().len() && ids.deep_view()[j] == x;
                            if j < ids0.len() {
                                assert(ids0[j] == x);
                                assert(ids0.contains(x));
                            } else {
                                assert(included(state@.pools[i as int], pv) && state@.pools[i as int].id == x);
                            }
                        }
                        if exists|k: int| 0 <= k < i + 1 && included(#[trigger] state@.pools[k], pv) && state@.pools[k].id == x {
                            let k = choose|k: int| 0 <= k < i + 1 && included(#[trigger] state@.pools[k], pv) && state@.pools[k].id == x;
                            if k < i {
                                assert(ids0.contains(x));
                                let j = choose|j: int| 0 <= j < ids0.len() && ids0[j] == x;
                                assert(ids.deep_view()[j] == x);
                            } else {
                                assert(ids.deep_view()[ids0.len() as int] == x);
                            }
                        }
                    }
                }
            }
        }
        i = i + 1;
    }
    proof {
        assert(state@.pools.take(state.pools.len() as int) =~= state@.pools);
    }
    Ok((rp, custom, ids))
}

fn sorted_nodes(kept: &Vec<ProxyNode>) -> (r: Vec<ProxyNode>)
    ensures
        arranged(r.deep_view(), kept.deep_view()),
        nodes_ascending(r.deep_view()),
{
    let (np, nt) = node_keys(kept);
    let order = sort_indices(&np, &nt);
    let r = permute(kept, &order);
    proof {
        assert forall|a: int, b: int| 0 <= a < b < r.deep_view().len() implies !key_lt(0, r.deep_view()[b].id, 0, r.deep_view()[a].id) by {
            assert(r.deep_view()[a] == kept.deep_view()[order@[a] as int]);
            assert(r.deep_view()[b] == kept.deep_view()[order@[b] as int]);
            assert(np@[order@[a] as int] == 0);
            assert(np@[order@[b] as int] == 0);
        }
    }
    r
}

fn sorted_ids(ids: &Vec<NodeId>) -> (r: Vec<NodeId>)
    ensures
        arranged(r.deep_view(), ids.deep_view()),
        ids_ascending(r.deep_view()),
{
    let (np, nt) = id_keys(ids);
    let order = sort_indices(&np, &nt);
    let r = permute(ids, &order);
    proof {
        assert forall|a: int, b: int| 0 <= a < b < r.deep_view().len() implies !key_lt(0, r.deep_view()[b], 0, r.deep_view()[a]) by {
            assert(r.deep_view()[a] == ids.deep_view()[order@[a] as int]);
            assert(r.deep_view()[b] == ids.deep_view()[order@[b] as int]);
            assert(np@[order@[a] as int] == 0);
            assert(np@[order@[b] as int] == 0);
        }
    }
    r
}

fn sorted_pools(pools: &Vec<RuntimePool>) -> (r: Vec<RuntimePool>)
    ensures
        arranged(r.deep_view(), pools.deep_view()),
        pools_ascending(r.deep_view()),
{
    let (np, nt) = pool_keys(pools);
    let order = sort_indices(&np, &nt);
    let r = permute(pools, &order);
    proof {
        assert forall|a: int, b: int| 0 <= a < b < r.deep_view().len() implies !key_lt(0, r.deep_view()[b].id, 0, r.deep_view()[a].id) by {
            assert(r.deep_view()[a] == pools.deep_view()[order@[a] as int]);
            assert(r.deep_view()[b] == pools.deep_view()[order@[b] as int]);
            assert(np@[order@[a] as int] == 0);
            assert(np@[order@[b] as int] == 0);
        }
    }
    r
}

fn sorted_routes(routes: &Vec<RoutePolicy>) -> (r: Vec<RoutePolicy>)
    ensures
        arranged(r.deep_view(), routes.deep_view()),
        routes_ascending(r.deep_view()),
{
    let (np, nt) = route_keys(routes);
    let order = sort_indices(&np, &nt);
    let r = permute(routes, &order);
    proof {
        assert forall|a: int, b: int| 0 <= a < b < r.deep_view().len() implies !key_lt(
            r.deep_view()[b].priority as int, r.deep_view()[b].id, r.deep_view()[a].priority as int, r.deep_view()[a].id) by {
            assert(r.deep_view()[a] == routes.deep_view()[order@[a] as int]);
            assert(r.deep_view()[b] == routes.deep_view()[order@[b] as int]);
            assert(np@[order@[a] as int] == routes.deep_view()[order@[a] as int].priority);
            assert(np@[order@[b] as int] == routes.deep_view()[order@[b] as int].priority);
        }
    }
    r
}

fn subscription_exists(state: &AppState, sel: &SubscriptionId) -> (r: bool)
    ensures
        r == subscription_ids(state@).contains(sel@),
{
    let mut i: usize = 0;
    while i < state.subscriptions.len()
        invariant
            i <= state.subscriptions.len(),
            forall|k: int| 0 <= k < i ==> subscription_ids(state@)[k] != sel@,
        decreases state.subscriptions.len() - i,
    {
        if state.subscriptions[i].id.same(sel) {
            proof {
                assert(subscription_ids(state@)[i as int] == sel@);
            }
            return true;
        }
        i = i + 1;
    }
    false
}

fn state_has_pool(state: &AppState, id: &PoolId) -> (r: bool)
    ensures
        r == pool_ids(state@).contains(id@),
{
    let mut i: usize = 0;
    while i < state.pools.len()
        invariant
            i <= state.pools.len(),
            forall|k: int| 0 <= k < i ==> pool_ids(state@)[k] != id@,
        decreases state.pools.len() - i,
    {
        if state.pools[i].id.same(id) {
            proof {
                assert(pool_ids(state@)[i as int] == id@);
            }
            return true;
        }
        i = i + 1;
    }
    false
}

/// Builds the runtime configuration of the selected subscription: its nodes,
/// an implicit pool of them that the default target follows when it is
/// unconfigured, the enabled pools (custom pools may add nodes of other
/// subscriptions), and the enabled routes, each list sorted by identity and
/// routes by priority first.
pub fn project_selected_runtime(state: &AppState) -> (r: Result<SelectedRuntimeProjection, SelectionProjectionError>)
    ensures
        match r {
            Ok(p) => projection_error(state@) is None && projection_of(state@, state@.active_subscription_id->0, p),
            Err(e) => projection_error(state@) == Some(e),
        },
{
    let sel = match &state.active_subscription_id {
        Some(id) => id.exact_clone(),
        None => return Err(SelectionProjectionError::SelectionRequired),
    };
    if !subscription_exists(state, &sel) {
        return Err(SelectionProjectionError::NotFound);
    }
    if state.validate().is_err() {
        return Err(SelectionProjectionError::ConfigurationFailed);
    }
    let pids = selected_providers(state, &sel);
    if pids.len() == 0 {
        return Err(SelectionProjectionError::ConfigurationFailed);
    }
    let base = selected_nodes(&state.nodes, &pids);
    if base.len() == 0 {
        return Err(SelectionProjectionError::ConfigurationFailed);
    }
    let mut implicit_text = String::from_str("runtime-active-");
    implicit_text.append(sel.0.as_str());
    let implicit_id = PoolId(implicit_text);
    if state_has_pool(state, &implicit_id) {
        return Err(SelectionProjectionError::SelectionConflict);
    }
    let (runtime_pools, custom, included_ids) = match collect_runtime_pools(state, &pids) {
        Ok(v) => v,
        Err(()) => return Err(SelectionProjectionError::SelectionConflict),
    };
    let ghost sv = state@;
    let ghost sel_v = sel@;
    // every enabled route must target a pool of the runtime configuration
    let mut i: usize = 0;
    #[verifier::loop_isolation(false)]
    while i < state.routes.len()
        invariant
            i <= state.routes.len(),
            sv == state@,
            sel_v == sel@,
            implicit_id@ == implicit_pool_id(sel_v),
            sel_v == state@.active_subscription_id->0,
            pids.deep_view() == selected_provider_ids(sv.providers, sel_v),
            forall|x: Seq<char>| #[trigger] included_ids.deep_view().contains(x) <==> exists|k: int|
                0 <= k < sv.pools.len() && included(#[trigger] sv.pools[k], pids.deep_view()) && sv.pools[k].id == x,
            forall|k: int| 0 <= k < i ==> !((#[trigger] sv.routes[k]).enabled && (sv.routes[k].target matches RouteTargetView::Pool(p)
                && !projected_pool(sv, sel_v, p))),
        decreases state.routes.len() - i,
    {
        let route = &state.routes[i];
        proof {
            assert(sv.routes[i as int] == route@);
        }
        if route.enabled {
            match &route.target {
                RouteTarget::Pool(p) => {
                    if !p.same(&implicit_id) && !contains_exact(&included_ids, p) {
                        proof {
                            assert(route@.target == RouteTargetView::Pool(p@));
                            assert(!projected_pool(sv, sel_v, p@));
                            assert(route_conflict(sv, sel_v));
                        }
                        return Err(SelectionProjectionError::SelectionConflict);
                    }
                },
                _ => {},
            }
        }
        i = i + 1;
    }
    let default_target = match &state.default_target {
        RouteTarget::Unconfigured => RouteTarget::Pool(implicit_id.exact_clone()),
        RouteTarget::Pool(p) => {
            if p.same(&implicit_id) || contains_exact(&included_ids, p) {
                RouteTarget::Pool(p.exact_clone())
            } else {
                return Err(SelectionProjectionError::SelectionConflict);
            }
        },
        RouteTarget::Direct => RouteTarget::Direct,
        RouteTarget::Block => RouteTarget::Block,
    };
    let kept = keep_nodes(&state.nodes, &base, &custom);
    let nodes = sorted_nodes(&kept);
    let members0 = sorted_ids(&base);
    let mut all_pools: Vec<RuntimePool> = Vec::new();
    let implicit_pool = RuntimePool {
        id: implicit_id,
        members: members0,
        selection: SelectionPolicy::Manual { selected_node_id: None },
    };
    let ghost ip = implicit_pool@;
    all_pools.push(implicit_pool);
    let mut j: usize = 0;
    while j < runtime_pools.len()
        invariant
            j <= runtime_pools.len(),
            all_pools.deep_view() == seq![ip] + runtime_pools.deep_view().take(j as int),
        decreases runtime_pools.len() - j,
    {
        let ghost before = all_pools.deep_view();
        let x = runtime_pools[j].exact_clone();
        all_pools.push(x);
        proof {
            assert(all_pools.deep_view() =~= before.push(x@));
            assert(runtime_pools.deep_view().take(j + 1) =~= runtime_pools.deep_view().take(j as int).push(runtime_pools.deep_view()[j as int]));
            assert(seq![ip] + runtime_pools.deep_view().take(j + 1) =~= (seq![ip] + runtime_pools.deep_view().take(j as int)).push(x@));
        }
        j = j + 1;
    }
    proof {
        assert(runtime_pools.deep_view().take(runtime_pools.len() as int) =~= runtime_pools.deep_view());
    }
    let pools = sorted_pools(&all_pools);
    let enabled = keep_enabled_routes(&state.routes);
    let routes = sorted_routes(&enabled);
    let p = SelectedRuntimeProjection {
        runtime_intent: RuntimeIntent { nodes, pools, routes },
        projected_default_target: default_target,
        selected_subscription_id: sel,
        selected_generation: state.active_configuration_generation,
    };
    Ok(p)
}

} // verus!
