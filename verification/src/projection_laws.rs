//! What a projected runtime configuration guarantees of its pools and nodes.
use vstd::prelude::*;

use crate::domain::{AppStateView, RoutePolicyView, RouteTargetView, NodePoolView, PoolKind, PoolSourceView, ProxyNodeView, RuntimePoolView, SelectionPolicyView};
use crate::order::is_permutation;
use crate::selected_subscription::{
    any_pool_conflict, enabled_routes, nodes_ascending, pools_ascending, projected_default, route_conflict,
    routes_ascending, SelectionProjectionError, arranged, custom_member_ids, ids_ascending, implicit_pool_id, included, kept_nodes, narrow_sources, narrowed,
    projection_error, projection_of, runtime_of, runtime_pools_of, selected_node_ids, selected_provider_ids,
    SelectedRuntimeProjection,
};
use crate::validation::{members_of, pool_accepts, pool_ids, source_accepts, subscription_ids, valid_state};

verus! {

/// Every member of every pool of `pools` is the identity of one of `nodes`.
pub open spec fn pools_use_nodes(pools: Seq<RuntimePoolView>, nodes: Seq<ProxyNodeView>) -> bool {
    forall|t: int, m: int| 0 <= t < pools.len() && 0 <= m < pools[t].members.len() ==> #[trigger] member_is_node(pools, nodes, t, m)
}

/// The member at `m` of the pool at `t` is the identity of one of `nodes`.
pub open spec fn member_is_node(pools: Seq<RuntimePoolView>, nodes: Seq<ProxyNodeView>, t: int, m: int) -> bool {
    exists|i: int| 0 <= i < nodes.len() && #[trigger] nodes[i].id == pools[t].members[m]
}

/// Every pool of a projected runtime configuration holds only nodes that
/// the configuration carries: the implicit pool's members, the members of
/// the selected subscription's provider pools and those of the enabled
/// custom pools are each the identity of one of its nodes.
pub proof fn law_projected_pools_use_projected_nodes(s: AppStateView, p: SelectedRuntimeProjection)
    requires
        projection_error(s) is None,
        projection_of(s, s.active_subscription_id->0, p),
    ensures
        pools_use_nodes(p.runtime_intent.pools.deep_view(), p.runtime_intent.nodes.deep_view()),
{
    let nodes = p.runtime_intent.nodes.deep_view();
    let pools = p.runtime_intent.pools.deep_view();
    assert forall|t: int, m: int| 0 <= t < pools.len() && 0 <= m < pools[t].members.len() implies #[trigger] member_is_node(
        pools,
        nodes,
        t,
        m,
    ) by {
        lemma_member_is_node(s, p, t, m);
    }
}

/// The member at `m` of the projected pool at `t` is the identity of a
/// projected node.
proof fn lemma_member_is_node(s: AppStateView, p: SelectedRuntimeProjection, t: int, m: int)
    requires
        projection_error(s) is None,
        projection_of(s, s.active_subscription_id->0, p),
        0 <= t < p.runtime_intent.pools.deep_view().len(),
        0 <= m < p.runtime_intent.pools.deep_view()[t].members.len(),
    ensures
        exists|i: int|
            #![trigger p.runtime_intent.nodes.deep_view()[i]]
            0 <= i < p.runtime_intent.nodes.deep_view().len() && p.runtime_intent.nodes.deep_view()[i].id
                == p.runtime_intent.pools.deep_view()[t].members[m],
{
    let sel = s.active_subscription_id->0;
    let pids = selected_provider_ids(s.providers, sel);
    let base = selected_node_ids(s.nodes, pids);
    let custom = custom_member_ids(s.nodes, s.pools, pids);
    let kept = kept_nodes(s.nodes, base, custom);
    let nodes = p.runtime_intent.nodes.deep_view();
    let pools = p.runtime_intent.pools.deep_view();
    let rps = runtime_pools_of(s.nodes, s.pools, pids);
    let members = choose|members: Seq<Seq<char>>|
        arranged(members, base) && ids_ascending(members) && arranged(
            pools,
            seq![RuntimePoolView {
                id: implicit_pool_id(sel),
                members,
                selection: SelectionPolicyView::Manual { selected_node_id: None },
            }] + rps,
        );
    let implicit = RuntimePoolView {
        id: implicit_pool_id(sel),
        members,
        selection: SelectionPolicyView::Manual { selected_node_id: None },
    };
    let inp = seq![implicit] + rps;
    let perm = choose|perm: Seq<usize>|
        #![trigger is_permutation(perm, inp.len())]
        is_permutation(perm, inp.len()) && pools.len() == inp.len() && forall|k: int|
            0 <= k < pools.len() ==> pools[k] == inp[perm[k] as int];
    let node_perm = choose|perm: Seq<usize>|
        #![trigger is_permutation(perm, kept.len())]
        is_permutation(perm, kept.len()) && nodes.len() == kept.len() && forall|k: int|
            0 <= k < nodes.len() ==> nodes[k] == kept[perm[k] as int];
    let member_perm = choose|perm: Seq<usize>|
        #![trigger is_permutation(perm, base.len())]
        is_permutation(perm, base.len()) && members.len() == base.len() && forall|k: int|
            0 <= k < members.len() ==> members[k] == base[perm[k] as int];
        let x = pools[t].members[m];
        assert(pools[t] == inp[perm[t] as int]);
        // the node of `s` whose identity is `x`, which the projection keeps
        let j: int = if perm[t] == 0 {
            assert(pools[t] == implicit);
            assert(members[m] == base[member_perm[m] as int]);
            assert(base.contains(x));
            lemma_selected_node_origin(s.nodes, pids, x);
            choose|j: int| 0 <= j < s.nodes.len() && s.nodes[j].id == x
        } else {
            let rp = rps[perm[t] - 1];
            assert(rp == inp[perm[t] as int]);
            lemma_runtime_pool_origin(s.nodes, s.pools, pids, perm[t] - 1);
            let k = choose|k: int|
                0 <= k < s.pools.len() && included(s.pools[k], pids) && rp == runtime_of(
                    s.nodes,
                    narrowed(s.pools[k], pids),
                );
            let q = narrowed(s.pools[k], pids);
            assert(rp.members == members_of(s.nodes, q));
            assert(members_of(s.nodes, q)[m] == x);
            lemma_member_origin(s.nodes, q, x);
            let j = choose|j: int| 0 <= j < s.nodes.len() && s.nodes[j].id == x && pool_accepts(q, s.nodes[j]);
            if s.pools[k].kind == PoolKind::Custom {
                lemma_custom_members(s.nodes, s.pools, pids, k, x);
                assert(custom.contains(s.nodes[j].id));
            } else {
                let c = choose|c: int| 0 <= c < q.sources.len() && source_accepts(q.sources[c], s.nodes[j]);
                lemma_narrowed_providers(s.pools[k].sources, pids, c);
                lemma_selected_node_kept(s.nodes, pids, j);
                assert(base.contains(s.nodes[j].id));
            }
            j
        };
        lemma_kept_node(s.nodes, base, custom, j);
        let q = choose|q: int| 0 <= q < kept.len() && kept[q] == s.nodes[j];
        lemma_permutation_covers(node_perm, kept.len(), q);
        let i = choose|i: int| 0 <= i < node_perm.len() && node_perm[i] == q;
        assert(nodes[i] == kept[q]);
}

/// An injective arrangement of `n` positions among `n` reaches each of them.
proof fn lemma_permutation_covers(perm: Seq<usize>, n: nat, q: int)
    requires
        is_permutation(perm, n),
        0 <= q < n,
    ensures
        exists|k: int| 0 <= k < perm.len() && perm[k] == q,
{
    let ints = perm.map_values(|x: usize| x as int);
    assert(ints.no_duplicates()) by {
        assert forall|a: int, b: int| 0 <= a < ints.len() && 0 <= b < ints.len() && a != b implies ints[a]
            != ints[b] by {
            if a < b {
                assert(perm[a] != perm[b]);
            } else {
                assert(perm[b] != perm[a]);
            }
        }
    }
    ints.unique_seq_to_set();
    if !(exists|k: int| 0 <= k < perm.len() && perm[k] == q) {
        let range = vstd::set_lib::set_int_range(0, n as int);
        let rest = range.remove(q);
        assert forall|v: int| ints.to_set().contains(v) implies rest.contains(v) by {
            let k = choose|k: int| 0 <= k < ints.len() && ints[k] == v;
            assert(perm[k] < n);
        }
        vstd::set_lib::lemma_int_range(0, n as int);
        assert(range.contains(q));
        vstd::set_lib::lemma_len_subset(ints.to_set(), rest);
        assert(false);
    }
}

/// A selected node identity is that of a node of one of the providers.
proof fn lemma_selected_node_origin(nodes: Seq<ProxyNodeView>, pids: Seq<Seq<char>>, x: Seq<char>)
    requires
        selected_node_ids(nodes, pids).contains(x),
    ensures
        exists|j: int| 0 <= j < nodes.len() && nodes[j].id == x && pids.contains(nodes[j].provider_id),
    decreases nodes.len(),
{
    let rest = selected_node_ids(nodes.drop_last(), pids);
    if rest.contains(x) {
        lemma_selected_node_origin(nodes.drop_last(), pids, x);
        let j = choose|j: int| 0 <= j < nodes.drop_last().len() && nodes.drop_last()[j].id == x && pids.contains(
            nodes.drop_last()[j].provider_id,
        );
        assert(nodes[j] == nodes.drop_last()[j]);
    } else {
        let k = choose|k: int| 0 <= k < selected_node_ids(nodes, pids).len() && selected_node_ids(nodes, pids)[k] == x;
        assert(k == rest.len());
        assert(nodes[nodes.len() - 1] == nodes.last());
    }
}

/// A node of one of the providers is selected.
proof fn lemma_selected_node_kept(nodes: Seq<ProxyNodeView>, pids: Seq<Seq<char>>, j: int)
    requires
        0 <= j < nodes.len(),
        pids.contains(nodes[j].provider_id),
    ensures
        selected_node_ids(nodes, pids).contains(nodes[j].id),
    decreases nodes.len(),
{
    let rest = selected_node_ids(nodes.drop_last(), pids);
    if j < nodes.len() - 1 {
        assert(nodes.drop_last()[j] == nodes[j]);
        lemma_selected_node_kept(nodes.drop_last(), pids, j);
        let k = choose|k: int| 0 <= k < rest.len() && rest[k] == nodes[j].id;
        if pids.contains(nodes.last().provider_id) {
            assert(rest.push(nodes.last().id)[k] == nodes[j].id);
        }
    } else {
        assert(rest.push(nodes.last().id)[rest.len() as int] == nodes[j].id);
    }
}

/// A pool member is the identity of a node the pool accepts.
proof fn lemma_member_origin(nodes: Seq<ProxyNodeView>, q: NodePoolView, x: Seq<char>)
    requires
        members_of(nodes, q).contains(x),
    ensures
        exists|j: int| 0 <= j < nodes.len() && nodes[j].id == x && pool_accepts(q, nodes[j]),
    decreases nodes.len(),
{
    let rest = members_of(nodes.drop_last(), q);
    if rest.contains(x) {
        lemma_member_origin(nodes.drop_last(), q, x);
        let j = choose|j: int| 0 <= j < nodes.drop_last().len() && nodes.drop_last()[j].id == x && pool_accepts(
            q,
            nodes.drop_last()[j],
        );
        assert(nodes[j] == nodes.drop_last()[j]);
    } else {
        let k = choose|k: int| 0 <= k < members_of(nodes, q).len() && members_of(nodes, q)[k] == x;
        assert(k == rest.len());
        assert(nodes[nodes.len() - 1] == nodes.last());
    }
}

/// A node whose identity is in `a` or in `b` is kept.
proof fn lemma_kept_node(nodes: Seq<ProxyNodeView>, a: Seq<Seq<char>>, b: Seq<Seq<char>>, j: int)
    requires
        0 <= j < nodes.len(),
        a.contains(nodes[j].id) || b.contains(nodes[j].id),
    ensures
        kept_nodes(nodes, a, b).contains(nodes[j]),
    decreases nodes.len(),
{
    let rest = kept_nodes(nodes.drop_last(), a, b);
    if j < nodes.len() - 1 {
        assert(nodes.drop_last()[j] == nodes[j]);
        lemma_kept_node(nodes.drop_last(), a, b, j);
        let k = choose|k: int| 0 <= k < rest.len() && rest[k] == nodes[j];
        if a.contains(nodes.last().id) || b.contains(nodes.last().id) {
            assert(rest.push(nodes.last())[k] == nodes[j]);
        }
    } else {
        assert(rest.push(nodes.last())[rest.len() as int] == nodes[j]);
    }
}

/// Each runtime pool comes from an included pool of the state.
proof fn lemma_runtime_pool_origin(nodes: Seq<ProxyNodeView>, pools: Seq<NodePoolView>, pids: Seq<Seq<char>>, t: int)
    requires
        0 <= t < runtime_pools_of(nodes, pools, pids).len(),
    ensures
        exists|k: int|
            0 <= k < pools.len() && included(pools[k], pids) && runtime_pools_of(nodes, pools, pids)[t]
                == runtime_of(nodes, narrowed(pools[k], pids)),
    decreases pools.len(),
{
    let rest = runtime_pools_of(nodes, pools.drop_last(), pids);
    if t < rest.len() {
        lemma_runtime_pool_origin(nodes, pools.drop_last(), pids, t);
        let k = choose|k: int|
            0 <= k < pools.drop_last().len() && included(pools.drop_last()[k], pids) && rest[t] == runtime_of(
                nodes,
                narrowed(pools.drop_last()[k], pids),
            );
        assert(pools[k] == pools.drop_last()[k]);
        if included(pools.last(), pids) {
            assert(rest.push(runtime_of(nodes, narrowed(pools.last(), pids)))[t] == rest[t]);
        }
    } else {
        assert(pools[pools.len() - 1] == pools.last());
    }
}

/// The members of an included custom pool are among the custom members.
proof fn lemma_custom_members(nodes: Seq<ProxyNodeView>, pools: Seq<NodePoolView>, pids: Seq<Seq<char>>, k: int, x: Seq<char>)
    requires
        0 <= k < pools.len(),
        included(pools[k], pids),
        pools[k].kind == PoolKind::Custom,
        members_of(nodes, pools[k]).contains(x),
    ensures
        custom_member_ids(nodes, pools, pids).contains(x),
    decreases pools.len(),
{
    let rest = custom_member_ids(nodes, pools.drop_last(), pids);
    if k < pools.len() - 1 {
        assert(pools.drop_last()[k] == pools[k]);
        lemma_custom_members(nodes, pools.drop_last(), pids, k, x);
        let c = choose|c: int| 0 <= c < rest.len() && rest[c] == x;
        if included(pools.last(), pids) && pools.last().kind == PoolKind::Custom {
            assert((rest + members_of(nodes, pools.last()))[c] == x);
        }
    } else {
        assert(pools.last() == pools[k]);
        let c = choose|c: int| 0 <= c < members_of(nodes, pools[k]).len() && members_of(nodes, pools[k])[c] == x;
        assert((rest + members_of(nodes, pools.last()))[rest.len() + c] == x);
    }
}

/// A narrowed source belongs to one of the providers.
proof fn lemma_narrowed_providers(srcs: Seq<PoolSourceView>, pids: Seq<Seq<char>>, c: int)
    requires
        0 <= c < narrow_sources(srcs, pids).len(),
    ensures
        pids.contains(narrow_sources(srcs, pids)[c].provider_id),
    decreases srcs.len(),
{
    let rest = narrow_sources(srcs.drop_last(), pids);
    if c < rest.len() {
        lemma_narrowed_providers(srcs.drop_last(), pids, c);
        if pids.contains(srcs.last().provider_id) {
            assert(rest.push(srcs.last())[c] == rest[c]);
        }
    }
}

/// Why a state cannot be projected, in this order: no selection; a
/// selection that names no subscription; an invalid state, or a selection
/// without providers or nodes; and a conflict: a stored pool that takes the
/// implicit pool's identity, an enabled pool without members or with a
/// manual choice outside them, or an enabled route or a default target that
/// names a pool the configuration does not hold.
pub proof fn law_projection_refusals(s: AppStateView)
    ensures
        s.active_subscription_id is None ==> projection_error(s) == Some(SelectionProjectionError::SelectionRequired),
        s.active_subscription_id matches Some(sel) && !subscription_ids(s).contains(sel) ==> projection_error(s)
            == Some(SelectionProjectionError::NotFound),
        s.active_subscription_id matches Some(sel) && subscription_ids(s).contains(sel) && (!valid_state(s)
            || selected_provider_ids(s.providers, sel).len() == 0 || selected_node_ids(
            s.nodes,
            selected_provider_ids(s.providers, sel),
        ).len() == 0) ==> projection_error(s) == Some(SelectionProjectionError::ConfigurationFailed),
        s.active_subscription_id matches Some(sel) && subscription_ids(s).contains(sel) && valid_state(s)
            && selected_provider_ids(s.providers, sel).len() > 0 && selected_node_ids(
            s.nodes,
            selected_provider_ids(s.providers, sel),
        ).len() > 0 && (pool_ids(s).contains(implicit_pool_id(sel)) || any_pool_conflict(
            s.nodes,
            s.pools,
            selected_provider_ids(s.providers, sel),
        ) || route_conflict(s, sel) || projected_default(s, sel) is None) ==> projection_error(s) == Some(
            SelectionProjectionError::SelectionConflict,
        ),
{
}

/// A projection carries nodes of the state, sorted by identity; pools
/// sorted by identity; only enabled routes of the state, sorted by priority
/// and then identity; the state's desired generation; and a direct or
/// blocking default target as the state has it.
pub proof fn law_projection_shape(s: AppStateView, p: SelectedRuntimeProjection)
    requires
        projection_error(s) is None,
        projection_of(s, s.active_subscription_id->0, p),
    ensures
        forall|i: int| 0 <= i < p.runtime_intent.nodes.deep_view().len() ==> s.nodes.contains(
            #[trigger] p.runtime_intent.nodes.deep_view()[i],
        ),
        nodes_ascending(p.runtime_intent.nodes.deep_view()),
        pools_ascending(p.runtime_intent.pools.deep_view()),
        forall|i: int| 0 <= i < p.runtime_intent.routes.deep_view().len() ==> s.routes.contains(
            #[trigger] p.runtime_intent.routes.deep_view()[i],
        ) && p.runtime_intent.routes.deep_view()[i].enabled,
        routes_ascending(p.runtime_intent.routes.deep_view()),
        p.selected_generation == s.active_configuration_generation,
        s.default_target == RouteTargetView::Direct ==> p.projected_default_target@ == RouteTargetView::Direct,
        s.default_target == RouteTargetView::Block ==> p.projected_default_target@ == RouteTargetView::Block,
{
    let sel = s.active_subscription_id->0;
    let pids = selected_provider_ids(s.providers, sel);
    let kept = kept_nodes(s.nodes, selected_node_ids(s.nodes, pids), custom_member_ids(s.nodes, s.pools, pids));
    let nodes = p.runtime_intent.nodes.deep_view();
    let routes = p.runtime_intent.routes.deep_view();
    let enabled = enabled_routes(s.routes);
    let node_perm = choose|perm: Seq<usize>|
        #![trigger is_permutation(perm, kept.len())]
        is_permutation(perm, kept.len()) && nodes.len() == kept.len() && forall|k: int|
            0 <= k < nodes.len() ==> nodes[k] == kept[perm[k] as int];
    let route_perm = choose|perm: Seq<usize>|
        #![trigger is_permutation(perm, enabled.len())]
        is_permutation(perm, enabled.len()) && routes.len() == enabled.len() && forall|k: int|
            0 <= k < routes.len() ==> routes[k] == enabled[perm[k] as int];
    assert forall|i: int| 0 <= i < nodes.len() implies s.nodes.contains(#[trigger] nodes[i]) by {
        lemma_kept_from(s.nodes, selected_node_ids(s.nodes, pids), custom_member_ids(s.nodes, s.pools, pids), node_perm[i] as int);
    }
    assert forall|i: int| 0 <= i < routes.len() implies s.routes.contains(#[trigger] routes[i]) && routes[i].enabled by {
        lemma_enabled_from(s.routes, route_perm[i] as int);
    }
}

/// A kept node is a node of `nodes`.
proof fn lemma_kept_from(nodes: Seq<ProxyNodeView>, a: Seq<Seq<char>>, b: Seq<Seq<char>>, k: int)
    requires
        0 <= k < kept_nodes(nodes, a, b).len(),
    ensures
        nodes.contains(kept_nodes(nodes, a, b)[k]),
    decreases nodes.len(),
{
    let rest = kept_nodes(nodes.drop_last(), a, b);
    if k < rest.len() {
        lemma_kept_from(nodes.drop_last(), a, b, k);
        let j = choose|j: int| 0 <= j < nodes.drop_last().len() && nodes.drop_last()[j] == rest[k];
        assert(nodes[j] == rest[k]);
        if a.contains(nodes.last().id) || b.contains(nodes.last().id) {
            assert(rest.push(nodes.last())[k] == rest[k]);
        }
    } else {
        assert(nodes[nodes.len() - 1] == nodes.last());
    }
}

/// An enabled route is an enabled route of `routes`.
proof fn lemma_enabled_from(routes: Seq<RoutePolicyView>, k: int)
    requires
        0 <= k < enabled_routes(routes).len(),
    ensures
        routes.contains(enabled_routes(routes)[k]),
        enabled_routes(routes)[k].enabled,
    decreases routes.len(),
{
    let rest = enabled_routes(routes.drop_last());
    if k < rest.len() {
        lemma_enabled_from(routes.drop_last(), k);
        let j = choose|j: int| 0 <= j < routes.drop_last().len() && routes.drop_last()[j] == rest[k];
        assert(routes[j] == rest[k]);
        if routes.last().enabled {
            assert(rest.push(routes.last())[k] == rest[k]);
        }
    } else {
        assert(routes[routes.len() - 1] == routes.last());
    }
}

} // verus!
