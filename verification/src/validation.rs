//! Pool membership resolution and structural validation of the application state.
use vstd::prelude::*;

use crate::domain::{
    AppState, AppStateView, ExactClone, ExactEq, NodeFilter, NodeFilterView, NodeId, NodePool,
    NodePoolView, PoolSourceView, ProviderId, ProviderView, ProxyNode, ProxyNodeView,
    RoutePolicyView, RouteTarget, RouteTargetView, SelectionPolicy, SelectionPolicyView,
    SubscriptionView, CURRENT_SCHEMA_VERSION,
};
use crate::text::{chars_of, contains_sub, has_sub};

verus! {

/// Why a state is rejected.
#[derive(Clone, Copy, Debug, PartialEq, Eq, Structural)]
pub enum StateValidationError {
    MissingSubscription,
    MissingProvider,
    MissingPool,
    EmptyPoolSources,
    InvalidFilter,
    InvalidSelection,
    EmptyPoolMembership,
    InactivePoolTarget,
    InvalidIdentifier,
    DuplicateIdentifier,
    InvalidRoute,
    InvalidProtocolOptions,
    InvalidSubscription,
    UnsupportedSchemaVersion,
}

// ---------------------------------------------------------------------------
// Membership of a pool
// ---------------------------------------------------------------------------

/// Some text of `words` occurs in `name`.
pub open spec fn mentions_any(name: Seq<char>, words: Seq<Seq<char>>) -> bool {
    exists|k: int| 0 <= k < words.len() && has_sub(name, #[trigger] words[k])
}

/// Whether a filter keeps a node.
pub open spec fn filter_accepts(f: NodeFilterView, n: ProxyNodeView) -> bool {
    &&& (f.include_node_ids.len() == 0 || f.include_node_ids.contains(n.id))
    &&& !f.exclude_node_ids.contains(n.id)
    &&& (f.protocols.len() == 0 || f.protocols.contains(n.protocol))
    &&& (f.include_keywords.len() == 0 || mentions_any(n.name, f.include_keywords))
    &&& !mentions_any(n.name, f.exclude_keywords)
    &&& (f.regions.len() == 0 || mentions_any(n.name, f.regions))
}

/// Whether one pool source contributes a node.
pub open spec fn source_accepts(s: PoolSourceView, n: ProxyNodeView) -> bool {
    s.provider_id == n.provider_id && filter_accepts(s.filter, n)
}

/// Whether any source of a pool contributes a node.
pub open spec fn pool_accepts(p: NodePoolView, n: ProxyNodeView) -> bool {
    exists|k: int| 0 <= k < p.sources.len() && source_accepts(#[trigger] p.sources[k], n)
}

/// The identities of the nodes a pool contains, in the order of `nodes`.
pub open spec fn members_of(nodes: Seq<ProxyNodeView>, p: NodePoolView) -> Seq<Seq<char>>
    decreases nodes.len(),
{
    if nodes.len() == 0 {
        Seq::empty()
    } else {
        let rest = members_of(nodes.drop_last(), p);
        if pool_accepts(p, nodes.last()) {
            rest.push(nodes.last().id)
        } else {
            rest
        }
    }
}

/// Whether `v` holds an element whose view is `x`.
pub fn contains_exact<T: ExactEq>(v: &Vec<T>, x: &T) -> (r: bool)
    ensures
        r == v.deep_view().contains(x.deep_view()),
{
    let mut i: usize = 0;
    while i < v.len()
        invariant
            i <= v.len(),
            forall|k: int| 0 <= k < i ==> v.deep_view()[k] != x.deep_view(),
        decreases v.len() - i,
    {
        if v[i].same(x) {
            proof {
                assert(v.deep_view()[i as int] == x.deep_view());
            }
            return true;
        }
        i = i + 1;
    }
    false
}

fn mentions_any_exec(name: &String, words: &Vec<String>) -> (r: bool)
    ensures
        r == mentions_any(name@, words.deep_view()),
{
    let hay = chars_of(name.as_str());
    let mut k: usize = 0;
    while k < words.len()
        invariant
            k <= words.len(),
            hay@ == name@,
            forall|j: int| 0 <= j < k ==> !has_sub(name@, #[trigger] words.deep_view()[j]),
        decreases words.len() - k,
    {
        let needle = chars_of(words[k].as_str());
        if contains_sub(&hay, &needle) {
            proof {
                assert(words.deep_view()[k as int] == words[k as int]@);
            }
            return true;
        }
        proof {
            assert(words.deep_view()[k as int] == words[k as int]@);
        }
        k = k + 1;
    }
    false
}

pub fn filter_accepts_exec(f: &NodeFilter, n: &ProxyNode) -> (r: bool)
    ensures
        r == filter_accepts(f@, n@),
{
    (f.include_node_ids.len() == 0 || contains_exact(&f.include_node_ids, &n.id))
        && !contains_exact(&f.exclude_node_ids, &n.id)
        && (f.protocols.len() == 0 || contains_exact(&f.protocols, &n.protocol))
        && (f.include_keywords.len() == 0 || mentions_any_exec(&n.name, &f.include_keywords))
        && !mentions_any_exec(&n.name, &f.exclude_keywords)
        && (f.regions.len() == 0 || mentions_any_exec(&n.name, &f.regions))
}

pub fn pool_accepts_exec(p: &NodePool, n: &ProxyNode) -> (r: bool)
    ensures
        r == pool_accepts(p@, n@),
{
    let mut k: usize = 0;
    while k < p.sources.len()
        invariant
            k <= p.sources.len(),
            forall|j: int| 0 <= j < k ==> !source_accepts(#[trigger] p@.sources[j], n@),
        decreases p.sources.len() - k,
    {
        let s = &p.sources[k];
        if s.provider_id.same(&n.provider_id) && filter_accepts_exec(&s.filter, n) {
            proof {
                assert(p@.sources[k as int] == s@);
            }
            return true;
        }
        proof {
            assert(p@.sources[k as int] == s@);
        }
        k = k + 1;
    }
    false
}

/// The nodes of `nodes` that `pool` contains, in order.
pub fn resolve_members(nodes: &Vec<ProxyNode>, pool: &NodePool) -> (r: Vec<NodeId>)
    ensures
        r.deep_view() == members_of(nodes.deep_view(), pool@),
{
    let mut r: Vec<NodeId> = Vec::new();
    let mut i: usize = 0;
    while i < nodes.len()
        invariant
            i <= nodes.len(),
            r.deep_view() == members_of(nodes.deep_view().take(i as int), pool@),
        decreases nodes.len() - i,
    {
        let ghost before = r.deep_view();
        proof {
            let t = nodes.deep_view().take(i + 1);
            assert(t.drop_last() =~= nodes.deep_view().take(i as int));
            assert(t.last() == nodes[i as int]@);
        }
        if pool_accepts_exec(pool, &nodes[i]) {
            let id = nodes[i].id.exact_clone();
            r.push(id);
            proof {
                assert(r.deep_view() =~= before.push(id@));
            }
        }
        i = i + 1;
    }
    proof {
        assert(nodes.deep_view().take(nodes.len() as int) =~= nodes.deep_view());
    }
    r
}

impl AppState {
    /// The members of `pool` resolved against this state's nodes.
    pub fn resolve_pool_members(&self, pool: &NodePool) -> (r: Vec<NodeId>)
        ensures
            r.deep_view() == members_of(self@.nodes, pool@),
    {
        resolve_members(&self.nodes, pool)
    }
}

// ---------------------------------------------------------------------------
// Validation
// ---------------------------------------------------------------------------

pub open spec fn distinct(ids: Seq<Seq<char>>) -> bool {
    forall|i: int, j: int| 0 <= i < j < ids.len() ==> ids[i] != ids[j]
}

pub open spec fn no_empty(ids: Seq<Seq<char>>) -> bool {
    forall|i: int| 0 <= i < ids.len() ==> (#[trigger] ids[i]).len() > 0
}

pub open spec fn subscription_ids(s: AppStateView) -> Seq<Seq<char>> {
    s.subscriptions.map_values(|x: SubscriptionView| x.id)
}

pub open spec fn provider_ids(s: AppStateView) -> Seq<Seq<char>> {
    s.providers.map_values(|x: ProviderView| x.id)
}

pub open spec fn node_ids(s: AppStateView) -> Seq<Seq<char>> {
    s.nodes.map_values(|x: ProxyNodeView| x.id)
}

pub open spec fn pool_ids(s: AppStateView) -> Seq<Seq<char>> {
    s.pools.map_values(|x: NodePoolView| x.id)
}

pub open spec fn route_ids(s: AppStateView) -> Seq<Seq<char>> {
    s.routes.map_values(|x: RoutePolicyView| x.id)
}

pub open spec fn identifiers_present(s: AppStateView) -> bool {
    &&& no_empty(subscription_ids(s))
    &&& no_empty(provider_ids(s))
    &&& no_empty(node_ids(s))
    &&& no_empty(pool_ids(s))
    &&& no_empty(route_ids(s))
}

pub open spec fn identifiers_distinct(s: AppStateView) -> bool {
    &&& distinct(subscription_ids(s))
    &&& distinct(provider_ids(s))
    &&& distinct(node_ids(s))
    &&& distinct(pool_ids(s))
    &&& distinct(route_ids(s))
}

pub open spec fn providers_linked(s: AppStateView) -> bool {
    forall|i: int|
        0 <= i < s.providers.len() ==> subscription_ids(s).contains(
            (#[trigger] s.providers[i]).subscription_id,
        )
}

pub open spec fn active_linked(s: AppStateView) -> bool {
    s.active_subscription_id matches Some(a) ==> subscription_ids(s).contains(a)
}

pub open spec fn nodes_linked(s: AppStateView) -> bool {
    forall|i: int|
        0 <= i < s.nodes.len() ==> provider_ids(s).contains((#[trigger] s.nodes[i]).provider_id)
}

pub open spec fn endpoint_valid(n: ProxyNodeView) -> bool {
    n.port != 0 && n.server.len() > 0
}

pub open spec fn endpoints_valid(s: AppStateView) -> bool {
    forall|i: int| 0 <= i < s.nodes.len() ==> endpoint_valid(#[trigger] s.nodes[i])
}

pub open spec fn pools_have_sources(s: AppStateView) -> bool {
    forall|i: int| 0 <= i < s.pools.len() ==> (#[trigger] s.pools[i]).sources.len() > 0
}

pub open spec fn sources_linked(s: AppStateView) -> bool {
    forall|i: int, j: int|
        0 <= i < s.pools.len() && 0 <= j < s.pools[i].sources.len() ==> provider_ids(s).contains(
            #[trigger] s.pools[i].sources[j].provider_id,
        )
}

/// A node of `provider` with identity `id` exists.
pub open spec fn has_node_of(s: AppStateView, provider: Seq<char>, id: Seq<char>) -> bool {
    exists|k: int|
        0 <= k < s.nodes.len() && (#[trigger] s.nodes[k]).id == id && s.nodes[k].provider_id
            == provider
}

pub open spec fn filter_references_valid(s: AppStateView, src: PoolSourceView) -> bool {
    &&& forall|k: int|
        0 <= k < src.filter.include_node_ids.len() ==> has_node_of(
            s,
            src.provider_id,
            #[trigger] src.filter.include_node_ids[k],
        )
    &&& forall|k: int|
        0 <= k < src.filter.exclude_node_ids.len() ==> has_node_of(
            s,
            src.provider_id,
            #[trigger] src.filter.exclude_node_ids[k],
        )
}

pub open spec fn filters_valid(s: AppStateView) -> bool {
    forall|i: int, j: int|
        0 <= i < s.pools.len() && 0 <= j < s.pools[i].sources.len() ==> filter_references_valid(
            s,
            #[trigger] s.pools[i].sources[j],
        )
}

pub open spec fn selection_valid(s: AppStateView, p: NodePoolView) -> bool {
    p.selection matches SelectionPolicyView::Manual { selected_node_id: Some(id) } ==> members_of(
        s.nodes,
        p,
    ).contains(id)
}

pub open spec fn selections_valid(s: AppStateView) -> bool {
    forall|i: int| 0 <= i < s.pools.len() ==> selection_valid(s, #[trigger] s.pools[i])
}

pub open spec fn memberships_valid(s: AppStateView) -> bool {
    forall|i: int|
        0 <= i < s.pools.len() ==> ((#[trigger] s.pools[i]).enabled ==> members_of(
            s.nodes,
            s.pools[i],
        ).len() > 0)
}

pub open spec fn routes_configured(s: AppStateView) -> bool {
    forall|i: int| 0 <= i < s.routes.len() ==> !((#[trigger] s.routes[i]).target is Unconfigured)
}

/// Whether a target refers to an existing pool (or to no pool at all).
pub open spec fn target_exists(s: AppStateView, t: RouteTargetView) -> bool {
    t matches RouteTargetView::Pool(id) ==> pool_ids(s).contains(id)
}

/// Whether a target refers to an enabled pool (or to no pool at all).
pub open spec fn target_active(s: AppStateView, t: RouteTargetView) -> bool {
    t matches RouteTargetView::Pool(id) ==> exists|k: int|
        0 <= k < s.pools.len() && (#[trigger] s.pools[k]).id == id && s.pools[k].enabled
}

pub open spec fn route_targets_exist(s: AppStateView) -> bool {
    forall|i: int| 0 <= i < s.routes.len() ==> target_exists(s, (#[trigger] s.routes[i]).target)
}

pub open spec fn route_targets_active(s: AppStateView) -> bool {
    forall|i: int|
        0 <= i < s.routes.len() ==> ((#[trigger] s.routes[i]).enabled ==> target_active(
            s,
            s.routes[i].target,
        ))
}

/// The first rule a state breaks, checked in a fixed order; `None` for a valid state.
pub open spec fn validation_error(s: AppStateView) -> Option<StateValidationError> {
    if s.schema_version != CURRENT_SCHEMA_VERSION {
        Some(StateValidationError::UnsupportedSchemaVersion)
    } else if !identifiers_present(s) {
        Some(StateValidationError::InvalidIdentifier)
    } else if !identifiers_distinct(s) {
        Some(StateValidationError::DuplicateIdentifier)
    } else if !providers_linked(s) || !active_linked(s) {
        Some(StateValidationError::MissingSubscription)
    } else if !nodes_linked(s) {
        Some(StateValidationError::MissingProvider)
    } else if !endpoints_valid(s) {
        Some(StateValidationError::InvalidProtocolOptions)
    } else if !pools_have_sources(s) {
        Some(StateValidationError::EmptyPoolSources)
    } else if !sources_linked(s) {
        Some(StateValidationError::MissingProvider)
    } else if !filters_valid(s) {
        Some(StateValidationError::InvalidFilter)
    } else if !selections_valid(s) {
        Some(StateValidationError::InvalidSelection)
    } else if !memberships_valid(s) {
        Some(StateValidationError::EmptyPoolMembership)
    } else if !routes_configured(s) {
        Some(StateValidationError::InvalidRoute)
    } else if !route_targets_exist(s) || !target_exists(s, s.default_target) {
        Some(StateValidationError::MissingPool)
    } else if !route_targets_active(s) || !target_active(s, s.default_target) {
        Some(StateValidationError::InactivePoolTarget)
    } else {
        None
    }
}

pub open spec fn valid_state(s: AppStateView) -> bool {
    validation_error(s) is None
}

fn subscription_id_texts(s: &AppState) -> (r: Vec<String>)
    ensures
        r.deep_view() == subscription_ids(s@),
{
    let mut r: Vec<String> = Vec::new();
    let mut i: usize = 0;
    while i < s.subscriptions.len()
        invariant
            i <= s.subscriptions.len(),
            r.deep_view() =~= subscription_ids(s@).take(i as int),
        decreases s.subscriptions.len() - i,
    {
        let ghost before = r.deep_view();
        let t = s.subscriptions[i].id.0.clone();
        r.push(t);
        proof {
            assert(r.deep_view() =~= before.push(t@));
            assert(subscription_ids(s@).take(i + 1) =~= subscription_ids(s@).take(i as int).push(subscription_ids(s@)[i as int]));
        }
        i = i + 1;
    }
    proof {
        assert(subscription_ids(s@).take(s.subscriptions.len() as int) =~= subscription_ids(s@));
    }
    r
}

fn provider_id_texts(s: &AppState) -> (r: Vec<String>)
    ensures
        r.deep_view() == provider_ids(s@),
{
    let mut r: Vec<String> = Vec::new();
    let mut i: usize = 0;
    while i < s.providers.len()
        invariant
            i <= s.providers.len(),
            r.deep_view() =~= provider_ids(s@).take(i as int),
        decreases s.providers.len() - i,
    {
        let ghost before = r.deep_view();
        let t = s.providers[i].id.0.clone();
        r.push(t);
        proof {
            assert(r.deep_view() =~= before.push(t@));
            assert(provider_ids(s@).take(i + 1) =~= provider_ids(s@).take(i as int).push(provider_ids(s@)[i as int]));
        }
        i = i + 1;
    }
    proof {
        assert(provider_ids(s@).take(s.providers.len() as int) =~= provider_ids(s@));
    }
    r
}

fn node_id_texts(s: &AppState) -> (r: Vec<String>)
    ensures
        r.deep_view() == node_ids(s@),
{
    let mut r: Vec<String> = Vec::new();
    let mut i: usize = 0;
    while i < s.nodes.len()
        invariant
            i <= s.nodes.len(),
            r.deep_view() =~= node_ids(s@).take(i as int),
        decreases s.nodes.len() - i,
    {
        let ghost before = r.deep_view();
        let t = s.nodes[i].id.0.clone();
        r.push(t);
        proof {
            assert(r.deep_view() =~= before.push(t@));
            assert(node_ids(s@).take(i + 1) =~= node_ids(s@).take(i as int).push(node_ids(s@)[i as int]));
        }
        i = i + 1;
    }
    proof {
        assert(node_ids(s@).take(s.nodes.len() as int) =~= node_ids(s@));
    }
    r
}

fn pool_id_texts(s: &AppState) -> (r: Vec<String>)
    ensures
        r.deep_view() == pool_ids(s@),
{
    let mut r: Vec<String> = Vec::new();
    let mut i: usize = 0;
    while i < s.pools.len()
        invariant
            i <= s.pools.len(),
            r.deep_view() =~= pool_ids(s@).take(i as int),
        decreases s.pools.len() - i,
    {
        let ghost before = r.deep_view();
        let t = s.pools[i].id.0.clone();
        r.push(t);
        proof {
            assert(r.deep_view() =~= before.push(t@));
            assert(pool_ids(s@).take(i + 1) =~= pool_ids(s@).take(i as int).push(pool_ids(s@)[i as int]));
        }
        i = i + 1;
    }
    proof {
        assert(pool_ids(s@).take(s.pools.len() as int) =~= pool_ids(s@));
    }
    r
}

fn route_id_texts(s: &AppState) -> (r: Vec<String>)
    ensures
        r.deep_view() == route_ids(s@),
{
    let mut r: Vec<String> = Vec::new();
    let mut i: usize = 0;
    while i < s.routes.len()
        invariant
            i <= s.routes.len(),
            r.deep_view() =~= route_ids(s@).take(i as int),
        decreases s.routes.len() - i,
    {
        let ghost before = r.deep_view();
        let t = s.routes[i].id.0.clone();
        r.push(t);
        proof {
            assert(r.deep_view() =~= before.push(t@));
            assert(route_ids(s@).take(i + 1) =~= route_ids(s@).take(i as int).push(route_ids(s@)[i as int]));
        }
        i = i + 1;
    }
    proof {
        assert(route_ids(s@).take(s.routes.len() as int) =~= route_ids(s@));
    }
    r
}

fn all_nonempty(v: &Vec<String>) -> (r: bool)
    ensures
        r == no_empty(v.deep_view()),
{
    let mut i: usize = 0;
    while i < v.len()
        invariant
            i <= v.len(),
            forall|k: int| 0 <= k < i ==> (#[trigger] v.deep_view()[k]).len() > 0,
        decreases v.len() - i,
    {
        if v[i].as_str().is_empty() {
            proof {
                assert(v.deep_view()[i as int] == v[i as int]@);
            }
            return false;
        }
        proof {
            assert(v.deep_view()[i as int] == v[i as int]@);
        }
        i = i + 1;
    }
    true
}

fn all_distinct(v: &Vec<String>) -> (r: bool)
    ensures
        r == distinct(v.deep_view()),
{
    let mut j: usize = 0;
    while j < v.len()
        invariant
            j <= v.len(),
            forall|a: int, b: int| 0 <= a < b < j ==> v.deep_view()[a] != v.deep_view()[b],
        decreases v.len() - j,
    {
        let mut i: usize = 0;
        while i < j
            invariant
                i <= j < v.len(),
                forall|a: int, b: int| 0 <= a < b < j ==> v.deep_view()[a] != v.deep_view()[b],
                forall|a: int| 0 <= a < i ==> v.deep_view()[a] != v.deep_view()[j as int],
            decreases j - i,
        {
            if v[i].same(&v[j]) {
                proof {
                    assert(v.deep_view()[i as int] == v.deep_view()[j as int]);
                }
                return false;
            }
            i = i + 1;
        }
        j = j + 1;
    }
    true
}

fn contains_text(v: &Vec<String>, x: &String) -> (r: bool)
    ensures
        r == v.deep_view().contains(x@),
{
    contains_exact(v, x)
}

impl AppState {
    /// Checks the state against its structural rules; `Err` names the first rule broken.
    pub fn validate(&self) -> (r: Result<(), StateValidationError>)
        ensures
            r is Ok <==> valid_state(self@),
            r matches Err(e) ==> validation_error(self@) == Some(e),
    {
        let s = self;
        if s.schema_version != CURRENT_SCHEMA_VERSION {
            return Err(StateValidationError::UnsupportedSchemaVersion);
        }
        let sub_ids = subscription_id_texts(s);
        let prov_ids = provider_id_texts(s);
        let nd_ids = node_id_texts(s);
        let pl_ids = pool_id_texts(s);
        let rt_ids = route_id_texts(s);
        if !(all_nonempty(&sub_ids) && all_nonempty(&prov_ids) && all_nonempty(&nd_ids)
            && all_nonempty(&pl_ids) && all_nonempty(&rt_ids)) {
            return Err(StateValidationError::InvalidIdentifier);
        }
        if !(all_distinct(&sub_ids) && all_distinct(&prov_ids) && all_distinct(&nd_ids)
            && all_distinct(&pl_ids) && all_distinct(&rt_ids)) {
            return Err(StateValidationError::DuplicateIdentifier);
        }
        if !providers_linked_exec(s, &sub_ids) || !active_linked_exec(s, &sub_ids) {
            return Err(StateValidationError::MissingSubscription);
        }
        if !nodes_linked_exec(s, &prov_ids) {
            return Err(StateValidationError::MissingProvider);
        }
        if !endpoints_valid_exec(s) {
            return Err(StateValidationError::InvalidProtocolOptions);
        }
        if !pools_have_sources_exec(s) {
            return Err(StateValidationError::EmptyPoolSources);
        }
        if !sources_linked_exec(s, &prov_ids) {
            return Err(StateValidationError::MissingProvider);
        }
        if !filters_valid_exec(s) {
            return Err(StateValidationError::InvalidFilter);
        }
        if !selections_valid_exec(s) {
            return Err(StateValidationError::InvalidSelection);
        }
        if !memberships_valid_exec(s) {
            return Err(StateValidationError::EmptyPoolMembership);
        }
        if !routes_configured_exec(s) {
            return Err(StateValidationError::InvalidRoute);
        }
        if !route_targets_exist_exec(s, &pl_ids) || !target_exists_exec(s, &s.default_target, &pl_ids) {
            return Err(StateValidationError::MissingPool);
        }
        if !route_targets_active_exec(s) || !target_active_exec(s, &s.default_target) {
            return Err(StateValidationError::InactivePoolTarget);
        }
        Ok(())
    }
}

fn providers_linked_exec(s: &AppState, sub_ids: &Vec<String>) -> (r: bool)
    requires
        sub_ids.deep_view() == subscription_ids(s@),
    ensures
        r == providers_linked(s@),
{
    let mut i: usize = 0;
    while i < s.providers.len()
        invariant
            i <= s.providers.len(),
            sub_ids.deep_view() == subscription_ids(s@),
            forall|k: int| 0 <= k < i ==> subscription_ids(s@).contains((#[trigger] s@.providers[k]).subscription_id),
        decreases s.providers.len() - i,
    {
        if !contains_text(sub_ids, &s.providers[i].subscription_id.0) {
            proof {
                assert(s@.providers[i as int] == s.providers[i as int]@);
            }
            return false;
        }
        proof {
            assert(s@.providers[i as int] == s.providers[i as int]@);
        }
        i = i + 1;
    }
    true
}

fn active_linked_exec(s: &AppState, sub_ids: &Vec<String>) -> (r: bool)
    requires
        sub_ids.deep_view() == subscription_ids(s@),
    ensures
        r == active_linked(s@),
{
    match &s.active_subscription_id {
        Some(a) => contains_text(sub_ids, &a.0),
        None => true,
    }
}

fn nodes_linked_exec(s: &AppState, prov_ids: &Vec<String>) -> (r: bool)
    requires
        prov_ids.deep_view() == provider_ids(s@),
    ensures
        r == nodes_linked(s@),
{
    let mut i: usize = 0;
    while i < s.nodes.len()
        invariant
            i <= s.nodes.len(),
            prov_ids.deep_view() == provider_ids(s@),
            forall|k: int| 0 <= k < i ==> provider_ids(s@).contains((#[trigger] s@.nodes[k]).provider_id),
        decreases s.nodes.len() - i,
    {
        proof {
            assert(s@.nodes[i as int] == s.nodes[i as int]@);
        }
        if !contains_text(prov_ids, &s.nodes[i].provider_id.0) {
            return false;
        }
        i = i + 1;
    }
    true
}

fn endpoints_valid_exec(s: &AppState) -> (r: bool)
    ensures
        r == endpoints_valid(s@),
{
    let mut i: usize = 0;
    while i < s.nodes.len()
        invariant
            i <= s.nodes.len(),
            forall|k: int| 0 <= k < i ==> endpoint_valid(#[trigger] s@.nodes[k]),
        decreases s.nodes.len() - i,
    {
        proof {
            assert(s@.nodes[i as int] == s.nodes[i as int]@);
        }
        if s.nodes[i].port == 0 || s.nodes[i].server.as_str().is_empty() {
            return false;
        }
        i = i + 1;
    }
    true
}

fn pools_have_sources_exec(s: &AppState) -> (r: bool)
    ensures
        r == pools_have_sources(s@),
{
    let mut i: usize = 0;
    while i < s.pools.len()
        invariant
            i <= s.pools.len(),
            forall|k: int| 0 <= k < i ==> (#[trigger] s@.pools[k]).sources.len() > 0,
        decreases s.pools.len() - i,
    {
        proof {
            assert(s@.pools[i as int] == s.pools[i as int]@);
        }
        if s.pools[i].sources.len() == 0 {
            return false;
        }
        i = i + 1;
    }
    true
}

fn sources_linked_exec(s: &AppState, prov_ids: &Vec<String>) -> (r: bool)
    requires
        prov_ids.deep_view() == provider_ids(s@),
    ensures
        r == sources_linked(s@),
{
    let mut i: usize = 0;
    while i < s.pools.len()
        invariant
            i <= s.pools.len(),
            prov_ids.deep_view() == provider_ids(s@),
            forall|a: int, b: int|
                0 <= a < i && 0 <= b < s@.pools[a].sources.len() ==> provider_ids(s@).contains(
                    #[trigger] s@.pools[a].sources[b].provider_id,
                ),
        decreases s.pools.len() - i,
    {
        let pool = &s.pools[i];
        proof {
            assert(s@.pools[i as int] == pool@);
        }
        let mut j: usize = 0;
        while j < pool.sources.len()
            invariant
                i < s.pools.len(),
                pool == &s.pools[i as int],
                j <= pool.sources.len(),
                prov_ids.deep_view() == provider_ids(s@),
                s@.pools[i as int] == pool@,
                forall|b: int| 0 <= b < j ==> provider_ids(s@).contains(#[trigger] s@.pools[i as int].sources[b].provider_id),
            decreases pool.sources.len() - j,
        {
            proof {
                assert(pool@.sources[j as int] == pool.sources[j as int]@);
            }
            if !contains_text(prov_ids, &pool.sources[j].provider_id.0) {
                proof {
                    assert(!provider_ids(s@).contains(s@.pools[i as int].sources[j as int].provider_id));
                }
                return false;
            }
            j = j + 1;
        }
        i = i + 1;
    }
    true
}

fn has_node_of_exec(s: &AppState, provider: &ProviderId, id: &NodeId) -> (r: bool)
    ensures
        r == has_node_of(s@, provider@, id@),
{
    let mut k: usize = 0;
    while k < s.nodes.len()
        invariant
            k <= s.nodes.len(),
            forall|j: int| 0 <= j < k ==> !((#[trigger] s@.nodes[j]).id == id@ && s@.nodes[j].provider_id == provider@),
        decreases s.nodes.len() - k,
    {
        proof {
            assert(s@.nodes[k as int] == s.nodes[k as int]@);
        }
        if s.nodes[k].id.same(id) && s.nodes[k].provider_id.same(provider) {
            return true;
        }
        k = k + 1;
    }
    false
}

fn all_refs_exist(s: &AppState, provider: &ProviderId, ids: &Vec<NodeId>) -> (r: bool)
    ensures
        r == forall|k: int| 0 <= k < ids.deep_view().len() ==> has_node_of(s@, provider@, #[trigger] ids.deep_view()[k]),
{
    let mut k: usize = 0;
    while k < ids.len()
        invariant
            k <= ids.len(),
            forall|j: int| 0 <= j < k ==> has_node_of(s@, provider@, #[trigger] ids.deep_view()[j]),
        decreases ids.len() - k,
    {
        if !has_node_of_exec(s, provider, &ids[k]) {
            proof {
                assert(ids.deep_view()[k as int] == ids[k as int]@);
            }
            return false;
        }
        k = k + 1;
    }
    true
}

fn filters_valid_exec(s: &AppState) -> (r: bool)
    ensures
        r == filters_valid(s@),
{
    let mut i: usize = 0;
    while i < s.pools.len()
        invariant
            i <= s.pools.len(),
            forall|a: int, b: int|
                0 <= a < i && 0 <= b < s@.pools[a].sources.len() ==> filter_references_valid(s@, #[trigger] s@.pools[a].sources[b]),
        decreases s.pools.len() - i,
    {
        let pool = &s.pools[i];
        proof {
            assert(s@.pools[i as int] == pool@);
        }
        let mut j: usize = 0;
        while j < pool.sources.len()
            invariant
                i < s.pools.len(),
                pool == &s.pools[i as int],
                j <= pool.sources.len(),
                s@.pools[i as int] == pool@,
                forall|b: int| 0 <= b < j ==> filter_references_valid(s@, #[trigger] s@.pools[i as int].sources[b]),
            decreases pool.sources.len() - j,
        {
            let src = &pool.sources[j];
            proof {
                assert(pool@.sources[j as int] == src@);
            }
            let inc = all_refs_exist(s, &src.provider_id, &src.filter.include_node_ids);
            let exc = all_refs_exist(s, &src.provider_id, &src.filter.exclude_node_ids);
            proof {
                let sv = s@.pools[i as int].sources[j as int];
                assert(sv == src@);
                assert(sv.provider_id == src.provider_id@);
                assert(sv.filter.include_node_ids == src.filter.include_node_ids.deep_view());
                assert(sv.filter.exclude_node_ids == src.filter.exclude_node_ids.deep_view());
            }
            if !inc || !exc {
                return false;
            }
            j = j + 1;
        }
        i = i + 1;
    }
    true
}

fn selections_valid_exec(s: &AppState) -> (r: bool)
    ensures
        r == selections_valid(s@),
{
    let mut i: usize = 0;
    while i < s.pools.len()
        invariant
            i <= s.pools.len(),
            forall|k: int| 0 <= k < i ==> selection_valid(s@, #[trigger] s@.pools[k]),
        decreases s.pools.len() - i,
    {
        let pool = &s.pools[i];
        proof {
            assert(s@.pools[i as int] == pool@);
        }
        match &pool.selection {
            SelectionPolicy::Manual { selected_node_id: Some(id) } => {
                let members = s.resolve_pool_members(pool);
                if !contains_exact(&members, id) {
                    return false;
                }
            },
            _ => {},
        }
        i = i + 1;
    }
    true
}

fn memberships_valid_exec(s: &AppState) -> (r: bool)
    ensures
        r == memberships_valid(s@),
{
    let mut i: usize = 0;
    while i < s.pools.len()
        invariant
            i <= s.pools.len(),
            forall|k: int| 0 <= k < i ==> ((#[trigger] s@.pools[k]).enabled ==> members_of(s@.nodes, s@.pools[k]).len() > 0),
        decreases s.pools.len() - i,
    {
        let pool = &s.pools[i];
        proof {
            assert(s@.pools[i as int] == pool@);
        }
        if pool.enabled {
            let members = s.resolve_pool_members(pool);
            if members.len() == 0 {
                return false;
            }
        }
        i = i + 1;
    }
    true
}

fn routes_configured_exec(s: &AppState) -> (r: bool)
    ensures
        r == routes_configured(s@),
{
    let mut i: usize = 0;
    while i < s.routes.len()
        invariant
            i <= s.routes.len(),
            forall|k: int| 0 <= k < i ==> !((#[trigger] s@.routes[k]).target is Unconfigured),
        decreases s.routes.len() - i,
    {
        proof {
            assert(s@.routes[i as int] == s.routes[i as int]@);
        }
        if matches!(s.routes[i].target, RouteTarget::Unconfigured) {
            return false;
        }
        i = i + 1;
    }
    true
}

fn target_exists_exec(s: &AppState, t: &RouteTarget, pl_ids: &Vec<String>) -> (r: bool)
    requires
        pl_ids.deep_view() == pool_ids(s@),
    ensures
        r == target_exists(s@, t@),
{
    match t {
        RouteTarget::Pool(id) => contains_text(pl_ids, &id.0),
        _ => true,
    }
}

fn target_active_exec(s: &AppState, t: &RouteTarget) -> (r: bool)
    ensures
        r == target_active(s@, t@),
{
    match t {
        RouteTarget::Pool(id) => {
            let mut k: usize = 0;
            proof {
                assert(t@ == RouteTargetView::Pool(id@));
            }
            while k < s.pools.len()
                invariant
                    k <= s.pools.len(),
                    t@ == RouteTargetView::Pool(id@),
                    forall|j: int| 0 <= j < k ==> !((#[trigger] s@.pools[j]).id == id@ && s@.pools[j].enabled),
                decreases s.pools.len() - k,
            {
                proof {
                    assert(s@.pools[k as int] == s.pools[k as int]@);
                }
                if s.pools[k].id.same(id) && s.pools[k].enabled {
                    proof {
                        assert(s@.pools[k as int].id == id@ && s@.pools[k as int].enabled);
                    }
                    return true;
                }
                k = k + 1;
            }
            false
        },
        _ => true,
    }
}

fn route_targets_exist_exec(s: &AppState, pl_ids: &Vec<String>) -> (r: bool)
    requires
        pl_ids.deep_view() == pool_ids(s@),
    ensures
        r == route_targets_exist(s@),
{
    let mut i: usize = 0;
    while i < s.routes.len()
        invariant
            i <= s.routes.len(),
            pl_ids.deep_view() == pool_ids(s@),
            forall|k: int| 0 <= k < i ==> target_exists(s@, (#[trigger] s@.routes[k]).target),
        decreases s.routes.len() - i,
    {
        proof {
            assert(s@.routes[i as int] == s.routes[i as int]@);
        }
        if !target_exists_exec(s, &s.routes[i].target, pl_ids) {
            return false;
        }
        i = i + 1;
    }
    true
}

fn route_targets_active_exec(s: &AppState) -> (r: bool)
    ensures
        r == route_targets_active(s@),
{
    let mut i: usize = 0;
    while i < s.routes.len()
        invariant
            i <= s.routes.len(),
            forall|k: int| 0 <= k < i ==> ((#[trigger] s@.routes[k]).enabled ==> target_active(s@, s@.routes[k].target)),
        decreases s.routes.len() - i,
    {
        proof {
            assert(s@.routes[i as int] == s.routes[i as int]@);
        }
        if s.routes[i].enabled && !target_active_exec(s, &s.routes[i].target) {
            return false;
        }
        i = i + 1;
    }
    true
}

} // verus!
