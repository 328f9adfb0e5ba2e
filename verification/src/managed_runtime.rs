//! Decisions of the managed observation runtime: which runtime tags an applied
//! configuration uses, how a selector read-back is classified, when an
//! activation can stop at "already current", and how failures map onto the
//! closed results that the user interface receives.
use vstd::prelude::*;

use crate::domain::{ExactClone, ExactEq, NodeId, PoolId, RuntimePoolView};
use crate::domain::AppState;
use crate::observability::{
    at_time, change_managed_failure, change_managed_stopped, change_subscription_ready, published,
    InMemoryRuntimeObservations, ManagedRuntimeFailure, ObservedSidecarLifecycle,
    RuntimeObservationSnapshot, RuntimeObservationSnapshotView,
};
use crate::selected_subscription::{project_selected_runtime, projection_error, projection_of};
use crate::sidecar::{GeneratedConfig, SidecarError, SidecarLifecycle, SidecarPort, SidecarRuntime};
use crate::state_access::{StateAccessError, StateAccessGate};
use crate::storage::{StateStore, StateStoreError};
use crate::selected_subscription::{SelectedRuntimeProjection, SelectionProjectionError};
use crate::subscription_management::{SubscriptionSummary, SubscriptionSummaryView};

verus! {

/// Why a saved manual selection was not handed to the running core.
#[derive(Clone, Copy, Debug, PartialEq, Eq, Structural)]
pub enum ManualSelectionSavedOnlyReason {
    RuntimeStopped,
    RuntimeNotReady,
    NotInAppliedArtifact,
    DispatchUnavailable,
}

/// Why the outcome of a selector change is unknown.
#[derive(Clone, Copy, Debug, PartialEq, Eq, Structural)]
pub enum ManualSelectionUnknownReason {
    ReadBackUnavailable,
    UnknownRuntimeNode,
    InstanceChanged,
}

/// What the running core did with a saved manual selection.
#[derive(Clone, Debug, PartialEq, Eq)]
pub enum ManualSelectionRuntimeResult {
    Applied,
    NotApplied { runtime_node_id: NodeId },
    SavedOnly(ManualSelectionSavedOnlyReason),
    ApplyUnknown(ManualSelectionUnknownReason),
}

/// Mathematical view of [`ManualSelectionRuntimeResult`].
pub ghost enum ManualSelectionRuntimeResultView {
    Applied,
    NotApplied { runtime_node_id: Seq<char> },
    SavedOnly(ManualSelectionSavedOnlyReason),
    ApplyUnknown(ManualSelectionUnknownReason),
}

impl DeepView for ManualSelectionRuntimeResult {
    type V = ManualSelectionRuntimeResultView;

    open spec fn deep_view(&self) -> ManualSelectionRuntimeResultView {
        match self {
            ManualSelectionRuntimeResult::Applied => ManualSelectionRuntimeResultView::Applied,
            ManualSelectionRuntimeResult::NotApplied { runtime_node_id } => {
                ManualSelectionRuntimeResultView::NotApplied { runtime_node_id: runtime_node_id@ }
            },
            ManualSelectionRuntimeResult::SavedOnly(r) => ManualSelectionRuntimeResultView::SavedOnly(
                *r,
            ),
            ManualSelectionRuntimeResult::ApplyUnknown(r) => {
                ManualSelectionRuntimeResultView::ApplyUnknown(*r)
            },
        }
    }
}

impl View for ManualSelectionRuntimeResult {
    type V = ManualSelectionRuntimeResultView;

    open spec fn view(&self) -> ManualSelectionRuntimeResultView {
        self.deep_view()
    }
}

/// Closed result of a start request.
#[derive(Clone, Copy, Debug, PartialEq, Eq, Structural)]
pub enum ManagedRuntimeStartResult {
    Started,
    AlreadyRunning,
    SubscriptionSelectionRequired,
    StateUnavailable,
    ConfigurationFailed,
    StartFailed,
    Busy,
}

/// Closed result of a stop request.
#[derive(Clone, Copy, Debug, PartialEq, Eq, Structural)]
pub enum ManagedRuntimeStopResult {
    Stopped,
    AlreadyStopped,
    StopFailed,
    Busy,
}

/// Why an activation of a subscription failed.
#[derive(Clone, Copy, Debug, PartialEq, Eq, Structural)]
pub enum ActivationError {
    InvalidInput,
    IdentityFailed,
    Busy,
    NotFound,
    StateUnavailable,
    SelectionConflict,
    ConfigurationFailed,
    SaveFailed,
    StopFailed,
    StartFailed,
    RecoveryRequired,
    StateChanged,
}

/// Definite failure of an explicit routing apply.
#[derive(Clone, Copy, Debug, PartialEq, Eq, Structural)]
pub enum RoutingApplyTerminalFailure {
    ConfigurationFailed,
    StateChanged,
}

/// The definite failure of a routing apply, bound to the desired subscription
/// and generation it was attempted for.
#[derive(Clone, Debug, PartialEq, Eq)]
pub struct RoutingApplyTerminal {
    pub operation_id: String,
    pub active_subscription_id: Option<String>,
    pub desired_generation: u64,
    pub failure: RoutingApplyTerminalFailure,
}

/// Mathematical view of [`RoutingApplyTerminal`].
pub ghost struct RoutingApplyTerminalView {
    pub operation_id: Seq<char>,
    pub active_subscription_id: Option<Seq<char>>,
    pub desired_generation: u64,
    pub failure: RoutingApplyTerminalFailure,
}

impl DeepView for RoutingApplyTerminal {
    type V = RoutingApplyTerminalView;

    open spec fn deep_view(&self) -> RoutingApplyTerminalView {
        RoutingApplyTerminalView {
            operation_id: self.operation_id@,
            active_subscription_id: self.active_subscription_id.deep_view(),
            desired_generation: self.desired_generation,
            failure: self.failure,
        }
    }
}

impl View for RoutingApplyTerminal {
    type V = RoutingApplyTerminalView;

    open spec fn view(&self) -> RoutingApplyTerminalView {
        self.deep_view()
    }
}


/// The answer to an activation of a subscription.
#[derive(Clone, Debug, PartialEq, Eq)]
pub enum ActivationResult {
    Activated { operation_id: String, subscription: SubscriptionSummary, generation: u64 },
    Reactivated { operation_id: String, subscription: SubscriptionSummary, generation: u64 },
    AlreadyCurrent { operation_id: String, subscription: SubscriptionSummary, generation: u64 },
    Pending { operation_id: String },
    Error { operation_id: Option<String>, error: ActivationError },
}

/// Mathematical view of [`ActivationResult`].
pub ghost enum ActivationResultView {
    Activated { operation_id: Seq<char>, subscription: SubscriptionSummaryView, generation: u64 },
    Reactivated { operation_id: Seq<char>, subscription: SubscriptionSummaryView, generation: u64 },
    AlreadyCurrent { operation_id: Seq<char>, subscription: SubscriptionSummaryView, generation: u64 },
    Pending { operation_id: Seq<char> },
    Error { operation_id: Option<Seq<char>>, error: ActivationError },
}

impl DeepView for ActivationResult {
    type V = ActivationResultView;

    open spec fn deep_view(&self) -> ActivationResultView {
        match self {
            ActivationResult::Activated { operation_id, subscription, generation } => {
                ActivationResultView::Activated {
                    operation_id: operation_id@,
                    subscription: subscription.deep_view(),
                    generation: *generation,
                }
            },
            ActivationResult::Reactivated { operation_id, subscription, generation } => {
                ActivationResultView::Reactivated {
                    operation_id: operation_id@,
                    subscription: subscription.deep_view(),
                    generation: *generation,
                }
            },
            ActivationResult::AlreadyCurrent { operation_id, subscription, generation } => {
                ActivationResultView::AlreadyCurrent {
                    operation_id: operation_id@,
                    subscription: subscription.deep_view(),
                    generation: *generation,
                }
            },
            ActivationResult::Pending { operation_id } => ActivationResultView::Pending {
                operation_id: operation_id@,
            },
            ActivationResult::Error { operation_id, error } => ActivationResultView::Error {
                operation_id: operation_id.deep_view(),
                error: *error,
            },
        }
    }
}

/// The error answer of an activation with operation `operation_id`.
pub fn activation_error(operation_id: &str, error: ActivationError) -> (r: ActivationResult)
    ensures
        r.deep_view() == (ActivationResultView::Error { operation_id: Some(operation_id@), error }),
{
    ActivationResult::Error { operation_id: Some(operation_id.to_owned()), error }
}

// ---------------------------------------------------------------------------
// Applied routing index
// ---------------------------------------------------------------------------

/// Selector and outbound tags of one member in the generated configuration.
#[derive(Clone, Debug, PartialEq, Eq)]
pub struct RuntimeTags {
    pub pool: String,
    pub node: String,
}

/// One member of an applied pool.
#[derive(Clone, Debug, PartialEq, Eq)]
pub struct AppliedMember {
    pub node_id: NodeId,
    pub tags: RuntimeTags,
}

/// One pool of the applied configuration with its members.
#[derive(Clone, Debug, PartialEq, Eq)]
pub struct AppliedPool {
    pub pool_id: PoolId,
    pub members: Vec<AppliedMember>,
}

/// What the configuration that the running core was started with contains:
/// its generation and, per pool, the runtime tags of each member.
#[derive(Clone, Debug, PartialEq, Eq)]
pub struct AppliedRoutingIndex {
    pub configuration_generation: u64,
    pub pools: Vec<AppliedPool>,
}

/// Mathematical view of [`AppliedMember`].
pub ghost struct AppliedMemberView {
    pub node_id: Seq<char>,
    pub pool_tag: Seq<char>,
    pub node_tag: Seq<char>,
}

/// Mathematical view of [`AppliedPool`].
pub ghost struct AppliedPoolView {
    pub pool_id: Seq<char>,
    pub members: Seq<AppliedMemberView>,
}

/// Mathematical view of [`AppliedRoutingIndex`].
pub ghost struct AppliedRoutingIndexView {
    pub configuration_generation: u64,
    pub pools: Seq<AppliedPoolView>,
}

impl DeepView for AppliedMember {
    type V = AppliedMemberView;

    open spec fn deep_view(&self) -> AppliedMemberView {
        AppliedMemberView {
            node_id: self.node_id@,
            pool_tag: self.tags.pool@,
            node_tag: self.tags.node@,
        }
    }
}

impl DeepView for AppliedPool {
    type V = AppliedPoolView;

    open spec fn deep_view(&self) -> AppliedPoolView {
        AppliedPoolView { pool_id: self.pool_id@, members: self.members.deep_view() }
    }
}

impl DeepView for AppliedRoutingIndex {
    type V = AppliedRoutingIndexView;

    open spec fn deep_view(&self) -> AppliedRoutingIndexView {
        AppliedRoutingIndexView {
            configuration_generation: self.configuration_generation,
            pools: self.pools.deep_view(),
        }
    }
}

impl View for AppliedRoutingIndex {
    type V = AppliedRoutingIndexView;

    open spec fn view(&self) -> AppliedRoutingIndexView {
        self.deep_view()
    }
}

/// Selector tag of a pool in a generated configuration.
pub open spec fn pool_tag(pool_id: Seq<char>) -> Seq<char> {
    "pool-"@ + pool_id
}

/// Outbound tag of a node in a generated configuration.
pub open spec fn node_tag(node_id: Seq<char>) -> Seq<char> {
    "node-"@ + node_id
}

/// The applied form of one runtime pool.
pub open spec fn applied_pool(p: RuntimePoolView) -> AppliedPoolView {
    AppliedPoolView {
        pool_id: p.id,
        members: Seq::new(
            p.members.len(),
            |i: int|
                AppliedMemberView {
                    node_id: p.members[i],
                    pool_tag: pool_tag(p.id),
                    node_tag: node_tag(p.members[i]),
                },
        ),
    }
}

/// The index of the configuration generated from `p`.
pub open spec fn index_of_projection(p: SelectedRuntimeProjection) -> AppliedRoutingIndexView {
    let pools = p.runtime_intent.pools.deep_view();
    AppliedRoutingIndexView {
        configuration_generation: p.selected_generation,
        pools: Seq::new(pools.len(), |i: int| applied_pool(pools[i])),
    }
}

fn tag_with_prefix(prefix: &str, id: &String) -> (r: String)
    ensures
        r@ == prefix@ + id@,
{
    let mut r = String::from_str(prefix);
    r.append(id.as_str());
    r
}

fn applied_pool_of(p: &crate::domain::RuntimePool) -> (r: AppliedPool)
    ensures
        r.deep_view() == applied_pool(p.deep_view()),
{
    let mut members: Vec<AppliedMember> = Vec::new();
    let ghost target = applied_pool(p.deep_view()).members;
    let mut i: usize = 0;
    while i < p.members.len()
        invariant
            i <= p.members.len(),
            target == applied_pool(p.deep_view()).members,
            members.deep_view() =~= target.take(i as int),
        decreases p.members.len() - i,
    {
        let m = AppliedMember {
            node_id: p.members[i].exact_clone(),
            tags: RuntimeTags {
                pool: tag_with_prefix("pool-", &p.id.0),
                node: tag_with_prefix("node-", &p.members[i].0),
            },
        };
        let ghost before = members.deep_view();
        members.push(m);
        proof {
            assert(members.deep_view() =~= before.push(m.deep_view()));
            assert(target.take(i + 1) =~= target.take(i as int).push(target[i as int]));
        }
        i = i + 1;
    }
    proof {
        assert(target.take(p.members.len() as int) =~= target);
    }
    AppliedPool { pool_id: p.id.exact_clone(), members }
}

impl AppliedRoutingIndex {
    /// The index of the configuration generated from `projection`: every
    /// runtime pool with its members, tagged `pool-<pool id>` and
    /// `node-<node id>`, and the projection's generation.
    pub fn from_projection(projection: &SelectedRuntimeProjection) -> (r: Self)
        ensures
            r@ == index_of_projection(*projection),
    {
        let src = &projection.runtime_intent.pools;
        let ghost target = index_of_projection(*projection).pools;
        let mut pools: Vec<AppliedPool> = Vec::new();
        let mut i: usize = 0;
        while i < src.len()
            invariant
                i <= src.len(),
                target == index_of_projection(*projection).pools,
                src == &projection.runtime_intent.pools,
                pools.deep_view() =~= target.take(i as int),
            decreases src.len() - i,
        {
            let p = applied_pool_of(&src[i]);
            let ghost before = pools.deep_view();
            pools.push(p);
            proof {
                assert(pools.deep_view() =~= before.push(p.deep_view()));
                assert(target.take(i + 1) =~= target.take(i as int).push(target[i as int]));
            }
            i = i + 1;
        }
        proof {
            assert(target.take(src.len() as int) =~= target);
        }
        let r = AppliedRoutingIndex {
            configuration_generation: projection.selected_generation,
            pools,
        };
        r
    }

    /// Position of the first applied pool with id `pool_id`.
    pub fn find_pool(&self, pool_id: &PoolId) -> (r: Option<usize>)
        ensures
            match r {
                Some(i) => i < self@.pools.len() && self@.pools[i as int].pool_id == pool_id@
                    && forall|k: int| 0 <= k < i ==> self@.pools[k].pool_id != pool_id@,
                None => forall|k: int|
                    0 <= k < self@.pools.len() ==> self@.pools[k].pool_id != pool_id@,
            },
    {
        let mut i: usize = 0;
        while i < self.pools.len()
            invariant
                i <= self.pools.len(),
                forall|k: int| 0 <= k < i ==> self@.pools[k].pool_id != pool_id@,
            decreases self.pools.len() - i,
        {
            if self.pools[i].pool_id.same(pool_id) {
                return Some(i);
            }
            i = i + 1;
        }
        None
    }
}

// ---------------------------------------------------------------------------
// Selector read-back
// ---------------------------------------------------------------------------

/// Pool and node pairs as a map from pool to node (each key's entry).
pub open spec fn entries_map(entries: Seq<(PoolId, NodeId)>) -> Map<Seq<char>, Seq<char>> {
    Map::new(
        |p: Seq<char>| exists|i: int| 0 <= i < entries.len() && entries[i].0@ == p,
        |p: Seq<char>| entries[choose|i: int| 0 <= i < entries.len() && entries[i].0@ == p].1@,
    )
}

/// No pool occurs twice among the entries.
pub open spec fn keys_distinct(entries: Seq<(PoolId, NodeId)>) -> bool {
    forall|i: int, j: int| 0 <= i < j < entries.len() ==> entries[i].0@ != entries[j].0@
}

fn position_in(entries: &Vec<(PoolId, NodeId)>, pool_id: &PoolId) -> (r: Option<usize>)
    ensures
        match r {
            Some(i) => i < entries.len() && entries@[i as int].0@ == pool_id@,
            None => forall|k: int| 0 <= k < entries.len() ==> entries@[k].0@ != pool_id@,
        },
{
    let mut i: usize = 0;
    while i < entries.len()
        invariant
            i <= entries.len(),
            forall|k: int| 0 <= k < i ==> entries@[k].0@ != pool_id@,
        decreases entries.len() - i,
    {
        if entries[i].0.same(pool_id) {
            return Some(i);
        }
        i = i + 1;
    }
    None
}

fn forget_in(entries: &mut Vec<(PoolId, NodeId)>, pool_id: &PoolId)
    requires
        keys_distinct(old(entries)@),
    ensures
        keys_distinct(final(entries)@),
        entries_map(final(entries)@) == entries_map(old(entries)@).remove(pool_id@),
        forall|k: int| 0 <= k < final(entries)@.len() ==> final(entries)@[k].0@ != pool_id@,
{
    match position_in(entries, pool_id) {
        None => {
            proof {
                assert(entries_map(entries@) =~= entries_map(entries@).remove(pool_id@));
            }
        },
        Some(i) => {
            let ghost before = entries@;
            entries.remove(i);
            proof {
                let m = entries_map(entries@);
                let e = entries_map(before).remove(pool_id@);
                assert forall|k: int| 0 <= k < entries@.len() implies entries@[k].0@ != pool_id@ by {
                    if k < i {
                        assert(entries@[k] == before[k]);
                    } else {
                        assert(entries@[k] == before[k + 1]);
                    }
                }
                assert forall|p: Seq<char>| #[trigger] m.contains_key(p) == e.contains_key(p) by {
                    if m.contains_key(p) {
                        let j = choose|j: int| 0 <= j < entries@.len() && entries@[j].0@ == p;
                        if j < i {
                            assert(before[j] == entries@[j]);
                        } else {
                            assert(before[j + 1] == entries@[j]);
                        }
                    }
                    if e.contains_key(p) {
                        let j = choose|j: int| 0 <= j < before.len() && before[j].0@ == p;
                        if j < i {
                            assert(entries@[j] == before[j]);
                        } else if j > i {
                            assert(entries@[j - 1] == before[j]);
                        }
                    }
                }
                assert forall|p: Seq<char>| m.contains_key(p) implies #[trigger] m[p] == e[p] by {
                    let j = choose|j: int| 0 <= j < entries@.len() && entries@[j].0@ == p;
                    let jj = choose|jj: int| 0 <= jj < before.len() && before[jj].0@ == p;
                    if j < i {
                        assert(before[j] == entries@[j]);
                    } else {
                        assert(before[j + 1] == entries@[j]);
                    }
                }
                assert(m =~= e);
            }
        },
    }
}

/// The node that the core reports as selected per pool, as far as it was read
/// back; at most one entry per pool.
pub struct SelectorRuntimeNodes {
    entries: Vec<(PoolId, NodeId)>,
}

impl SelectorRuntimeNodes {
    /// The recorded nodes by pool.
    pub closed spec fn view_map(&self) -> Map<Seq<char>, Seq<char>> {
        entries_map(self.entries@)
    }

    /// No pool occurs twice.
    #[verifier::type_invariant]
    spec fn wf(&self) -> bool {
        keys_distinct(self.entries@)
    }

    /// Nothing recorded.
    pub fn new() -> (r: Self)
        ensures
            r.view_map() == Map::<Seq<char>, Seq<char>>::empty(),
    {
        let r = SelectorRuntimeNodes { entries: Vec::new() };
        proof {
            assert(r.view_map() =~= Map::<Seq<char>, Seq<char>>::empty());
        }
        r
    }

    /// The node recorded for `pool_id`.
    pub fn get(&self, pool_id: &PoolId) -> (r: Option<NodeId>)
        ensures
            match r {
                Some(n) => self.view_map().contains_key(pool_id@) && self.view_map()[pool_id@]
                    == n@,
                None => !self.view_map().contains_key(pool_id@),
            },
    {
        proof {
            use_type_invariant(self);
        }
        match position_in(&self.entries, pool_id) {
            Some(i) => {
                proof {
                    let j = choose|j: int|
                        0 <= j < self.entries@.len() && self.entries@[j].0@ == pool_id@;
                    assert(j == i);
                }
                Some(self.entries[i].1.exact_clone())
            },
            None => None,
        }
    }

    /// Records `node_id` for `pool_id`, replacing an earlier record.
    pub fn insert(&mut self, pool_id: PoolId, node_id: NodeId)
        ensures
            final(self).view_map() == old(self).view_map().insert(pool_id@, node_id@),
    {
        proof {
            use_type_invariant(&*self);
        }
        let mut entries: Vec<(PoolId, NodeId)> = Vec::new();
        std::mem::swap(&mut entries, &mut self.entries);
        let ghost start = entries@;
        forget_in(&mut entries, &pool_id);
        let ghost before = entries@;
        let ghost mid = entries_map(before);
        entries.push((pool_id, node_id));
        proof {
            let m = entries_map(entries@);
            let e = entries_map(start).insert(pool_id@, node_id@);
            assert forall|p: Seq<char>| #[trigger] m.contains_key(p) == e.contains_key(p) by {
                if m.contains_key(p) {
                    let i = choose|i: int| 0 <= i < entries@.len() && entries@[i].0@ == p;
                    if i < before.len() {
                        assert(entries@[i] == before[i]);
                        assert(mid.contains_key(p));
                    }
                }
                if e.contains_key(p) {
                    if p == pool_id@ {
                        assert(entries@[before.len() as int].0@ == p);
                    } else {
                        assert(entries_map(start).remove(pool_id@).contains_key(p));
                        let i = choose|i: int| 0 <= i < before.len() && before[i].0@ == p;
                        assert(entries@[i].0@ == p);
                    }
                }
            }
            assert forall|p: Seq<char>| m.contains_key(p) implies #[trigger] m[p] == e[p] by {
                let i = choose|i: int| 0 <= i < entries@.len() && entries@[i].0@ == p;
                if p == pool_id@ {
                    assert(i == before.len());
                } else {
                    assert(entries_map(start).remove(pool_id@).contains_key(p));
                    assert(entries@[i] == before[i]);
                    assert(mid.contains_key(p));
                    let jj = choose|jj: int| 0 <= jj < before.len() && before[jj].0@ == p;
                    assert(mid[p] == before[jj].1@);
                    assert(jj == i);
                    assert(e[p] == mid[p]);
                }
            }
            assert(m =~= e);
            assert(keys_distinct(entries@));
        }
        self.entries = entries;
    }

    /// Forgets what was recorded for `pool_id`.
    pub fn remove(&mut self, pool_id: &PoolId)
        ensures
            final(self).view_map() == old(self).view_map().remove(pool_id@),
    {
        proof {
            use_type_invariant(&*self);
        }
        let mut entries: Vec<(PoolId, NodeId)> = Vec::new();
        std::mem::swap(&mut entries, &mut self.entries);
        forget_in(&mut entries, pool_id);
        self.entries = entries;
    }
}

/// The node of applied pool `pool` whose outbound tag is `tag`, if any
/// (the first such member).
pub open spec fn member_with_tag(pool: AppliedPoolView, tag: Seq<char>) -> Option<Seq<char>> {
    if exists|k: int| 0 <= k < pool.members.len() && pool.members[k].node_tag == tag {
        let k = choose|k: int|
            0 <= k < pool.members.len() && pool.members[k].node_tag == tag && forall|j: int|
                0 <= j < k ==> pool.members[j].node_tag != tag;
        Some(pool.members[k].node_id)
    } else {
        None
    }
}

fn find_member_with_tag(pool: &AppliedPool, tag: &str) -> (r: Option<usize>)
    ensures
        match r {
            Some(k) => k < pool.members.len() && pool.deep_view().members[k as int].node_tag == tag@
                && forall|j: int| 0 <= j < k ==> pool.deep_view().members[j].node_tag != tag@,
            None => forall|j: int|
                0 <= j < pool.members.len() ==> pool.deep_view().members[j].node_tag != tag@,
        },
{
    let mut k: usize = 0;
    while k < pool.members.len()
        invariant
            k <= pool.members.len(),
            forall|j: int| 0 <= j < k ==> pool.deep_view().members[j].node_tag != tag@,
        decreases pool.members.len() - k,
    {
        if crate::text::str_eq(pool.members[k].tags.node.as_str(), tag) {
            return Some(k);
        }
        k = k + 1;
    }
    None
}

/// The first member of applied pool `pool` for node `node_id`, if any.
pub open spec fn member_for_node(pool: AppliedPoolView, node_id: Seq<char>) -> Option<AppliedMemberView> {
    if exists|k: int| 0 <= k < pool.members.len() && pool.members[k].node_id == node_id {
        let k = choose|k: int|
            0 <= k < pool.members.len() && pool.members[k].node_id == node_id && forall|j: int|
                0 <= j < k ==> pool.members[j].node_id != node_id;
        Some(pool.members[k])
    } else {
        None
    }
}

fn find_member_for_node(pool: &AppliedPool, node_id: &NodeId) -> (r: Option<usize>)
    ensures
        match r {
            Some(k) => k < pool.members.len() && member_for_node(pool.deep_view(), node_id@) == Some(pool.deep_view().members[k as int]),
            None => member_for_node(pool.deep_view(), node_id@) is None,
        },
{
    let ghost ms = pool.deep_view().members;
    let mut k: usize = 0;
    while k < pool.members.len()
        invariant
            k <= pool.members.len(),
            ms == pool.deep_view().members,
            forall|j: int| 0 <= j < k ==> ms[j].node_id != node_id@,
        decreases pool.members.len() - k,
    {
        if pool.members[k].node_id.same(node_id) {
            proof {
                assert(ms[k as int] == pool.members[k as int].deep_view());
                assert(ms[k as int].node_id == node_id@);
                assert(0 <= k < ms.len() && ms[k as int].node_id == node_id@ && forall|j: int| 0 <= j < k ==> ms[j].node_id != node_id@);
                let c = choose|c: int| 0 <= c < ms.len() && ms[c].node_id == node_id@ && forall|j: int| 0 <= j < c ==> ms[j].node_id != node_id@;
                if c < k {
                    assert(ms[c].node_id != node_id@);
                } else if c > k {
                    assert(ms[k as int].node_id != node_id@);
                }
            }
            return Some(k);
        }
        k = k + 1;
    }
    None
}

/// Where a saved manual choice is sent: the tags of the node in the applied
/// pool and the identity of the child that runs the applied configuration.
#[derive(Clone, Debug, PartialEq, Eq)]
pub struct SelectorDispatch {
    pub tags: RuntimeTags,
    pub instance: u64,
}

/// Whether a saved manual choice can be sent to the running core, and
/// where: a stopped core or none, a core that is not ready (or not
/// observed ready, or without a child), and a choice the applied
/// configuration does not contain (or an index of another generation) are
/// each answered without dispatch.
pub open spec fn selector_dispatch(
    lifecycle: Option<SidecarLifecycle>,
    instance: Option<u64>,
    observed: RuntimeObservationSnapshotView,
    index: Option<AppliedRoutingIndex>,
    pool_id: Seq<char>,
    node_id: Seq<char>,
) -> Result<(Seq<char>, Seq<char>, u64), ManualSelectionRuntimeResultView> {
    match lifecycle {
        None | Some(SidecarLifecycle::Stopped) => Err(ManualSelectionRuntimeResultView::SavedOnly(ManualSelectionSavedOnlyReason::RuntimeStopped)),
        Some(SidecarLifecycle::RecoveryRequired) => Err(ManualSelectionRuntimeResultView::SavedOnly(ManualSelectionSavedOnlyReason::RuntimeNotReady)),
        Some(SidecarLifecycle::Ready) => if observed.sidecar_lifecycle != ObservedSidecarLifecycle::Ready {
            Err(ManualSelectionRuntimeResultView::SavedOnly(ManualSelectionSavedOnlyReason::RuntimeNotReady))
        } else {
            let missing = ManualSelectionRuntimeResultView::SavedOnly(ManualSelectionSavedOnlyReason::NotInAppliedArtifact);
            match index {
                None => Err(missing),
                Some(ix) => if observed.applied_configuration_generation != Some(ix.configuration_generation) {
                    Err(missing)
                } else {
                    match ix.find_pool_spec(pool_id) {
                        None => Err(missing),
                        Some(p) => match member_for_node(ix@.pools[p], node_id) {
                            None => Err(missing),
                            Some(m) => match instance {
                                None => Err(ManualSelectionRuntimeResultView::SavedOnly(ManualSelectionSavedOnlyReason::RuntimeNotReady)),
                                Some(i) => Ok((m.pool_tag, m.node_tag, i)),
                            },
                        },
                    }
                },
            }
        },
    }
}

/// Decides whether and where a saved manual choice is sent.
pub fn plan_selector_dispatch<P: SidecarPort>(
    runtime: Option<&SidecarRuntime<P>>,
    observed: &RuntimeObservationSnapshot,
    index: Option<&AppliedRoutingIndex>,
    pool_id: &PoolId,
    node_id: &NodeId,
) -> (r: Result<SelectorDispatch, ManualSelectionRuntimeResult>)
    ensures
        match selector_dispatch(
            match runtime { Some(rt) => Some(rt.lifecycle_view()), None => None },
            match runtime { Some(rt) => rt.child_view(), None => None },
            observed@,
            match index { Some(ix) => Some(*ix), None => None },
            pool_id@,
            node_id@,
        ) {
            Ok((pool_tag, node_tag, instance)) => r matches Ok(d) && d.tags.pool@ == pool_tag && d.tags.node@ == node_tag
                && d.instance == instance,
            Err(v) => r matches Err(e) && e@ == v,
        },
{
    let rt = match runtime {
        Some(rt) => rt,
        None => {
            return Err(ManualSelectionRuntimeResult::SavedOnly(ManualSelectionSavedOnlyReason::RuntimeStopped));
        },
    };
    match rt.lifecycle() {
        SidecarLifecycle::Stopped => {
            return Err(ManualSelectionRuntimeResult::SavedOnly(ManualSelectionSavedOnlyReason::RuntimeStopped));
        },
        SidecarLifecycle::RecoveryRequired => {
            return Err(ManualSelectionRuntimeResult::SavedOnly(ManualSelectionSavedOnlyReason::RuntimeNotReady));
        },
        SidecarLifecycle::Ready => {},
    }
    if observed.sidecar_lifecycle != ObservedSidecarLifecycle::Ready {
        return Err(ManualSelectionRuntimeResult::SavedOnly(ManualSelectionSavedOnlyReason::RuntimeNotReady));
    }
    let ix = match index {
        Some(ix) => ix,
        None => {
            return Err(ManualSelectionRuntimeResult::SavedOnly(ManualSelectionSavedOnlyReason::NotInAppliedArtifact));
        },
    };
    if observed.applied_configuration_generation != Some(ix.configuration_generation) {
        return Err(ManualSelectionRuntimeResult::SavedOnly(ManualSelectionSavedOnlyReason::NotInAppliedArtifact));
    }
    let p = match ix.find_pool(pool_id) {
        Some(p) => p,
        None => {
            return Err(ManualSelectionRuntimeResult::SavedOnly(ManualSelectionSavedOnlyReason::NotInAppliedArtifact));
        },
    };
    let m = match find_member_for_node(&ix.pools[p], node_id) {
        Some(m) => m,
        None => {
            return Err(ManualSelectionRuntimeResult::SavedOnly(ManualSelectionSavedOnlyReason::NotInAppliedArtifact));
        },
    };
    let instance = match rt.child_identity() {
        Some(i) => i,
        None => {
            return Err(ManualSelectionRuntimeResult::SavedOnly(ManualSelectionSavedOnlyReason::RuntimeNotReady));
        },
    };
    let member = &ix.pools[p].members[m];
    Ok(SelectorDispatch {
        tags: RuntimeTags { pool: member.tags.pool.exact_clone(), node: member.tags.node.exact_clone() },
        instance,
    })
}

/// How a read-back of `pool_id`'s selector is judged: the runtime tag names
/// a member of that applied pool (then the node is recorded as the pool's
/// runtime node and compared with the desired one), or it does not (then the
/// record for the pool is forgotten and the outcome is unknown).
pub fn classify_selector_read_back(
    index: &AppliedRoutingIndex,
    selector_runtime_nodes: &mut SelectorRuntimeNodes,
    pool_id: &PoolId,
    desired_node_id: &NodeId,
    runtime_tag: &str,
) -> (r: ManualSelectionRuntimeResult)
    ensures
        ({
            let found = match index.find_pool_spec(pool_id@) {
                Some(i) => member_with_tag(index@.pools[i], runtime_tag@),
                None => None,
            };
            match found {
                None => r@ == ManualSelectionRuntimeResultView::ApplyUnknown(
                    ManualSelectionUnknownReason::UnknownRuntimeNode,
                ) && final(selector_runtime_nodes).view_map() == old(
                    selector_runtime_nodes,
                ).view_map().remove(pool_id@),
                Some(n) => final(selector_runtime_nodes).view_map() == old(
                    selector_runtime_nodes,
                ).view_map().insert(pool_id@, n) && (if n == desired_node_id@ {
                    r@ == ManualSelectionRuntimeResultView::Applied
                } else {
                    r@ == ManualSelectionRuntimeResultView::NotApplied { runtime_node_id: n }
                }),
            }
        }),
{
    let found: Option<NodeId> = match index.find_pool(pool_id) {
        Some(i) => {
            let pool = &index.pools[i];
            match find_member_with_tag(pool, runtime_tag) {
                Some(k) => {
                    proof {
                        assert(member_with_tag(index@.pools[i as int], runtime_tag@) == Some(
                            pool.deep_view().members[k as int].node_id,
                        ));
                    }
                    Some(pool.members[k].node_id.exact_clone())
                },
                None => None,
            }
        },
        None => None,
    };
    match found {
        None => {
            selector_runtime_nodes.remove(pool_id);
            ManualSelectionRuntimeResult::ApplyUnknown(
                ManualSelectionUnknownReason::UnknownRuntimeNode,
            )
        },
        Some(runtime_node_id) => {
            selector_runtime_nodes.insert(pool_id.exact_clone(), runtime_node_id.exact_clone());
            if runtime_node_id.same(desired_node_id) {
                ManualSelectionRuntimeResult::Applied
            } else {
                ManualSelectionRuntimeResult::NotApplied { runtime_node_id }
            }
        },
    }
}

/// Settles a dispatched manual choice from what the core reported: a child
/// replaced meanwhile, or an applied generation that moved, makes the
/// outcome unknown; so does a read-back that failed. Both forget the pool's
/// recorded runtime node. A read-back tag is judged against the index.
pub fn settle_selector_read_back(
    index: &AppliedRoutingIndex,
    selector_runtime_nodes: &mut SelectorRuntimeNodes,
    pool_id: &PoolId,
    desired_node_id: &NodeId,
    instance_before: u64,
    instance_after: Option<u64>,
    generation_after: Option<u64>,
    read_back: Option<String>,
) -> (r: ManualSelectionRuntimeResult)
    ensures
        instance_after != Some(instance_before) || generation_after != Some(index.configuration_generation)
            ==> r@ == ManualSelectionRuntimeResultView::ApplyUnknown(ManualSelectionUnknownReason::InstanceChanged)
            && final(selector_runtime_nodes).view_map() == old(selector_runtime_nodes).view_map().remove(pool_id@),
        instance_after == Some(instance_before) && generation_after == Some(index.configuration_generation)
            && read_back is None ==> r@ == ManualSelectionRuntimeResultView::ApplyUnknown(
            ManualSelectionUnknownReason::ReadBackUnavailable,
        ) && final(selector_runtime_nodes).view_map() == old(selector_runtime_nodes).view_map().remove(pool_id@),
        instance_after == Some(instance_before) && generation_after == Some(index.configuration_generation)
            && read_back is Some ==> ({
            let found = match index.find_pool_spec(pool_id@) {
                Some(i) => member_with_tag(index@.pools[i], read_back->0@),
                None => None,
            };
            match found {
                None => r@ == ManualSelectionRuntimeResultView::ApplyUnknown(
                    ManualSelectionUnknownReason::UnknownRuntimeNode,
                ) && final(selector_runtime_nodes).view_map() == old(selector_runtime_nodes).view_map().remove(pool_id@),
                Some(n) => final(selector_runtime_nodes).view_map() == old(selector_runtime_nodes).view_map().insert(pool_id@, n)
                    && (if n == desired_node_id@ {
                    r@ == ManualSelectionRuntimeResultView::Applied
                } else {
                    r@ == ManualSelectionRuntimeResultView::NotApplied { runtime_node_id: n }
                }),
            }
        }),
{
    if instance_after != Some(instance_before) || generation_after != Some(index.configuration_generation) {
        selector_runtime_nodes.remove(pool_id);
        return ManualSelectionRuntimeResult::ApplyUnknown(ManualSelectionUnknownReason::InstanceChanged);
    }
    match read_back {
        None => {
            selector_runtime_nodes.remove(pool_id);
            ManualSelectionRuntimeResult::ApplyUnknown(ManualSelectionUnknownReason::ReadBackUnavailable)
        },
        Some(tag) => classify_selector_read_back(index, selector_runtime_nodes, pool_id, desired_node_id, tag.as_str()),
    }
}

impl AppliedRoutingIndex {
    /// Position of the first applied pool with id `pool_id`.
    pub open spec fn find_pool_spec(&self, pool_id: Seq<char>) -> Option<int> {
        if exists|i: int| 0 <= i < self@.pools.len() && self@.pools[i].pool_id == pool_id {
            Some(
                choose|i: int|
                    0 <= i < self@.pools.len() && self@.pools[i].pool_id == pool_id && forall|
                        k: int,
                    |
                        0 <= k < i ==> self@.pools[k].pool_id != pool_id,
            )
        } else {
            None
        }
    }
}

// ---------------------------------------------------------------------------
// Activation decisions
// ---------------------------------------------------------------------------

/// An activation may stop at "already current" when it is not forced and the
/// observed runtime is ready with exactly this subscription and generation.
pub open spec fn already_current(
    force: bool,
    lifecycle: ObservedSidecarLifecycle,
    applied_id: Option<Seq<char>>,
    applied_generation: Option<u64>,
    id: Seq<char>,
    generation: u64,
) -> bool {
    !force && lifecycle == ObservedSidecarLifecycle::Ready && applied_id == Some(id)
        && applied_generation == Some(generation)
}

/// Whether an activation of `id` at `generation` is already what the runtime
/// runs, so that nothing needs to be restarted.
pub fn should_return_already_current(
    force: bool,
    snapshot: &RuntimeObservationSnapshot,
    id: &str,
    generation: u64,
) -> (r: bool)
    ensures
        r == already_current(
            force,
            snapshot.sidecar_lifecycle,
            snapshot.applied_subscription_id.deep_view(),
            snapshot.applied_configuration_generation,
            id@,
            generation,
        ),
{
    if force || snapshot.sidecar_lifecycle != ObservedSidecarLifecycle::Ready {
        return false;
    }
    let same_id = match &snapshot.applied_subscription_id {
        Some(applied) => crate::text::str_eq(applied.as_str(), id),
        None => false,
    };
    let same_generation = match snapshot.applied_configuration_generation {
        Some(g) => g == generation,
        None => false,
    };
    same_id && same_generation
}

/// The activation error that a projection failure stands for.
pub open spec fn projection_activation_error(e: SelectionProjectionError) -> ActivationError {
    match e {
        SelectionProjectionError::SelectionRequired => ActivationError::NotFound,
        SelectionProjectionError::NotFound => ActivationError::NotFound,
        SelectionProjectionError::SelectionConflict => ActivationError::SelectionConflict,
        SelectionProjectionError::ConfigurationFailed => ActivationError::ConfigurationFailed,
    }
}

/// Maps a projection failure onto the activation error the caller sees.
pub fn map_projection_error(error: SelectionProjectionError) -> (r: ActivationError)
    ensures
        r == projection_activation_error(error),
{
    match error {
        SelectionProjectionError::SelectionRequired => ActivationError::NotFound,
        SelectionProjectionError::NotFound => ActivationError::NotFound,
        SelectionProjectionError::SelectionConflict => ActivationError::SelectionConflict,
        SelectionProjectionError::ConfigurationFailed => ActivationError::ConfigurationFailed,
    }
}

/// Which activation errors end an explicit routing apply definitely, and how.
pub open spec fn terminal_failure_of(
    error: ActivationError,
    observation_started: bool,
) -> Option<RoutingApplyTerminalFailure> {
    match error {
        ActivationError::NotFound | ActivationError::SelectionConflict
        | ActivationError::ConfigurationFailed => Some(
            RoutingApplyTerminalFailure::ConfigurationFailed,
        ),
        ActivationError::StateChanged => Some(RoutingApplyTerminalFailure::StateChanged),
        ActivationError::Busy => if observation_started {
            Some(RoutingApplyTerminalFailure::StateChanged)
        } else {
            None
        },
        _ => None,
    }
}

/// The definite failure that an activation error makes of a routing apply:
/// configuration errors fail it, a changed state (or a busy gate once the
/// apply was announced) cancels it; other errors leave it undecided.
pub fn routing_apply_terminal_failure(error: ActivationError, observation_started: bool) -> (r:
    Option<RoutingApplyTerminalFailure>)
    ensures
        r == terminal_failure_of(error, observation_started),
{
    match error {
        ActivationError::NotFound | ActivationError::SelectionConflict
        | ActivationError::ConfigurationFailed => Some(
            RoutingApplyTerminalFailure::ConfigurationFailed,
        ),
        ActivationError::StateChanged => Some(RoutingApplyTerminalFailure::StateChanged),
        ActivationError::Busy => if observation_started {
            Some(RoutingApplyTerminalFailure::StateChanged)
        } else {
            None
        },
        _ => None,
    }
}


// ---------------------------------------------------------------------------
// Starting and stopping the managed core
// ---------------------------------------------------------------------------

/// The observed lifecycle a runtime lifecycle is reported as.
pub open spec fn observed_of(l: SidecarLifecycle) -> ObservedSidecarLifecycle {
    match l {
        SidecarLifecycle::Stopped => ObservedSidecarLifecycle::Stopped,
        SidecarLifecycle::Ready => ObservedSidecarLifecycle::Ready,
        SidecarLifecycle::RecoveryRequired => ObservedSidecarLifecycle::RecoveryRequired,
    }
}

/// Reports a runtime lifecycle as an observed one.
pub fn observed_lifecycle(lifecycle: SidecarLifecycle) -> (r: ObservedSidecarLifecycle)
    ensures
        r == observed_of(lifecycle),
{
    match lifecycle {
        SidecarLifecycle::Stopped => ObservedSidecarLifecycle::Stopped,
        SidecarLifecycle::Ready => ObservedSidecarLifecycle::Ready,
        SidecarLifecycle::RecoveryRequired => ObservedSidecarLifecycle::RecoveryRequired,
    }
}

/// Starts a stopped runtime with the compiled candidate for `intent` and
/// records the outcome. Without a candidate the start is a configuration
/// failure; a started core publishes the selected subscription and
/// generation; a failed start records the lifecycle the runtime reached and
/// whether the candidate or the start was at fault. Nothing is retried.
pub fn start_stopped_runtime<P: SidecarPort>(
    runtime: &mut SidecarRuntime<P>,
    intent: &SelectedRuntimeProjection,
    candidate: Result<GeneratedConfig, ()>,
    observations: &mut InMemoryRuntimeObservations,
) -> (r: ManagedRuntimeStartResult)
    requires
        old(runtime).wf(),
        old(observations).wf(),
    ensures
        final(runtime).wf(),
        final(observations).wf(),
        candidate is Err ==> r == ManagedRuntimeStartResult::ConfigurationFailed && *final(runtime)
            == *old(runtime) && published(
            *old(observations),
            *final(observations),
            change_managed_failure(
                at_time(old(observations).current(), old(observations).clock()),
                None,
                ManagedRuntimeFailure::Configuration,
            ),
        ),
        r == ManagedRuntimeStartResult::Started ==> final(runtime).lifecycle_view() == SidecarLifecycle::Ready
            && published(
            *old(observations),
            *final(observations),
            change_subscription_ready(
                at_time(old(observations).current(), old(observations).clock()),
                intent.selected_subscription_id@,
                intent.selected_generation,
                None,
                final(runtime).mixed_port_view() is Some,
            ),
        ),
        candidate is Ok && r != ManagedRuntimeStartResult::Started ==> final(runtime).lifecycle_view()
            != SidecarLifecycle::Ready || old(runtime).lifecycle_view() == SidecarLifecycle::Ready,
        candidate is Ok && r != ManagedRuntimeStartResult::Started ==> (r
            == ManagedRuntimeStartResult::ConfigurationFailed || r == ManagedRuntimeStartResult::StartFailed)
            && published(
            *old(observations),
            *final(observations),
            change_managed_failure(
                at_time(old(observations).current(), old(observations).clock()),
                Some(observed_of(final(runtime).lifecycle_view())),
                if r == ManagedRuntimeStartResult::ConfigurationFailed {
                    ManagedRuntimeFailure::Configuration
                } else {
                    ManagedRuntimeFailure::Start
                },
            ),
        ),
{
    let candidate = match candidate {
        Ok(c) => c,
        Err(()) => {
            observations.record_managed_failure(None, ManagedRuntimeFailure::Configuration);
            return ManagedRuntimeStartResult::ConfigurationFailed;
        },
    };
    match runtime.start_or_replace(candidate) {
        Ok(()) => {
            let proxy = runtime.mixed_port().is_some();
            observations.record_subscription_ready(
                intent.selected_subscription_id.0.exact_clone(),
                intent.selected_generation,
                None,
                proxy,
            );
            ManagedRuntimeStartResult::Started
        },
        Err(error) => {
            let lifecycle = observed_lifecycle(runtime.lifecycle());
            let configuration_failed = (error == SidecarError::CandidateCheck || error
                == SidecarError::CandidatePrepare) && lifecycle != ObservedSidecarLifecycle::RecoveryRequired;
            if configuration_failed {
                observations.record_managed_failure(Some(lifecycle), ManagedRuntimeFailure::Configuration);
                ManagedRuntimeStartResult::ConfigurationFailed
            } else {
                observations.record_managed_failure(Some(lifecycle), ManagedRuntimeFailure::Start);
                ManagedRuntimeStartResult::StartFailed
            }
        },
    }
}

/// Starts an existing runtime: a ready core is already running, a runtime
/// that requires recovery is not started (and that is recorded), a stopped
/// one is started with the candidate.
pub fn start_runtime<P: SidecarPort>(
    runtime: &mut SidecarRuntime<P>,
    intent: &SelectedRuntimeProjection,
    candidate: Result<GeneratedConfig, ()>,
    observations: &mut InMemoryRuntimeObservations,
) -> (r: ManagedRuntimeStartResult)
    requires
        old(runtime).wf(),
        old(observations).wf(),
    ensures
        final(runtime).wf(),
        final(observations).wf(),
        old(runtime).lifecycle_view() == SidecarLifecycle::Ready ==> r == ManagedRuntimeStartResult::AlreadyRunning
            && *final(runtime) == *old(runtime) && *final(observations) == *old(observations),
        old(runtime).lifecycle_view() == SidecarLifecycle::RecoveryRequired ==> r
            == ManagedRuntimeStartResult::StartFailed && *final(runtime) == *old(runtime) && published(
            *old(observations),
            *final(observations),
            change_managed_failure(
                at_time(old(observations).current(), old(observations).clock()),
                Some(ObservedSidecarLifecycle::RecoveryRequired),
                ManagedRuntimeFailure::Start,
            ),
        ),
{
    match runtime.lifecycle() {
        SidecarLifecycle::Ready => ManagedRuntimeStartResult::AlreadyRunning,
        SidecarLifecycle::Stopped => start_stopped_runtime(runtime, intent, candidate, observations),
        SidecarLifecycle::RecoveryRequired => {
            observations.record_managed_failure(
                Some(ObservedSidecarLifecycle::RecoveryRequired),
                ManagedRuntimeFailure::Start,
            );
            ManagedRuntimeStartResult::StartFailed
        },
    }
}

/// Stops the managed core, if there is one, and records the outcome: a
/// stopped or absent core is already stopped; a failed stop leaves the
/// runtime requiring recovery.
pub fn stop_runtime<P: SidecarPort>(
    runtime: Option<&mut SidecarRuntime<P>>,
    observations: &mut InMemoryRuntimeObservations,
) -> (r: ManagedRuntimeStopResult)
    requires
        match runtime {
            Some(rt) => rt.wf(),
            None => true,
        },
        old(observations).wf(),
    ensures
        final(observations).wf(),
        (r == ManagedRuntimeStopResult::AlreadyStopped || r == ManagedRuntimeStopResult::Stopped)
            ==> published(
            *old(observations),
            *final(observations),
            change_managed_stopped(at_time(old(observations).current(), old(observations).clock())),
        ),
        r == ManagedRuntimeStopResult::StopFailed ==> published(
            *old(observations),
            *final(observations),
            change_managed_failure(
                at_time(old(observations).current(), old(observations).clock()),
                Some(ObservedSidecarLifecycle::RecoveryRequired),
                ManagedRuntimeFailure::Stop,
            ),
        ),
        r != ManagedRuntimeStopResult::Busy,
        r == ManagedRuntimeStopResult::AlreadyStopped <==> match runtime {
            Some(rt) => rt.lifecycle_view() == SidecarLifecycle::Stopped,
            None => true,
        },
        match runtime {
            Some(rt) => final(rt).wf() && (r == ManagedRuntimeStopResult::StopFailed <==> final(rt).lifecycle_view()
                == SidecarLifecycle::RecoveryRequired) && (r != ManagedRuntimeStopResult::StopFailed
                ==> final(rt).lifecycle_view() == SidecarLifecycle::Stopped),
            None => true,
        },
{
    let runtime = match runtime {
        Some(rt) => rt,
        None => {
            observations.record_managed_stopped();
            return ManagedRuntimeStopResult::AlreadyStopped;
        },
    };
    match runtime.lifecycle() {
        SidecarLifecycle::Stopped => {
            observations.record_managed_stopped();
            ManagedRuntimeStopResult::AlreadyStopped
        },
        _ => {
            if runtime.stop().is_ok() {
                observations.record_managed_stopped();
                ManagedRuntimeStopResult::Stopped
            } else {
                observations.record_managed_failure(
                    Some(ObservedSidecarLifecycle::RecoveryRequired),
                    ManagedRuntimeFailure::Stop,
                );
                ManagedRuntimeStopResult::StopFailed
            }
        },
    }
}

/// Why the selected runtime intent could not be loaded.
#[derive(Clone, Copy, Debug, PartialEq, Eq, Structural)]
pub enum LoadRuntimeIntentError {
    Busy,
    Unavailable,
    SelectionRequired,
    Configuration,
}

/// The runtime intent of a loaded state: a state without a selection needs
/// one, a state that cannot be projected is a configuration failure.
pub fn intent_from_loaded(loaded: Result<AppState, StateStoreError>) -> (r: Result<
    SelectedRuntimeProjection,
    LoadRuntimeIntentError,
>)
    ensures
        match loaded {
            Err(_) => r == Err::<SelectedRuntimeProjection, LoadRuntimeIntentError>(
                LoadRuntimeIntentError::Unavailable,
            ),
            Ok(state) => if state.active_subscription_id is None {
                r == Err::<SelectedRuntimeProjection, LoadRuntimeIntentError>(
                    LoadRuntimeIntentError::SelectionRequired,
                )
            } else {
                match projection_error(state@) {
                    Some(_) => r == Err::<SelectedRuntimeProjection, LoadRuntimeIntentError>(
                        LoadRuntimeIntentError::Configuration,
                    ),
                    None => r matches Ok(p) && projection_of(state@, state@.active_subscription_id->0, p),
                }
            },
        },
{
    let state = match loaded {
        Ok(state) => state,
        Err(_) => {
            return Err(LoadRuntimeIntentError::Unavailable);
        },
    };
    if state.active_subscription_id.is_none() {
        return Err(LoadRuntimeIntentError::SelectionRequired);
    }
    match project_selected_runtime(&state) {
        Ok(p) => Ok(p),
        Err(_) => Err(LoadRuntimeIntentError::Configuration),
    }
}

/// Loads the selected runtime intent inside the state gate, failing fast
/// when it is held; the lock is left as it was found.
pub fn load_runtime_intent<S: StateStore>(
    state_gate: &mut StateAccessGate,
    store: &S,
) -> (r: Result<SelectedRuntimeProjection, LoadRuntimeIntentError>)
    ensures
        final(state_gate).is_held() == old(state_gate).is_held(),
        old(state_gate).is_held() ==> r == Err::<SelectedRuntimeProjection, LoadRuntimeIntentError>(
            LoadRuntimeIntentError::Busy,
        ),
        r is Ok ==> !old(state_gate).is_held(),
{
    if let Err(e) = state_gate.try_lock() {
        return Err(
            match e {
                StateAccessError::Busy => LoadRuntimeIntentError::Busy,
                StateAccessError::Unavailable => LoadRuntimeIntentError::Unavailable,
            },
        );
    }
    let loaded = store.load();
    let r = intent_from_loaded(loaded);
    state_gate.release();
    r
}


/// What happens to the applied routing index after a runtime operation:
/// the configuration that now runs is installed, or the index is cleared
/// because nothing runs, or it stays.
#[derive(Clone, Copy, Debug, PartialEq, Eq, Structural)]
pub enum IndexUpdate {
    Install,
    Clear,
    Keep,
}

/// Makes the projection that now runs the applied routing index; the
/// recorded selector nodes belonged to the previous configuration and are
/// forgotten.
pub fn install_applied_routing_index(
    index: &mut Option<AppliedRoutingIndex>,
    selector_runtime_nodes: &mut SelectorRuntimeNodes,
    projection: &SelectedRuntimeProjection,
)
    ensures
        *final(index) matches Some(ix) && ix@ == index_of_projection(*projection),
        final(selector_runtime_nodes).view_map() == Map::<Seq<char>, Seq<char>>::empty(),
{
    *index = Some(AppliedRoutingIndex::from_projection(projection));
    *selector_runtime_nodes = SelectorRuntimeNodes::new();
}

/// Forgets the applied routing index and the recorded selector nodes.
pub fn clear_applied_routing_index(index: &mut Option<AppliedRoutingIndex>, selector_runtime_nodes: &mut SelectorRuntimeNodes)
    ensures
        *final(index) is None,
        final(selector_runtime_nodes).view_map() == Map::<Seq<char>, Seq<char>>::empty(),
{
    *index = None;
    *selector_runtime_nodes = SelectorRuntimeNodes::new();
}

/// The index after a start: a started core runs the started projection.
pub fn index_after_start(result: ManagedRuntimeStartResult) -> (r: IndexUpdate)
    ensures
        r == if result == ManagedRuntimeStartResult::Started { IndexUpdate::Install } else { IndexUpdate::Keep },
{
    if result == ManagedRuntimeStartResult::Started {
        IndexUpdate::Install
    } else {
        IndexUpdate::Keep
    }
}

/// The index after a stop: nothing runs once the core is stopped.
pub fn index_after_stop(result: ManagedRuntimeStopResult) -> (r: IndexUpdate)
    ensures
        r == if result == ManagedRuntimeStopResult::Stopped || result == ManagedRuntimeStopResult::AlreadyStopped {
            IndexUpdate::Clear
        } else {
            IndexUpdate::Keep
        },
{
    match result {
        ManagedRuntimeStopResult::Stopped | ManagedRuntimeStopResult::AlreadyStopped => IndexUpdate::Clear,
        _ => IndexUpdate::Keep,
    }
}

/// The index after an activation: an activated projection runs; a failed
/// one that left the core stopped leaves nothing applied.
pub fn index_after_activation(result: &ActivationResult, lifecycle: SidecarLifecycle) -> (r: IndexUpdate)
    ensures
        r == if result is Activated || result is Reactivated {
            IndexUpdate::Install
        } else if lifecycle == SidecarLifecycle::Stopped {
            IndexUpdate::Clear
        } else {
            IndexUpdate::Keep
        },
{
    match result {
        ActivationResult::Activated { .. } | ActivationResult::Reactivated { .. } => IndexUpdate::Install,
        _ => if lifecycle == SidecarLifecycle::Stopped {
            IndexUpdate::Clear
        } else {
            IndexUpdate::Keep
        },
    }
}

/// How a shutdown ended.
#[derive(Clone, Copy, Debug, PartialEq, Eq, Structural)]
pub enum ShutdownResult {
    ShutdownComplete,
    ShutdownFailed,
}

/// A shutdown is complete once the core is stopped.
pub fn shutdown_result(stop: ManagedRuntimeStopResult) -> (r: ShutdownResult)
    ensures
        r == if stop == ManagedRuntimeStopResult::Stopped || stop == ManagedRuntimeStopResult::AlreadyStopped {
            ShutdownResult::ShutdownComplete
        } else {
            ShutdownResult::ShutdownFailed
        },
{
    match stop {
        ManagedRuntimeStopResult::Stopped | ManagedRuntimeStopResult::AlreadyStopped => ShutdownResult::ShutdownComplete,
        ManagedRuntimeStopResult::StopFailed | ManagedRuntimeStopResult::Busy => ShutdownResult::ShutdownFailed,
    }
}

} // verus!
