//! The decisions of updating and editing one subscription. A fetch, the
//! clock and the state store are the caller's; each function here takes
//! what they produced and decides the next state or the error.
use vstd::prelude::*;

use crate::domain::{
    AppState, AppStateView, ExactClone, ExactEq, ProviderId, ProxyNode, ProxyNodeView,
    RemoteRequestOptions, RemoteRequestOptionsView, SubscriptionDocument,
    SubscriptionDocumentView, SubscriptionHttpMetadata, SubscriptionHttpMetadataView,
    SubscriptionId, SubscriptionSource, SubscriptionSourceView, SubscriptionUpdatePolicy,
    SubscriptionView,
};
use crate::domain::{SubscriptionDocumentFormat, SubscriptionProxyMode, MAX_SAFE_INTEGER};
use crate::provider_replacement::{
    apply_provider_replacement, nodes_inside, provider_replacement, ProviderReplacementError,
};
use crate::proxy_routing::{first_index, lemma_first_index, lemma_first_index_some};
use crate::subscription::{ParseResult, ProxyNodeDraftView, SubscriptionFormat};
use crate::subscription_management::{
    adopt_profile_interval, apply_remote_patch, apply_update_policy_patch, document_for_body,
    map_replacement_error, merge_metadata, next_generation, subscription_id_ok, timeout_ok,
    update_policy_ok, user_agent_ok, validate_description, validate_id,
    validate_subscription_name, RemoteRequestPatch, SubscriptionOperationError,
    UpdatePolicyPatch, UserAgentEdit,
};
use crate::domain::{NodePoolView, PoolKind, ProviderView, Subscription};
use crate::text::{has_ctrl, trim_seq};
use crate::text::str_eq;
use crate::validation::validation_error;

verus! {

/// What an update of one subscription depends on: when it differs after
/// the fetch, another writer came in between.
#[derive(Clone, Debug, PartialEq, Eq)]
pub struct UpdateSnapshot {
    pub subscription_id: SubscriptionId,
    pub source: SubscriptionSource,
    pub http_metadata: Option<SubscriptionHttpMetadata>,
    pub remote_request: Option<RemoteRequestOptions>,
    pub update_policy: SubscriptionUpdatePolicy,
    pub document: Option<SubscriptionDocument>,
    pub provider_id: ProviderId,
    pub nodes: Vec<ProxyNode>,
}

/// Mathematical view of [`UpdateSnapshot`].
pub ghost struct UpdateSnapshotView {
    pub subscription_id: Seq<char>,
    pub source: SubscriptionSourceView,
    pub http_metadata: Option<SubscriptionHttpMetadataView>,
    pub remote_request: Option<RemoteRequestOptionsView>,
    pub update_policy: SubscriptionUpdatePolicy,
    pub document: Option<SubscriptionDocumentView>,
    pub provider_id: Seq<char>,
    pub nodes: Seq<ProxyNodeView>,
}

impl DeepView for UpdateSnapshot {
    type V = UpdateSnapshotView;

    open spec fn deep_view(&self) -> UpdateSnapshotView {
        UpdateSnapshotView {
            subscription_id: self.subscription_id@,
            source: self.source.deep_view(),
            http_metadata: self.http_metadata.deep_view(),
            remote_request: self.remote_request.deep_view(),
            update_policy: self.update_policy,
            document: self.document.deep_view(),
            provider_id: self.provider_id@,
            nodes: self.nodes.deep_view(),
        }
    }
}

impl View for UpdateSnapshot {
    type V = UpdateSnapshotView;

    open spec fn view(&self) -> UpdateSnapshotView {
        self.deep_view()
    }
}

impl ExactEq for UpdateSnapshot {
    fn same(&self, other: &Self) -> (r: bool) {
        self.subscription_id.same(&other.subscription_id) && self.source.same(&other.source)
            && self.http_metadata.same(&other.http_metadata) && self.remote_request.same(
            &other.remote_request,
        ) && self.update_policy.same(&other.update_policy) && self.document.same(&other.document)
            && self.provider_id.same(&other.provider_id) && self.nodes.same(&other.nodes)
    }
}

/// Ids of the subscriptions, in order.
pub open spec fn subscription_keys(subs: Seq<SubscriptionView>) -> Seq<Seq<char>> {
    subs.map_values(|x: SubscriptionView| x.id)
}

/// The providers of subscription `id`, in order.
pub open spec fn providers_for(s: AppStateView, id: Seq<char>) -> Seq<crate::domain::ProviderView> {
    s.providers.filter(|p: crate::domain::ProviderView| p.subscription_id == id)
}

/// The update snapshot of subscription `id` in `s`: its source, metadata,
/// options, policy and document, its one provider and that provider's
/// nodes; an unknown id is not found, and a subscription without exactly
/// one provider is invalid.
pub open spec fn update_snapshot_of(s: AppStateView, id: Seq<char>) -> Result<
    UpdateSnapshotView,
    SubscriptionOperationError,
> {
    match first_index(subscription_keys(s.subscriptions), id) {
        None => Err(SubscriptionOperationError::NotFound),
        Some(i) => {
            let sub = s.subscriptions[i];
            let providers = providers_for(s, sub.id);
            if providers.len() != 1 {
                Err(SubscriptionOperationError::ValidationFailed)
            } else {
                Ok(
                    UpdateSnapshotView {
                        subscription_id: sub.id,
                        source: sub.source,
                        http_metadata: sub.http_metadata,
                        remote_request: sub.remote_request,
                        update_policy: sub.update_policy,
                        document: sub.document,
                        provider_id: providers[0].id,
                        nodes: nodes_inside(s.nodes, providers[0].id),
                    },
                )
            }
        },
    }
}

/// Position of the first subscription named `id`.
pub(crate) fn find_subscription(state: &AppState, id: &str) -> (r: Option<usize>)
    ensures
        match r {
            Some(i) => first_index(subscription_keys(state@.subscriptions), id@) == Some(i as int)
                && i < state@.subscriptions.len(),
            None => first_index(subscription_keys(state@.subscriptions), id@) is None,
        },
{
    let ghost keys = subscription_keys(state@.subscriptions);
    let mut i: usize = 0;
    while i < state.subscriptions.len()
        invariant
            i <= state.subscriptions.len(),
            keys == subscription_keys(state@.subscriptions),
            keys.len() == state@.subscriptions.len(),
            forall|j: int| 0 <= j < i ==> keys[j] != id@,
        decreases state.subscriptions.len() - i,
    {
        if str_eq(state.subscriptions[i].id.0.as_str(), id) {
            proof {
                lemma_first_index(keys, id@, i as int);
            }
            return Some(i);
        }
        i = i + 1;
    }
    proof {
        if keys.contains(id@) {
            let k = choose|k: int| 0 <= k < keys.len() && keys[k] == id@;
            assert(keys[k] != id@);
        }
    }
    None
}

/// The providers of the subscription, as copies.
pub(crate) fn providers_of_subscription(state: &AppState, id: &SubscriptionId) -> (r: Vec<crate::domain::Provider>)
    ensures
        r.deep_view() == providers_for(state@, id@),
{
    let ghost all = state@.providers;
    let mut r: Vec<crate::domain::Provider> = Vec::new();
    let mut i: usize = 0;
    while i < state.providers.len()
        invariant
            i <= state.providers.len(),
            all == state.providers.deep_view(),
            all == state@.providers,
            r.deep_view() =~= all.take(i as int).filter(
                |p: crate::domain::ProviderView| p.subscription_id == id@,
            ),
        decreases state.providers.len() - i,
    {
        proof {
            reveal(Seq::filter);
            assert(all.take(i + 1).drop_last() =~= all.take(i as int));
            assert(all.take(i + 1).last() == all[i as int]);
        }
        if state.providers[i].subscription_id.same(id) {
            let ghost before = r.deep_view();
            let p = state.providers[i].exact_clone();
            r.push(p);
            proof {
                assert(r.deep_view() =~= before.push(p.deep_view()));
            }
        }
        i = i + 1;
    }
    proof {
        assert(all.take(state.providers.len() as int) =~= all);
    }
    r
}

/// Copies of the nodes of one provider, in their order.
fn nodes_of_provider(nodes: &Vec<ProxyNode>, provider_id: &ProviderId) -> (r: Vec<ProxyNode>)
    ensures
        r.deep_view() == nodes_inside(nodes.deep_view(), provider_id@),
{
    let ghost all = nodes.deep_view();
    let mut r: Vec<ProxyNode> = Vec::new();
    let mut i: usize = 0;
    while i < nodes.len()
        invariant
            i <= nodes.len(),
            all == nodes.deep_view(),
            r.deep_view() =~= nodes_inside(all.take(i as int), provider_id@),
        decreases nodes.len() - i,
    {
        proof {
            reveal(Seq::filter);
            assert(all.take(i + 1).drop_last() =~= all.take(i as int));
            assert(all.take(i + 1).last() == all[i as int]);
        }
        if nodes[i].provider_id.same(provider_id) {
            let ghost before = r.deep_view();
            let n = nodes[i].exact_clone();
            r.push(n);
            proof {
                assert(r.deep_view() =~= before.push(n.deep_view()));
            }
        }
        i = i + 1;
    }
    proof {
        assert(all.take(nodes.len() as int) =~= all);
    }
    r
}

/// Takes the update snapshot of subscription `id`.
pub fn update_snapshot(state: &AppState, id: &str) -> (r: Result<UpdateSnapshot, SubscriptionOperationError>)
    ensures
        match update_snapshot_of(state@, id@) {
            Ok(v) => r matches Ok(snap) && snap@ == v,
            Err(e) => r == Err::<UpdateSnapshot, SubscriptionOperationError>(e),
        },
{
    let index = match find_subscription(state, id) {
        Some(i) => i,
        None => {
            return Err(SubscriptionOperationError::NotFound);
        },
    };
    let subscription = &state.subscriptions[index];
    let providers = providers_of_subscription(state, &subscription.id);
    if providers.len() != 1 {
        return Err(SubscriptionOperationError::ValidationFailed);
    }
    let provider_id = providers[0].id.exact_clone();
    let nodes = nodes_of_provider(&state.nodes, &provider_id);
    Ok(
        UpdateSnapshot {
            subscription_id: subscription.id.exact_clone(),
            source: subscription.source.exact_clone(),
            http_metadata: subscription.http_metadata.exact_clone(),
            remote_request: subscription.remote_request.exact_clone(),
            update_policy: subscription.update_policy,
            document: subscription.document.exact_clone(),
            provider_id,
            nodes,
        },
    )
}


/// Validators a conditional request sends.
#[derive(Clone, Debug, PartialEq, Eq, Default)]
pub struct ConditionalHeaders {
    pub etag: Option<String>,
    pub last_modified: Option<String>,
}

/// What a fetch of a remote subscription produced.
#[derive(Clone, Debug, PartialEq, Eq)]
pub enum FetchResult {
    /// A new body, with the response's metadata.
    Modified {
        body: String,
        metadata: SubscriptionHttpMetadata,
        profile_update_interval_minutes: Option<u32>,
        validators_match_source: bool,
    },
    /// The source answered that the content is unchanged.
    NotModified {
        metadata: SubscriptionHttpMetadata,
        profile_update_interval_minutes: Option<u32>,
        validators_match_source: bool,
    },
}

/// Mathematical view of [`FetchResult`].
pub ghost enum FetchResultView {
    Modified {
        body: Seq<char>,
        metadata: SubscriptionHttpMetadataView,
        profile_update_interval_minutes: Option<u32>,
        validators_match_source: bool,
    },
    NotModified {
        metadata: SubscriptionHttpMetadataView,
        profile_update_interval_minutes: Option<u32>,
        validators_match_source: bool,
    },
}

impl DeepView for FetchResult {
    type V = FetchResultView;

    open spec fn deep_view(&self) -> FetchResultView {
        match self {
            FetchResult::Modified { body, metadata, profile_update_interval_minutes, validators_match_source } => {
                FetchResultView::Modified {
                    body: body@,
                    metadata: metadata.deep_view(),
                    profile_update_interval_minutes: *profile_update_interval_minutes,
                    validators_match_source: *validators_match_source,
                }
            },
            FetchResult::NotModified { metadata, profile_update_interval_minutes, validators_match_source } => {
                FetchResultView::NotModified {
                    metadata: metadata.deep_view(),
                    profile_update_interval_minutes: *profile_update_interval_minutes,
                    validators_match_source: *validators_match_source,
                }
            },
        }
    }
}

/// The cached nodes can stand for the source: there are some and they came
/// from the fetched document, not from a local edit.
pub open spec fn cache_usable(snap: UpdateSnapshotView) -> bool {
    snap.nodes.len() > 0 && (snap.document matches Some(d) && !d.local_override)
}

/// The validators a refresh of `snap` sends: the stored ones when the cache
/// is usable, none otherwise.
pub open spec fn conditional_headers_of(snap: UpdateSnapshotView) -> (Option<Seq<char>>, Option<Seq<char>>) {
    if cache_usable(snap) {
        match snap.http_metadata {
            Some(m) => (m.etag, m.last_modified),
            None => (None, None),
        }
    } else {
        (None, None)
    }
}

/// Whether the cached nodes can stand for the source.
pub fn is_cache_usable(snapshot: &UpdateSnapshot) -> (r: bool)
    ensures
        r == cache_usable(snapshot@),
{
    snapshot.nodes.len() > 0 && match &snapshot.document {
        Some(d) => !d.local_override,
        None => false,
    }
}

/// The validators a refresh of `snapshot` sends.
pub fn conditional_headers(snapshot: &UpdateSnapshot) -> (r: ConditionalHeaders)
    ensures
        (r.etag.deep_view(), r.last_modified.deep_view()) == conditional_headers_of(snapshot@),
{
    if !is_cache_usable(snapshot) {
        return ConditionalHeaders { etag: None, last_modified: None };
    }
    match &snapshot.http_metadata {
        Some(m) => ConditionalHeaders { etag: m.etag.exact_clone(), last_modified: m.last_modified.exact_clone() },
        None => ConditionalHeaders { etag: None, last_modified: None },
    }
}

/// The view of a parse result: its drafts, how many entries were skipped,
/// and its format.
pub open spec fn parsed_view(p: Option<ParseResult>) -> Option<(Seq<ProxyNodeDraftView>, nat, SubscriptionFormat)> {
    match p {
        Some(r) => Some((r.nodes.deep_view(), r.skipped@.len(), r.format)),
        None => None,
    }
}

/// The document a body of `format` is kept as.
pub open spec fn document_of_body(content: Seq<char>, format: SubscriptionFormat) -> Option<SubscriptionDocumentView> {
    match format {
        SubscriptionFormat::Json => Some(SubscriptionDocumentView { format: SubscriptionDocumentFormat::Json, content, local_override: false }),
        SubscriptionFormat::ClashYaml => Some(SubscriptionDocumentView { format: SubscriptionDocumentFormat::Yaml, content, local_override: false }),
        _ => None,
    }
}

/// A policy after a profile announced an interval.
pub open spec fn adopted(p: SubscriptionUpdatePolicy, interval: Option<u32>) -> SubscriptionUpdatePolicy {
    if p.allow_auto_update && p.interval_minutes is None {
        SubscriptionUpdatePolicy { interval_minutes: interval, ..p }
    } else {
        p
    }
}

/// Metadata with nothing known.
pub open spec fn no_metadata() -> SubscriptionHttpMetadataView {
    SubscriptionHttpMetadataView { etag: None, last_modified: None, subscription_userinfo: None, content_disposition: None }
}

/// The metadata kept after an unchanged answer.
pub open spec fn merged_metadata(
    previous: SubscriptionHttpMetadataView,
    response: SubscriptionHttpMetadataView,
    validators_match_source: bool,
) -> SubscriptionHttpMetadataView {
    SubscriptionHttpMetadataView {
        etag: if validators_match_source && response.etag is None { previous.etag } else { response.etag },
        last_modified: if validators_match_source && response.last_modified is None {
            previous.last_modified
        } else {
            response.last_modified
        },
        subscription_userinfo: if response.subscription_userinfo is None {
            previous.subscription_userinfo
        } else {
            response.subscription_userinfo
        },
        content_disposition: if response.content_disposition is None {
            previous.content_disposition
        } else {
            response.content_disposition
        },
    }
}

/// A node replacement failure as a subscription failure.
pub open spec fn replacement_error_of(e: ProviderReplacementError) -> SubscriptionOperationError {
    match e {
        ProviderReplacementError::RejectedBatch => SubscriptionOperationError::ParseFailed,
        ProviderReplacementError::MissingProvider => SubscriptionOperationError::ValidationFailed,
        ProviderReplacementError::State(_) => SubscriptionOperationError::ValidationFailed,
        ProviderReplacementError::Normalize(_) => SubscriptionOperationError::NormalizationFailed,
        ProviderReplacementError::Store(_) => SubscriptionOperationError::SaveFailed,
    }
}

/// `s` with subscription `i` replaced.
pub open spec fn with_subscription(s: AppStateView, i: int, sub: SubscriptionView) -> AppStateView {
    AppStateView { subscriptions: s.subscriptions.update(i, sub), ..s }
}

/// The end of a successful content change: a changed active subscription
/// advances the desired generation, and the result must be a valid state.
pub open spec fn finish_commit(s: AppStateView, i: int, changed: bool) -> Result<(AppStateView, bool), SubscriptionOperationError> {
    let bump = changed && s.active_subscription_id == Some(s.subscriptions[i].id);
    if bump && s.active_configuration_generation + 1 > MAX_SAFE_INTEGER {
        Err(SubscriptionOperationError::ValidationFailed)
    } else {
        let t = if bump {
            AppStateView { active_configuration_generation: (s.active_configuration_generation + 1) as u64, ..s }
        } else {
            s
        };
        if validation_error(t) is Some {
            Err(SubscriptionOperationError::ValidationFailed)
        } else {
            Ok((t, changed))
        }
    }
}

/// What committing an update of subscription `id` makes of `current`: the
/// subscription must be as it was when the update started; a new body
/// replaces the provider's nodes and records its document, metadata (for a
/// remote source) and skipped entries; an unchanged answer merges the
/// metadata. Either way the announced interval is adopted and the success
/// and attempt times are `now`.
pub open spec fn update_commit(
    current: AppStateView,
    id: Seq<char>,
    snap: UpdateSnapshotView,
    fetched: FetchResultView,
    parsed: Option<(Seq<ProxyNodeDraftView>, nat, SubscriptionFormat)>,
    now: u64,
) -> Result<(AppStateView, bool), SubscriptionOperationError> {
    match update_snapshot_of(current, id) {
        Err(e) => Err(e),
        Ok(check) => if check != snap {
            Err(SubscriptionOperationError::Busy)
        } else {
            let i = first_index(subscription_keys(current.subscriptions), id)->0;
            match (fetched, parsed) {
                (FetchResultView::Modified { body, metadata, profile_update_interval_minutes, .. }, Some((batch, skipped, format))) => {
                    match provider_replacement(current, snap.provider_id, batch, 0) {
                        Err(e) => Err(replacement_error_of(e)),
                        Ok((next, changed)) => {
                            let sub = next.subscriptions[i];
                            let updated = SubscriptionView {
                                skipped_unsupported_nodes: skipped as u32,
                                http_metadata: if snap.source is Remote { Some(metadata) } else { None },
                                document: document_of_body(body, format),
                                update_policy: adopted(sub.update_policy, profile_update_interval_minutes),
                                last_success_at_ms: Some(now),
                                last_attempt_at_ms: Some(now),
                                ..sub
                            };
                            finish_commit(with_subscription(next, i, updated), i, changed)
                        },
                    }
                },
                (FetchResultView::NotModified { metadata, profile_update_interval_minutes, validators_match_source }, None) => {
                    let sub = current.subscriptions[i];
                    let previous = match snap.http_metadata {
                        Some(m) => m,
                        None => no_metadata(),
                    };
                    let updated = SubscriptionView {
                        http_metadata: Some(merged_metadata(previous, metadata, validators_match_source)),
                        update_policy: adopted(sub.update_policy, profile_update_interval_minutes),
                        last_success_at_ms: Some(now),
                        last_attempt_at_ms: Some(now),
                        ..sub
                    };
                    finish_commit(with_subscription(current, i, updated), i, false)
                },
                _ => Err(SubscriptionOperationError::ParseFailed),
            }
        },
    }
}

/// The view of a commit's result.
pub open spec fn commit_view(r: Result<(AppState, bool), SubscriptionOperationError>) -> Result<(AppStateView, bool), SubscriptionOperationError> {
    match r {
        Ok((s, c)) => Ok((s@, c)),
        Err(e) => Err(e),
    }
}

/// Advances the generation when an active subscription's content changed
/// and checks the result.
fn finish_commit_exec(mut state: AppState, index: usize, changed: bool) -> (r: Result<(AppState, bool), SubscriptionOperationError>)
    requires
        index < state@.subscriptions.len(),
    ensures
        commit_view(r) == finish_commit(state@, index as int, changed),
{
    let bump = changed && match &state.active_subscription_id {
        Some(active) => active.same(&state.subscriptions[index].id),
        None => false,
    };
    if bump {
        state.active_configuration_generation = next_generation(state.active_configuration_generation)?;
    }
    match state.validate() {
        Ok(()) => Ok((state, changed)),
        Err(_) => Err(SubscriptionOperationError::ValidationFailed),
    }
}

/// Commits an update of subscription `id` into `current` (read under the
/// state lock after the fetch): checks that nothing changed meanwhile and
/// returns the state to save with whether the nodes changed.
pub fn commit_update(
    current: AppState,
    id: &str,
    snapshot: &UpdateSnapshot,
    fetched: FetchResult,
    parsed: Option<ParseResult>,
    now: u64,
) -> (r: Result<(AppState, bool), SubscriptionOperationError>)
    ensures
        commit_view(r) == update_commit(current@, id@, snapshot@, fetched.deep_view(), parsed_view(parsed), now),
{
    let check = update_snapshot(&current, id)?;
    if !check.same(snapshot) {
        return Err(SubscriptionOperationError::Busy);
    }
    let index = match find_subscription(&current, id) {
        Some(i) => i,
        None => {
            return Err(SubscriptionOperationError::NotFound);
        },
    };
    let ghost i = index as int;
    let ghost before = current@;
    let mut candidate = current;
    match (fetched, parsed) {
        (FetchResult::Modified { body, metadata, profile_update_interval_minutes, .. }, Some(parsed)) => {
            let skipped_count = parsed.skipped.len() as u32;
            let format = parsed.format;
            let batch = ParseResult { format: parsed.format, nodes: parsed.nodes, skipped: Vec::new() };
            let document = document_for_body(body, format);
            let changed = match apply_provider_replacement(&mut candidate, snapshot.provider_id.exact_clone(), batch) {
                Ok(c) => c,
                Err(e) => {
                    return Err(map_replacement_error(e));
                },
            };
            proof {
                assert(batch.skipped@.len() == 0);
            }
            let ghost next = candidate@;
            let mut sub = candidate.subscriptions[index].exact_clone();
            sub.skipped_unsupported_nodes = skipped_count;
            sub.http_metadata = match &snapshot.source {
                SubscriptionSource::Remote { .. } => Some(metadata),
                SubscriptionSource::Manual => None,
            };
            sub.document = document;
            adopt_profile_interval(&mut sub.update_policy, profile_update_interval_minutes);
            sub.last_success_at_ms = Some(now);
            sub.last_attempt_at_ms = Some(now);
            let ghost subv = sub@;
            proof {
                assert(sub.document.deep_view() == document_of_body(body@, format));
                assert(sub.update_policy == adopted(next.subscriptions[i].update_policy, profile_update_interval_minutes));
            }
            candidate.subscriptions.set(index, sub);
            proof {
                assert(candidate.subscriptions.deep_view() =~= next.subscriptions.update(i, subv));
                assert(candidate@ == with_subscription(next, i, subv));
            }
            finish_commit_exec(candidate, index, changed)
        },
        (FetchResult::NotModified { metadata, profile_update_interval_minutes, validators_match_source }, None) => {
            let previous = match &snapshot.http_metadata {
                Some(m) => m.exact_clone(),
                None => SubscriptionHttpMetadata { etag: None, last_modified: None, subscription_userinfo: None, content_disposition: None },
            };
            let merged = merge_metadata(previous, metadata, validators_match_source);
            let mut sub = candidate.subscriptions[index].exact_clone();
            sub.http_metadata = Some(merged);
            adopt_profile_interval(&mut sub.update_policy, profile_update_interval_minutes);
            sub.last_success_at_ms = Some(now);
            sub.last_attempt_at_ms = Some(now);
            let ghost subv = sub@;
            proof {
                assert(sub.update_policy == adopted(before.subscriptions[i].update_policy, profile_update_interval_minutes));
            }
            candidate.subscriptions.set(index, sub);
            proof {
                assert(candidate.subscriptions.deep_view() =~= before.subscriptions.update(i, subv));
                assert(candidate@ == with_subscription(before, i, subv));
            }
            finish_commit_exec(candidate, index, false)
        },
        _ => Err(SubscriptionOperationError::ParseFailed),
    }
}


/// The state after a failed refresh of `snap`'s subscription was recorded
/// at `at`: only its attempt time changes, and only if the subscription is
/// as the refresh found it.
pub open spec fn attempt_record(current: AppStateView, snap: UpdateSnapshotView, at: u64) -> Result<AppStateView, SubscriptionOperationError> {
    match update_snapshot_of(current, snap.subscription_id) {
        Err(e) => Err(e),
        Ok(check) => if check != snap {
            Err(SubscriptionOperationError::Busy)
        } else {
            let i = first_index(subscription_keys(current.subscriptions), snap.subscription_id)->0;
            let t = with_subscription(current, i, SubscriptionView { last_attempt_at_ms: Some(at), ..current.subscriptions[i] });
            if validation_error(t) is Some {
                Err(SubscriptionOperationError::ValidationFailed)
            } else {
                Ok(t)
            }
        },
    }
}

/// Records a failed refresh attempt of the snapshot's subscription.
pub fn record_attempt(current: AppState, snapshot: &UpdateSnapshot, attempted_at_ms: u64) -> (r: Result<AppState, SubscriptionOperationError>)
    ensures
        match attempt_record(current@, snapshot@, attempted_at_ms) {
            Ok(t) => r matches Ok(s) && s@ == t,
            Err(e) => r == Err::<AppState, SubscriptionOperationError>(e),
        },
{
    let check = update_snapshot(&current, snapshot.subscription_id.0.as_str())?;
    if !check.same(snapshot) {
        return Err(SubscriptionOperationError::Busy);
    }
    let index = match find_subscription(&current, snapshot.subscription_id.0.as_str()) {
        Some(i) => i,
        None => {
            return Err(SubscriptionOperationError::NotFound);
        },
    };
    let ghost before = current@;
    let mut candidate = current;
    let mut sub = candidate.subscriptions[index].exact_clone();
    sub.last_attempt_at_ms = Some(attempted_at_ms);
    let ghost subv = sub@;
    candidate.subscriptions.set(index, sub);
    proof {
        assert(candidate.subscriptions.deep_view() =~= before.subscriptions.update(index as int, subv));
    }
    match candidate.validate() {
        Ok(()) => Ok(candidate),
        Err(_) => Err(SubscriptionOperationError::ValidationFailed),
    }
}

/// A refresh that asks the update to go through the managed core.
#[derive(Clone, Copy, Debug, PartialEq, Eq, Structural)]
pub enum UpdateRouteOverride {
    ManagedCore,
}

/// How to obtain the content of an update.
#[derive(Clone, Debug, PartialEq, Eq)]
pub enum RefreshPlan {
    /// Fetch the remote source with these validators and options.
    Fetch {
        url: String,
        conditional: ConditionalHeaders,
        remote_request: RemoteRequestOptions,
        route_override: Option<UpdateRouteOverride>,
    },
    /// Use the content the user supplied.
    Local { fetched: FetchResult },
}

/// An id an update request may name: not blank and at most 128 bytes.
pub open spec fn update_id_ok(id: Seq<char>) -> bool {
    crate::text::trim_seq(id).len() > 0 && vstd::utf8::encode_utf8(id).len() <= 128
}

/// Checks the id an update request names.
pub fn check_update_id(id: &str) -> (r: Result<(), SubscriptionOperationError>)
    ensures
        r is Ok <==> update_id_ok(id@),
        r is Err ==> r == Err::<(), SubscriptionOperationError>(SubscriptionOperationError::InvalidInput),
{
    let trimmed = crate::text::trim(id);
    if trimmed.as_str().unicode_len() == 0 || id.as_bytes().len() > 128 {
        return Err(SubscriptionOperationError::InvalidInput);
    }
    Ok(())
}

/// How an update of the snapshot's subscription obtains its content: a
/// remote source is fetched (conditionally when the cache is usable) unless
/// content was supplied; a manual subscription needs supplied content and no
/// route override; anything else is invalid input.
pub fn plan_refresh(
    snapshot: &UpdateSnapshot,
    content: Option<String>,
    route_override: Option<UpdateRouteOverride>,
) -> (r: Result<RefreshPlan, SubscriptionOperationError>)
    ensures
        match (snapshot@.source, content, route_override) {
            (SubscriptionSourceView::Remote { url }, None, o) => match snapshot@.remote_request {
                None => r == Err::<RefreshPlan, SubscriptionOperationError>(SubscriptionOperationError::ValidationFailed),
                Some(options) => r matches Ok(RefreshPlan::Fetch { url: u, conditional, remote_request, route_override: ro })
                    && u@ == url && (conditional.etag.deep_view(), conditional.last_modified.deep_view())
                    == conditional_headers_of(snapshot@) && remote_request.deep_view() == options && ro == o,
            },
            (SubscriptionSourceView::Manual, Some(c), None) => r matches Ok(RefreshPlan::Local { fetched })
                && fetched.deep_view() == (FetchResultView::Modified {
                    body: c@,
                    metadata: no_metadata(),
                    profile_update_interval_minutes: None,
                    validators_match_source: true,
                }),
            _ => r == Err::<RefreshPlan, SubscriptionOperationError>(SubscriptionOperationError::InvalidInput),
        },
{
    match (&snapshot.source, content, route_override) {
        (SubscriptionSource::Remote { url }, None, o) => {
            let remote_request = match &snapshot.remote_request {
                Some(options) => options.exact_clone(),
                None => {
                    return Err(SubscriptionOperationError::ValidationFailed);
                },
            };
            Ok(RefreshPlan::Fetch { url: url.exact_clone(), conditional: conditional_headers(snapshot), remote_request, route_override: o })
        },
        (SubscriptionSource::Manual, Some(c), None) => Ok(
            RefreshPlan::Local {
                fetched: FetchResult::Modified {
                    body: c,
                    metadata: SubscriptionHttpMetadata { etag: None, last_modified: None, subscription_userinfo: None, content_disposition: None },
                    profile_update_interval_minutes: None,
                    validators_match_source: true,
                },
            },
        ),
        _ => Err(SubscriptionOperationError::InvalidInput),
    }
}

/// Where a fetch goes: straight to the source, through the system's proxy
/// (which the platform reads), or through the managed core's local proxy.
#[derive(Clone, Debug, PartialEq, Eq)]
pub enum FetchRoute {
    Direct,
    System,
    Proxy { url: String },
}

/// The local proxy URL of the managed core listening on `port`.
pub open spec fn managed_proxy_url(port: u16) -> Seq<char> {
    "http://127.0.0.1:"@ + crate::text::decimal(port as nat)
}

/// Decides the route of a fetch: an override through the managed core wins
/// over the subscription's own mode; the managed core needs its local proxy
/// port, without which the fetch is refused.
pub fn fetch_route(
    route_override: Option<UpdateRouteOverride>,
    mode: SubscriptionProxyMode,
    managed_proxy_port: Option<u16>,
) -> (r: Result<FetchRoute, SubscriptionOperationError>)
    ensures
        ({
            let effective = if route_override is Some { SubscriptionProxyMode::ManagedCore } else { mode };
            match effective {
                SubscriptionProxyMode::Direct => r == Ok::<FetchRoute, SubscriptionOperationError>(FetchRoute::Direct),
                SubscriptionProxyMode::System => r == Ok::<FetchRoute, SubscriptionOperationError>(FetchRoute::System),
                SubscriptionProxyMode::ManagedCore => match managed_proxy_port {
                    Some(p) if p != 0 => r matches Ok(FetchRoute::Proxy { url }) && url@ == managed_proxy_url(p),
                    _ => r == Err::<FetchRoute, SubscriptionOperationError>(SubscriptionOperationError::ProxyUnavailable),
                },
            }
        }),
{
    let effective = match route_override {
        Some(UpdateRouteOverride::ManagedCore) => SubscriptionProxyMode::ManagedCore,
        None => mode,
    };
    match effective {
        SubscriptionProxyMode::Direct => Ok(FetchRoute::Direct),
        SubscriptionProxyMode::System => Ok(FetchRoute::System),
        SubscriptionProxyMode::ManagedCore => match managed_proxy_port {
            Some(p) => if p != 0 {
                let mut url = String::new();
                crate::text::push_all(&mut url, "http://127.0.0.1:");
                crate::text::push_decimal(&mut url, p as u64);
                Ok(FetchRoute::Proxy { url })
            } else {
                Err(SubscriptionOperationError::ProxyUnavailable)
            },
            None => Err(SubscriptionOperationError::ProxyUnavailable),
        },
    }
}

/// An unchanged answer is refused when the cache cannot stand for the source.
pub fn not_modified_refused(snapshot: &UpdateSnapshot, fetched: &FetchResult) -> (r: bool)
    ensures
        r == (fetched.deep_view() is NotModified && !cache_usable(snapshot@)),
{
    match fetched {
        FetchResult::NotModified { .. } => !is_cache_usable(snapshot),
        FetchResult::Modified { .. } => false,
    }
}


/// How an update that cannot go on ends: its error, and whether the attempt
/// is recorded (which also remembers the process deadline).
#[derive(Clone, Copy, Debug, PartialEq, Eq, Structural)]
pub struct UpdateFailure {
    pub error: SubscriptionOperationError,
    pub record_attempt: bool,
}

/// What a failed fetch ends in: refused as busy because the application is
/// closing, the attempt is not recorded; any other failure is recorded.
pub open spec fn fetch_failure_of(error: SubscriptionOperationError, closing: bool) -> UpdateFailure {
    UpdateFailure {
        error,
        record_attempt: !(error == SubscriptionOperationError::Busy && closing),
    }
}

/// Decides what a failed fetch ends in; see [`fetch_failure_of`].
pub fn fetch_failure(error: SubscriptionOperationError, closing: bool) -> (r: UpdateFailure)
    ensures
        r == fetch_failure_of(error, closing),
{
    let busy_closing = match error {
        SubscriptionOperationError::Busy => closing,
        _ => false,
    };
    UpdateFailure { error, record_attempt: !busy_closing }
}

/// What an update makes of the answer it got: a body the screening refused
/// ends the update with that error, recorded as an attempt for a remote
/// source; an unchanged answer the cache cannot stand for ends it as cache
/// unavailable, recorded; anything else goes on to the commit (`None`).
pub open spec fn answer_failure_of(
    remote: bool,
    screening: Option<SubscriptionOperationError>,
    refused_unchanged: bool,
) -> Option<UpdateFailure> {
    match screening {
        Some(error) => Some(UpdateFailure { error, record_attempt: remote }),
        None => if refused_unchanged {
            Some(UpdateFailure { error: SubscriptionOperationError::CacheUnavailable, record_attempt: true })
        } else {
            None
        },
    }
}

/// Decides what an update makes of the answer it got; see
/// [`answer_failure_of`].
pub fn answer_failure(remote: bool, screening: Option<SubscriptionOperationError>, refused_unchanged: bool) -> (r: Option<
    UpdateFailure,
>)
    ensures
        r == answer_failure_of(remote, screening, refused_unchanged),
{
    match screening {
        Some(error) => Some(UpdateFailure { error, record_attempt: remote }),
        None => if refused_unchanged {
            Some(UpdateFailure { error: SubscriptionOperationError::CacheUnavailable, record_attempt: true })
        } else {
            None
        },
    }
}

/// An edit of one subscription's settings; absent fields stay.
#[derive(Clone, Debug, PartialEq, Eq)]
pub struct EditSubscription {
    pub id: String,
    pub name: Option<String>,
    pub description: Option<String>,
    pub url_replacement: Option<String>,
    pub remote_request: Option<RemoteRequestPatch>,
    pub update_policy: Option<UpdatePolicyPatch>,
}

/// The edited subscription, its position, and whether its source URL
/// changed (then the new source must be fetched before the edit commits).
#[derive(Clone, Debug, PartialEq, Eq)]
pub struct EditPlan {
    pub index: usize,
    pub edited: Subscription,
    pub url_changed: bool,
}

/// The request options after an edit, or why the edit is refused.
pub open spec fn remote_patch_result(o: RemoteRequestOptionsView, patch: RemoteRequestPatch) -> Result<RemoteRequestOptionsView, SubscriptionOperationError> {
    let ua_ok = match patch.user_agent {
        Some(UserAgentEdit::Replace(u)) => user_agent_ok(u@),
        _ => true,
    };
    let to_ok = match patch.timeout_seconds {
        Some(t) => timeout_ok(t),
        None => true,
    };
    if !ua_ok || !to_ok {
        Err(SubscriptionOperationError::InvalidOptions)
    } else {
        Ok(RemoteRequestOptionsView {
            user_agent: match patch.user_agent {
                None => o.user_agent,
                Some(UserAgentEdit::Clear) => None,
                Some(UserAgentEdit::Replace(u)) => Some(u@),
            },
            timeout_seconds: match patch.timeout_seconds {
                Some(t) => t,
                None => o.timeout_seconds,
            },
            proxy_mode: match patch.proxy_mode {
                Some(m) => m,
                None => o.proxy_mode,
            },
            verify_tls: match patch.verify_tls {
                Some(v) => v,
                None => o.verify_tls,
            },
        })
    }
}

/// The update policy after an edit, or why the edit is refused.
pub open spec fn policy_patch_result(p: SubscriptionUpdatePolicy, patch: UpdatePolicyPatch) -> Result<SubscriptionUpdatePolicy, SubscriptionOperationError> {
    let allow = match patch.allow_auto_update {
        Some(a) => a,
        None => p.allow_auto_update,
    };
    let interval = match patch.interval_minutes {
        Some(i) => i,
        None => p.interval_minutes,
    };
    if update_policy_ok(interval) {
        Ok(SubscriptionUpdatePolicy { allow_auto_update: allow, interval_minutes: interval })
    } else {
        Err(SubscriptionOperationError::InvalidOptions)
    }
}

/// The source, options and policy after an edit, with whether the URL
/// changed. A manual subscription takes none of these edits; a remote one
/// needs an accepted URL and stored request options.
pub open spec fn edited_source(
    sub: SubscriptionView,
    url_replacement: Option<String>,
    remote_request: Option<RemoteRequestPatch>,
    update_policy: Option<UpdatePolicyPatch>,
    url_accepted: bool,
) -> Result<(SubscriptionView, bool), SubscriptionOperationError> {
    match sub.source {
        SubscriptionSourceView::Manual => if url_replacement is Some || remote_request is Some
            || update_policy is Some {
            Err(SubscriptionOperationError::InvalidOptions)
        } else {
            Ok((sub, false))
        },
        SubscriptionSourceView::Remote { url } => {
            let replaced = match url_replacement {
                Some(v) => if !url_accepted {
                    Err(SubscriptionOperationError::InvalidInput)
                } else if v@ != url {
                    Ok((SubscriptionSourceView::Remote { url: v@ }, true))
                } else {
                    Ok((sub.source, false))
                },
                None => Ok((sub.source, false)),
            };
            match replaced {
                Err(e) => Err(e),
                Ok((source, changed)) => match sub.remote_request {
                    None => Err(SubscriptionOperationError::ValidationFailed),
                    Some(options) => {
                        let opts = match remote_request {
                            Some(patch) => remote_patch_result(options, patch),
                            None => Ok(options),
                        };
                        match opts {
                            Err(e) => Err(e),
                            Ok(o) => {
                                let pol = match update_policy {
                                    Some(patch) => policy_patch_result(sub.update_policy, patch),
                                    None => Ok(sub.update_policy),
                                };
                                match pol {
                                    Err(e) => Err(e),
                                    Ok(p) => Ok((SubscriptionView { source, remote_request: Some(o), update_policy: p, ..sub }, changed)),
                                }
                            },
                        }
                    },
                },
            }
        },
    }
}

/// The name after an edit: trimmed, 1 to 80 characters.
pub open spec fn edited_name(current: Seq<char>, name: Option<String>) -> Result<Seq<char>, SubscriptionOperationError> {
    match name {
        None => Ok(current),
        Some(n) => {
            let t = trim_seq(n@);
            if 1 <= t.len() <= 80 { Ok(t) } else { Err(SubscriptionOperationError::InvalidInput) }
        },
    }
}

/// The description after an edit: trimmed, at most 280 characters, no
/// control character.
pub open spec fn edited_description(current: Seq<char>, description: Option<String>) -> Result<Seq<char>, SubscriptionOperationError> {
    match description {
        None => Ok(current),
        Some(d) => {
            let t = trim_seq(d@);
            if t.len() <= 280 && !has_ctrl(t) { Ok(t) } else { Err(SubscriptionOperationError::InvalidInput) }
        },
    }
}

/// What an edit makes of subscription `input.id` in `baseline`: its
/// position, the edited subscription and whether its URL changed.
pub open spec fn edit_plan(baseline: AppStateView, input: EditSubscription, url_accepted: bool) -> Result<(int, SubscriptionView, bool), SubscriptionOperationError> {
    if !subscription_id_ok(input.id@) {
        Err(SubscriptionOperationError::InvalidInput)
    } else {
        match first_index(subscription_keys(baseline.subscriptions), input.id@) {
            None => Err(SubscriptionOperationError::NotFound),
            Some(i) => {
                let sub = baseline.subscriptions[i];
                match edited_name(sub.name, input.name) {
                    Err(e) => Err(e),
                    Ok(name) => match edited_description(sub.description, input.description) {
                        Err(e) => Err(e),
                        Ok(description) => match edited_source(
                            SubscriptionView { name, description, ..sub },
                            input.url_replacement,
                            input.remote_request,
                            input.update_policy,
                            url_accepted,
                        ) {
                            Err(e) => Err(e),
                            Ok((edited, changed)) => Ok((i, edited, changed)),
                        },
                    },
                }
            },
        }
    }
}


/// Applies the source, options and policy edits to `sub`.
fn edit_source(
    sub: &mut Subscription,
    url_replacement: Option<String>,
    remote_request: Option<RemoteRequestPatch>,
    update_policy: Option<UpdatePolicyPatch>,
    url_accepted: bool,
) -> (r: Result<bool, SubscriptionOperationError>)
    ensures
        match edited_source(old(sub)@, url_replacement, remote_request, update_policy, url_accepted) {
            Ok((edited, changed)) => r == Ok::<bool, SubscriptionOperationError>(changed) && final(sub)@ == edited,
            Err(e) => r == Err::<bool, SubscriptionOperationError>(e),
        },
{
    match &sub.source {
        SubscriptionSource::Manual => {
            if url_replacement.is_some() || remote_request.is_some() || update_policy.is_some() {
                return Err(SubscriptionOperationError::InvalidOptions);
            }
            Ok(false)
        },
        SubscriptionSource::Remote { url } => {
            let mut url_changed = false;
            let mut source = sub.source.exact_clone();
            if let Some(value) = &url_replacement {
                if !url_accepted {
                    return Err(SubscriptionOperationError::InvalidInput);
                }
                if !value.same(url) {
                    url_changed = true;
                    source = SubscriptionSource::Remote { url: value.exact_clone() };
                }
            }
            let mut options = match &sub.remote_request {
                Some(o) => o.exact_clone(),
                None => {
                    return Err(SubscriptionOperationError::ValidationFailed);
                },
            };
            if let Some(patch) = remote_request {
                apply_remote_patch(&mut options, patch)?;
            }
            let mut policy = sub.update_policy;
            if let Some(patch) = update_policy {
                apply_update_policy_patch(&mut policy, patch)?;
            }
            sub.source = source;
            sub.remote_request = Some(options);
            sub.update_policy = policy;
            Ok(url_changed)
        },
    }
}

/// Decides an edit against the state read before any fetch.
/// `url_accepted` is the verdict of the source-URL check on the requested
/// replacement URL, if there is one.
pub fn plan_edit(baseline: &AppState, input: EditSubscription, url_accepted: bool) -> (r: Result<EditPlan, SubscriptionOperationError>)
    ensures
        match edit_plan(baseline@, input, url_accepted) {
            Ok((i, edited, changed)) => r matches Ok(plan) && plan.index == i && plan.edited@ == edited
                && plan.url_changed == changed,
            Err(e) => r == Err::<EditPlan, SubscriptionOperationError>(e),
        },
{
    validate_id(input.id.as_str())?;
    let index = match find_subscription(baseline, input.id.as_str()) {
        Some(i) => i,
        None => {
            return Err(SubscriptionOperationError::NotFound);
        },
    };
    let mut edited = baseline.subscriptions[index].exact_clone();
    if let Some(name) = input.name {
        edited.name = validate_subscription_name(name)?;
    }
    if let Some(description) = input.description {
        edited.description = validate_description(description)?;
    }
    let url_changed = edit_source(&mut edited, input.url_replacement, input.remote_request, input.update_policy, url_accepted)?;
    Ok(EditPlan { index, edited, url_changed })
}


/// The content fetched from a changed source URL.
#[derive(Clone, Debug, PartialEq, Eq)]
pub struct FetchedContent {
    pub body: String,
    pub parsed: ParseResult,
    pub metadata: SubscriptionHttpMetadata,
    pub profile_update_interval_minutes: Option<u32>,
    pub now: u64,
}

/// Mathematical view of [`FetchedContent`].
pub ghost struct FetchedContentView {
    pub body: Seq<char>,
    pub batch: Seq<ProxyNodeDraftView>,
    pub skipped: nat,
    pub format: SubscriptionFormat,
    pub metadata: SubscriptionHttpMetadataView,
    pub profile_update_interval_minutes: Option<u32>,
    pub now: u64,
}

impl DeepView for FetchedContent {
    type V = FetchedContentView;

    open spec fn deep_view(&self) -> FetchedContentView {
        FetchedContentView {
            body: self.body@,
            batch: self.parsed.nodes.deep_view(),
            skipped: self.parsed.skipped@.len(),
            format: self.parsed.format,
            metadata: self.metadata.deep_view(),
            profile_update_interval_minutes: self.profile_update_interval_minutes,
            now: self.now,
        }
    }
}

/// Subscription ids of the providers, in order.
pub open spec fn provider_owner_keys(providers: Seq<ProviderView>) -> Seq<Seq<char>> {
    providers.map_values(|p: ProviderView| p.subscription_id)
}

/// The implicit pool of provider `pid` follows the subscription's name.
pub open spec fn renamed_pools(pools: Seq<NodePoolView>, pid: Seq<char>, name: Seq<char>) -> Seq<NodePoolView> {
    Seq::new(
        pools.len(),
        |k: int|
            if pools[k].kind == PoolKind::ImplicitProvider && pools[k].sources.len() == 1
                && pools[k].sources[0].provider_id == pid {
                NodePoolView { name, ..pools[k] }
            } else {
                pools[k]
            },
    )
}

/// What committing an edit makes of `current`: nothing may have changed
/// since the plan was made; the edited subscription replaces the old one,
/// its provider and implicit pool take its name, and content fetched from
/// a changed URL replaces the provider's nodes and records its document,
/// metadata and times as an update does.
pub open spec fn edit_commit(
    current: AppStateView,
    baseline: AppStateView,
    index: int,
    edited: SubscriptionView,
    replacement: Option<FetchedContentView>,
) -> Result<(AppStateView, bool), SubscriptionOperationError> {
    if current != baseline {
        Err(SubscriptionOperationError::Busy)
    } else {
        let s1 = with_subscription(current, index, edited);
        match first_index(provider_owner_keys(s1.providers), edited.id) {
            None => Err(SubscriptionOperationError::ValidationFailed),
            Some(p) => {
                let pid = s1.providers[p].id;
                let s2 = AppStateView {
                    providers: s1.providers.update(p, ProviderView { name: edited.name, ..s1.providers[p] }),
                    pools: renamed_pools(s1.pools, pid, edited.name),
                    ..s1
                };
                match replacement {
                    None => finish_commit(s2, index, false),
                    Some(f) => match provider_replacement(s2, pid, f.batch, 0) {
                        Err(e) => Err(replacement_error_of(e)),
                        Ok((next, changed)) => {
                            let sub = next.subscriptions[index];
                            let updated = SubscriptionView {
                                skipped_unsupported_nodes: f.skipped as u32,
                                http_metadata: Some(f.metadata),
                                document: document_of_body(f.body, f.format),
                                update_policy: adopted(sub.update_policy, f.profile_update_interval_minutes),
                                last_success_at_ms: Some(f.now),
                                last_attempt_at_ms: Some(f.now),
                                ..sub
                            };
                            finish_commit(with_subscription(next, index, updated), index, changed)
                        },
                    },
                }
            },
        }
    }
}

/// Position of the first provider of subscription `id`.
fn find_provider_of(providers: &Vec<crate::domain::Provider>, id: &SubscriptionId) -> (r: Option<usize>)
    ensures
        match r {
            Some(i) => first_index(provider_owner_keys(providers.deep_view()), id@) == Some(i as int)
                && i < providers.len(),
            None => first_index(provider_owner_keys(providers.deep_view()), id@) is None,
        },
{
    let ghost keys = provider_owner_keys(providers.deep_view());
    let mut i: usize = 0;
    while i < providers.len()
        invariant
            i <= providers.len(),
            keys == provider_owner_keys(providers.deep_view()),
            keys.len() == providers.len(),
            forall|j: int| 0 <= j < i ==> keys[j] != id@,
        decreases providers.len() - i,
    {
        if providers[i].subscription_id.same(id) {
            proof {
                lemma_first_index(keys, id@, i as int);
            }
            return Some(i);
        }
        i = i + 1;
    }
    proof {
        if keys.contains(id@) {
            let k = choose|k: int| 0 <= k < keys.len() && keys[k] == id@;
            assert(keys[k] != id@);
        }
    }
    None
}

/// Renames the implicit pool of provider `pid`.
fn rename_implicit_pools(pools: &mut Vec<crate::domain::NodePool>, pid: &ProviderId, name: &String)
    ensures
        final(pools).deep_view() == renamed_pools(old(pools).deep_view(), pid@, name@),
{
    let ghost start = old(pools).deep_view();
    let mut i: usize = 0;
    while i < pools.len()
        invariant
            i <= pools.len(),
            pools.len() == start.len(),
            forall|k: int| 0 <= k < i ==> #[trigger] pools.deep_view()[k] == renamed_pools(start, pid@, name@)[k],
            forall|k: int| i <= k < pools.len() ==> #[trigger] pools.deep_view()[k] == start[k],
        decreases pools.len() - i,
    {
        let rename = pools[i].kind == PoolKind::ImplicitProvider && pools[i].sources.len() == 1
            && pools[i].sources[0].provider_id.same(pid);
        proof {
            let cur = pools.deep_view()[i as int];
            assert(cur == start[i as int]);
            assert(cur.sources.len() == pools[i as int].sources.len());
            if pools[i as int].sources.len() == 1 {
                assert(cur.sources[0] == pools[i as int].sources[0].deep_view());
            }
            assert(rename == (cur.kind == PoolKind::ImplicitProvider && cur.sources.len() == 1
                && cur.sources[0].provider_id == pid@));
        }
        if rename {
            let mut pool = pools[i].exact_clone();
            pool.name = name.exact_clone();
            let ghost pv = pool.deep_view();
            let ghost before = pools.deep_view();
            pools.set(i, pool);
            proof {
                assert(pools.deep_view() =~= before.update(i as int, pv));
            }
        }
        i = i + 1;
    }
    proof {
        assert(pools.deep_view() =~= renamed_pools(start, pid@, name@));
    }
}

/// Commits an edit into `current` (read under the state lock): returns the
/// state to save with whether the nodes changed.
pub fn commit_edit(
    current: AppState,
    baseline: &AppState,
    plan: EditPlan,
    replacement: Option<FetchedContent>,
) -> (r: Result<(AppState, bool), SubscriptionOperationError>)
    requires
        plan.index < baseline@.subscriptions.len(),
    ensures
        commit_view(r) == edit_commit(current@, baseline@, plan.index as int, plan.edited@, replacement.deep_view()),
{
    if !current.same(baseline) {
        return Err(SubscriptionOperationError::Busy);
    }
    let index = plan.index;
    let ghost i = index as int;
    let ghost start = current@;
    let mut candidate = current;
    let name = plan.edited.name.exact_clone();
    let subscription_id = plan.edited.id.exact_clone();
    let ghost ev = plan.edited@;
    candidate.subscriptions.set(index, plan.edited);
    proof {
        assert(candidate.subscriptions.deep_view() =~= start.subscriptions.update(i, ev));
    }
    let ghost s1 = candidate@;
    let p = match find_provider_of(&candidate.providers, &subscription_id) {
        Some(p) => p,
        None => {
            return Err(SubscriptionOperationError::ValidationFailed);
        },
    };
    let mut provider = candidate.providers[p].exact_clone();
    provider.name = name.exact_clone();
    let provider_id = provider.id.exact_clone();
    let ghost prv = provider.deep_view();
    candidate.providers.set(p, provider);
    proof {
        assert(candidate.providers.deep_view() =~= s1.providers.update(p as int, prv));
    }
    rename_implicit_pools(&mut candidate.pools, &provider_id, &name);
    match replacement {
        None => finish_commit_exec(candidate, index, false),
        Some(fetched) => {
            let skipped_count = fetched.parsed.skipped.len() as u32;
            let format = fetched.parsed.format;
            let batch = ParseResult { format: fetched.parsed.format, nodes: fetched.parsed.nodes, skipped: Vec::new() };
            let document = document_for_body(fetched.body, format);
            let changed = match apply_provider_replacement(&mut candidate, provider_id, batch) {
                Ok(c) => c,
                Err(e) => {
                    return Err(map_replacement_error(e));
                },
            };
            let ghost next = candidate@;
            let mut sub = candidate.subscriptions[index].exact_clone();
            sub.skipped_unsupported_nodes = skipped_count;
            sub.http_metadata = Some(fetched.metadata);
            sub.document = document;
            adopt_profile_interval(&mut sub.update_policy, fetched.profile_update_interval_minutes);
            sub.last_success_at_ms = Some(fetched.now);
            sub.last_attempt_at_ms = Some(fetched.now);
            let ghost subv = sub@;
            candidate.subscriptions.set(index, sub);
            proof {
                assert(candidate.subscriptions.deep_view() =~= next.subscriptions.update(i, subv));
            }
            finish_commit_exec(candidate, index, changed)
        },
    }
}


/// A new subscription to add with its first parsed content.
#[derive(Clone, Debug, PartialEq, Eq)]
pub struct ImportCommit {
    pub name: String,
    pub description: String,
    pub source: SubscriptionSource,
    pub remote_request: Option<RemoteRequestOptions>,
    pub update_policy: SubscriptionUpdatePolicy,
    pub parsed: ParseResult,
    pub document: Option<SubscriptionDocument>,
    pub http_metadata: Option<SubscriptionHttpMetadata>,
    /// For a remote import: whether no state existed when the fetch began.
    pub expected_initially_empty: Option<bool>,
}

/// The state of a fresh installation.
pub open spec fn empty_state() -> AppStateView {
    AppStateView {
        schema_version: crate::domain::CURRENT_SCHEMA_VERSION,
        active_subscription_id: None,
        active_configuration_generation: 0,
        default_target: crate::domain::RouteTargetView::Unconfigured,
        subscriptions: Seq::empty(),
        providers: Seq::empty(),
        nodes: Seq::empty(),
        pools: Seq::empty(),
        routes: Seq::empty(),
    }
}

/// The subscription, provider and pool ids an import with `suffix` takes.
pub open spec fn import_ids(suffix: Seq<char>) -> (Seq<char>, Seq<char>, Seq<char>) {
    ("sub-"@ + suffix, "provider-"@ + suffix, "pool-"@ + suffix)
}

/// What committing an import makes of the stored state (absent before the
/// first save): a remote import whose fetch began on an empty store must
/// still find it so; the new ids come from `identity`, and must be unused;
/// the subscription, its provider and its implicit pool are added and the
/// parsed nodes become the provider's.
pub open spec fn import_result(
    current: Option<AppStateView>,
    input: ImportCommit,
    identity: Option<Seq<u8>>,
    now: u64,
) -> Result<AppStateView, SubscriptionOperationError> {
    if input.expected_initially_empty matches Some(was_empty) && was_empty != current is None {
        Err(SubscriptionOperationError::Busy)
    } else {
        let base = match current { Some(c) => c, None => empty_state() };
        match identity {
            None => Err(SubscriptionOperationError::IdentityFailed),
            Some(bytes) => {
                let (sid, pid, poolid) = import_ids(crate::text::hex_seq(bytes));
                if subscription_keys(base.subscriptions).contains(sid)
                    || base.providers.map_values(|p: ProviderView| p.id).contains(pid)
                    || base.pools.map_values(|p: NodePoolView| p.id).contains(poolid) {
                    Err(SubscriptionOperationError::IdentityFailed)
                } else {
                    let name = input.name@;
                    let sub = SubscriptionView {
                        id: sid,
                        name,
                        description: input.description@,
                        source: input.source.deep_view(),
                        document: input.document.deep_view(),
                        skipped_unsupported_nodes: input.parsed.skipped@.len() as u32,
                        last_success_at_ms: Some(now),
                        last_attempt_at_ms: Some(now),
                        http_metadata: input.http_metadata.deep_view(),
                        remote_request: input.remote_request.deep_view(),
                        update_policy: input.update_policy,
                    };
                    let with_new = AppStateView {
                        subscriptions: base.subscriptions.push(sub),
                        providers: base.providers.push(ProviderView { id: pid, subscription_id: sid, name }),
                        pools: base.pools.push(implicit_pool(poolid, pid, name)),
                        ..base
                    };
                    match provider_replacement(with_new, pid, input.parsed.nodes.deep_view(), 0) {
                        Err(e) => Err(replacement_error_of(e)),
                        Ok((next, _)) => if validation_error(next) is Some {
                            Err(SubscriptionOperationError::ValidationFailed)
                        } else {
                            Ok(next)
                        },
                    }
                }
            },
        }
    }
}

/// The implicit pool of a new provider: every node, chosen by hand.
pub open spec fn implicit_pool(id: Seq<char>, provider: Seq<char>, name: Seq<char>) -> NodePoolView {
    NodePoolView {
        id,
        name,
        kind: PoolKind::ImplicitProvider,
        sources: seq![crate::domain::PoolSourceView { provider_id: provider, filter: crate::domain::NodeFilterView {
            regions: Seq::empty(),
            protocols: Seq::empty(),
            include_keywords: Seq::empty(),
            exclude_keywords: Seq::empty(),
            include_node_ids: Seq::empty(),
            exclude_node_ids: Seq::empty(),
        } }],
        selection: crate::domain::SelectionPolicyView::Manual { selected_node_id: None },
        enabled: true,
    }
}

fn text_with_prefix(prefix: &str, suffix: &String) -> (r: String)
    ensures
        r@ == prefix@ + suffix@,
{
    let mut r = String::new();
    crate::text::push_all(&mut r, prefix);
    crate::text::push_all(&mut r, suffix.as_str());
    proof {
        assert(r@ =~= prefix@ + suffix@);
    }
    r
}

fn provider_id_used(providers: &Vec<crate::domain::Provider>, id: &String) -> (r: bool)
    ensures
        r == providers.deep_view().map_values(|p: ProviderView| p.id).contains(id@),
{
    let ghost keys = providers.deep_view().map_values(|p: ProviderView| p.id);
    let mut i: usize = 0;
    while i < providers.len()
        invariant
            i <= providers.len(),
            keys == providers.deep_view().map_values(|p: ProviderView| p.id),
            forall|k: int| 0 <= k < i ==> keys[k] != id@,
        decreases providers.len() - i,
    {
        if providers[i].id.0.same(id) {
            proof {
                assert(keys[i as int] == id@);
            }
            return true;
        }
        i = i + 1;
    }
    false
}

fn pool_id_used(pools: &Vec<crate::domain::NodePool>, id: &String) -> (r: bool)
    ensures
        r == pools.deep_view().map_values(|p: NodePoolView| p.id).contains(id@),
{
    let ghost keys = pools.deep_view().map_values(|p: NodePoolView| p.id);
    let mut i: usize = 0;
    while i < pools.len()
        invariant
            i <= pools.len(),
            keys == pools.deep_view().map_values(|p: NodePoolView| p.id),
            forall|k: int| 0 <= k < i ==> keys[k] != id@,
        decreases pools.len() - i,
    {
        if pools[i].id.0.same(id) {
            proof {
                assert(keys[i as int] == id@);
            }
            return true;
        }
        i = i + 1;
    }
    false
}

/// Draws the identity of a new subscription: sixteen random bytes.
pub fn import_identity() -> (r: Option<Vec<u8>>)
    ensures
        r matches Some(b) ==> b@.len() == 16,
{
    crate::entropy::random_bytes16()
}

/// Commits an import into the stored state `current` (read under the state
/// lock, absent before the first save) with the drawn `identity` and the
/// time `now`: returns the state to save and the new subscription's
/// summary.
pub fn commit_import(
    current: Option<AppState>,
    input: ImportCommit,
    identity: Option<Vec<u8>>,
    now: u64,
) -> (r: Result<(AppState, crate::subscription_management::SubscriptionSummary), SubscriptionOperationError>)
    ensures
        match import_result(
            match current { Some(c) => Some(c@), None => None },
            input,
            match identity { Some(b) => Some(b@), None => None },
            now,
        ) {
            Ok(t) => r matches Ok((s, summary)) && s@ == t && t.subscriptions.len() > 0
                && summary.deep_view() == crate::subscription_management::summary_of(t, t.subscriptions.last()),
            Err(e) => r matches Err(f) && f == e,
        },
{
    if let Some(was_empty) = input.expected_initially_empty {
        if was_empty != current.is_none() {
            return Err(SubscriptionOperationError::Busy);
        }
    }
    let mut candidate = match current {
        Some(c) => c,
        None => AppState::empty(),
    };
    proof {
        if current is None {
            assert(candidate@.subscriptions =~= Seq::<SubscriptionView>::empty());
            assert(candidate@.providers =~= Seq::<ProviderView>::empty());
            assert(candidate@.pools =~= Seq::<NodePoolView>::empty());
            assert(candidate@.nodes =~= Seq::<ProxyNodeView>::empty());
            assert(candidate@.routes =~= Seq::<crate::domain::RoutePolicyView>::empty());
            assert(candidate@ == empty_state());
        }
    }
    let bytes = match identity {
        Some(b) => b,
        None => {
            return Err(SubscriptionOperationError::IdentityFailed);
        },
    };
    let suffix = crate::subscription_management::identity_suffix(&bytes);
    let subscription_id = text_with_prefix("sub-", &suffix);
    let provider_id = text_with_prefix("provider-", &suffix);
    let pool_id = text_with_prefix("pool-", &suffix);
    let sub_used = match find_subscription(&candidate, subscription_id.as_str()) {
        Some(_) => true,
        None => false,
    };
    if sub_used || provider_id_used(&candidate.providers, &provider_id) || pool_id_used(&candidate.pools, &pool_id) {
        return Err(SubscriptionOperationError::IdentityFailed);
    }
    let name = input.name;
    let skipped = input.parsed.skipped.len() as u32;
    let ghost before = candidate@;
    let sub = Subscription {
        id: SubscriptionId(subscription_id.exact_clone()),
        name: name.exact_clone(),
        description: input.description,
        source: input.source,
        document: input.document,
        skipped_unsupported_nodes: skipped,
        last_success_at_ms: Some(now),
        last_attempt_at_ms: Some(now),
        http_metadata: input.http_metadata,
        remote_request: input.remote_request,
        update_policy: input.update_policy,
    };
    let ghost subv = sub@;
    candidate.subscriptions.push(sub);
    let provider = crate::domain::Provider {
        id: ProviderId(provider_id.exact_clone()),
        subscription_id: SubscriptionId(subscription_id),
        name: name.exact_clone(),
    };
    let ghost prv = provider.deep_view();
    candidate.providers.push(provider);
    let filter = crate::domain::NodeFilter {
        regions: Vec::new(),
        protocols: Vec::new(),
        include_keywords: Vec::new(),
        exclude_keywords: Vec::new(),
        include_node_ids: Vec::new(),
        exclude_node_ids: Vec::new(),
    };
    let ghost fv = filter.deep_view();
    proof {
        assert(fv.regions =~= Seq::<Seq<char>>::empty());
        assert(fv.protocols =~= Seq::<crate::domain::ProxyProtocol>::empty());
        assert(fv.include_keywords =~= Seq::<Seq<char>>::empty());
        assert(fv.exclude_keywords =~= Seq::<Seq<char>>::empty());
        assert(fv.include_node_ids =~= Seq::<Seq<char>>::empty());
        assert(fv.exclude_node_ids =~= Seq::<Seq<char>>::empty());
    }
    let source = crate::domain::PoolSource { provider_id: ProviderId(provider_id.exact_clone()), filter };
    let ghost sv = source.deep_view();
    let mut sources: Vec<crate::domain::PoolSource> = Vec::new();
    sources.push(source);
    proof {
        assert(sources.deep_view() =~= seq![sv]);
    }
    let pool = crate::domain::NodePool {
        id: crate::domain::PoolId(pool_id),
        name,
        kind: PoolKind::ImplicitProvider,
        sources,
        selection: crate::domain::SelectionPolicy::Manual { selected_node_id: None },
        enabled: true,
    };
    let ghost plv = pool.deep_view();
    candidate.pools.push(pool);
    proof {
        assert(candidate.subscriptions.deep_view() =~= before.subscriptions.push(subv));
        assert(candidate.providers.deep_view() =~= before.providers.push(prv));
        assert(candidate.pools.deep_view() =~= before.pools.push(plv));
        assert(plv == implicit_pool(plv.id, prv.id, prv.name));
    }
    proof {
        let (sid, pid, poolid) = import_ids(crate::text::hex_seq(bytes@));
        assert(subv.id == sid);
        assert(prv.id == pid);
        assert(plv.id == poolid);
    }
    let batch = ParseResult { format: input.parsed.format, nodes: input.parsed.nodes, skipped: Vec::new() };
    match apply_provider_replacement(&mut candidate, ProviderId(provider_id), batch) {
        Ok(_) => {},
        Err(e) => {
            return Err(map_replacement_error(e));
        },
    }
    match candidate.validate() {
        Ok(()) => {},
        Err(_) => {
            return Err(SubscriptionOperationError::ValidationFailed);
        },
    }
    let last = candidate.subscriptions.len() - 1;
    let summary = crate::subscription_management::summary_for(&candidate, last);
    Ok((candidate, summary))
}

/// An accepted import adds exactly one subscription, after the ones there
/// were, which all stay: it carries what the import asked for (its name,
/// description, source, request options and update policy as given) and the
/// import time as its last success and last attempt.
pub proof fn law_import_keeps_the_request(
    current: Option<AppStateView>,
    input: ImportCommit,
    identity: Option<Seq<u8>>,
    now: u64,
)
    requires
        import_result(current, input, identity, now) is Ok,
    ensures
        ({
            let base = match current {
                Some(c) => c,
                None => empty_state(),
            };
            let next = import_result(current, input, identity, now)->Ok_0;
            let sub = next.subscriptions.last();
            &&& next.subscriptions.len() == base.subscriptions.len() + 1
            &&& forall|k: int| 0 <= k < base.subscriptions.len() ==> #[trigger] next.subscriptions[k] == base.subscriptions[k]
            &&& sub.name == input.name@
            &&& sub.description == input.description@
            &&& sub.source == input.source.deep_view()
            &&& sub.remote_request == input.remote_request.deep_view()
            &&& sub.update_policy == input.update_policy
            &&& sub.last_success_at_ms == Some(now)
            &&& sub.last_attempt_at_ms == Some(now)
        }),
{
}

/// An accepted edit of a subscription, once committed, leaves the edited
/// subscription at its place with its identity, named as the edit asked
/// (trimmed) and described as the edit asked (trimmed); a name or a
/// description the edit does not carry stays as it was.
pub proof fn law_edit_takes_name_and_description(
    baseline: AppStateView,
    current: AppStateView,
    input: EditSubscription,
    url_accepted: bool,
    replacement: Option<FetchedContentView>,
)
    requires
        edit_plan(baseline, input, url_accepted) is Ok,
        edit_commit(
            current,
            baseline,
            edit_plan(baseline, input, url_accepted)->Ok_0.0,
            edit_plan(baseline, input, url_accepted)->Ok_0.1,
            replacement,
        ) is Ok,
    ensures
        ({
            let i = edit_plan(baseline, input, url_accepted)->Ok_0.0;
            let next = edit_commit(current, baseline, i, edit_plan(baseline, input, url_accepted)->Ok_0.1, replacement)->Ok_0.0;
            &&& 0 <= i < next.subscriptions.len()
            &&& next.subscriptions[i].id == input.id@
            &&& match input.name {
                Some(n) => next.subscriptions[i].name == trim_seq(n@),
                None => next.subscriptions[i].name == baseline.subscriptions[i].name,
            }
            &&& match input.description {
                Some(d) => next.subscriptions[i].description == trim_seq(d@),
                None => next.subscriptions[i].description == baseline.subscriptions[i].description,
            }
        }),
{
    let (i, edited, _) = edit_plan(baseline, input, url_accepted)->Ok_0;
    lemma_edit_plan_fields(baseline, input, url_accepted);
    lemma_edit_commit_keeps(current, baseline, i, edited, replacement);
}

/// The subscription an accepted edit plans is the one named, at its place,
/// with the name and description the edit asks for.
proof fn lemma_edit_plan_fields(baseline: AppStateView, input: EditSubscription, url_accepted: bool)
    requires
        edit_plan(baseline, input, url_accepted) is Ok,
    ensures
        ({
            let (i, edited, _) = edit_plan(baseline, input, url_accepted)->Ok_0;
            &&& 0 <= i < baseline.subscriptions.len()
            &&& baseline.subscriptions[i].id == input.id@
            &&& edited.id == input.id@
            &&& edited.name == edited_name(baseline.subscriptions[i].name, input.name)->Ok_0
            &&& edited.description == edited_description(baseline.subscriptions[i].description, input.description)->Ok_0
        }),
{
    let keys = subscription_keys(baseline.subscriptions);
    assert(first_index(keys, input.id@) is Some);
    lemma_first_index_some(keys, input.id@);
}

/// A committed edit leaves the edited subscription's identity, name and
/// description at its place.
#[verifier::rlimit(40)]
proof fn lemma_edit_commit_keeps(
    current: AppStateView,
    baseline: AppStateView,
    index: int,
    edited: SubscriptionView,
    replacement: Option<FetchedContentView>,
)
    requires
        0 <= index < baseline.subscriptions.len(),
        edit_commit(current, baseline, index, edited, replacement) is Ok,
    ensures
        ({
            let next = edit_commit(current, baseline, index, edited, replacement)->Ok_0.0;
            &&& index < next.subscriptions.len()
            &&& next.subscriptions[index].id == edited.id
            &&& next.subscriptions[index].name == edited.name
            &&& next.subscriptions[index].description == edited.description
        }),
{
}

} // verus!
