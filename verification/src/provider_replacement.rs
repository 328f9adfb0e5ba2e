//! Replacement of one provider's nodes as a transaction: the in-memory state
//! changes only after the candidate state validated and was saved.
use vstd::prelude::*;

use crate::domain::{AppState, AppStateView, ExactClone, ExactEq, ProviderId, ProxyNodeView};
use crate::storage::{StateStore, StateStoreError};
use crate::subscription::{
    has_duplicate_identity, normalize_nodes, normalized_nodes, NormalizationError, ParseResult,
    ProxyNodeDraftView,
};
use crate::validation::{valid_state, validation_error, StateValidationError};

verus! {

/// Why a replacement did not take place.
#[derive(Clone, Copy, Debug, PartialEq, Eq, Structural)]
pub enum ProviderReplacementError {
    /// The batch is empty or some entries of it were skipped.
    RejectedBatch,
    /// No provider has the given id.
    MissingProvider,
    Normalize(NormalizationError),
    State(StateValidationError),
    Store(StateStoreError),
}

impl ProviderReplacementError {
    /// Human-readable description that names no node data.
    pub fn message(&self) -> (r: &'static str)
        ensures
            r@ == match self {
                ProviderReplacementError::RejectedBatch => "provider replacement batch was rejected"@,
                ProviderReplacementError::MissingProvider => "provider replacement references a missing provider"@,
                ProviderReplacementError::Normalize(_) => "provider replacement could not normalize nodes"@,
                ProviderReplacementError::State(_) => "provider replacement candidate is invalid"@,
                ProviderReplacementError::Store(_) => "provider replacement could not be saved"@,
            },
    {
        match self {
            ProviderReplacementError::RejectedBatch => "provider replacement batch was rejected",
            ProviderReplacementError::MissingProvider => "provider replacement references a missing provider",
            ProviderReplacementError::Normalize(_) => "provider replacement could not normalize nodes",
            ProviderReplacementError::State(_) => "provider replacement candidate is invalid",
            ProviderReplacementError::Store(_) => "provider replacement could not be saved",
        }
    }
}

/// The nodes of `nodes` that belong to another provider than `provider`.
pub open spec fn nodes_outside(nodes: Seq<ProxyNodeView>, provider: Seq<char>) -> Seq<ProxyNodeView> {
    nodes.filter(|n: ProxyNodeView| n.provider_id != provider)
}

/// Some provider of the state has the id `provider`.
pub open spec fn has_provider(s: AppStateView, provider: Seq<char>) -> bool {
    exists|i: int| 0 <= i < s.providers.len() && #[trigger] s.providers[i].id == provider
}

/// `s` with the nodes of `provider` replaced by the normalized batch.
pub open spec fn with_replaced_nodes(
    s: AppStateView,
    provider: Seq<char>,
    batch: Seq<ProxyNodeDraftView>,
) -> AppStateView {
    AppStateView { nodes: nodes_outside(s.nodes, provider) + normalized_nodes(provider, batch), ..s }
}

/// The nodes of `nodes` that belong to `provider`, in their order.
pub open spec fn nodes_inside(nodes: Seq<ProxyNodeView>, provider: Seq<char>) -> Seq<ProxyNodeView> {
    nodes.filter(|n: ProxyNodeView| n.provider_id == provider)
}

/// What replacing the nodes of `provider` in `s` gives when nothing is
/// validated yet: the state with the new nodes and whether the provider's
/// nodes differ from before, or the first reason to refuse the batch.
pub open spec fn provider_replacement(
    s: AppStateView,
    provider: Seq<char>,
    batch: Seq<ProxyNodeDraftView>,
    skipped: nat,
) -> Result<(AppStateView, bool), ProviderReplacementError> {
    if batch.len() == 0 || skipped > 0 {
        Err(ProviderReplacementError::RejectedBatch)
    } else if has_duplicate_identity(batch) {
        Err(ProviderReplacementError::Normalize(NormalizationError::DuplicateNodeIdentity))
    } else if !has_provider(s, provider) {
        Err(ProviderReplacementError::MissingProvider)
    } else {
        Ok(
            (
                with_replaced_nodes(s, provider, batch),
                nodes_inside(s.nodes, provider) != normalized_nodes(provider, batch),
            ),
        )
    }
}

/// What replacing the nodes of `provider` in `s` by a parsed batch gives,
/// before anything is saved: the candidate state, or the first reason to
/// refuse it.
pub open spec fn replacement_outcome(
    s: AppStateView,
    provider: Seq<char>,
    batch: Seq<ProxyNodeDraftView>,
    skipped: nat,
) -> Result<AppStateView, ProviderReplacementError> {
    if batch.len() == 0 || skipped > 0 {
        Err(ProviderReplacementError::RejectedBatch)
    } else if has_duplicate_identity(batch) {
        Err(ProviderReplacementError::Normalize(NormalizationError::DuplicateNodeIdentity))
    } else if !has_provider(s, provider) {
        Err(ProviderReplacementError::MissingProvider)
    } else {
        let candidate = with_replaced_nodes(s, provider, batch);
        match validation_error(candidate) {
            Some(e) => Err(ProviderReplacementError::State(e)),
            None => Ok(candidate),
        }
    }
}

/// The answer to a replacement whose candidate the store answered with
/// `saved`.
pub open spec fn replacement_answer(saved: Result<(), StateStoreError>) -> Result<(), ProviderReplacementError> {
    match saved {
        Ok(()) => Ok(()),
        Err(e) => Err(ProviderReplacementError::Store(e)),
    }
}

/// Builds the state that replacing the nodes of `provider_id` in `state` by
/// the parsed batch gives, validated, or the first reason to refuse it.
pub fn replacement_candidate(state: &AppState, provider_id: &ProviderId, parsed: ParseResult) -> (r: Result<
    AppState,
    ProviderReplacementError,
>)
    ensures
        match r {
            Ok(candidate) => replacement_outcome(
                state@,
                provider_id@,
                parsed.nodes.deep_view(),
                parsed.skipped@.len(),
            ) == Ok::<AppStateView, ProviderReplacementError>(candidate@) && valid_state(candidate@),
            Err(e) => replacement_outcome(state@, provider_id@, parsed.nodes.deep_view(), parsed.skipped@.len())
                == Err::<AppStateView, ProviderReplacementError>(e),
        },
{
    if parsed.nodes.len() == 0 || parsed.skipped.len() > 0 {
        return Err(ProviderReplacementError::RejectedBatch);
    }
    let ghost batch = parsed.nodes.deep_view();
    let replacement = match normalize_nodes(provider_id.exact_clone(), parsed.nodes) {
        Ok(nodes) => nodes,
        Err(e) => {
            return Err(ProviderReplacementError::Normalize(e));
        },
    };
    if !state_has_provider(state, provider_id) {
        return Err(ProviderReplacementError::MissingProvider);
    }
    let mut candidate = state.exact_clone();
    let kept = retain_outside(&state.nodes, provider_id);
    let mut nodes = kept;
    let mut rest = replacement;
    let ghost kept_view = nodes.deep_view();
    let ghost rest_view = rest.deep_view();
    nodes.append(&mut rest);
    proof {
        assert(nodes.deep_view() =~= kept_view + rest_view);
    }
    candidate.nodes = nodes;
    proof {
        assert(candidate@ == with_replaced_nodes(state@, provider_id@, batch));
    }
    match candidate.validate() {
        Ok(()) => Ok(candidate),
        Err(e) => Err(ProviderReplacementError::State(e)),
    }
}

/// Holds the current state and replaces one provider's nodes at a time.
pub struct ProviderReplacementService<S> {
    store: S,
    state: AppState,
    /// Every state handed to the store, with the store's answer, in order.
    saves: Ghost<Seq<(AppStateView, Result<(), StateStoreError>)>>,
}

impl<S: StateStore> ProviderReplacementService<S> {
    /// The state the service holds.
    pub closed spec fn current(&self) -> AppStateView {
        self.state@
    }

    /// The states this service handed to the store, each with the store's
    /// answer, in the order of the saves.
    pub closed spec fn saves(&self) -> Seq<(AppStateView, Result<(), StateStoreError>)> {
        self.saves@
    }

    /// The service holds a valid state.
    pub closed spec fn wf(&self) -> bool {
        valid_state(self.state@)
    }

    /// Takes ownership of `state` if it is valid.
    pub fn new(store: S, state: AppState) -> (r: Result<Self, ProviderReplacementError>)
        ensures
            r is Ok <==> valid_state(state@),
            r matches Ok(service) ==> service.wf() && service.current() == state@ && service.saves().len() == 0,
            r matches Err(e) ==> validation_error(state@) matches Some(v) && e
                == ProviderReplacementError::State(v),
    {
        match state.validate() {
            Ok(()) => Ok(ProviderReplacementService { store, state, saves: Ghost(Seq::empty()) }),
            Err(e) => Err(ProviderReplacementError::State(e)),
        }
    }

    /// A copy of the current state.
    pub fn snapshot(&self) -> (r: AppState)
        ensures
            r@ == self.current(),
    {
        self.state.exact_clone()
    }

    /// Hands `state` to the store and records it with the store's answer.
    fn save_to_store(&mut self, state: &AppState) -> (r: Result<(), StateStoreError>)
        ensures
            final(self).current() == old(self).current(),
            final(self).saves() == old(self).saves().push((state@, r)),
    {
        let r = self.store.save(state);
        self.saves = Ghost(self.saves@.push((state@, r)));
        r
    }

    /// Finishes a replacement once the store answered `saved` for
    /// `candidate`: a saved candidate becomes current, a failed save is
    /// answered as a store error and changes nothing.
    fn finish_replacement(&mut self, candidate: AppState, saved: Result<(), StateStoreError>) -> (r: Result<
        (),
        ProviderReplacementError,
    >)
        requires
            old(self).wf(),
            valid_state(candidate@),
        ensures
            final(self).wf(),
            final(self).saves() == old(self).saves(),
            r == replacement_answer(saved),
            final(self).current() == (if saved is Ok { candidate@ } else { old(self).current() }),
    {
        match saved {
            Ok(()) => {
                self.state = candidate;
                Ok(())
            },
            Err(e) => Err(ProviderReplacementError::Store(e)),
        }
    }

    /// Replaces the nodes of `provider_id` by the parsed batch. The candidate
    /// state is handed to the store, and becomes current only once the store
    /// saved it; a refused batch is never handed to the store, and on every
    /// error the current state stays as it was.
    pub fn replace(&mut self, provider_id: ProviderId, parsed: ParseResult) -> (r: Result<
        (),
        ProviderReplacementError,
    >)
        requires
            old(self).wf(),
        ensures
            final(self).wf(),
            match replacement_outcome(
                old(self).current(),
                provider_id@,
                parsed.nodes.deep_view(),
                parsed.skipped@.len(),
            ) {
                Err(e) => r == Err::<(), ProviderReplacementError>(e) && final(self).current()
                    == old(self).current() && final(self).saves() == old(self).saves(),
                Ok(candidate) => exists|saved: Result<(), StateStoreError>| #![trigger replacement_answer(saved)]
                    final(self).saves() == old(self).saves().push((candidate, saved))
                        && r == replacement_answer(saved)
                        && final(self).current() == (if saved is Ok { candidate } else { old(self).current() }),
            },
    {
        let candidate = match replacement_candidate(&self.state, &provider_id, parsed) {
            Ok(c) => c,
            Err(e) => {
                return Err(e);
            },
        };
        let saved = self.save_to_store(&candidate);
        self.finish_replacement(candidate, saved)
    }
}

/// Copies of the nodes that belong to another provider, in their order.
fn retain_outside(nodes: &Vec<crate::domain::ProxyNode>, provider_id: &ProviderId) -> (r: Vec<
    crate::domain::ProxyNode,
>)
    ensures
        r.deep_view() == nodes_outside(nodes.deep_view(), provider_id@),
{
    let ghost all = nodes.deep_view();
    let mut r: Vec<crate::domain::ProxyNode> = Vec::new();
    let mut i: usize = 0;
    while i < nodes.len()
        invariant
            i <= nodes.len(),
            all == nodes.deep_view(),
            r.deep_view() =~= nodes_outside(all.take(i as int), provider_id@),
        decreases nodes.len() - i,
    {
        proof {
            reveal(Seq::filter);
            assert(all.take(i + 1).drop_last() =~= all.take(i as int));
            assert(all.take(i + 1).last() == all[i as int]);
        }
        if !nodes[i].provider_id.same(provider_id) {
            let ghost before = r.deep_view();
            let n = nodes[i].exact_clone();
            r.push(n);
            proof {
                assert(r.deep_view() =~= before.push(n.deep_view()));
            }
        }
        i = i + 1;
    }
    proof {
        assert(all.take(nodes.len() as int) =~= all);
    }
    r
}


/// Copies of the nodes that belong to the provider, in their order.
fn retain_inside(nodes: &Vec<crate::domain::ProxyNode>, provider_id: &ProviderId) -> (r: Vec<
    crate::domain::ProxyNode,
>)
    ensures
        r.deep_view() == nodes_inside(nodes.deep_view(), provider_id@),
{
    let ghost all = nodes.deep_view();
    let mut r: Vec<crate::domain::ProxyNode> = Vec::new();
    let mut i: usize = 0;
    while i < nodes.len()
        invariant
            i <= nodes.len(),
            all == nodes.deep_view(),
            r.deep_view() =~= nodes_inside(all.take(i as int), provider_id@),
        decreases nodes.len() - i,
    {
        proof {
            reveal(Seq::filter);
            assert(all.take(i + 1).drop_last() =~= all.take(i as int));
            assert(all.take(i + 1).last() == all[i as int]);
        }
        if nodes[i].provider_id.same(provider_id) {
            let ghost before = r.deep_view();
            let n = nodes[i].exact_clone();
            r.push(n);
            proof {
                assert(r.deep_view() =~= before.push(n.deep_view()));
            }
        }
        i = i + 1;
    }
    proof {
        assert(all.take(nodes.len() as int) =~= all);
    }
    r
}

/// Whether some provider of `state` has the id.
fn state_has_provider(state: &AppState, provider_id: &ProviderId) -> (r: bool)
    ensures
        r == has_provider(state@, provider_id@),
{
    let providers = &state.providers;
    let mut i: usize = 0;
    while i < providers.len()
        invariant
            i <= providers.len(),
            providers.deep_view() == state@.providers,
            forall|k: int| 0 <= k < i ==> state@.providers[k].id != provider_id@,
        decreases providers.len() - i,
    {
        if providers[i].id.same(provider_id) {
            proof {
                assert(state@.providers[i as int].id == provider_id@);
            }
            return true;
        }
        i = i + 1;
    }
    false
}

/// Replaces the nodes of `provider_id` in `state` by the parsed batch and
/// tells whether the provider's nodes changed. Nothing is validated or
/// saved here; on an error `state` is left as it was.
pub fn apply_provider_replacement(state: &mut AppState, provider_id: ProviderId, parsed: ParseResult) -> (r: Result<
    bool,
    ProviderReplacementError,
>)
    ensures
        match provider_replacement(old(state)@, provider_id@, parsed.nodes.deep_view(), parsed.skipped@.len()) {
            Err(e) => r == Err::<bool, ProviderReplacementError>(e) && final(state)@ == old(state)@,
            Ok((next, changed)) => r == Ok::<bool, ProviderReplacementError>(changed) && final(state)@ == next,
        },
{
    if parsed.nodes.len() == 0 || parsed.skipped.len() > 0 {
        return Err(ProviderReplacementError::RejectedBatch);
    }
    let ghost batch = parsed.nodes.deep_view();
    let replacement = match normalize_nodes(provider_id.exact_clone(), parsed.nodes) {
        Ok(nodes) => nodes,
        Err(e) => {
            return Err(ProviderReplacementError::Normalize(e));
        },
    };
    if !state_has_provider(state, &provider_id) {
        return Err(ProviderReplacementError::MissingProvider);
    }
    let previous = retain_inside(&state.nodes, &provider_id);
    let changed = !previous.same(&replacement);
    let kept = retain_outside(&state.nodes, &provider_id);
    let mut nodes = kept;
    let mut rest = replacement;
    let ghost kept_view = nodes.deep_view();
    let ghost rest_view = rest.deep_view();
    nodes.append(&mut rest);
    proof {
        assert(nodes.deep_view() =~= kept_view + rest_view);
    }
    state.nodes = nodes;
    Ok(changed)
}

} // verus!

