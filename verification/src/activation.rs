//! Deciding an activation of a subscription against the stored state: the
//! checks, the candidate state, its runtime projection and whether the
//! running core already runs it.
use vstd::prelude::*;

use crate::domain::{AppState, AppStateView, ExactClone, ExactEq, SubscriptionId, MAX_SAFE_INTEGER};
use crate::managed_runtime::{
    already_current, map_projection_error, projection_activation_error,
    should_return_already_current, ActivationError,
};
use crate::observability::RuntimeObservationSnapshot;
use crate::proxy_routing::first_index;
use crate::selected_subscription::{
    project_selected_runtime, projection_error, projection_of, SelectedRuntimeProjection,
};
use crate::subscription_management::{summaries, summary_for, summary_of, SubscriptionSummary};
use crate::validation::valid_state;
use crate::document_apply::{
    activation_runtime_failure, lemma_failure_shown, lemma_phase_shown, runs_switch, shows_switch, switch_phase,
};
use crate::managed_runtime::{activation_error, observed_of, ActivationResult, ActivationResultView};
use crate::observability::{
    InMemoryRuntimeObservations, ManagedRuntimeFailure, SubscriptionSwitchErrorCode, SubscriptionSwitchStatus,
    SubscriptionSwitchView,
};
use crate::sidecar::{GeneratedConfig, SidecarError, SidecarLifecycle, SidecarPort, SidecarRuntime};
use crate::subscription_update::{subscription_keys, update_id_ok};

verus! {

/// What an activation will do once its checks passed.
pub struct ActivationPlan {
    /// The state to persist: `id` selected, the generation advanced when the
    /// selection changes.
    pub candidate: AppState,
    pub projection: SelectedRuntimeProjection,
    pub subscription: SubscriptionSummary,
    pub generation: u64,
    /// The runtime already runs this subscription and generation.
    pub already_current: bool,
    /// A forced activation of the subscription that was already selected.
    pub reactivation: bool,
}

/// The first reason to refuse activating `id` in `expected` before any
/// projection: an invalid id, a routing apply whose desired subscription or
/// generation moved, or an unknown subscription.
pub open spec fn activation_refusal(expected: AppStateView, id: Seq<char>, expected_generation: Option<u64>) -> Option<ActivationError> {
    if !update_id_ok(id) {
        Some(ActivationError::InvalidInput)
    } else if expected_generation matches Some(g) && (expected.active_configuration_generation != g
        || expected.active_subscription_id != Some(id)) {
        Some(ActivationError::StateChanged)
    } else if !subscription_keys(expected.subscriptions).contains(id) {
        Some(ActivationError::NotFound)
    } else if expected.active_subscription_id != Some(id) && expected.active_configuration_generation + 1
        > MAX_SAFE_INTEGER {
        Some(ActivationError::ConfigurationFailed)
    } else {
        None
    }
}

/// The state an activation of `id` persists: the selection moves to `id`
/// and advances the generation, or stays as it is.
pub open spec fn activation_candidate(expected: AppStateView, id: Seq<char>) -> AppStateView {
    if expected.active_subscription_id == Some(id) {
        expected
    } else {
        AppStateView {
            active_subscription_id: Some(id),
            active_configuration_generation: (expected.active_configuration_generation + 1) as u64,
            ..expected
        }
    }
}

/// Re-applying the subscription that is already selected leaves the
/// stored state as it is: the candidate is the state read, so nothing is
/// written and no content change is reported.
pub proof fn law_reapplying_the_selection_changes_nothing(expected: AppStateView, id: Seq<char>)
    requires
        expected.active_subscription_id == Some(id),
    ensures
        activation_candidate(expected, id) == expected,
{
}

/// Decides an activation of `id` against the stored state `expected` and
/// the current observation. A routing apply passes the generation it
/// expects to find.
pub fn plan_activation(
    expected: &AppState,
    id: &str,
    force: bool,
    expected_generation: Option<u64>,
    observed: &RuntimeObservationSnapshot,
) -> (r: Result<ActivationPlan, ActivationError>)
    ensures
        match activation_refusal(expected@, id@, expected_generation) {
            Some(e) => r == Err::<ActivationPlan, ActivationError>(e),
            None => {
                let c = activation_candidate(expected@, id@);
                match projection_error(c) {
                    Some(pe) => r == Err::<ActivationPlan, ActivationError>(projection_activation_error(pe)),
                    None => r matches Ok(plan) && {
                        &&& plan.candidate@ == c
                        &&& projection_of(c, id@, plan.projection)
                        &&& plan.generation == c.active_configuration_generation
                        &&& plan.subscription.deep_view() == summary_of(
                            c,
                            c.subscriptions[first_index(subscription_keys(c.subscriptions), id@)->0],
                        )
                        &&& plan.already_current == already_current(
                            force,
                            observed.sidecar_lifecycle,
                            observed.applied_subscription_id.deep_view(),
                            observed.applied_configuration_generation,
                            id@,
                            c.active_configuration_generation,
                        )
                        &&& plan.reactivation == (force && expected@.active_subscription_id == Some(id@))
                    },
                }
            },
        },
{
    if crate::subscription_update::check_update_id(id).is_err() {
        return Err(ActivationError::InvalidInput);
    }
    let selected = match &expected.active_subscription_id {
        Some(active) => crate::text::str_eq(active.0.as_str(), id),
        None => false,
    };
    if let Some(g) = expected_generation {
        if expected.active_configuration_generation != g || !selected {
            return Err(ActivationError::StateChanged);
        }
    }
    let index = match crate::subscription_update::find_subscription(expected, id) {
        Some(i) => i,
        None => {
            return Err(ActivationError::NotFound);
        },
    };
    let mut candidate = expected.exact_clone();
    if !selected {
        if candidate.active_configuration_generation >= MAX_SAFE_INTEGER {
            return Err(ActivationError::ConfigurationFailed);
        }
        candidate.active_subscription_id = Some(SubscriptionId(id.to_owned()));
        candidate.active_configuration_generation = candidate.active_configuration_generation + 1;
    }
    proof {
        assert(candidate@ == activation_candidate(expected@, id@));
    }
    let projection = match project_selected_runtime(&candidate) {
        Ok(p) => p,
        Err(e) => {
            return Err(map_projection_error(e));
        },
    };
    let generation = candidate.active_configuration_generation;
    let subscription = summary_for(&candidate, index);
    let already = should_return_already_current(force, observed, id, generation);
    Ok(ActivationPlan { candidate, projection, subscription, generation, already_current: already, reactivation: force && selected })
}

/// The listing entry of subscription `id` in a valid state.
pub fn selected_summary(state: &AppState, id: &str) -> (r: Result<SubscriptionSummary, ActivationError>)
    ensures
        !valid_state(state@) ==> r == Err::<SubscriptionSummary, ActivationError>(ActivationError::ConfigurationFailed),
        valid_state(state@) ==> match first_index(subscription_keys(state@.subscriptions), id@) {
            None => r == Err::<SubscriptionSummary, ActivationError>(ActivationError::NotFound),
            Some(i) => r matches Ok(s) && s.deep_view() == summary_of(state@, state@.subscriptions[i]),
        },
{
    if summaries(state).is_err() {
        return Err(ActivationError::ConfigurationFailed);
    }
    match crate::subscription_update::find_subscription(state, id) {
        Some(i) => Ok(summary_for(state, i)),
        None => Err(ActivationError::NotFound),
    }
}

/// What an activation does with the stored state once its candidate
/// configuration is prepared.
#[derive(Clone, Copy, Debug, PartialEq, Eq, Structural)]
pub enum PersistStep {
    /// The activation was cancelled meanwhile; nothing is written.
    Cancelled,
    /// The candidate differs from what was read and must be saved.
    Save,
    /// The candidate is what is stored; nothing to write.
    Keep,
}

/// Decides the persistence step of an activation from the state read again
/// under the state lock: another writer came in between (busy), the
/// request was cancelled, or the candidate is saved unless it is unchanged.
pub fn persist_step(
    current: &AppState,
    expected: &AppState,
    candidate: &AppState,
    cancelled: bool,
) -> (r: Result<PersistStep, ActivationError>)
    ensures
        current@ != expected@ ==> r == Err::<PersistStep, ActivationError>(ActivationError::Busy),
        current@ == expected@ && cancelled ==> r == Ok::<PersistStep, ActivationError>(PersistStep::Cancelled),
        current@ == expected@ && !cancelled ==> r == Ok::<PersistStep, ActivationError>(
            if candidate@ != expected@ { PersistStep::Save } else { PersistStep::Keep },
        ),
{
    if !current.same(expected) {
        return Err(ActivationError::Busy);
    }
    if cancelled {
        return Ok(PersistStep::Cancelled);
    }
    if candidate.same(expected) {
        Ok(PersistStep::Keep)
    } else {
        Ok(PersistStep::Save)
    }
}

/// The switch error a failed persistence of an activation reports.
pub open spec fn persist_switch_code(e: ActivationError) -> crate::observability::SubscriptionSwitchErrorCode {
    match e {
        ActivationError::Busy => crate::observability::SubscriptionSwitchErrorCode::Busy,
        ActivationError::SaveFailed => crate::observability::SubscriptionSwitchErrorCode::SaveFailed,
        _ => crate::observability::SubscriptionSwitchErrorCode::StateUnavailable,
    }
}

/// The switch error a failed persistence of an activation reports.
pub fn persist_error_code(error: ActivationError) -> (r: crate::observability::SubscriptionSwitchErrorCode)
    ensures
        r == persist_switch_code(error),
{
    match error {
        ActivationError::Busy => crate::observability::SubscriptionSwitchErrorCode::Busy,
        ActivationError::SaveFailed => crate::observability::SubscriptionSwitchErrorCode::SaveFailed,
        _ => crate::observability::SubscriptionSwitchErrorCode::StateUnavailable,
    }
}

/// A fresh operation id: 16 random bytes as 32 lowercase hexadecimal
/// digits, or `None` when the system has no randomness to give.
pub fn new_operation_id() -> (r: Option<String>)
    ensures
        r matches Some(id) ==> exists|bytes: Seq<u8>| bytes.len() == 16 && id@ == crate::text::hex_seq(bytes),
{
    let bytes = match crate::entropy::random_bytes16() {
        Some(b) => b,
        None => {
            return None;
        },
    };
    let mut id = String::new();
    crate::text::push_hex(&mut id, &bytes);
    proof {
        assert(id@ =~= crate::text::hex_seq(bytes@));
    }
    Some(id)
}

/// Answers an activation for which no runtime could be created: its
/// switch fails as a start failure.
pub fn activation_without_runtime(observations: &mut InMemoryRuntimeObservations, operation_id: &str) -> (r: ActivationResult)
    requires
        old(observations).wf(),
    ensures
        final(observations).wf(),
        r.deep_view() == (ActivationResultView::Error { operation_id: Some(operation_id@), error: ActivationError::StartFailed }),
        runs_switch(*old(observations), operation_id@) ==> shows_switch(
            *final(observations),
            SubscriptionSwitchView {
                operation_id: operation_id@,
                status: SubscriptionSwitchStatus::Failed,
                error_code: Some(SubscriptionSwitchErrorCode::StartFailed),
            },
        ),
{
    let ghost before = *observations;
    switch_phase(observations, operation_id, SubscriptionSwitchStatus::Failed, Some(SubscriptionSwitchErrorCode::StartFailed));
    proof {
        if runs_switch(before, operation_id@) {
            lemma_phase_shown(
                before,
                *observations,
                SubscriptionSwitchView {
                    operation_id: operation_id@,
                    status: SubscriptionSwitchStatus::Failed,
                    error_code: Some(SubscriptionSwitchErrorCode::StartFailed),
                },
            );
        }
    }
    activation_error(operation_id, ActivationError::StartFailed)
}

/// The phase a definite routing-apply failure ends its switch with.
pub open spec fn terminal_switch(operation_id: Seq<char>, failure: crate::managed_runtime::RoutingApplyTerminalFailure) -> SubscriptionSwitchView {
    match failure {
        crate::managed_runtime::RoutingApplyTerminalFailure::ConfigurationFailed => SubscriptionSwitchView {
            operation_id,
            status: SubscriptionSwitchStatus::Failed,
            error_code: Some(SubscriptionSwitchErrorCode::ConfigurationFailed),
        },
        crate::managed_runtime::RoutingApplyTerminalFailure::StateChanged => SubscriptionSwitchView {
            operation_id,
            status: SubscriptionSwitchStatus::Cancelled,
            error_code: Some(SubscriptionSwitchErrorCode::Cancelled),
        },
    }
}

/// Ends the switch of a routing apply refused before it reached the
/// runtime: the operation is queued first (a refusal can come before the
/// queued phase) so that its terminal phase is shown.
pub fn record_routing_apply_failure(
    observations: &mut InMemoryRuntimeObservations,
    operation_id: &str,
    failure: crate::managed_runtime::RoutingApplyTerminalFailure,
)
    requires
        old(observations).wf(),
    ensures
        final(observations).wf(),
        shows_switch(*final(observations), terminal_switch(operation_id@, failure)),
{
    switch_phase(observations, operation_id, SubscriptionSwitchStatus::Queued, None);
    let ghost mid = *observations;
    proof {
        lemma_phase_shown(
            *old(observations),
            mid,
            SubscriptionSwitchView { operation_id: operation_id@, status: SubscriptionSwitchStatus::Queued, error_code: None },
        );
    }
    let (status, code) = match failure {
        crate::managed_runtime::RoutingApplyTerminalFailure::ConfigurationFailed => (
            SubscriptionSwitchStatus::Failed,
            SubscriptionSwitchErrorCode::ConfigurationFailed,
        ),
        crate::managed_runtime::RoutingApplyTerminalFailure::StateChanged => (
            SubscriptionSwitchStatus::Cancelled,
            SubscriptionSwitchErrorCode::Cancelled,
        ),
    };
    switch_phase(observations, operation_id, status, Some(code));
    proof {
        lemma_phase_shown(mid, *observations, terminal_switch(operation_id@, failure));
    }
}

/// The error of an activation whose candidate the runtime would not
/// prepare: a runtime requiring recovery says so, anything else is a
/// configuration failure.
pub open spec fn activation_prepare_refusal(lifecycle: SidecarLifecycle) -> ActivationError {
    if lifecycle == SidecarLifecycle::RecoveryRequired {
        ActivationError::RecoveryRequired
    } else {
        ActivationError::ConfigurationFailed
    }
}

/// The switch error of an activation whose candidate the runtime would not
/// prepare.
pub open spec fn activation_prepare_code(lifecycle: SidecarLifecycle) -> SubscriptionSwitchErrorCode {
    if lifecycle == SidecarLifecycle::RecoveryRequired {
        SubscriptionSwitchErrorCode::RecoveryRequired
    } else {
        SubscriptionSwitchErrorCode::ConfigurationFailed
    }
}

/// Starts an activation on the runtime: records the checking phase and
/// prepares the candidate to replace the running configuration. A refusal
/// ends the switch with [`activation_prepare_refusal`]; otherwise the
/// prepared phase is recorded and nothing is answered yet.
pub fn begin_activation<P: SidecarPort>(
    runtime: &mut SidecarRuntime<P>,
    observations: &mut InMemoryRuntimeObservations,
    operation_id: &str,
    config: GeneratedConfig,
) -> (r: Option<ActivationResult>)
    requires
        old(runtime).wf(),
        old(observations).wf(),
    ensures
        final(runtime).wf(),
        final(observations).wf(),
        final(runtime).lifecycle_view() == old(runtime).lifecycle_view(),
        final(runtime).active_view() == old(runtime).active_view(),
        final(runtime).mixed_port_view() == old(runtime).mixed_port_view(),
        old(runtime).lifecycle_view() == SidecarLifecycle::RecoveryRequired ==> r is Some,
        r is None ==> final(runtime).prepared_view() == Some(config.bytes_view()) && (runs_switch(
            *old(observations),
            operation_id@,
        ) ==> shows_switch(
            *final(observations),
            SubscriptionSwitchView { operation_id: operation_id@, status: SubscriptionSwitchStatus::Prepared, error_code: None },
        )),
        r matches Some(res) ==> final(runtime).prepared_view() is None && res.deep_view() == (ActivationResultView::Error {
            operation_id: Some(operation_id@),
            error: activation_prepare_refusal(old(runtime).lifecycle_view()),
        }) && (runs_switch(*old(observations), operation_id@) ==> shows_switch(
            *final(observations),
            SubscriptionSwitchView {
                operation_id: operation_id@,
                status: SubscriptionSwitchStatus::Failed,
                error_code: Some(activation_prepare_code(old(runtime).lifecycle_view())),
            },
        )),
{
    let ghost before = *observations;
    switch_phase(observations, operation_id, SubscriptionSwitchStatus::Checking, None);
    let ghost mid = *observations;
    proof {
        if runs_switch(before, operation_id@) {
            lemma_phase_shown(
                before,
                mid,
                SubscriptionSwitchView { operation_id: operation_id@, status: SubscriptionSwitchStatus::Checking, error_code: None },
            );
        }
    }
    match runtime.prepare_replacement(config) {
        Err(error) => {
            let r = activation_runtime_failure(runtime, observations, operation_id, error);
            proof {
                if runs_switch(before, operation_id@) {
                    let lifecycle = observed_of(runtime.lifecycle_view());
                    let (wire, code, log) = crate::document_apply::activation_failure_of(error, lifecycle);
                    lemma_failure_shown(
                        mid,
                        *observations,
                        lifecycle,
                        log,
                        SubscriptionSwitchView {
                            operation_id: operation_id@,
                            status: SubscriptionSwitchStatus::Failed,
                            error_code: Some(code),
                        },
                    );
                }
            }
            Some(r)
        },
        Ok(()) => {
            switch_phase(observations, operation_id, SubscriptionSwitchStatus::Prepared, None);
            proof {
                if runs_switch(before, operation_id@) {
                    lemma_phase_shown(
                        mid,
                        *observations,
                        SubscriptionSwitchView {
                            operation_id: operation_id@,
                            status: SubscriptionSwitchStatus::Prepared,
                            error_code: None,
                        },
                    );
                }
            }
            None
        },
    }
}

/// The phase that ends an abandoned activation: a cancelled one, or one
/// whose persistence failed with `failure`.
pub open spec fn abandoned_switch(operation_id: Seq<char>, failure: Option<ActivationError>) -> SubscriptionSwitchView {
    match failure {
        None => SubscriptionSwitchView {
            operation_id,
            status: SubscriptionSwitchStatus::Cancelled,
            error_code: Some(SubscriptionSwitchErrorCode::Cancelled),
        },
        Some(e) => SubscriptionSwitchView {
            operation_id,
            status: SubscriptionSwitchStatus::Failed,
            error_code: Some(persist_switch_code(e)),
        },
    }
}

/// Gives up a prepared activation before anything was saved: the prepared
/// candidate is dropped; a cancelled activation answers pending, and one
/// whose persistence failed records a configuration failure and answers
/// with the error. If the running configuration cannot be restored the
/// runtime requires recovery, which is answered instead.
pub fn abandon_activation<P: SidecarPort>(
    runtime: &mut SidecarRuntime<P>,
    observations: &mut InMemoryRuntimeObservations,
    operation_id: &str,
    failure: Option<ActivationError>,
) -> (r: ActivationResult)
    requires
        old(runtime).wf(),
        old(observations).wf(),
    ensures
        final(runtime).wf(),
        final(observations).wf(),
        final(runtime).prepared_view() is None,
        final(runtime).mixed_port_view() == old(runtime).mixed_port_view(),
        (final(runtime).lifecycle_view() == old(runtime).lifecycle_view() && final(runtime).active_view()
            == old(runtime).active_view() && r.deep_view() == match failure {
            None => ActivationResultView::Pending { operation_id: operation_id@ },
            Some(e) => ActivationResultView::Error { operation_id: Some(operation_id@), error: e },
        } && (runs_switch(*old(observations), operation_id@) ==> shows_switch(
            *final(observations),
            abandoned_switch(operation_id@, failure),
        ))) || (final(runtime).lifecycle_view() == SidecarLifecycle::RecoveryRequired && r.deep_view()
            == (ActivationResultView::Error { operation_id: Some(operation_id@), error: ActivationError::RecoveryRequired })
            && (runs_switch(*old(observations), operation_id@) ==> shows_switch(
            *final(observations),
            SubscriptionSwitchView {
                operation_id: operation_id@,
                status: SubscriptionSwitchStatus::Failed,
                error_code: Some(SubscriptionSwitchErrorCode::RecoveryRequired),
            },
        ))),
{
    let ghost before = *observations;
    if let Err(error) = runtime.cancel_prepared() {
        let r = activation_runtime_failure(runtime, observations, operation_id, error);
        proof {
            if runs_switch(before, operation_id@) {
                lemma_failure_shown(
                    before,
                    *observations,
                    crate::observability::ObservedSidecarLifecycle::RecoveryRequired,
                    ManagedRuntimeFailure::Stop,
                    SubscriptionSwitchView {
                        operation_id: operation_id@,
                        status: SubscriptionSwitchStatus::Failed,
                        error_code: Some(SubscriptionSwitchErrorCode::RecoveryRequired),
                    },
                );
            }
        }
        return r;
    }
    match failure {
        None => {
            switch_phase(
                observations,
                operation_id,
                SubscriptionSwitchStatus::Cancelled,
                Some(SubscriptionSwitchErrorCode::Cancelled),
            );
            proof {
                if runs_switch(before, operation_id@) {
                    lemma_phase_shown(before, *observations, abandoned_switch(operation_id@, failure));
                }
            }
            ActivationResult::Pending { operation_id: operation_id.to_owned() }
        },
        Some(error) => {
            observations.record_managed_failure(None, ManagedRuntimeFailure::Configuration);
            let ghost mid = *observations;
            let code = persist_error_code(error);
            switch_phase(observations, operation_id, SubscriptionSwitchStatus::Failed, Some(code));
            proof {
                if runs_switch(before, operation_id@) {
                    assert(runs_switch(mid, operation_id@));
                    lemma_phase_shown(mid, *observations, abandoned_switch(operation_id@, failure));
                }
            }
            activation_error(operation_id, error)
        },
    }
}

/// The answer of an activation whose candidate now runs.
pub open spec fn activated(
    operation_id: Seq<char>,
    subscription: crate::subscription_management::SubscriptionSummaryView,
    generation: u64,
    reactivation: bool,
) -> ActivationResultView {
    if reactivation {
        ActivationResultView::Reactivated { operation_id, subscription, generation }
    } else {
        ActivationResultView::Activated { operation_id, subscription, generation }
    }
}

/// Completes a saved activation: records the persisted and applying
/// phases, replaces the running child by the prepared candidate and, on
/// success, records the subscription ready at `generation`. A runtime
/// failure is reported as [`activation_runtime_failure`] does.
pub fn finish_activation<P: SidecarPort>(
    runtime: &mut SidecarRuntime<P>,
    observations: &mut InMemoryRuntimeObservations,
    operation_id: &str,
    subscription: SubscriptionSummary,
    selected_subscription_id: String,
    generation: u64,
    reactivation: bool,
) -> (r: ActivationResult)
    requires
        old(runtime).wf(),
        old(observations).wf(),
    ensures
        final(runtime).wf(),
        final(observations).wf(),
        final(runtime).prepared_view() is None,
        (r is Activated || r is Reactivated) ==> final(runtime).lifecycle_view() == SidecarLifecycle::Ready
            && final(runtime).active_view() == old(runtime).prepared_view() && r.deep_view() == activated(
            operation_id@,
            subscription.deep_view(),
            generation,
            reactivation,
        ) && final(observations).current().applied_subscription_id == Some(selected_subscription_id@)
            && final(observations).current().applied_configuration_generation == Some(generation)
            && shows_switch(
            *final(observations),
            SubscriptionSwitchView { operation_id: operation_id@, status: SubscriptionSwitchStatus::Ready, error_code: None },
        ),
        old(runtime).prepared_view() is Some && old(runtime).lifecycle_view() != SidecarLifecycle::RecoveryRequired
            ==> ((r is Activated || r is Reactivated) <==> final(runtime).lifecycle_view() == SidecarLifecycle::Ready),
        !(r is Activated || r is Reactivated) ==> exists|e: SidecarError| #![auto]
            r.deep_view() == (ActivationResultView::Error {
                operation_id: Some(operation_id@),
                error: crate::document_apply::activation_failure_of(e, observed_of(final(runtime).lifecycle_view())).0,
            }),
{
    switch_phase(observations, operation_id, SubscriptionSwitchStatus::Persisted, None);
    switch_phase(observations, operation_id, SubscriptionSwitchStatus::Applying, None);
    match runtime.commit_prepared() {
        Ok(()) => {
            let available = runtime.mixed_port().is_some();
            observations.record_subscription_ready(
                selected_subscription_id,
                generation,
                Some(operation_id.to_owned()),
                available,
            );
            if reactivation {
                ActivationResult::Reactivated { operation_id: operation_id.to_owned(), subscription, generation }
            } else {
                ActivationResult::Activated { operation_id: operation_id.to_owned(), subscription, generation }
            }
        },
        Err(error) => activation_runtime_failure(runtime, observations, operation_id, error),
    }
}

/// What the worker's reply channel gave an activation waiting for it.
pub enum WorkerReply {
    /// The worker answered.
    Answered(ActivationResult),
    /// The worker did not answer in time; the activation goes on there.
    TimedOut,
    /// The worker is gone.
    Gone,
}

/// The answer to an activation handed to the worker: what the worker
/// answered; `Pending` where it did not answer in time (the caller then asks
/// the worker to cancel); a runtime that requires recovery where the worker
/// is gone.
pub fn worker_answer(reply: WorkerReply, operation_id: &str) -> (r: ActivationResult)
    ensures
        match reply {
            WorkerReply::Answered(a) => r == a,
            WorkerReply::TimedOut => r.deep_view() == (ActivationResultView::Pending { operation_id: operation_id@ }),
            WorkerReply::Gone => r.deep_view() == (ActivationResultView::Error {
                operation_id: Some(operation_id@),
                error: ActivationError::RecoveryRequired,
            }),
        },
{
    match reply {
        WorkerReply::Answered(a) => a,
        WorkerReply::TimedOut => ActivationResult::Pending { operation_id: operation_id.to_owned() },
        WorkerReply::Gone => activation_error(operation_id, ActivationError::RecoveryRequired),
    }
}

/// The terminal record of a refused routing apply of subscription `id` at
/// `expected_generation`: the selection and generation read from the state,
/// where it was read before the refusal (`observed`), else those the apply
/// asked for; `None` where the refusal is not terminal for the apply.
pub fn routing_apply_terminal(
    operation_id: &str,
    error: ActivationError,
    observation_started: bool,
    observed: Option<(Option<String>, u64)>,
    id: &str,
    expected_generation: u64,
) -> (r: Option<crate::managed_runtime::RoutingApplyTerminal>)
    ensures
        match crate::managed_runtime::terminal_failure_of(error, observation_started) {
            None => r is None,
            Some(failure) => r matches Some(t) && t.operation_id@ == operation_id@ && t.failure == failure && match observed {
                Some((active, generation)) => t.active_subscription_id.deep_view() == active.deep_view()
                    && t.desired_generation == generation,
                None => t.active_subscription_id.deep_view() == Some(id@) && t.desired_generation == expected_generation,
            },
        },
{
    let failure = match crate::managed_runtime::routing_apply_terminal_failure(error, observation_started) {
        Some(f) => f,
        None => {
            return None;
        },
    };
    let (active_subscription_id, desired_generation) = match observed {
        Some((active, generation)) => (active, generation),
        None => (Some(id.to_owned()), expected_generation),
    };
    Some(
        crate::managed_runtime::RoutingApplyTerminal {
            operation_id: operation_id.to_owned(),
            active_subscription_id,
            desired_generation,
            failure,
        },
    )
}

} // verus!
