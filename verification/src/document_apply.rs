//! Saving a subscription's document and applying it to the running core:
//! when an apply is needed, how failures are reported, and what the
//! running configuration reads back.
use vstd::prelude::*;

use crate::managed_runtime::{activation_error, observed_lifecycle, ActivationError, ActivationResult, ActivationResultView};
use crate::observability::{
    at_time, change_managed_failure, published, switch_accepted, InMemoryRuntimeObservations,
    ManagedRuntimeFailure, ObservedSidecarLifecycle, RuntimeObservationSnapshot,
    RuntimeObservationSnapshotView, SubscriptionSwitch, SubscriptionSwitchErrorCode,
    SubscriptionSwitchStatus, SubscriptionSwitchView,
};
use crate::sidecar::{SidecarError, SidecarLifecycle, SidecarPort, SidecarRuntime};
use crate::subscription_management::DocumentOperationError;

verus! {

/// Why saving a document failed.
#[derive(Clone, Copy, Debug, PartialEq, Eq, Structural)]
pub enum DocumentSaveError {
    InvalidInput,
    NotFound,
    DocumentUnavailable,
    DocumentConflict,
    ContentTooLarge,
    FormatFailed,
    ParseFailed,
    UnsupportedNodes,
    UnsupportedClashProviders,
    NormalizationFailed,
    ValidationFailed,
    ConfigurationFailed,
    SaveFailed,
    StateUnavailable,
    IdentityFailed,
    Busy,
    RecoveryRequired,
    OperationTimedOut,
}

/// Why applying a saved document failed.
#[derive(Clone, Copy, Debug, PartialEq, Eq, Structural)]
pub enum DocumentApplyError {
    StopFailed,
    StartFailed,
    RecoveryRequired,
    OperationTimedOut,
}

/// What became of the apply of a saved document.
#[derive(Clone, Debug, PartialEq, Eq)]
pub enum DocumentApplyResult {
    NotRequired,
    Ready { operation_id: String, generation: u64 },
    Failed { operation_id: String, generation: u64, error: DocumentApplyError },
}

/// Mathematical view of [`DocumentApplyResult`].
pub ghost enum DocumentApplyResultView {
    NotRequired,
    Ready { operation_id: Seq<char>, generation: u64 },
    Failed { operation_id: Seq<char>, generation: u64, error: DocumentApplyError },
}

impl DeepView for DocumentApplyResult {
    type V = DocumentApplyResultView;

    open spec fn deep_view(&self) -> DocumentApplyResultView {
        match self {
            DocumentApplyResult::NotRequired => DocumentApplyResultView::NotRequired,
            DocumentApplyResult::Ready { operation_id, generation } => DocumentApplyResultView::Ready {
                operation_id: operation_id@,
                generation: *generation,
            },
            DocumentApplyResult::Failed { operation_id, generation, error } => DocumentApplyResultView::Failed {
                operation_id: operation_id@,
                generation: *generation,
                error: *error,
            },
        }
    }
}

/// A document failure of the subscription store as a save failure.
pub open spec fn save_error_of(e: DocumentOperationError) -> DocumentSaveError {
    match e {
        DocumentOperationError::InvalidInput => DocumentSaveError::InvalidInput,
        DocumentOperationError::ContentTooLarge => DocumentSaveError::ContentTooLarge,
        DocumentOperationError::FormatFailed => DocumentSaveError::FormatFailed,
        DocumentOperationError::ParseFailed => DocumentSaveError::ParseFailed,
        DocumentOperationError::UnsupportedNodes => DocumentSaveError::UnsupportedNodes,
        DocumentOperationError::UnsupportedClashProviders => DocumentSaveError::UnsupportedClashProviders,
        DocumentOperationError::NormalizationFailed => DocumentSaveError::NormalizationFailed,
        DocumentOperationError::ValidationFailed => DocumentSaveError::ValidationFailed,
        DocumentOperationError::DocumentConflict => DocumentSaveError::DocumentConflict,
        DocumentOperationError::DocumentUnavailable => DocumentSaveError::DocumentUnavailable,
        DocumentOperationError::NotFound => DocumentSaveError::NotFound,
        DocumentOperationError::StateUnavailable => DocumentSaveError::StateUnavailable,
        DocumentOperationError::SaveFailed => DocumentSaveError::SaveFailed,
        DocumentOperationError::Busy => DocumentSaveError::Busy,
        DocumentOperationError::OperationTimedOut => DocumentSaveError::OperationTimedOut,
    }
}

/// Maps a document failure of the subscription store onto a save failure.
pub fn map_document_error(error: DocumentOperationError) -> (r: DocumentSaveError)
    ensures
        r == save_error_of(error),
{
    match error {
        DocumentOperationError::InvalidInput => DocumentSaveError::InvalidInput,
        DocumentOperationError::ContentTooLarge => DocumentSaveError::ContentTooLarge,
        DocumentOperationError::FormatFailed => DocumentSaveError::FormatFailed,
        DocumentOperationError::ParseFailed => DocumentSaveError::ParseFailed,
        DocumentOperationError::UnsupportedNodes => DocumentSaveError::UnsupportedNodes,
        DocumentOperationError::UnsupportedClashProviders => DocumentSaveError::UnsupportedClashProviders,
        DocumentOperationError::NormalizationFailed => DocumentSaveError::NormalizationFailed,
        DocumentOperationError::ValidationFailed => DocumentSaveError::ValidationFailed,
        DocumentOperationError::DocumentConflict => DocumentSaveError::DocumentConflict,
        DocumentOperationError::DocumentUnavailable => DocumentSaveError::DocumentUnavailable,
        DocumentOperationError::NotFound => DocumentSaveError::NotFound,
        DocumentOperationError::StateUnavailable => DocumentSaveError::StateUnavailable,
        DocumentOperationError::SaveFailed => DocumentSaveError::SaveFailed,
        DocumentOperationError::Busy => DocumentSaveError::Busy,
        DocumentOperationError::OperationTimedOut => DocumentSaveError::OperationTimedOut,
    }
}

/// The switch error a failed save reports: conflicts are busy, storage
/// failures are unavailable state, and every content failure is a
/// configuration failure.
pub open spec fn switch_code_of(e: DocumentSaveError) -> SubscriptionSwitchErrorCode {
    match e {
        DocumentSaveError::DocumentConflict | DocumentSaveError::Busy => SubscriptionSwitchErrorCode::Busy,
        DocumentSaveError::SaveFailed => SubscriptionSwitchErrorCode::SaveFailed,
        DocumentSaveError::NotFound | DocumentSaveError::DocumentUnavailable | DocumentSaveError::StateUnavailable
        | DocumentSaveError::IdentityFailed => SubscriptionSwitchErrorCode::StateUnavailable,
        DocumentSaveError::RecoveryRequired => SubscriptionSwitchErrorCode::RecoveryRequired,
        DocumentSaveError::OperationTimedOut => SubscriptionSwitchErrorCode::OperationTimedOut,
        _ => SubscriptionSwitchErrorCode::ConfigurationFailed,
    }
}

/// The switch error a failed save reports.
pub fn document_switch_error_code(error: DocumentSaveError) -> (r: SubscriptionSwitchErrorCode)
    ensures
        r == switch_code_of(error),
{
    match error {
        DocumentSaveError::DocumentConflict | DocumentSaveError::Busy => SubscriptionSwitchErrorCode::Busy,
        DocumentSaveError::SaveFailed => SubscriptionSwitchErrorCode::SaveFailed,
        DocumentSaveError::NotFound | DocumentSaveError::DocumentUnavailable | DocumentSaveError::StateUnavailable
        | DocumentSaveError::IdentityFailed => SubscriptionSwitchErrorCode::StateUnavailable,
        DocumentSaveError::RecoveryRequired => SubscriptionSwitchErrorCode::RecoveryRequired,
        DocumentSaveError::OperationTimedOut => SubscriptionSwitchErrorCode::OperationTimedOut,
        DocumentSaveError::InvalidInput | DocumentSaveError::ContentTooLarge | DocumentSaveError::FormatFailed
        | DocumentSaveError::ParseFailed | DocumentSaveError::UnsupportedNodes
        | DocumentSaveError::UnsupportedClashProviders | DocumentSaveError::NormalizationFailed
        | DocumentSaveError::ValidationFailed | DocumentSaveError::ConfigurationFailed => {
            SubscriptionSwitchErrorCode::ConfigurationFailed
        },
    }
}

/// A saved document must be applied unless it needs no apply and either
/// belongs to another subscription than the selected one or the selected
/// one already runs in the saved generation.
pub open spec fn save_needs_apply(
    requires_apply: bool,
    selected: bool,
    runtime_ready: bool,
    observed: RuntimeObservationSnapshotView,
    target_id: Seq<char>,
    generation: u64,
) -> bool {
    let actual_selected_ready = selected && runtime_ready && observed.sidecar_lifecycle
        == ObservedSidecarLifecycle::Ready && observed.applied_subscription_id == Some(target_id)
        && observed.applied_configuration_generation == Some(generation);
    !(!requires_apply && (!selected || actual_selected_ready))
}

/// A save of the selected subscription is applied to the runtime whenever
/// it requires an apply or the runtime does not already run the saved
/// generation of that subscription ready; so a save that failed to apply is
/// applied again when its document is saved again, though that save, which
/// changes neither the revision nor the nodes, keeps the generation. A save
/// of another subscription is applied only when it requires an apply.
pub proof fn law_unapplied_selection_is_applied_again(
    requires_apply: bool,
    runtime_ready: bool,
    observed: RuntimeObservationSnapshotView,
    target_id: Seq<char>,
    generation: u64,
)
    ensures
        save_needs_apply(requires_apply, true, runtime_ready, observed, target_id, generation) <==> (requires_apply
            || !(runtime_ready && observed.sidecar_lifecycle == ObservedSidecarLifecycle::Ready
            && observed.applied_subscription_id == Some(target_id) && observed.applied_configuration_generation
            == Some(generation))),
        save_needs_apply(requires_apply, false, runtime_ready, observed, target_id, generation) == requires_apply,
{
}

/// Whether a saved document must be applied to the runtime.
pub fn document_needs_apply(
    requires_apply: bool,
    selected: bool,
    runtime_ready: bool,
    observed: &RuntimeObservationSnapshot,
    target_id: &str,
    generation: u64,
) -> (r: bool)
    ensures
        r == save_needs_apply(requires_apply, selected, runtime_ready, observed@, target_id@, generation),
{
    let applied_target = match &observed.applied_subscription_id {
        Some(id) => crate::text::str_eq(id.as_str(), target_id),
        None => false,
    };
    let actual_selected_ready = selected && runtime_ready && observed.sidecar_lifecycle
        == ObservedSidecarLifecycle::Ready && applied_target && observed.applied_configuration_generation
        == Some(generation);
    !(!requires_apply && (!selected || actual_selected_ready))
}

/// How a runtime failure of an activation is reported: the wire error, the
/// switch error and the fixed log. A failed stop of the running child is a
/// stop failure; otherwise a runtime needing recovery says so; otherwise a
/// refused candidate is a configuration failure and the rest a start
/// failure.
pub open spec fn activation_failure_of(error: SidecarError, lifecycle: ObservedSidecarLifecycle) -> (
    ActivationError,
    SubscriptionSwitchErrorCode,
    ManagedRuntimeFailure,
) {
    if error == SidecarError::ActiveStop {
        (ActivationError::StopFailed, SubscriptionSwitchErrorCode::StopFailed, ManagedRuntimeFailure::Stop)
    } else if lifecycle == ObservedSidecarLifecycle::RecoveryRequired {
        (ActivationError::RecoveryRequired, SubscriptionSwitchErrorCode::RecoveryRequired, ManagedRuntimeFailure::Stop)
    } else if error == SidecarError::CandidateCheck || error == SidecarError::CandidatePrepare {
        (ActivationError::ConfigurationFailed, SubscriptionSwitchErrorCode::ConfigurationFailed, ManagedRuntimeFailure::Configuration)
    } else {
        (ActivationError::StartFailed, SubscriptionSwitchErrorCode::StartFailed, ManagedRuntimeFailure::Start)
    }
}

/// How a runtime failure of a document apply is reported.
pub open spec fn document_failure_of(error: SidecarError, lifecycle: ObservedSidecarLifecycle) -> (
    DocumentApplyError,
    SubscriptionSwitchErrorCode,
    ManagedRuntimeFailure,
) {
    if error == SidecarError::ActiveStop {
        (DocumentApplyError::StopFailed, SubscriptionSwitchErrorCode::StopFailed, ManagedRuntimeFailure::Stop)
    } else if lifecycle == ObservedSidecarLifecycle::RecoveryRequired {
        (DocumentApplyError::RecoveryRequired, SubscriptionSwitchErrorCode::RecoveryRequired, ManagedRuntimeFailure::Stop)
    } else {
        (DocumentApplyError::StartFailed, SubscriptionSwitchErrorCode::StartFailed, ManagedRuntimeFailure::Start)
    }
}

/// The observations after a runtime failure was recorded: the failure with
/// the runtime's lifecycle is published, then the failed switch phase of
/// the operation, if the operation is the current one.
pub open spec fn failure_recorded(
    before: InMemoryRuntimeObservations,
    after: InMemoryRuntimeObservations,
    lifecycle: ObservedSidecarLifecycle,
    log: ManagedRuntimeFailure,
    switch: SubscriptionSwitchView,
) -> bool {
    exists|mid: InMemoryRuntimeObservations|
        {
            &&& mid.wf()
            &&& published(before, mid, change_managed_failure(at_time(before.current(), before.clock()), Some(lifecycle), log))
            &&& switch_accepted(mid.current(), switch) ==> published(mid, after, RuntimeObservationSnapshotView {
                subscription_switch: Some(switch),
                ..at_time(mid.current(), mid.clock())
            })
            &&& !switch_accepted(mid.current(), switch) ==> after == mid
        }
}

fn record_failure(
    observations: &mut InMemoryRuntimeObservations,
    lifecycle: ObservedSidecarLifecycle,
    log: ManagedRuntimeFailure,
    operation_id: &str,
    code: SubscriptionSwitchErrorCode,
)
    requires
        old(observations).wf(),
    ensures
        final(observations).wf(),
        failure_recorded(
            *old(observations),
            *final(observations),
            lifecycle,
            log,
            SubscriptionSwitchView { operation_id: operation_id@, status: SubscriptionSwitchStatus::Failed, error_code: Some(code) },
        ),
{
    observations.record_managed_failure(Some(lifecycle), log);
    let ghost mid = *observations;
    let switch = SubscriptionSwitch {
        operation_id: operation_id.to_owned(),
        status: SubscriptionSwitchStatus::Failed,
        error_code: Some(code),
    };
    observations.record_subscription_switch(switch);
    proof {
        let sw = SubscriptionSwitchView { operation_id: operation_id@, status: SubscriptionSwitchStatus::Failed, error_code: Some(code) };
        assert(switch@ == sw);
        assert(mid.wf());
    }
}

fn activation_failure_exec(error: SidecarError, lifecycle: ObservedSidecarLifecycle) -> (r: (
    ActivationError,
    SubscriptionSwitchErrorCode,
    ManagedRuntimeFailure,
))
    ensures
        r == activation_failure_of(error, lifecycle),
{
    if error == SidecarError::ActiveStop {
        (ActivationError::StopFailed, SubscriptionSwitchErrorCode::StopFailed, ManagedRuntimeFailure::Stop)
    } else if lifecycle == ObservedSidecarLifecycle::RecoveryRequired {
        (ActivationError::RecoveryRequired, SubscriptionSwitchErrorCode::RecoveryRequired, ManagedRuntimeFailure::Stop)
    } else if error == SidecarError::CandidateCheck || error == SidecarError::CandidatePrepare {
        (ActivationError::ConfigurationFailed, SubscriptionSwitchErrorCode::ConfigurationFailed, ManagedRuntimeFailure::Configuration)
    } else {
        (ActivationError::StartFailed, SubscriptionSwitchErrorCode::StartFailed, ManagedRuntimeFailure::Start)
    }
}

/// Reports a runtime failure of activation `operation_id`: records the
/// failure with the runtime's lifecycle and the failed switch phase, and
/// answers with the wire error.
pub fn activation_runtime_failure<P: SidecarPort>(
    runtime: &SidecarRuntime<P>,
    observations: &mut InMemoryRuntimeObservations,
    operation_id: &str,
    error: SidecarError,
) -> (r: ActivationResult)
    requires
        old(observations).wf(),
    ensures
        final(observations).wf(),
        ({
            let lifecycle = crate::managed_runtime::observed_of(runtime.lifecycle_view());
            let (wire, code, log) = activation_failure_of(error, lifecycle);
            &&& r.deep_view() == (ActivationResultView::Error { operation_id: Some(operation_id@), error: wire })
            &&& failure_recorded(
                *old(observations),
                *final(observations),
                lifecycle,
                log,
                SubscriptionSwitchView { operation_id: operation_id@, status: SubscriptionSwitchStatus::Failed, error_code: Some(code) },
            )
        }),
{
    let lifecycle = observed_lifecycle(runtime.lifecycle());
    let (wire, code, log) = activation_failure_exec(error, lifecycle);
    record_failure(observations, lifecycle, log, operation_id, code);
    activation_error(operation_id, wire)
}

fn document_failure_exec(error: SidecarError, lifecycle: ObservedSidecarLifecycle) -> (r: (
    DocumentApplyError,
    SubscriptionSwitchErrorCode,
    ManagedRuntimeFailure,
))
    ensures
        r == document_failure_of(error, lifecycle),
{
    if error == SidecarError::ActiveStop {
        (DocumentApplyError::StopFailed, SubscriptionSwitchErrorCode::StopFailed, ManagedRuntimeFailure::Stop)
    } else if lifecycle == ObservedSidecarLifecycle::RecoveryRequired {
        (DocumentApplyError::RecoveryRequired, SubscriptionSwitchErrorCode::RecoveryRequired, ManagedRuntimeFailure::Stop)
    } else {
        (DocumentApplyError::StartFailed, SubscriptionSwitchErrorCode::StartFailed, ManagedRuntimeFailure::Start)
    }
}

/// Reports a runtime failure of the apply of a saved document at
/// `generation`: records the failure and the failed switch phase and
/// answers with the apply error.
pub fn document_runtime_error<P: SidecarPort>(
    runtime: &SidecarRuntime<P>,
    observations: &mut InMemoryRuntimeObservations,
    operation_id: &str,
    generation: u64,
    error: SidecarError,
) -> (r: DocumentApplyResult)
    requires
        old(observations).wf(),
    ensures
        final(observations).wf(),
        ({
            let lifecycle = crate::managed_runtime::observed_of(runtime.lifecycle_view());
            let (wire, code, log) = document_failure_of(error, lifecycle);
            &&& r.deep_view() == (DocumentApplyResultView::Failed { operation_id: operation_id@, generation, error: wire })
            &&& failure_recorded(
                *old(observations),
                *final(observations),
                lifecycle,
                log,
                SubscriptionSwitchView { operation_id: operation_id@, status: SubscriptionSwitchStatus::Failed, error_code: Some(code) },
            )
        }),
{
    let lifecycle = observed_lifecycle(runtime.lifecycle());
    let (wire, code, log) = document_failure_exec(error, lifecycle);
    record_failure(observations, lifecycle, log, operation_id, code);
    DocumentApplyResult::Failed { operation_id: operation_id.to_owned(), generation, error: wire }
}


/// What a document save answers: the saved subscription with the new
/// revision and what became of the apply, or the failure with the switch
/// operation it belongs to.
pub enum DocumentSaveResult {
    Success { subscription: Box<crate::subscription_management::SubscriptionSummary>, document_revision: String, apply: DocumentApplyResult },
    Error { operation_id: Option<String>, error: DocumentSaveError },
}

/// The error answer of a document save with operation `operation_id`.
pub fn document_error(operation_id: String, error: DocumentSaveError) -> (r: DocumentSaveResult)
    ensures
        r matches DocumentSaveResult::Error { operation_id: Some(o), error: e } && o@ == operation_id@ && e == error,
{
    DocumentSaveResult::Error { operation_id: Some(operation_id), error }
}

/// What recording a switch phase does to the observations: a phase the
/// current switch accepts is published at the current time; any other
/// leaves the observations as they were.
pub open spec fn switch_phase_recorded(
    before: InMemoryRuntimeObservations,
    after: InMemoryRuntimeObservations,
    switch: SubscriptionSwitchView,
) -> bool {
    &&& switch_accepted(before.current(), switch) ==> published(
        before,
        after,
        RuntimeObservationSnapshotView {
            subscription_switch: Some(switch),
            ..at_time(before.current(), before.clock())
        },
    )
    &&& !switch_accepted(before.current(), switch) ==> after == before
}

/// Records a phase of switch operation `operation_id`.
pub fn switch_phase(
    observations: &mut InMemoryRuntimeObservations,
    operation_id: &str,
    status: SubscriptionSwitchStatus,
    error_code: Option<SubscriptionSwitchErrorCode>,
)
    requires
        old(observations).wf(),
    ensures
        final(observations).wf(),
        switch_phase_recorded(
            *old(observations),
            *final(observations),
            SubscriptionSwitchView { operation_id: operation_id@, status, error_code },
        ),
{
    observations.record_subscription_switch(SubscriptionSwitch { operation_id: operation_id.to_owned(), status, error_code });
}

/// Ends switch operation `operation_id` with a failed save: records the
/// failed phase with the save's switch error and answers with the error.
pub fn failed_document_switch(
    observations: &mut InMemoryRuntimeObservations,
    operation_id: String,
    error: DocumentSaveError,
) -> (r: DocumentSaveResult)
    requires
        old(observations).wf(),
    ensures
        final(observations).wf(),
        switch_phase_recorded(
            *old(observations),
            *final(observations),
            SubscriptionSwitchView {
                operation_id: operation_id@,
                status: SubscriptionSwitchStatus::Failed,
                error_code: Some(switch_code_of(error)),
            },
        ),
        r matches DocumentSaveResult::Error { operation_id: Some(o), error: e } && o@ == operation_id@ && e == error,
{
    let code = document_switch_error_code(error);
    switch_phase(observations, operation_id.as_str(), SubscriptionSwitchStatus::Failed, Some(code));
    DocumentSaveResult::Error { operation_id: Some(operation_id), error }
}

/// The observations show `switch` as the current switch phase.
pub open spec fn shows_switch(o: InMemoryRuntimeObservations, switch: SubscriptionSwitchView) -> bool {
    o.current().subscription_switch == Some(switch)
}

/// The observations show a phase of switch operation `operation_id`.
pub open spec fn runs_switch(o: InMemoryRuntimeObservations, operation_id: Seq<char>) -> bool {
    o.current().subscription_switch matches Some(w) && w.operation_id == operation_id
}

/// A phase of the operation that is shown, or one that starts an
/// operation, becomes the shown phase.
pub proof fn lemma_phase_shown(before: InMemoryRuntimeObservations, after: InMemoryRuntimeObservations, switch: SubscriptionSwitchView)
    requires
        switch_phase_recorded(before, after, switch),
        runs_switch(before, switch.operation_id) || switch.status == SubscriptionSwitchStatus::Queued,
    ensures
        shows_switch(after, switch),
        runs_switch(after, switch.operation_id),
{
}

/// A recorded runtime failure of the shown operation shows its failed
/// phase.
pub proof fn lemma_failure_shown(
    before: InMemoryRuntimeObservations,
    after: InMemoryRuntimeObservations,
    lifecycle: ObservedSidecarLifecycle,
    log: ManagedRuntimeFailure,
    switch: SubscriptionSwitchView,
)
    requires
        failure_recorded(before, after, lifecycle, log, switch),
        runs_switch(before, switch.operation_id),
    ensures
        shows_switch(after, switch),
{
    let mid = choose|mid: InMemoryRuntimeObservations|
        {
            &&& mid.wf()
            &&& published(before, mid, change_managed_failure(at_time(before.current(), before.clock()), Some(lifecycle), log))
            &&& switch_accepted(mid.current(), switch) ==> published(mid, after, RuntimeObservationSnapshotView {
                subscription_switch: Some(switch),
                ..at_time(mid.current(), mid.clock())
            })
            &&& !switch_accepted(mid.current(), switch) ==> after == mid
        };
    assert(mid.current().subscription_switch == before.current().subscription_switch);
}

/// Records the first phases of a document apply: queued, then checking.
pub fn queue_document_apply(observations: &mut InMemoryRuntimeObservations, operation_id: &str)
    requires
        old(observations).wf(),
    ensures
        final(observations).wf(),
        shows_switch(
            *final(observations),
            SubscriptionSwitchView { operation_id: operation_id@, status: SubscriptionSwitchStatus::Checking, error_code: None },
        ),
{
    switch_phase(observations, operation_id, SubscriptionSwitchStatus::Queued, None);
    let ghost mid = *observations;
    switch_phase(observations, operation_id, SubscriptionSwitchStatus::Checking, None);
    proof {
        lemma_phase_shown(
            mid,
            *observations,
            SubscriptionSwitchView { operation_id: operation_id@, status: SubscriptionSwitchStatus::Checking, error_code: None },
        );
    }
}

/// The save error of a candidate the runtime would not prepare: a runtime
/// requiring recovery says so, anything else is a configuration failure.
pub open spec fn prepare_refusal(lifecycle: SidecarLifecycle) -> DocumentSaveError {
    if lifecycle == SidecarLifecycle::RecoveryRequired {
        DocumentSaveError::RecoveryRequired
    } else {
        DocumentSaveError::ConfigurationFailed
    }
}

/// Prepares the saved document's configuration to replace the running one.
/// A refusal ends the switch with [`prepare_refusal`] (a runtime requiring
/// recovery also records that failure); otherwise the prepared phase is
/// recorded and nothing is answered yet.
pub fn prepare_document_apply<P: SidecarPort>(
    runtime: &mut SidecarRuntime<P>,
    observations: &mut InMemoryRuntimeObservations,
    operation_id: String,
    config: crate::sidecar::GeneratedConfig,
) -> (r: Option<DocumentSaveResult>)
    requires
        old(runtime).wf(),
        old(observations).wf(),
    ensures
        final(runtime).wf(),
        final(observations).wf(),
        final(runtime).lifecycle_view() == old(runtime).lifecycle_view(),
        final(runtime).active_view() == old(runtime).active_view(),
        final(runtime).mixed_port_view() == old(runtime).mixed_port_view(),
        old(runtime).lifecycle_view() == SidecarLifecycle::RecoveryRequired ==> r is Some,
        r is None ==> final(runtime).prepared_view() == Some(config.bytes_view()) && (runs_switch(
            *old(observations),
            operation_id@,
        ) ==> shows_switch(
            *final(observations),
            SubscriptionSwitchView { operation_id: operation_id@, status: SubscriptionSwitchStatus::Prepared, error_code: None },
        )),
        r matches Some(res) ==> final(runtime).prepared_view() is None && (res matches DocumentSaveResult::Error {
            operation_id: Some(o),
            error,
        } && o@ == operation_id@ && error == prepare_refusal(old(runtime).lifecycle_view())),
{
    if runtime.prepare_replacement(config).is_err() {
        let wire = if runtime.lifecycle() == SidecarLifecycle::RecoveryRequired {
            observations.record_managed_failure(Some(ObservedSidecarLifecycle::RecoveryRequired), ManagedRuntimeFailure::Stop);
            DocumentSaveError::RecoveryRequired
        } else {
            DocumentSaveError::ConfigurationFailed
        };
        return Some(failed_document_switch(observations, operation_id, wire));
    }
    let ghost before = *observations;
    switch_phase(observations, operation_id.as_str(), SubscriptionSwitchStatus::Prepared, None);
    proof {
        if runs_switch(before, operation_id@) {
            lemma_phase_shown(
                before,
                *observations,
                SubscriptionSwitchView { operation_id: operation_id@, status: SubscriptionSwitchStatus::Prepared, error_code: None },
            );
        }
    }
    None
}

/// Gives up a prepared document apply before the save is committed: the
/// prepared candidate is dropped and the switch ends with `error`; if the
/// running configuration cannot be restored the runtime requires recovery,
/// which is recorded and answered instead.
pub fn abandon_document_apply<P: SidecarPort>(
    runtime: &mut SidecarRuntime<P>,
    observations: &mut InMemoryRuntimeObservations,
    operation_id: String,
    error: DocumentSaveError,
) -> (r: DocumentSaveResult)
    requires
        old(runtime).wf(),
        old(observations).wf(),
    ensures
        final(runtime).wf(),
        final(observations).wf(),
        final(runtime).prepared_view() is None,
        final(runtime).mixed_port_view() == old(runtime).mixed_port_view(),
        r matches DocumentSaveResult::Error { operation_id: Some(o), error: e } && o@ == operation_id@ && (
        (final(runtime).lifecycle_view() == old(runtime).lifecycle_view() && final(runtime).active_view()
            == old(runtime).active_view() && e == error) || (final(runtime).lifecycle_view()
            == SidecarLifecycle::RecoveryRequired && e == DocumentSaveError::RecoveryRequired)),
{
    if runtime.cancel_prepared().is_err() {
        observations.record_managed_failure(Some(ObservedSidecarLifecycle::RecoveryRequired), ManagedRuntimeFailure::Stop);
        return failed_document_switch(observations, operation_id, DocumentSaveError::RecoveryRequired);
    }
    failed_document_switch(observations, operation_id, error)
}

/// The apply error of a saved document whose apply ran out of time: the
/// prepared candidate is dropped, and a runtime that cannot restore its
/// configuration requires recovery.
pub fn expire_document_apply<P: SidecarPort>(
    runtime: &mut SidecarRuntime<P>,
    observations: &mut InMemoryRuntimeObservations,
    operation_id: String,
    generation: u64,
) -> (r: DocumentApplyResult)
    requires
        old(runtime).wf(),
        old(observations).wf(),
    ensures
        final(runtime).wf(),
        final(observations).wf(),
        final(runtime).prepared_view() is None,
        final(runtime).mixed_port_view() == old(runtime).mixed_port_view(),
        r matches DocumentApplyResult::Failed { operation_id: o, generation: g, error: e } && o@ == operation_id@
            && g == generation && ((final(runtime).lifecycle_view() == old(runtime).lifecycle_view()
            && final(runtime).active_view() == old(runtime).active_view() && e == DocumentApplyError::OperationTimedOut)
            || (final(runtime).lifecycle_view() == SidecarLifecycle::RecoveryRequired && e
            == DocumentApplyError::RecoveryRequired)),
{
    let (error, code) = if runtime.cancel_prepared().is_err() {
        observations.record_managed_failure(Some(ObservedSidecarLifecycle::RecoveryRequired), ManagedRuntimeFailure::Stop);
        (DocumentApplyError::RecoveryRequired, SubscriptionSwitchErrorCode::RecoveryRequired)
    } else {
        (DocumentApplyError::OperationTimedOut, SubscriptionSwitchErrorCode::OperationTimedOut)
    };
    switch_phase(observations, operation_id.as_str(), SubscriptionSwitchStatus::Failed, Some(code));
    DocumentApplyResult::Failed { operation_id, generation, error }
}

/// Applies the prepared configuration of a saved document: records the
/// applying phase, replaces the running child, and on success records the
/// selected subscription ready at `generation`; a runtime failure is
/// reported as [`document_runtime_error`] does.
pub fn finish_document_apply<P: SidecarPort>(
    runtime: &mut SidecarRuntime<P>,
    observations: &mut InMemoryRuntimeObservations,
    operation_id: String,
    generation: u64,
    selected_subscription_id: String,
) -> (r: DocumentApplyResult)
    requires
        old(runtime).wf(),
        old(observations).wf(),
    ensures
        final(runtime).wf(),
        final(observations).wf(),
        final(runtime).prepared_view() is None,
        r is Ready ==> final(runtime).lifecycle_view() == SidecarLifecycle::Ready && final(runtime).active_view()
            == old(runtime).prepared_view() && r.deep_view() == (DocumentApplyResultView::Ready {
            operation_id: operation_id@,
            generation,
        }) && final(observations).current().applied_subscription_id == Some(selected_subscription_id@)
            && final(observations).current().applied_configuration_generation == Some(generation)
            && shows_switch(
            *final(observations),
            SubscriptionSwitchView { operation_id: operation_id@, status: SubscriptionSwitchStatus::Ready, error_code: None },
        ),
        old(runtime).prepared_view() is Some && old(runtime).lifecycle_view() != SidecarLifecycle::RecoveryRequired
            ==> (r is Ready <==> final(runtime).lifecycle_view() == SidecarLifecycle::Ready),
        !(r is Ready) ==> exists|e: SidecarError| #![auto]
            r.deep_view() == (DocumentApplyResultView::Failed {
                operation_id: operation_id@,
                generation,
                error: document_failure_of(e, crate::managed_runtime::observed_of(final(runtime).lifecycle_view())).0,
            }),
{
    switch_phase(observations, operation_id.as_str(), SubscriptionSwitchStatus::Applying, None);
    match runtime.commit_prepared() {
        Ok(()) => {
            let available = runtime.mixed_port().is_some();
            let op = operation_id.clone();
            observations.record_subscription_ready(selected_subscription_id, generation, Some(op), available);
            DocumentApplyResult::Ready { operation_id, generation }
        },
        Err(error) => document_runtime_error(runtime, observations, operation_id.as_str(), generation, error),
    }
}

/// The applied routing index after a document save: an applied save runs
/// the selected projection; a failed one that left the core stopped leaves
/// nothing applied.
pub fn index_after_document_save(result: &DocumentSaveResult, lifecycle: SidecarLifecycle) -> (r: crate::managed_runtime::IndexUpdate)
    ensures
        r == if result matches DocumentSaveResult::Success { apply: DocumentApplyResult::Ready { .. }, .. } {
            crate::managed_runtime::IndexUpdate::Install
        } else if lifecycle == SidecarLifecycle::Stopped {
            crate::managed_runtime::IndexUpdate::Clear
        } else {
            crate::managed_runtime::IndexUpdate::Keep
        },
{
    match result {
        DocumentSaveResult::Success { apply: DocumentApplyResult::Ready { .. }, .. } => crate::managed_runtime::IndexUpdate::Install,
        _ => if lifecycle == SidecarLifecycle::Stopped {
            crate::managed_runtime::IndexUpdate::Clear
        } else {
            crate::managed_runtime::IndexUpdate::Keep
        },
    }
}

/// Largest running configuration handed to the interface, in bytes.
pub const RUNNING_CONFIGURATION_MAX_BYTES: usize = 4194304;

/// Why the running configuration cannot be shown.
#[derive(Clone, Copy, Debug, PartialEq, Eq, Structural)]
pub enum RunningConfigurationError {
    NotRunning,
    RecoveryRequired,
    ContentTooLarge,
    Busy,
}

/// The configuration the ready core runs, with the subscription and
/// generation it was applied for.
#[derive(Clone, Debug, PartialEq, Eq)]
pub enum RunningConfigurationResult {
    Success { content: String, applied_subscription_id: String, applied_configuration_generation: u64 },
    Error(RunningConfigurationError),
}

/// Mathematical view of [`RunningConfigurationResult`].
pub ghost enum RunningConfigurationResultView {
    Success { content: Seq<char>, applied_subscription_id: Seq<char>, applied_configuration_generation: u64 },
    Error(RunningConfigurationError),
}

impl DeepView for RunningConfigurationResult {
    type V = RunningConfigurationResultView;

    open spec fn deep_view(&self) -> RunningConfigurationResultView {
        match self {
            RunningConfigurationResult::Success { content, applied_subscription_id, applied_configuration_generation } => {
                RunningConfigurationResultView::Success {
                    content: content@,
                    applied_subscription_id: applied_subscription_id@,
                    applied_configuration_generation: *applied_configuration_generation,
                }
            },
            RunningConfigurationResult::Error(e) => RunningConfigurationResultView::Error(*e),
        }
    }
}

/// `std::string::String::from_utf8`: the contract claims that the bytes
/// are taken as text exactly when they are valid UTF-8, and that the text
/// is what they encode.
#[verifier::external_body]
fn text_from_utf8(bytes: Vec<u8>) -> (r: Option<String>)
    ensures
        r is Some <==> vstd::utf8::valid_utf8(bytes@),
        r matches Some(s) ==> s@ == vstd::utf8::decode_utf8(bytes@),
{
    String::from_utf8(bytes).ok()
}

/// What reading the running configuration answers: a ready core that the
/// observations also report ready shows its active configuration with the
/// applied subscription and generation, unless it is too large; a ready
/// core without them, or with bytes that are not text, or a core that
/// needs recovery, requires recovery; anything else is not running.
pub open spec fn running_configuration_of(
    lifecycle: Option<SidecarLifecycle>,
    active: Option<Seq<u8>>,
    observed: RuntimeObservationSnapshotView,
) -> RunningConfigurationResultView {
    match lifecycle {
        Some(SidecarLifecycle::Ready) => if observed.sidecar_lifecycle == ObservedSidecarLifecycle::Ready {
            match active {
                None => RunningConfigurationResultView::Error(RunningConfigurationError::RecoveryRequired),
                Some(bytes) => if bytes.len() > RUNNING_CONFIGURATION_MAX_BYTES {
                    RunningConfigurationResultView::Error(RunningConfigurationError::ContentTooLarge)
                } else {
                    match (observed.applied_subscription_id, observed.applied_configuration_generation) {
                        (Some(id), Some(generation)) => if vstd::utf8::valid_utf8(bytes) {
                            RunningConfigurationResultView::Success {
                                content: vstd::utf8::decode_utf8(bytes),
                                applied_subscription_id: id,
                                applied_configuration_generation: generation,
                            }
                        } else {
                            RunningConfigurationResultView::Error(RunningConfigurationError::RecoveryRequired)
                        },
                        _ => RunningConfigurationResultView::Error(RunningConfigurationError::RecoveryRequired),
                    }
                },
            }
        } else {
            RunningConfigurationResultView::Error(RunningConfigurationError::RecoveryRequired)
        },
        Some(SidecarLifecycle::RecoveryRequired) => RunningConfigurationResultView::Error(RunningConfigurationError::RecoveryRequired),
        _ => RunningConfigurationResultView::Error(RunningConfigurationError::NotRunning),
    }
}

/// Reads the configuration the core runs.
pub fn read_running_configuration<P: SidecarPort>(
    runtime: Option<&SidecarRuntime<P>>,
    snapshot: &RuntimeObservationSnapshot,
) -> (r: RunningConfigurationResult)
    ensures
        r.deep_view() == running_configuration_of(
            match runtime { Some(rt) => Some(rt.lifecycle_view()), None => None },
            match runtime { Some(rt) => rt.active_view(), None => None },
            snapshot@,
        ),
{
    let rt = match runtime {
        Some(rt) => rt,
        None => {
            return RunningConfigurationResult::Error(RunningConfigurationError::NotRunning);
        },
    };
    match rt.lifecycle() {
        SidecarLifecycle::Ready => {},
        SidecarLifecycle::RecoveryRequired => {
            return RunningConfigurationResult::Error(RunningConfigurationError::RecoveryRequired);
        },
        SidecarLifecycle::Stopped => {
            return RunningConfigurationResult::Error(RunningConfigurationError::NotRunning);
        },
    }
    if snapshot.sidecar_lifecycle != ObservedSidecarLifecycle::Ready {
        return RunningConfigurationResult::Error(RunningConfigurationError::RecoveryRequired);
    }
    let config = match rt.active_config() {
        Some(c) => c,
        None => {
            return RunningConfigurationResult::Error(RunningConfigurationError::RecoveryRequired);
        },
    };
    let bytes = config.as_bytes();
    if bytes.len() > RUNNING_CONFIGURATION_MAX_BYTES {
        return RunningConfigurationResult::Error(RunningConfigurationError::ContentTooLarge);
    }
    let (id, generation) = match (&snapshot.applied_subscription_id, snapshot.applied_configuration_generation) {
        (Some(id), Some(generation)) => (crate::domain::ExactClone::exact_clone(id), generation),
        _ => {
            return RunningConfigurationResult::Error(RunningConfigurationError::RecoveryRequired);
        },
    };
    let copy = crate::domain::ExactClone::exact_clone(bytes);
    proof {
        assert(copy.deep_view() =~= copy@);
        assert(bytes.deep_view() =~= bytes@);
        assert(copy@ =~= bytes@);
    }
    match text_from_utf8(copy) {
        Some(content) => RunningConfigurationResult::Success {
            content,
            applied_subscription_id: id,
            applied_configuration_generation: generation,
        },
        None => RunningConfigurationResult::Error(RunningConfigurationError::RecoveryRequired),
    }
}

} // verus!
