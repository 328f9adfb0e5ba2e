use veyra::activation::{
    abandon_activation, activation_without_runtime, begin_activation, finish_activation,
    new_operation_id, record_routing_apply_failure,
};
use veyra::document_apply::{
    abandon_document_apply, expire_document_apply, finish_document_apply,
    index_after_document_save, prepare_document_apply, queue_document_apply, switch_phase,
    DocumentApplyError, DocumentApplyResult, DocumentSaveError, DocumentSaveResult,
};
use veyra::domain::{
    AppState, NodeFilter, NodePool, PoolId, PoolKind, PoolSource, ProtocolOptions, Provider,
    ProviderId, ProxyProtocol, RouteTarget, SelectionPolicy, Subscription, SubscriptionId,
    SubscriptionSource, SubscriptionUpdatePolicy,
};
use veyra::managed_runtime::{
    clear_applied_routing_index, index_after_activation, index_after_start, index_after_stop,
    install_applied_routing_index, shutdown_result, ActivationError, ActivationResult,
    IndexUpdate, ManagedRuntimeStartResult, ManagedRuntimeStopResult,
    RoutingApplyTerminalFailure, SelectorRuntimeNodes, ShutdownResult,
};
use veyra::observability::{
    InMemoryRuntimeObservations, SubscriptionSwitchErrorCode, SubscriptionSwitchStatus,
};
use veyra::selected_subscription::project_selected_runtime;
use veyra::sidecar::{
    GeneratedConfig, ManagedSidecar, SidecarError, SidecarLifecycle, SidecarPort,
    SidecarPortError, SidecarRuntime,
};
use veyra::subscription::{normalize_nodes, ProxyNodeDraft};
use veyra::activation::{persist_step, selected_summary, PersistStep};
use veyra::managed_runtime::start_stopped_runtime;
use veyra::subscription_management::summaries;

#[derive(Default)]
struct ScriptedPort {
    fault: &'static str,
    events: Vec<&'static str>,
    next_identity: u64,
}

impl SidecarPort for ScriptedPort {
    fn check(&mut self, _: &GeneratedConfig) -> Result<(), SidecarPortError> {
        self.events.push("check");
        if self.fault == "check" {
            Err(SidecarPortError)
        } else {
            Ok(())
        }
    }

    fn prepare(&mut self, _: &GeneratedConfig) -> Result<(), SidecarPortError> {
        self.events.push("prepare");
        if self.fault == "prepare" {
            Err(SidecarPortError)
        } else {
            Ok(())
        }
    }

    fn run(&mut self) -> Result<ManagedSidecar, SidecarPortError> {
        self.events.push("run");
        self.next_identity += 1;
        if self.fault == "run" {
            Err(SidecarPortError)
        } else {
            Ok(ManagedSidecar::from_port_identity(self.next_identity))
        }
    }

    fn ready(&mut self, _: &ManagedSidecar) -> Result<(), SidecarPortError> {
        self.events.push("ready");
        Ok(())
    }

    fn stop(&mut self, _: &ManagedSidecar) -> Result<(), SidecarPortError> {
        self.events.push("stop");
        Ok(())
    }
}

fn config(text: &str) -> GeneratedConfig {
    GeneratedConfig::from_bytes(text.as_bytes().to_vec())
}

fn queued(observations: &mut InMemoryRuntimeObservations, operation_id: &str) {
    switch_phase(
        observations,
        operation_id,
        SubscriptionSwitchStatus::Queued,
        None,
    );
}

fn shown(observations: &mut InMemoryRuntimeObservations) -> (SubscriptionSwitchStatus, Option<SubscriptionSwitchErrorCode>) {
    let switch = observations
        .snapshot()
        .subscription_switch
        .expect("switch shown");
    (switch.status, switch.error_code)
}

fn selected_state() -> AppState {
    let mut state = AppState::empty();
    state.subscriptions.push(Subscription {
        skipped_unsupported_nodes: 0,
        id: SubscriptionId("sub".into()),
        name: "fixture".into(),
        source: SubscriptionSource::Manual,
        document: None,
        last_success_at_ms: None,
        http_metadata: None,
        description: String::new(),
        last_attempt_at_ms: None,
        remote_request: None,
        update_policy: SubscriptionUpdatePolicy::manual(),
    });
    state.providers.push(Provider {
        id: ProviderId("provider".into()),
        subscription_id: SubscriptionId("sub".into()),
        name: "fixture".into(),
    });
    state.nodes = normalize_nodes(
        ProviderId("provider".into()),
        vec![ProxyNodeDraft {
            name: "fixture".into(),
            protocol: ProxyProtocol::Socks,
            server: "127.0.0.1".into(),
            port: 1080,
            options: ProtocolOptions::Credentials {
                username: None,
                password: None,
            },
            transport: None,
            tls: None,
        }],
    )
    .expect("normalize");
    state.pools.push(NodePool {
        id: PoolId("default".into()),
        name: "default".into(),
        kind: PoolKind::Custom,
        sources: vec![PoolSource {
            provider_id: ProviderId("provider".into()),
            filter: NodeFilter::default(),
        }],
        selection: SelectionPolicy::Manual {
            selected_node_id: None,
        },
        enabled: true,
    });
    state.default_target = RouteTarget::Pool(PoolId("default".into()));
    state.active_subscription_id = Some(SubscriptionId("sub".into()));
    state.active_configuration_generation = 2;
    state
}

#[test]
fn a_prepared_candidate_replaces_the_child_only_when_committed() {
    let mut runtime = SidecarRuntime::new_observation_only(ScriptedPort::default());
    runtime
        .start_or_replace(config("first"))
        .expect("first start");
    runtime
        .prepare_replacement(config("second"))
        .expect("prepared");
    assert_eq!(runtime.lifecycle(), SidecarLifecycle::Ready);
    assert_eq!(
        runtime.active_config().expect("active").as_bytes(),
        &b"first".to_vec()
    );
    runtime.commit_prepared().expect("committed");
    assert_eq!(
        runtime.active_config().expect("active").as_bytes(),
        &b"second".to_vec()
    );
    assert_eq!(runtime.child_identity(), Some(2));
    assert_eq!(runtime.commit_prepared(), Err(SidecarError::CandidatePrepare));
    assert_eq!(runtime.lifecycle(), SidecarLifecycle::Ready);
}

#[test]
fn cancelling_a_prepared_candidate_prepares_the_running_one_again() {
    let mut runtime = SidecarRuntime::new_observation_only(ScriptedPort::default());
    runtime.start_or_replace(config("first")).expect("start");
    runtime
        .prepare_replacement(config("second"))
        .expect("prepared");
    runtime.cancel_prepared().expect("cancelled");
    assert_eq!(
        runtime.active_config().expect("active").as_bytes(),
        &b"first".to_vec()
    );
    assert_eq!(runtime.commit_prepared(), Err(SidecarError::CandidatePrepare));
    let events = runtime.into_port().events;
    assert_eq!(
        events,
        vec!["check", "prepare", "run", "ready", "check", "prepare", "prepare"]
    );
}

#[test]
fn a_refused_candidate_fails_the_activation_as_a_configuration_failure() {
    let mut observations = InMemoryRuntimeObservations::new_mock();
    queued(&mut observations, "op-1");
    let mut runtime = SidecarRuntime::new_observation_only(ScriptedPort {
        fault: "check",
        ..Default::default()
    });
    let result = begin_activation(&mut runtime, &mut observations, "op-1", config("c"))
        .expect("answered");
    assert!(matches!(
        result,
        ActivationResult::Error {
            error: ActivationError::ConfigurationFailed,
            ..
        }
    ));
    assert_eq!(
        shown(&mut observations),
        (
            SubscriptionSwitchStatus::Failed,
            Some(SubscriptionSwitchErrorCode::ConfigurationFailed)
        )
    );
}

#[test]
fn a_persisted_activation_runs_the_candidate_and_reports_ready() {
    let state = selected_state();
    let summary = summaries(&state).expect("summaries").remove(0);
    let mut observations = InMemoryRuntimeObservations::new_mock();
    queued(&mut observations, "op-2");
    let mut runtime = SidecarRuntime::new_observation_only(ScriptedPort::default());
    assert!(begin_activation(&mut runtime, &mut observations, "op-2", config("c")).is_none());
    assert_eq!(shown(&mut observations), (SubscriptionSwitchStatus::Prepared, None));
    assert_eq!(runtime.lifecycle(), SidecarLifecycle::Stopped);
    let result = finish_activation(
        &mut runtime,
        &mut observations,
        "op-2",
        summary,
        "sub".to_owned(),
        2,
        false,
    );
    assert!(matches!(
        result,
        ActivationResult::Activated { generation: 2, ref operation_id, .. } if operation_id == "op-2"
    ));
    assert_eq!(runtime.lifecycle(), SidecarLifecycle::Ready);
    let snapshot = observations.snapshot();
    assert_eq!(snapshot.applied_subscription_id.as_deref(), Some("sub"));
    assert_eq!(snapshot.applied_configuration_generation, Some(2));
    assert_eq!(
        snapshot.subscription_switch.map(|s| s.status),
        Some(SubscriptionSwitchStatus::Ready)
    );
}

#[test]
fn a_cancelled_or_unsaved_activation_drops_its_candidate() {
    let mut observations = InMemoryRuntimeObservations::new_mock();
    queued(&mut observations, "op-3");
    let mut runtime = SidecarRuntime::new_observation_only(ScriptedPort::default());
    assert!(begin_activation(&mut runtime, &mut observations, "op-3", config("c")).is_none());
    assert!(matches!(
        abandon_activation(&mut runtime, &mut observations, "op-3", None),
        ActivationResult::Pending { ref operation_id } if operation_id == "op-3"
    ));
    assert_eq!(
        shown(&mut observations),
        (
            SubscriptionSwitchStatus::Cancelled,
            Some(SubscriptionSwitchErrorCode::Cancelled)
        )
    );
    assert_eq!(runtime.commit_prepared(), Err(SidecarError::CandidatePrepare));

    queued(&mut observations, "op-4");
    assert!(begin_activation(&mut runtime, &mut observations, "op-4", config("c")).is_none());
    assert!(matches!(
        abandon_activation(
            &mut runtime,
            &mut observations,
            "op-4",
            Some(ActivationError::Busy)
        ),
        ActivationResult::Error {
            error: ActivationError::Busy,
            ..
        }
    ));
    assert_eq!(
        shown(&mut observations),
        (
            SubscriptionSwitchStatus::Failed,
            Some(SubscriptionSwitchErrorCode::Busy)
        )
    );
}

#[test]
fn an_activation_without_a_runtime_is_a_start_failure() {
    let mut observations = InMemoryRuntimeObservations::new_mock();
    queued(&mut observations, "op-5");
    assert!(matches!(
        activation_without_runtime(&mut observations, "op-5"),
        ActivationResult::Error {
            error: ActivationError::StartFailed,
            ..
        }
    ));
    assert_eq!(
        shown(&mut observations),
        (
            SubscriptionSwitchStatus::Failed,
            Some(SubscriptionSwitchErrorCode::StartFailed)
        )
    );
}

#[test]
fn a_refused_routing_apply_ends_its_own_switch() {
    let mut observations = InMemoryRuntimeObservations::new_mock();
    record_routing_apply_failure(
        &mut observations,
        "op-6",
        RoutingApplyTerminalFailure::StateChanged,
    );
    assert_eq!(
        shown(&mut observations),
        (
            SubscriptionSwitchStatus::Cancelled,
            Some(SubscriptionSwitchErrorCode::Cancelled)
        )
    );
    record_routing_apply_failure(
        &mut observations,
        "op-7",
        RoutingApplyTerminalFailure::ConfigurationFailed,
    );
    assert_eq!(
        shown(&mut observations),
        (
            SubscriptionSwitchStatus::Failed,
            Some(SubscriptionSwitchErrorCode::ConfigurationFailed)
        )
    );
}

#[test]
fn operation_ids_are_thirty_two_hexadecimal_digits() {
    let first = new_operation_id().expect("randomness");
    let second = new_operation_id().expect("randomness");
    assert_eq!(first.len(), 32);
    assert!(first
        .chars()
        .all(|c| c.is_ascii_digit() || ('a'..='f').contains(&c)));
    assert_ne!(first, second);
}

#[test]
fn a_document_apply_prepares_then_runs_the_saved_configuration() {
    let mut observations = InMemoryRuntimeObservations::new_mock();
    queue_document_apply(&mut observations, "save-1");
    assert_eq!(shown(&mut observations), (SubscriptionSwitchStatus::Checking, None));
    let mut runtime = SidecarRuntime::new_observation_only(ScriptedPort::default());
    assert!(prepare_document_apply(
        &mut runtime,
        &mut observations,
        "save-1".to_owned(),
        config("doc")
    )
    .is_none());
    assert_eq!(shown(&mut observations), (SubscriptionSwitchStatus::Prepared, None));
    let apply = finish_document_apply(
        &mut runtime,
        &mut observations,
        "save-1".to_owned(),
        3,
        "sub".to_owned(),
    );
    assert!(matches!(
        apply,
        DocumentApplyResult::Ready { generation: 3, ref operation_id } if operation_id == "save-1"
    ));
    assert_eq!(
        runtime.active_config().expect("active").as_bytes(),
        &b"doc".to_vec()
    );
}

#[test]
fn a_late_or_abandoned_document_apply_drops_the_candidate() {
    let mut observations = InMemoryRuntimeObservations::new_mock();
    queue_document_apply(&mut observations, "save-2");
    let mut runtime = SidecarRuntime::new_observation_only(ScriptedPort::default());
    assert!(prepare_document_apply(
        &mut runtime,
        &mut observations,
        "save-2".to_owned(),
        config("doc")
    )
    .is_none());
    assert!(matches!(
        expire_document_apply(&mut runtime, &mut observations, "save-2".to_owned(), 4),
        DocumentApplyResult::Failed {
            generation: 4,
            error: DocumentApplyError::OperationTimedOut,
            ..
        }
    ));
    assert_eq!(
        shown(&mut observations),
        (
            SubscriptionSwitchStatus::Failed,
            Some(SubscriptionSwitchErrorCode::OperationTimedOut)
        )
    );

    queue_document_apply(&mut observations, "save-3");
    assert!(prepare_document_apply(
        &mut runtime,
        &mut observations,
        "save-3".to_owned(),
        config("doc")
    )
    .is_none());
    assert!(matches!(
        abandon_document_apply(
            &mut runtime,
            &mut observations,
            "save-3".to_owned(),
            DocumentSaveError::Busy
        ),
        DocumentSaveResult::Error {
            error: DocumentSaveError::Busy,
            ..
        }
    ));
    assert_eq!(runtime.commit_prepared(), Err(SidecarError::CandidatePrepare));
}

#[test]
fn a_candidate_refused_for_a_document_is_a_configuration_failure() {
    let mut observations = InMemoryRuntimeObservations::new_mock();
    queue_document_apply(&mut observations, "save-4");
    let mut runtime = SidecarRuntime::new_observation_only(ScriptedPort {
        fault: "prepare",
        ..Default::default()
    });
    assert!(matches!(
        prepare_document_apply(&mut runtime, &mut observations, "save-4".to_owned(), config("d")),
        Some(DocumentSaveResult::Error {
            error: DocumentSaveError::ConfigurationFailed,
            ..
        })
    ));
    assert_eq!(
        shown(&mut observations),
        (
            SubscriptionSwitchStatus::Failed,
            Some(SubscriptionSwitchErrorCode::ConfigurationFailed)
        )
    );
}

#[test]
fn the_applied_index_follows_what_the_core_runs() {
    assert_eq!(
        index_after_start(ManagedRuntimeStartResult::Started),
        IndexUpdate::Install
    );
    assert_eq!(
        index_after_start(ManagedRuntimeStartResult::StartFailed),
        IndexUpdate::Keep
    );
    assert_eq!(
        index_after_stop(ManagedRuntimeStopResult::AlreadyStopped),
        IndexUpdate::Clear
    );
    assert_eq!(
        index_after_stop(ManagedRuntimeStopResult::StopFailed),
        IndexUpdate::Keep
    );
    let pending = ActivationResult::Pending {
        operation_id: "op".to_owned(),
    };
    assert_eq!(
        index_after_activation(&pending, SidecarLifecycle::Stopped),
        IndexUpdate::Clear
    );
    assert_eq!(
        index_after_activation(&pending, SidecarLifecycle::Ready),
        IndexUpdate::Keep
    );
    let failed = DocumentSaveResult::Error {
        operation_id: None,
        error: DocumentSaveError::Busy,
    };
    assert_eq!(
        index_after_document_save(&failed, SidecarLifecycle::RecoveryRequired),
        IndexUpdate::Keep
    );
    assert_eq!(
        shutdown_result(ManagedRuntimeStopResult::Stopped),
        ShutdownResult::ShutdownComplete
    );
    assert_eq!(
        shutdown_result(ManagedRuntimeStopResult::Busy),
        ShutdownResult::ShutdownFailed
    );

    let projection = project_selected_runtime(&selected_state()).expect("projection");
    let mut index = None;
    let mut nodes = SelectorRuntimeNodes::new();
    install_applied_routing_index(&mut index, &mut nodes, &projection);
    assert_eq!(index.as_ref().map(|i| i.configuration_generation), Some(2));
    clear_applied_routing_index(&mut index, &mut nodes);
    assert!(index.is_none());
}

/// The selected state of the activation fixtures: a first subscription
/// selected at generation 1 and a second one to switch to.
fn two_subscription_state() -> AppState {
    let mut expected = selected_state();
    expected.pools.clear();
    expected.default_target = RouteTarget::Unconfigured;
    expected.active_configuration_generation = 1;
    let mut second = expected.subscriptions[0].clone();
    second.id = SubscriptionId("second".into());
    second.name = "second".into();
    expected.subscriptions.push(second);
    expected.providers.push(Provider {
        id: ProviderId("second-provider".into()),
        subscription_id: SubscriptionId("second".into()),
        name: "second".into(),
    });
    let mut node = expected.nodes[0].clone();
    node.id = veyra::domain::NodeId("second-node".into());
    node.provider_id = ProviderId("second-provider".into());
    expected.nodes.push(node);
    expected
}

/// Runs an activation to `second` on a core that runs the first
/// subscription, saving the candidate between the runtime steps.
fn activate_second(reactivation: bool) -> (ActivationResult, InMemoryRuntimeObservations, Vec<&'static str>, Vec<SubscriptionSwitchStatus>) {
    let expected = two_subscription_state();
    let mut observations = InMemoryRuntimeObservations::new_mock();
    let mut runtime = SidecarRuntime::new_observation_only(ScriptedPort::default());
    let old_projection = project_selected_runtime(&expected).expect("old projection");
    assert_eq!(
        start_stopped_runtime(&mut runtime, &old_projection, Ok(config("old")), &mut observations),
        ManagedRuntimeStartResult::Started
    );
    let mut candidate = expected.clone();
    candidate.active_subscription_id = Some(SubscriptionId("second".into()));
    candidate.active_configuration_generation += 1;
    let projection = project_selected_runtime(&candidate).expect("new projection");
    let subscription = selected_summary(&candidate, "second").expect("safe summary");
    queued(&mut observations, "fixture-operation");
    observations.install_delta_sink();

    assert!(begin_activation(&mut runtime, &mut observations, "fixture-operation", config("new")).is_none());
    let mut stored = expected.clone();
    assert_eq!(
        persist_step(&stored, &expected, &candidate, false),
        Ok(PersistStep::Save)
    );
    stored = candidate.clone();
    let result = finish_activation(
        &mut runtime,
        &mut observations,
        "fixture-operation",
        subscription,
        projection.selected_subscription_id.0.clone(),
        projection.selected_generation,
        reactivation,
    );
    assert_eq!(stored.active_subscription_id, Some(SubscriptionId("second".into())));
    assert_eq!(stored.active_configuration_generation, 2);
    let phases = observations
        .drain_sink()
        .into_iter()
        .filter_map(|delta| delta.subscription_switch.map(|change| change.status))
        .collect();
    (result, observations, runtime.into_port().events, phases)
}

#[test]
fn activation_checks_and_saves_before_stop_then_publishes_applied_pair() {
    let (result, mut observations, events, phases) = activate_second(false);
    assert!(matches!(result, ActivationResult::Activated { generation: 2, .. }));
    let snapshot = observations.snapshot();
    assert_eq!(
        snapshot.sidecar_lifecycle,
        veyra::observability::ObservedSidecarLifecycle::Ready
    );
    assert_eq!(snapshot.applied_subscription_id.as_deref(), Some("second"));
    assert_eq!(snapshot.applied_configuration_generation, Some(2));
    assert!(!snapshot.managed_proxy_available);
    assert_eq!(
        phases,
        vec![
            SubscriptionSwitchStatus::Checking,
            SubscriptionSwitchStatus::Prepared,
            SubscriptionSwitchStatus::Persisted,
            SubscriptionSwitchStatus::Applying,
            SubscriptionSwitchStatus::Ready
        ]
    );
    assert_eq!(
        events,
        vec!["check", "prepare", "run", "ready", "check", "prepare", "stop", "run", "ready"]
    );
}

#[test]
fn forced_request_reports_reactivated_after_real_commit() {
    let (result, _, events, _) = activate_second(true);
    assert!(matches!(result, ActivationResult::Reactivated { generation: 2, .. }));
    assert_eq!(
        events,
        vec!["check", "prepare", "run", "ready", "check", "prepare", "stop", "run", "ready"]
    );
}

/// A port that fails one operation the n-th time it is asked for it.
struct ReplacePort {
    fail: &'static str,
    on_call: usize,
    calls: Vec<&'static str>,
}

impl ReplacePort {
    fn new(fail: &'static str, on_call: usize) -> Self {
        Self {
            fail,
            on_call,
            calls: Vec::new(),
        }
    }

    fn step(&mut self, op: &'static str) -> Result<(), SidecarPortError> {
        self.calls.push(op);
        let nth = self.calls.iter().filter(|c| **c == op).count();
        if op == self.fail && nth == self.on_call {
            Err(SidecarPortError)
        } else {
            Ok(())
        }
    }
}

impl SidecarPort for ReplacePort {
    fn check(&mut self, _: &GeneratedConfig) -> Result<(), SidecarPortError> {
        self.step("check")
    }

    fn prepare(&mut self, _: &GeneratedConfig) -> Result<(), SidecarPortError> {
        self.step("prepare")
    }

    fn run(&mut self) -> Result<ManagedSidecar, SidecarPortError> {
        self.step("run")?;
        Ok(ManagedSidecar::from_port_identity(self.calls.len() as u64))
    }

    fn ready(&mut self, _: &ManagedSidecar) -> Result<(), SidecarPortError> {
        self.step("ready")
    }

    fn stop(&mut self, _: &ManagedSidecar) -> Result<(), SidecarPortError> {
        self.step("stop")
    }
}

/// A core running the first subscription at generation 1, with the switch
/// to `second` queued.
fn running_first(port: ReplacePort) -> (InMemoryRuntimeObservations, SidecarRuntime<ReplacePort>, AppState, AppState) {
    let expected = two_subscription_state();
    let mut observations = InMemoryRuntimeObservations::new_mock();
    let mut runtime = SidecarRuntime::new_observation_only(port);
    let old_projection = project_selected_runtime(&expected).expect("old projection");
    assert_eq!(
        start_stopped_runtime(&mut runtime, &old_projection, Ok(config("old")), &mut observations),
        ManagedRuntimeStartResult::Started
    );
    let mut candidate = expected.clone();
    candidate.active_subscription_id = Some(SubscriptionId("second".into()));
    candidate.active_configuration_generation += 1;
    queued(&mut observations, "fixture-operation");
    (observations, runtime, expected, candidate)
}

#[test]
fn activation_precommit_failures_and_cancellation_preserve_old_state_and_child() {
    for case in ["replace-check", "save", "mismatch", "reload", "cancelled", "cancel"] {
        let port = match case {
            "replace-check" => ReplacePort::new("check", 2),
            "cancel" => ReplacePort::new("prepare", 3),
            _ => ReplacePort::new("", 0),
        };
        let (mut observations, mut runtime, expected, candidate) = running_first(port);
        let result = match begin_activation(&mut runtime, &mut observations, "fixture-operation", config("new")) {
            Some(refused) => refused,
            None => {
                let mut other = expected.clone();
                other.subscriptions[0].description = "external edit".into();
                let persisted = match case {
                    "save" => Err(ActivationError::SaveFailed),
                    "mismatch" => persist_step(&other, &expected, &candidate, false).map(|_| ()),
                    "reload" => Err(ActivationError::StateUnavailable),
                    _ => Ok(()),
                };
                match persisted {
                    Err(error) => abandon_activation(&mut runtime, &mut observations, "fixture-operation", Some(error)),
                    Ok(()) => abandon_activation(&mut runtime, &mut observations, "fixture-operation", None),
                }
            }
        };
        let expected_code = match case {
            "replace-check" => SubscriptionSwitchErrorCode::ConfigurationFailed,
            "save" => SubscriptionSwitchErrorCode::SaveFailed,
            "mismatch" => SubscriptionSwitchErrorCode::Busy,
            "reload" => SubscriptionSwitchErrorCode::StateUnavailable,
            "cancel" => SubscriptionSwitchErrorCode::RecoveryRequired,
            _ => SubscriptionSwitchErrorCode::Cancelled,
        };
        let observation = observations.snapshot();
        let change = observation.subscription_switch.expect("terminal operation");
        assert_eq!(change.operation_id, "fixture-operation");
        assert_eq!(change.error_code, Some(expected_code), "{case}");
        assert_eq!(
            change.status,
            if case == "cancelled" {
                SubscriptionSwitchStatus::Cancelled
            } else {
                SubscriptionSwitchStatus::Failed
            }
        );
        if case == "cancel" {
            assert!(observation.applied_subscription_id.is_none());
            assert!(matches!(
                result,
                ActivationResult::Error {
                    error: ActivationError::RecoveryRequired,
                    ..
                }
            ));
        } else {
            assert_eq!(observation.applied_subscription_id.as_deref(), Some("sub"));
            assert_eq!(observation.applied_configuration_generation, Some(1));
            assert_eq!(
                runtime.active_config().expect("old child").as_bytes(),
                &b"old".to_vec()
            );
        }
        let runs = runtime.into_port().calls.iter().filter(|c| **c == "run").count();
        assert_eq!(runs, 1, "{case}: the old child keeps running");
    }
}

#[test]
fn activation_postcommit_failure_keeps_selection_and_reports_actual_runtime() {
    for (port, code, lifecycle, runs) in [
        (
            ReplacePort::new("stop", 1),
            ActivationError::StopFailed,
            veyra::observability::ObservedSidecarLifecycle::RecoveryRequired,
            1,
        ),
        (
            ReplacePort::new("run", 2),
            ActivationError::StartFailed,
            veyra::observability::ObservedSidecarLifecycle::Stopped,
            2,
        ),
    ] {
        let (mut observations, mut runtime, _, candidate) = running_first(port);
        let subscription = selected_summary(&candidate, "second").expect("summary");
        assert!(begin_activation(&mut runtime, &mut observations, "fixture-operation", config("new")).is_none());
        let result = finish_activation(
            &mut runtime,
            &mut observations,
            "fixture-operation",
            subscription,
            "second".to_owned(),
            2,
            false,
        );
        assert!(matches!(result, ActivationResult::Error { error, .. } if error == code));
        assert_eq!(observations.snapshot().sidecar_lifecycle, lifecycle);
        let calls = runtime.into_port().calls;
        assert_eq!(calls.iter().filter(|c| **c == "run").count(), runs);
        assert_eq!(
            calls.iter().filter(|c| **c == "stop").count(),
            1,
            "no automatic rollback"
        );
    }
}

#[test]
fn stopping_answers_already_stopped_only_for_a_stopped_or_absent_core() {
    let mut observations = InMemoryRuntimeObservations::new_mock();
    assert_eq!(
        veyra::managed_runtime::stop_runtime::<ScriptedPort>(None, &mut observations),
        ManagedRuntimeStopResult::AlreadyStopped
    );
    let mut runtime = SidecarRuntime::new_observation_only(ScriptedPort::default());
    assert_eq!(
        veyra::managed_runtime::stop_runtime(Some(&mut runtime), &mut observations),
        ManagedRuntimeStopResult::AlreadyStopped
    );
    queued(&mut observations, "op-9");
    assert!(begin_activation(&mut runtime, &mut observations, "op-9", config("c")).is_none());
    let summary = summaries(&selected_state()).expect("summaries").remove(0);
    finish_activation(&mut runtime, &mut observations, "op-9", summary, "sub".to_owned(), 2, false);
    assert_eq!(runtime.lifecycle(), SidecarLifecycle::Ready);
    assert_eq!(
        veyra::managed_runtime::stop_runtime(Some(&mut runtime), &mut observations),
        ManagedRuntimeStopResult::Stopped
    );
    assert_eq!(runtime.lifecycle(), SidecarLifecycle::Stopped);
}
