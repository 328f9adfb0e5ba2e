use veyra::activation::{routing_apply_terminal, worker_answer, WorkerReply};
use veyra::activation::plan_activation;
use veyra::document_apply::{
    document_needs_apply, map_document_error, read_running_configuration, DocumentSaveError,
    RunningConfigurationError, RunningConfigurationResult, RUNNING_CONFIGURATION_MAX_BYTES,
};
use veyra::document_save::share_url;
use veyra::domain::{
    AppState, NodeFilter, NodeId, NodePool, PoolId, PoolKind, PoolSource, ProtocolOptions,
    Provider, ProviderId, ProxyProtocol, RemoteRequestOptions, RouteTarget, SelectionPolicy,
    Subscription, SubscriptionId, SubscriptionProxyMode, SubscriptionSource,
    SubscriptionUpdatePolicy,
};
use veyra::managed_runtime::{
    plan_selector_dispatch, settle_selector_read_back, start_stopped_runtime, ActivationError,
    AppliedRoutingIndex, ManagedRuntimeStartResult, ManualSelectionRuntimeResult,
    ManualSelectionSavedOnlyReason, ManualSelectionUnknownReason, SelectorRuntimeNodes,
};
use veyra::observability::InMemoryRuntimeObservations;
use veyra::selected_subscription::{project_selected_runtime, SelectedRuntimeProjection};
use veyra::sidecar::{
    GeneratedConfig, ManagedSidecar, SidecarLifecycle, SidecarPort, SidecarPortError,
    SidecarRuntime,
};
use veyra::subscription::{normalize_nodes, ProxyNodeDraft};
use veyra::subscription_management::{
    safe_url_preview, settings_for, DocumentOperationError, SubscriptionSourceKind,
};

fn valid_selected_state() -> AppState {
    let mut state = AppState::empty();
    state.subscriptions.push(Subscription {
        skipped_unsupported_nodes: 0,
        id: SubscriptionId("sub".into()),
        name: "fixture".into(),
        source: SubscriptionSource::Manual,
        document: None,
        last_success_at_ms: None,
        http_metadata: None,
        description: String::new(),
        last_attempt_at_ms: None,
        remote_request: None,
        update_policy: SubscriptionUpdatePolicy::manual(),
    });
    state.providers.push(Provider {
        id: ProviderId("provider".into()),
        subscription_id: SubscriptionId("sub".into()),
        name: "fixture".into(),
    });
    state.nodes = normalize_nodes(
        ProviderId("provider".into()),
        vec![ProxyNodeDraft {
            name: "fixture".into(),
            protocol: ProxyProtocol::Socks,
            server: "127.0.0.1".into(),
            port: 1080,
            options: ProtocolOptions::Credentials {
                username: None,
                password: None,
            },
            transport: None,
            tls: None,
        }],
    )
    .expect("normalize");
    state.pools.push(NodePool {
        id: PoolId("default".into()),
        name: "default".into(),
        kind: PoolKind::Custom,
        sources: vec![PoolSource {
            provider_id: ProviderId("provider".into()),
            filter: NodeFilter::default(),
        }],
        selection: SelectionPolicy::Manual {
            selected_node_id: None,
        },
        enabled: true,
    });
    state.default_target = RouteTarget::Pool(PoolId("default".into()));
    state.active_subscription_id = Some(SubscriptionId("sub".into()));
    state.active_configuration_generation = 1;
    state
}

fn projection() -> SelectedRuntimeProjection {
    project_selected_runtime(&valid_selected_state()).expect("selected projection")
}

const CONFIG: &[u8] = br#"{"outbounds":[{"type":"socks","tag":"fixture"}]}"#;

#[derive(Default)]
struct RecordingPort {
    events: Vec<&'static str>,
}

impl SidecarPort for RecordingPort {
    fn check(&mut self, _: &GeneratedConfig) -> Result<(), SidecarPortError> {
        self.events.push("check");
        Ok(())
    }

    fn prepare(&mut self, _: &GeneratedConfig) -> Result<(), SidecarPortError> {
        self.events.push("prepare");
        Ok(())
    }

    fn run(&mut self) -> Result<ManagedSidecar, SidecarPortError> {
        self.events.push("run");
        Ok(ManagedSidecar::from_port_identity(1))
    }

    fn ready(&mut self, _: &ManagedSidecar) -> Result<(), SidecarPortError> {
        self.events.push("ready");
        Ok(())
    }

    fn stop(&mut self, _: &ManagedSidecar) -> Result<(), SidecarPortError> {
        self.events.push("stop");
        Ok(())
    }
}

fn started() -> (InMemoryRuntimeObservations, SidecarRuntime<RecordingPort>) {
    let mut observations = InMemoryRuntimeObservations::new_mock();
    let mut runtime = SidecarRuntime::new_observation_only(RecordingPort::default());
    assert_eq!(
        start_stopped_runtime(
            &mut runtime,
            &projection(),
            Ok(GeneratedConfig::from_bytes(CONFIG.to_vec())),
            &mut observations,
        ),
        ManagedRuntimeStartResult::Started
    );
    (observations, runtime)
}

#[test]
fn manual_selection_does_no_io_when_stopped_or_missing_from_applied_index() {
    let mut observations = InMemoryRuntimeObservations::new_mock();
    let snapshot = observations.snapshot();
    assert_eq!(
        plan_selector_dispatch::<RecordingPort>(
            None,
            &snapshot,
            None,
            &PoolId("pool".into()),
            &NodeId("node".into()),
        )
        .err(),
        Some(ManualSelectionRuntimeResult::SavedOnly(
            ManualSelectionSavedOnlyReason::RuntimeStopped
        ))
    );

    let (mut observations, runtime) = started();
    observations.record_subscription_ready("sub".into(), 1, None, false);
    let snapshot = observations.snapshot();
    assert_eq!(
        plan_selector_dispatch(
            Some(&runtime),
            &snapshot,
            None,
            &PoolId("default".into()),
            &NodeId("node".into()),
        )
        .err(),
        Some(ManualSelectionRuntimeResult::SavedOnly(
            ManualSelectionSavedOnlyReason::NotInAppliedArtifact
        ))
    );
    assert_eq!(
        runtime.into_port().events,
        vec!["check", "prepare", "run", "ready"],
        "no selector transport dispatch"
    );
}

#[test]
fn a_ready_core_dispatches_to_the_applied_tags_and_settles_the_read_back() {
    let (mut observations, runtime) = started();
    let snapshot = observations.snapshot();
    let projection = projection();
    let index = AppliedRoutingIndex::from_projection(&projection);
    let node = projection.runtime_intent.pools[0].members[0].clone();
    let pool = PoolId("default".into());
    let dispatch = plan_selector_dispatch(Some(&runtime), &snapshot, Some(&index), &pool, &node)
        .ok()
        .expect("dispatch");
    assert_eq!(dispatch.tags.pool, "pool-default");
    assert_eq!(dispatch.tags.node, format!("node-{}", node.0));
    assert_eq!(dispatch.instance, 1);

    let mut recorded = SelectorRuntimeNodes::new();
    assert_eq!(
        settle_selector_read_back(
            &index,
            &mut recorded,
            &pool,
            &node,
            1,
            Some(1),
            Some(1),
            Some(format!("node-{}", node.0)),
        ),
        ManualSelectionRuntimeResult::Applied
    );
    assert_eq!(
        settle_selector_read_back(&index, &mut recorded, &pool, &node, 1, Some(2), Some(1), None),
        ManualSelectionRuntimeResult::ApplyUnknown(ManualSelectionUnknownReason::InstanceChanged)
    );
    assert_eq!(
        settle_selector_read_back(&index, &mut recorded, &pool, &node, 1, Some(1), Some(1), None),
        ManualSelectionRuntimeResult::ApplyUnknown(
            ManualSelectionUnknownReason::ReadBackUnavailable
        )
    );
    let mut stale_index = index.clone();
    stale_index.configuration_generation = 2;
    assert_eq!(
        plan_selector_dispatch(Some(&runtime), &snapshot, Some(&stale_index), &pool, &node).err(),
        Some(ManualSelectionRuntimeResult::SavedOnly(
            ManualSelectionSavedOnlyReason::NotInAppliedArtifact
        ))
    );
}

#[test]
fn running_configuration_reads_exact_active_slot_with_applied_pair() {
    let (mut observations, runtime) = started();
    observations.record_subscription_ready("sub".into(), 1, None, false);
    let expected = String::from_utf8(CONFIG.to_vec()).expect("utf-8 fixture");
    assert!(matches!(
        read_running_configuration(Some(&runtime), &observations.snapshot()),
        RunningConfigurationResult::Success {
            content,
            applied_subscription_id,
            applied_configuration_generation: 1,
        } if content == expected && applied_subscription_id == "sub"
    ));
    observations.record_managed_recovery();
    assert!(matches!(
        read_running_configuration(Some(&runtime), &observations.snapshot()),
        RunningConfigurationResult::Error(RunningConfigurationError::RecoveryRequired)
    ));
}

#[test]
fn running_configuration_rejects_active_bytes_over_limit() {
    let (mut observations, mut runtime) = started();
    let mut bytes = runtime.active_config().expect("active").as_bytes().clone();
    bytes.resize(RUNNING_CONFIGURATION_MAX_BYTES + 1, b' ');
    runtime
        .start_or_replace(GeneratedConfig::from_bytes(bytes))
        .expect("mock ready");
    observations.record_subscription_ready("sub".into(), 1, None, false);
    assert!(matches!(
        read_running_configuration(Some(&runtime), &observations.snapshot()),
        RunningConfigurationResult::Error(RunningConfigurationError::ContentTooLarge)
    ));
}

#[test]
fn running_configuration_needs_a_running_core_and_valid_text() {
    let mut observations = InMemoryRuntimeObservations::new_mock();
    assert!(matches!(
        read_running_configuration::<RecordingPort>(None, &observations.snapshot()),
        RunningConfigurationResult::Error(RunningConfigurationError::NotRunning)
    ));
    let (mut observations, mut runtime) = started();
    runtime
        .start_or_replace(GeneratedConfig::from_bytes(vec![0xff, 0xfe]))
        .expect("mock ready");
    observations.record_subscription_ready("sub".into(), 1, None, false);
    assert!(matches!(
        read_running_configuration(Some(&runtime), &observations.snapshot()),
        RunningConfigurationResult::Error(RunningConfigurationError::RecoveryRequired)
    ));
    runtime.stop().expect("stop");
    assert_eq!(runtime.lifecycle(), SidecarLifecycle::Stopped);
    assert!(matches!(
        read_running_configuration(Some(&runtime), &observations.snapshot()),
        RunningConfigurationResult::Error(RunningConfigurationError::NotRunning)
    ));
}

#[test]
fn activation_plans_select_advance_and_detect_the_running_configuration() {
    let mut state = valid_selected_state();
    state.active_subscription_id = None;
    state.active_configuration_generation = 4;
    let mut observations = InMemoryRuntimeObservations::new_mock();
    let snapshot = observations.snapshot();
    let plan = plan_activation(&state, "sub", false, None, &snapshot)
        .ok()
        .expect("plan");
    assert_eq!(plan.generation, 5);
    assert_eq!(
        plan.candidate.active_subscription_id,
        Some(SubscriptionId("sub".into()))
    );
    assert_eq!(plan.subscription.id, "sub");
    assert!(plan.subscription.active);
    assert!(!plan.already_current);
    assert!(!plan.reactivation);

    assert_eq!(
        plan_activation(&state, "   ", false, None, &snapshot).err(),
        Some(ActivationError::InvalidInput)
    );
    assert_eq!(
        plan_activation(&state, "other", false, None, &snapshot).err(),
        Some(ActivationError::NotFound)
    );
    assert_eq!(
        plan_activation(&state, "sub", false, Some(4), &snapshot).err(),
        Some(ActivationError::StateChanged)
    );

    let selected = valid_selected_state();
    observations.record_subscription_ready("sub".into(), 1, None, false);
    let ready = observations.snapshot();
    let current = plan_activation(&selected, "sub", false, Some(1), &ready)
        .ok()
        .expect("plan");
    assert_eq!(current.generation, 1);
    assert!(current.already_current);
    let forced = plan_activation(&selected, "sub", true, None, &ready)
        .ok()
        .expect("plan");
    assert!(!forced.already_current);
    assert!(forced.reactivation);
}

#[test]
fn a_saved_document_is_applied_unless_the_runtime_already_runs_it() {
    let mut observations = InMemoryRuntimeObservations::new_mock();
    observations.record_subscription_ready("sub".into(), 3, None, false);
    let ready = observations.snapshot();
    assert!(!document_needs_apply(false, false, false, &ready, "sub", 3));
    assert!(!document_needs_apply(false, true, true, &ready, "sub", 3));
    assert!(document_needs_apply(false, true, true, &ready, "sub", 4));
    assert!(document_needs_apply(false, true, false, &ready, "sub", 3));
    assert!(document_needs_apply(true, false, false, &ready, "sub", 3));
}

#[test]
fn document_failures_keep_their_wire_names() {
    assert_eq!(
        map_document_error(DocumentOperationError::DocumentConflict),
        DocumentSaveError::DocumentConflict
    );
    assert_eq!(
        map_document_error(DocumentOperationError::SaveFailed),
        DocumentSaveError::SaveFailed
    );
}

#[test]
fn settings_hide_custom_user_agent_and_query_while_share_requires_explicit_read() {
    let mut state = valid_selected_state();
    state.subscriptions[0].source = SubscriptionSource::Remote {
        url: "https://example.invalid/sub?token=sensitive#fragment".to_owned(),
    };
    state.subscriptions[0].remote_request = Some(RemoteRequestOptions {
        user_agent: Some("private-client-name".to_owned()),
        timeout_seconds: 30,
        proxy_mode: SubscriptionProxyMode::Direct,
        verify_tls: true,
    });
    let settings = settings_for(&state.subscriptions[0]);
    assert!(settings.has_custom_user_agent);
    assert_eq!(
        settings.url_preview.as_deref(),
        Some("https://example.invalid/sub")
    );
    assert_eq!(settings.source_kind, SubscriptionSourceKind::Remote);
    assert!(settings.shareable);
    let rendered = format!("{settings:?}");
    assert!(!rendered.contains("private-client-name"));
    assert!(!rendered.contains("sensitive"));
    assert_eq!(
        share_url(&state, "sub").expect("explicit share"),
        "https://example.invalid/sub?token=sensitive#fragment"
    );
}

#[test]
fn url_previews_drop_credentials_and_need_a_host() {
    assert_eq!(
        safe_url_preview("https://user:pw@example.com:8443/path/a?q=1#f").as_deref(),
        Some("https://example.com:8443/path/a")
    );
    assert_eq!(safe_url_preview("not a url"), None);
    assert_eq!(safe_url_preview("mailto:someone@example.com"), None);
}

#[test]
fn a_worker_that_does_not_answer_in_time_leaves_the_activation_pending() {
    assert_eq!(
        worker_answer(WorkerReply::TimedOut, "op-1"),
        veyra::managed_runtime::ActivationResult::Pending { operation_id: "op-1".to_owned() }
    );
    assert_eq!(
        worker_answer(WorkerReply::Gone, "op-1"),
        veyra::managed_runtime::ActivationResult::Error {
            operation_id: Some("op-1".to_owned()),
            error: veyra::managed_runtime::ActivationError::RecoveryRequired,
        }
    );
    let answered = veyra::managed_runtime::ActivationResult::Pending { operation_id: "op-2".to_owned() };
    assert_eq!(worker_answer(WorkerReply::Answered(answered.clone()), "op-1"), answered);
}

#[test]
fn a_refused_routing_apply_records_the_tuple_it_read_or_else_the_one_it_asked_for() {
    let read = routing_apply_terminal(
        "op-1",
        veyra::managed_runtime::ActivationError::StateChanged,
        false,
        Some((Some("sub-a".to_owned()), 4)),
        "sub-b",
        7,
    )
    .expect("terminal");
    assert_eq!(read.active_subscription_id.as_deref(), Some("sub-a"));
    assert_eq!(read.desired_generation, 4);
    assert_eq!(read.failure, veyra::managed_runtime::RoutingApplyTerminalFailure::StateChanged);
    let asked = routing_apply_terminal(
        "op-1",
        veyra::managed_runtime::ActivationError::NotFound,
        true,
        None,
        "sub-b",
        7,
    )
    .expect("terminal");
    assert_eq!(asked.active_subscription_id.as_deref(), Some("sub-b"));
    assert_eq!(asked.desired_generation, 7);
    assert_eq!(asked.failure, veyra::managed_runtime::RoutingApplyTerminalFailure::ConfigurationFailed);
    assert!(routing_apply_terminal(
        "op-1",
        veyra::managed_runtime::ActivationError::Busy,
        false,
        None,
        "sub-b",
        7
    )
    .is_none());
}
