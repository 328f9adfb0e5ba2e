use veyra::domain::{
    AppState, NodeFilter, NodeId, NodePool, PoolId, PoolKind, PoolSource, ProtocolOptions,
    Provider, ProviderId, ProxyProtocol, RouteTarget, SelectionPolicy, Subscription,
    SubscriptionId, SubscriptionSource, SubscriptionUpdatePolicy,
};
use veyra::managed_runtime::{
    classify_selector_read_back, load_runtime_intent, should_return_already_current,
    start_stopped_runtime, AppliedRoutingIndex, LoadRuntimeIntentError, ManagedRuntimeStartResult,
    ManualSelectionRuntimeResult, ManualSelectionUnknownReason, SelectorRuntimeNodes,
};
use veyra::observability::{InMemoryRuntimeObservations, ObservedSidecarLifecycle};
use veyra::selected_subscription::{project_selected_runtime, SelectedRuntimeProjection};
use veyra::sidecar::{
    GeneratedConfig, ManagedSidecar, SidecarLifecycle, SidecarPort, SidecarPortError,
    SidecarRuntime,
};
use veyra::state_access::StateAccessGate;
use veyra::storage::{StateStore, StateStoreError};
use veyra::subscription::{normalize_nodes, ProxyNodeDraft};

fn valid_selected_state() -> AppState {
    let mut state = AppState::empty();
    state.subscriptions.push(Subscription {
        skipped_unsupported_nodes: 0,
        id: SubscriptionId("sub".into()),
        name: "fixture".into(),
        source: SubscriptionSource::Manual,
        document: None,
        last_success_at_ms: None,
        http_metadata: None,
        description: String::new(),
        last_attempt_at_ms: None,
        remote_request: None,
        update_policy: SubscriptionUpdatePolicy::manual(),
    });
    state.providers.push(Provider {
        id: ProviderId("provider".into()),
        subscription_id: SubscriptionId("sub".into()),
        name: "fixture".into(),
    });
    state.nodes = normalize_nodes(
        ProviderId("provider".into()),
        vec![ProxyNodeDraft {
            name: "fixture".into(),
            protocol: ProxyProtocol::Socks,
            server: "127.0.0.1".into(),
            port: 1080,
            options: ProtocolOptions::Credentials {
                username: None,
                password: None,
            },
            transport: None,
            tls: None,
        }],
    )
    .expect("normalize");
    state.pools.push(NodePool {
        id: PoolId("default".into()),
        name: "default".into(),
        kind: PoolKind::Custom,
        sources: vec![PoolSource {
            provider_id: ProviderId("provider".into()),
            filter: NodeFilter::default(),
        }],
        selection: SelectionPolicy::Manual {
            selected_node_id: None,
        },
        enabled: true,
    });
    state.default_target = RouteTarget::Pool(PoolId("default".into()));
    state.active_subscription_id = Some(SubscriptionId("sub".into()));
    state.active_configuration_generation = 1;
    state
}

fn valid_compilation_input() -> SelectedRuntimeProjection {
    project_selected_runtime(&valid_selected_state()).expect("selected projection")
}

fn candidate() -> Result<GeneratedConfig, ()> {
    Ok(GeneratedConfig::from_bytes(
        br#"{"outbounds":[{"type":"socks","tag":"fixture"}]}"#.to_vec(),
    ))
}

#[derive(Default)]
struct FailingPort {
    fault: &'static str,
    events: Vec<&'static str>,
}

impl SidecarPort for FailingPort {
    fn check(&mut self, _: &GeneratedConfig) -> Result<(), SidecarPortError> {
        self.events.push("check");
        if self.fault == "check" {
            Err(SidecarPortError)
        } else {
            Ok(())
        }
    }

    fn prepare(&mut self, _: &GeneratedConfig) -> Result<(), SidecarPortError> {
        self.events.push("prepare");
        Ok(())
    }

    fn run(&mut self) -> Result<ManagedSidecar, SidecarPortError> {
        self.events.push("run");
        if self.fault == "run" {
            Err(SidecarPortError)
        } else {
            Ok(ManagedSidecar::from_port_identity(1))
        }
    }

    fn ready(&mut self, _: &ManagedSidecar) -> Result<(), SidecarPortError> {
        self.events.push("ready");
        if matches!(self.fault, "ready" | "stop") {
            Err(SidecarPortError)
        } else {
            Ok(())
        }
    }

    fn stop(&mut self, _: &ManagedSidecar) -> Result<(), SidecarPortError> {
        self.events.push("stop");
        if self.fault == "stop" {
            Err(SidecarPortError)
        } else {
            Ok(())
        }
    }
}

struct UnusedStore;

impl StateStore for UnusedStore {
    fn load(&self) -> Result<AppState, StateStoreError> {
        Ok(valid_selected_state())
    }

    fn save(&self, _: &AppState) -> Result<(), StateStoreError> {
        Ok(())
    }
}

#[test]
fn force_bypasses_only_the_authoritative_already_current_shortcut() {
    let mut observations = InMemoryRuntimeObservations::new_mock();
    observations.record_subscription_ready("sub".into(), 7, None, false);
    let snapshot = observations.snapshot();
    assert!(should_return_already_current(false, &snapshot, "sub", 7));
    assert!(!should_return_already_current(true, &snapshot, "sub", 7));
    assert!(!should_return_already_current(false, &snapshot, "sub", 8));
}

#[test]
fn applied_routing_index_contains_only_generation_and_stable_runtime_tag_mapping() {
    let projection = valid_compilation_input();
    let index = AppliedRoutingIndex::from_projection(&projection);
    let pool = &index.pools[index
        .find_pool(&PoolId("default".into()))
        .expect("applied custom pool")];
    let node_id = projection.runtime_intent.pools[0].members[0].clone();
    let tags = &pool
        .members
        .iter()
        .find(|member| member.node_id == node_id)
        .expect("applied member")
        .tags;

    assert_eq!(index.configuration_generation, 1);
    assert_eq!(tags.pool, "pool-default");
    assert_eq!(tags.node, format!("node-{}", node_id.0));
}

#[test]
fn manual_selection_classifies_only_applied_index_read_back_tags() {
    let mut state = valid_selected_state();
    let mut sibling = state.nodes[0].clone();
    sibling.id = NodeId("runtime-old".into());
    state.nodes.push(sibling);
    let projection = project_selected_runtime(&state).expect("projection");
    let index = AppliedRoutingIndex::from_projection(&projection);
    let pool_id = PoolId("default".into());
    let members = &projection
        .runtime_intent
        .pools
        .iter()
        .find(|pool| pool.id == pool_id)
        .expect("custom pool")
        .members;
    let desired = members[0].clone();
    let old = members[1].clone();

    assert_eq!(
        classify_selector_read_back(
            &index,
            &mut SelectorRuntimeNodes::new(),
            &pool_id,
            &desired,
            &format!("node-{}", desired.0),
        ),
        ManualSelectionRuntimeResult::Applied
    );
    assert_eq!(
        classify_selector_read_back(
            &index,
            &mut SelectorRuntimeNodes::new(),
            &pool_id,
            &desired,
            &format!("node-{}", old.0),
        ),
        ManualSelectionRuntimeResult::NotApplied {
            runtime_node_id: old
        }
    );
    assert_eq!(
        classify_selector_read_back(
            &index,
            &mut SelectorRuntimeNodes::new(),
            &pool_id,
            &desired,
            "node-not-in-applied-artifact",
        ),
        ManualSelectionRuntimeResult::ApplyUnknown(ManualSelectionUnknownReason::UnknownRuntimeNode)
    );
}

#[test]
fn each_start_failure_reports_its_stage_and_actual_lifecycle_without_retry() {
    for (fault, result, lifecycle, message, runs) in [
        (
            "check",
            ManagedRuntimeStartResult::ConfigurationFailed,
            ObservedSidecarLifecycle::Stopped,
            "Configuration generation failed; candidate not applied",
            0,
        ),
        (
            "run",
            ManagedRuntimeStartResult::StartFailed,
            ObservedSidecarLifecycle::Stopped,
            "Core startup failed",
            1,
        ),
        (
            "ready",
            ManagedRuntimeStartResult::StartFailed,
            ObservedSidecarLifecycle::Stopped,
            "Core startup failed",
            1,
        ),
        (
            "stop",
            ManagedRuntimeStartResult::StartFailed,
            ObservedSidecarLifecycle::RecoveryRequired,
            "Core startup failed",
            1,
        ),
    ] {
        let mut observations = InMemoryRuntimeObservations::new_mock();
        let mut runtime = SidecarRuntime::new_observation_only(FailingPort {
            fault,
            ..Default::default()
        });
        assert_eq!(
            start_stopped_runtime(
                &mut runtime,
                &valid_compilation_input(),
                candidate(),
                &mut observations
            ),
            result,
            "{fault}"
        );
        let snapshot = observations.snapshot();
        assert_eq!(snapshot.sidecar_lifecycle, lifecycle, "{fault}");
        assert_eq!(snapshot.connections.active, 0);
        assert_eq!(snapshot.latest_log.expect("failure log").message, message);
        assert_eq!(
            runtime
                .into_port()
                .events
                .iter()
                .filter(|event| **event == "run")
                .count(),
            runs
        );
    }
}

#[test]
fn start_state_load_fails_fast_while_a_state_commit_holds_the_gate() {
    let mut gate = StateAccessGate::default();
    gate.try_lock().expect("hold state commit gate");

    assert!(matches!(
        load_runtime_intent(&mut gate, &UnusedStore),
        Err(LoadRuntimeIntentError::Busy)
    ));
}

#[test]
fn a_started_core_publishes_the_selected_subscription_and_generation() {
    let mut observations = InMemoryRuntimeObservations::new_mock();
    let mut runtime = SidecarRuntime::new_observation_only(FailingPort::default());
    assert_eq!(
        start_stopped_runtime(
            &mut runtime,
            &valid_compilation_input(),
            candidate(),
            &mut observations
        ),
        ManagedRuntimeStartResult::Started
    );
    assert_eq!(runtime.lifecycle(), SidecarLifecycle::Ready);
    let snapshot = observations.snapshot();
    assert_eq!(snapshot.sidecar_lifecycle, ObservedSidecarLifecycle::Ready);
    assert_eq!(snapshot.applied_subscription_id.as_deref(), Some("sub"));
    assert_eq!(snapshot.applied_configuration_generation, Some(1));
}

#[test]
fn a_free_gate_loads_the_selected_projection_and_is_released() {
    let mut gate = StateAccessGate::new();
    let projection = load_runtime_intent(&mut gate, &UnusedStore).expect("projection");
    assert_eq!(projection.selected_subscription_id.0, "sub");
    assert_eq!(gate.try_lock(), Ok(()));
}
