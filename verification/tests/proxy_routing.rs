use veyra::domain::{
    AppState, NodeId, NodePool, PoolId, PoolKind, RoutePolicy, RoutePolicyId, RouteTarget,
    SelectionPolicy, SubscriptionId, TrafficMatcher,
};
use veyra::managed_runtime::{
    ActivationError, ManualSelectionRuntimeResult, ManualSelectionSavedOnlyReason,
    RoutingApplyTerminal, RoutingApplyTerminalFailure,
};
use veyra::observability::{
    InMemoryRuntimeObservations, SubscriptionSwitch, SubscriptionSwitchErrorCode,
    SubscriptionSwitchStatus,
};
use veyra::proxy_routing::{
    apply_mutation, canonical_runtime_apply_state, map_activation_error, settle_manual_outcome,
    validate_matcher, validate_name, validate_references, validate_selection, validate_sources,
    validate_texts, ApplyFailure, ApplyState, CasMaterial, MutationError, MutationOutcome,
    ProxyRoutingMutation, RevisionState, RuntimeState, SelectorApplyUnknownReason,
    SelectorSavedOnlyReason, MAX_FILTER_NODE_IDS, MAX_FILTER_TEXTS, MAX_MATCHER_VALUES,
    MAX_SOURCES,
};
use veyra::routing_dto::{MatcherDto, NodeFilterDto, PoolSourceDto, SelectionDto};

#[test]
fn frozen_validation_boundaries_accept_limits_and_reject_plus_or_minus_one() {
    assert_eq!(validate_name(&"n".repeat(80)), Ok(()));
    assert_eq!(
        validate_name(&"n".repeat(81)),
        Err(MutationError::InvalidInput)
    );
    assert_eq!(validate_texts(&["x".repeat(255)], 1), Ok(()));
    assert_eq!(
        validate_texts(&["x".repeat(256)], 1),
        Err(MutationError::InvalidInput)
    );

    for (interval_seconds, tolerance_ms, expected) in [
        (0, 0, Err(MutationError::InvalidInput)),
        (1, 0, Ok(())),
        (86_400, 60_000, Ok(())),
        (86_401, 60_000, Err(MutationError::InvalidInput)),
        (1, 60_001, Err(MutationError::InvalidInput)),
    ] {
        assert_eq!(
            validate_selection(&SelectionDto::UrlTest {
                probe_url: "https://example.com/generate_204".into(),
                interval_seconds,
                tolerance_ms,
            }),
            expected
        );
    }

    assert_eq!(validate_matcher(&MatcherDto::Port(vec![1])), Ok(()));
    assert_eq!(
        validate_matcher(&MatcherDto::Port(vec![0])),
        Err(MutationError::InvalidInput)
    );
    assert_eq!(validate_matcher(&MatcherDto::Port(vec![u16::MAX])), Ok(()));

    let references = (0..=MAX_FILTER_NODE_IDS)
        .map(|index| format!("node-{index}"))
        .collect::<Vec<_>>();
    assert_eq!(
        validate_references(&references[..MAX_FILTER_NODE_IDS], MAX_FILTER_NODE_IDS),
        Ok(())
    );
    assert_eq!(
        validate_references(&references, MAX_FILTER_NODE_IDS),
        Err(MutationError::InvalidInput)
    );

    let matcher_values = (0..=MAX_MATCHER_VALUES)
        .map(|index| format!("domain-{index}.example"))
        .collect::<Vec<_>>();
    assert_eq!(
        validate_matcher(&MatcherDto::Domain(
            matcher_values[..MAX_MATCHER_VALUES].to_vec()
        )),
        Ok(())
    );
    assert_eq!(
        validate_matcher(&MatcherDto::Domain(matcher_values)),
        Err(MutationError::InvalidInput)
    );

    let filter_texts = (0..=MAX_FILTER_TEXTS)
        .map(|index| format!("region-{index}"))
        .collect::<Vec<_>>();
    assert_eq!(
        validate_texts(&filter_texts[..MAX_FILTER_TEXTS], MAX_FILTER_TEXTS),
        Ok(())
    );
    assert_eq!(
        validate_texts(&filter_texts, MAX_FILTER_TEXTS),
        Err(MutationError::InvalidInput)
    );

    let sources = (0..=MAX_SOURCES)
        .map(|index| PoolSourceDto {
            provider_id: format!("provider-{index}"),
            filter: NodeFilterDto {
                regions: vec![],
                protocols: vec![],
                include_keywords: vec![],
                exclude_keywords: vec![],
                include_node_ids: vec![],
                exclude_node_ids: vec![],
            },
        })
        .collect::<Vec<_>>();
    assert_eq!(validate_sources(&sources[..MAX_SOURCES]), Ok(()));
    assert_eq!(validate_sources(&sources), Err(MutationError::InvalidInput));
}

#[test]
fn manual_selection_only_changes_revision_material_not_generation() {
    let mut state = AppState::empty();
    state.pools.push(NodePool {
        id: PoolId("pool".into()),
        name: "Pool".into(),
        kind: PoolKind::Custom,
        sources: vec![],
        selection: SelectionPolicy::Manual {
            selected_node_id: None,
        },
        enabled: false,
    });
    let generation = state.active_configuration_generation;
    let result = apply_mutation(
        &mut state,
        ProxyRoutingMutation::SetManualSelection {
            pool_id: "pool".into(),
            node_id: "node".into(),
        },
    )
    .unwrap();
    assert_eq!(state.active_configuration_generation, generation);
    assert!(matches!(result, MutationOutcome::SelectorSavedOnly { .. }));
}

#[test]
fn duplicate_or_incomplete_reorder_is_rejected() {
    let mut state = AppState::empty();
    state.routes = ["a", "b"]
        .into_iter()
        .enumerate()
        .map(|(i, id)| RoutePolicy {
            id: RoutePolicyId(id.into()),
            name: id.into(),
            enabled: false,
            priority: i as i32,
            matcher: TrafficMatcher::Domain(vec!["example.com".into()]),
            target: RouteTarget::Direct,
        })
        .collect();
    assert_eq!(
        apply_mutation(
            &mut state,
            ProxyRoutingMutation::ReorderRoutes {
                route_ids: vec!["a".into(), "a".into()]
            }
        ),
        Err(MutationError::ValidationFailed)
    );
}

#[test]
fn revision_observe_bumps_only_when_cas_material_changes() {
    let mut revision = RevisionState::new();
    let mut state = AppState::empty();
    assert_eq!(revision.observe(CasMaterial::from_state(&state)), Ok(1));
    assert_eq!(revision.observe(CasMaterial::from_state(&state)), Ok(1));
    state.active_configuration_generation = 1;
    assert_eq!(revision.observe(CasMaterial::from_state(&state)), Ok(2));
}

#[test]
fn apply_tuple_drift_maps_to_the_frozen_state_changed_error() {
    assert_eq!(
        map_activation_error(ActivationError::StateChanged),
        MutationError::StateChanged
    );
}

#[test]
fn canonical_apply_mapping_owns_in_progress_and_terminal_runtime_truth() {
    let mut observations = InMemoryRuntimeObservations::new_mock();
    let mut snapshot = observations.snapshot();
    let mut state = AppState::empty();
    state.active_configuration_generation = 2;
    state.active_subscription_id = Some(SubscriptionId("sub".into()));

    snapshot.applied_subscription_id = Some("sub".into());
    snapshot.applied_configuration_generation = Some(2);
    assert_eq!(
        canonical_runtime_apply_state(
            &snapshot,
            RuntimeState::Ready,
            &state,
            &Some("sub".into()),
            false,
            None,
        ),
        (RuntimeState::Ready, ApplyState::Applied)
    );
    snapshot.applied_configuration_generation = Some(1);
    assert_eq!(
        canonical_runtime_apply_state(
            &snapshot,
            RuntimeState::Ready,
            &state,
            &Some("sub".into()),
            false,
            None,
        ),
        (RuntimeState::Ready, ApplyState::SavedPendingApply)
    );
    assert_eq!(
        canonical_runtime_apply_state(
            &snapshot,
            RuntimeState::Stopped,
            &state,
            &Some("sub".into()),
            false,
            None,
        ),
        (RuntimeState::Stopped, ApplyState::SavedPendingApply)
    );

    snapshot.subscription_switch = Some(SubscriptionSwitch {
        operation_id: "op".into(),
        status: SubscriptionSwitchStatus::Checking,
        error_code: None,
    });
    assert_eq!(
        canonical_runtime_apply_state(
            &snapshot,
            RuntimeState::Ready,
            &state,
            &Some("sub".into()),
            true,
            None,
        ),
        (
            RuntimeState::Transitioning,
            ApplyState::Applying {
                operation_id: "op".into()
            }
        )
    );

    for (error_code, expected_runtime, expected_failure) in [
        (
            SubscriptionSwitchErrorCode::StopFailed,
            RuntimeState::RecoveryRequired,
            ApplyFailure::StopFailed,
        ),
        (
            SubscriptionSwitchErrorCode::StartFailed,
            RuntimeState::Stopped,
            ApplyFailure::StartFailed,
        ),
        (
            SubscriptionSwitchErrorCode::RecoveryRequired,
            RuntimeState::RecoveryRequired,
            ApplyFailure::RecoveryRequired,
        ),
    ] {
        snapshot.subscription_switch = Some(SubscriptionSwitch {
            operation_id: "op".into(),
            status: SubscriptionSwitchStatus::Failed,
            error_code: Some(error_code),
        });
        assert_eq!(
            canonical_runtime_apply_state(
                &snapshot,
                RuntimeState::Ready,
                &state,
                &Some("sub".into()),
                true,
                None,
            ),
            (
                expected_runtime,
                ApplyState::SavedApplyFailed {
                    operation_id: "op".into(),
                    error: expected_failure,
                }
            )
        );
    }

    snapshot.subscription_switch = Some(SubscriptionSwitch {
        operation_id: "op".into(),
        status: SubscriptionSwitchStatus::Failed,
        error_code: Some(SubscriptionSwitchErrorCode::OperationTimedOut),
    });
    assert_eq!(
        canonical_runtime_apply_state(
            &snapshot,
            RuntimeState::Ready,
            &state,
            &Some("sub".into()),
            true,
            None,
        ),
        (
            RuntimeState::Transitioning,
            ApplyState::ApplyUnknown {
                operation_id: "op".into()
            }
        )
    );

    for (failure, expected) in [
        (
            RoutingApplyTerminalFailure::ConfigurationFailed,
            ApplyFailure::ConfigurationFailed,
        ),
        (
            RoutingApplyTerminalFailure::StateChanged,
            ApplyFailure::StateChanged,
        ),
    ] {
        let terminal = RoutingApplyTerminal {
            operation_id: "terminal".into(),
            active_subscription_id: Some("sub".into()),
            desired_generation: 2,
            failure,
        };
        assert_eq!(
            canonical_runtime_apply_state(
                &snapshot,
                RuntimeState::Ready,
                &state,
                &Some("sub".into()),
                false,
                Some(&terminal),
            ),
            (
                RuntimeState::Ready,
                ApplyState::SavedApplyFailed {
                    operation_id: "terminal".into(),
                    error: expected,
                }
            )
        );
    }

    let stale_terminal = RoutingApplyTerminal {
        operation_id: "op".into(),
        active_subscription_id: Some("sub".into()),
        desired_generation: 1,
        failure: RoutingApplyTerminalFailure::ConfigurationFailed,
    };
    assert_eq!(
        canonical_runtime_apply_state(
            &snapshot,
            RuntimeState::Ready,
            &state,
            &Some("sub".into()),
            true,
            Some(&stale_terminal),
        ),
        (RuntimeState::Ready, ApplyState::SavedPendingApply)
    );

    assert_eq!(
        canonical_runtime_apply_state(
            &snapshot,
            RuntimeState::Ready,
            &state,
            &Some("sub".into()),
            false,
            None,
        ),
        (RuntimeState::Ready, ApplyState::SavedPendingApply)
    );
}

#[test]
fn post_save_manual_result_only_uses_superseded_when_a_reload_proves_drift() {
    let mut state = AppState::empty();
    state.pools.push(NodePool {
        id: PoolId("pool".into()),
        name: "Pool".into(),
        kind: PoolKind::Custom,
        sources: vec![],
        selection: SelectionPolicy::Manual {
            selected_node_id: Some(NodeId("node".into())),
        },
        enabled: false,
    });
    let fallback = settle_manual_outcome(
        "pool".into(),
        "node".into(),
        ManualSelectionRuntimeResult::SavedOnly(ManualSelectionSavedOnlyReason::DispatchUnavailable),
        &state,
        false,
    );
    assert!(matches!(
        fallback,
        MutationOutcome::SelectorSavedOnly {
            reason: SelectorSavedOnlyReason::DispatchUnavailable,
            ..
        }
    ));

    if let SelectionPolicy::Manual { selected_node_id } = &mut state.pools[0].selection {
        *selected_node_id = Some(NodeId("newer".into()));
    }
    assert!(matches!(
        settle_manual_outcome(
            "pool".into(),
            "node".into(),
            ManualSelectionRuntimeResult::Applied,
            &state,
            true,
        ),
        MutationOutcome::SelectorApplyUnknown {
            reason: SelectorApplyUnknownReason::Superseded,
            ..
        }
    ));
}
