use std::cell::RefCell;

use veyra::domain::{
    AppState, NodeFilter, NodePool, PoolId, PoolKind, PoolSource, ProtocolOptions, Provider,
    ProviderId, ProxyProtocol, RouteTarget, SelectionPolicy, Subscription, SubscriptionId,
    SubscriptionSource, SubscriptionUpdatePolicy,
};
use veyra::proxy_routing::{
    MutateProxyRoutingRequest, MutationError, MutationOutcome, MutationResult, MutationStep,
    ProxyRoutingManager, ProxyRoutingMutation,
};
use veyra::routing_dto::DefaultTargetDto;
use veyra::storage::{StateStore, StateStoreError};
use veyra::subscription::{normalize_nodes, ProxyNodeDraft};

struct MemoryStore {
    state: RefCell<AppState>,
}

impl StateStore for MemoryStore {
    fn load(&self) -> Result<AppState, StateStoreError> {
        Ok(self.state.borrow().clone())
    }

    fn save(&self, state: &AppState) -> Result<(), StateStoreError> {
        *self.state.borrow_mut() = state.clone();
        Ok(())
    }
}

fn selected_state() -> AppState {
    let mut state = AppState::empty();
    state.subscriptions.push(Subscription {
        skipped_unsupported_nodes: 0,
        id: SubscriptionId("sub".into()),
        name: "fixture".into(),
        source: SubscriptionSource::Manual,
        document: None,
        last_success_at_ms: None,
        http_metadata: None,
        description: String::new(),
        last_attempt_at_ms: None,
        remote_request: None,
        update_policy: SubscriptionUpdatePolicy::manual(),
    });
    state.providers.push(Provider {
        id: ProviderId("provider".into()),
        subscription_id: SubscriptionId("sub".into()),
        name: "fixture".into(),
    });
    state.nodes = normalize_nodes(
        ProviderId("provider".into()),
        vec![ProxyNodeDraft {
            name: "fixture".into(),
            protocol: ProxyProtocol::Socks,
            server: "127.0.0.1".into(),
            port: 1080,
            options: ProtocolOptions::Credentials {
                username: None,
                password: None,
            },
            transport: None,
            tls: None,
        }],
    )
    .expect("normalize");
    state.pools.push(NodePool {
        id: PoolId("default".into()),
        name: "default".into(),
        kind: PoolKind::Custom,
        sources: vec![PoolSource {
            provider_id: ProviderId("provider".into()),
            filter: NodeFilter::default(),
        }],
        selection: SelectionPolicy::Manual {
            selected_node_id: None,
        },
        enabled: true,
    });
    state.default_target = RouteTarget::Pool(PoolId("default".into()));
    state.active_subscription_id = Some(SubscriptionId("sub".into()));
    state.active_configuration_generation = 1;
    state
}

fn request(expected_revision: u64, mutation: ProxyRoutingMutation) -> MutateProxyRoutingRequest {
    MutateProxyRoutingRequest {
        expected_revision,
        mutation,
    }
}

fn refusal(step: MutationStep) -> (MutationError, Option<u64>) {
    match step {
        MutationStep::Answered(MutationResult::Error { error, revision }) => (error, revision),
        _ => panic!("expected a refusal"),
    }
}

#[test]
fn edits_name_the_revision_they_were_made_against() {
    let mut manager = ProxyRoutingManager::new(MemoryStore {
        state: RefCell::new(selected_state()),
    });
    assert_eq!(
        refusal(manager.mutate(request(
            0,
            ProxyRoutingMutation::SetDefaultTarget {
                target: DefaultTargetDto::Direct
            }
        ))),
        (MutationError::InvalidInput, None)
    );
    let (_, revision) = manager.load_observed().ok().expect("observed");
    assert_eq!(revision, 1);

    match manager.mutate(request(
        1,
        ProxyRoutingMutation::SetDefaultTarget {
            target: DefaultTargetDto::Direct,
        },
    )) {
        MutationStep::Report {
            outcome,
            state,
            revision,
        } => {
            assert_eq!(outcome, MutationOutcome::Saved);
            assert_eq!(state.default_target, RouteTarget::Direct);
            assert_eq!(state.active_configuration_generation, 2);
            assert_eq!(revision, 2);
        }
        _ => panic!("expected a saved edit"),
    }
    assert_eq!(manager.known_revision(), Some(2));

    assert_eq!(
        refusal(manager.mutate(request(
            1,
            ProxyRoutingMutation::SetDefaultTarget {
                target: DefaultTargetDto::Block
            }
        ))),
        (MutationError::Conflict, Some(2))
    );
    match manager.mutate(request(2, ProxyRoutingMutation::ApplyConfiguration)) {
        MutationStep::Apply {
            active_subscription_id,
            desired_generation,
            revision,
        } => {
            assert_eq!(active_subscription_id, "sub");
            assert_eq!(desired_generation, 2);
            assert_eq!(revision, 2);
        }
        _ => panic!("expected an apply"),
    }
    assert!(matches!(
        manager.execution_unavailable(),
        MutationResult::Error {
            error: MutationError::RuntimeUnavailable,
            revision: Some(2)
        }
    ));
}
