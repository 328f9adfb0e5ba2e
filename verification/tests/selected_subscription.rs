use veyra::domain::{
    AppState, NodeFilter, NodeId, NodePool, PoolId, PoolKind, PoolSource, ProtocolOptions,
    Provider, ProviderId, ProxyNode, ProxyProtocol, RoutePolicy, RoutePolicyId, RouteTarget,
    SelectionPolicy, Subscription, SubscriptionId, SubscriptionSource, SubscriptionUpdatePolicy,
    TrafficMatcher, Transport,
};
use veyra::selected_subscription::{project_selected_runtime, SelectionProjectionError};

fn subscription(id: &str) -> Subscription {
    Subscription {
        document: None,
        skipped_unsupported_nodes: 0,
        id: SubscriptionId(id.to_owned()),
        name: id.to_owned(),
        description: String::new(),
        source: SubscriptionSource::Manual,
        last_success_at_ms: None,
        last_attempt_at_ms: None,
        http_metadata: None,
        remote_request: None,
        update_policy: SubscriptionUpdatePolicy::manual(),
    }
}

fn state() -> AppState {
    let mut state = AppState::empty();
    state.active_subscription_id = Some(SubscriptionId("subscription-b".to_owned()));
    state.active_configuration_generation = 3;
    for suffix in ["a", "b"] {
        state
            .subscriptions
            .push(subscription(&format!("subscription-{suffix}")));
        state.providers.push(Provider {
            id: ProviderId(format!("provider-{suffix}")),
            subscription_id: SubscriptionId(format!("subscription-{suffix}")),
            name: suffix.to_owned(),
        });
        state.nodes.push(ProxyNode {
            id: NodeId(format!("node-{suffix}")),
            provider_id: ProviderId(format!("provider-{suffix}")),
            name: suffix.to_owned(),
            protocol: ProxyProtocol::Shadowsocks,
            server: "example.invalid".to_owned(),
            port: 443,
            options: ProtocolOptions::Shadowsocks {
                method: "aes-128-gcm".to_owned(),
                password: "secret".to_owned(),
            },
            transport: Some(Transport::Tcp),
            tls: None,
        });
    }
    state
}

#[test]
fn unconfigured_default_projects_only_the_selected_subscription() {
    let projection = project_selected_runtime(&state()).expect("selected projection");

    assert_eq!(projection.selected_subscription_id.0, "subscription-b");
    assert_eq!(projection.selected_generation, 3);
    assert_eq!(projection.runtime_intent.nodes.len(), 1);
    assert_eq!(projection.runtime_intent.nodes[0].id.0, "node-b");
    let RouteTarget::Pool(default_pool) = projection.projected_default_target else {
        panic!("default must be a pool")
    };
    assert!(projection
        .runtime_intent
        .pools
        .iter()
        .any(|pool| pool.id == default_pool && !pool.members.is_empty()));
}

#[test]
fn enabled_custom_pool_adds_only_its_exact_cross_subscription_members() {
    let mut state = state();
    state.pools.push(NodePool {
        id: PoolId("mixed".to_owned()),
        name: "mixed".to_owned(),
        kind: PoolKind::Custom,
        sources: ["a", "b"]
            .map(|suffix| PoolSource {
                provider_id: ProviderId(format!("provider-{suffix}")),
                filter: NodeFilter::default(),
            })
            .to_vec(),
        selection: SelectionPolicy::Manual {
            selected_node_id: Some(NodeId("node-b".to_owned())),
        },
        enabled: true,
    });
    state.default_target = RouteTarget::Pool(PoolId("mixed".to_owned()));

    let projection = project_selected_runtime(&state).expect("filtered projection");

    assert_eq!(
        projection.projected_default_target,
        RouteTarget::Pool(PoolId("mixed".to_owned()))
    );
    assert_eq!(
        projection
            .runtime_intent
            .pools
            .iter()
            .find(|pool| pool.id.0 == "mixed")
            .expect("mixed pool")
            .members,
        vec![NodeId("node-a".to_owned()), NodeId("node-b".to_owned())]
    );
    assert_eq!(
        projection
            .runtime_intent
            .nodes
            .iter()
            .map(|node| node.id.0.as_str())
            .collect::<Vec<_>>(),
        vec!["node-a", "node-b"]
    );
}

#[test]
fn direct_and_block_remain_valid_default_targets() {
    for target in [RouteTarget::Direct, RouteTarget::Block] {
        let mut state = state();
        state.default_target = target.clone();
        assert_eq!(
            project_selected_runtime(&state)
                .expect("direct and block are structural targets")
                .projected_default_target,
            target
        );
    }
}

#[test]
fn route_can_target_an_enabled_cross_subscription_custom_pool() {
    let mut state = state();
    state.pools.push(NodePool {
        id: PoolId("a-only".to_owned()),
        name: "a-only".to_owned(),
        kind: PoolKind::Custom,
        sources: vec![PoolSource {
            provider_id: ProviderId("provider-a".to_owned()),
            filter: NodeFilter::default(),
        }],
        selection: SelectionPolicy::Manual {
            selected_node_id: None,
        },
        enabled: true,
    });
    state.routes.push(RoutePolicy {
        id: RoutePolicyId("route".to_owned()),
        name: "route".to_owned(),
        enabled: true,
        priority: 0,
        matcher: TrafficMatcher::Domain(vec!["example.com".to_owned()]),
        target: RouteTarget::Pool(PoolId("a-only".to_owned())),
    });
    let projection = project_selected_runtime(&state).expect("explicit custom pool closure");
    assert_eq!(projection.runtime_intent.routes.len(), 1);
    assert_eq!(projection.runtime_intent.nodes.len(), 2);
}

#[test]
fn disabled_custom_pool_does_not_expand_the_active_projection() {
    let mut state = state();
    state.pools.push(NodePool {
        id: PoolId("disabled".to_owned()),
        name: "disabled".to_owned(),
        kind: PoolKind::Custom,
        sources: vec![PoolSource {
            provider_id: ProviderId("provider-a".to_owned()),
            filter: NodeFilter::default(),
        }],
        selection: SelectionPolicy::Manual {
            selected_node_id: Some(NodeId("node-a".to_owned())),
        },
        enabled: false,
    });

    let projection = project_selected_runtime(&state).expect("active-only projection");
    assert_eq!(projection.runtime_intent.nodes.len(), 1);
    assert_eq!(projection.runtime_intent.nodes[0].id.0, "node-b");
    assert!(projection
        .runtime_intent
        .pools
        .iter()
        .all(|pool| pool.id.0 != "disabled"));
}

#[test]
fn custom_filter_does_not_import_unmatched_siblings() {
    let mut state = state();
    let mut sibling = state.nodes[0].clone();
    sibling.id = NodeId("node-a-sibling".to_owned());
    sibling.name = "sibling".to_owned();
    state.nodes.push(sibling);
    state.pools.push(NodePool {
        id: PoolId("filtered".to_owned()),
        name: "filtered".to_owned(),
        kind: PoolKind::Custom,
        sources: vec![PoolSource {
            provider_id: ProviderId("provider-a".to_owned()),
            filter: NodeFilter {
                include_node_ids: vec![NodeId("node-a".to_owned())],
                ..NodeFilter::default()
            },
        }],
        selection: SelectionPolicy::Manual {
            selected_node_id: Some(NodeId("node-a".to_owned())),
        },
        enabled: true,
    });

    let projection = project_selected_runtime(&state).expect("filtered custom closure");
    assert!(projection
        .runtime_intent
        .nodes
        .iter()
        .any(|node| node.id.0 == "node-a"));
    assert!(projection
        .runtime_intent
        .nodes
        .iter()
        .all(|node| node.id.0 != "node-a-sibling"));
}

#[test]
fn missing_active_subscription_is_a_distinct_projection_error() {
    let mut state = state();
    state.active_subscription_id = None;
    assert_eq!(
        project_selected_runtime(&state),
        Err(SelectionProjectionError::SelectionRequired)
    );
}

#[test]
fn pool_default_without_members_fails_configuration() {
    let mut state = state();
    state.pools.push(NodePool {
        id: PoolId("empty".to_owned()),
        name: "empty".to_owned(),
        kind: PoolKind::Custom,
        sources: vec![PoolSource {
            provider_id: ProviderId("provider-a".to_owned()),
            filter: NodeFilter {
                include_node_ids: vec![NodeId("node-missing".to_owned())],
                ..NodeFilter::default()
            },
        }],
        selection: SelectionPolicy::Manual {
            selected_node_id: None,
        },
        enabled: true,
    });
    state.default_target = RouteTarget::Pool(PoolId("empty".to_owned()));
    assert_eq!(
        project_selected_runtime(&state),
        Err(SelectionProjectionError::ConfigurationFailed)
    );
}
