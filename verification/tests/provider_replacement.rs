use veyra::domain::{
    AppState, NodeFilter, NodeId, NodePool, PoolId, PoolKind, PoolSource, ProtocolOptions,
    Provider, ProviderId, ProxyNode, ProxyProtocol, RouteTarget, SelectionPolicy, Subscription,
    SubscriptionId, SubscriptionSource, SubscriptionUpdatePolicy, Transport,
    CURRENT_SCHEMA_VERSION,
};
use veyra::provider_replacement::{ProviderReplacementError, ProviderReplacementService};
use veyra::storage::{StateStore, StateStoreError};
use veyra::subscription::{
    NormalizationError, ParseResult, ProxyNodeDraft, SkippedNode, SubscriptionFormat,
};
use veyra::validation::StateValidationError;

struct TestStore {
    fail_save: bool,
}

impl StateStore for TestStore {
    fn load(&self) -> Result<AppState, StateStoreError> {
        Err(StateStoreError::ReadFailed)
    }

    fn save(&self, _: &AppState) -> Result<(), StateStoreError> {
        if self.fail_save {
            Err(StateStoreError::WriteFailed)
        } else {
            Ok(())
        }
    }
}

fn state() -> AppState {
    AppState {
        schema_version: CURRENT_SCHEMA_VERSION,
        active_subscription_id: None,
        active_configuration_generation: 0,
        default_target: RouteTarget::Unconfigured,
        subscriptions: vec![Subscription {
            id: SubscriptionId("subscription".to_owned()),
            name: "Subscription".to_owned(),
            description: String::new(),
            source: SubscriptionSource::Manual,
            document: None,
            skipped_unsupported_nodes: 0,
            last_success_at_ms: None,
            last_attempt_at_ms: None,
            http_metadata: None,
            remote_request: None,
            update_policy: SubscriptionUpdatePolicy::manual(),
        }],
        providers: vec![Provider {
            id: ProviderId("provider".to_owned()),
            subscription_id: SubscriptionId("subscription".to_owned()),
            name: "Provider".to_owned(),
        }],
        nodes: vec![ProxyNode {
            id: NodeId("old-node".to_owned()),
            provider_id: ProviderId("provider".to_owned()),
            name: "Old".to_owned(),
            protocol: ProxyProtocol::Vless,
            server: "old.example.invalid".to_owned(),
            port: 443,
            options: ProtocolOptions::Vless {
                uuid: "old-secret".to_owned(),
                flow: None,
            },
            transport: Some(Transport::Tcp),
            tls: None,
        }],
        pools: Vec::new(),
        routes: Vec::new(),
    }
}

fn parsed(skipped: Vec<SkippedNode>) -> ParseResult {
    ParseResult {
        format: SubscriptionFormat::UriList,
        nodes: vec![ProxyNodeDraft {
            name: "New".to_owned(),
            protocol: ProxyProtocol::Vless,
            server: "new.example.invalid".to_owned(),
            port: 443,
            options: ProtocolOptions::Vless {
                uuid: "new-secret".to_owned(),
                flow: None,
            },
            transport: Some(Transport::Tcp),
            tls: None,
        }],
        skipped,
    }
}

#[test]
fn only_exchanges_memory_after_a_successful_save() {
    let mut service = ProviderReplacementService::new(TestStore { fail_save: false }, state())
        .ok()
        .expect("valid state");
    service
        .replace(ProviderId("provider".to_owned()), parsed(Vec::new()))
        .expect("replace succeeds");
    assert_eq!(service.snapshot().nodes[0].name, "New");
}

#[test]
fn preserves_old_nodes_for_skipped_or_unsaved_batches() {
    let mut rejected = ProviderReplacementService::new(TestStore { fail_save: false }, state())
        .ok()
        .expect("valid state");
    assert!(matches!(
        rejected.replace(
            ProviderId("provider".to_owned()),
            parsed(vec![SkippedNode::InvalidNode])
        ),
        Err(ProviderReplacementError::RejectedBatch)
    ));
    assert_eq!(rejected.snapshot().nodes[0].name, "Old");

    let mut unsaved = ProviderReplacementService::new(TestStore { fail_save: true }, state())
        .ok()
        .expect("valid state");
    assert!(matches!(
        unsaved.replace(ProviderId("provider".to_owned()), parsed(Vec::new())),
        Err(ProviderReplacementError::Store(StateStoreError::WriteFailed))
    ));
    assert_eq!(unsaved.snapshot().nodes[0].name, "Old");
}

#[test]
fn preserves_old_nodes_for_normalization_or_candidate_validation_failures() {
    let mut normalization =
        ProviderReplacementService::new(TestStore { fail_save: false }, state())
            .ok()
            .expect("valid state");
    let mut duplicate = parsed(Vec::new());
    duplicate.nodes.push(duplicate.nodes[0].clone());
    assert!(matches!(
        normalization.replace(ProviderId("provider".to_owned()), duplicate),
        Err(ProviderReplacementError::Normalize(
            NormalizationError::DuplicateNodeIdentity
        ))
    ));
    assert_eq!(normalization.snapshot().nodes[0].name, "Old");

    let mut referenced_state = state();
    referenced_state.pools.push(NodePool {
        id: PoolId("pool".to_owned()),
        name: "Pool".to_owned(),
        kind: PoolKind::Custom,
        sources: vec![PoolSource {
            provider_id: ProviderId("provider".to_owned()),
            filter: NodeFilter {
                include_node_ids: vec![NodeId("old-node".to_owned())],
                ..NodeFilter::default()
            },
        }],
        selection: SelectionPolicy::Manual {
            selected_node_id: Some(NodeId("old-node".to_owned())),
        },
        enabled: true,
    });
    let mut invalid_candidate =
        ProviderReplacementService::new(TestStore { fail_save: false }, referenced_state)
            .ok()
            .expect("valid state before replacement");
    assert!(matches!(
        invalid_candidate.replace(ProviderId("provider".to_owned()), parsed(Vec::new())),
        Err(ProviderReplacementError::State(
            StateValidationError::InvalidFilter
        ))
    ));
    assert_eq!(invalid_candidate.snapshot().nodes[0].name, "Old");
}

#[test]
fn replaced_nodes_get_a_content_digest_identity() {
    let mut service = ProviderReplacementService::new(TestStore { fail_save: false }, state())
        .ok()
        .expect("valid state");
    service
        .replace(ProviderId("provider".to_owned()), parsed(Vec::new()))
        .expect("replace succeeds");
    let id = service.snapshot().nodes[0].id.0.clone();
    assert!(id.starts_with("node-"));
    assert_eq!(id.len(), "node-".len() + 64);
    assert!(id["node-".len()..]
        .chars()
        .all(|c| c.is_ascii_digit() || ('a'..='f').contains(&c)));
    let mut again = ProviderReplacementService::new(TestStore { fail_save: false }, state())
        .ok()
        .expect("valid state");
    again
        .replace(ProviderId("provider".to_owned()), parsed(Vec::new()))
        .expect("replace succeeds");
    assert_eq!(again.snapshot().nodes[0].id.0, id);
}

#[test]
fn unknown_provider_is_reported_without_saving() {
    let mut service = ProviderReplacementService::new(TestStore { fail_save: true }, state())
        .ok()
        .expect("valid state");
    assert!(matches!(
        service.replace(ProviderId("other".to_owned()), parsed(Vec::new())),
        Err(ProviderReplacementError::MissingProvider)
    ));
    assert_eq!(service.snapshot(), state());
}
