use veyra::subscription_update::{answer_failure, fetch_failure, UpdateFailure};
use veyra::domain::{
    AppState, NodeFilter, NodeId, NodePool, PoolId, PoolKind, PoolSource, ProtocolOptions,
    Provider, ProviderId, ProxyNode, ProxyProtocol, RemoteRequestOptions, RouteTarget,
    SelectionPolicy, Subscription, SubscriptionDocument, SubscriptionDocumentFormat,
    SubscriptionHttpMetadata, SubscriptionId, SubscriptionProxyMode, SubscriptionSource,
    SubscriptionUpdatePolicy, Transport, CURRENT_SCHEMA_VERSION,
};
use veyra::subscription::{
    deduplicate_parsed_nodes, ParseResult, ProxyNodeDraft, SkippedNode, SubscriptionFormat,
};
use veyra::subscription_delete::delete_subscription;
use veyra::subscription_management::{SubscriptionOperationError, UpdatePolicyPatch};
use veyra::subscription_update::{fetch_route, FetchRoute, UpdateRouteOverride};
use veyra::subscription_update::{
    commit_edit, commit_import, commit_update, conditional_headers, is_cache_usable,
    not_modified_refused, plan_edit, plan_refresh, record_attempt, update_snapshot,
    EditSubscription, FetchResult, ImportCommit, RefreshPlan,
};
use veyra::update_schedule::{due_subscription_ids, ProcessDeadlines};

const URL: &str = "https://example.com/sub";

fn remote_options() -> RemoteRequestOptions {
    RemoteRequestOptions {
        user_agent: None,
        timeout_seconds: 30,
        proxy_mode: SubscriptionProxyMode::Direct,
        verify_tls: true,
    }
}

fn metadata(etag: Option<&str>) -> SubscriptionHttpMetadata {
    SubscriptionHttpMetadata {
        etag: etag.map(str::to_owned),
        last_modified: None,
        subscription_userinfo: None,
        content_disposition: None,
    }
}

fn node(id: &str, provider: &str, server: &str) -> ProxyNode {
    ProxyNode {
        id: NodeId(id.to_owned()),
        provider_id: ProviderId(provider.to_owned()),
        name: "Old".to_owned(),
        protocol: ProxyProtocol::Vless,
        server: server.to_owned(),
        port: 443,
        options: ProtocolOptions::Vless {
            uuid: "old-secret".to_owned(),
            flow: None,
        },
        transport: Some(Transport::Tcp),
        tls: None,
    }
}

fn draft(name: &str, server: &str) -> ProxyNodeDraft {
    ProxyNodeDraft {
        name: name.to_owned(),
        protocol: ProxyProtocol::Vless,
        server: server.to_owned(),
        port: 443,
        options: ProtocolOptions::Vless {
            uuid: "new-secret".to_owned(),
            flow: None,
        },
        transport: Some(Transport::Tcp),
        tls: None,
    }
}

fn implicit_pool(id: &str, provider: &str, name: &str) -> NodePool {
    NodePool {
        id: PoolId(id.to_owned()),
        name: name.to_owned(),
        kind: PoolKind::ImplicitProvider,
        sources: vec![PoolSource {
            provider_id: ProviderId(provider.to_owned()),
            filter: NodeFilter {
                regions: Vec::new(),
                protocols: Vec::new(),
                include_keywords: Vec::new(),
                exclude_keywords: Vec::new(),
                include_node_ids: Vec::new(),
                exclude_node_ids: Vec::new(),
            },
        }],
        selection: SelectionPolicy::Manual {
            selected_node_id: None,
        },
        enabled: true,
    }
}

fn remote_subscription() -> Subscription {
    Subscription {
        id: SubscriptionId("sub-a".to_owned()),
        name: "Remote".to_owned(),
        description: String::new(),
        source: SubscriptionSource::Remote {
            url: URL.to_owned(),
        },
        document: Some(SubscriptionDocument {
            format: SubscriptionDocumentFormat::Json,
            content: "{}".to_owned(),
            local_override: false,
        }),
        skipped_unsupported_nodes: 0,
        last_success_at_ms: Some(1_000),
        last_attempt_at_ms: Some(1_000),
        http_metadata: Some(metadata(Some("\"v1\""))),
        remote_request: Some(remote_options()),
        update_policy: SubscriptionUpdatePolicy {
            allow_auto_update: true,
            interval_minutes: Some(1_440),
        },
    }
}

fn manual_subscription() -> Subscription {
    Subscription {
        id: SubscriptionId("sub-m".to_owned()),
        name: "Manual".to_owned(),
        description: String::new(),
        source: SubscriptionSource::Manual,
        document: None,
        skipped_unsupported_nodes: 0,
        last_success_at_ms: None,
        last_attempt_at_ms: None,
        http_metadata: None,
        remote_request: None,
        update_policy: SubscriptionUpdatePolicy::manual(),
    }
}

fn state() -> AppState {
    AppState {
        schema_version: CURRENT_SCHEMA_VERSION,
        active_subscription_id: None,
        active_configuration_generation: 0,
        default_target: RouteTarget::Unconfigured,
        subscriptions: vec![remote_subscription(), manual_subscription()],
        providers: vec![
            Provider {
                id: ProviderId("provider-a".to_owned()),
                subscription_id: SubscriptionId("sub-a".to_owned()),
                name: "Remote".to_owned(),
            },
            Provider {
                id: ProviderId("provider-m".to_owned()),
                subscription_id: SubscriptionId("sub-m".to_owned()),
                name: "Manual".to_owned(),
            },
        ],
        nodes: vec![
            node("node-a", "provider-a", "a.example.invalid"),
            node("node-m", "provider-m", "m.example.invalid"),
        ],
        pools: vec![
            implicit_pool("pool-a", "provider-a", "Remote"),
            implicit_pool("pool-m", "provider-m", "Manual"),
        ],
        routes: Vec::new(),
    }
}

fn parsed(drafts: Vec<ProxyNodeDraft>, format: SubscriptionFormat) -> ParseResult {
    ParseResult {
        format,
        nodes: drafts,
        skipped: Vec::new(),
    }
}

#[test]
fn update_snapshot_names_the_one_provider_and_its_nodes() {
    let snapshot = update_snapshot(&state(), "sub-a").expect("snapshot");
    assert_eq!(snapshot.provider_id, ProviderId("provider-a".to_owned()));
    assert_eq!(snapshot.nodes.len(), 1);
    assert_eq!(snapshot.nodes[0].id, NodeId("node-a".to_owned()));
    assert!(is_cache_usable(&snapshot));
    let headers = conditional_headers(&snapshot);
    assert_eq!(headers.etag.as_deref(), Some("\"v1\""));
    assert_eq!(
        update_snapshot(&state(), "missing"),
        Err(SubscriptionOperationError::NotFound)
    );
}

#[test]
fn an_overridden_document_sends_no_validators() {
    let mut overridden = state();
    overridden.subscriptions[0].document = Some(SubscriptionDocument {
        format: SubscriptionDocumentFormat::Json,
        content: "{}".to_owned(),
        local_override: true,
    });
    let snapshot = update_snapshot(&overridden, "sub-a").expect("snapshot");
    assert!(!is_cache_usable(&snapshot));
    assert_eq!(conditional_headers(&snapshot).etag, None);
    let unchanged = FetchResult::NotModified {
        metadata: metadata(None),
        profile_update_interval_minutes: None,
        validators_match_source: true,
    };
    assert!(not_modified_refused(&snapshot, &unchanged));
    let usable = update_snapshot(&state(), "sub-a").expect("snapshot");
    assert!(!not_modified_refused(&usable, &unchanged));
}

#[test]
fn refresh_fetches_remote_sources_and_takes_manual_content() {
    let remote = update_snapshot(&state(), "sub-a").expect("snapshot");
    match plan_refresh(&remote, None, None) {
        Ok(RefreshPlan::Fetch {
            url,
            remote_request,
            route_override,
            ..
        }) => {
            assert_eq!(url, URL);
            assert_eq!(remote_request, remote_options());
            assert_eq!(route_override, None);
        }
        other => panic!("unexpected plan {other:?}"),
    }
    assert_eq!(
        plan_refresh(&remote, Some("body".to_owned()), None),
        Err(SubscriptionOperationError::InvalidInput)
    );
    let manual = update_snapshot(&state(), "sub-m").expect("snapshot");
    match plan_refresh(&manual, Some("vless://x".to_owned()), None) {
        Ok(RefreshPlan::Local {
            fetched: FetchResult::Modified { body, .. },
        }) => assert_eq!(body, "vless://x"),
        other => panic!("unexpected plan {other:?}"),
    }
    assert_eq!(
        plan_refresh(&manual, None, None),
        Err(SubscriptionOperationError::InvalidInput)
    );
}

#[test]
fn a_new_body_replaces_the_nodes_and_records_the_fetch() {
    let current = state();
    let snapshot = update_snapshot(&current, "sub-a").expect("snapshot");
    let fetched = FetchResult::Modified {
        body: "{\"outbounds\":[]}".to_owned(),
        metadata: metadata(Some("\"v2\"")),
        profile_update_interval_minutes: None,
        validators_match_source: true,
    };
    let (next, changed) = commit_update(
        current,
        "sub-a",
        &snapshot,
        fetched,
        Some(parsed(
            vec![draft("New", "new.example.invalid")],
            SubscriptionFormat::Json,
        )),
        5_000,
    )
    .expect("commit");
    assert!(changed);
    let sub = &next.subscriptions[0];
    assert_eq!(sub.last_success_at_ms, Some(5_000));
    assert_eq!(sub.last_attempt_at_ms, Some(5_000));
    assert_eq!(sub.http_metadata, Some(metadata(Some("\"v2\""))));
    assert_eq!(
        sub.document.as_ref().map(|d| d.content.as_str()),
        Some("{\"outbounds\":[]}")
    );
    let remote_nodes: Vec<_> = next
        .nodes
        .iter()
        .filter(|n| n.provider_id.0 == "provider-a")
        .collect();
    assert_eq!(remote_nodes.len(), 1);
    assert_eq!(remote_nodes[0].server, "new.example.invalid");
    assert_eq!(next.active_configuration_generation, 0);
}

#[test]
fn a_changed_active_subscription_advances_the_generation() {
    let mut current = state();
    current.active_subscription_id = Some(SubscriptionId("sub-a".to_owned()));
    current.active_configuration_generation = 4;
    let snapshot = update_snapshot(&current, "sub-a").expect("snapshot");
    let fetched = FetchResult::Modified {
        body: "{}".to_owned(),
        metadata: metadata(None),
        profile_update_interval_minutes: None,
        validators_match_source: true,
    };
    let (next, changed) = commit_update(
        current,
        "sub-a",
        &snapshot,
        fetched,
        Some(parsed(
            vec![draft("New", "new.example.invalid")],
            SubscriptionFormat::Json,
        )),
        5_000,
    )
    .expect("commit");
    assert!(changed);
    assert_eq!(next.active_configuration_generation, 5);
}

#[test]
fn an_unchanged_answer_keeps_nodes_and_merges_validators() {
    let current = state();
    let snapshot = update_snapshot(&current, "sub-a").expect("snapshot");
    let fetched = FetchResult::NotModified {
        metadata: metadata(None),
        profile_update_interval_minutes: None,
        validators_match_source: true,
    };
    let (next, changed) =
        commit_update(current.clone(), "sub-a", &snapshot, fetched, None, 7_000).expect("commit");
    assert!(!changed);
    assert_eq!(next.nodes, current.nodes);
    assert_eq!(
        next.subscriptions[0].http_metadata,
        Some(metadata(Some("\"v1\"")))
    );
    assert_eq!(next.subscriptions[0].last_success_at_ms, Some(7_000));
}

#[test]
fn a_commit_refuses_a_body_without_nodes_or_a_moved_subscription() {
    let current = state();
    let snapshot = update_snapshot(&current, "sub-a").expect("snapshot");
    let body = FetchResult::Modified {
        body: "{}".to_owned(),
        metadata: metadata(None),
        profile_update_interval_minutes: None,
        validators_match_source: true,
    };
    assert_eq!(
        commit_update(current.clone(), "sub-a", &snapshot, body.clone(), None, 1),
        Err(SubscriptionOperationError::ParseFailed)
    );
    let mut moved = current;
    moved.subscriptions[0].update_policy.interval_minutes = Some(2_880);
    assert_eq!(
        commit_update(
            moved,
            "sub-a",
            &snapshot,
            body,
            Some(parsed(vec![draft("New", "n.example.invalid")], SubscriptionFormat::Json)),
            1
        ),
        Err(SubscriptionOperationError::Busy)
    );
}

#[test]
fn a_failed_attempt_only_records_its_time() {
    let current = state();
    let snapshot = update_snapshot(&current, "sub-a").expect("snapshot");
    let next = record_attempt(current.clone(), &snapshot, 9_000).expect("recorded");
    assert_eq!(next.subscriptions[0].last_attempt_at_ms, Some(9_000));
    assert_eq!(next.subscriptions[0].last_success_at_ms, Some(1_000));
    assert_eq!(next.nodes, current.nodes);
}

#[test]
fn an_edit_renames_the_provider_and_its_implicit_pool() {
    let baseline = state();
    let plan = plan_edit(
        &baseline,
        EditSubscription {
            id: "sub-a".to_owned(),
            name: Some("  Renamed  ".to_owned()),
            description: None,
            url_replacement: None,
            remote_request: None,
            update_policy: Some(UpdatePolicyPatch {
                allow_auto_update: Some(false),
                interval_minutes: None,
            }),
        },
        true,
    )
    .expect("plan");
    assert_eq!(plan.index, 0);
    assert!(!plan.url_changed);
    assert_eq!(plan.edited.name, "Renamed");
    assert!(!plan.edited.update_policy.allow_auto_update);
    let (next, changed) = commit_edit(baseline.clone(), &baseline, plan, None).expect("commit");
    assert!(!changed);
    assert_eq!(next.subscriptions[0].name, "Renamed");
    assert_eq!(next.providers[0].name, "Renamed");
    assert_eq!(next.pools[0].name, "Renamed");
    assert_eq!(next.pools[1].name, "Manual");
}

#[test]
fn edits_refuse_bad_names_options_on_manual_sources_and_moved_states() {
    let baseline = state();
    let rename = |id: &str, name: &str| EditSubscription {
        id: id.to_owned(),
        name: Some(name.to_owned()),
        description: None,
        url_replacement: None,
        remote_request: None,
        update_policy: None,
    };
    assert_eq!(
        plan_edit(&baseline, rename("sub-a", "   "), true),
        Err(SubscriptionOperationError::InvalidInput)
    );
    assert_eq!(
        plan_edit(&baseline, rename("missing", "Name"), true),
        Err(SubscriptionOperationError::NotFound)
    );
    let mut manual_url = rename("sub-m", "Name");
    manual_url.url_replacement = Some("https://example.com/other".to_owned());
    assert_eq!(
        plan_edit(&baseline, manual_url, true),
        Err(SubscriptionOperationError::InvalidOptions)
    );
    let mut refused_url = rename("sub-a", "Name");
    refused_url.url_replacement = Some("ftp://example.com".to_owned());
    assert_eq!(
        plan_edit(&baseline, refused_url, false),
        Err(SubscriptionOperationError::InvalidInput)
    );
    let mut changed_url = rename("sub-a", "Name");
    changed_url.url_replacement = Some("https://example.com/other".to_owned());
    assert!(plan_edit(&baseline, changed_url, true).expect("plan").url_changed);

    let plan = plan_edit(&baseline, rename("sub-a", "Name"), true).expect("plan");
    let mut moved = baseline.clone();
    moved.active_configuration_generation = 1;
    assert_eq!(
        commit_edit(moved, &baseline, plan, None),
        Err(SubscriptionOperationError::Busy)
    );
}

#[test]
fn deleting_removes_the_subscription_its_provider_nodes_and_pool() {
    let next = delete_subscription(&state(), "sub-m", false).expect("delete");
    assert_eq!(next.subscriptions.len(), 1);
    assert_eq!(next.subscriptions[0].id, SubscriptionId("sub-a".to_owned()));
    assert_eq!(next.providers.len(), 1);
    assert_eq!(next.nodes.len(), 1);
    assert_eq!(next.pools.len(), 1);
    assert_eq!(next.pools[0].id, PoolId("pool-a".to_owned()));
    assert_eq!(
        delete_subscription(&state(), "missing", false),
        Err(SubscriptionOperationError::NotFound)
    );
    assert_eq!(
        delete_subscription(&state(), " ", false),
        Err(SubscriptionOperationError::InvalidInput)
    );
}

#[test]
fn the_active_subscription_is_deleted_only_with_its_runtime_stopped() {
    let mut active = state();
    active.active_subscription_id = Some(SubscriptionId("sub-a".to_owned()));
    active.active_configuration_generation = 3;
    assert_eq!(
        delete_subscription(&active, "sub-a", false),
        Err(SubscriptionOperationError::ReferenceConflict)
    );
    let next = delete_subscription(&active, "sub-a", true).expect("delete");
    assert_eq!(next.active_subscription_id, None);
    assert_eq!(next.active_configuration_generation, 4);
}

#[test]
fn a_pool_reference_blocks_deletion() {
    let mut referenced = state();
    let mut custom = implicit_pool("custom", "provider-m", "Custom");
    custom.kind = PoolKind::Custom;
    referenced.pools.push(custom);
    assert_eq!(
        delete_subscription(&referenced, "sub-m", false),
        Err(SubscriptionOperationError::ReferenceConflict)
    );
}

fn manual_commit(drafts: Vec<ProxyNodeDraft>) -> ImportCommit {
    ImportCommit {
        name: "Imported".to_owned(),
        description: String::new(),
        source: SubscriptionSource::Manual,
        remote_request: None,
        update_policy: SubscriptionUpdatePolicy::manual(),
        parsed: parsed(drafts, SubscriptionFormat::UriList),
        document: None,
        http_metadata: None,
        expected_initially_empty: None,
    }
}

#[test]
fn an_import_takes_ids_from_its_identity_bytes() {
    let (next, summary) = commit_import(
        None,
        manual_commit(vec![draft("One", "one.example.invalid")]),
        Some(vec![0xab; 16]),
        12_345,
    )
    .expect("import");
    let suffix = "ab".repeat(16);
    assert_eq!(summary.id, format!("sub-{suffix}"));
    assert_eq!(summary.node_count, 1);
    assert_eq!(next.subscriptions.len(), 1);
    assert_eq!(next.subscriptions[0].last_success_at_ms, Some(12_345));
    assert_eq!(next.providers[0].id, ProviderId(format!("provider-{suffix}")));
    assert_eq!(next.pools[0].id, PoolId(format!("pool-{suffix}")));
    assert_eq!(next.pools[0].kind, PoolKind::ImplicitProvider);
    assert_eq!(next.nodes.len(), 1);
}

#[test]
fn an_import_fails_without_identity_or_when_the_store_appeared() {
    assert_eq!(
        commit_import(None, manual_commit(vec![draft("One", "o.example.invalid")]), None, 1)
            .map(|(_, s)| s),
        Err(SubscriptionOperationError::IdentityFailed)
    );
    let mut remote = manual_commit(vec![draft("One", "o.example.invalid")]);
    remote.expected_initially_empty = Some(true);
    assert_eq!(
        commit_import(Some(state()), remote, Some(vec![1; 16]), 1).map(|(_, s)| s),
        Err(SubscriptionOperationError::Busy)
    );
}

#[test]
fn an_import_with_a_used_identity_is_refused() {
    let (first, _) = commit_import(
        None,
        manual_commit(vec![draft("One", "o.example.invalid")]),
        Some(vec![7; 16]),
        1,
    )
    .expect("first import");
    assert_eq!(
        commit_import(
            Some(first),
            manual_commit(vec![draft("Two", "t.example.invalid")]),
            Some(vec![7; 16]),
            2
        )
        .map(|(_, s)| s),
        Err(SubscriptionOperationError::IdentityFailed)
    );
}

#[test]
fn repeated_connections_keep_the_first_entry() {
    let mut result = ParseResult {
        format: SubscriptionFormat::UriList,
        nodes: vec![
            draft("First", "same.example.invalid"),
            draft("Second", "same.example.invalid"),
            draft("Other", "other.example.invalid"),
        ],
        skipped: vec![SkippedNode::UnsupportedProtocol],
    };
    deduplicate_parsed_nodes(&mut result);
    let names: Vec<_> = result.nodes.iter().map(|n| n.name.as_str()).collect();
    assert_eq!(names, ["First", "Other"]);
    assert_eq!(result.skipped, vec![SkippedNode::UnsupportedProtocol]);
}

#[test]
fn due_ids_are_the_remote_automatic_subscriptions_past_their_interval() {
    let current = state();
    let deadlines = ProcessDeadlines::new();
    let day_ms = 86_400_000u64;
    assert_eq!(
        due_subscription_ids(&current, &deadlines, 1_000 + day_ms - 1),
        Ok(Vec::<String>::new())
    );
    assert_eq!(
        due_subscription_ids(&current, &deadlines, 1_000 + day_ms),
        Ok(vec!["sub-a".to_owned()])
    );
    assert_eq!(
        due_subscription_ids(&current, &deadlines, 9_007_199_254_740_992),
        Err(SubscriptionOperationError::InvalidInput)
    );
}

#[test]
fn a_remembered_deadline_postpones_the_next_update() {
    let current = state();
    let snapshot = update_snapshot(&current, "sub-a").expect("snapshot");
    let mut deadlines = ProcessDeadlines::new();
    deadlines.remember(&snapshot, 50_000);
    let day_ms = 86_400_000u64;
    assert_eq!(deadlines.get("sub-a"), Some(50_000 + day_ms));
    assert_eq!(
        due_subscription_ids(&current, &deadlines, 1_000 + day_ms),
        Ok(Vec::<String>::new())
    );
    assert_eq!(
        due_subscription_ids(&current, &deadlines, 50_000 + day_ms),
        Ok(vec!["sub-a".to_owned()])
    );
}

#[test]
fn due_ids_come_out_in_ascending_order() {
    let mut current = state();
    let mut second = remote_subscription();
    second.id = SubscriptionId("sub-0".to_owned());
    current.subscriptions.push(second);
    current.providers.push(Provider {
        id: ProviderId("provider-0".to_owned()),
        subscription_id: SubscriptionId("sub-0".to_owned()),
        name: "Zero".to_owned(),
    });
    let deadlines = ProcessDeadlines::new();
    assert_eq!(
        due_subscription_ids(&current, &deadlines, 100_000_000),
        Ok(vec!["sub-0".to_owned(), "sub-a".to_owned()])
    );
}

#[test]
fn fetches_go_through_the_managed_core_only_with_its_port() {
    assert_eq!(
        fetch_route(None, SubscriptionProxyMode::Direct, Some(7890)),
        Ok(FetchRoute::Direct)
    );
    assert_eq!(
        fetch_route(None, SubscriptionProxyMode::System, None),
        Ok(FetchRoute::System)
    );
    assert_eq!(
        fetch_route(
            Some(UpdateRouteOverride::ManagedCore),
            SubscriptionProxyMode::Direct,
            Some(7890)
        ),
        Ok(FetchRoute::Proxy {
            url: "http://127.0.0.1:7890".to_owned()
        })
    );
    assert_eq!(
        fetch_route(None, SubscriptionProxyMode::ManagedCore, None),
        Err(SubscriptionOperationError::ProxyUnavailable)
    );
    assert_eq!(
        fetch_route(None, SubscriptionProxyMode::ManagedCore, Some(0)),
        Err(SubscriptionOperationError::ProxyUnavailable)
    );
}

#[test]
fn import_identities_are_sixteen_fresh_bytes() {
    let first = veyra::subscription_update::import_identity().expect("randomness");
    let second = veyra::subscription_update::import_identity().expect("randomness");
    assert_eq!(first.len(), 16);
    assert_eq!(second.len(), 16);
    assert_ne!(first, second);
}

#[test]
fn a_busy_fetch_while_closing_records_no_attempt() {
    assert_eq!(
        fetch_failure(SubscriptionOperationError::Busy, true),
        UpdateFailure { error: SubscriptionOperationError::Busy, record_attempt: false }
    );
    assert_eq!(
        fetch_failure(SubscriptionOperationError::Busy, false),
        UpdateFailure { error: SubscriptionOperationError::Busy, record_attempt: true }
    );
    assert_eq!(
        fetch_failure(SubscriptionOperationError::FetchFailed, true),
        UpdateFailure { error: SubscriptionOperationError::FetchFailed, record_attempt: true }
    );
    assert_eq!(
        answer_failure(false, Some(SubscriptionOperationError::ParseFailed), false),
        Some(UpdateFailure { error: SubscriptionOperationError::ParseFailed, record_attempt: false })
    );
    assert_eq!(
        answer_failure(true, None, true),
        Some(UpdateFailure { error: SubscriptionOperationError::CacheUnavailable, record_attempt: true })
    );
    assert_eq!(answer_failure(true, None, false), None);
}
