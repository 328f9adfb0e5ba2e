use veyra::activation::{persist_step, selected_summary, PersistStep};
use veyra::clash_document::{
    clash_document_error, parse_content, providers_without_proxies, screen_content,
    MAX_CONTENT_BYTES,
};
use veyra::document_apply::{failed_document_switch, DocumentSaveError, DocumentSaveResult};
use veyra::document_save::{
    document_commit_step, map_document_parse_error, prepare_document_save, read_document,
    share_url, DocumentErrorCode,
};
use veyra::domain::{
    AppState, NodeId, ProtocolOptions, Provider, ProviderId, ProxyNode, ProxyProtocol,
    RemoteRequestOptions, RouteTarget, Subscription, SubscriptionDocument,
    SubscriptionDocumentFormat, SubscriptionHttpMetadata, SubscriptionId, SubscriptionProxyMode,
    SubscriptionSource, SubscriptionUpdatePolicy, Transport, CURRENT_SCHEMA_VERSION,
};
use veyra::managed_runtime::ActivationError;
use veyra::observability::{
    InMemoryRuntimeObservations, SubscriptionSwitch, SubscriptionSwitchErrorCode,
    SubscriptionSwitchStatus,
};
use veyra::subscription::{ParseResult, ProxyNodeDraft, SubscriptionFormat};
use veyra::subscription_import::{manual_import_commit, plan_remote_import, remote_import_commit};
use veyra::subscription_management::{
    revision_for, DocumentOperationError, RemoteImportOptions, SubscriptionOperationError,
    SubscriptionSourceKind,
};
use veyra::subscription_update::FetchResult;

const URL: &str = "https://example.com/sub";

fn draft(name: &str, server: &str) -> ProxyNodeDraft {
    ProxyNodeDraft {
        name: name.to_owned(),
        protocol: ProxyProtocol::Vless,
        server: server.to_owned(),
        port: 443,
        options: ProtocolOptions::Vless {
            uuid: "secret".to_owned(),
            flow: None,
        },
        transport: Some(Transport::Tcp),
        tls: None,
    }
}

fn parsed(drafts: Vec<ProxyNodeDraft>, format: SubscriptionFormat) -> ParseResult {
    ParseResult {
        format,
        nodes: drafts,
        skipped: Vec::new(),
    }
}

fn metadata() -> SubscriptionHttpMetadata {
    SubscriptionHttpMetadata {
        etag: Some("\"v1\"".to_owned()),
        last_modified: Some("Mon, 01 Jan 2024 00:00:00 GMT".to_owned()),
        subscription_userinfo: None,
        content_disposition: None,
    }
}

fn remote_options() -> RemoteImportOptions {
    RemoteImportOptions {
        user_agent: None,
        timeout_seconds: 30,
        proxy_mode: SubscriptionProxyMode::Direct,
        verify_tls: true,
        allow_auto_update: true,
        interval_minutes: None,
    }
}

fn state() -> AppState {
    AppState {
        schema_version: CURRENT_SCHEMA_VERSION,
        active_subscription_id: None,
        active_configuration_generation: 0,
        default_target: RouteTarget::Unconfigured,
        subscriptions: vec![
            Subscription {
                id: SubscriptionId("sub-a".to_owned()),
                name: "Remote".to_owned(),
                description: String::new(),
                source: SubscriptionSource::Remote {
                    url: URL.to_owned(),
                },
                document: Some(SubscriptionDocument {
                    format: SubscriptionDocumentFormat::Json,
                    content: "{}".to_owned(),
                    local_override: false,
                }),
                skipped_unsupported_nodes: 0,
                last_success_at_ms: Some(1_000),
                last_attempt_at_ms: Some(1_000),
                http_metadata: Some(metadata()),
                remote_request: Some(RemoteRequestOptions {
                    user_agent: None,
                    timeout_seconds: 30,
                    proxy_mode: SubscriptionProxyMode::Direct,
                    verify_tls: true,
                }),
                update_policy: SubscriptionUpdatePolicy::manual(),
            },
            Subscription {
                id: SubscriptionId("sub-m".to_owned()),
                name: "Manual".to_owned(),
                description: String::new(),
                source: SubscriptionSource::Manual,
                document: None,
                skipped_unsupported_nodes: 0,
                last_success_at_ms: None,
                last_attempt_at_ms: None,
                http_metadata: None,
                remote_request: None,
                update_policy: SubscriptionUpdatePolicy::manual(),
            },
        ],
        providers: vec![
            Provider {
                id: ProviderId("provider-a".to_owned()),
                subscription_id: SubscriptionId("sub-a".to_owned()),
                name: "Remote".to_owned(),
            },
            Provider {
                id: ProviderId("provider-m".to_owned()),
                subscription_id: SubscriptionId("sub-m".to_owned()),
                name: "Manual".to_owned(),
            },
        ],
        nodes: vec![ProxyNode {
            id: NodeId("node-a".to_owned()),
            provider_id: ProviderId("provider-a".to_owned()),
            name: "Old".to_owned(),
            protocol: ProxyProtocol::Vless,
            server: "old.example.invalid".to_owned(),
            port: 443,
            options: ProtocolOptions::Vless {
                uuid: "old".to_owned(),
                flow: None,
            },
            transport: Some(Transport::Tcp),
            tls: None,
        }],
        pools: Vec::new(),
        routes: Vec::new(),
    }
}

#[test]
fn external_clash_providers_without_inline_proxies_have_a_distinct_closed_error() {
    assert_eq!(
        parse_content(
            "proxy-providers:\n  remote:\n    type: http\n    url: https://example.invalid/provider.yaml\n",
            Some(parsed(Vec::new(), SubscriptionFormat::ClashYaml)),
        ),
        Err(SubscriptionOperationError::UnsupportedClashProviders)
    );
    assert_eq!(
        parse_content(
            "proxy-providers: {}\nproxies: []\n",
            Some(parsed(Vec::new(), SubscriptionFormat::ClashYaml)),
        ),
        Err(SubscriptionOperationError::ParseFailed)
    );
}

#[test]
fn documents_with_their_own_proxies_are_not_refused() {
    assert_eq!(
        clash_document_error("{\"proxy-providers\":{\"p\":{}},\"proxies\":[{\"name\":\"a\"}]}"),
        None
    );
    assert_eq!(
        clash_document_error("{\"proxy-providers\":{\"p\":{}}}"),
        Some(SubscriptionOperationError::UnsupportedClashProviders)
    );
    assert_eq!(
        clash_document_error("proxy-providers:\n  p: {}\nproxies: []\n"),
        Some(SubscriptionOperationError::UnsupportedClashProviders)
    );
    assert_eq!(clash_document_error("vless://not-a-document"), None);
    assert!(providers_without_proxies(Some(1), None));
    assert!(providers_without_proxies(Some(2), Some(0)));
    assert!(!providers_without_proxies(Some(0), None));
    assert!(!providers_without_proxies(Some(1), Some(1)));
    assert!(!providers_without_proxies(None, None));
}

#[test]
fn content_screening_checks_size_then_parse_then_deduplicates() {
    assert_eq!(
        parse_content("", Some(parsed(vec![draft("A", "a")], SubscriptionFormat::UriList))),
        Err(SubscriptionOperationError::InvalidInput)
    );
    assert_eq!(
        screen_content(MAX_CONTENT_BYTES + 1, None, None),
        Err(SubscriptionOperationError::InvalidInput)
    );
    assert_eq!(
        screen_content(MAX_CONTENT_BYTES, None, None),
        Err(SubscriptionOperationError::ParseFailed)
    );
    let kept = parse_content(
        "vless://a\nvless://b\n",
        Some(parsed(
            vec![draft("A", "same"), draft("B", "same"), draft("C", "other")],
            SubscriptionFormat::UriList,
        )),
    )
    .expect("screened");
    let names: Vec<_> = kept.nodes.iter().map(|n| n.name.as_str()).collect();
    assert_eq!(names, ["A", "C"]);
}

#[test]
fn new_import_names_remain_strict_even_when_legacy_names_are_display_safe() {
    for invalid_name in ["   ".to_owned(), "订".repeat(81)] {
        assert_eq!(
            manual_import_commit(
                invalid_name,
                String::new(),
                "vless://a".to_owned(),
                Ok(parsed(vec![draft("A", "a")], SubscriptionFormat::UriList)),
            ),
            Err(SubscriptionOperationError::InvalidInput)
        );
    }
}

#[test]
fn a_manual_import_keeps_json_as_an_editable_document() {
    let commit = manual_import_commit(
        "  Home  ".to_owned(),
        " notes ".to_owned(),
        "{\"outbounds\":[]}".to_owned(),
        Ok(parsed(vec![draft("A", "a")], SubscriptionFormat::Json)),
    )
    .expect("commit");
    assert_eq!(commit.name, "Home");
    assert_eq!(commit.description, "notes");
    assert_eq!(commit.source, SubscriptionSource::Manual);
    assert_eq!(commit.update_policy, SubscriptionUpdatePolicy::manual());
    assert_eq!(
        commit.document,
        Some(SubscriptionDocument {
            format: SubscriptionDocumentFormat::Json,
            content: "{\"outbounds\":[]}".to_owned(),
            local_override: false,
        })
    );
    let uri = manual_import_commit(
        "List".to_owned(),
        String::new(),
        "vless://a".to_owned(),
        Ok(parsed(vec![draft("A", "a")], SubscriptionFormat::UriList)),
    )
    .expect("commit");
    assert_eq!(uri.document, None);
    assert_eq!(
        manual_import_commit(
            "List".to_owned(),
            String::new(),
            "x".to_owned(),
            Err(SubscriptionOperationError::ParseFailed),
        ),
        Err(SubscriptionOperationError::ParseFailed)
    );
}

#[test]
fn a_remote_import_checks_url_options_and_policy_before_fetching() {
    assert_eq!(
        plan_remote_import("Remote".to_owned(), String::new(), false, &remote_options()).map(|p| p.name),
        Err(SubscriptionOperationError::InvalidInput)
    );
    let mut slow = remote_options();
    slow.timeout_seconds = 121;
    assert_eq!(
        plan_remote_import("Remote".to_owned(), String::new(), true, &slow).map(|p| p.name),
        Err(SubscriptionOperationError::InvalidOptions)
    );
    let mut hourly = remote_options();
    hourly.interval_minutes = Some(60);
    assert_eq!(
        plan_remote_import("Remote".to_owned(), String::new(), true, &hourly).map(|p| p.name),
        Err(SubscriptionOperationError::InvalidOptions)
    );
    let plan = plan_remote_import("Remote".to_owned(), String::new(), true, &remote_options())
        .expect("plan");
    assert_eq!(plan.remote_request.timeout_seconds, 30);
    assert!(plan.update_policy.allow_auto_update);

    let unchanged = FetchResult::NotModified {
        metadata: metadata(),
        profile_update_interval_minutes: None,
        validators_match_source: false,
    };
    assert_eq!(
        remote_import_commit(plan, URL.to_owned(), unchanged, true, Err(SubscriptionOperationError::ParseFailed)),
        Err(SubscriptionOperationError::CacheUnavailable)
    );
}

#[test]
fn a_remote_import_adopts_the_profile_interval_and_keeps_the_response() {
    let plan = plan_remote_import("Remote".to_owned(), String::new(), true, &remote_options())
        .expect("plan");
    let fetched = FetchResult::Modified {
        body: "proxies: []".to_owned(),
        metadata: metadata(),
        profile_update_interval_minutes: Some(2_880),
        validators_match_source: false,
    };
    let commit = remote_import_commit(
        plan,
        URL.to_owned(),
        fetched,
        true,
        Ok(parsed(vec![draft("A", "a")], SubscriptionFormat::ClashYaml)),
    )
    .expect("commit");
    assert_eq!(commit.update_policy.interval_minutes, Some(2_880));
    assert_eq!(commit.http_metadata, Some(metadata()));
    assert_eq!(commit.expected_initially_empty, Some(true));
    assert_eq!(
        commit.source,
        SubscriptionSource::Remote {
            url: URL.to_owned()
        }
    );
    assert_eq!(
        commit.document.map(|d| d.format),
        Some(SubscriptionDocumentFormat::Yaml)
    );
}

#[test]
fn reading_a_document_names_its_revision() {
    let reading = read_document(&state(), "sub-a").expect("document");
    assert_eq!(reading.content, "{}");
    assert_eq!(reading.source_kind, SubscriptionSourceKind::Remote);
    assert_eq!(reading.revision, revision_for(SubscriptionDocumentFormat::Json, "{}"));
    assert_eq!(reading.revision.len(), 64);
    assert_eq!(
        read_document(&state(), "sub-m"),
        Err(DocumentOperationError::DocumentUnavailable)
    );
    assert_eq!(read_document(&state(), "nope"), Err(DocumentOperationError::NotFound));
    assert_eq!(read_document(&state(), ""), Err(DocumentOperationError::InvalidInput));
}

#[test]
fn only_remote_subscriptions_share_their_url() {
    assert_eq!(share_url(&state(), "sub-a"), Ok(URL.to_owned()));
    assert_eq!(
        share_url(&state(), "sub-m"),
        Err(SubscriptionOperationError::NotShareable)
    );
    assert_eq!(
        share_url(&state(), "nope"),
        Err(SubscriptionOperationError::NotFound)
    );
}

#[test]
fn a_changed_remote_document_overrides_locally_and_forgets_validators() {
    let before = state();
    let expected = revision_for(SubscriptionDocumentFormat::Json, "{}");
    let prepared = prepare_document_save(
        &before,
        "sub-a",
        SubscriptionDocumentFormat::Json,
        "{\"a\":1}".to_owned(),
        &expected,
        parsed(vec![draft("New", "new.example.invalid")], SubscriptionFormat::Json),
    )
    .ok()
    .expect("prepared");
    assert_eq!(
        prepared.document_revision,
        revision_for(SubscriptionDocumentFormat::Json, "{\"a\":1}")
    );
    assert!(!prepared.requires_apply);
    assert!(prepared.state_changed);
    let sub = &prepared.next.subscriptions[0];
    assert!(sub.document.as_ref().expect("document").local_override);
    let kept = sub.http_metadata.as_ref().expect("metadata");
    assert_eq!(kept.etag, None);
    assert_eq!(kept.last_modified, None);
    assert_eq!(prepared.summary.id, "sub-a");
    assert_eq!(document_commit_step(&before, &before, &prepared), Ok(true));
    let mut moved = before.clone();
    moved.active_configuration_generation = 2;
    assert_eq!(
        document_commit_step(&moved, &before, &prepared),
        Err(DocumentOperationError::DocumentConflict)
    );
}

#[test]
fn saving_the_selected_subscription_advances_the_generation() {
    let mut before = state();
    before.active_subscription_id = Some(SubscriptionId("sub-a".to_owned()));
    before.active_configuration_generation = 7;
    let expected = revision_for(SubscriptionDocumentFormat::Json, "{}");
    let prepared = prepare_document_save(
        &before,
        "sub-a",
        SubscriptionDocumentFormat::Json,
        "{\"b\":2}".to_owned(),
        &expected,
        parsed(vec![draft("New", "new.example.invalid")], SubscriptionFormat::Json),
    )
    .ok()
    .expect("prepared");
    assert!(prepared.requires_apply);
    assert_eq!(prepared.next.active_configuration_generation, 8);
}

#[test]
fn document_saves_refuse_stale_revisions_and_repeated_connections() {
    let before = state();
    let expected = revision_for(SubscriptionDocumentFormat::Json, "{}");
    let save = |revision: &str, drafts: Vec<ProxyNodeDraft>| {
        prepare_document_save(
            &before,
            "sub-a",
            SubscriptionDocumentFormat::Json,
            "{\"c\":3}".to_owned(),
            revision,
            parsed(drafts, SubscriptionFormat::Json),
        )
        .err()
    };
    assert_eq!(
        save(&"0".repeat(64), vec![draft("N", "n")]),
        Some(DocumentOperationError::DocumentConflict)
    );
    assert_eq!(
        save("abc", vec![draft("N", "n")]),
        Some(DocumentOperationError::InvalidInput)
    );
    assert_eq!(
        save(&expected, vec![draft("N", "same"), draft("M", "same")]),
        Some(DocumentOperationError::NormalizationFailed)
    );
    assert_eq!(
        prepare_document_save(
            &before,
            "sub-m",
            SubscriptionDocumentFormat::Json,
            "{}".to_owned(),
            &expected,
            parsed(vec![draft("N", "n")], SubscriptionFormat::Json),
        )
        .err(),
        Some(DocumentOperationError::DocumentUnavailable)
    );
}

#[test]
fn parser_refusals_keep_their_names() {
    assert_eq!(
        map_document_parse_error(DocumentErrorCode::ContentTooLarge),
        DocumentOperationError::ContentTooLarge
    );
    assert_eq!(
        map_document_parse_error(DocumentErrorCode::UnsupportedClashProviders),
        DocumentOperationError::UnsupportedClashProviders
    );
    assert_eq!(
        map_document_parse_error(DocumentErrorCode::OperationTimedOut),
        DocumentOperationError::OperationTimedOut
    );
}

#[test]
fn a_selected_summary_needs_a_valid_state_and_a_known_id() {
    let summary = selected_summary(&state(), "sub-a").expect("summary");
    assert_eq!(summary.id, "sub-a");
    assert_eq!(summary.node_count, 1);
    assert!(summary.shareable);
    assert_eq!(
        selected_summary(&state(), "nope").map(|s| s.id),
        Err(ActivationError::NotFound)
    );
    let mut invalid = state();
    invalid.nodes[0].provider_id = ProviderId("missing".to_owned());
    assert_eq!(
        selected_summary(&invalid, "sub-a").map(|s| s.id),
        Err(ActivationError::ConfigurationFailed)
    );
}

#[test]
fn persistence_is_refused_when_another_writer_came_in_between() {
    let expected = state();
    let mut candidate = state();
    candidate.active_subscription_id = Some(SubscriptionId("sub-a".to_owned()));
    candidate.active_configuration_generation = 1;
    let mut other = state();
    other.active_configuration_generation = 9;
    assert_eq!(
        persist_step(&other, &expected, &candidate, false),
        Err(ActivationError::Busy)
    );
    assert_eq!(
        persist_step(&expected, &expected, &candidate, true),
        Ok(PersistStep::Cancelled)
    );
    assert_eq!(
        persist_step(&expected, &expected, &candidate, false),
        Ok(PersistStep::Save)
    );
    assert_eq!(
        persist_step(&expected, &expected, &expected, false),
        Ok(PersistStep::Keep)
    );
}

#[test]
fn a_failed_save_ends_the_running_switch_with_its_error_code() {
    let mut observations = InMemoryRuntimeObservations::new_mock();
    observations.record_subscription_switch(SubscriptionSwitch {
        operation_id: "save-1".to_owned(),
        status: SubscriptionSwitchStatus::Queued,
        error_code: None,
    });
    let result =
        failed_document_switch(&mut observations, "save-1".to_owned(), DocumentSaveError::Busy);
    assert!(matches!(
        result,
        DocumentSaveResult::Error {
            operation_id: Some(ref id),
            error: DocumentSaveError::Busy,
        } if id == "save-1"
    ));
    let switch = observations
        .snapshot()
        .subscription_switch
        .expect("switch recorded");
    assert_eq!(switch.status, SubscriptionSwitchStatus::Failed);
    assert_eq!(switch.error_code, Some(SubscriptionSwitchErrorCode::Busy));
}

#[test]
fn re_saving_the_stored_document_with_its_nodes_keeps_the_generation() {
    let mut before = state();
    before.active_subscription_id = Some(SubscriptionId("sub-a".to_owned()));
    before.active_configuration_generation = 7;
    let first = prepare_document_save(
        &before,
        "sub-a",
        SubscriptionDocumentFormat::Json,
        "{\"d\":4}".to_owned(),
        &revision_for(SubscriptionDocumentFormat::Json, "{}"),
        parsed(vec![draft("New", "new.example.invalid")], SubscriptionFormat::Json),
    )
    .ok()
    .expect("first save");
    assert!(first.requires_apply);
    assert_eq!(first.next.active_configuration_generation, 8);

    let again = prepare_document_save(
        &first.next,
        "sub-a",
        SubscriptionDocumentFormat::Json,
        "{\"d\":4}".to_owned(),
        &first.document_revision,
        parsed(vec![draft("New", "new.example.invalid")], SubscriptionFormat::Json),
    )
    .ok()
    .expect("second save");
    assert!(!again.requires_apply);
    assert!(!again.state_changed);
    assert_eq!(again.next.active_configuration_generation, 8);
    assert_eq!(again.document_revision, first.document_revision);
}

#[test]
fn re_applying_the_selected_subscription_writes_nothing() {
    let mut selected = state();
    selected.active_subscription_id = Some(SubscriptionId("sub-a".to_owned()));
    selected.active_configuration_generation = 3;
    let mut observations = InMemoryRuntimeObservations::new_mock();
    let snapshot = observations.snapshot();
    let plan = veyra::activation::plan_activation(&selected, "sub-a", true, None, &snapshot)
        .ok()
        .expect("plan");
    assert_eq!(plan.candidate, selected);
    assert_eq!(plan.generation, 3);
    assert!(plan.reactivation);
    assert_eq!(
        persist_step(&selected, &selected, &plan.candidate, false),
        Ok(PersistStep::Keep)
    );
}

#[test]
fn settings_are_read_for_known_subscriptions_only() {
    let settings = veyra::document_save::subscription_settings(&state(), "sub-a").expect("settings");
    assert_eq!(settings.id, "sub-a");
    assert_eq!(settings.url_preview.as_deref(), Some(URL));
    assert!(settings.shareable);
    assert_eq!(
        veyra::document_save::subscription_settings(&state(), "nope").map(|s| s.id),
        Err(SubscriptionOperationError::NotFound)
    );
    assert_eq!(
        veyra::document_save::subscription_settings(&state(), "").map(|s| s.id),
        Err(SubscriptionOperationError::InvalidInput)
    );
}

#[test]
fn a_document_error_names_its_operation() {
    assert!(matches!(
        veyra::document_apply::document_error("op".to_owned(), DocumentSaveError::SaveFailed),
        DocumentSaveResult::Error {
            operation_id: Some(ref id),
            error: DocumentSaveError::SaveFailed,
        } if id == "op"
    ));
}
