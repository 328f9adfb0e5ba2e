use veyra::observability::{
    ClashConnectionSnapshot, ClashLogCategory, ClashLogLevel, ClashLogSummary,
    ClashRuntimeObservation, ClashTrafficObservation, ConnectionObservation,
    InMemoryRuntimeObservations, ManagedRuntimeFailure, ObservationLogCategory,
    ObservationLogLevel, ObservationLogSummary, ObservationSource, ObservedCaptureMode,
    ObservedSidecarLifecycle, RuntimeObservationSnapshot, sanitized_summary, TrafficHistoryPoint, TrafficObservation,
};

fn managed_sample(upload: u64, download: u64) -> ClashRuntimeObservation {
    ClashRuntimeObservation {
        connections: ClashConnectionSnapshot {
            upload_total_bytes: 900,
            download_total_bytes: 1_800,
            connection_count: 2,
        },
        traffic: Some(ClashTrafficObservation {
            upload_bytes_per_second: upload,
            download_bytes_per_second: download,
            upload_total_bytes: 900,
            download_total_bytes: 1_800,
        }),
        latest_log: None,
    }
}

#[test]
fn mock_default_is_honest_about_missing_real_observation_source() {
    let mut observations = InMemoryRuntimeObservations::new_mock();
    observations.set_observed_time(0);

    assert_eq!(
        observations.snapshot(),
        RuntimeObservationSnapshot {
            revision: 0,
            observed_at_ms: 0,
            traffic_history: Vec::new(),
            source: ObservationSource::MockOnly,
            capture_mode: ObservedCaptureMode::NotObserved,
            sidecar_lifecycle: ObservedSidecarLifecycle::NotObserved,
            traffic: TrafficObservation::default(),
            connections: ConnectionObservation::default(),
            latest_log: None,
            applied_subscription_id: None,
            applied_configuration_generation: None,
            subscription_switch: None,
            managed_proxy_available: false,
            core_memory_bytes: None,
        }
    );
}

#[test]
fn traffic_history_is_bounded_and_uses_successful_publication_times() {
    let mut observations = InMemoryRuntimeObservations::new_mock();
    for index in 0..605u64 {
        observations.set_observed_time(index * 500);
        observations.record_managed_observation(managed_sample(index, index * 2));
    }
    let snapshot = observations.snapshot();
    assert_eq!(snapshot.observed_at_ms, 302_000);
    assert_eq!(snapshot.traffic_history.len(), 600);
    assert_eq!(snapshot.traffic_history[0].sampled_at_ms, 2_500);
    assert_eq!(snapshot.traffic_history[599].sampled_at_ms, 302_000);
    assert_eq!(snapshot.traffic_history[599].upload_rate_bps, 604);
    assert_eq!(snapshot.traffic_history[599].download_rate_bps, 1_208);
    assert!(snapshot
        .traffic_history
        .windows(2)
        .all(|points| points[0].sampled_at_ms < points[1].sampled_at_ms));
}

#[test]
fn snapshot_expires_history_without_revision_event_or_new_sample() {
    let mut observations = InMemoryRuntimeObservations::new_mock();
    observations.set_observed_time(1_000);
    observations.record_managed_observation(managed_sample(10, 20));
    let subscription = observations.subscribe();

    observations.set_observed_time(601_000);
    let boundary = observations.snapshot();
    assert_eq!(boundary.traffic_history.len(), 1);
    assert_eq!(boundary.observed_at_ms, 601_000);
    observations.set_observed_time(601_001);
    let expired = observations.snapshot();
    assert!(expired.traffic_history.is_empty());
    assert_eq!(expired.observed_at_ms, 601_001);
    assert_eq!(expired.revision, boundary.revision);
    assert_eq!(expired.traffic, boundary.traffic);
    assert_eq!(observations.take_latest_delta(&subscription), None);
}

#[test]
fn only_managed_traffic_samples_append_and_updates_also_expire_history() {
    let mut observations = InMemoryRuntimeObservations::new_mock();
    observations.set_observed_time(1_000);
    observations.record_managed_observation(managed_sample(10, 20));
    let original = observations.snapshot().traffic_history;
    observations.set_observed_time(2_000);
    observations.record_connection_count(7);
    observations.record_runtime_log(
        ObservationLogLevel::Info,
        ObservationLogCategory::Runtime,
        "runtime observation",
    );
    observations.record_traffic(99, 98, 0, 0);
    let mut no_traffic = managed_sample(0, 0);
    no_traffic.traffic = None;
    observations.record_managed_observation(no_traffic);
    assert_eq!(observations.snapshot().traffic_history, original);

    let subscription = observations.subscribe();
    observations.set_observed_time(601_001);
    observations.record_connection_count(8);
    let delta = observations
        .take_latest_delta(&subscription)
        .expect("connection delta");
    assert!(delta.traffic_history.is_empty());
    assert_eq!(delta.observed_at_ms, 601_001);
}

#[test]
fn same_millisecond_replaces_last_point_and_zero_rates_are_valid() {
    let mut observations = InMemoryRuntimeObservations::new_mock();
    observations.set_observed_time(500);
    observations.record_managed_observation(managed_sample(10, 20));
    observations.record_managed_observation(managed_sample(0, 0));
    assert_eq!(
        observations.snapshot().traffic_history,
        vec![TrafficHistoryPoint {
            sampled_at_ms: 500,
            upload_rate_bps: 0,
            download_rate_bps: 0,
        }]
    );
}

#[test]
fn hidden_window_keeps_history_in_owner_and_latest_delta_carries_whole_window() {
    let mut observations = InMemoryRuntimeObservations::new_mock();
    let visible = observations.subscribe();
    observations.unsubscribe(visible);
    observations.set_observed_time(1_000);
    observations.record_managed_observation(managed_sample(1, 2));
    observations.set_observed_time(181_000);
    observations.record_managed_observation(managed_sample(3, 4));
    let restored = observations.subscribe();
    assert_eq!(observations.take_latest_delta(&restored), None);
    assert_eq!(observations.snapshot().traffic_history.len(), 2);

    observations.set_observed_time(182_000);
    observations.record_managed_observation(managed_sample(5, 6));
    observations.set_observed_time(183_000);
    observations.record_managed_observation(managed_sample(7, 8));
    let latest = observations
        .take_latest_delta(&restored)
        .expect("latest delta");
    assert_eq!(latest.revision, 4);
    assert_eq!(latest.traffic_history.len(), 4);
    assert_eq!(
        latest.traffic_history,
        observations.snapshot().traffic_history
    );
    assert_eq!(observations.take_latest_delta(&restored), None);
}

#[test]
fn healthy_configuration_failure_preserves_history_but_core_changes_clear_it() {
    let transitions: [fn(&mut InMemoryRuntimeObservations); 5] = [
        InMemoryRuntimeObservations::record_managed_ready,
        InMemoryRuntimeObservations::record_managed_stopped,
        InMemoryRuntimeObservations::record_managed_recovery,
        |observations| {
            observations.record_managed_failure(
                Some(ObservedSidecarLifecycle::Stopped),
                ManagedRuntimeFailure::Start,
            )
        },
        |observations| {
            observations.record_managed_failure(
                Some(ObservedSidecarLifecycle::RecoveryRequired),
                ManagedRuntimeFailure::Stop,
            )
        },
    ];
    for transition in transitions {
        let mut observations = InMemoryRuntimeObservations::new_mock();
        observations.set_observed_time(1_000);
        observations.record_managed_observation(managed_sample(10, 20));
        let before = observations.snapshot();
        observations.set_observed_time(2_000);
        observations.record_managed_failure(None, ManagedRuntimeFailure::Configuration);
        assert_eq!(
            observations.snapshot().traffic_history,
            before.traffic_history
        );
        assert_eq!(observations.snapshot().traffic, before.traffic);
        let subscription = observations.subscribe();
        transition(&mut observations);
        let delta = observations
            .take_latest_delta(&subscription)
            .expect("transition delta");
        assert!(delta.traffic_history.is_empty());
        assert_eq!(delta.traffic, TrafficObservation::default());
        assert!(observations.snapshot().traffic_history.is_empty());
    }
}

#[test]
fn revisions_are_monotonic_across_runtime_traffic_and_connection_updates() {
    let mut observations = InMemoryRuntimeObservations::new_mock();

    observations.record_runtime_state(
        ObservedCaptureMode::SystemProxy,
        ObservedSidecarLifecycle::Ready,
    );
    observations.record_traffic(12, 34, 56, 78);
    observations.record_connection_count(3);

    let snapshot = observations.snapshot();
    assert_eq!(snapshot.revision, 3);
    assert_eq!(snapshot.capture_mode, ObservedCaptureMode::SystemProxy);
    assert_eq!(snapshot.sidecar_lifecycle, ObservedSidecarLifecycle::Ready);
    assert_eq!(snapshot.traffic.upload_bytes_per_second, 12);
    assert_eq!(snapshot.traffic.download_bytes_per_second, 34);
    assert_eq!(snapshot.traffic.upload_total_bytes, 56);
    assert_eq!(snapshot.traffic.download_total_bytes, 78);
    assert_eq!(snapshot.connections.active, 3);
}

#[test]
fn traffic_totals_accumulate_without_connection_history() {
    let mut observations = InMemoryRuntimeObservations::new_mock();

    observations.record_traffic(10, 20, 30, 40);
    observations.record_traffic(11, 21, 50, 60);

    let snapshot = observations.snapshot();
    assert_eq!(snapshot.traffic.upload_bytes_per_second, 11);
    assert_eq!(snapshot.traffic.download_bytes_per_second, 21);
    assert_eq!(snapshot.traffic.upload_total_bytes, 80);
    assert_eq!(snapshot.traffic.download_total_bytes, 100);
    assert_eq!(snapshot.connections.active, 0);
}

#[test]
fn log_summary_omits_fixture_secrets_and_raw_endpoint_details() {
    let mut observations = InMemoryRuntimeObservations::new_mock();
    let fixture_secret = "fixture-secret-token";

    observations.record_runtime_log(
        ObservationLogLevel::Error,
        ObservationLogCategory::Connectivity,
        "failed to connect to http://127.0.0.1:9090 with fixture-secret-token",
    );

    let summary = observations
        .snapshot()
        .latest_log
        .expect("sanitized log summary");
    assert_eq!(summary.message, "Sensitive runtime detail omitted");
    assert!(!summary.message.contains(fixture_secret));
    assert!(!summary.message.contains("127.0.0.1"));
}

#[test]
fn no_subscription_means_no_delta_backlog_but_snapshot_remains_current() {
    let mut observations = InMemoryRuntimeObservations::new_mock();

    observations.record_connection_count(1);
    observations.record_connection_count(2);
    let subscription = observations.subscribe();

    assert_eq!(observations.take_latest_delta(&subscription), None);
    assert_eq!(observations.snapshot().connections.active, 2);
}

#[test]
fn subscription_keeps_only_latest_delta_and_drop_cancels_delivery() {
    let mut observations = InMemoryRuntimeObservations::new_mock();
    let subscription = observations.subscribe();

    observations.record_connection_count(1);
    observations.record_connection_count(2);
    let latest = observations
        .take_latest_delta(&subscription)
        .expect("latest delta");
    assert_eq!(latest.revision, 2);
    assert_eq!(latest.connections.active, 2);
    assert_eq!(observations.take_latest_delta(&subscription), None);

    observations.unsubscribe(subscription);
    observations.record_connection_count(3);
    let restored = observations.subscribe();
    assert_eq!(observations.take_latest_delta(&restored), None);
    assert_eq!(observations.snapshot().connections.active, 3);
}

#[test]
fn restored_window_reads_current_snapshot_without_replaying_hidden_deltas() {
    let mut observations = InMemoryRuntimeObservations::new_mock();
    let visible = observations.subscribe();
    observations.record_traffic(1, 2, 3, 4);
    observations.unsubscribe(visible);

    observations.record_traffic(5, 6, 7, 8);
    let restored = observations.subscribe();

    assert_eq!(observations.take_latest_delta(&restored), None);
    let snapshot = observations.snapshot();
    assert_eq!(snapshot.revision, 2);
    assert_eq!(snapshot.traffic.upload_total_bytes, 10);
    assert_eq!(snapshot.traffic.download_total_bytes, 12);
}

#[test]
fn installed_delta_sink_receives_each_new_delta_without_persisting_history() {
    let mut observations = InMemoryRuntimeObservations::new_mock();
    observations.install_delta_sink();

    observations.record_connection_count(1);
    observations.record_connection_count(2);

    let revisions: Vec<u64> = observations
        .drain_sink()
        .iter()
        .map(|delta| delta.revision)
        .collect();
    assert_eq!(revisions, vec![1, 2]);
    assert!(observations.drain_sink().is_empty());
}

#[test]
fn managed_bridge_summary_updates_only_the_existing_safe_observation_fields() {
    let mut observations = InMemoryRuntimeObservations::new_mock();
    let subscription = observations.subscribe();

    observations.record_managed_observation(ClashRuntimeObservation {
        connections: ClashConnectionSnapshot {
            upload_total_bytes: 99,
            download_total_bytes: 88,
            connection_count: 3,
        },
        traffic: Some(ClashTrafficObservation {
            upload_bytes_per_second: 10,
            download_bytes_per_second: 20,
            upload_total_bytes: 99,
            download_total_bytes: 88,
        }),
        latest_log: Some(ClashLogSummary {
            level: ClashLogLevel::Warning,
            category: ClashLogCategory::Runtime,
            message: "sidecar log observed".to_owned(),
        }),
    });

    let snapshot = observations.snapshot();
    assert_eq!(snapshot.source, ObservationSource::ManagedSidecar);
    assert_eq!(snapshot.sidecar_lifecycle, ObservedSidecarLifecycle::Ready);
    assert_eq!(snapshot.connections.active, 3);
    assert_eq!(snapshot.traffic.upload_bytes_per_second, 10);
    assert_eq!(snapshot.traffic.download_bytes_per_second, 20);
    assert_eq!(snapshot.traffic.upload_total_bytes, 99);
    assert_eq!(snapshot.traffic.download_total_bytes, 88);
    let delta = observations
        .take_latest_delta(&subscription)
        .expect("managed summary delta");
    assert_eq!(delta.traffic, snapshot.traffic);
    assert_eq!(
        snapshot.latest_log,
        Some(ObservationLogSummary {
            level: ObservationLogLevel::Warning,
            category: ObservationLogCategory::Runtime,
            message: "sidecar log observed".to_owned(),
        })
    );
}

#[test]
fn managed_bridge_failure_is_only_a_closed_recovery_state() {
    let mut observations = InMemoryRuntimeObservations::new_mock();

    observations.record_managed_recovery();

    let snapshot = observations.snapshot();
    assert_eq!(snapshot.source, ObservationSource::ManagedSidecar);
    assert_eq!(
        snapshot.sidecar_lifecycle,
        ObservedSidecarLifecycle::RecoveryRequired
    );
    assert_eq!(snapshot.latest_log, None);
}

#[test]
fn managed_stop_clears_previous_safe_runtime_summaries() {
    let mut observations = InMemoryRuntimeObservations::new_mock();
    observations.record_managed_ready();
    observations.record_connection_count(3);
    observations.record_traffic(2, 4, 10, 20);

    observations.record_managed_stopped();
    let snapshot = observations.snapshot();

    assert_eq!(snapshot.source, ObservationSource::ManagedSidecar);
    assert_eq!(snapshot.capture_mode, ObservedCaptureMode::Off);
    assert_eq!(
        snapshot.sidecar_lifecycle,
        ObservedSidecarLifecycle::Stopped
    );
    assert_eq!(snapshot.connections.active, 0);
    assert_eq!(snapshot.traffic, TrafficObservation::default());
    assert_eq!(snapshot.latest_log, None);
}

#[test]
fn configuration_failure_preserves_healthy_state_and_uses_a_fixed_error_summary() {
    let mut observations = InMemoryRuntimeObservations::new_mock();
    observations.record_managed_ready();
    observations.record_traffic(2, 4, 10, 20);
    observations.record_connection_count(3);
    let before = observations.snapshot();

    observations.record_managed_failure(None, ManagedRuntimeFailure::Configuration);
    let after = observations.snapshot();
    assert_eq!(after.sidecar_lifecycle, ObservedSidecarLifecycle::Ready);
    assert_eq!(after.traffic, before.traffic);
    assert_eq!(after.connections, before.connections);
    let log = after.latest_log.expect("failure log");
    assert_eq!(log.level, ObservationLogLevel::Error);
    assert_eq!(
        log.message,
        "Configuration generation failed; candidate not applied"
    );
}

#[test]
fn failed_start_or_cleanup_clears_stale_traffic_and_records_actual_lifecycle() {
    for lifecycle in [
        ObservedSidecarLifecycle::Stopped,
        ObservedSidecarLifecycle::RecoveryRequired,
    ] {
        let mut observations = InMemoryRuntimeObservations::new_mock();
        observations.record_managed_ready();
        observations.record_traffic(2, 4, 10, 20);
        observations.record_connection_count(3);
        let subscription = observations.subscribe();

        observations.record_managed_failure(Some(lifecycle), ManagedRuntimeFailure::Start);
        let after = observations.snapshot();
        assert_eq!(after.sidecar_lifecycle, lifecycle);
        assert_eq!(after.traffic, TrafficObservation::default());
        assert_eq!(after.connections.active, 0);
        assert_eq!(
            after.latest_log.as_ref().expect("failure log").message,
            "Core startup failed"
        );
        let delta = observations
            .take_latest_delta(&subscription)
            .expect("failure delta");
        assert_eq!(delta.sidecar_lifecycle, lifecycle);
        assert_eq!(delta.traffic, after.traffic);
        assert_eq!(delta.latest_log, after.latest_log);
    }
}

#[test]
fn sanitized_summary_distinguishes_empty_plain_and_sensitive_details() {
    assert_eq!(sanitized_summary("   "), "Runtime event recorded without detail");
    assert_eq!(sanitized_summary("worker restarted"), "Runtime event recorded");
    assert_eq!(
        sanitized_summary("Authorization: Bearer abc"),
        "Sensitive runtime detail omitted"
    );
}
