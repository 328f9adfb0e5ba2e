use veyra::observability::{
    InMemoryRuntimeObservations, ObservationLogCategory, ObservationLogLevel,
    RuntimeObservationDelta, TrafficHistoryPoint,
};
use veyra::responses::{bootstrap_status, BootstrapStatus, RuntimeObservationResponse, TrafficHistoryPointResponse};

#[test]
fn delta_response_uses_the_same_fixed_safe_dto() {
    let mut observations = InMemoryRuntimeObservations::new_mock();
    let subscription = observations.subscribe();
    observations.record_connection_count(2);
    let delta = observations
        .take_latest_delta(&subscription)
        .expect("subscription receives the latest delta");

    let response = RuntimeObservationResponse::from_delta(&delta);

    assert_eq!(response.source, "mock");
    assert_eq!(response.connection_count, 2);
    assert_eq!(response.revision, 1);
}

#[test]
fn stopped_managed_runtime_has_a_distinct_safe_lifecycle_value() {
    let mut observations = InMemoryRuntimeObservations::new_mock();
    observations.record_managed_stopped();

    let response = RuntimeObservationResponse::from_snapshot(&observations.snapshot());

    assert_eq!(response.source, "runtime");
    assert_eq!(response.sidecar_lifecycle, "stopped");
}

#[test]
fn observation_response_names_only_category_and_level_of_the_latest_log() {
    let mut observations = InMemoryRuntimeObservations::new_mock();
    observations.record_runtime_log(
        ObservationLogLevel::Error,
        ObservationLogCategory::Connectivity,
        "failed to connect to http://127.0.0.1:9090 with fixture-secret-token",
    );

    let response = RuntimeObservationResponse::from_snapshot(&observations.snapshot());

    assert_eq!(response.source, "mock");
    assert_eq!(response.log_summary.len(), 1);
    assert_eq!(response.log_summary[0].category, "proxy");
    assert_eq!(response.log_summary[0].level, "error");
    assert_eq!(response.log_summary[0].occurrences, 1);
}

#[test]
fn delta_and_snapshot_of_the_same_observation_give_the_same_response() {
    let mut observations = InMemoryRuntimeObservations::new_mock();
    let mut snapshot = observations.snapshot();
    snapshot.observed_at_ms = 2_000;
    snapshot.traffic_history = vec![TrafficHistoryPoint {
        sampled_at_ms: 1_000,
        upload_rate_bps: 100,
        download_rate_bps: 200,
    }];
    let delta_response =
        RuntimeObservationResponse::from_delta(&RuntimeObservationDelta::from_snapshot(&snapshot));
    let snapshot_response = RuntimeObservationResponse::from_snapshot(&snapshot);
    assert_eq!(delta_response, snapshot_response);
    assert_eq!(snapshot_response.capture_mode, "off");
    assert_eq!(snapshot_response.sidecar_lifecycle, "notAttached");
    assert_eq!(
        snapshot_response.traffic_history,
        vec![TrafficHistoryPointResponse {
            sampled_at_ms: 1_000,
            upload_rate_bps: 100,
            download_rate_bps: 200,
        }]
    );
    assert!(snapshot_response.log_summary.is_empty());
}

#[test]
fn returns_only_fixed_bootstrap_information() {
    assert_eq!(
        bootstrap_status(),
        BootstrapStatus {
            application: "Veyra",
            status: "ready",
        }
    );
}
