//! The fixed, safe values the user interface receives: observation
//! responses, the bootstrap status and the closed window error.
use vstd::prelude::*;

use crate::domain::ExactClone;
use crate::observability::{
    delta_of, lemma_points_view, ObservationLogCategory, ObservationLogLevel, ObservationLogSummaryView,
    ObservationSource, ObservedCaptureMode, ObservedSidecarLifecycle, RuntimeObservationDelta,
    RuntimeObservationDeltaView, RuntimeObservationSnapshot, RuntimeObservationSnapshotView,
    SubscriptionSwitch, SubscriptionSwitchView, TrafficHistoryPoint,
};

verus! {

/// The application's name and readiness, as the shell shows them at start.
#[derive(Debug, PartialEq, Eq)]
pub struct BootstrapStatus {
    pub application: &'static str,
    pub status: &'static str,
}

/// The bootstrap status: the application is Veyra and it is ready.
pub fn bootstrap_status() -> (r: BootstrapStatus)
    ensures
        r.application@ == "Veyra"@,
        r.status@ == "ready"@,
{
    BootstrapStatus { application: "Veyra", status: "ready" }
}

/// Why the main window could not be shown; names no platform detail.
#[derive(Clone, Copy, Debug, PartialEq, Eq, Structural)]
pub enum ShowMainWindowError {
    MainWindowUnavailable,
    WindowOperationFailed,
    ObservationNotificationFailed,
}

/// One point of the traffic history as the interface receives it.
#[derive(Clone, Copy, Debug, PartialEq, Eq, Structural)]
pub struct TrafficHistoryPointResponse {
    pub sampled_at_ms: u64,
    pub upload_rate_bps: u64,
    pub download_rate_bps: u64,
}

impl TrafficHistoryPointResponse {
    /// The response for a history point: its time and rates, nothing else.
    pub fn from_point(point: TrafficHistoryPoint) -> (r: Self)
        ensures
            r.sampled_at_ms == point.sampled_at_ms,
            r.upload_rate_bps == point.upload_rate_bps,
            r.download_rate_bps == point.download_rate_bps,
    {
        TrafficHistoryPointResponse {
            sampled_at_ms: point.sampled_at_ms,
            upload_rate_bps: point.upload_rate_bps,
            download_rate_bps: point.download_rate_bps,
        }
    }
}

/// The latest log line as the interface receives it: category and level
/// only, never the message.
#[derive(Clone, Copy, Debug, PartialEq, Eq)]
pub struct ObservationLogSummaryResponse {
    pub category: &'static str,
    pub level: &'static str,
    pub occurrences: u32,
}

/// The wire name of an observation source.
pub open spec fn source_label(s: ObservationSource) -> Seq<char> {
    match s {
        ObservationSource::MockOnly => "mock"@,
        ObservationSource::ManagedSidecar => "runtime"@,
    }
}

/// The wire name of a capture mode; an unobserved mode is reported as off.
pub open spec fn capture_mode_label(m: ObservedCaptureMode) -> Seq<char> {
    match m {
        ObservedCaptureMode::NotObserved => "off"@,
        ObservedCaptureMode::Off => "off"@,
        ObservedCaptureMode::SystemProxy => "systemProxy"@,
        ObservedCaptureMode::RecoveryRequired => "recoveryRequired"@,
    }
}

/// The wire name of a sidecar lifecycle.
pub open spec fn lifecycle_label(l: ObservedSidecarLifecycle) -> Seq<char> {
    match l {
        ObservedSidecarLifecycle::NotObserved => "notAttached"@,
        ObservedSidecarLifecycle::Stopped => "stopped"@,
        ObservedSidecarLifecycle::Ready => "ready"@,
        ObservedSidecarLifecycle::RecoveryRequired => "recoveryRequired"@,
    }
}

/// The wire name of a log category.
pub open spec fn category_label(c: ObservationLogCategory) -> Seq<char> {
    match c {
        ObservationLogCategory::Runtime => "runtime"@,
        ObservationLogCategory::Connectivity => "proxy"@,
        ObservationLogCategory::Recovery => "subscription"@,
    }
}

/// The wire name of a log level.
pub open spec fn level_label(l: ObservationLogLevel) -> Seq<char> {
    match l {
        ObservationLogLevel::Info => "info"@,
        ObservationLogLevel::Warning => "warn"@,
        ObservationLogLevel::Error => "error"@,
    }
}

/// Names an observation source on the wire.
pub fn map_source(source: ObservationSource) -> (r: &'static str)
    ensures
        r@ == source_label(source),
{
    match source {
        ObservationSource::MockOnly => "mock",
        ObservationSource::ManagedSidecar => "runtime",
    }
}

/// Names a capture mode on the wire.
pub fn map_capture_mode(mode: ObservedCaptureMode) -> (r: &'static str)
    ensures
        r@ == capture_mode_label(mode),
{
    match mode {
        ObservedCaptureMode::NotObserved => "off",
        ObservedCaptureMode::Off => "off",
        ObservedCaptureMode::SystemProxy => "systemProxy",
        ObservedCaptureMode::RecoveryRequired => "recoveryRequired",
    }
}

/// Names a sidecar lifecycle on the wire.
pub fn map_sidecar_lifecycle(lifecycle: ObservedSidecarLifecycle) -> (r: &'static str)
    ensures
        r@ == lifecycle_label(lifecycle),
{
    match lifecycle {
        ObservedSidecarLifecycle::NotObserved => "notAttached",
        ObservedSidecarLifecycle::Stopped => "stopped",
        ObservedSidecarLifecycle::Ready => "ready",
        ObservedSidecarLifecycle::RecoveryRequired => "recoveryRequired",
    }
}

/// Names a log category on the wire.
pub fn map_log_category(category: ObservationLogCategory) -> (r: &'static str)
    ensures
        r@ == category_label(category),
{
    match category {
        ObservationLogCategory::Runtime => "runtime",
        ObservationLogCategory::Connectivity => "proxy",
        ObservationLogCategory::Recovery => "subscription",
    }
}

/// Names a log level on the wire.
pub fn map_log_level(level: ObservationLogLevel) -> (r: &'static str)
    ensures
        r@ == level_label(level),
{
    match level {
        ObservationLogLevel::Info => "info",
        ObservationLogLevel::Warning => "warn",
        ObservationLogLevel::Error => "error",
    }
}

/// The closed, safe observation the interface receives.
#[derive(Clone, Debug, PartialEq, Eq)]
pub struct RuntimeObservationResponse {
    pub source: &'static str,
    pub revision: u64,
    pub observed_at_ms: u64,
    pub traffic_history: Vec<TrafficHistoryPointResponse>,
    pub capture_mode: &'static str,
    pub sidecar_lifecycle: &'static str,
    pub applied_subscription_id: Option<String>,
    pub applied_configuration_generation: Option<u64>,
    pub subscription_switch: Option<SubscriptionSwitch>,
    pub managed_proxy_available: bool,
    pub core_memory_bytes: Option<u64>,
    pub upload_rate_bps: u64,
    pub download_rate_bps: u64,
    pub upload_total_bytes: u64,
    pub download_total_bytes: u64,
    pub connection_count: u32,
    pub log_summary: Vec<ObservationLogSummaryResponse>,
}

/// The response's history carries the points' times and rates, in order.
pub open spec fn history_matches(
    r: Seq<TrafficHistoryPointResponse>,
    points: Seq<TrafficHistoryPoint>,
) -> bool {
    r.len() == points.len() && forall|k: int|
        0 <= k < r.len() ==> (#[trigger] r[k]).sampled_at_ms == points[k].sampled_at_ms
            && r[k].upload_rate_bps == points[k].upload_rate_bps && r[k].download_rate_bps
            == points[k].download_rate_bps
}

/// The response's log summary has one line for the latest log, if any,
/// naming its category and level once.
pub open spec fn log_matches(
    r: Seq<ObservationLogSummaryResponse>,
    latest: Option<ObservationLogSummaryView>,
) -> bool {
    match latest {
        None => r.len() == 0,
        Some(l) => r.len() == 1 && r[0].category@ == category_label(l.category) && r[0].level@
            == level_label(l.level) && r[0].occurrences == 1,
    }
}

/// The response point of a history point.
pub open spec fn point_response(p: TrafficHistoryPoint) -> TrafficHistoryPointResponse {
    TrafficHistoryPointResponse {
        sampled_at_ms: p.sampled_at_ms,
        upload_rate_bps: p.upload_rate_bps,
        download_rate_bps: p.download_rate_bps,
    }
}

/// The response history of a traffic history, point for point.
pub open spec fn history_response_of(points: Seq<TrafficHistoryPoint>) -> Seq<TrafficHistoryPointResponse> {
    Seq::new(points.len(), |k: int| point_response(points[k]))
}

/// Mathematical view of [`ObservationLogSummaryResponse`].
pub ghost struct ObservationLogSummaryResponseView {
    pub category: Seq<char>,
    pub level: Seq<char>,
    pub occurrences: u32,
}

impl View for ObservationLogSummaryResponse {
    type V = ObservationLogSummaryResponseView;

    open spec fn view(&self) -> ObservationLogSummaryResponseView {
        ObservationLogSummaryResponseView {
            category: self.category@,
            level: self.level@,
            occurrences: self.occurrences,
        }
    }
}

/// The views of log summary lines.
pub open spec fn log_view(lines: Seq<ObservationLogSummaryResponse>) -> Seq<ObservationLogSummaryResponseView> {
    Seq::new(lines.len(), |k: int| lines[k]@)
}

/// The log summary of the latest log: one line naming its category and
/// level, or none.
pub open spec fn log_response_of(latest: Option<ObservationLogSummaryView>) -> Seq<ObservationLogSummaryResponseView> {
    match latest {
        None => Seq::empty(),
        Some(l) => seq![ObservationLogSummaryResponseView {
            category: category_label(l.category),
            level: level_label(l.level),
            occurrences: 1,
        }],
    }
}

/// Mathematical view of [`RuntimeObservationResponse`].
pub ghost struct RuntimeObservationResponseView {
    pub source: Seq<char>,
    pub revision: u64,
    pub observed_at_ms: u64,
    pub traffic_history: Seq<TrafficHistoryPointResponse>,
    pub capture_mode: Seq<char>,
    pub sidecar_lifecycle: Seq<char>,
    pub applied_subscription_id: Option<Seq<char>>,
    pub applied_configuration_generation: Option<u64>,
    pub subscription_switch: Option<SubscriptionSwitchView>,
    pub managed_proxy_available: bool,
    pub core_memory_bytes: Option<u64>,
    pub upload_rate_bps: u64,
    pub download_rate_bps: u64,
    pub upload_total_bytes: u64,
    pub download_total_bytes: u64,
    pub connection_count: u32,
    pub log_summary: Seq<ObservationLogSummaryResponseView>,
}

impl View for RuntimeObservationResponse {
    type V = RuntimeObservationResponseView;

    open spec fn view(&self) -> RuntimeObservationResponseView {
        RuntimeObservationResponseView {
            source: self.source@,
            revision: self.revision,
            observed_at_ms: self.observed_at_ms,
            traffic_history: self.traffic_history@,
            capture_mode: self.capture_mode@,
            sidecar_lifecycle: self.sidecar_lifecycle@,
            applied_subscription_id: self.applied_subscription_id.deep_view(),
            applied_configuration_generation: self.applied_configuration_generation,
            subscription_switch: self.subscription_switch.deep_view(),
            managed_proxy_available: self.managed_proxy_available,
            core_memory_bytes: self.core_memory_bytes,
            upload_rate_bps: self.upload_rate_bps,
            download_rate_bps: self.download_rate_bps,
            upload_total_bytes: self.upload_total_bytes,
            download_total_bytes: self.download_total_bytes,
            connection_count: self.connection_count,
            log_summary: log_view(self.log_summary@),
        }
    }
}

/// The response to a snapshot: every safe field carried over, labels in
/// their wire names, the log reduced to its summary.
pub open spec fn response_of_snapshot(s: RuntimeObservationSnapshotView) -> RuntimeObservationResponseView {
    RuntimeObservationResponseView {
        source: source_label(s.source),
        revision: s.revision,
        observed_at_ms: s.observed_at_ms,
        traffic_history: history_response_of(s.traffic_history),
        capture_mode: capture_mode_label(s.capture_mode),
        sidecar_lifecycle: lifecycle_label(s.sidecar_lifecycle),
        applied_subscription_id: s.applied_subscription_id,
        applied_configuration_generation: s.applied_configuration_generation,
        subscription_switch: s.subscription_switch,
        managed_proxy_available: s.managed_proxy_available,
        core_memory_bytes: s.core_memory_bytes,
        upload_rate_bps: s.traffic.upload_bytes_per_second,
        download_rate_bps: s.traffic.download_bytes_per_second,
        upload_total_bytes: s.traffic.upload_total_bytes,
        download_total_bytes: s.traffic.download_total_bytes,
        connection_count: s.connections.active,
        log_summary: log_response_of(s.latest_log),
    }
}

/// The response to a published delta, built from the delta's own fields.
pub open spec fn response_of_delta(d: RuntimeObservationDeltaView) -> RuntimeObservationResponseView {
    RuntimeObservationResponseView {
        source: source_label(d.source),
        revision: d.revision,
        observed_at_ms: d.observed_at_ms,
        traffic_history: history_response_of(d.traffic_history),
        capture_mode: capture_mode_label(d.capture_mode),
        sidecar_lifecycle: lifecycle_label(d.sidecar_lifecycle),
        applied_subscription_id: d.applied_subscription_id,
        applied_configuration_generation: d.applied_configuration_generation,
        subscription_switch: d.subscription_switch,
        managed_proxy_available: d.managed_proxy_available,
        core_memory_bytes: d.core_memory_bytes,
        upload_rate_bps: d.traffic.upload_bytes_per_second,
        download_rate_bps: d.traffic.download_bytes_per_second,
        upload_total_bytes: d.traffic.upload_total_bytes,
        download_total_bytes: d.traffic.download_total_bytes,
        connection_count: d.connections.active,
        log_summary: log_response_of(d.latest_log),
    }
}

/// A delta and the snapshot it carries give the same response: the
/// interface receives one fixed, safe form whichever way an observation
/// reaches it.
pub proof fn law_delta_response_equals_snapshot_response(s: RuntimeObservationSnapshotView)
    ensures
        response_of_delta(delta_of(s)) == response_of_snapshot(s),
{
}

fn history_response(points: &Vec<TrafficHistoryPoint>) -> (r: Vec<TrafficHistoryPointResponse>)
    ensures
        history_matches(r@, points@),
        r@ == history_response_of(points@),
{
    let mut r: Vec<TrafficHistoryPointResponse> = Vec::new();
    let mut i: usize = 0;
    while i < points.len()
        invariant
            i <= points.len(),
            r@.len() == i,
            forall|k: int|
                0 <= k < i ==> (#[trigger] r@[k]).sampled_at_ms == points@[k].sampled_at_ms
                    && r@[k].upload_rate_bps == points@[k].upload_rate_bps
                    && r@[k].download_rate_bps == points@[k].download_rate_bps,
        decreases points.len() - i,
    {
        r.push(TrafficHistoryPointResponse::from_point(points[i]));
        i = i + 1;
    }
    proof {
        assert(r@ =~= history_response_of(points@));
    }
    r
}

fn log_response(latest: &Option<crate::observability::ObservationLogSummary>) -> (r: Vec<
    ObservationLogSummaryResponse,
>)
    ensures
        log_matches(r@, latest.deep_view()),
        log_view(r@) == log_response_of(latest.deep_view()),
{
    let mut r: Vec<ObservationLogSummaryResponse> = Vec::new();
    if let Some(summary) = latest {
        r.push(
            ObservationLogSummaryResponse {
                category: map_log_category(summary.category),
                level: map_log_level(summary.level),
                occurrences: 1,
            },
        );
    }
    proof {
        assert(log_view(r@) =~= log_response_of(latest.deep_view()));
    }
    r
}

impl RuntimeObservationResponse {
    /// The response for an observation snapshot: every safe field carried
    /// over, labels in their wire names, the log reduced to its summary.
    pub fn from_snapshot(snapshot: &RuntimeObservationSnapshot) -> (r: Self)
        ensures
            r@ == response_of_snapshot(snapshot@),
    {
        proof {
            lemma_points_view(&snapshot.traffic_history);
        }
        RuntimeObservationResponse {
            source: map_source(snapshot.source),
            revision: snapshot.revision,
            observed_at_ms: snapshot.observed_at_ms,
            traffic_history: history_response(&snapshot.traffic_history),
            capture_mode: map_capture_mode(snapshot.capture_mode),
            sidecar_lifecycle: map_sidecar_lifecycle(snapshot.sidecar_lifecycle),
            applied_subscription_id: snapshot.applied_subscription_id.exact_clone(),
            applied_configuration_generation: snapshot.applied_configuration_generation,
            subscription_switch: snapshot.subscription_switch.exact_clone(),
            managed_proxy_available: snapshot.managed_proxy_available,
            core_memory_bytes: snapshot.core_memory_bytes,
            upload_rate_bps: snapshot.traffic.upload_bytes_per_second,
            download_rate_bps: snapshot.traffic.download_bytes_per_second,
            upload_total_bytes: snapshot.traffic.upload_total_bytes,
            download_total_bytes: snapshot.traffic.download_total_bytes,
            connection_count: snapshot.connections.active,
            log_summary: log_response(&snapshot.latest_log),
        }
    }

    /// The response for a published delta: the same fixed, safe fields as
    /// for a snapshot.
    pub fn from_delta(delta: &RuntimeObservationDelta) -> (r: Self)
        ensures
            r@ == response_of_delta(delta@),
    {
        proof {
            lemma_points_view(&delta.traffic_history);
        }
        RuntimeObservationResponse {
            source: map_source(delta.source),
            revision: delta.revision,
            observed_at_ms: delta.observed_at_ms,
            traffic_history: history_response(&delta.traffic_history),
            capture_mode: map_capture_mode(delta.capture_mode),
            sidecar_lifecycle: map_sidecar_lifecycle(delta.sidecar_lifecycle),
            applied_subscription_id: delta.applied_subscription_id.exact_clone(),
            applied_configuration_generation: delta.applied_configuration_generation,
            subscription_switch: delta.subscription_switch.exact_clone(),
            managed_proxy_available: delta.managed_proxy_available,
            core_memory_bytes: delta.core_memory_bytes,
            upload_rate_bps: delta.traffic.upload_bytes_per_second,
            download_rate_bps: delta.traffic.download_bytes_per_second,
            upload_total_bytes: delta.traffic.upload_total_bytes,
            download_total_bytes: delta.traffic.download_total_bytes,
            connection_count: delta.connections.active,
            log_summary: log_response(&delta.latest_log),
        }
    }
}

} // verus!
