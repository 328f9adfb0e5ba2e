//! The closed, in-memory runtime observation read side.
//!
//! It only holds summaries of the current process. Every change goes through
//! one update step: the observed time is refreshed, the change is applied, the
//! traffic history is cut to its window and capacity, the revision advances by
//! one, and every subscriber's slot receives the new delta (a subscriber keeps
//! only the latest one). Raw log details never enter the state.
use vstd::prelude::*;

use crate::domain::{ExactClone, ExactEq};
use crate::text::{
    ascii_lowercase, chars_of, contains_sub, has_sub, lower_seq, trim_bounds, trim_seq,
};

verus! {

/// Length of the traffic history window.
pub const TRAFFIC_HISTORY_WINDOW_MS: u64 = 600_000;

/// Largest number of points the traffic history holds.
pub const TRAFFIC_HISTORY_CAPACITY: usize = 600;

/// Where the current observation comes from; mock-only until the managed bridge reports.
#[derive(Clone, Copy, Debug, PartialEq, Eq, Hash, Structural)]
pub enum ObservationSource {
    MockOnly,
    ManagedSidecar,
}

impl DeepView for ObservationSource {
    type V = ObservationSource;

    open spec fn deep_view(&self) -> ObservationSource {
        *self
    }
}

impl ExactClone for ObservationSource {
    fn exact_clone(&self) -> (r: Self) {
        *self
    }
}

impl ExactEq for ObservationSource {
    fn same(&self, other: &Self) -> (r: bool) {
        *self == *other
    }
}

/// The capture state as far as the observation model knows it.
#[derive(Clone, Copy, Debug, PartialEq, Eq, Hash, Structural)]
pub enum ObservedCaptureMode {
    NotObserved,
    Off,
    SystemProxy,
    RecoveryRequired,
}

impl DeepView for ObservedCaptureMode {
    type V = ObservedCaptureMode;

    open spec fn deep_view(&self) -> ObservedCaptureMode {
        *self
    }
}

impl ExactClone for ObservedCaptureMode {
    fn exact_clone(&self) -> (r: Self) {
        *self
    }
}

impl ExactEq for ObservedCaptureMode {
    fn same(&self, other: &Self) -> (r: bool) {
        *self == *other
    }
}

/// The managed sidecar lifecycle as far as the observation model knows it.
#[derive(Clone, Copy, Debug, PartialEq, Eq, Hash, Structural)]
pub enum ObservedSidecarLifecycle {
    NotObserved,
    Stopped,
    Ready,
    RecoveryRequired,
}

impl DeepView for ObservedSidecarLifecycle {
    type V = ObservedSidecarLifecycle;

    open spec fn deep_view(&self) -> ObservedSidecarLifecycle {
        *self
    }
}

impl ExactClone for ObservedSidecarLifecycle {
    fn exact_clone(&self) -> (r: Self) {
        *self
    }
}

impl ExactEq for ObservedSidecarLifecycle {
    fn same(&self, other: &Self) -> (r: bool) {
        *self == *other
    }
}

/// Rates and totals in bytes; no destinations or contents.
#[derive(Clone, Copy, Debug, Default, PartialEq, Eq, Hash, Structural)]
pub struct TrafficObservation {
    pub upload_bytes_per_second: u64,
    pub download_bytes_per_second: u64,
    pub upload_total_bytes: u64,
    pub download_total_bytes: u64,
}

impl DeepView for TrafficObservation {
    type V = TrafficObservation;

    open spec fn deep_view(&self) -> TrafficObservation {
        *self
    }
}

impl ExactClone for TrafficObservation {
    fn exact_clone(&self) -> (r: Self) {
        *self
    }
}

impl ExactEq for TrafficObservation {
    fn same(&self, other: &Self) -> (r: bool) {
        *self == *other
    }
}

/// One successful sample: its publication time and aggregate rates.
#[derive(Clone, Copy, Debug, Default, PartialEq, Eq, Hash, Structural)]
pub struct TrafficHistoryPoint {
    pub sampled_at_ms: u64,
    pub upload_rate_bps: u64,
    pub download_rate_bps: u64,
}

impl DeepView for TrafficHistoryPoint {
    type V = TrafficHistoryPoint;

    open spec fn deep_view(&self) -> TrafficHistoryPoint {
        *self
    }
}

impl ExactClone for TrafficHistoryPoint {
    fn exact_clone(&self) -> (r: Self) {
        *self
    }
}

impl ExactEq for TrafficHistoryPoint {
    fn same(&self, other: &Self) -> (r: bool) {
        *self == *other
    }
}

/// Aggregate number of active connections.
#[derive(Clone, Copy, Debug, Default, PartialEq, Eq, Hash, Structural)]
pub struct ConnectionObservation {
    pub active: u32,
}

impl DeepView for ConnectionObservation {
    type V = ConnectionObservation;

    open spec fn deep_view(&self) -> ConnectionObservation {
        *self
    }
}

impl ExactClone for ConnectionObservation {
    fn exact_clone(&self) -> (r: Self) {
        *self
    }
}

impl ExactEq for ConnectionObservation {
    fn same(&self, other: &Self) -> (r: bool) {
        *self == *other
    }
}

/// Severity of a sanitized log summary.
#[derive(Clone, Copy, Debug, PartialEq, Eq, Hash, Structural)]
pub enum ObservationLogLevel {
    Info,
    Warning,
    Error,
}

impl DeepView for ObservationLogLevel {
    type V = ObservationLogLevel;

    open spec fn deep_view(&self) -> ObservationLogLevel {
        *self
    }
}

impl ExactClone for ObservationLogLevel {
    fn exact_clone(&self) -> (r: Self) {
        *self
    }
}

impl ExactEq for ObservationLogLevel {
    fn same(&self, other: &Self) -> (r: bool) {
        *self == *other
    }
}

/// The closed set of categories a log summary can have.
#[derive(Clone, Copy, Debug, PartialEq, Eq, Hash, Structural)]
pub enum ObservationLogCategory {
    Runtime,
    Connectivity,
    Recovery,
}

impl DeepView for ObservationLogCategory {
    type V = ObservationLogCategory;

    open spec fn deep_view(&self) -> ObservationLogCategory {
        *self
    }
}

impl ExactClone for ObservationLogCategory {
    fn exact_clone(&self) -> (r: Self) {
        *self
    }
}

impl ExactEq for ObservationLogCategory {
    fn same(&self, other: &Self) -> (r: bool) {
        *self == *other
    }
}

/// The fixed stage at which the managed runtime failed.
#[derive(Clone, Copy, Debug, PartialEq, Eq, Hash, Structural)]
pub enum ManagedRuntimeFailure {
    Configuration,
    Start,
    Stop,
    Observation,
    Worker,
}

impl DeepView for ManagedRuntimeFailure {
    type V = ManagedRuntimeFailure;

    open spec fn deep_view(&self) -> ManagedRuntimeFailure {
        *self
    }
}

impl ExactClone for ManagedRuntimeFailure {
    fn exact_clone(&self) -> (r: Self) {
        *self
    }
}

impl ExactEq for ManagedRuntimeFailure {
    fn same(&self, other: &Self) -> (r: bool) {
        *self == *other
    }
}

/// Phase of a subscription switch operation.
#[derive(Clone, Copy, Debug, PartialEq, Eq, Hash, Structural)]
pub enum SubscriptionSwitchStatus {
    Queued,
    Checking,
    Prepared,
    Persisted,
    Applying,
    Ready,
    Cancelled,
    Failed,
}

impl DeepView for SubscriptionSwitchStatus {
    type V = SubscriptionSwitchStatus;

    open spec fn deep_view(&self) -> SubscriptionSwitchStatus {
        *self
    }
}

impl ExactClone for SubscriptionSwitchStatus {
    fn exact_clone(&self) -> (r: Self) {
        *self
    }
}

impl ExactEq for SubscriptionSwitchStatus {
    fn same(&self, other: &Self) -> (r: bool) {
        *self == *other
    }
}

/// Why a subscription switch failed.
#[derive(Clone, Copy, Debug, PartialEq, Eq, Hash, Structural)]
pub enum SubscriptionSwitchErrorCode {
    ConfigurationFailed,
    SaveFailed,
    StopFailed,
    StartFailed,
    RecoveryRequired,
    OperationTimedOut,
    Cancelled,
    Busy,
    StateUnavailable,
}

impl DeepView for SubscriptionSwitchErrorCode {
    type V = SubscriptionSwitchErrorCode;

    open spec fn deep_view(&self) -> SubscriptionSwitchErrorCode {
        *self
    }
}

impl ExactClone for SubscriptionSwitchErrorCode {
    fn exact_clone(&self) -> (r: Self) {
        *self
    }
}

impl ExactEq for SubscriptionSwitchErrorCode {
    fn same(&self, other: &Self) -> (r: bool) {
        *self == *other
    }
}

/// A log entry reduced to category, level and an allow-listed message.
#[derive(Clone, Debug, PartialEq, Eq)]
pub struct ObservationLogSummary {
    pub level: ObservationLogLevel,
    pub category: ObservationLogCategory,
    pub message: String,
}

/// Mathematical view of [`ObservationLogSummary`].
pub ghost struct ObservationLogSummaryView {
    pub level: ObservationLogLevel,
    pub category: ObservationLogCategory,
    pub message: Seq<char>,
}

impl DeepView for ObservationLogSummary {
    type V = ObservationLogSummaryView;

    open spec fn deep_view(&self) -> ObservationLogSummaryView {
        ObservationLogSummaryView {
            level: self.level.deep_view(),
            category: self.category.deep_view(),
            message: self.message.deep_view(),
        }
    }
}

impl View for ObservationLogSummary {
    type V = ObservationLogSummaryView;

    open spec fn view(&self) -> ObservationLogSummaryView {
        self.deep_view()
    }
}

impl ExactClone for ObservationLogSummary {
    fn exact_clone(&self) -> (r: Self) {
        let level = self.level.exact_clone();
        let category = self.category.exact_clone();
        let message = self.message.exact_clone();
        ObservationLogSummary { level, category, message }
    }
}

impl ExactEq for ObservationLogSummary {
    fn same(&self, other: &Self) -> (r: bool) {
        self.level.same(&other.level)
            && self.category.same(&other.category)
            && self.message.same(&other.message)
    }
}

/// The latest subscription switch operation and its phase.
#[derive(Clone, Debug, PartialEq, Eq)]
pub struct SubscriptionSwitch {
    pub operation_id: String,
    pub status: SubscriptionSwitchStatus,
    pub error_code: Option<SubscriptionSwitchErrorCode>,
}

/// Mathematical view of [`SubscriptionSwitch`].
pub ghost struct SubscriptionSwitchView {
    pub operation_id: Seq<char>,
    pub status: SubscriptionSwitchStatus,
    pub error_code: Option<SubscriptionSwitchErrorCode>,
}

impl DeepView for SubscriptionSwitch {
    type V = SubscriptionSwitchView;

    open spec fn deep_view(&self) -> SubscriptionSwitchView {
        SubscriptionSwitchView {
            operation_id: self.operation_id.deep_view(),
            status: self.status.deep_view(),
            error_code: self.error_code.deep_view(),
        }
    }
}

impl View for SubscriptionSwitch {
    type V = SubscriptionSwitchView;

    open spec fn view(&self) -> SubscriptionSwitchView {
        self.deep_view()
    }
}

impl ExactClone for SubscriptionSwitch {
    fn exact_clone(&self) -> (r: Self) {
        let operation_id = self.operation_id.exact_clone();
        let status = self.status.exact_clone();
        let error_code = self.error_code.exact_clone();
        SubscriptionSwitch { operation_id, status, error_code }
    }
}

impl ExactEq for SubscriptionSwitch {
    fn same(&self, other: &Self) -> (r: bool) {
        self.operation_id.same(&other.operation_id)
            && self.status.same(&other.status)
            && self.error_code.same(&other.error_code)
    }
}

/// The complete in-memory observation read side.
#[derive(Clone, Debug, PartialEq, Eq)]
pub struct RuntimeObservationSnapshot {
    pub revision: u64,
    pub observed_at_ms: u64,
    pub traffic_history: Vec<TrafficHistoryPoint>,
    pub source: ObservationSource,
    pub capture_mode: ObservedCaptureMode,
    pub sidecar_lifecycle: ObservedSidecarLifecycle,
    pub traffic: TrafficObservation,
    pub connections: ConnectionObservation,
    pub latest_log: Option<ObservationLogSummary>,
    pub applied_subscription_id: Option<String>,
    pub applied_configuration_generation: Option<u64>,
    pub subscription_switch: Option<SubscriptionSwitch>,
    pub managed_proxy_available: bool,
    pub core_memory_bytes: Option<u64>,
}

/// Mathematical view of [`RuntimeObservationSnapshot`].
pub ghost struct RuntimeObservationSnapshotView {
    pub revision: u64,
    pub observed_at_ms: u64,
    pub traffic_history: Seq<TrafficHistoryPoint>,
    pub source: ObservationSource,
    pub capture_mode: ObservedCaptureMode,
    pub sidecar_lifecycle: ObservedSidecarLifecycle,
    pub traffic: TrafficObservation,
    pub connections: ConnectionObservation,
    pub latest_log: Option<ObservationLogSummaryView>,
    pub applied_subscription_id: Option<Seq<char>>,
    pub applied_configuration_generation: Option<u64>,
    pub subscription_switch: Option<SubscriptionSwitchView>,
    pub managed_proxy_available: bool,
    pub core_memory_bytes: Option<u64>,
}

impl DeepView for RuntimeObservationSnapshot {
    type V = RuntimeObservationSnapshotView;

    open spec fn deep_view(&self) -> RuntimeObservationSnapshotView {
        RuntimeObservationSnapshotView {
            revision: self.revision.deep_view(),
            observed_at_ms: self.observed_at_ms.deep_view(),
            traffic_history: self.traffic_history.deep_view(),
            source: self.source.deep_view(),
            capture_mode: self.capture_mode.deep_view(),
            sidecar_lifecycle: self.sidecar_lifecycle.deep_view(),
            traffic: self.traffic.deep_view(),
            connections: self.connections.deep_view(),
            latest_log: self.latest_log.deep_view(),
            applied_subscription_id: self.applied_subscription_id.deep_view(),
            applied_configuration_generation: self.applied_configuration_generation.deep_view(),
            subscription_switch: self.subscription_switch.deep_view(),
            managed_proxy_available: self.managed_proxy_available.deep_view(),
            core_memory_bytes: self.core_memory_bytes.deep_view(),
        }
    }
}

impl View for RuntimeObservationSnapshot {
    type V = RuntimeObservationSnapshotView;

    open spec fn view(&self) -> RuntimeObservationSnapshotView {
        self.deep_view()
    }
}

impl ExactClone for RuntimeObservationSnapshot {
    fn exact_clone(&self) -> (r: Self) {
        let revision = self.revision.exact_clone();
        let observed_at_ms = self.observed_at_ms.exact_clone();
        let traffic_history = self.traffic_history.exact_clone();
        let source = self.source.exact_clone();
        let capture_mode = self.capture_mode.exact_clone();
        let sidecar_lifecycle = self.sidecar_lifecycle.exact_clone();
        let traffic = self.traffic.exact_clone();
        let connections = self.connections.exact_clone();
        let latest_log = self.latest_log.exact_clone();
        let applied_subscription_id = self.applied_subscription_id.exact_clone();
        let applied_configuration_generation = self.applied_configuration_generation.exact_clone();
        let subscription_switch = self.subscription_switch.exact_clone();
        let managed_proxy_available = self.managed_proxy_available.exact_clone();
        let core_memory_bytes = self.core_memory_bytes.exact_clone();
        RuntimeObservationSnapshot { revision, observed_at_ms, traffic_history, source, capture_mode, sidecar_lifecycle, traffic, connections, latest_log, applied_subscription_id, applied_configuration_generation, subscription_switch, managed_proxy_available, core_memory_bytes }
    }
}

impl ExactEq for RuntimeObservationSnapshot {
    fn same(&self, other: &Self) -> (r: bool) {
        self.revision.same(&other.revision)
            && self.observed_at_ms.same(&other.observed_at_ms)
            && self.traffic_history.same(&other.traffic_history)
            && self.source.same(&other.source)
            && self.capture_mode.same(&other.capture_mode)
            && self.sidecar_lifecycle.same(&other.sidecar_lifecycle)
            && self.traffic.same(&other.traffic)
            && self.connections.same(&other.connections)
            && self.latest_log.same(&other.latest_log)
            && self.applied_subscription_id.same(&other.applied_subscription_id)
            && self.applied_configuration_generation.same(&other.applied_configuration_generation)
            && self.subscription_switch.same(&other.subscription_switch)
            && self.managed_proxy_available.same(&other.managed_proxy_available)
            && self.core_memory_bytes.same(&other.core_memory_bytes)
    }
}

/// The latest change, carrying the whole safe read side.
#[derive(Clone, Debug, PartialEq, Eq)]
pub struct RuntimeObservationDelta {
    pub revision: u64,
    pub observed_at_ms: u64,
    pub traffic_history: Vec<TrafficHistoryPoint>,
    pub source: ObservationSource,
    pub capture_mode: ObservedCaptureMode,
    pub sidecar_lifecycle: ObservedSidecarLifecycle,
    pub traffic: TrafficObservation,
    pub connections: ConnectionObservation,
    pub latest_log: Option<ObservationLogSummary>,
    pub applied_subscription_id: Option<String>,
    pub applied_configuration_generation: Option<u64>,
    pub subscription_switch: Option<SubscriptionSwitch>,
    pub managed_proxy_available: bool,
    pub core_memory_bytes: Option<u64>,
}

/// Mathematical view of [`RuntimeObservationDelta`].
pub ghost struct RuntimeObservationDeltaView {
    pub revision: u64,
    pub observed_at_ms: u64,
    pub traffic_history: Seq<TrafficHistoryPoint>,
    pub source: ObservationSource,
    pub capture_mode: ObservedCaptureMode,
    pub sidecar_lifecycle: ObservedSidecarLifecycle,
    pub traffic: TrafficObservation,
    pub connections: ConnectionObservation,
    pub latest_log: Option<ObservationLogSummaryView>,
    pub applied_subscription_id: Option<Seq<char>>,
    pub applied_configuration_generation: Option<u64>,
    pub subscription_switch: Option<SubscriptionSwitchView>,
    pub managed_proxy_available: bool,
    pub core_memory_bytes: Option<u64>,
}

impl DeepView for RuntimeObservationDelta {
    type V = RuntimeObservationDeltaView;

    open spec fn deep_view(&self) -> RuntimeObservationDeltaView {
        RuntimeObservationDeltaView {
            revision: self.revision.deep_view(),
            observed_at_ms: self.observed_at_ms.deep_view(),
            traffic_history: self.traffic_history.deep_view(),
            source: self.source.deep_view(),
            capture_mode: self.capture_mode.deep_view(),
            sidecar_lifecycle: self.sidecar_lifecycle.deep_view(),
            traffic: self.traffic.deep_view(),
            connections: self.connections.deep_view(),
            latest_log: self.latest_log.deep_view(),
            applied_subscription_id: self.applied_subscription_id.deep_view(),
            applied_configuration_generation: self.applied_configuration_generation.deep_view(),
            subscription_switch: self.subscription_switch.deep_view(),
            managed_proxy_available: self.managed_proxy_available.deep_view(),
            core_memory_bytes: self.core_memory_bytes.deep_view(),
        }
    }
}

impl View for RuntimeObservationDelta {
    type V = RuntimeObservationDeltaView;

    open spec fn view(&self) -> RuntimeObservationDeltaView {
        self.deep_view()
    }
}

impl ExactClone for RuntimeObservationDelta {
    fn exact_clone(&self) -> (r: Self) {
        let revision = self.revision.exact_clone();
        let observed_at_ms = self.observed_at_ms.exact_clone();
        let traffic_history = self.traffic_history.exact_clone();
        let source = self.source.exact_clone();
        let capture_mode = self.capture_mode.exact_clone();
        let sidecar_lifecycle = self.sidecar_lifecycle.exact_clone();
        let traffic = self.traffic.exact_clone();
        let connections = self.connections.exact_clone();
        let latest_log = self.latest_log.exact_clone();
        let applied_subscription_id = self.applied_subscription_id.exact_clone();
        let applied_configuration_generation = self.applied_configuration_generation.exact_clone();
        let subscription_switch = self.subscription_switch.exact_clone();
        let managed_proxy_available = self.managed_proxy_available.exact_clone();
        let core_memory_bytes = self.core_memory_bytes.exact_clone();
        RuntimeObservationDelta { revision, observed_at_ms, traffic_history, source, capture_mode, sidecar_lifecycle, traffic, connections, latest_log, applied_subscription_id, applied_configuration_generation, subscription_switch, managed_proxy_available, core_memory_bytes }
    }
}

impl ExactEq for RuntimeObservationDelta {
    fn same(&self, other: &Self) -> (r: bool) {
        self.revision.same(&other.revision)
            && self.observed_at_ms.same(&other.observed_at_ms)
            && self.traffic_history.same(&other.traffic_history)
            && self.source.same(&other.source)
            && self.capture_mode.same(&other.capture_mode)
            && self.sidecar_lifecycle.same(&other.sidecar_lifecycle)
            && self.traffic.same(&other.traffic)
            && self.connections.same(&other.connections)
            && self.latest_log.same(&other.latest_log)
            && self.applied_subscription_id.same(&other.applied_subscription_id)
            && self.applied_configuration_generation.same(&other.applied_configuration_generation)
            && self.subscription_switch.same(&other.subscription_switch)
            && self.managed_proxy_available.same(&other.managed_proxy_available)
            && self.core_memory_bytes.same(&other.core_memory_bytes)
    }
}

/// Level of a log summary reported by the sidecar bridge.
#[derive(Clone, Copy, Debug, PartialEq, Eq, Hash, Structural)]
pub enum ClashLogLevel {
    Info,
    Warning,
    Error,
}

impl DeepView for ClashLogLevel {
    type V = ClashLogLevel;

    open spec fn deep_view(&self) -> ClashLogLevel {
        *self
    }
}

impl ExactClone for ClashLogLevel {
    fn exact_clone(&self) -> (r: Self) {
        *self
    }
}

impl ExactEq for ClashLogLevel {
    fn same(&self, other: &Self) -> (r: bool) {
        *self == *other
    }
}

/// Category of a log summary reported by the sidecar bridge.
#[derive(Clone, Copy, Debug, PartialEq, Eq, Hash, Structural)]
pub enum ClashLogCategory {
    Runtime,
    Recovery,
}

impl DeepView for ClashLogCategory {
    type V = ClashLogCategory;

    open spec fn deep_view(&self) -> ClashLogCategory {
        *self
    }
}

impl ExactClone for ClashLogCategory {
    fn exact_clone(&self) -> (r: Self) {
        *self
    }
}

impl ExactEq for ClashLogCategory {
    fn same(&self, other: &Self) -> (r: bool) {
        *self == *other
    }
}

/// Connection totals reported by the sidecar bridge.
#[derive(Clone, Copy, Debug, Default, PartialEq, Eq, Hash, Structural)]
pub struct ClashConnectionSnapshot {
    pub upload_total_bytes: u64,
    pub download_total_bytes: u64,
    pub connection_count: u32,
}

impl DeepView for ClashConnectionSnapshot {
    type V = ClashConnectionSnapshot;

    open spec fn deep_view(&self) -> ClashConnectionSnapshot {
        *self
    }
}

impl ExactClone for ClashConnectionSnapshot {
    fn exact_clone(&self) -> (r: Self) {
        *self
    }
}

impl ExactEq for ClashConnectionSnapshot {
    fn same(&self, other: &Self) -> (r: bool) {
        *self == *other
    }
}

/// Traffic rates and totals reported by the sidecar bridge.
#[derive(Clone, Copy, Debug, Default, PartialEq, Eq, Hash, Structural)]
pub struct ClashTrafficObservation {
    pub upload_bytes_per_second: u64,
    pub download_bytes_per_second: u64,
    pub upload_total_bytes: u64,
    pub download_total_bytes: u64,
}

impl DeepView for ClashTrafficObservation {
    type V = ClashTrafficObservation;

    open spec fn deep_view(&self) -> ClashTrafficObservation {
        *self
    }
}

impl ExactClone for ClashTrafficObservation {
    fn exact_clone(&self) -> (r: Self) {
        *self
    }
}

impl ExactEq for ClashTrafficObservation {
    fn same(&self, other: &Self) -> (r: bool) {
        *self == *other
    }
}

/// A sanitized log summary reported by the sidecar bridge.
#[derive(Clone, Debug, PartialEq, Eq)]
pub struct ClashLogSummary {
    pub level: ClashLogLevel,
    pub category: ClashLogCategory,
    pub message: String,
}

/// Mathematical view of [`ClashLogSummary`].
pub ghost struct ClashLogSummaryView {
    pub level: ClashLogLevel,
    pub category: ClashLogCategory,
    pub message: Seq<char>,
}

impl DeepView for ClashLogSummary {
    type V = ClashLogSummaryView;

    open spec fn deep_view(&self) -> ClashLogSummaryView {
        ClashLogSummaryView {
            level: self.level.deep_view(),
            category: self.category.deep_view(),
            message: self.message.deep_view(),
        }
    }
}

impl View for ClashLogSummary {
    type V = ClashLogSummaryView;

    open spec fn view(&self) -> ClashLogSummaryView {
        self.deep_view()
    }
}

impl ExactClone for ClashLogSummary {
    fn exact_clone(&self) -> (r: Self) {
        let level = self.level.exact_clone();
        let category = self.category.exact_clone();
        let message = self.message.exact_clone();
        ClashLogSummary { level, category, message }
    }
}

impl ExactEq for ClashLogSummary {
    fn same(&self, other: &Self) -> (r: bool) {
        self.level.same(&other.level)
            && self.category.same(&other.category)
            && self.message.same(&other.message)
    }
}

/// One sample reported by the sidecar bridge.
#[derive(Clone, Debug, PartialEq, Eq)]
pub struct ClashRuntimeObservation {
    pub connections: ClashConnectionSnapshot,
    pub traffic: Option<ClashTrafficObservation>,
    pub latest_log: Option<ClashLogSummary>,
}

/// Mathematical view of [`ClashRuntimeObservation`].
pub ghost struct ClashRuntimeObservationView {
    pub connections: ClashConnectionSnapshot,
    pub traffic: Option<ClashTrafficObservation>,
    pub latest_log: Option<ClashLogSummaryView>,
}

impl DeepView for ClashRuntimeObservation {
    type V = ClashRuntimeObservationView;

    open spec fn deep_view(&self) -> ClashRuntimeObservationView {
        ClashRuntimeObservationView {
            connections: self.connections.deep_view(),
            traffic: self.traffic.deep_view(),
            latest_log: self.latest_log.deep_view(),
        }
    }
}

impl View for ClashRuntimeObservation {
    type V = ClashRuntimeObservationView;

    open spec fn view(&self) -> ClashRuntimeObservationView {
        self.deep_view()
    }
}

impl ExactClone for ClashRuntimeObservation {
    fn exact_clone(&self) -> (r: Self) {
        let connections = self.connections.exact_clone();
        let traffic = self.traffic.exact_clone();
        let latest_log = self.latest_log.exact_clone();
        ClashRuntimeObservation { connections, traffic, latest_log }
    }
}

impl ExactEq for ClashRuntimeObservation {
    fn same(&self, other: &Self) -> (r: bool) {
        self.connections.same(&other.connections)
            && self.traffic.same(&other.traffic)
            && self.latest_log.same(&other.latest_log)
    }
}

/// One subscriber and the latest delta it has not taken yet.
#[derive(Clone, Debug, PartialEq, Eq)]
pub struct SubscriberSlot {
    pub id: u64,
    pub latest: Option<RuntimeObservationDelta>,
}

/// Mathematical view of [`SubscriberSlot`].
pub ghost struct SubscriberSlotView {
    pub id: u64,
    pub latest: Option<RuntimeObservationDeltaView>,
}

impl DeepView for SubscriberSlot {
    type V = SubscriberSlotView;

    open spec fn deep_view(&self) -> SubscriberSlotView {
        SubscriberSlotView {
            id: self.id.deep_view(),
            latest: self.latest.deep_view(),
        }
    }
}

impl View for SubscriberSlot {
    type V = SubscriberSlotView;

    open spec fn view(&self) -> SubscriberSlotView {
        self.deep_view()
    }
}

impl ExactClone for SubscriberSlot {
    fn exact_clone(&self) -> (r: Self) {
        let id = self.id.exact_clone();
        let latest = self.latest.exact_clone();
        SubscriberSlot { id, latest }
    }
}

impl ExactEq for SubscriberSlot {
    fn same(&self, other: &Self) -> (r: bool) {
        self.id.same(&other.id)
            && self.latest.same(&other.latest)
    }
}


// ---------------------------------------------------------------------------
// The update step
// ---------------------------------------------------------------------------

/// Earliest sample time the history keeps at time `now`.
pub open spec fn window_start(now: u64) -> int {
    if now >= TRAFFIC_HISTORY_WINDOW_MS {
        now - TRAFFIC_HISTORY_WINDOW_MS
    } else {
        0
    }
}

/// The points sampled at or after `oldest`, in order.
pub open spec fn recent_points(h: Seq<TrafficHistoryPoint>, oldest: int) -> Seq<TrafficHistoryPoint>
    decreases h.len(),
{
    if h.len() == 0 {
        Seq::empty()
    } else {
        let rest = recent_points(h.drop_last(), oldest);
        if h.last().sampled_at_ms >= oldest {
            rest.push(h.last())
        } else {
            rest
        }
    }
}

/// The history at time `now`: points inside the window, at most the newest capacity of them.
pub open spec fn pruned(h: Seq<TrafficHistoryPoint>, now: u64) -> Seq<TrafficHistoryPoint> {
    let k = recent_points(h, window_start(now));
    if k.len() > TRAFFIC_HISTORY_CAPACITY {
        k.subrange(k.len() - TRAFFIC_HISTORY_CAPACITY, k.len() as int)
    } else {
        k
    }
}

pub open spec fn next_revision(r: u64) -> u64 {
    if r == u64::MAX {
        r
    } else {
        (r + 1) as u64
    }
}

pub open spec fn sat_add(a: u64, b: u64) -> u64 {
    if a + b > u64::MAX {
        u64::MAX
    } else {
        (a + b) as u64
    }
}

pub open spec fn at_time(s: RuntimeObservationSnapshotView, now: u64) -> RuntimeObservationSnapshotView {
    RuntimeObservationSnapshotView { observed_at_ms: now, ..s }
}

/// Closes an update: the history is cut to its window and capacity and the revision advances.
pub open spec fn finished(s: RuntimeObservationSnapshotView) -> RuntimeObservationSnapshotView {
    RuntimeObservationSnapshotView {
        traffic_history: pruned(s.traffic_history, s.observed_at_ms),
        revision: next_revision(s.revision),
        ..s
    }
}

/// A snapshot read: the time is refreshed and the history cut, with no new revision.
pub open spec fn read_at(s: RuntimeObservationSnapshotView, now: u64) -> RuntimeObservationSnapshotView {
    RuntimeObservationSnapshotView {
        observed_at_ms: now,
        traffic_history: pruned(s.traffic_history, now),
        ..s
    }
}

/// The delta that carries a snapshot.
pub open spec fn delta_of(s: RuntimeObservationSnapshotView) -> RuntimeObservationDeltaView {
    RuntimeObservationDeltaView {
        revision: s.revision,
        observed_at_ms: s.observed_at_ms,
        traffic_history: s.traffic_history,
        source: s.source,
        capture_mode: s.capture_mode,
        sidecar_lifecycle: s.sidecar_lifecycle,
        traffic: s.traffic,
        connections: s.connections,
        latest_log: s.latest_log,
        applied_subscription_id: s.applied_subscription_id,
        applied_configuration_generation: s.applied_configuration_generation,
        subscription_switch: s.subscription_switch,
        managed_proxy_available: s.managed_proxy_available,
        core_memory_bytes: s.core_memory_bytes,
    }
}

pub open spec fn initial_snapshot() -> RuntimeObservationSnapshotView {
    RuntimeObservationSnapshotView {
        revision: 0,
        observed_at_ms: 0,
        traffic_history: Seq::empty(),
        source: ObservationSource::MockOnly,
        capture_mode: ObservedCaptureMode::NotObserved,
        sidecar_lifecycle: ObservedSidecarLifecycle::NotObserved,
        traffic: TrafficObservation {
            upload_bytes_per_second: 0,
            download_bytes_per_second: 0,
            upload_total_bytes: 0,
            download_total_bytes: 0,
        },
        connections: ConnectionObservation { active: 0 },
        latest_log: None,
        applied_subscription_id: None,
        applied_configuration_generation: None,
        subscription_switch: None,
        managed_proxy_available: false,
        core_memory_bytes: None,
    }
}

pub open spec fn zero_traffic() -> TrafficObservation {
    TrafficObservation {
        upload_bytes_per_second: 0,
        download_bytes_per_second: 0,
        upload_total_bytes: 0,
        download_total_bytes: 0,
    }
}

// ---------------------------------------------------------------------------
// Changes
// ---------------------------------------------------------------------------

/// The fixed summary of a raw log detail.
pub open spec fn summary_text(raw: Seq<char>) -> Seq<char> {
    if sensitive_detail(raw) {
        "Sensitive runtime detail omitted"@
    } else if trim_seq(raw).len() == 0 {
        "Runtime event recorded without detail"@
    } else {
        "Runtime event recorded"@
    }
}

/// Whether a raw detail mentions, in any ASCII case, one of the sensitive markers.
pub open spec fn sensitive_detail(raw: Seq<char>) -> bool {
    let l = lower_seq(raw);
    ||| has_sub(l, "secret"@)
    ||| has_sub(l, "token"@)
    ||| has_sub(l, "password"@)
    ||| has_sub(l, "uuid"@)
    ||| has_sub(l, "private"@)
    ||| has_sub(l, "reality"@)
    ||| has_sub(l, "authorization"@)
    ||| has_sub(l, "bearer"@)
    ||| has_sub(l, "://"@)
}

pub open spec fn failure_text(f: ManagedRuntimeFailure) -> Seq<char> {
    match f {
        ManagedRuntimeFailure::Configuration => "Configuration generation failed; candidate not applied"@,
        ManagedRuntimeFailure::Start => "Core startup failed"@,
        ManagedRuntimeFailure::Stop => "Core stop incomplete"@,
        ManagedRuntimeFailure::Observation => "Runtime observation failed"@,
        ManagedRuntimeFailure::Worker => "Runtime worker response unavailable"@,
    }
}

pub open spec fn map_level(l: ClashLogLevel) -> ObservationLogLevel {
    match l {
        ClashLogLevel::Info => ObservationLogLevel::Info,
        ClashLogLevel::Warning => ObservationLogLevel::Warning,
        ClashLogLevel::Error => ObservationLogLevel::Error,
    }
}

pub open spec fn map_category(c: ClashLogCategory) -> ObservationLogCategory {
    match c {
        ClashLogCategory::Runtime => ObservationLogCategory::Runtime,
        ClashLogCategory::Recovery => ObservationLogCategory::Recovery,
    }
}

/// The history after a sample at the current time: a sample in the same
/// millisecond as the last point replaces it, any other is appended.
pub open spec fn with_point(h: Seq<TrafficHistoryPoint>, p: TrafficHistoryPoint) -> Seq<TrafficHistoryPoint> {
    if h.len() > 0 && h.last().sampled_at_ms == p.sampled_at_ms {
        h.drop_last().push(p)
    } else {
        h.push(p)
    }
}

pub open spec fn change_managed_observation(s: RuntimeObservationSnapshotView, o: ClashRuntimeObservationView) -> RuntimeObservationSnapshotView {
    let s1 = RuntimeObservationSnapshotView {
        source: ObservationSource::ManagedSidecar,
        sidecar_lifecycle: ObservedSidecarLifecycle::Ready,
        connections: ConnectionObservation { active: o.connections.connection_count },
        ..s
    };
    let s2 = match o.traffic {
        Some(t) => RuntimeObservationSnapshotView {
            traffic: TrafficObservation {
                upload_bytes_per_second: t.upload_bytes_per_second,
                download_bytes_per_second: t.download_bytes_per_second,
                upload_total_bytes: t.upload_total_bytes,
                download_total_bytes: t.download_total_bytes,
            },
            traffic_history: with_point(
                s1.traffic_history,
                TrafficHistoryPoint {
                    sampled_at_ms: s1.observed_at_ms,
                    upload_rate_bps: t.upload_bytes_per_second,
                    download_rate_bps: t.download_bytes_per_second,
                },
            ),
            ..s1
        },
        None => s1,
    };
    match o.latest_log {
        Some(l) => RuntimeObservationSnapshotView {
            latest_log: Some(ObservationLogSummaryView {
                level: map_level(l.level),
                category: map_category(l.category),
                message: l.message,
            }),
            ..s2
        },
        None => s2,
    }
}

/// Traffic, history, connections and the log of a previous child are dropped.
pub open spec fn cleared(s: RuntimeObservationSnapshotView) -> RuntimeObservationSnapshotView {
    RuntimeObservationSnapshotView {
        traffic: zero_traffic(),
        traffic_history: Seq::empty(),
        connections: ConnectionObservation { active: 0 },
        latest_log: None,
        ..s
    }
}

/// Nothing of a child that is no longer ready stays applied.
pub open spec fn detached(s: RuntimeObservationSnapshotView) -> RuntimeObservationSnapshotView {
    RuntimeObservationSnapshotView {
        applied_subscription_id: None,
        applied_configuration_generation: None,
        managed_proxy_available: false,
        core_memory_bytes: None,
        ..s
    }
}

pub open spec fn change_managed_ready(s: RuntimeObservationSnapshotView) -> RuntimeObservationSnapshotView {
    cleared(RuntimeObservationSnapshotView {
        source: ObservationSource::ManagedSidecar,
        capture_mode: ObservedCaptureMode::Off,
        sidecar_lifecycle: ObservedSidecarLifecycle::Ready,
        ..s
    })
}

pub open spec fn change_managed_stopped(s: RuntimeObservationSnapshotView) -> RuntimeObservationSnapshotView {
    detached(cleared(RuntimeObservationSnapshotView {
        source: ObservationSource::ManagedSidecar,
        capture_mode: ObservedCaptureMode::Off,
        sidecar_lifecycle: ObservedSidecarLifecycle::Stopped,
        ..s
    }))
}

pub open spec fn change_managed_recovery(s: RuntimeObservationSnapshotView) -> RuntimeObservationSnapshotView {
    detached(cleared(RuntimeObservationSnapshotView {
        source: ObservationSource::ManagedSidecar,
        sidecar_lifecycle: ObservedSidecarLifecycle::RecoveryRequired,
        ..s
    }))
}

pub open spec fn change_managed_failure(
    s: RuntimeObservationSnapshotView,
    lifecycle: Option<ObservedSidecarLifecycle>,
    failure: ManagedRuntimeFailure,
) -> RuntimeObservationSnapshotView {
    let s1 = match lifecycle {
        Some(l) => {
            let t = RuntimeObservationSnapshotView {
                source: ObservationSource::ManagedSidecar,
                capture_mode: ObservedCaptureMode::Off,
                sidecar_lifecycle: l,
                ..s
            };
            if l != ObservedSidecarLifecycle::Ready {
                detached(RuntimeObservationSnapshotView {
                    traffic: zero_traffic(),
                    traffic_history: Seq::empty(),
                    connections: ConnectionObservation { active: 0 },
                    ..t
                })
            } else {
                t
            }
        },
        None => s,
    };
    RuntimeObservationSnapshotView {
        latest_log: Some(ObservationLogSummaryView {
            level: ObservationLogLevel::Error,
            category: ObservationLogCategory::Runtime,
            message: failure_text(failure),
        }),
        ..s1
    }
}

pub open spec fn change_subscription_ready(
    s: RuntimeObservationSnapshotView,
    id: Seq<char>,
    generation: u64,
    operation_id: Option<Seq<char>>,
    managed_proxy_available: bool,
) -> RuntimeObservationSnapshotView {
    RuntimeObservationSnapshotView {
        applied_subscription_id: Some(id),
        applied_configuration_generation: Some(generation),
        subscription_switch: match operation_id {
            Some(o) => Some(
                SubscriptionSwitchView {
                    operation_id: o,
                    status: SubscriptionSwitchStatus::Ready,
                    error_code: None,
                },
            ),
            None => None,
        },
        managed_proxy_available,
        core_memory_bytes: None,
        ..change_managed_ready(s)
    }
}

/// A switch phase is taken when it starts an operation or belongs to the current one.
pub open spec fn switch_accepted(s: RuntimeObservationSnapshotView, w: SubscriptionSwitchView) -> bool {
    w.status == SubscriptionSwitchStatus::Queued || (s.subscription_switch matches Some(c)
        && c.operation_id == w.operation_id)
}

} // verus!

verus! {

/// A handle that names one subscription to observation deltas.
#[derive(Debug, PartialEq, Eq)]
pub struct RuntimeObservationSubscription {
    pub id: u64,
}

/// The in-memory observation port. The owner supplies the observed time with
/// [`InMemoryRuntimeObservations::set_observed_time`]; nothing here does I/O.
pub struct InMemoryRuntimeObservations {
    clock_ms: u64,
    snapshot: RuntimeObservationSnapshot,
    subscribers: Vec<SubscriberSlot>,
    next_subscriber_id: u64,
    sink_installed: bool,
    sink_outbox: Vec<RuntimeObservationDelta>,
}

/// Every subscriber slot after an update holds the delta of `s`.
pub open spec fn delivered(old_slots: Seq<SubscriberSlotView>, new_slots: Seq<SubscriberSlotView>, s: RuntimeObservationSnapshotView) -> bool {
    &&& new_slots.len() == old_slots.len()
    &&& forall|k: int| 0 <= k < new_slots.len() ==> (#[trigger] new_slots[k]).id == old_slots[k].id
        && new_slots[k].latest == Some(delta_of(s))
}

/// Points strictly ordered by sample time and none later than `now`.
pub open spec fn history_ordered(h: Seq<TrafficHistoryPoint>, now: u64) -> bool {
    &&& forall|a: int, b: int| 0 <= a < b < h.len() ==> h[a].sampled_at_ms < h[b].sampled_at_ms
    &&& forall|a: int| 0 <= a < h.len() ==> (#[trigger] h[a]).sampled_at_ms <= now
}

/// The history holds at most the capacity and nothing older than the window.
pub open spec fn history_bounded(h: Seq<TrafficHistoryPoint>, now: u64) -> bool {
    &&& h.len() <= TRAFFIC_HISTORY_CAPACITY
    &&& forall|a: int| 0 <= a < h.len() ==> (#[trigger] h[a]).sampled_at_ms >= window_start(now)
}

impl InMemoryRuntimeObservations {
    /// The current snapshot.
    pub closed spec fn current(&self) -> RuntimeObservationSnapshotView {
        self.snapshot@
    }

    /// The time the owner last supplied.
    pub closed spec fn clock(&self) -> u64 {
        self.clock_ms
    }

    /// The subscribers, each with its pending delta.
    pub closed spec fn slots(&self) -> Seq<SubscriberSlotView> {
        self.subscribers.deep_view()
    }

    pub closed spec fn next_id(&self) -> u64 {
        self.next_subscriber_id
    }

    /// Whether a delta sink is installed.
    pub closed spec fn has_sink(&self) -> bool {
        self.sink_installed
    }

    /// Deltas handed to the sink and not yet drained.
    pub closed spec fn outbox(&self) -> Seq<RuntimeObservationDeltaView> {
        self.sink_outbox.deep_view()
    }

    /// Subscriber identities are distinct; the history is ordered, and no
    /// observation is later than the clock.
    pub open spec fn wf(&self) -> bool {
        &&& forall|a: int, b: int| 0 <= a < b < self.slots().len() ==> self.slots()[a].id != self.slots()[b].id
        &&& history_ordered(self.current().traffic_history, self.current().observed_at_ms)
        &&& self.current().observed_at_ms <= self.clock()
    }

    /// A mock-only port with nothing observed yet.
    pub fn new_mock() -> (r: Self)
        ensures
            r.wf(),
            r.current() == initial_snapshot(),
            r.clock() == 0,
            r.slots().len() == 0,
            r.next_id() == 0,
            !r.has_sink(),
            r.outbox().len() == 0,
    {
        let r = InMemoryRuntimeObservations {
            clock_ms: 0,
            snapshot: RuntimeObservationSnapshot {
                revision: 0,
                observed_at_ms: 0,
                traffic_history: Vec::new(),
                source: ObservationSource::MockOnly,
                capture_mode: ObservedCaptureMode::NotObserved,
                sidecar_lifecycle: ObservedSidecarLifecycle::NotObserved,
                traffic: zero(),
                connections: ConnectionObservation { active: 0 },
                latest_log: None,
                applied_subscription_id: None,
                applied_configuration_generation: None,
                subscription_switch: None,
                managed_proxy_available: false,
                core_memory_bytes: None,
            },
            subscribers: Vec::new(),
            next_subscriber_id: 0,
            sink_installed: false,
            sink_outbox: Vec::new(),
        };
        proof {
            assert(r.snapshot.traffic_history.deep_view() =~= Seq::<TrafficHistoryPoint>::empty());
            assert(r.subscribers.deep_view() =~= Seq::<SubscriberSlotView>::empty());
            assert(r.sink_outbox.deep_view() =~= Seq::<RuntimeObservationDeltaView>::empty());
        }
        r
    }

    /// Supplies the time of the owner's monotonic clock.
    pub fn set_observed_time(&mut self, elapsed_ms: u64)
        requires
            old(self).wf(),
            elapsed_ms >= old(self).clock(),
        ensures
            final(self).wf(),
            final(self).clock() == elapsed_ms,
            final(self).current() == old(self).current(),
            final(self).slots() == old(self).slots(),
            final(self).next_id() == old(self).next_id(),
            final(self).has_sink() == old(self).has_sink(),
            final(self).outbox() == old(self).outbox(),
    {
        self.clock_ms = elapsed_ms;
    }

    /// Installs the one delta sink; from now on each update also goes to the outbox.
    pub fn install_delta_sink(&mut self)
        requires
            old(self).wf(),
        ensures
            final(self).wf(),
            final(self).has_sink(),
            final(self).current() == old(self).current(),
            final(self).clock() == old(self).clock(),
            final(self).slots() == old(self).slots(),
            final(self).next_id() == old(self).next_id(),
            final(self).outbox() == old(self).outbox(),
    {
        self.sink_installed = true;
    }

    /// Hands out and forgets the deltas waiting for the sink.
    pub fn drain_sink(&mut self) -> (r: Vec<RuntimeObservationDelta>)
        requires
            old(self).wf(),
        ensures
            final(self).wf(),
            r.deep_view() == old(self).outbox(),
            final(self).outbox().len() == 0,
            final(self).current() == old(self).current(),
            final(self).clock() == old(self).clock(),
            final(self).slots() == old(self).slots(),
            final(self).next_id() == old(self).next_id(),
            final(self).has_sink() == old(self).has_sink(),
    {
        let mut out: Vec<RuntimeObservationDelta> = Vec::new();
        std::mem::swap(&mut out, &mut self.sink_outbox);
        out
    }

    /// The current snapshot at the current time: the history is cut to its
    /// window; the revision and subscribers are untouched.
    pub fn snapshot(&mut self) -> (r: RuntimeObservationSnapshot)
        requires
            old(self).wf(),
        ensures
            final(self).wf(),
            final(self).current() == read_at(old(self).current(), old(self).clock()),
            r@ == final(self).current(),
            history_bounded(r@.traffic_history, r@.observed_at_ms),
            final(self).clock() == old(self).clock(),
            final(self).slots() == old(self).slots(),
            final(self).next_id() == old(self).next_id(),
            final(self).has_sink() == old(self).has_sink(),
            final(self).outbox() == old(self).outbox(),
    {
        proof {
            lemma_ordered_later(old(self).current().traffic_history, old(self).current().observed_at_ms, old(self).clock());
            lemma_pruned(old(self).current().traffic_history, old(self).clock());
        }
        self.snapshot.observed_at_ms = self.clock_ms;
        let h = prune_history(&self.snapshot.traffic_history, self.clock_ms);
        self.snapshot.traffic_history = h;
        proof {
            assert(self.snapshot@ == read_at(old(self).current(), old(self).clock()));
        }
        self.snapshot.exact_clone()
    }

    /// Registers a subscriber; it sees only deltas produced from now on.
    pub fn subscribe(&mut self) -> (r: RuntimeObservationSubscription)
        requires
            old(self).wf(),
        ensures
            final(self).wf(),
            final(self).next_id() == next_revision(old(self).next_id()),
            r.id == final(self).next_id(),
            final(self).slots() == without_id(old(self).slots(), r.id).push(
                SubscriberSlotView { id: r.id, latest: None },
            ),
            final(self).current() == old(self).current(),
            final(self).clock() == old(self).clock(),
            final(self).has_sink() == old(self).has_sink(),
            final(self).outbox() == old(self).outbox(),
    {
        let id = if self.next_subscriber_id == u64::MAX { u64::MAX } else { self.next_subscriber_id + 1 };
        proof {
            lemma_filter_excludes(old(self).slots(), id);
        }
        self.next_subscriber_id = id;
        remove_slot(&mut self.subscribers, id);
        let ghost before = self.subscribers.deep_view();
        self.subscribers.push(SubscriberSlot { id, latest: None });
        proof {
            assert(self.subscribers.deep_view() =~= before.push(SubscriberSlotView { id, latest: None }));
            assert forall|a: int, b: int| 0 <= a < b < self.slots().len() implies self.slots()[a].id != self.slots()[b].id by {
                if b == self.slots().len() - 1 {
                    assert(self.slots()[a] == before[a]);
                } else {
                    assert(self.slots()[a] == before[a]);
                    assert(self.slots()[b] == before[b]);
                }
            }
        }
        RuntimeObservationSubscription { id }
    }

    /// Takes the latest delta of a subscriber, if one arrived since the last take.
    pub fn take_latest_delta(&mut self, subscription: &RuntimeObservationSubscription) -> (r: Option<RuntimeObservationDelta>)
        requires
            old(self).wf(),
        ensures
            final(self).wf(),
            r.deep_view() == taken_delta(old(self).slots(), subscription.id),
            final(self).slots() == after_take(old(self).slots(), subscription.id),
            final(self).current() == old(self).current(),
            final(self).clock() == old(self).clock(),
            final(self).next_id() == old(self).next_id(),
            final(self).has_sink() == old(self).has_sink(),
            final(self).outbox() == old(self).outbox(),
    {
        let mut i: usize = 0;
        while i < self.subscribers.len()
            invariant
                i <= self.subscribers.len(),
                self.subscribers.deep_view() == old(self).slots(),
                self.clock_ms == old(self).clock(),
                self.snapshot@ == old(self).current(),
                self.next_subscriber_id == old(self).next_id(),
                self.sink_installed == old(self).has_sink(),
                self.sink_outbox.deep_view() == old(self).outbox(),
                old(self).wf(),
                forall|k: int| 0 <= k < i ==> old(self).slots()[k].id != subscription.id,
            decreases self.subscribers.len() - i,
        {
            if self.subscribers[i].id == subscription.id {
                proof {
                    lemma_slot_index_at(old(self).slots(), subscription.id, i as int);
                }
                let ghost before = self.subscribers.deep_view();
                let mut slot = SubscriberSlot { id: subscription.id, latest: None };
                std::mem::swap(&mut slot, &mut self.subscribers[i]);
                proof {
                    assert(self.subscribers.deep_view() =~= before.update(i as int, SubscriberSlotView { id: subscription.id, latest: None }));
                    assert forall|a: int, b: int| 0 <= a < b < self.slots().len() implies self.slots()[a].id != self.slots()[b].id by {
                        assert(self.slots()[a].id == old(self).slots()[a].id);
                        assert(self.slots()[b].id == old(self).slots()[b].id);
                    }
                }
                return slot.latest;
            }
            i = i + 1;
        }
        proof {
            lemma_slot_index_none(old(self).slots(), subscription.id);
        }
        None
    }

    /// Ends a subscription; its slot stops receiving deltas.
    pub fn unsubscribe(&mut self, subscription: RuntimeObservationSubscription)
        requires
            old(self).wf(),
        ensures
            final(self).wf(),
            final(self).slots() == without_id(old(self).slots(), subscription.id),
            final(self).current() == old(self).current(),
            final(self).clock() == old(self).clock(),
            final(self).next_id() == old(self).next_id(),
            final(self).has_sink() == old(self).has_sink(),
            final(self).outbox() == old(self).outbox(),
    {
        proof {
            lemma_filter_excludes(old(self).slots(), subscription.id);
        }
        remove_slot(&mut self.subscribers, subscription.id);
    }
}

/// Position of the subscriber `id`.
pub open spec fn slot_index(slots: Seq<SubscriberSlotView>, id: u64) -> Option<int> {
    if exists|k: int| 0 <= k < slots.len() && (#[trigger] slots[k]).id == id {
        Some(choose|k: int| 0 <= k < slots.len() && (#[trigger] slots[k]).id == id)
    } else {
        None
    }
}

proof fn lemma_slot_index_at(slots: Seq<SubscriberSlotView>, id: u64, i: int)
    requires
        0 <= i < slots.len(),
        slots[i].id == id,
        forall|a: int, b: int| 0 <= a < b < slots.len() ==> slots[a].id != slots[b].id,
    ensures
        slot_index(slots, id) == Some(i),
{
    let k = choose|k: int| 0 <= k < slots.len() && (#[trigger] slots[k]).id == id;
    if k != i {
        if k < i {
            assert(slots[k].id != slots[i].id);
        } else {
            assert(slots[i].id != slots[k].id);
        }
    }
}

proof fn lemma_slot_index_none(slots: Seq<SubscriberSlotView>, id: u64)
    requires
        forall|k: int| 0 <= k < slots.len() ==> slots[k].id != id,
    ensures
        slot_index(slots, id) is None,
{
}

/// The subscribers other than `id`.
pub open spec fn without_id(slots: Seq<SubscriberSlotView>, id: u64) -> Seq<SubscriberSlotView> {
    slots.filter(|x: SubscriberSlotView| x.id != id)
}

proof fn lemma_filter_excludes(slots: Seq<SubscriberSlotView>, id: u64)
    requires
        forall|a: int, b: int| 0 <= a < b < slots.len() ==> slots[a].id != slots[b].id,
    ensures
        forall|k: int| 0 <= k < without_id(slots, id).len() ==> (#[trigger] without_id(slots, id)[k]).id != id,
        forall|a: int, b: int| 0 <= a < b < without_id(slots, id).len() ==> without_id(slots, id)[a].id != without_id(slots, id)[b].id,
    decreases slots.len(),
{
    reveal(Seq::filter);
    if slots.len() > 0 {
        let init = slots.drop_last();
        lemma_filter_excludes(init, id);
        lemma_filter_members(init, id);
        let f = without_id(init, id);
        if slots.last().id != id {
            assert(without_id(slots, id) == f.push(slots.last()));
            assert forall|a: int| 0 <= a < f.len() implies f[a].id != slots.last().id by {
                let j = choose|j: int| 0 <= j < init.len() && init[j] == f[a];
                assert(slots[j] == init[j]);
                assert(slots[j].id != slots[slots.len() - 1].id);
            }
        } else {
            assert(without_id(slots, id) == f);
        }
    }
}

proof fn lemma_filter_members(slots: Seq<SubscriberSlotView>, id: u64)
    ensures
        forall|a: int| 0 <= a < without_id(slots, id).len() ==> exists|j: int| 0 <= j < slots.len() && slots[j] == #[trigger] without_id(slots, id)[a],
    decreases slots.len(),
{
    reveal(Seq::filter);
    if slots.len() > 0 {
        let init = slots.drop_last();
        lemma_filter_members(init, id);
        let f = without_id(init, id);
        assert forall|a: int| 0 <= a < without_id(slots, id).len() implies exists|j: int| 0 <= j < slots.len() && slots[j] == #[trigger] without_id(slots, id)[a] by {
            if slots.last().id != id {
                assert(without_id(slots, id) == f.push(slots.last()));
                if a < f.len() {
                    let j = choose|j: int| 0 <= j < init.len() && init[j] == f[a];
                    assert(slots[j] == init[j]);
                } else {
                    assert(slots[slots.len() - 1] == without_id(slots, id)[a]);
                }
            } else {
                assert(without_id(slots, id) == f);
                let j = choose|j: int| 0 <= j < init.len() && init[j] == f[a];
                assert(slots[j] == init[j]);
            }
        }
    }
}

/// Removes every slot of subscriber `id`.
fn remove_slot(slots: &mut Vec<SubscriberSlot>, id: u64)
    ensures
        final(slots).deep_view() == without_id(old(slots).deep_view(), id),
{
    let mut kept: Vec<SubscriberSlot> = Vec::new();
    let mut i: usize = 0;
    let n = slots.len();
    while i < n
        invariant
            n == slots.len(),
            i <= n,
            slots.deep_view() == old(slots).deep_view(),
            kept.deep_view() == without_id(old(slots).deep_view().take(i as int), id),
        decreases n - i,
    {
        let ghost before = kept.deep_view();
        proof {
            let t = old(slots).deep_view().take(i + 1);
            assert(t.drop_last() =~= old(slots).deep_view().take(i as int));
            reveal(Seq::filter);
            assert(without_id(t, id) == if t.last().id != id { without_id(t.drop_last(), id).push(t.last()) } else { without_id(t.drop_last(), id) });
            assert(t.last() == slots[i as int]@);
        }
        if slots[i].id != id {
            let s = slots[i].exact_clone();
            kept.push(s);
            proof {
                assert(kept.deep_view() =~= before.push(s@));
            }
        }
        i = i + 1;
    }
    proof {
        assert(old(slots).deep_view().take(n as int) =~= old(slots).deep_view());
    }
    *slots = kept;
}

/// Subscriber identities are pairwise distinct.
pub open spec fn distinct_ids(slots: Seq<SubscriberSlotView>) -> bool {
    forall|a: int, b: int| 0 <= a < b < slots.len() ==> slots[a].id != slots[b].id
}

/// The delta a take hands to subscriber `id`: its pending one, if it is subscribed.
pub open spec fn taken_delta(slots: Seq<SubscriberSlotView>, id: u64) -> Option<RuntimeObservationDeltaView> {
    match slot_index(slots, id) {
        Some(k) => slots[k].latest,
        None => None,
    }
}

/// The subscribers after subscriber `id` took its delta: its slot is empty.
pub open spec fn after_take(slots: Seq<SubscriberSlotView>, id: u64) -> Seq<SubscriberSlotView> {
    match slot_index(slots, id) {
        Some(k) => slots.update(k, SubscriberSlotView { id, latest: None }),
        None => slots,
    }
}

/// A take empties the slot: a second take with no update in between finds
/// nothing.
pub proof fn law_second_take_finds_nothing(slots: Seq<SubscriberSlotView>, id: u64)
    requires
        distinct_ids(slots),
    ensures
        distinct_ids(after_take(slots, id)),
        taken_delta(after_take(slots, id), id) is None,
{
    match slot_index(slots, id) {
        Some(k) => {
            let t = slots.update(k, SubscriberSlotView { id, latest: None });
            assert forall|a: int, b: int| 0 <= a < b < t.len() implies t[a].id != t[b].id by {
                assert(t[a].id == slots[a].id);
                assert(t[b].id == slots[b].id);
            }
            lemma_slot_index_at(t, id, k);
        },
        None => {},
    }
}

/// A subscriber registered now has no backlog: whatever was published
/// before, its first take finds nothing.
pub proof fn law_new_subscriber_has_no_backlog(slots: Seq<SubscriberSlotView>, id: u64)
    requires
        distinct_ids(slots),
    ensures
        taken_delta(without_id(slots, id).push(SubscriberSlotView { id, latest: None }), id) is None,
{
    lemma_filter_excludes(slots, id);
    let w = without_id(slots, id);
    let t = w.push(SubscriberSlotView { id, latest: None });
    assert forall|a: int, b: int| 0 <= a < b < t.len() implies t[a].id != t[b].id by {
        if b == t.len() - 1 {
            assert(t[a] == w[a]);
        } else {
            assert(t[a] == w[a]);
            assert(t[b] == w[b]);
        }
    }
    lemma_slot_index_at(t, id, t.len() - 1);
}

/// An ended subscription receives nothing: updates published after it
/// ended deliver no delta to it.
pub proof fn law_ended_subscription_receives_nothing(
    slots: Seq<SubscriberSlotView>,
    later: Seq<SubscriberSlotView>,
    id: u64,
    published_snapshot: RuntimeObservationSnapshotView,
)
    requires
        distinct_ids(slots),
        delivered(without_id(slots, id), later, published_snapshot),
    ensures
        taken_delta(without_id(slots, id), id) is None,
        taken_delta(later, id) is None,
{
    lemma_filter_excludes(slots, id);
    lemma_slot_index_none(without_id(slots, id), id);
    assert forall|k: int| 0 <= k < later.len() implies later[k].id != id by {
        assert(later[k].id == without_id(slots, id)[k].id);
    }
    lemma_slot_index_none(later, id);
}

/// A subscriber keeps only the latest delta: after two publications, its
/// take returns the second and nothing of the first.
pub proof fn law_latest_delta_replaces_older(
    s0: Seq<SubscriberSlotView>,
    s1: Seq<SubscriberSlotView>,
    s2: Seq<SubscriberSlotView>,
    first: RuntimeObservationSnapshotView,
    second: RuntimeObservationSnapshotView,
    id: u64,
)
    requires
        distinct_ids(s0),
        slot_index(s0, id) is Some,
        delivered(s0, s1, first),
        delivered(s1, s2, second),
    ensures
        taken_delta(s2, id) == Some(delta_of(second)),
{
    let k = slot_index(s0, id)->0;
    assert(s0[k].id == id);
    assert(s2[k].id == s1[k].id);
    assert(s1[k].id == s0[k].id);
    assert forall|a: int, b: int| 0 <= a < b < s2.len() implies s2[a].id != s2[b].id by {
        assert(s2[a].id == s1[a].id && s1[a].id == s0[a].id);
        assert(s2[b].id == s1[b].id && s1[b].id == s0[b].id);
    }
    lemma_slot_index_at(s2, id, k);
}

/// Points sampled at or after `oldest` are the only ones kept.
proof fn lemma_recent_points_at_least(h: Seq<TrafficHistoryPoint>, oldest: int)
    ensures
        forall|a: int| 0 <= a < recent_points(h, oldest).len() ==> (#[trigger] recent_points(h, oldest)[a]).sampled_at_ms >= oldest,
    decreases h.len(),
{
    if h.len() > 0 {
        let rest = recent_points(h.drop_last(), oldest);
        lemma_recent_points_at_least(h.drop_last(), oldest);
        if h.last().sampled_at_ms >= oldest {
            assert forall|a: int| 0 <= a < rest.push(h.last()).len() implies (#[trigger] rest.push(h.last())[a]).sampled_at_ms >= oldest by {
                if a < rest.len() {
                    assert(rest.push(h.last())[a] == rest[a]);
                }
            }
        }
    }
}

/// Every update publishes the next revision, one past the previous (the
/// revision stays put once it reaches its largest value), with a history of
/// at most the capacity and nothing older than the window.
pub proof fn law_update_advances_revision(
    old: InMemoryRuntimeObservations,
    new: InMemoryRuntimeObservations,
    changed: RuntimeObservationSnapshotView,
)
    requires
        published(old, new, changed),
        changed.revision == old.current().revision,
    ensures
        new.current().revision == next_revision(old.current().revision),
        old.current().revision < u64::MAX ==> new.current().revision == old.current().revision + 1,
        new.current().revision >= old.current().revision,
        history_bounded(new.current().traffic_history, new.current().observed_at_ms),
{
    let h = changed.traffic_history;
    let now = changed.observed_at_ms;
    lemma_recent_points_at_least(h, window_start(now));
    let k = recent_points(h, window_start(now));
    if k.len() > TRAFFIC_HISTORY_CAPACITY {
        let s = k.subrange(k.len() - TRAFFIC_HISTORY_CAPACITY, k.len() as int);
        assert forall|a: int| 0 <= a < s.len() implies (#[trigger] s[a]).sampled_at_ms >= window_start(now) by {
            assert(s[a] == k[a + k.len() - TRAFFIC_HISTORY_CAPACITY]);
        }
    }
}

/// The view of a vector of history points is its sequence of points.
pub proof fn lemma_points_view(v: &Vec<TrafficHistoryPoint>)
    ensures
        v.deep_view() == v@,
{
    assert(v.deep_view() =~= v@);
}

/// The history at time `now`.
fn prune_history(h: &Vec<TrafficHistoryPoint>, now: u64) -> (r: Vec<TrafficHistoryPoint>)
    ensures
        r@ == pruned(h@, now),
        r.deep_view() == pruned(h.deep_view(), now),
{
    proof {
        lemma_points_view(h);
    }
    let oldest: u64 = if now >= TRAFFIC_HISTORY_WINDOW_MS { now - TRAFFIC_HISTORY_WINDOW_MS } else { 0 };
    let mut kept: Vec<TrafficHistoryPoint> = Vec::new();
    let mut i: usize = 0;
    while i < h.len()
        invariant
            i <= h.len(),
            oldest == window_start(now),
            kept@ == recent_points(h@.take(i as int), oldest as int),
        decreases h.len() - i,
    {
        proof {
            let t = h@.take(i + 1);
            assert(t.drop_last() =~= h@.take(i as int));
        }
        let ghost before = kept@;
        if h[i].sampled_at_ms >= oldest {
            kept.push(h[i]);
        }
        i = i + 1;
    }
    proof {
        assert(h@.take(h.len() as int) =~= h@);
    }
    if kept.len() > TRAFFIC_HISTORY_CAPACITY {
        let excess = kept.len() - TRAFFIC_HISTORY_CAPACITY;
        let mut r: Vec<TrafficHistoryPoint> = Vec::new();
        let mut j: usize = excess;
        while j < kept.len()
            invariant
                excess <= j <= kept.len(),
                r@ == kept@.subrange(excess as int, j as int),
            decreases kept.len() - j,
        {
            r.push(kept[j]);
            proof {
                assert(kept@.subrange(excess as int, j + 1) =~= kept@.subrange(excess as int, j as int).push(kept@[j as int]));
            }
            j = j + 1;
        }
        proof {
            lemma_points_view(&r);
        }
        r
    } else {
        proof {
            lemma_points_view(&kept);
        }
        kept
    }
}

} // verus!

verus! {

/// `new` is `old` after one update whose change produced `changed`.
pub open spec fn published(old: InMemoryRuntimeObservations, new: InMemoryRuntimeObservations, changed: RuntimeObservationSnapshotView) -> bool {
    &&& new.current() == finished(changed)
    &&& delivered(old.slots(), new.slots(), new.current())
    &&& new.outbox() == if old.has_sink() {
        old.outbox().push(delta_of(new.current()))
    } else {
        old.outbox()
    }
    &&& new.clock() == old.clock()
    &&& new.next_id() == old.next_id()
    &&& new.has_sink() == old.has_sink()
}

/// Keeping the recent points of an ordered history keeps it ordered, and
/// every kept point is at least as recent as the cut.
pub proof fn lemma_recent_points(h: Seq<TrafficHistoryPoint>, o: int, t: u64)
    requires
        history_ordered(h, t),
    ensures
        history_ordered(recent_points(h, o), t),
        forall|a: int| 0 <= a < recent_points(h, o).len() ==> (#[trigger] recent_points(h, o)[a]).sampled_at_ms >= o,
        h.len() > 0 ==> forall|a: int| 0 <= a < recent_points(h, o).len() ==> (#[trigger] recent_points(h, o)[a]).sampled_at_ms <= h.last().sampled_at_ms,
    decreases h.len(),
{
    if h.len() > 0 {
        let init = h.drop_last();
        assert(history_ordered(init, t));
        lemma_recent_points(init, o, t);
        if init.len() > 0 {
            assert(init.last().sampled_at_ms < h.last().sampled_at_ms);
        }
    }
}

/// A pruned history is ordered and within its window and capacity.
pub proof fn lemma_pruned(h: Seq<TrafficHistoryPoint>, now: u64)
    requires
        history_ordered(h, now),
    ensures
        history_ordered(pruned(h, now), now),
        history_bounded(pruned(h, now), now),
{
    lemma_recent_points(h, window_start(now), now);
    let k = recent_points(h, window_start(now));
    if k.len() > TRAFFIC_HISTORY_CAPACITY {
        let s = k.subrange(k.len() - TRAFFIC_HISTORY_CAPACITY, k.len() as int);
        assert forall|a: int, b: int| 0 <= a < b < s.len() implies s[a].sampled_at_ms < s[b].sampled_at_ms by {
            assert(s[a] == k[a + k.len() - TRAFFIC_HISTORY_CAPACITY]);
            assert(s[b] == k[b + k.len() - TRAFFIC_HISTORY_CAPACITY]);
        }
        assert forall|a: int| 0 <= a < s.len() implies (#[trigger] s[a]).sampled_at_ms <= now && s[a].sampled_at_ms >= window_start(now) by {
            assert(s[a] == k[a + k.len() - TRAFFIC_HISTORY_CAPACITY]);
        }
    }
}

/// Ordering is kept when history is pruned at a later time.
pub proof fn lemma_ordered_later(h: Seq<TrafficHistoryPoint>, t: u64, u: u64)
    requires
        history_ordered(h, t),
        t <= u,
    ensures
        history_ordered(h, u),
{
}

/// Adding a sample to an ordered history keeps it ordered.
pub proof fn lemma_with_point(h: Seq<TrafficHistoryPoint>, p: TrafficHistoryPoint)
    requires
        history_ordered(h, p.sampled_at_ms),
    ensures
        history_ordered(with_point(h, p), p.sampled_at_ms),
{
    if h.len() > 0 && h.last().sampled_at_ms == p.sampled_at_ms {
        let d = h.drop_last();
        let r = d.push(p);
        assert forall|a: int, b: int| 0 <= a < b < r.len() implies r[a].sampled_at_ms < r[b].sampled_at_ms by {
            if b == r.len() - 1 {
                assert(h[a].sampled_at_ms < h[h.len() - 1].sampled_at_ms);
            } else {
                assert(r[a] == h[a] && r[b] == h[b]);
            }
        }
    } else {
        let r = h.push(p);
        assert forall|a: int, b: int| 0 <= a < b < r.len() implies r[a].sampled_at_ms < r[b].sampled_at_ms by {
            if b == r.len() - 1 {
                assert(h[a].sampled_at_ms <= h[h.len() - 1].sampled_at_ms);
            } else {
                assert(r[a] == h[a] && r[b] == h[b]);
            }
        }
    }
}

/// The fixed, allow-listed summary of a raw log detail.
pub fn sanitized_summary(raw_detail: &str) -> (r: String)
    ensures
        r@ == summary_text(raw_detail@),
{
    let raw = chars_of(raw_detail);
    let lower = ascii_lowercase(&raw);
    let sensitive = contains_sub(&lower, &chars_of("secret")) || contains_sub(&lower, &chars_of("token"))
        || contains_sub(&lower, &chars_of("password")) || contains_sub(&lower, &chars_of("uuid"))
        || contains_sub(&lower, &chars_of("private")) || contains_sub(&lower, &chars_of("reality"))
        || contains_sub(&lower, &chars_of("authorization")) || contains_sub(&lower, &chars_of("bearer"))
        || contains_sub(&lower, &chars_of("://"));
    if sensitive {
        String::from_str("Sensitive runtime detail omitted")
    } else {
        let (a, b) = trim_bounds(&raw);
        if a == b {
            String::from_str("Runtime event recorded without detail")
        } else {
            String::from_str("Runtime event recorded")
        }
    }
}

pub fn map_managed_log_level(level: ClashLogLevel) -> (r: ObservationLogLevel)
    ensures
        r == map_level(level),
{
    match level {
        ClashLogLevel::Info => ObservationLogLevel::Info,
        ClashLogLevel::Warning => ObservationLogLevel::Warning,
        ClashLogLevel::Error => ObservationLogLevel::Error,
    }
}

pub fn map_managed_log_category(category: ClashLogCategory) -> (r: ObservationLogCategory)
    ensures
        r == map_category(category),
{
    match category {
        ClashLogCategory::Runtime => ObservationLogCategory::Runtime,
        ClashLogCategory::Recovery => ObservationLogCategory::Recovery,
    }
}

fn failure_message(failure: ManagedRuntimeFailure) -> (r: String)
    ensures
        r@ == failure_text(failure),
{
    match failure {
        ManagedRuntimeFailure::Configuration => String::from_str("Configuration generation failed; candidate not applied"),
        ManagedRuntimeFailure::Start => String::from_str("Core startup failed"),
        ManagedRuntimeFailure::Stop => String::from_str("Core stop incomplete"),
        ManagedRuntimeFailure::Observation => String::from_str("Runtime observation failed"),
        ManagedRuntimeFailure::Worker => String::from_str("Runtime worker response unavailable"),
    }
}

fn zero() -> (r: TrafficObservation)
    ensures
        r == zero_traffic(),
{
    TrafficObservation {
        upload_bytes_per_second: 0,
        download_bytes_per_second: 0,
        upload_total_bytes: 0,
        download_total_bytes: 0,
    }
}

impl InMemoryRuntimeObservations {
    /// Starts an update: the snapshot takes the current time.
    fn refresh(&mut self)
        requires
            old(self).wf(),
        ensures
            final(self).current() == at_time(old(self).current(), old(self).clock()),
            final(self).clock() == old(self).clock(),
            final(self).slots() == old(self).slots(),
            final(self).next_id() == old(self).next_id(),
            final(self).has_sink() == old(self).has_sink(),
            final(self).outbox() == old(self).outbox(),
            history_ordered(final(self).current().traffic_history, final(self).clock()),
            final(self).current().observed_at_ms == final(self).clock(),
            forall|a: int, b: int| 0 <= a < b < final(self).slots().len() ==> final(self).slots()[a].id != final(self).slots()[b].id,
    {
        self.snapshot.observed_at_ms = self.clock_ms;
        proof {
            lemma_ordered_later(old(self).current().traffic_history, old(self).current().observed_at_ms, old(self).clock());
        }
    }

    /// Finishes an update: cuts the history, advances the revision and delivers the delta.
    fn publish(&mut self)
        requires
            history_ordered(old(self).current().traffic_history, old(self).clock()),
            old(self).current().observed_at_ms == old(self).clock(),
            forall|a: int, b: int| 0 <= a < b < old(self).slots().len() ==> old(self).slots()[a].id != old(self).slots()[b].id,
        ensures
            final(self).wf(),
            published(*old(self), *final(self), old(self).current()),
    {
        proof {
            lemma_pruned(self.snapshot@.traffic_history, self.clock_ms);
        }
        let h = prune_history(&self.snapshot.traffic_history, self.snapshot.observed_at_ms);
        self.snapshot.traffic_history = h;
        self.snapshot.revision = if self.snapshot.revision == u64::MAX { u64::MAX } else { self.snapshot.revision + 1 };
        let delta = delta_from(&self.snapshot);
        let ghost slots0 = self.subscribers.deep_view();
        let ghost snap = self.snapshot@;
        let mut i: usize = 0;
        while i < self.subscribers.len()
            invariant
                i <= self.subscribers.len(),
                self.snapshot@ == snap,
                self.clock_ms == old(self).clock(),
                self.next_subscriber_id == old(self).next_id(),
                self.sink_installed == old(self).has_sink(),
                self.sink_outbox.deep_view() == old(self).outbox(),
                slots0.len() == self.subscribers.len(),
                delta@ == delta_of(self.snapshot@),
                forall|k: int| 0 <= k < slots0.len() ==> (#[trigger] self.subscribers.deep_view()[k]).id == slots0[k].id,
                forall|k: int| 0 <= k < i ==> (#[trigger] self.subscribers.deep_view()[k]).latest == Some(delta@),
                forall|k: int| i <= k < slots0.len() ==> (#[trigger] self.subscribers.deep_view()[k]) == slots0[k],
            decreases self.subscribers.len() - i,
        {
            let ghost before = self.subscribers.deep_view();
            let d = delta.exact_clone();
            let id = self.subscribers[i].id;
            proof {
                assert(before[i as int] == self.subscribers[i as int].deep_view());
                assert(before[i as int].id == id);
            }
            self.subscribers.set(i, SubscriberSlot { id, latest: Some(d) });
            proof {
                assert(self.subscribers.deep_view() =~= before.update(i as int, SubscriberSlotView { id, latest: Some(d@) }));
                assert forall|k: int| 0 <= k < slots0.len() implies (#[trigger] self.subscribers.deep_view()[k]).id == slots0[k].id by {
                    if k != i {
                        assert(self.subscribers.deep_view()[k] == before[k]);
                    }
                }
                assert forall|k: int| i + 1 <= k < slots0.len() implies (#[trigger] self.subscribers.deep_view()[k]) == slots0[k] by {
                    assert(self.subscribers.deep_view()[k] == before[k]);
                }
                assert forall|k: int| 0 <= k < i + 1 implies (#[trigger] self.subscribers.deep_view()[k]).latest == Some(delta@) by {
                    if k != i {
                        assert(self.subscribers.deep_view()[k] == before[k]);
                    }
                }
            }
            i = i + 1;
        }
        if self.sink_installed {
            let ghost before = self.sink_outbox.deep_view();
            self.sink_outbox.push(delta);
            proof {
                assert(self.sink_outbox.deep_view() =~= before.push(delta_of(self.snapshot@)));
            }
        }
        proof {
            assert(slots0 == old(self).slots());
            assert(self.snapshot@ == finished(old(self).current()));
            assert(history_ordered(self.current().traffic_history, self.current().observed_at_ms));
            assert(delivered(old(self).slots(), self.slots(), self.current()));
            assert(self.clock() == old(self).clock());
            assert(self.outbox() == if old(self).has_sink() { old(self).outbox().push(delta_of(self.current())) } else { old(self).outbox() });
            assert forall|a: int, b: int| 0 <= a < b < self.slots().len() implies self.slots()[a].id != self.slots()[b].id by {
                assert(self.slots()[a].id == slots0[a].id);
                assert(self.slots()[b].id == slots0[b].id);
            }
        }
    }

    /// Records the capture mode and sidecar lifecycle.
    pub fn record_runtime_state(&mut self, capture_mode: ObservedCaptureMode, sidecar_lifecycle: ObservedSidecarLifecycle)
        requires
            old(self).wf(),
        ensures
            final(self).wf(),
            published(*old(self), *final(self), RuntimeObservationSnapshotView {
                capture_mode,
                sidecar_lifecycle,
                ..at_time(old(self).current(), old(self).clock())
            }),
    {
        self.refresh();
        self.snapshot.capture_mode = capture_mode;
        self.snapshot.sidecar_lifecycle = sidecar_lifecycle;
        self.publish();
    }

    /// Records rates and adds transferred bytes to the totals (saturating).
    pub fn record_traffic(&mut self, upload_bytes_per_second: u64, download_bytes_per_second: u64, uploaded_bytes: u64, downloaded_bytes: u64)
        requires
            old(self).wf(),
        ensures
            final(self).wf(),
            published(*old(self), *final(self), {
                let s = at_time(old(self).current(), old(self).clock());
                RuntimeObservationSnapshotView {
                    traffic: TrafficObservation {
                        upload_bytes_per_second,
                        download_bytes_per_second,
                        upload_total_bytes: sat_add(s.traffic.upload_total_bytes, uploaded_bytes),
                        download_total_bytes: sat_add(s.traffic.download_total_bytes, downloaded_bytes),
                    },
                    ..s
                }
            }),
    {
        self.refresh();
        self.snapshot.traffic.upload_bytes_per_second = upload_bytes_per_second;
        self.snapshot.traffic.download_bytes_per_second = download_bytes_per_second;
        self.snapshot.traffic.upload_total_bytes = self.snapshot.traffic.upload_total_bytes.saturating_add(uploaded_bytes);
        self.snapshot.traffic.download_total_bytes = self.snapshot.traffic.download_total_bytes.saturating_add(downloaded_bytes);
        self.publish();
    }

    /// Records the number of active connections.
    pub fn record_connection_count(&mut self, active: u32)
        requires
            old(self).wf(),
        ensures
            final(self).wf(),
            published(*old(self), *final(self), RuntimeObservationSnapshotView {
                connections: ConnectionObservation { active },
                ..at_time(old(self).current(), old(self).clock())
            }),
    {
        self.refresh();
        self.snapshot.connections.active = active;
        self.publish();
    }

    /// Records a log entry; only its fixed summary is kept, never the raw detail.
    pub fn record_runtime_log(&mut self, level: ObservationLogLevel, category: ObservationLogCategory, raw_detail: &str)
        requires
            old(self).wf(),
        ensures
            final(self).wf(),
            published(*old(self), *final(self), RuntimeObservationSnapshotView {
                latest_log: Some(ObservationLogSummaryView { level, category, message: summary_text(raw_detail@) }),
                ..at_time(old(self).current(), old(self).clock())
            }),
    {
        self.refresh();
        let message = sanitized_summary(raw_detail);
        self.snapshot.latest_log = Some(ObservationLogSummary { level, category, message });
        self.publish();
    }

    fn apply_managed_observation(&mut self, observation: ClashRuntimeObservation)
        requires
            history_ordered(old(self).current().traffic_history, old(self).clock()),
            old(self).current().observed_at_ms == old(self).clock(),
        ensures
            final(self).current() == change_managed_observation(old(self).current(), observation@),
            final(self).clock() == old(self).clock(),
            final(self).slots() == old(self).slots(),
            final(self).next_id() == old(self).next_id(),
            final(self).has_sink() == old(self).has_sink(),
            final(self).outbox() == old(self).outbox(),
            history_ordered(final(self).current().traffic_history, final(self).clock()),
    {
        self.snapshot.source = ObservationSource::ManagedSidecar;
        self.snapshot.sidecar_lifecycle = ObservedSidecarLifecycle::Ready;
        self.snapshot.connections.active = observation.connections.connection_count;
        let ghost s1 = self.snapshot@;
        match observation.traffic {
            Some(traffic) => {
                self.snapshot.traffic = TrafficObservation {
                    upload_bytes_per_second: traffic.upload_bytes_per_second,
                    download_bytes_per_second: traffic.download_bytes_per_second,
                    upload_total_bytes: traffic.upload_total_bytes,
                    download_total_bytes: traffic.download_total_bytes,
                };
                let point = TrafficHistoryPoint {
                    sampled_at_ms: self.snapshot.observed_at_ms,
                    upload_rate_bps: traffic.upload_bytes_per_second,
                    download_rate_bps: traffic.download_bytes_per_second,
                };
                let n = self.snapshot.traffic_history.len();
                proof {
                    lemma_points_view(&self.snapshot.traffic_history);
                }
                if n > 0 && self.snapshot.traffic_history[n - 1].sampled_at_ms == point.sampled_at_ms {
                    self.snapshot.traffic_history.set(n - 1, point);
                    proof {
                        lemma_points_view(&self.snapshot.traffic_history);
                        assert(self.snapshot@.traffic_history =~= s1.traffic_history.drop_last().push(point));
                    }
                } else {
                    self.snapshot.traffic_history.push(point);
                    proof {
                        lemma_points_view(&self.snapshot.traffic_history);
                        assert(self.snapshot@.traffic_history =~= s1.traffic_history.push(point));
                    }
                }
                proof {
                    lemma_with_point(s1.traffic_history, point);
                }
            },
            None => {},
        }
        match observation.latest_log {
            Some(log) => {
                self.snapshot.latest_log = Some(ObservationLogSummary {
                    level: map_managed_log_level(log.level),
                    category: map_managed_log_category(log.category),
                    message: log.message,
                });
            },
            None => {},
        }
    }

    /// Records one sample that the managed bridge has already reduced to safe values.
    pub fn record_managed_observation(&mut self, observation: ClashRuntimeObservation)
        requires
            old(self).wf(),
        ensures
            final(self).wf(),
            published(*old(self), *final(self), change_managed_observation(at_time(old(self).current(), old(self).clock()), observation@)),
    {
        self.refresh();
        self.apply_managed_observation(observation);
        self.publish();
    }

    /// Records one sample together with the memory the owned core uses.
    pub fn record_managed_sample(&mut self, observation: ClashRuntimeObservation, core_memory_bytes: Option<u64>)
        requires
            old(self).wf(),
        ensures
            final(self).wf(),
            published(*old(self), *final(self), RuntimeObservationSnapshotView {
                core_memory_bytes,
                ..change_managed_observation(at_time(old(self).current(), old(self).clock()), observation@)
            }),
    {
        self.refresh();
        self.apply_managed_observation(observation);
        self.snapshot.core_memory_bytes = core_memory_bytes;
        self.publish();
    }

    fn clear_child(&mut self)
        ensures
            final(self).current() == cleared(old(self).current()),
            final(self).clock() == old(self).clock(),
            final(self).slots() == old(self).slots(),
            final(self).next_id() == old(self).next_id(),
            final(self).has_sink() == old(self).has_sink(),
            final(self).outbox() == old(self).outbox(),
    {
        self.snapshot.traffic = zero();
        self.snapshot.traffic_history = Vec::new();
        self.snapshot.connections = ConnectionObservation { active: 0 };
        self.snapshot.latest_log = None;
        proof {
            assert(self.snapshot.traffic_history.deep_view() =~= Seq::<TrafficHistoryPoint>::empty());
            assert(self.snapshot@ == cleared(old(self).current()));
        }
    }

    fn detach_child(&mut self)
        ensures
            final(self).current() == detached(old(self).current()),
            final(self).clock() == old(self).clock(),
            final(self).slots() == old(self).slots(),
            final(self).next_id() == old(self).next_id(),
            final(self).has_sink() == old(self).has_sink(),
            final(self).outbox() == old(self).outbox(),
    {
        self.snapshot.applied_subscription_id = None;
        self.snapshot.applied_configuration_generation = None;
        self.snapshot.managed_proxy_available = false;
        self.snapshot.core_memory_bytes = None;
    }

    /// Records that the owned runtime became ready; previous traffic, history,
    /// connections and log are dropped.
    pub fn record_managed_ready(&mut self)
        requires
            old(self).wf(),
        ensures
            final(self).wf(),
            published(*old(self), *final(self), change_managed_ready(at_time(old(self).current(), old(self).clock()))),
    {
        self.refresh();
        self.snapshot.source = ObservationSource::ManagedSidecar;
        self.snapshot.capture_mode = ObservedCaptureMode::Off;
        self.snapshot.sidecar_lifecycle = ObservedSidecarLifecycle::Ready;
        self.clear_child();
        self.publish();
    }

    /// Records that the owned runtime stopped; nothing of the old child stays.
    pub fn record_managed_stopped(&mut self)
        requires
            old(self).wf(),
        ensures
            final(self).wf(),
            published(*old(self), *final(self), change_managed_stopped(at_time(old(self).current(), old(self).clock()))),
    {
        self.refresh();
        self.snapshot.source = ObservationSource::ManagedSidecar;
        self.snapshot.capture_mode = ObservedCaptureMode::Off;
        self.snapshot.sidecar_lifecycle = ObservedSidecarLifecycle::Stopped;
        self.clear_child();
        self.detach_child();
        self.publish();
    }

    /// Records that the bridge failed: only the closed recovery state remains.
    pub fn record_managed_recovery(&mut self)
        requires
            old(self).wf(),
        ensures
            final(self).wf(),
            published(*old(self), *final(self), change_managed_recovery(at_time(old(self).current(), old(self).clock()))),
    {
        self.refresh();
        self.snapshot.source = ObservationSource::ManagedSidecar;
        self.snapshot.sidecar_lifecycle = ObservedSidecarLifecycle::RecoveryRequired;
        self.clear_child();
        self.detach_child();
        self.publish();
    }

    /// Records a failure with its fixed message; with a lifecycle, the owner
    /// also commits the actual lifecycle, and a child that is not ready loses
    /// its traffic, history and connections.
    pub fn record_managed_failure(&mut self, lifecycle: Option<ObservedSidecarLifecycle>, failure: ManagedRuntimeFailure)
        requires
            old(self).wf(),
        ensures
            final(self).wf(),
            published(*old(self), *final(self), change_managed_failure(at_time(old(self).current(), old(self).clock()), lifecycle, failure)),
    {
        self.refresh();
        match lifecycle {
            Some(l) => {
                self.snapshot.source = ObservationSource::ManagedSidecar;
                self.snapshot.capture_mode = ObservedCaptureMode::Off;
                self.snapshot.sidecar_lifecycle = l;
                if l != ObservedSidecarLifecycle::Ready {
                    self.snapshot.traffic = zero();
                    self.snapshot.traffic_history = Vec::new();
                    proof {
                        assert(self.snapshot.traffic_history.deep_view() =~= Seq::<TrafficHistoryPoint>::empty());
                    }
                    self.snapshot.connections = ConnectionObservation { active: 0 };
                    self.detach_child();
                }
            },
            None => {},
        }
        let message = failure_message(failure);
        self.snapshot.latest_log = Some(ObservationLogSummary {
            level: ObservationLogLevel::Error,
            category: ObservationLogCategory::Runtime,
            message,
        });
        proof {
            assert(self.snapshot@ == change_managed_failure(at_time(old(self).current(), old(self).clock()), lifecycle, failure));
        }
        self.publish();
    }

    /// Records that the runtime is ready with the given subscription and
    /// configuration generation applied.
    pub fn record_subscription_ready(&mut self, id: String, generation: u64, operation_id: Option<String>, managed_proxy_available: bool)
        requires
            old(self).wf(),
        ensures
            final(self).wf(),
            published(*old(self), *final(self), change_subscription_ready(
                at_time(old(self).current(), old(self).clock()),
                id@,
                generation,
                match operation_id { Some(o) => Some(o@), None => None },
                managed_proxy_available,
            )),
    {
        self.refresh();
        self.snapshot.source = ObservationSource::ManagedSidecar;
        self.snapshot.capture_mode = ObservedCaptureMode::Off;
        self.snapshot.sidecar_lifecycle = ObservedSidecarLifecycle::Ready;
        self.clear_child();
        self.snapshot.applied_subscription_id = Some(id);
        self.snapshot.applied_configuration_generation = Some(generation);
        self.snapshot.subscription_switch = match operation_id {
            Some(o) => Some(SubscriptionSwitch { operation_id: o, status: SubscriptionSwitchStatus::Ready, error_code: None }),
            None => None,
        };
        self.snapshot.managed_proxy_available = managed_proxy_available;
        self.snapshot.core_memory_bytes = None;
        proof {
            assert(self.snapshot@ == change_subscription_ready(
                at_time(old(self).current(), old(self).clock()),
                id@,
                generation,
                match operation_id { Some(o) => Some(o@), None => None },
                managed_proxy_available,
            ));
        }
        self.publish();
    }

    /// Records a phase of a subscription switch; a phase of an operation other
    /// than the current one is ignored unless it starts a new operation.
    pub fn record_subscription_switch(&mut self, switch: SubscriptionSwitch)
        requires
            old(self).wf(),
        ensures
            final(self).wf(),
            switch_accepted(old(self).current(), switch@) ==> published(*old(self), *final(self), RuntimeObservationSnapshotView {
                subscription_switch: Some(switch@),
                ..at_time(old(self).current(), old(self).clock())
            }),
            !switch_accepted(old(self).current(), switch@) ==> *final(self) == *old(self),
    {
        let accepted = switch.status == SubscriptionSwitchStatus::Queued || match &self.snapshot.subscription_switch {
            Some(current) => current.operation_id == switch.operation_id,
            None => false,
        };
        if accepted {
            self.refresh();
            self.snapshot.subscription_switch = Some(switch);
            self.publish();
        }
    }
}

fn delta_from(s: &RuntimeObservationSnapshot) -> (r: RuntimeObservationDelta)
    ensures
        r@ == delta_of(s@),
{
    RuntimeObservationDelta {
        revision: s.revision,
        observed_at_ms: s.observed_at_ms,
        traffic_history: s.traffic_history.exact_clone(),
        source: s.source,
        capture_mode: s.capture_mode,
        sidecar_lifecycle: s.sidecar_lifecycle,
        traffic: s.traffic,
        connections: s.connections,
        latest_log: s.latest_log.exact_clone(),
        applied_subscription_id: s.applied_subscription_id.exact_clone(),
        applied_configuration_generation: s.applied_configuration_generation,
        subscription_switch: s.subscription_switch.exact_clone(),
        managed_proxy_available: s.managed_proxy_available,
        core_memory_bytes: s.core_memory_bytes,
    }
}

impl RuntimeObservationDelta {
    /// The delta that carries a snapshot.
    pub fn from_snapshot(s: &RuntimeObservationSnapshot) -> (r: Self)
        ensures
            r@ == delta_of(s@),
    {
        delta_from(s)
    }
}

} // verus!
