use std::cell::RefCell;
use std::rc::Rc;

use veyra::runtime::{
    ActivateOutcome, CaptureMode, DeactivateOutcome, ProxyState, RuntimeSupervisor,
    RuntimeSupervisorError, SystemProxyController, SystemProxyEnableError,
    SystemProxyEnableOutcome, SystemProxyError, SystemProxyRestoreOutcome,
};
use veyra::sidecar::{
    GeneratedConfig, ManagedSidecar, SidecarLifecycle, SidecarPort, SidecarPortError,
    SidecarRuntime,
};

type Events = Rc<RefCell<Vec<&'static str>>>;

#[derive(Default)]
struct MockSidecar {
    events: Events,
    fail_check: bool,
    fail_stop: bool,
    next_identity: u64,
}

impl MockSidecar {
    fn record(&self, event: &'static str) {
        self.events.borrow_mut().push(event);
    }
}

impl SidecarPort for MockSidecar {
    fn check(&mut self, _: &GeneratedConfig) -> Result<(), SidecarPortError> {
        self.record("check");
        self.next_identity += 1;
        (!self.fail_check).then_some(()).ok_or(SidecarPortError)
    }

    fn prepare(&mut self, _: &GeneratedConfig) -> Result<(), SidecarPortError> {
        self.record("prepare");
        Ok(())
    }

    fn run(&mut self) -> Result<ManagedSidecar, SidecarPortError> {
        self.record("run");
        Ok(ManagedSidecar::from_port_identity(self.next_identity))
    }

    fn ready(&mut self, _: &ManagedSidecar) -> Result<(), SidecarPortError> {
        self.record("ready");
        Ok(())
    }

    fn stop(&mut self, _: &ManagedSidecar) -> Result<(), SidecarPortError> {
        self.record("stop");
        (!self.fail_stop).then_some(()).ok_or(SidecarPortError)
    }
}

struct MockProxy {
    events: Events,
    fail_enable: bool,
    fail_restore: bool,
    restore: SystemProxyRestoreOutcome,
}

impl MockProxy {
    fn new(events: Events) -> Self {
        Self {
            events,
            fail_enable: false,
            fail_restore: false,
            restore: SystemProxyRestoreOutcome::Restored,
        }
    }

    fn record(&self, event: &'static str) {
        self.events.borrow_mut().push(event);
    }
}

impl SystemProxyController for MockProxy {
    fn enable_loopback_proxy(
        &self,
        _: u16,
    ) -> Result<SystemProxyEnableOutcome, SystemProxyEnableError> {
        self.record("proxy-enable");
        (!self.fail_enable)
            .then_some(SystemProxyEnableOutcome::Enabled)
            .ok_or(SystemProxyEnableError::SafelyUnapplied(SystemProxyError::Write))
    }

    fn restore_proxy(&self) -> Result<SystemProxyRestoreOutcome, SystemProxyError> {
        self.record("proxy-restore");
        (!self.fail_restore)
            .then_some(self.restore)
            .ok_or(SystemProxyError::Read)
    }

    fn state(&self) -> Result<ProxyState, SystemProxyError> {
        Ok(ProxyState::NotManaged)
    }
}

fn candidate() -> Result<GeneratedConfig, ()> {
    Ok(GeneratedConfig::from_bytes(
        br#"{"outbounds":[{"type":"vless","tag":"node"}]}"#.to_vec(),
    ))
}

fn supervisor<P: SystemProxyController>(
    sidecar: MockSidecar,
    proxy: P,
) -> RuntimeSupervisor<MockSidecar, P> {
    RuntimeSupervisor::new(SidecarRuntime::new(sidecar, 20_890), proxy)
}

fn events_of(events: &Events) -> Vec<&'static str> {
    events.borrow().clone()
}

#[test]
fn activation_waits_for_ready_before_applying_loopback_proxy() {
    let events = Events::default();
    let result = supervisor(
        MockSidecar {
            events: Rc::clone(&events),
            ..MockSidecar::default()
        },
        MockProxy::new(Rc::clone(&events)),
    )
    .activate_system_proxy(candidate());

    assert_eq!(result, Ok(ActivateOutcome::Activated));
    assert_eq!(
        events_of(&events),
        vec!["check", "prepare", "run", "ready", "proxy-enable"]
    );
}

#[test]
fn sidecar_failure_leaves_system_proxy_untouched() {
    let events = Events::default();
    let mut runtime = supervisor(
        MockSidecar {
            events: Rc::clone(&events),
            fail_check: true,
            ..MockSidecar::default()
        },
        MockProxy::new(Rc::clone(&events)),
    );

    assert_eq!(
        runtime.activate_system_proxy(candidate()),
        Err(RuntimeSupervisorError::SidecarFailed)
    );
    assert_eq!(runtime.capture_mode(), CaptureMode::Off);
    assert_eq!(events_of(&events), vec!["check"]);
}

#[test]
fn proxy_apply_failure_stops_the_ready_sidecar() {
    let events = Events::default();
    let mut runtime = supervisor(
        MockSidecar {
            events: Rc::clone(&events),
            ..MockSidecar::default()
        },
        MockProxy {
            fail_enable: true,
            ..MockProxy::new(Rc::clone(&events))
        },
    );

    assert_eq!(
        runtime.activate_system_proxy(candidate()),
        Err(RuntimeSupervisorError::ProxyApplyFailed)
    );
    assert_eq!(runtime.capture_mode(), CaptureMode::Off);
    assert_eq!(
        events_of(&events),
        vec!["check", "prepare", "run", "ready", "proxy-enable", "stop"]
    );
}

#[test]
fn proxy_apply_compensation_stop_failure_requires_recovery() {
    let events = Events::default();
    let mut runtime = supervisor(
        MockSidecar {
            events: Rc::clone(&events),
            fail_stop: true,
            ..MockSidecar::default()
        },
        MockProxy {
            fail_enable: true,
            ..MockProxy::new(Rc::clone(&events))
        },
    );

    assert_eq!(
        runtime.activate_system_proxy(candidate()),
        Err(RuntimeSupervisorError::RecoveryRequired)
    );
    assert_eq!(runtime.capture_mode(), CaptureMode::RecoveryRequired);
}

#[test]
fn restore_failure_keeps_sidecar_running_and_mode_stable() {
    let events = Events::default();
    let mut runtime = supervisor(
        MockSidecar {
            events: Rc::clone(&events),
            ..MockSidecar::default()
        },
        MockProxy {
            fail_restore: true,
            ..MockProxy::new(Rc::clone(&events))
        },
    );
    runtime
        .activate_system_proxy(candidate())
        .expect("activate runtime");
    events.borrow_mut().clear();

    assert_eq!(
        runtime.deactivate_system_proxy(),
        Err(RuntimeSupervisorError::ProxyRestoreFailed)
    );
    assert_eq!(runtime.capture_mode(), CaptureMode::SystemProxy);
    assert_eq!(events_of(&events), vec!["proxy-restore"]);
}

#[test]
fn user_proxy_change_is_preserved_before_stopping_sidecar() {
    let events = Events::default();
    let mut runtime = supervisor(
        MockSidecar {
            events: Rc::clone(&events),
            ..MockSidecar::default()
        },
        MockProxy {
            restore: SystemProxyRestoreOutcome::UserModified,
            ..MockProxy::new(Rc::clone(&events))
        },
    );
    runtime
        .activate_system_proxy(candidate())
        .expect("activate runtime");
    events.borrow_mut().clear();

    assert_eq!(
        runtime.deactivate_system_proxy(),
        Ok(DeactivateOutcome::UserProxyPreserved)
    );
    assert_eq!(runtime.capture_mode(), CaptureMode::Off);
    assert_eq!(events_of(&events), vec!["proxy-restore", "stop"]);
}

#[test]
fn reconfiguration_replaces_sidecar_without_reapplying_system_proxy() {
    let events = Events::default();
    let mut runtime = supervisor(
        MockSidecar {
            events: Rc::clone(&events),
            ..MockSidecar::default()
        },
        MockProxy::new(Rc::clone(&events)),
    );
    runtime
        .activate_system_proxy(candidate())
        .expect("activate runtime");
    events.borrow_mut().clear();

    assert_eq!(
        runtime.activate_system_proxy(candidate()),
        Ok(ActivateOutcome::Reconfigured)
    );
    assert_eq!(runtime.capture_mode(), CaptureMode::SystemProxy);
    assert_eq!(
        events_of(&events),
        vec!["check", "prepare", "stop", "run", "ready"]
    );
}

#[test]
fn a_build_failure_touches_neither_sidecar_nor_proxy() {
    let events = Events::default();
    let mut runtime = supervisor(
        MockSidecar {
            events: Rc::clone(&events),
            ..MockSidecar::default()
        },
        MockProxy::new(Rc::clone(&events)),
    );
    assert_eq!(
        runtime.activate_system_proxy(Err(())),
        Err(RuntimeSupervisorError::BuildFailed)
    );
    assert_eq!(runtime.capture_mode(), CaptureMode::Off);
    assert!(events_of(&events).is_empty());
}

#[test]
fn deactivating_while_off_is_a_no_op_and_leaves_the_sidecar_stopped() {
    let events = Events::default();
    let mut runtime = supervisor(
        MockSidecar {
            events: Rc::clone(&events),
            ..MockSidecar::default()
        },
        MockProxy::new(Rc::clone(&events)),
    );
    assert_eq!(
        runtime.deactivate_system_proxy(),
        Ok(DeactivateOutcome::AlreadyOff)
    );
    assert!(events_of(&events).is_empty());
    assert_eq!(
        runtime.into_sidecar().lifecycle(),
        SidecarLifecycle::Stopped
    );
}

/// A system proxy that writes the loopback setting and then fails in a way
/// that leaves the settings uncertain: the read-back after the write, the
/// change notification's rollback, or recording the stable state.
struct UncertainProxy {
    failure: SystemProxyError,
}

impl SystemProxyController for UncertainProxy {
    fn enable_loopback_proxy(
        &self,
        _: u16,
    ) -> Result<SystemProxyEnableOutcome, SystemProxyEnableError> {
        Err(SystemProxyEnableError::StateUncertain(self.failure))
    }

    fn restore_proxy(&self) -> Result<SystemProxyRestoreOutcome, SystemProxyError> {
        Ok(SystemProxyRestoreOutcome::Restored)
    }

    fn state(&self) -> Result<ProxyState, SystemProxyError> {
        Ok(ProxyState::Managed)
    }
}

fn uncertain_activation_requires_recovery(failure: SystemProxyError) {
    let events = Events::default();
    let mut runtime = supervisor(
        MockSidecar {
            events: Rc::clone(&events),
            ..MockSidecar::default()
        },
        UncertainProxy { failure },
    );

    assert_eq!(
        runtime.activate_system_proxy(candidate()),
        Err(RuntimeSupervisorError::RecoveryRequired)
    );
    assert_eq!(runtime.capture_mode(), CaptureMode::RecoveryRequired);
    assert_eq!(events_of(&events), vec!["check", "prepare", "run", "ready"]);
    assert_eq!(
        runtime.into_sidecar().lifecycle(),
        SidecarLifecycle::Ready
    );
}

#[test]
fn concrete_proxy_readback_failure_preserves_ready_sidecar_and_requires_recovery() {
    uncertain_activation_requires_recovery(SystemProxyError::Read);
}

#[test]
fn concrete_proxy_notification_rollback_failure_preserves_ready_sidecar() {
    uncertain_activation_requires_recovery(SystemProxyError::Write);
}

#[test]
fn concrete_proxy_stable_record_failure_preserves_ready_sidecar() {
    uncertain_activation_requires_recovery(SystemProxyError::Write);
}
