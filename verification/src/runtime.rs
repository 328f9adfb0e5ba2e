//! The serial coordinator of the capture modes Off and System Proxy: the
//! sidecar is made ready before the system proxy points at it, and the user's
//! proxy is restored before the sidecar stops.
//!
//! The operating system's proxy settings are changed through
//! [`SystemProxyController`], which the platform implements.
use vstd::prelude::*;

use crate::sidecar::{GeneratedConfig, PortCall, SidecarLifecycle, SidecarPort, SidecarRuntime};

verus! {

/// The capture state the application can prove. `RecoveryRequired` is never
/// silently turned back into `Off`.
#[derive(Clone, Copy, Debug, PartialEq, Eq, Structural)]
pub enum CaptureMode {
    Off,
    SystemProxy,
    RecoveryRequired,
}

/// What entering System Proxy achieved.
#[derive(Clone, Copy, Debug, PartialEq, Eq, Structural)]
pub enum ActivateOutcome {
    Activated,
    Reconfigured,
}

/// What leaving System Proxy achieved.
#[derive(Clone, Copy, Debug, PartialEq, Eq, Structural)]
pub enum DeactivateOutcome {
    Deactivated,
    UserProxyPreserved,
    AlreadyOff,
}

/// Why a mode change failed; names no path, process or setting.
#[derive(Clone, Copy, Debug, PartialEq, Eq, Structural)]
pub enum RuntimeSupervisorError {
    BuildFailed,
    SidecarFailed,
    ProxyApplyFailed,
    ProxyRestoreFailed,
    RecoveryRequired,
}

impl RuntimeSupervisorError {
    /// Human-readable description.
    pub fn message(&self) -> (r: &'static str)
        ensures
            r@ == match self {
                RuntimeSupervisorError::BuildFailed => "runtime intent could not be compiled"@,
                RuntimeSupervisorError::SidecarFailed => "managed sidecar could not reach a stable ready state"@,
                RuntimeSupervisorError::ProxyApplyFailed => "Windows system proxy could not be applied"@,
                RuntimeSupervisorError::ProxyRestoreFailed => "Windows system proxy could not be restored"@,
                RuntimeSupervisorError::RecoveryRequired => "runtime requires recovery before another mode transition"@,
            },
    {
        match self {
            RuntimeSupervisorError::BuildFailed => "runtime intent could not be compiled",
            RuntimeSupervisorError::SidecarFailed => "managed sidecar could not reach a stable ready state",
            RuntimeSupervisorError::ProxyApplyFailed => "Windows system proxy could not be applied",
            RuntimeSupervisorError::ProxyRestoreFailed => "Windows system proxy could not be restored",
            RuntimeSupervisorError::RecoveryRequired => "runtime requires recovery before another mode transition",
        }
    }
}

/// A failed read or write of the system proxy settings.
#[derive(Clone, Copy, Debug, PartialEq, Eq, Structural)]
pub enum SystemProxyError {
    Read,
    Write,
}

/// How enabling the loopback proxy failed.
#[derive(Clone, Copy, Debug, PartialEq, Eq, Structural)]
pub enum SystemProxyEnableError {
    /// Nothing was changed.
    SafelyUnapplied(SystemProxyError),
    /// The settings may have been changed.
    StateUncertain(SystemProxyError),
}

/// What enabling the loopback proxy did.
#[derive(Clone, Copy, Debug, PartialEq, Eq, Structural)]
pub enum SystemProxyEnableOutcome {
    Enabled,
    AlreadyEnabled,
}

/// What restoring the user's proxy did.
#[derive(Clone, Copy, Debug, PartialEq, Eq, Structural)]
pub enum SystemProxyRestoreOutcome {
    Restored,
    UserModified,
    NotManaged,
}

/// Who currently owns the system proxy settings.
#[derive(Clone, Copy, Debug, PartialEq, Eq, Structural)]
pub enum ProxyState {
    NotManaged,
    Managed,
    UserModified,
}

/// The system proxy operations a platform provides.
pub trait SystemProxyController {
    /// Points the system proxy at the loopback port.
    fn enable_loopback_proxy(&self, port: u16) -> Result<SystemProxyEnableOutcome, SystemProxyEnableError>;

    /// Restores the proxy settings the user had.
    fn restore_proxy(&self) -> Result<SystemProxyRestoreOutcome, SystemProxyError>;

    /// Who owns the proxy settings now.
    fn state(&self) -> Result<ProxyState, SystemProxyError>;
}

/// What leaving System Proxy answers after the platform restored the proxy
/// settings with `restore`: settings the user changed meanwhile are
/// preserved.
pub open spec fn deactivated_outcome(restore: SystemProxyRestoreOutcome) -> DeactivateOutcome {
    match restore {
        SystemProxyRestoreOutcome::UserModified => DeactivateOutcome::UserProxyPreserved,
        SystemProxyRestoreOutcome::Restored | SystemProxyRestoreOutcome::NotManaged => DeactivateOutcome::Deactivated,
    }
}

/// [`deactivated_outcome`].
pub fn deactivation_outcome(restore: SystemProxyRestoreOutcome) -> (r: DeactivateOutcome)
    ensures
        r == deactivated_outcome(restore),
{
    match restore {
        SystemProxyRestoreOutcome::UserModified => DeactivateOutcome::UserProxyPreserved,
        SystemProxyRestoreOutcome::Restored | SystemProxyRestoreOutcome::NotManaged => DeactivateOutcome::Deactivated,
    }
}

/// One request to point the system proxy at the loopback port: the port
/// handed over, the sidecar's lifecycle when it was made, and the answer.
pub ghost struct ProxyEnable {
    pub port: u16,
    pub sidecar: SidecarLifecycle,
    pub answer: Result<SystemProxyEnableOutcome, SystemProxyEnableError>,
}

/// Coordinates the sidecar and the system proxy; the mode is held in memory
/// only.
pub struct RuntimeSupervisor<S, P> {
    sidecar: SidecarRuntime<S>,
    proxy: P,
    state: CaptureMode,
    /// Every answer the platform gave to a restore of the proxy settings,
    /// in order.
    restores: Ghost<Seq<Result<SystemProxyRestoreOutcome, SystemProxyError>>>,
    /// Every request to point the system proxy at the loopback port, in
    /// order.
    enables: Ghost<Seq<ProxyEnable>>,
}

impl<S: SidecarPort, P: SystemProxyController> RuntimeSupervisor<S, P> {
    /// The current capture mode.
    pub closed spec fn mode(&self) -> CaptureMode {
        self.state
    }

    /// The sidecar's lifecycle.
    pub closed spec fn sidecar_lifecycle(&self) -> SidecarLifecycle {
        self.sidecar.lifecycle_view()
    }

    /// The sidecar is consistent.
    pub closed spec fn wf(&self) -> bool {
        self.sidecar.wf()
    }

    /// The answers the platform gave to the restores this supervisor asked
    /// for, in order.
    pub closed spec fn restores(&self) -> Seq<Result<SystemProxyRestoreOutcome, SystemProxyError>> {
        self.restores@
    }

    /// The requests to point the system proxy at the loopback port, in
    /// order.
    pub closed spec fn enables(&self) -> Seq<ProxyEnable> {
        self.enables@
    }

    /// The requests the sidecar made of its port, in order.
    pub closed spec fn sidecar_calls(&self) -> Seq<PortCall> {
        self.sidecar.port_calls()
    }

    /// The local proxy port of the sidecar, if it has one.
    pub closed spec fn sidecar_mixed_port(&self) -> Option<u16> {
        self.sidecar.mixed_port_view()
    }

    /// Asks the platform to point the system proxy at `port` and records
    /// the request with its answer.
    fn enable_system_proxy(&mut self, port: u16) -> (r: Result<SystemProxyEnableOutcome, SystemProxyEnableError>)
        ensures
            final(self).mode() == old(self).mode(),
            final(self).sidecar == old(self).sidecar,
            final(self).restores() == old(self).restores(),
            final(self).enables() == old(self).enables().push(
                ProxyEnable { port, sidecar: old(self).sidecar_lifecycle(), answer: r },
            ),
    {
        let r = self.proxy.enable_loopback_proxy(port);
        self.enables = Ghost(
            self.enables@.push(ProxyEnable { port, sidecar: self.sidecar.lifecycle_view(), answer: r }),
        );
        r
    }

    /// Asks the platform to restore the user's proxy settings and records
    /// its answer.
    fn restore_system_proxy(&mut self) -> (r: Result<SystemProxyRestoreOutcome, SystemProxyError>)
        ensures
            final(self).mode() == old(self).mode(),
            final(self).sidecar == old(self).sidecar,
            final(self).restores() == old(self).restores().push(r),
            final(self).enables() == old(self).enables(),
    {
        let r = self.proxy.restore_proxy();
        self.restores = Ghost(self.restores@.push(r));
        r
    }

    /// A supervisor in mode Off around `sidecar`.
    pub fn new(sidecar: SidecarRuntime<S>, proxy: P) -> (r: Self)
        requires
            sidecar.wf(),
        ensures
            r.wf(),
            r.mode() == CaptureMode::Off,
            r.sidecar_lifecycle() == sidecar.lifecycle_view(),
            r.restores().len() == 0,
            r.enables().len() == 0,
    {
        RuntimeSupervisor {
            sidecar,
            proxy,
            state: CaptureMode::Off,
            restores: Ghost(Seq::empty()),
            enables: Ghost(Seq::empty()),
        }
    }

    /// The current capture mode.
    pub fn capture_mode(&self) -> (r: CaptureMode)
        ensures
            r == self.mode(),
    {
        self.state
    }

    /// Gives the sidecar back.
    pub fn into_sidecar(self) -> SidecarRuntime<S> {
        self.sidecar
    }

    fn start_sidecar(&mut self, candidate: Result<GeneratedConfig, ()>) -> (r: Result<u16, RuntimeSupervisorError>)
        requires
            old(self).wf(),
        ensures
            final(self).wf(),
            candidate is Err ==> r == Err::<u16, RuntimeSupervisorError>(RuntimeSupervisorError::BuildFailed)
                && *final(self) == *old(self),
            r is Ok ==> final(self).sidecar_lifecycle() == SidecarLifecycle::Ready && final(self).mode()
                == old(self).mode(),
            r is Err && candidate is Ok ==> r == Err::<u16, RuntimeSupervisorError>(
                RuntimeSupervisorError::SidecarFailed,
            ) && final(self).mode() == (if final(self).sidecar_lifecycle()
                == SidecarLifecycle::RecoveryRequired {
                CaptureMode::RecoveryRequired
            } else {
                old(self).mode()
            }),
            final(self).restores() == old(self).restores(),
            final(self).enables() == old(self).enables(),
            final(self).sidecar_mixed_port() == old(self).sidecar_mixed_port(),
            r matches Ok(port) ==> final(self).sidecar_mixed_port() == Some(port),
    {
        let candidate = match candidate {
            Ok(c) => c,
            Err(()) => {
                return Err(RuntimeSupervisorError::BuildFailed);
            },
        };
        if self.sidecar.start_or_replace(candidate).is_err() {
            if self.sidecar.lifecycle() == SidecarLifecycle::RecoveryRequired {
                self.state = CaptureMode::RecoveryRequired;
            }
            return Err(RuntimeSupervisorError::SidecarFailed);
        }
        match self.sidecar.mixed_port() {
            Some(port) => Ok(port),
            None => Err(RuntimeSupervisorError::SidecarFailed),
        }
    }

    fn stop_sidecar_or_require_recovery(&mut self) -> (r: Result<(), RuntimeSupervisorError>)
        requires
            old(self).wf(),
        ensures
            final(self).wf(),
            r is Ok ==> final(self).sidecar_lifecycle() == SidecarLifecycle::Stopped && final(self).mode()
                == old(self).mode(),
            r is Err ==> r == Err::<(), RuntimeSupervisorError>(RuntimeSupervisorError::RecoveryRequired)
                && final(self).mode() == CaptureMode::RecoveryRequired,
            final(self).restores() == old(self).restores(),
            final(self).enables() == old(self).enables(),
            old(self).sidecar_lifecycle() == SidecarLifecycle::Ready ==> final(self).sidecar_calls().last() is Stop
                && (final(self).sidecar_calls().last()->Stop_ok <==> r is Ok),
    {
        if self.sidecar.stop().is_err() {
            self.state = CaptureMode::RecoveryRequired;
            return Err(RuntimeSupervisorError::RecoveryRequired);
        }
        Ok(())
    }

    /// Enters System Proxy with the compiled candidate (or replaces the
    /// configuration while already in it).
    ///
    /// From Off the sidecar is made ready before the loopback proxy is
    /// enabled; if enabling fails without a change the sidecar is stopped
    /// again (and the mode stays Off unless that stop fails); if the
    /// settings may have changed, recovery is required. In System Proxy only
    /// the sidecar's configuration is replaced and the user's settings are
    /// not rewritten. A runtime that requires recovery refuses.
    pub fn activate_system_proxy(&mut self, candidate: Result<GeneratedConfig, ()>) -> (r: Result<
        ActivateOutcome,
        RuntimeSupervisorError,
    >)
        requires
            old(self).wf(),
        ensures
            final(self).wf(),
            old(self).mode() == CaptureMode::RecoveryRequired ==> r == Err::<ActivateOutcome, RuntimeSupervisorError>(
                RuntimeSupervisorError::RecoveryRequired,
            ) && *final(self) == *old(self),
            old(self).mode() != CaptureMode::RecoveryRequired && candidate is Err ==> r == Err::<
                ActivateOutcome,
                RuntimeSupervisorError,
            >(RuntimeSupervisorError::BuildFailed) && *final(self) == *old(self),
            r == Ok::<ActivateOutcome, RuntimeSupervisorError>(ActivateOutcome::Activated) ==> old(self).mode()
                == CaptureMode::Off && final(self).mode() == CaptureMode::SystemProxy
                && final(self).sidecar_lifecycle() == SidecarLifecycle::Ready,
            r == Ok::<ActivateOutcome, RuntimeSupervisorError>(ActivateOutcome::Reconfigured) ==> old(self).mode()
                == CaptureMode::SystemProxy && final(self).mode() == CaptureMode::SystemProxy
                && final(self).sidecar_lifecycle() == SidecarLifecycle::Ready,
            r == Err::<ActivateOutcome, RuntimeSupervisorError>(RuntimeSupervisorError::ProxyApplyFailed)
                ==> old(self).mode() == CaptureMode::Off && final(self).mode() == CaptureMode::Off
                && final(self).sidecar_lifecycle() == SidecarLifecycle::Stopped,
            r == Err::<ActivateOutcome, RuntimeSupervisorError>(RuntimeSupervisorError::RecoveryRequired)
                ==> final(self).mode() == CaptureMode::RecoveryRequired,
            r == Err::<ActivateOutcome, RuntimeSupervisorError>(RuntimeSupervisorError::SidecarFailed)
                ==> final(self).mode() == (if final(self).sidecar_lifecycle()
                == SidecarLifecycle::RecoveryRequired {
                CaptureMode::RecoveryRequired
            } else {
                old(self).mode()
            }),
            r != Err::<ActivateOutcome, RuntimeSupervisorError>(RuntimeSupervisorError::ProxyRestoreFailed),
            final(self).restores() == old(self).restores(),
            old(self).mode() != CaptureMode::Off ==> final(self).enables() == old(self).enables(),
            old(self).mode() == CaptureMode::Off && candidate is Ok ==> (r == Err::<
                ActivateOutcome,
                RuntimeSupervisorError,
            >(RuntimeSupervisorError::SidecarFailed) && final(self).enables() == old(self).enables()) || exists|
                e: ProxyEnable,
            |
                #![trigger old(self).enables().push(e)]
                final(self).enables() == old(self).enables().push(e) && old(self).sidecar_mixed_port() == Some(e.port)
                    && e.sidecar == SidecarLifecycle::Ready && match e.answer {
                    Ok(_) => r == Ok::<ActivateOutcome, RuntimeSupervisorError>(ActivateOutcome::Activated),
                    Err(SystemProxyEnableError::SafelyUnapplied(_)) => final(self).sidecar_calls().last() is Stop
                        && r == (if final(self).sidecar_calls().last()->Stop_ok {
                        Err::<ActivateOutcome, RuntimeSupervisorError>(RuntimeSupervisorError::ProxyApplyFailed)
                    } else {
                        Err::<ActivateOutcome, RuntimeSupervisorError>(RuntimeSupervisorError::RecoveryRequired)
                    }),
                    Err(SystemProxyEnableError::StateUncertain(_)) => r == Err::<
                        ActivateOutcome,
                        RuntimeSupervisorError,
                    >(RuntimeSupervisorError::RecoveryRequired),
                },
    {
        match self.state {
            CaptureMode::RecoveryRequired => Err(RuntimeSupervisorError::RecoveryRequired),
            CaptureMode::SystemProxy => {
                self.start_sidecar(candidate)?;
                Ok(ActivateOutcome::Reconfigured)
            },
            CaptureMode::Off => {
                let mixed_port = self.start_sidecar(candidate)?;
                match self.enable_system_proxy(mixed_port) {
                    Ok(_) => {
                        self.state = CaptureMode::SystemProxy;
                        Ok(ActivateOutcome::Activated)
                    },
                    Err(SystemProxyEnableError::SafelyUnapplied(_)) => {
                        match self.stop_sidecar_or_require_recovery() {
                            Ok(()) => Err(RuntimeSupervisorError::ProxyApplyFailed),
                            Err(_) => Err(RuntimeSupervisorError::RecoveryRequired),
                        }
                    },
                    Err(SystemProxyEnableError::StateUncertain(_)) => {
                        self.state = CaptureMode::RecoveryRequired;
                        Err(RuntimeSupervisorError::RecoveryRequired)
                    },
                }
            },
        }
    }

    /// Leaves System Proxy: the user's proxy is restored first, then the
    /// sidecar stops. A failed restore keeps the sidecar running and the
    /// mode unchanged; a failed stop requires recovery. A proxy the user
    /// changed meanwhile is preserved.
    pub fn deactivate_system_proxy(&mut self) -> (r: Result<DeactivateOutcome, RuntimeSupervisorError>)
        requires
            old(self).wf(),
        ensures
            final(self).wf(),
            old(self).mode() == CaptureMode::Off ==> r == Ok::<DeactivateOutcome, RuntimeSupervisorError>(
                DeactivateOutcome::AlreadyOff,
            ) && *final(self) == *old(self),
            old(self).mode() == CaptureMode::RecoveryRequired ==> r == Err::<
                DeactivateOutcome,
                RuntimeSupervisorError,
            >(RuntimeSupervisorError::RecoveryRequired) && *final(self) == *old(self),
            old(self).mode() == CaptureMode::SystemProxy ==> exists|
                restore: Result<SystemProxyRestoreOutcome, SystemProxyError>,
            |
                #![trigger old(self).restores().push(restore)]
                final(self).restores() == old(self).restores().push(restore) && match restore {
                    Err(_) => r == Err::<DeactivateOutcome, RuntimeSupervisorError>(
                        RuntimeSupervisorError::ProxyRestoreFailed,
                    ) && final(self).mode() == old(self).mode() && final(self).sidecar_lifecycle()
                        == old(self).sidecar_lifecycle(),
                    Ok(outcome) => match r {
                        Ok(o) => o == deactivated_outcome(outcome) && final(self).mode() == CaptureMode::Off
                            && final(self).sidecar_lifecycle() == SidecarLifecycle::Stopped,
                        Err(e) => e == RuntimeSupervisorError::RecoveryRequired && final(self).mode()
                            == CaptureMode::RecoveryRequired,
                    },
                },
    {
        match self.state {
            CaptureMode::Off => Ok(DeactivateOutcome::AlreadyOff),
            CaptureMode::RecoveryRequired => Err(RuntimeSupervisorError::RecoveryRequired),
            CaptureMode::SystemProxy => {
                let restore = match self.restore_system_proxy() {
                    Ok(v) => v,
                    Err(_) => {
                        return Err(RuntimeSupervisorError::ProxyRestoreFailed);
                    },
                };
                self.stop_sidecar_or_require_recovery()?;
                self.state = CaptureMode::Off;
                Ok(deactivation_outcome(restore))
            },
        }
    }
}

} // verus!
