//! The lifecycle of the managed core process ("sidecar"): a candidate
//! configuration is checked and prepared before the running child is
//! replaced, and a child that does not become ready is stopped again.
//!
//! The process work itself goes through [`SidecarPort`], which the platform
//! implements; what a port call returns decides each step.
use vstd::prelude::*;

verus! {

/// A generated core configuration, as bytes.
#[derive(Clone, Debug, PartialEq, Eq)]
pub struct GeneratedConfig {
    bytes: Vec<u8>,
}

impl GeneratedConfig {
    /// The configuration's bytes.
    pub closed spec fn bytes_view(&self) -> Seq<u8> {
        self.bytes@
    }

    /// A configuration made of `bytes`.
    pub fn from_bytes(bytes: Vec<u8>) -> (r: Self)
        ensures
            r.bytes_view() == bytes@,
    {
        GeneratedConfig { bytes }
    }

    /// The configuration's bytes.
    pub fn as_bytes(&self) -> (r: &Vec<u8>)
        ensures
            r@ == self.bytes_view(),
    {
        &self.bytes
    }
}

/// A failed port operation; carries no detail.
#[derive(Clone, Copy, Debug, PartialEq, Eq, Structural)]
pub struct SidecarPortError;

/// A running child process, known by the identity the port gave it.
#[derive(Clone, Copy, Debug, PartialEq, Eq, Structural)]
pub struct ManagedSidecar {
    identity: u64,
}

impl ManagedSidecar {
    /// The identity the port gave this child.
    pub closed spec fn identity_view(&self) -> u64 {
        self.identity
    }

    /// The child the port identifies as `identity`.
    pub fn from_port_identity(identity: u64) -> (r: Self)
        ensures
            r.identity_view() == identity,
    {
        ManagedSidecar { identity }
    }

    /// The identity the port gave this child.
    pub fn identity(&self) -> (r: u64)
        ensures
            r == self.identity_view(),
    {
        self.identity
    }
}

/// The process operations a platform provides.
pub trait SidecarPort {
    /// Checks a candidate configuration without running it.
    fn check(&mut self, config: &GeneratedConfig) -> Result<(), SidecarPortError>;

    /// Writes a checked candidate where the next run picks it up.
    fn prepare(&mut self, config: &GeneratedConfig) -> Result<(), SidecarPortError>;

    /// Starts a child with the prepared configuration.
    fn run(&mut self) -> Result<ManagedSidecar, SidecarPortError>;

    /// Waits until the child serves.
    fn ready(&mut self, child: &ManagedSidecar) -> Result<(), SidecarPortError>;

    /// Stops the child.
    fn stop(&mut self, child: &ManagedSidecar) -> Result<(), SidecarPortError>;
}

/// What the runtime can prove about its child.
#[derive(Clone, Copy, Debug, PartialEq, Eq, Structural)]
pub enum SidecarLifecycle {
    Stopped,
    Ready,
    RecoveryRequired,
}

/// The step at which starting or stopping failed.
#[derive(Clone, Copy, Debug, PartialEq, Eq, Structural)]
pub enum SidecarError {
    /// The candidate was refused by the check; nothing changed.
    CandidateCheck,
    /// The candidate could not be prepared; nothing changed.
    CandidatePrepare,
    /// The running child could not be stopped.
    ActiveStop,
    /// No child could be started.
    Run,
    /// The started child did not become ready.
    Ready,
    /// The runtime must be recovered before it can be started again.
    RecoveryRequired,
}

/// One request to the port and what it answered.
pub ghost enum PortCall {
    /// `check` of a configuration; `ok` where it was accepted.
    Check { config: Seq<u8>, ok: bool },
    /// `prepare` of a configuration; `ok` where it was written.
    Prepare { config: Seq<u8>, ok: bool },
    /// `run`; the identity of the child it started, if it started one.
    Run { child: Option<u64> },
    /// `ready` of a child; `ok` where it serves.
    Ready { child: u64, ok: bool },
    /// `stop` of a child; `ok` where it stopped.
    Stop { child: u64, ok: bool },
}

/// `calls` are a `check` of `config` and, where it was accepted, its
/// `prepare`; `r` is a refusal of either, or success.
pub open spec fn checked_and_prepared(config: Seq<u8>, calls: Seq<PortCall>, r: Result<(), SidecarError>) -> bool {
    &&& calls.len() >= 1
    &&& calls[0] == (PortCall::Check { config, ok: calls[0]->Check_ok })
    &&& if !calls[0]->Check_ok {
        calls.len() == 1 && r == Err::<(), SidecarError>(SidecarError::CandidateCheck)
    } else {
        &&& calls.len() == 2
        &&& calls[1] == (PortCall::Prepare { config, ok: calls[1]->Prepare_ok })
        &&& r == (if calls[1]->Prepare_ok {
            Ok::<(), SidecarError>(())
        } else {
            Err::<(), SidecarError>(SidecarError::CandidatePrepare)
        })
    }
}

/// `calls` check and prepare `config`, then, where both were accepted,
/// start a child running it as [`launched`] says.
pub open spec fn started_from(
    config: Seq<u8>,
    previous: Option<u64>,
    calls: Seq<PortCall>,
    r: Result<(), SidecarError>,
    child: Option<u64>,
) -> bool {
    if calls.len() >= 2 && calls[0] == (PortCall::Check { config, ok: true }) && calls[1] == (PortCall::Prepare {
        config,
        ok: true,
    }) {
        launched(previous, calls.skip(2), r, child)
    } else {
        checked_and_prepared(config, calls, r)
    }
}

/// `calls` start a child once the previous one (`previous`, if any) is
/// stopped: a failed stop ends it with `ActiveStop`; then `run`, a failure
/// of which ends it with `Run`; then `ready` of the child run, which ends it
/// with the child in place (`child`), or else with a `stop` of that child
/// and `Ready`.
pub open spec fn launched(previous: Option<u64>, calls: Seq<PortCall>, r: Result<(), SidecarError>, child: Option<u64>) -> bool {
    match previous {
        Some(c) => calls.len() >= 1 && calls[0] == (PortCall::Stop { child: c, ok: calls[0]->Stop_ok }) && if calls[0]->Stop_ok {
            started(calls.skip(1), r, child)
        } else {
            calls.len() == 1 && r == Err::<(), SidecarError>(SidecarError::ActiveStop)
        },
        None => started(calls, r, child),
    }
}

/// `calls` are a `run`, then `ready` of the child it started, then, where
/// that child did not become ready, its `stop`; `r` and `child` are what
/// follows.
pub open spec fn started(calls: Seq<PortCall>, r: Result<(), SidecarError>, child: Option<u64>) -> bool {
    &&& calls.len() >= 1
    &&& calls[0] is Run
    &&& match calls[0]->Run_child {
        None => calls.len() == 1 && r == Err::<(), SidecarError>(SidecarError::Run),
        Some(id) => {
            &&& calls.len() >= 2
            &&& calls[1] == (PortCall::Ready { child: id, ok: calls[1]->Ready_ok })
            &&& if calls[1]->Ready_ok {
                calls.len() == 2 && r == Ok::<(), SidecarError>(()) && child == Some(id)
            } else {
                calls.len() == 3 && calls[2] == (PortCall::Stop { child: id, ok: calls[2]->Stop_ok }) && r
                    == Err::<(), SidecarError>(SidecarError::Ready)
            }
        },
    }
}

/// Owns the port, the running child and the configuration it runs.
pub struct SidecarRuntime<P> {
    port: P,
    lifecycle: SidecarLifecycle,
    child: Option<ManagedSidecar>,
    active: Option<GeneratedConfig>,
    prepared: Option<GeneratedConfig>,
    mixed_port: Option<u16>,
    /// Every request to the port, with its answer, in order.
    calls: Ghost<Seq<PortCall>>,
}

impl<P: SidecarPort> SidecarRuntime<P> {
    /// The runtime's lifecycle.
    pub closed spec fn lifecycle_view(&self) -> SidecarLifecycle {
        self.lifecycle
    }

    /// The local proxy port a ready child listens on, if this runtime has one.
    pub closed spec fn mixed_port_view(&self) -> Option<u16> {
        self.mixed_port
    }

    /// The identity the port gave the current child, if there is one.
    pub closed spec fn child_view(&self) -> Option<u64> {
        match self.child {
            Some(c) => Some(c.identity_view()),
            None => None,
        }
    }

    /// The configuration the ready child runs.
    pub closed spec fn active_view(&self) -> Option<Seq<u8>> {
        match self.active {
            Some(c) => Some(c.bytes_view()),
            None => None,
        }
    }

    /// The requests this runtime made of its port, with the answers, in
    /// order.
    pub closed spec fn port_calls(&self) -> Seq<PortCall> {
        self.calls@
    }

    /// The requests made of the port since `before`'s, where `self` only
    /// added to them.
    pub open spec fn calls_since(&self, before: &Self) -> Seq<PortCall> {
        self.port_calls().skip(before.port_calls().len() as int)
    }

    /// `self` made no request of the port beyond `before`'s.
    pub open spec fn extends(&self, before: &Self) -> bool {
        &&& self.port_calls().len() >= before.port_calls().len()
        &&& forall|i: int| 0 <= i < before.port_calls().len() ==> #[trigger] self.port_calls()[i] == before.port_calls()[i]
    }

    /// The checked candidate waiting to replace the running configuration.
    pub closed spec fn prepared_view(&self) -> Option<Seq<u8>> {
        match self.prepared {
            Some(c) => Some(c.bytes_view()),
            None => None,
        }
    }

    /// A ready runtime has a child and its configuration; a stopped one has
    /// neither.
    pub closed spec fn wf(&self) -> bool {
        &&& (self.lifecycle == SidecarLifecycle::Ready ==> self.child is Some && self.active is Some)
        &&& (self.lifecycle == SidecarLifecycle::Stopped ==> self.child is None && self.active is None)
        &&& (self.lifecycle == SidecarLifecycle::RecoveryRequired ==> self.active is None)
    }

    /// A stopped runtime whose ready child offers a local proxy on `mixed_port`.
    pub fn new(port: P, mixed_port: u16) -> (r: Self)
        requires
            mixed_port != 0,
        ensures
            r.wf(),
            r.lifecycle_view() == SidecarLifecycle::Stopped,
            r.prepared_view() is None,
            r.mixed_port_view() == Some(mixed_port),
    {
        SidecarRuntime {
            port,
            lifecycle: SidecarLifecycle::Stopped,
            child: None,
            active: None,
            prepared: None,
            mixed_port: Some(mixed_port),
            calls: Ghost(Seq::empty()),
        }
    }

    /// A stopped runtime that only observes: no local proxy.
    pub fn new_observation_only(port: P) -> (r: Self)
        ensures
            r.wf(),
            r.lifecycle_view() == SidecarLifecycle::Stopped,
            r.prepared_view() is None,
            r.mixed_port_view() is None,
    {
        SidecarRuntime {
            port,
            lifecycle: SidecarLifecycle::Stopped,
            child: None,
            active: None,
            prepared: None,
            mixed_port: None,
            calls: Ghost(Seq::empty()),
        }
    }

    /// The runtime's lifecycle.
    pub fn lifecycle(&self) -> (r: SidecarLifecycle)
        ensures
            r == self.lifecycle_view(),
    {
        self.lifecycle
    }

    /// The local proxy port, while the child is ready.
    pub fn mixed_port(&self) -> (r: Option<u16>)
        ensures
            r == (if self.lifecycle_view() == SidecarLifecycle::Ready {
                self.mixed_port_view()
            } else {
                None
            }),
    {
        if self.lifecycle == SidecarLifecycle::Ready {
            self.mixed_port
        } else {
            None
        }
    }

    /// The configuration of the ready child.
    pub fn active_config(&self) -> (r: Option<&GeneratedConfig>)
        ensures
            match r {
                Some(c) => self.active_view() == Some(c.bytes_view()),
                None => self.active_view() is None,
            },
    {
        match &self.active {
            Some(c) => Some(c),
            None => None,
        }
    }

    /// The identity of the current child.
    pub fn child_identity(&self) -> (r: Option<u64>)
        ensures
            r == self.child_view(),
    {
        match &self.child {
            Some(c) => Some(c.identity()),
            None => None,
        }
    }

    /// Gives the port back.
    pub fn into_port(self) -> P {
        self.port
    }

    /// `check` through the port, recorded.
    fn port_check(&mut self, config: &GeneratedConfig) -> (r: Result<(), SidecarPortError>)
        ensures
            final(self).port_calls() == old(self).port_calls().push(PortCall::Check { config: config.bytes_view(), ok: r is Ok }),
            final(self).lifecycle == old(self).lifecycle && final(self).child == old(self).child && final(self).active
                == old(self).active && final(self).prepared == old(self).prepared && final(self).mixed_port
                == old(self).mixed_port,
    {
        let r = self.port.check(config);
        self.calls = Ghost(self.calls@.push(PortCall::Check { config: config.bytes_view(), ok: r is Ok }));
        r
    }

    /// `prepare` through the port, recorded.
    fn port_prepare(&mut self, config: &GeneratedConfig) -> (r: Result<(), SidecarPortError>)
        ensures
            final(self).port_calls() == old(self).port_calls().push(PortCall::Prepare { config: config.bytes_view(), ok: r is Ok }),
            final(self).lifecycle == old(self).lifecycle && final(self).child == old(self).child && final(self).active
                == old(self).active && final(self).prepared == old(self).prepared && final(self).mixed_port
                == old(self).mixed_port,
    {
        let r = self.port.prepare(config);
        self.calls = Ghost(self.calls@.push(PortCall::Prepare { config: config.bytes_view(), ok: r is Ok }));
        r
    }

    /// `run` through the port, recorded.
    fn port_run(&mut self) -> (r: Result<ManagedSidecar, SidecarPortError>)
        ensures
            final(self).port_calls() == old(self).port_calls().push(
                PortCall::Run {
                    child: match r {
                        Ok(c) => Some(c.identity_view()),
                        Err(_) => None,
                    },
                },
            ),
            final(self).lifecycle == old(self).lifecycle && final(self).child == old(self).child && final(self).active
                == old(self).active && final(self).prepared == old(self).prepared && final(self).mixed_port
                == old(self).mixed_port,
    {
        let r = self.port.run();
        self.calls = Ghost(
            self.calls@.push(
                PortCall::Run {
                    child: match r {
                        Ok(c) => Some(c.identity_view()),
                        Err(_) => None,
                    },
                },
            ),
        );
        r
    }

    /// `ready` through the port, recorded.
    fn port_ready(&mut self, child: &ManagedSidecar) -> (r: Result<(), SidecarPortError>)
        ensures
            final(self).port_calls() == old(self).port_calls().push(PortCall::Ready { child: child.identity_view(), ok: r is Ok }),
            final(self).lifecycle == old(self).lifecycle && final(self).child == old(self).child && final(self).active
                == old(self).active && final(self).prepared == old(self).prepared && final(self).mixed_port
                == old(self).mixed_port,
    {
        let r = self.port.ready(child);
        self.calls = Ghost(self.calls@.push(PortCall::Ready { child: child.identity_view(), ok: r is Ok }));
        r
    }

    /// `stop` through the port, recorded.
    fn port_stop(&mut self, child: &ManagedSidecar) -> (r: Result<(), SidecarPortError>)
        ensures
            final(self).port_calls() == old(self).port_calls().push(PortCall::Stop { child: child.identity_view(), ok: r is Ok }),
            final(self).lifecycle == old(self).lifecycle && final(self).child == old(self).child && final(self).active
                == old(self).active && final(self).prepared == old(self).prepared && final(self).mixed_port
                == old(self).mixed_port,
    {
        let r = self.port.stop(child);
        self.calls = Ghost(self.calls@.push(PortCall::Stop { child: child.identity_view(), ok: r is Ok }));
        r
    }

    /// Replaces a ready child by one running `candidate`, already checked
    /// and prepared: the ready child is stopped first (if that fails the
    /// runtime requires recovery); a child that starts but does not become
    /// ready is stopped again, and if that fails too the runtime requires
    /// recovery.
    fn launch(&mut self, candidate: GeneratedConfig) -> (r: Result<(), SidecarError>)
        requires
            old(self).wf(),
            old(self).lifecycle_view() != SidecarLifecycle::RecoveryRequired,
        ensures
            final(self).wf(),
            final(self).mixed_port_view() == old(self).mixed_port_view(),
            final(self).prepared_view() == old(self).prepared_view(),
            r is Ok ==> final(self).lifecycle_view() == SidecarLifecycle::Ready
                && final(self).active_view() == Some(candidate.bytes_view()),
            r is Err ==> r == Err::<(), SidecarError>(SidecarError::ActiveStop) || r == Err::<(), SidecarError>(
                SidecarError::Run,
            ) || r == Err::<(), SidecarError>(SidecarError::Ready),
            r == Err::<(), SidecarError>(SidecarError::ActiveStop) ==> final(self).lifecycle_view()
                == SidecarLifecycle::RecoveryRequired,
            r == Err::<(), SidecarError>(SidecarError::Run) ==> final(self).lifecycle_view()
                == SidecarLifecycle::Stopped,
            r == Err::<(), SidecarError>(SidecarError::Ready) ==> final(self).lifecycle_view()
                != SidecarLifecycle::Ready,
            r == Err::<(), SidecarError>(SidecarError::Ready) ==> final(self).lifecycle_view() == (if final(self).port_calls().last()->Stop_ok {
                SidecarLifecycle::Stopped
            } else {
                SidecarLifecycle::RecoveryRequired
            }),
            final(self).extends(old(self)),
            launched(old(self).child_view(), final(self).calls_since(old(self)), r, final(self).child_view()),
    {
        if let Some(old_child) = self.child {
            if self.port_stop(&old_child).is_err() {
                self.lifecycle = SidecarLifecycle::RecoveryRequired;
                self.active = None;
                return Err(SidecarError::ActiveStop);
            }
            self.child = None;
            self.active = None;
            self.lifecycle = SidecarLifecycle::Stopped;
        }
        let child = match self.port_run() {
            Ok(child) => child,
            Err(_) => {
                return Err(SidecarError::Run);
            },
        };
        if self.port_ready(&child).is_err() {
            if self.port_stop(&child).is_err() {
                self.child = Some(child);
                self.lifecycle = SidecarLifecycle::RecoveryRequired;
            }
            return Err(SidecarError::Ready);
        }
        self.child = Some(child);
        self.active = Some(candidate);
        self.lifecycle = SidecarLifecycle::Ready;
        Ok(())
    }

    /// Starts the candidate, replacing a ready child.
    ///
    /// The candidate is checked and prepared first; a refusal there changes
    /// nothing. A ready child is then stopped (if that fails the runtime
    /// requires recovery). A child that starts but does not become ready is
    /// stopped again, and if that fails too the runtime requires recovery.
    pub fn start_or_replace(&mut self, candidate: GeneratedConfig) -> (r: Result<(), SidecarError>)
        requires
            old(self).wf(),
        ensures
            final(self).wf(),
            final(self).mixed_port_view() == old(self).mixed_port_view(),
            final(self).prepared_view() == old(self).prepared_view(),
            old(self).lifecycle_view() == SidecarLifecycle::RecoveryRequired <==> r == Err::<(), SidecarError>(
                SidecarError::RecoveryRequired,
            ),
            old(self).lifecycle_view() == SidecarLifecycle::RecoveryRequired ==> final(self).lifecycle_view()
                == old(self).lifecycle_view(),
            r is Ok ==> final(self).lifecycle_view() == SidecarLifecycle::Ready
                && final(self).active_view() == Some(candidate.bytes_view()),
            (r == Err::<(), SidecarError>(SidecarError::CandidateCheck) || r == Err::<(), SidecarError>(
                SidecarError::CandidatePrepare,
            )) ==> final(self).lifecycle_view() == old(self).lifecycle_view()
                && final(self).active_view() == old(self).active_view(),
            r == Err::<(), SidecarError>(SidecarError::ActiveStop) ==> final(self).lifecycle_view()
                == SidecarLifecycle::RecoveryRequired,
            r == Err::<(), SidecarError>(SidecarError::Run) ==> final(self).lifecycle_view()
                == SidecarLifecycle::Stopped,
            r == Err::<(), SidecarError>(SidecarError::Ready) ==> final(self).lifecycle_view()
                != SidecarLifecycle::Ready,
            r == Err::<(), SidecarError>(SidecarError::Ready) ==> final(self).lifecycle_view() == (if final(self).port_calls().last()->Stop_ok {
                SidecarLifecycle::Stopped
            } else {
                SidecarLifecycle::RecoveryRequired
            }),
            final(self).extends(old(self)),
            old(self).lifecycle_view() == SidecarLifecycle::RecoveryRequired ==> final(self).port_calls()
                == old(self).port_calls(),
            old(self).lifecycle_view() != SidecarLifecycle::RecoveryRequired ==> started_from(
                candidate.bytes_view(),
                old(self).child_view(),
                final(self).calls_since(old(self)),
                r,
                final(self).child_view(),
            ),
    {
        if self.lifecycle == SidecarLifecycle::RecoveryRequired {
            return Err(SidecarError::RecoveryRequired);
        }
        if self.port_check(&candidate).is_err() {
            return Err(SidecarError::CandidateCheck);
        }
        if self.port_prepare(&candidate).is_err() {
            return Err(SidecarError::CandidatePrepare);
        }
        self.launch(candidate)
    }

    /// Checks and prepares `candidate` to replace the running configuration
    /// later, leaving the running child as it is. A runtime requiring
    /// recovery refuses; a refused check or preparation leaves nothing
    /// prepared.
    pub fn prepare_replacement(&mut self, candidate: GeneratedConfig) -> (r: Result<(), SidecarError>)
        requires
            old(self).wf(),
        ensures
            final(self).wf(),
            final(self).mixed_port_view() == old(self).mixed_port_view(),
            final(self).lifecycle_view() == old(self).lifecycle_view(),
            final(self).active_view() == old(self).active_view(),
            final(self).child_view() == old(self).child_view(),
            old(self).lifecycle_view() == SidecarLifecycle::RecoveryRequired <==> r == Err::<(), SidecarError>(
                SidecarError::RecoveryRequired,
            ),
            r is Ok ==> final(self).prepared_view() == Some(candidate.bytes_view()),
            r is Err ==> final(self).prepared_view() is None && (r == Err::<(), SidecarError>(
                SidecarError::RecoveryRequired,
            ) || r == Err::<(), SidecarError>(SidecarError::CandidateCheck) || r == Err::<(), SidecarError>(
                SidecarError::CandidatePrepare,
            )),
            final(self).extends(old(self)),
            old(self).lifecycle_view() == SidecarLifecycle::RecoveryRequired ==> final(self).port_calls()
                == old(self).port_calls(),
            old(self).lifecycle_view() != SidecarLifecycle::RecoveryRequired ==> checked_and_prepared(
                candidate.bytes_view(),
                final(self).calls_since(old(self)),
                r,
            ),
    {
        self.prepared = None;
        if self.lifecycle == SidecarLifecycle::RecoveryRequired {
            return Err(SidecarError::RecoveryRequired);
        }
        if self.port_check(&candidate).is_err() {
            return Err(SidecarError::CandidateCheck);
        }
        if self.port_prepare(&candidate).is_err() {
            return Err(SidecarError::CandidatePrepare);
        }
        self.prepared = Some(candidate);
        Ok(())
    }

    /// Drops the prepared candidate. A running child's configuration is
    /// prepared again so that a later start runs it; if that fails the
    /// runtime requires recovery.
    pub fn cancel_prepared(&mut self) -> (r: Result<(), SidecarError>)
        requires
            old(self).wf(),
        ensures
            final(self).wf(),
            final(self).mixed_port_view() == old(self).mixed_port_view(),
            final(self).prepared_view() is None,
            r is Ok ==> final(self).lifecycle_view() == old(self).lifecycle_view()
                && final(self).active_view() == old(self).active_view(),
            r is Err ==> r == Err::<(), SidecarError>(SidecarError::RecoveryRequired)
                && final(self).lifecycle_view() == SidecarLifecycle::RecoveryRequired,
            final(self).extends(old(self)),
            match old(self).active_view() {
                Some(config) => final(self).calls_since(old(self)) == seq![PortCall::Prepare { config, ok: r is Ok }],
                None => final(self).port_calls() == old(self).port_calls() && r is Ok,
            },
    {
        self.prepared = None;
        let restore = match self.active.take() {
            Some(active) => {
                let failed = self.port_prepare(&active).is_err();
                self.active = Some(active);
                failed
            },
            None => false,
        };
        if restore {
            self.lifecycle = SidecarLifecycle::RecoveryRequired;
            self.active = None;
            return Err(SidecarError::RecoveryRequired);
        }
        Ok(())
    }

    /// Replaces the running child by one running the prepared candidate, as
    /// [`Self::start_or_replace`] does after its checks. Without a prepared
    /// candidate nothing changes.
    pub fn commit_prepared(&mut self) -> (r: Result<(), SidecarError>)
        requires
            old(self).wf(),
        ensures
            final(self).wf(),
            final(self).mixed_port_view() == old(self).mixed_port_view(),
            final(self).prepared_view() is None,
            old(self).lifecycle_view() == SidecarLifecycle::RecoveryRequired ==> r == Err::<(), SidecarError>(
                SidecarError::RecoveryRequired,
            ) && final(self).lifecycle_view() == old(self).lifecycle_view(),
            old(self).lifecycle_view() != SidecarLifecycle::RecoveryRequired && old(self).prepared_view() is None
                ==> r == Err::<(), SidecarError>(SidecarError::CandidatePrepare) && final(self).lifecycle_view()
                == old(self).lifecycle_view() && final(self).active_view() == old(self).active_view(),
            r is Ok ==> final(self).lifecycle_view() == SidecarLifecycle::Ready && final(self).active_view()
                == old(self).prepared_view(),
            old(self).lifecycle_view() != SidecarLifecycle::RecoveryRequired && old(self).prepared_view() is Some
                && r is Err ==> r == Err::<(), SidecarError>(SidecarError::ActiveStop) || r == Err::<(), SidecarError>(
                SidecarError::Run,
            ) || r == Err::<(), SidecarError>(SidecarError::Ready),
            r == Err::<(), SidecarError>(SidecarError::ActiveStop) ==> final(self).lifecycle_view()
                == SidecarLifecycle::RecoveryRequired,
            r == Err::<(), SidecarError>(SidecarError::Run) ==> final(self).lifecycle_view()
                == SidecarLifecycle::Stopped,
            r == Err::<(), SidecarError>(SidecarError::Ready) ==> final(self).lifecycle_view()
                != SidecarLifecycle::Ready,
            r == Err::<(), SidecarError>(SidecarError::Ready) ==> final(self).lifecycle_view() == (if final(self).port_calls().last()->Stop_ok {
                SidecarLifecycle::Stopped
            } else {
                SidecarLifecycle::RecoveryRequired
            }),
            final(self).extends(old(self)),
            old(self).lifecycle_view() == SidecarLifecycle::RecoveryRequired || old(self).prepared_view() is None
                ==> final(self).port_calls() == old(self).port_calls(),
            old(self).lifecycle_view() != SidecarLifecycle::RecoveryRequired && old(self).prepared_view() is Some
                ==> launched(old(self).child_view(), final(self).calls_since(old(self)), r, final(self).child_view()),
    {
        if self.lifecycle == SidecarLifecycle::RecoveryRequired {
            self.prepared = None;
            return Err(SidecarError::RecoveryRequired);
        }
        let candidate = match self.prepared.take() {
            Some(c) => c,
            None => {
                return Err(SidecarError::CandidatePrepare);
            },
        };
        self.launch(candidate)
    }

    /// Stops the child, if any. A failed stop leaves the runtime requiring
    /// recovery.
    pub fn stop(&mut self) -> (r: Result<(), SidecarError>)
        requires
            old(self).wf(),
        ensures
            final(self).wf(),
            final(self).mixed_port_view() == old(self).mixed_port_view(),
            final(self).prepared_view() == old(self).prepared_view(),
            r is Ok <==> final(self).lifecycle_view() == SidecarLifecycle::Stopped,
            r is Err ==> r == Err::<(), SidecarError>(SidecarError::ActiveStop)
                && final(self).lifecycle_view() == SidecarLifecycle::RecoveryRequired,
            final(self).extends(old(self)),
            match old(self).child_view() {
                Some(c) => final(self).calls_since(old(self)) == seq![PortCall::Stop { child: c, ok: r is Ok }]
                    && final(self).port_calls().last() == (PortCall::Stop { child: c, ok: r is Ok }),
                None => final(self).port_calls() == old(self).port_calls() && r is Ok,
            },
            old(self).lifecycle_view() == SidecarLifecycle::Ready ==> old(self).child_view() is Some,
    {
        if let Some(child) = self.child {
            if self.port_stop(&child).is_err() {
                self.lifecycle = SidecarLifecycle::RecoveryRequired;
                self.active = None;
                return Err(SidecarError::ActiveStop);
            }
        }
        self.child = None;
        self.active = None;
        self.lifecycle = SidecarLifecycle::Stopped;
        Ok(())
    }
}

} // verus!
