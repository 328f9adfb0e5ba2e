//! The order of the runtime worker's steps for an activation and for a
//! document save. The worker performs each action (runtime calls, storage
//! under the state lock, reading the clock and the cancellation flags) and
//! hands back what came of it; these functions decide what comes next.
use vstd::prelude::*;

use crate::activation::PersistStep;
use crate::document_apply::{map_document_error, save_error_of, DocumentSaveError};
use crate::managed_runtime::ActivationError;
use crate::subscription_management::DocumentOperationError;

verus! {

// ---------------------------------------------------------------------------
// Activation
// ---------------------------------------------------------------------------

/// Where an activation on the worker stands.
#[derive(Clone, Copy, Debug, PartialEq, Eq, Structural)]
pub enum ActivationStage {
    /// The candidate is being prepared in the runtime.
    Preparing,
    /// The candidate is prepared; the cancellation flags are being read.
    Prepared,
    /// Nothing cancelled it; the candidate is being persisted.
    Persisting,
    /// The activation is over.
    Done,
}

/// What came of the worker's last action for an activation.
#[derive(Clone, Copy, Debug, PartialEq, Eq)]
pub enum ActivationEvent {
    /// The runtime ended the preparation; `answered` where it already gave
    /// the activation's answer (a refused candidate).
    PrepareEnded { answered: bool },
    /// The cancellation flags were read.
    CancelRead { cancelled: bool },
    /// Persisting the candidate under the state lock ended.
    PersistEnded { outcome: Result<PersistStep, ActivationError> },
}

/// What the worker does next for an activation.
#[derive(Clone, Copy, Debug, PartialEq, Eq, Structural)]
pub enum ActivationAction {
    /// Read the cancellation flags.
    ReadCancel,
    /// Persist the candidate under the state lock.
    Persist,
    /// Answer with what the preparation gave.
    AnswerPrepared,
    /// Give up the prepared candidate, with the error that ended it (none
    /// for a cancellation).
    Abandon { error: Option<ActivationError> },
    /// Replace the running child with the prepared candidate.
    Finish,
    /// The event does not belong to this stage; nothing is done.
    Ignore,
}

/// The next stage and action of an activation at `stage` after `event`.
pub open spec fn activation_transition(stage: ActivationStage, event: ActivationEvent) -> (
    ActivationStage,
    ActivationAction,
) {
    match (stage, event) {
        (ActivationStage::Preparing, ActivationEvent::PrepareEnded { answered }) => if answered {
            (ActivationStage::Done, ActivationAction::AnswerPrepared)
        } else {
            (ActivationStage::Prepared, ActivationAction::ReadCancel)
        },
        (ActivationStage::Prepared, ActivationEvent::CancelRead { cancelled }) => if cancelled {
            (ActivationStage::Done, ActivationAction::Abandon { error: None })
        } else {
            (ActivationStage::Persisting, ActivationAction::Persist)
        },
        (ActivationStage::Persisting, ActivationEvent::PersistEnded { outcome }) => match outcome {
            Ok(PersistStep::Cancelled) => (ActivationStage::Done, ActivationAction::Abandon { error: None }),
            Err(e) => (ActivationStage::Done, ActivationAction::Abandon { error: Some(e) }),
            Ok(_) => (ActivationStage::Done, ActivationAction::Finish),
        },
        _ => (stage, ActivationAction::Ignore),
    }
}

/// Decides an activation's next step: a refused preparation is answered as
/// it stands; a prepared candidate is persisted only if no cancellation was
/// read, and the running child is replaced only once the candidate was
/// saved or found stored already; a cancellation or a failed persistence
/// gives the candidate up.
pub fn activation_step(stage: ActivationStage, event: ActivationEvent) -> (r: (ActivationStage, ActivationAction))
    ensures
        r == activation_transition(stage, event),
{
    match (stage, event) {
        (ActivationStage::Preparing, ActivationEvent::PrepareEnded { answered }) => if answered {
            (ActivationStage::Done, ActivationAction::AnswerPrepared)
        } else {
            (ActivationStage::Prepared, ActivationAction::ReadCancel)
        },
        (ActivationStage::Prepared, ActivationEvent::CancelRead { cancelled }) => if cancelled {
            (ActivationStage::Done, ActivationAction::Abandon { error: None })
        } else {
            (ActivationStage::Persisting, ActivationAction::Persist)
        },
        (ActivationStage::Persisting, ActivationEvent::PersistEnded { outcome }) => match outcome {
            Ok(PersistStep::Cancelled) => (ActivationStage::Done, ActivationAction::Abandon { error: None }),
            Err(e) => (ActivationStage::Done, ActivationAction::Abandon { error: Some(e) }),
            Ok(_) => (ActivationStage::Done, ActivationAction::Finish),
        },
        _ => (stage, ActivationAction::Ignore),
    }
}

/// The stage an activation reaches from the start through `events`, and
/// the actions decided on the way, one per event.
pub open spec fn activation_run(events: Seq<ActivationEvent>) -> (ActivationStage, Seq<ActivationAction>)
    decreases events.len(),
{
    if events.len() == 0 {
        (ActivationStage::Preparing, Seq::empty())
    } else {
        let (stage, actions) = activation_run(events.drop_last());
        let (next, action) = activation_transition(stage, events.last());
        (next, actions.push(action))
    }
}

/// In every run of an activation from its start, the candidate is
/// persisted only right after a read of the cancellation flags that found
/// none, which itself follows a preparation the runtime did not answer; the
/// running child is replaced only after the candidate was persisted, when
/// persisting saved it or found it stored; and once the activation is over,
/// nothing more is done.
pub proof fn law_activation_order(events: Seq<ActivationEvent>)
    ensures
        ({
            let actions = activation_run(events).1;
            &&& actions.len() == events.len()
            &&& forall|k: int| 0 <= k < actions.len() && #[trigger] actions[k] == ActivationAction::Persist
                ==> events[k] == (ActivationEvent::CancelRead { cancelled: false }) && exists|i: int|
                0 <= i < k && #[trigger] events[i] == (ActivationEvent::PrepareEnded { answered: false })
            &&& forall|k: int| 0 <= k < actions.len() && #[trigger] actions[k] == ActivationAction::Finish
                ==> (events[k] matches ActivationEvent::PersistEnded { outcome: Ok(step) } && step
                != PersistStep::Cancelled) && exists|i: int|
                0 <= i < k && #[trigger] actions[i] == ActivationAction::Persist
            &&& forall|k: int, j: int|
                0 <= k < j < actions.len() && #[trigger] actions[k] != ActivationAction::Ignore
                    && activation_transition(activation_run(events.take(k)).0, events[k]).0
                    == ActivationStage::Done ==> #[trigger] actions[j] == ActivationAction::Ignore
        }),
    decreases events.len(),
{
    if events.len() > 0 {
        let prev = events.drop_last();
        law_activation_order(prev);
        lemma_activation_stage_history(prev);
        let (stage, actions) = activation_run(prev);
        let all = activation_run(events).1;
        assert(all == actions.push(activation_transition(stage, events.last()).1));
        assert forall|k: int| 0 <= k < prev.len() implies #[trigger] events.take(k) == prev.take(k) by {
            assert(events.take(k) =~= prev.take(k));
        }
        assert forall|k: int| 0 <= k < all.len() && #[trigger] all[k] == ActivationAction::Persist implies events[k]
            == (ActivationEvent::CancelRead { cancelled: false }) && exists|i: int|
            0 <= i < k && #[trigger] events[i] == (ActivationEvent::PrepareEnded { answered: false }) by {
            if k == prev.len() {
                let i = choose|i: int| 0 <= i < prev.len() && prev[i] == (ActivationEvent::PrepareEnded { answered: false });
                assert(events[i] == prev[i]);
            } else {
                assert(all[k] == actions[k]);
                assert(events[k] == prev[k]);
                let i = choose|i: int| 0 <= i < k && prev[i] == (ActivationEvent::PrepareEnded { answered: false });
                assert(events[i] == prev[i]);
            }
        }
        assert forall|k: int| 0 <= k < all.len() && #[trigger] all[k] == ActivationAction::Finish implies (
        events[k] matches ActivationEvent::PersistEnded { outcome: Ok(step) } && step != PersistStep::Cancelled)
            && exists|i: int| 0 <= i < k && #[trigger] all[i] == ActivationAction::Persist by {
            if k == prev.len() {
                let i = choose|i: int| 0 <= i < actions.len() && actions[i] == ActivationAction::Persist;
                assert(all[i] == actions[i]);
            } else {
                assert(all[k] == actions[k]);
                assert(events[k] == prev[k]);
                let i = choose|i: int| 0 <= i < k && actions[i] == ActivationAction::Persist;
                assert(all[i] == actions[i]);
            }
        }
        assert forall|k: int, j: int|
            0 <= k < j < all.len() && #[trigger] all[k] != ActivationAction::Ignore && activation_transition(
                activation_run(events.take(k)).0,
                events[k],
            ).0 == ActivationStage::Done implies #[trigger] all[j] == ActivationAction::Ignore by {
            assert(all[k] == actions[k]);
            assert(events[k] == prev[k]);
            lemma_activation_done_stays(prev, k);
            if j < prev.len() {
                assert(all[j] == actions[j]);
            }
        }
    }
}

/// What the stage an activation reached tells of its history.
proof fn lemma_activation_stage_history(events: Seq<ActivationEvent>)
    ensures
        ({
            let (stage, actions) = activation_run(events);
            &&& actions.len() == events.len()
            &&& (stage == ActivationStage::Prepared || stage == ActivationStage::Persisting) ==> exists|i: int|
                0 <= i < events.len() && #[trigger] events[i] == (ActivationEvent::PrepareEnded { answered: false })
            &&& stage == ActivationStage::Persisting ==> exists|i: int|
                0 <= i < actions.len() && #[trigger] actions[i] == ActivationAction::Persist
        }),
    decreases events.len(),
{
    if events.len() > 0 {
        let prev = events.drop_last();
        lemma_activation_stage_history(prev);
        let (stage, actions) = activation_run(prev);
        let (next, all) = activation_run(events);
        if next == ActivationStage::Prepared || next == ActivationStage::Persisting {
            if stage == ActivationStage::Prepared || stage == ActivationStage::Persisting {
                let i = choose|i: int| 0 <= i < prev.len() && prev[i] == (ActivationEvent::PrepareEnded { answered: false });
                assert(events[i] == prev[i]);
            } else {
                assert(events[prev.len() as int] == (ActivationEvent::PrepareEnded { answered: false }));
            }
        }
        if next == ActivationStage::Persisting {
            if stage == ActivationStage::Persisting {
                let i = choose|i: int| 0 <= i < actions.len() && actions[i] == ActivationAction::Persist;
                assert(all[i] == actions[i]);
            } else {
                assert(all[prev.len() as int] == ActivationAction::Persist);
            }
        }
    }
}

/// Once an activation is over, it stays over and decides nothing more.
proof fn lemma_activation_done_stays(events: Seq<ActivationEvent>, k: int)
    requires
        0 <= k < events.len(),
        activation_transition(activation_run(events.take(k)).0, events[k]).0 == ActivationStage::Done,
    ensures
        activation_run(events).0 == ActivationStage::Done,
        forall|j: int| k < j < events.len() ==> #[trigger] activation_run(events).1[j] == ActivationAction::Ignore,
    decreases events.len(),
{
    let prev = events.drop_last();
    if k == events.len() - 1 {
        assert(events.take(k) =~= prev);
    } else {
        assert(events.take(k) =~= prev.take(k));
        assert(prev[k] == events[k]);
        lemma_activation_done_stays(prev, k);
        let all = activation_run(events).1;
        let actions = activation_run(prev).1;
        lemma_activation_stage_history(prev);
        assert(all == actions.push(activation_transition(activation_run(prev).0, events.last()).1));
        assert forall|j: int| k < j < events.len() implies #[trigger] all[j] == ActivationAction::Ignore by {
            if j < prev.len() {
                assert(all[j] == actions[j]);
            }
        }
    }
}


// ---------------------------------------------------------------------------
// Document save
// ---------------------------------------------------------------------------

/// Where a document save on the worker stands.
#[derive(Clone, Copy, Debug, PartialEq, Eq, Structural)]
pub enum DocumentSaveStage {
    /// The stored state is being read under the state lock.
    Loading,
    /// The save is being prepared against the state read.
    Preparing,
    /// The clock is being read before anything is written.
    Checking,
    /// Whether the running configuration must follow is being decided.
    Deciding,
    /// The save is being committed; the runtime is left alone.
    CommittingOnly,
    /// The apply is queued; the new configuration and the runtime for it
    /// are being made.
    Configuring,
    /// The runtime is preparing the new configuration.
    PreparingRuntime,
    /// The clock and the shutdown flag are being read before the commit.
    Interrupting,
    /// The save is being committed with a prepared runtime waiting.
    Committing,
    /// Committed; the clock is being read before the runtime switches.
    Expiring,
    /// The save is over.
    Done,
}

/// What came of the worker's last action for a document save.
#[derive(Clone, Copy, Debug, PartialEq, Eq, Structural)]
pub enum DocumentSaveEvent {
    /// Reading the stored state ended, with the error where it failed.
    Loaded { error: Option<DocumentOperationError> },
    /// Preparing the save ended, with the error where it was refused.
    Prepared { error: Option<DocumentOperationError> },
    /// The clock was read: whether the save's deadline has passed.
    DeadlineRead { passed: bool },
    /// Whether the running configuration must follow the save.
    ApplyDecided { needed: bool },
    /// Committing the save ended, with the error where it failed.
    Committed { error: Option<DocumentOperationError> },
    /// Making the new configuration and its runtime ended; `ok` where both
    /// were made.
    Configured { ok: bool },
    /// The runtime ended preparing the configuration; `refused` where it
    /// already answered the save.
    RuntimePrepared { refused: bool },
    /// The clock and the shutdown flag were read.
    InterruptRead { deadline_passed: bool, shutdown: bool },
}

/// What the worker does next for a document save.
#[derive(Clone, Copy, Debug, PartialEq, Eq, Structural)]
pub enum DocumentSaveAction {
    /// Prepare the save against the state read.
    Prepare,
    /// Read the clock.
    ReadDeadline,
    /// Decide whether the running configuration must follow.
    DecideApply,
    /// Commit the save under the state lock.
    Commit,
    /// Answer with this error; nothing was written or applied.
    Fail { error: DocumentSaveError },
    /// Answer that the save was stored and nothing had to be applied.
    Saved,
    /// Queue the apply, then make the new configuration and its runtime.
    Configure,
    /// End the queued apply with this error.
    FailSwitch { error: DocumentSaveError },
    /// Let the runtime prepare the new configuration.
    PrepareRuntime,
    /// Answer with what the runtime's preparation gave.
    AnswerRefused,
    /// Read the clock and the shutdown flag.
    ReadInterrupt,
    /// Give up the prepared configuration with this error.
    Abandon { error: DocumentSaveError },
    /// Record that the save is persisted, then read the clock.
    MarkPersisted,
    /// The deadline passed after the commit: end the apply as expired.
    Expire,
    /// Switch the runtime to the prepared configuration.
    Finish,
    /// The event does not belong to this stage; nothing is done.
    Ignore,
}

/// The next stage and action of a document save at `stage` after `event`.
pub open spec fn document_save_transition(stage: DocumentSaveStage, event: DocumentSaveEvent) -> (
    DocumentSaveStage,
    DocumentSaveAction,
) {
    match (stage, event) {
        (DocumentSaveStage::Loading, DocumentSaveEvent::Loaded { error }) => match error {
            Some(e) => (DocumentSaveStage::Done, DocumentSaveAction::Fail { error: save_error_of(e) }),
            None => (DocumentSaveStage::Preparing, DocumentSaveAction::Prepare),
        },
        (DocumentSaveStage::Preparing, DocumentSaveEvent::Prepared { error }) => match error {
            Some(e) => (DocumentSaveStage::Done, DocumentSaveAction::Fail { error: save_error_of(e) }),
            None => (DocumentSaveStage::Checking, DocumentSaveAction::ReadDeadline),
        },
        (DocumentSaveStage::Checking, DocumentSaveEvent::DeadlineRead { passed }) => if passed {
            (DocumentSaveStage::Done, DocumentSaveAction::Fail { error: DocumentSaveError::OperationTimedOut })
        } else {
            (DocumentSaveStage::Deciding, DocumentSaveAction::DecideApply)
        },
        (DocumentSaveStage::Deciding, DocumentSaveEvent::ApplyDecided { needed }) => if needed {
            (DocumentSaveStage::Configuring, DocumentSaveAction::Configure)
        } else {
            (DocumentSaveStage::CommittingOnly, DocumentSaveAction::Commit)
        },
        (DocumentSaveStage::CommittingOnly, DocumentSaveEvent::Committed { error }) => match error {
            Some(e) => (DocumentSaveStage::Done, DocumentSaveAction::Fail { error: save_error_of(e) }),
            None => (DocumentSaveStage::Done, DocumentSaveAction::Saved),
        },
        (DocumentSaveStage::Configuring, DocumentSaveEvent::Configured { ok }) => if ok {
            (DocumentSaveStage::PreparingRuntime, DocumentSaveAction::PrepareRuntime)
        } else {
            (
                DocumentSaveStage::Done,
                DocumentSaveAction::FailSwitch { error: DocumentSaveError::ConfigurationFailed },
            )
        },
        (DocumentSaveStage::PreparingRuntime, DocumentSaveEvent::RuntimePrepared { refused }) => if refused {
            (DocumentSaveStage::Done, DocumentSaveAction::AnswerRefused)
        } else {
            (DocumentSaveStage::Interrupting, DocumentSaveAction::ReadInterrupt)
        },
        (DocumentSaveStage::Interrupting, DocumentSaveEvent::InterruptRead { deadline_passed, shutdown }) => if shutdown {
            (DocumentSaveStage::Done, DocumentSaveAction::Abandon { error: DocumentSaveError::Busy })
        } else if deadline_passed {
            (DocumentSaveStage::Done, DocumentSaveAction::Abandon { error: DocumentSaveError::OperationTimedOut })
        } else {
            (DocumentSaveStage::Committing, DocumentSaveAction::Commit)
        },
        (DocumentSaveStage::Committing, DocumentSaveEvent::Committed { error }) => match error {
            Some(e) => (DocumentSaveStage::Done, DocumentSaveAction::Abandon { error: save_error_of(e) }),
            None => (DocumentSaveStage::Expiring, DocumentSaveAction::MarkPersisted),
        },
        (DocumentSaveStage::Expiring, DocumentSaveEvent::DeadlineRead { passed }) => if passed {
            (DocumentSaveStage::Done, DocumentSaveAction::Expire)
        } else {
            (DocumentSaveStage::Done, DocumentSaveAction::Finish)
        },
        _ => (stage, DocumentSaveAction::Ignore),
    }
}

/// Decides a document save's next step. Reading and preparing come first,
/// and a failure there answers the save with nothing written; a deadline
/// that passed before anything is written times it out. A save that the
/// runtime need not follow is committed and answered. Otherwise the apply
/// is queued and the new configuration prepared in the runtime; a failure to
/// make it fails the apply as a configuration failure. Before the commit a
/// shutdown gives the prepared configuration up as busy, and a passed
/// deadline as timed out; a failed commit gives it up with the commit's
/// error. After the commit the save is recorded as persisted, and the
/// runtime switches unless the deadline passed meanwhile, which expires
/// the apply.
pub fn document_save_step(stage: DocumentSaveStage, event: DocumentSaveEvent) -> (r: (
    DocumentSaveStage,
    DocumentSaveAction,
))
    ensures
        r == document_save_transition(stage, event),
{
    match (stage, event) {
        (DocumentSaveStage::Loading, DocumentSaveEvent::Loaded { error }) => match error {
            Some(e) => (DocumentSaveStage::Done, DocumentSaveAction::Fail { error: map_document_error(e) }),
            None => (DocumentSaveStage::Preparing, DocumentSaveAction::Prepare),
        },
        (DocumentSaveStage::Preparing, DocumentSaveEvent::Prepared { error }) => match error {
            Some(e) => (DocumentSaveStage::Done, DocumentSaveAction::Fail { error: map_document_error(e) }),
            None => (DocumentSaveStage::Checking, DocumentSaveAction::ReadDeadline),
        },
        (DocumentSaveStage::Checking, DocumentSaveEvent::DeadlineRead { passed }) => if passed {
            (DocumentSaveStage::Done, DocumentSaveAction::Fail { error: DocumentSaveError::OperationTimedOut })
        } else {
            (DocumentSaveStage::Deciding, DocumentSaveAction::DecideApply)
        },
        (DocumentSaveStage::Deciding, DocumentSaveEvent::ApplyDecided { needed }) => if needed {
            (DocumentSaveStage::Configuring, DocumentSaveAction::Configure)
        } else {
            (DocumentSaveStage::CommittingOnly, DocumentSaveAction::Commit)
        },
        (DocumentSaveStage::CommittingOnly, DocumentSaveEvent::Committed { error }) => match error {
            Some(e) => (DocumentSaveStage::Done, DocumentSaveAction::Fail { error: map_document_error(e) }),
            None => (DocumentSaveStage::Done, DocumentSaveAction::Saved),
        },
        (DocumentSaveStage::Configuring, DocumentSaveEvent::Configured { ok }) => if ok {
            (DocumentSaveStage::PreparingRuntime, DocumentSaveAction::PrepareRuntime)
        } else {
            (
                DocumentSaveStage::Done,
                DocumentSaveAction::FailSwitch { error: DocumentSaveError::ConfigurationFailed },
            )
        },
        (DocumentSaveStage::PreparingRuntime, DocumentSaveEvent::RuntimePrepared { refused }) => if refused {
            (DocumentSaveStage::Done, DocumentSaveAction::AnswerRefused)
        } else {
            (DocumentSaveStage::Interrupting, DocumentSaveAction::ReadInterrupt)
        },
        (DocumentSaveStage::Interrupting, DocumentSaveEvent::InterruptRead { deadline_passed, shutdown }) => if shutdown {
            (DocumentSaveStage::Done, DocumentSaveAction::Abandon { error: DocumentSaveError::Busy })
        } else if deadline_passed {
            (DocumentSaveStage::Done, DocumentSaveAction::Abandon { error: DocumentSaveError::OperationTimedOut })
        } else {
            (DocumentSaveStage::Committing, DocumentSaveAction::Commit)
        },
        (DocumentSaveStage::Committing, DocumentSaveEvent::Committed { error }) => match error {
            Some(e) => (DocumentSaveStage::Done, DocumentSaveAction::Abandon { error: map_document_error(e) }),
            None => (DocumentSaveStage::Expiring, DocumentSaveAction::MarkPersisted),
        },
        (DocumentSaveStage::Expiring, DocumentSaveEvent::DeadlineRead { passed }) => if passed {
            (DocumentSaveStage::Done, DocumentSaveAction::Expire)
        } else {
            (DocumentSaveStage::Done, DocumentSaveAction::Finish)
        },
        _ => (stage, DocumentSaveAction::Ignore),
    }
}

/// The stage a document save reaches from the start through `events`, and
/// the actions decided on the way, one per event.
pub open spec fn document_save_run(events: Seq<DocumentSaveEvent>) -> (DocumentSaveStage, Seq<DocumentSaveAction>)
    decreases events.len(),
{
    if events.len() == 0 {
        (DocumentSaveStage::Loading, Seq::empty())
    } else {
        let (stage, actions) = document_save_run(events.drop_last());
        let (next, action) = document_save_transition(stage, events.last());
        (next, actions.push(action))
    }
}

/// In every run of a document save from its start, a commit is asked only
/// right after a decision that no apply is needed, or right after a read
/// that found neither a shutdown nor a passed deadline while a prepared
/// configuration waits; and the runtime switches, or the apply expires, only
/// after a commit that succeeded.
pub proof fn law_document_save_order(events: Seq<DocumentSaveEvent>)
    ensures
        ({
            let actions = document_save_run(events).1;
            &&& actions.len() == events.len()
            &&& forall|k: int| 0 <= k < actions.len() && #[trigger] actions[k] == DocumentSaveAction::Commit
                ==> events[k] == (DocumentSaveEvent::ApplyDecided { needed: false }) || events[k]
                == (DocumentSaveEvent::InterruptRead { deadline_passed: false, shutdown: false })
            &&& forall|k: int| 0 <= k < actions.len() && (#[trigger] actions[k] == DocumentSaveAction::Finish
                || actions[k] == DocumentSaveAction::Expire) ==> exists|i: int|
                0 <= i < k && #[trigger] events[i] == (DocumentSaveEvent::Committed { error: None })
                    && actions[i] == DocumentSaveAction::MarkPersisted
        }),
    decreases events.len(),
{
    if events.len() > 0 {
        let prev = events.drop_last();
        law_document_save_order(prev);
        lemma_document_save_history(prev);
        let (stage, actions) = document_save_run(prev);
        let all = document_save_run(events).1;
        assert(all == actions.push(document_save_transition(stage, events.last()).1));
        assert forall|k: int| 0 <= k < all.len() && #[trigger] all[k] == DocumentSaveAction::Commit implies events[k]
            == (DocumentSaveEvent::ApplyDecided { needed: false }) || events[k] == (DocumentSaveEvent::InterruptRead {
            deadline_passed: false,
            shutdown: false,
        }) by {
            if k < prev.len() {
                assert(all[k] == actions[k]);
                assert(events[k] == prev[k]);
            }
        }
        assert forall|k: int| 0 <= k < all.len() && (#[trigger] all[k] == DocumentSaveAction::Finish || all[k]
            == DocumentSaveAction::Expire) implies exists|i: int|
            0 <= i < k && #[trigger] events[i] == (DocumentSaveEvent::Committed { error: None }) && all[i]
                == DocumentSaveAction::MarkPersisted by {
            if k < prev.len() {
                assert(all[k] == actions[k]);
                let i = choose|i: int| 0 <= i < k && prev[i] == (DocumentSaveEvent::Committed { error: None }) && actions[i]
                    == DocumentSaveAction::MarkPersisted;
                assert(events[i] == prev[i] && all[i] == actions[i]);
            } else {
                let i = choose|i: int| 0 <= i < prev.len() && prev[i] == (DocumentSaveEvent::Committed { error: None }) && actions[i]
                    == DocumentSaveAction::MarkPersisted;
                assert(events[i] == prev[i] && all[i] == actions[i]);
            }
        }
    }
}

/// A document save waits for the clock after its commit only once a commit
/// succeeded and was recorded as persisted.
proof fn lemma_document_save_history(events: Seq<DocumentSaveEvent>)
    ensures
        ({
            let (stage, actions) = document_save_run(events);
            &&& actions.len() == events.len()
            &&& stage == DocumentSaveStage::Expiring ==> exists|i: int|
                0 <= i < events.len() && #[trigger] events[i] == (DocumentSaveEvent::Committed { error: None })
                    && actions[i] == DocumentSaveAction::MarkPersisted
        }),
    decreases events.len(),
{
    if events.len() > 0 {
        let prev = events.drop_last();
        lemma_document_save_history(prev);
        let (stage, actions) = document_save_run(prev);
        let (next, all) = document_save_run(events);
        assert(all == actions.push(document_save_transition(stage, events.last()).1));
        if next == DocumentSaveStage::Expiring {
            if stage == DocumentSaveStage::Expiring {
                let i = choose|i: int| 0 <= i < prev.len() && prev[i] == (DocumentSaveEvent::Committed { error: None }) && actions[i]
                    == DocumentSaveAction::MarkPersisted;
                assert(events[i] == prev[i] && all[i] == actions[i]);
            } else {
                assert(events[prev.len() as int] == (DocumentSaveEvent::Committed { error: None }));
            }
        }
    }
}

} // verus!
