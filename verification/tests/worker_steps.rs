use veyra::activation::PersistStep;
use veyra::document_apply::DocumentSaveError;
use veyra::managed_runtime::ActivationError;
use veyra::subscription_management::DocumentOperationError;
use veyra::worker_steps::{
    activation_step, document_save_step, ActivationAction, ActivationEvent, ActivationStage,
    DocumentSaveAction, DocumentSaveEvent, DocumentSaveStage,
};

fn run_activation(events: &[ActivationEvent]) -> Vec<ActivationAction> {
    let mut stage = ActivationStage::Preparing;
    let mut actions = Vec::new();
    for event in events {
        let (next, action) = activation_step(stage, *event);
        stage = next;
        actions.push(action);
    }
    actions
}

fn run_document_save(events: &[DocumentSaveEvent]) -> Vec<DocumentSaveAction> {
    let mut stage = DocumentSaveStage::Loading;
    let mut actions = Vec::new();
    for event in events {
        let (next, action) = document_save_step(stage, *event);
        stage = next;
        actions.push(action);
    }
    actions
}

#[test]
fn an_activation_persists_after_reading_no_cancellation_and_then_finishes() {
    assert_eq!(
        run_activation(&[
            ActivationEvent::PrepareEnded { answered: false },
            ActivationEvent::CancelRead { cancelled: false },
            ActivationEvent::PersistEnded { outcome: Ok(PersistStep::Save) },
        ]),
        vec![ActivationAction::ReadCancel, ActivationAction::Persist, ActivationAction::Finish]
    );
}

#[test]
fn a_cancelled_or_unpersisted_activation_is_abandoned_with_its_error() {
    assert_eq!(
        run_activation(&[
            ActivationEvent::PrepareEnded { answered: false },
            ActivationEvent::CancelRead { cancelled: true },
            ActivationEvent::PersistEnded { outcome: Ok(PersistStep::Save) },
        ]),
        vec![
            ActivationAction::ReadCancel,
            ActivationAction::Abandon { error: None },
            ActivationAction::Ignore
        ]
    );
    assert_eq!(
        run_activation(&[
            ActivationEvent::PrepareEnded { answered: false },
            ActivationEvent::CancelRead { cancelled: false },
            ActivationEvent::PersistEnded { outcome: Err(ActivationError::SaveFailed) },
        ])[2],
        ActivationAction::Abandon { error: Some(ActivationError::SaveFailed) }
    );
    assert_eq!(
        run_activation(&[ActivationEvent::PrepareEnded { answered: true }]),
        vec![ActivationAction::AnswerPrepared]
    );
}

#[test]
fn a_document_save_times_out_before_anything_is_written() {
    assert_eq!(
        run_document_save(&[
            DocumentSaveEvent::Loaded { error: None },
            DocumentSaveEvent::Prepared { error: None },
            DocumentSaveEvent::DeadlineRead { passed: true },
        ])[2],
        DocumentSaveAction::Fail { error: DocumentSaveError::OperationTimedOut }
    );
    assert_eq!(
        run_document_save(&[DocumentSaveEvent::Loaded { error: Some(DocumentOperationError::Busy) }]),
        vec![DocumentSaveAction::Fail { error: DocumentSaveError::Busy }]
    );
}

#[test]
fn a_shutdown_before_the_commit_gives_the_prepared_configuration_up_as_busy() {
    let events = [
        DocumentSaveEvent::Loaded { error: None },
        DocumentSaveEvent::Prepared { error: None },
        DocumentSaveEvent::DeadlineRead { passed: false },
        DocumentSaveEvent::ApplyDecided { needed: true },
        DocumentSaveEvent::Configured { ok: true },
        DocumentSaveEvent::RuntimePrepared { refused: false },
        DocumentSaveEvent::InterruptRead { deadline_passed: true, shutdown: true },
    ];
    assert_eq!(
        run_document_save(&events)[6],
        DocumentSaveAction::Abandon { error: DocumentSaveError::Busy }
    );
}

#[test]
fn a_committed_document_switches_the_runtime_unless_the_deadline_passed() {
    let mut events = vec![
        DocumentSaveEvent::Loaded { error: None },
        DocumentSaveEvent::Prepared { error: None },
        DocumentSaveEvent::DeadlineRead { passed: false },
        DocumentSaveEvent::ApplyDecided { needed: true },
        DocumentSaveEvent::Configured { ok: true },
        DocumentSaveEvent::RuntimePrepared { refused: false },
        DocumentSaveEvent::InterruptRead { deadline_passed: false, shutdown: false },
        DocumentSaveEvent::Committed { error: None },
        DocumentSaveEvent::DeadlineRead { passed: false },
    ];
    assert_eq!(
        run_document_save(&events),
        vec![
            DocumentSaveAction::Prepare,
            DocumentSaveAction::ReadDeadline,
            DocumentSaveAction::DecideApply,
            DocumentSaveAction::Configure,
            DocumentSaveAction::PrepareRuntime,
            DocumentSaveAction::ReadInterrupt,
            DocumentSaveAction::Commit,
            DocumentSaveAction::MarkPersisted,
            DocumentSaveAction::Finish,
        ]
    );
    events[8] = DocumentSaveEvent::DeadlineRead { passed: true };
    assert_eq!(run_document_save(&events)[8], DocumentSaveAction::Expire);
    assert_eq!(
        run_document_save(&[
            DocumentSaveEvent::Loaded { error: None },
            DocumentSaveEvent::Prepared { error: None },
            DocumentSaveEvent::DeadlineRead { passed: false },
            DocumentSaveEvent::ApplyDecided { needed: false },
            DocumentSaveEvent::Committed { error: None },
        ])[4],
        DocumentSaveAction::Saved
    );
}
