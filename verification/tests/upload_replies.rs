use connect::upload_handling::{
    after_put, after_queue, body_read_failure, bootlog_file_key, crash_file_key,
    driving_log_file_key, storage_after_upload, upload_step, NextStep, PutDecision, Reply,
    ReplyMessage, UploadAction, UploadAuthError, UploadEvent, UploadState,
};
use connect::upload_tracker::UploadKind;

#[test]
fn file_keys_join_their_parts() {
    assert_eq!(bootlog_file_key("abc123", "boot.log"), "abc123_boot_boot.log");
    assert_eq!(
        crash_file_key("abc123", "42", "deadbeef", "core"),
        "abc123_crash_42_deadbeef_core"
    );
    assert_eq!(
        driving_log_file_key("abc123", "2024-01-01--12-00-00", "3", "qlog.bz2"),
        "abc123_2024-01-01--12-00-00--3--qlog.bz2"
    );
}

#[test]
fn failed_store_request_is_an_internal_error() {
    for kind in [UploadKind::DrivingLog, UploadKind::Crash, UploadKind::Bootlog] {
        let d = after_put(kind, None);
        assert!(!d.charge_storage);
        assert_eq!(
            d.next,
            NextStep::Respond(Reply { status: 500, message: ReplyMessage::SomethingWentWrong })
        );
        assert_eq!(ReplyMessage::SomethingWentWrong.text(), "Something went wrong");
    }
}

#[test]
fn duplicates_are_answered_or_queued() {
    assert_eq!(
        after_put(UploadKind::Bootlog, Some(403)),
        PutDecision {
            charge_storage: false,
            next: NextStep::Respond(Reply { status: 403, message: ReplyMessage::DuplicateFileUpload }),
        }
    );
    assert_eq!(
        after_put(UploadKind::Crash, Some(403)),
        PutDecision {
            charge_storage: false,
            next: NextStep::Respond(Reply { status: 403, message: ReplyMessage::DuplicateFileUpload }),
        }
    );
    assert_eq!(
        after_put(UploadKind::DrivingLog, Some(403)),
        PutDecision { charge_storage: false, next: NextStep::QueueWorker(403) }
    );
    assert_eq!(ReplyMessage::DuplicateFileUpload.text(), "Duplicate File Upload");
}

#[test]
fn stored_files_are_charged() {
    for status in [200u16, 201] {
        assert_eq!(
            after_put(UploadKind::Bootlog, Some(status)),
            PutDecision { charge_storage: true, next: NextStep::QueueWorker(status) }
        );
        assert_eq!(
            after_put(UploadKind::DrivingLog, Some(status)),
            PutDecision { charge_storage: true, next: NextStep::QueueWorker(status) }
        );
        assert_eq!(
            after_put(UploadKind::Crash, Some(status)),
            PutDecision {
                charge_storage: true,
                next: NextStep::Respond(Reply { status, message: ReplyMessage::FileUploaded }),
            }
        );
    }
    assert_eq!(ReplyMessage::FileUploaded.text(), "File uploaded.");
}

#[test]
fn other_statuses_are_unhandled() {
    for kind in [UploadKind::DrivingLog, UploadKind::Crash, UploadKind::Bootlog] {
        assert_eq!(
            after_put(kind, Some(502)),
            PutDecision {
                charge_storage: false,
                next: NextStep::Respond(Reply { status: 502, message: ReplyMessage::UnhandledStatus }),
            }
        );
    }
    assert_eq!(ReplyMessage::UnhandledStatus.text(), "Unhandled status. File not uploaded.");
}

#[test]
fn queue_outcome_decides_the_answer() {
    assert_eq!(after_queue(201, true), Reply { status: 201, message: ReplyMessage::QueuedWorker });
    assert_eq!(after_queue(403, true), Reply { status: 403, message: ReplyMessage::QueuedWorker });
    assert_eq!(
        after_queue(200, false),
        Reply { status: 500, message: ReplyMessage::FailedToQueueWorker }
    );
    assert_eq!(ReplyMessage::QueuedWorker.text(), "Queued Worker");
    assert_eq!(ReplyMessage::FailedToQueueWorker.text(), "Failed to queue worker.");
}

#[test]
fn unreadable_body_is_a_bad_request() {
    let r = body_read_failure();
    assert_eq!(r, Reply { status: 400, message: ReplyMessage::ErrorReadingBody });
    assert_eq!(r.message.text(), "Error reading request body");
}

#[test]
fn storage_grows_by_the_file_size() {
    assert_eq!(storage_after_upload(1000, 24), 1024);
    assert_eq!(storage_after_upload(0, 0), 0);
    assert_eq!(storage_after_upload(-5, 10), 5);
}


fn run(kind: UploadKind, events: &[UploadEvent]) -> Vec<UploadAction> {
    let mut state = UploadState::Start;
    let mut actions = Vec::new();
    for e in events {
        let (next, action) = upload_step(kind, state, *e);
        state = next;
        actions.push(action);
    }
    actions
}

#[test]
fn bootlog_request_runs_in_order() {
    let actions = run(
        UploadKind::Bootlog,
        &[
            UploadEvent::Authorized,
            UploadEvent::BodyRead(true),
            UploadEvent::StoreAnswered(Some(201)),
            UploadEvent::StorageCharged,
            UploadEvent::Queued(true),
        ],
    );
    assert_eq!(
        actions,
        vec![
            UploadAction::Receive,
            UploadAction::StopListingAndStore,
            UploadAction::ChargeStorage,
            UploadAction::QueueWorker,
            UploadAction::Answer(Reply { status: 201, message: ReplyMessage::QueuedWorker }),
        ]
    );
}

#[test]
fn refused_request_does_nothing_else() {
    let actions = run(
        UploadKind::DrivingLog,
        &[
            UploadEvent::Unauthorized(UploadAuthError::DongleMismatch),
            UploadEvent::Authorized,
            UploadEvent::BodyRead(true),
            UploadEvent::StoreAnswered(Some(200)),
        ],
    );
    assert_eq!(
        actions,
        vec![
            UploadAction::Refuse(UploadAuthError::DongleMismatch),
            UploadAction::Wait,
            UploadAction::Wait,
            UploadAction::Wait,
        ]
    );
}

#[test]
fn broken_body_is_never_stored() {
    let actions = run(
        UploadKind::Crash,
        &[UploadEvent::Authorized, UploadEvent::BodyRead(false), UploadEvent::StoreAnswered(Some(200))],
    );
    assert_eq!(
        actions,
        vec![
            UploadAction::Receive,
            UploadAction::StopListingAndAnswer(Reply { status: 400, message: ReplyMessage::ErrorReadingBody }),
            UploadAction::Wait,
        ]
    );
}

#[test]
fn duplicate_driving_log_is_queued_without_charge() {
    let actions = run(
        UploadKind::DrivingLog,
        &[
            UploadEvent::Authorized,
            UploadEvent::BodyRead(true),
            UploadEvent::StoreAnswered(Some(403)),
            UploadEvent::Queued(false),
        ],
    );
    assert_eq!(
        actions,
        vec![
            UploadAction::Receive,
            UploadAction::StopListingAndStore,
            UploadAction::QueueWorker,
            UploadAction::Answer(Reply { status: 500, message: ReplyMessage::FailedToQueueWorker }),
        ]
    );
}

#[test]
fn stored_crash_is_charged_then_answered() {
    let actions = run(
        UploadKind::Crash,
        &[
            UploadEvent::Authorized,
            UploadEvent::BodyRead(true),
            UploadEvent::StoreAnswered(Some(200)),
            UploadEvent::StorageCharged,
        ],
    );
    assert_eq!(
        actions,
        vec![
            UploadAction::Receive,
            UploadAction::StopListingAndStore,
            UploadAction::ChargeStorage,
            UploadAction::Answer(Reply { status: 200, message: ReplyMessage::FileUploaded }),
        ]
    );
}
