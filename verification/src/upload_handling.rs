//! The decisions of the upload endpoints: who may upload, under which key a file
//! is stored, what is charged to the device, and what the device is answered.

use crate::devices::DM;
use crate::upload_tracker::UploadKind;
use vstd::prelude::*;
use vstd::string::*;

verus! {

/// Why an upload is refused.
#[derive(Clone, Copy, Debug, PartialEq, Eq, Structural)]
pub enum UploadAuthError {
    MissingDeviceAuth,
    UploadsDisabled,
    DongleMismatch,
}

/// The outcome of checking an upload of `request_dongle_id` by `device`: a request
/// without a device identity is refused first, then a device whose uploads are
/// disabled, then a device that uploads for another dongle id.
pub open spec fn upload_auth(device: Option<DM>, request_dongle_id: Seq<char>) -> Result<(), UploadAuthError> {
    match device {
        None => Err(UploadAuthError::MissingDeviceAuth),
        Some(d) => if !d.uploads_allowed {
            Err(UploadAuthError::UploadsDisabled)
        } else if d.dongle_id@ != request_dongle_id {
            Err(UploadAuthError::DongleMismatch)
        } else {
            Ok(())
        },
    }
}

/// Checks whether `device_model` may upload files of `request_dongle_id`.
pub fn validate_upload_auth(device_model: Option<&DM>, request_dongle_id: &str) -> (r: Result<(), UploadAuthError>)
    ensures
        r == upload_auth(
            match device_model {
                Some(d) => Some(*d),
                None => None,
            },
            request_dongle_id@,
        ),
{
    match device_model {
        None => Err(UploadAuthError::MissingDeviceAuth),
        Some(device_model) => {
            if !device_model.uploads_allowed {
                return Err(UploadAuthError::UploadsDisabled);
            }
            let requested = String::from_str(request_dongle_id);
            if !(device_model.dongle_id == requested) {
                return Err(UploadAuthError::DongleMismatch);
            }
            Ok(())
        },
    }
}

/// How a refused upload is answered.
#[derive(Clone, Copy, Debug, PartialEq, Eq, Structural)]
pub enum RejectionKind {
    Unauthorized,
    BadRequest,
}

/// The answer to a refused upload.
#[derive(Clone, Copy, Debug)]
pub struct AuthRejection {
    pub kind: RejectionKind,
    pub message: &'static str,
}

/// The kind of answer to a refusal: a mismatched dongle id is a bad request, the
/// other refusals are unauthorized.
pub open spec fn rejection_kind(e: UploadAuthError) -> RejectionKind {
    match e {
        UploadAuthError::DongleMismatch => RejectionKind::BadRequest,
        _ => RejectionKind::Unauthorized,
    }
}

/// The text of the answer to a refusal.
pub open spec fn rejection_text(e: UploadAuthError) -> Seq<char> {
    match e {
        UploadAuthError::MissingDeviceAuth => "Only registered devices can upload"@,
        UploadAuthError::UploadsDisabled => "Uploads ignored"@,
        UploadAuthError::DongleMismatch => "dongle_id does not match identity"@,
    }
}

/// The answer to the refusal `e`.
pub fn rejection_for(e: UploadAuthError) -> (r: AuthRejection)
    ensures
        r.kind == rejection_kind(e),
        r.message@ == rejection_text(e),
{
    match e {
        UploadAuthError::MissingDeviceAuth => AuthRejection {
            kind: RejectionKind::Unauthorized,
            message: "Only registered devices can upload",
        },
        UploadAuthError::UploadsDisabled => AuthRejection {
            kind: RejectionKind::Unauthorized,
            message: "Uploads ignored",
        },
        UploadAuthError::DongleMismatch => AuthRejection {
            kind: RejectionKind::BadRequest,
            message: "dongle_id does not match identity",
        },
    }
}

/// Checks an upload and gives the answer to send when it is refused.
pub fn enforce_upload_auth(device_model: Option<&DM>, request_dongle_id: &str) -> (r: Result<(), AuthRejection>)
    ensures
        match upload_auth(
            match device_model {
                Some(d) => Some(*d),
                None => None,
            },
            request_dongle_id@,
        ) {
            Ok(()) => r is Ok,
            Err(e) => r matches Err(rej) && rej.kind == rejection_kind(e) && rej.message@
                == rejection_text(e),
        },
{
    match validate_upload_auth(device_model, request_dongle_id) {
        Ok(()) => Ok(()),
        Err(e) => Err(rejection_for(e)),
    }
}

/// The key under which a boot log is stored.
pub fn bootlog_file_key(dongle_id: &str, file: &str) -> (key: String)
    ensures
        key@ == dongle_id@ + "_boot_"@ + file@,
{
    let mut key = String::from_str(dongle_id);
    key.append("_boot_");
    key.append(file);
    key
}

/// The key under which a crash report is stored.
pub fn crash_file_key(dongle_id: &str, log_id: &str, commit: &str, name: &str) -> (key: String)
    ensures
        key@ == dongle_id@ + "_crash_"@ + log_id@ + "_"@ + commit@ + "_"@ + name@,
{
    let mut key = String::from_str(dongle_id);
    key.append("_crash_");
    key.append(log_id);
    key.append("_");
    key.append(commit);
    key.append("_");
    key.append(name);
    key
}

/// The key under which a file of a driving-log segment is stored.
pub fn driving_log_file_key(dongle_id: &str, timestamp: &str, segment: &str, file: &str) -> (key: String)
    ensures
        key@ == dongle_id@ + "_"@ + timestamp@ + "--"@ + segment@ + "--"@ + file@,
{
    let mut key = String::from_str(dongle_id);
    key.append("_");
    key.append(timestamp);
    key.append("--");
    key.append(segment);
    key.append("--");
    key.append(file);
    key
}

/// The storage a device uses after a file of `data_len` bytes was stored for it.
pub fn storage_after_upload(prev_server_usage: i64, data_len: usize) -> (r: i64)
    requires
        data_len <= i64::MAX,
        i64::MIN <= prev_server_usage + data_len <= i64::MAX,
    ensures
        r == prev_server_usage + data_len,
{
    (data_len as i64) + prev_server_usage
}

pub const STATUS_OK: u16 = 200;

pub const STATUS_CREATED: u16 = 201;

pub const STATUS_BAD_REQUEST: u16 = 400;

pub const STATUS_FORBIDDEN: u16 = 403;

pub const STATUS_INTERNAL_SERVER_ERROR: u16 = 500;

/// The texts that an upload is answered with.
#[derive(Clone, Copy, Debug, PartialEq, Eq, Structural)]
pub enum ReplyMessage {
    ErrorReadingBody,
    DuplicateFileUpload,
    QueuedWorker,
    FailedToQueueWorker,
    UnhandledStatus,
    SomethingWentWrong,
    FileUploaded,
}

pub open spec fn reply_text(m: ReplyMessage) -> Seq<char> {
    match m {
        ReplyMessage::ErrorReadingBody => "Error reading request body"@,
        ReplyMessage::DuplicateFileUpload => "Duplicate File Upload"@,
        ReplyMessage::QueuedWorker => "Queued Worker"@,
        ReplyMessage::FailedToQueueWorker => "Failed to queue worker."@,
        ReplyMessage::UnhandledStatus => "Unhandled status. File not uploaded."@,
        ReplyMessage::SomethingWentWrong => "Something went wrong"@,
        ReplyMessage::FileUploaded => "File uploaded."@,
    }
}

impl ReplyMessage {
    /// The text sent to the device.
    pub fn text(&self) -> (t: &'static str)
        ensures
            t@ == reply_text(*self),
    {
        match self {
            ReplyMessage::ErrorReadingBody => "Error reading request body",
            ReplyMessage::DuplicateFileUpload => "Duplicate File Upload",
            ReplyMessage::QueuedWorker => "Queued Worker",
            ReplyMessage::FailedToQueueWorker => "Failed to queue worker.",
            ReplyMessage::UnhandledStatus => "Unhandled status. File not uploaded.",
            ReplyMessage::SomethingWentWrong => "Something went wrong",
            ReplyMessage::FileUploaded => "File uploaded.",
        }
    }
}

/// An answer: an HTTP status and a text.
#[derive(Clone, Copy, Debug, PartialEq, Eq, Structural)]
pub struct Reply {
    pub status: u16,
    pub message: ReplyMessage,
}

/// What follows once the store answered.
#[derive(Clone, Copy, Debug, PartialEq, Eq, Structural)]
pub enum NextStep {
    /// Answer the device and stop.
    Respond(Reply),
    /// Queue the file for processing; its outcome decides the answer, which keeps
    /// this status when the queueing succeeds.
    QueueWorker(u16),
}

/// The decision taken on the store's answer to the upload of a file.
#[derive(Clone, Copy, Debug, PartialEq, Eq, Structural)]
pub struct PutDecision {
    /// Add the file's size to the device's storage.
    pub charge_storage: bool,
    pub next: NextStep,
}

/// The store accepted the file.
pub open spec fn stored(status: u16) -> bool {
    status == STATUS_CREATED || status == STATUS_OK
}

/// The decision on the store's answer `put_status` (`None`: the request to the store
/// failed) to an upload of `kind`.
pub open spec fn put_decision(kind: UploadKind, put_status: Option<u16>) -> PutDecision {
    match put_status {
        None => PutDecision {
            charge_storage: false,
            next: NextStep::Respond(
                Reply { status: STATUS_INTERNAL_SERVER_ERROR, message: ReplyMessage::SomethingWentWrong },
            ),
        },
        Some(status) => if status == STATUS_FORBIDDEN {
            match kind {
                UploadKind::DrivingLog => PutDecision {
                    charge_storage: false,
                    next: NextStep::QueueWorker(status),
                },
                _ => PutDecision {
                    charge_storage: false,
                    next: NextStep::Respond(Reply { status, message: ReplyMessage::DuplicateFileUpload }),
                },
            }
        } else if stored(status) {
            match kind {
                UploadKind::Crash => PutDecision {
                    charge_storage: true,
                    next: NextStep::Respond(Reply { status, message: ReplyMessage::FileUploaded }),
                },
                _ => PutDecision { charge_storage: true, next: NextStep::QueueWorker(status) },
            }
        } else {
            PutDecision {
                charge_storage: false,
                next: NextStep::Respond(Reply { status, message: ReplyMessage::UnhandledStatus }),
            }
        },
    }
}

/// Decides what follows the store's answer to an upload.
pub fn after_put(kind: UploadKind, put_status: Option<u16>) -> (d: PutDecision)
    ensures
        d == put_decision(kind, put_status),
{
    match put_status {
        None => PutDecision {
            charge_storage: false,
            next: NextStep::Respond(
                Reply { status: STATUS_INTERNAL_SERVER_ERROR, message: ReplyMessage::SomethingWentWrong },
            ),
        },
        Some(status) => {
            if status == STATUS_FORBIDDEN {
                match kind {
                    UploadKind::DrivingLog => PutDecision {
                        charge_storage: false,
                        next: NextStep::QueueWorker(status),
                    },
                    _ => PutDecision {
                        charge_storage: false,
                        next: NextStep::Respond(
                            Reply { status, message: ReplyMessage::DuplicateFileUpload },
                        ),
                    },
                }
            } else if status == STATUS_CREATED || status == STATUS_OK {
                match kind {
                    UploadKind::Crash => PutDecision {
                        charge_storage: true,
                        next: NextStep::Respond(Reply { status, message: ReplyMessage::FileUploaded }),
                    },
                    _ => PutDecision { charge_storage: true, next: NextStep::QueueWorker(status) },
                }
            } else {
                PutDecision {
                    charge_storage: false,
                    next: NextStep::Respond(Reply { status, message: ReplyMessage::UnhandledStatus }),
                }
            }
        },
    }
}

/// The answer once queueing the file for processing succeeded or failed.
pub open spec fn queue_reply(status: u16, queued: bool) -> Reply {
    if queued {
        Reply { status, message: ReplyMessage::QueuedWorker }
    } else {
        Reply { status: STATUS_INTERNAL_SERVER_ERROR, message: ReplyMessage::FailedToQueueWorker }
    }
}

/// Decides the answer after queueing the file for processing.
pub fn after_queue(status: u16, queued: bool) -> (r: Reply)
    ensures
        r == queue_reply(status, queued),
{
    if queued {
        Reply { status, message: ReplyMessage::QueuedWorker }
    } else {
        Reply { status: STATUS_INTERNAL_SERVER_ERROR, message: ReplyMessage::FailedToQueueWorker }
    }
}

/// The answer when the request body could not be read to its end.
pub fn body_read_failure() -> (r: Reply)
    ensures
        r == (Reply { status: STATUS_BAD_REQUEST, message: ReplyMessage::ErrorReadingBody }),
{
    Reply { status: STATUS_BAD_REQUEST, message: ReplyMessage::ErrorReadingBody }
}

/// An upload is accepted exactly when a device identity comes with it, that device
/// may upload, and it uploads under its own dongle id.
pub proof fn lemma_accepted_uploads(device: Option<DM>, request_dongle_id: Seq<char>)
    ensures
        upload_auth(device, request_dongle_id) is Ok <==> (device is Some
            && device->0.uploads_allowed && device->0.dongle_id@ == request_dongle_id),
{
}

/// A device is charged for a file exactly when the store accepted it.
pub proof fn lemma_charge_only_stored(kind: UploadKind, put_status: Option<u16>)
    ensures
        put_decision(kind, put_status).charge_storage <==> (put_status is Some && stored(
            put_status->0,
        )),
{
}

/// Crash reports are never queued for processing; boot logs are queued exactly when
/// stored; driving logs are queued when stored and also when the store refused them
/// as duplicates.
pub proof fn lemma_what_is_queued(kind: UploadKind, put_status: Option<u16>)
    ensures
        kind == UploadKind::Crash ==> put_decision(kind, put_status).next is Respond,
        kind == UploadKind::Bootlog ==> (put_decision(kind, put_status).next is QueueWorker
            <==> (put_status is Some && stored(put_status->0))),
        kind == UploadKind::DrivingLog ==> (put_decision(kind, put_status).next is QueueWorker
            <==> (put_status is Some && (stored(put_status->0) || put_status->0
            == STATUS_FORBIDDEN))),
{
}

/// Once the file is queued, the answer keeps the store's status; a failure to queue
/// is an internal server error.
pub proof fn lemma_queue_reply_status(status: u16, queued: bool)
    ensures
        queued ==> queue_reply(status, queued).status == status,
        !queued ==> queue_reply(status, queued).status == STATUS_INTERNAL_SERVER_ERROR,
{
}

/// Where an upload request stands.
#[derive(Clone, Copy, Debug, PartialEq, Eq, Structural)]
pub enum UploadState {
    /// Nothing done yet.
    Start,
    /// The upload is listed and its body is being read.
    Receiving,
    /// The body is read, the listing released, and the store asked.
    AwaitingStore,
    /// The store accepted the file; the device's storage is being charged.
    AwaitingCharge(NextStep),
    /// The file is being queued for processing; the store answered this status.
    AwaitingQueue(u16),
    /// The answer is sent.
    Finished,
}

/// What happened since the last step.
#[derive(Clone, Copy, Debug, PartialEq, Eq, Structural)]
pub enum UploadEvent {
    /// The device may upload.
    Authorized,
    /// The device may not upload, for this reason.
    Unauthorized(UploadAuthError),
    /// The body was read to its end (`true`) or broke off (`false`).
    BodyRead(bool),
    /// The store answered with this status, or its request failed (`None`).
    StoreAnswered(Option<u16>),
    /// The device's storage was charged.
    StorageCharged,
    /// Queueing for processing succeeded or failed.
    Queued(bool),
}

/// What to do next.
#[derive(Clone, Copy, Debug, PartialEq, Eq, Structural)]
pub enum UploadAction {
    /// Refuse the upload with the answer to this error; nothing else is done.
    Refuse(UploadAuthError),
    /// List the upload and read its body.
    Receive,
    /// Stop listing the upload, then send the file to the store.
    StopListingAndStore,
    /// Stop listing the upload and send this answer; nothing is stored.
    StopListingAndAnswer(Reply),
    /// Add the file's size to the device's storage.
    ChargeStorage,
    /// Queue the file for processing.
    QueueWorker,
    /// Send this answer.
    Answer(Reply),
    /// Nothing: the event does not belong to this point of the request.
    Wait,
}

/// Where to go once the store's answer, and any charge, are settled.
pub open spec fn settle(next: NextStep) -> (UploadState, UploadAction) {
    match next {
        NextStep::Respond(r) => (UploadState::Finished, UploadAction::Answer(r)),
        NextStep::QueueWorker(status) => (UploadState::AwaitingQueue(status), UploadAction::QueueWorker),
    }
}

/// One step of an upload request of `kind`: from `state`, on `event`, the next state
/// and what to do.
pub open spec fn upload_transition(kind: UploadKind, state: UploadState, event: UploadEvent) -> (UploadState, UploadAction) {
    match (state, event) {
        (UploadState::Start, UploadEvent::Unauthorized(e)) => (UploadState::Finished, UploadAction::Refuse(e)),
        (UploadState::Start, UploadEvent::Authorized) => (UploadState::Receiving, UploadAction::Receive),
        (UploadState::Receiving, UploadEvent::BodyRead(complete)) => if complete {
            (UploadState::AwaitingStore, UploadAction::StopListingAndStore)
        } else {
            (
                UploadState::Finished,
                UploadAction::StopListingAndAnswer(
                    Reply { status: STATUS_BAD_REQUEST, message: ReplyMessage::ErrorReadingBody },
                ),
            )
        },
        (UploadState::AwaitingStore, UploadEvent::StoreAnswered(put_status)) => {
            let d = put_decision(kind, put_status);
            if d.charge_storage {
                (UploadState::AwaitingCharge(d.next), UploadAction::ChargeStorage)
            } else {
                settle(d.next)
            }
        },
        (UploadState::AwaitingCharge(next), UploadEvent::StorageCharged) => settle(next),
        (UploadState::AwaitingQueue(status), UploadEvent::Queued(queued)) => (
            UploadState::Finished,
            UploadAction::Answer(queue_reply(status, queued)),
        ),
        _ => (state, UploadAction::Wait),
    }
}

fn settle_exec(next: NextStep) -> (r: (UploadState, UploadAction))
    ensures
        r == settle(next),
{
    match next {
        NextStep::Respond(r) => (UploadState::Finished, UploadAction::Answer(r)),
        NextStep::QueueWorker(status) => (UploadState::AwaitingQueue(status), UploadAction::QueueWorker),
    }
}

/// Takes one step of an upload request of `kind`.
pub fn upload_step(kind: UploadKind, state: UploadState, event: UploadEvent) -> (r: (UploadState, UploadAction))
    ensures
        r == upload_transition(kind, state, event),
{
    match (state, event) {
        (UploadState::Start, UploadEvent::Unauthorized(e)) => (UploadState::Finished, UploadAction::Refuse(e)),
        (UploadState::Start, UploadEvent::Authorized) => (UploadState::Receiving, UploadAction::Receive),
        (UploadState::Receiving, UploadEvent::BodyRead(complete)) => {
            if complete {
                (UploadState::AwaitingStore, UploadAction::StopListingAndStore)
            } else {
                (UploadState::Finished, UploadAction::StopListingAndAnswer(body_read_failure()))
            }
        },
        (UploadState::AwaitingStore, UploadEvent::StoreAnswered(put_status)) => {
            let d = after_put(kind, put_status);
            if d.charge_storage {
                (UploadState::AwaitingCharge(d.next), UploadAction::ChargeStorage)
            } else {
                settle_exec(d.next)
            }
        },
        (UploadState::AwaitingCharge(next), UploadEvent::StorageCharged) => settle_exec(next),
        (UploadState::AwaitingQueue(status), UploadEvent::Queued(queued)) => (
            UploadState::Finished,
            UploadAction::Answer(after_queue(status, queued)),
        ),
        _ => (state, UploadAction::Wait),
    }
}

/// The actions of a request of `kind` that starts in `state` and meets `events`.
pub open spec fn upload_actions(kind: UploadKind, state: UploadState, events: Seq<UploadEvent>) -> Seq<UploadAction>
    decreases events.len(),
{
    if events.len() == 0 {
        Seq::empty()
    } else {
        let (next, action) = upload_transition(kind, state, events[0]);
        seq![action] + upload_actions(kind, next, events.drop_first())
    }
}

/// An action after which the request is over.
pub open spec fn ends_request(a: UploadAction) -> bool {
    a is Refuse || a is StopListingAndAnswer || a is Answer
}

/// One action per event.
pub proof fn lemma_one_action_per_event(kind: UploadKind, state: UploadState, events: Seq<UploadEvent>)
    ensures
        upload_actions(kind, state, events).len() == events.len(),
    decreases events.len(),
{
    if events.len() > 0 {
        let (next, _action) = upload_transition(kind, state, events[0]);
        lemma_one_action_per_event(kind, next, events.drop_first());
    }
}

/// A finished request does nothing more, whatever happens.
pub proof fn lemma_finished_stays_quiet(kind: UploadKind, events: Seq<UploadEvent>)
    ensures
        forall|i: int|
            0 <= i < events.len() ==> #[trigger] upload_actions(kind, UploadState::Finished, events)[i]
                == UploadAction::Wait,
    decreases events.len(),
{
    if events.len() > 0 {
        lemma_finished_stays_quiet(kind, events.drop_first());
        lemma_one_action_per_event(kind, UploadState::Finished, events.drop_first());
        let rest = upload_actions(kind, UploadState::Finished, events.drop_first());
        assert forall|i: int| 0 <= i < events.len() implies #[trigger] upload_actions(
            kind,
            UploadState::Finished,
            events,
        )[i] == UploadAction::Wait by {
            if i > 0 {
                assert(upload_actions(kind, UploadState::Finished, events)[i] == rest[i - 1]);
            }
        }
    }
}

/// Once a request refuses the upload, answers a broken body, or sends its answer,
/// it does nothing more: in particular nothing is stored after a refusal or after a
/// body that broke off.
pub proof fn lemma_nothing_after_the_end(kind: UploadKind, state: UploadState, events: Seq<UploadEvent>, i: int, j: int)
    requires
        0 <= i < j < events.len(),
        ends_request(upload_actions(kind, state, events)[i]),
    ensures
        upload_actions(kind, state, events)[j] == UploadAction::Wait,
    decreases events.len(),
{
    let (next, action) = upload_transition(kind, state, events[0]);
    let rest = upload_actions(kind, next, events.drop_first());
    lemma_one_action_per_event(kind, next, events.drop_first());
    assert(upload_actions(kind, state, events) == seq![action] + rest);
    assert(upload_actions(kind, state, events)[j] == rest[j - 1]);
    if i == 0 {
        assert(next == UploadState::Finished);
        lemma_finished_stays_quiet(kind, events.drop_first());
        assert(rest[j - 1] == UploadAction::Wait);
    } else {
        assert(upload_actions(kind, state, events)[i] == rest[i - 1]);
        lemma_nothing_after_the_end(kind, next, events.drop_first(), i - 1, j - 1);
    }
}

/// A refused request does nothing but refuse.
pub proof fn lemma_refused_does_nothing(kind: UploadKind, e: UploadAuthError, events: Seq<UploadEvent>)
    requires
        events.len() > 0,
        events[0] == UploadEvent::Unauthorized(e),
    ensures
        upload_actions(kind, UploadState::Start, events)[0] == UploadAction::Refuse(e),
        forall|j: int|
            0 < j < events.len() ==> #[trigger] upload_actions(kind, UploadState::Start, events)[j]
                == UploadAction::Wait,
{
    assert forall|j: int| 0 < j < events.len() implies #[trigger] upload_actions(
        kind,
        UploadState::Start,
        events,
    )[j] == UploadAction::Wait by {
        lemma_nothing_after_the_end(kind, UploadState::Start, events, 0, j);
    }
}

/// The listing ends before the store is asked: the store is asked only by the step
/// that stops listing a body read to its end, and only that step leaves the reading.
pub proof fn lemma_store_follows_release(kind: UploadKind, state: UploadState, event: UploadEvent)
    ensures
        upload_transition(kind, state, event).1 == UploadAction::StopListingAndStore <==> (state
            == UploadState::Receiving && event == UploadEvent::BodyRead(true)),
        state == UploadState::Receiving && upload_transition(kind, state, event).0 != state
            ==> (upload_transition(kind, state, event).1 is StopListingAndStore
            || upload_transition(kind, state, event).1 is StopListingAndAnswer),
        upload_transition(kind, state, event).1 == UploadAction::Receive <==> (state == UploadState::Start
            && event == UploadEvent::Authorized),
{
}

/// When the store answers an upload of any kind, the request charges the device
/// exactly when the store accepted the file (200 OK or 201 Created), and then goes
/// on: boot logs and driving logs are queued for processing, crash reports are
/// answered `File uploaded.` with the store's status.
pub proof fn lemma_stored_files_are_charged(kind: UploadKind, put_status: Option<u16>)
    ensures
        (upload_transition(kind, UploadState::AwaitingStore, UploadEvent::StoreAnswered(put_status)).1
            == UploadAction::ChargeStorage) <==> (put_status == Some(200u16) || put_status == Some(
            201u16,
        )),
        (put_status == Some(200u16) || put_status == Some(201u16)) ==> ({
            let charging = upload_transition(
                kind,
                UploadState::AwaitingStore,
                UploadEvent::StoreAnswered(put_status),
            ).0;
            let after = upload_transition(kind, charging, UploadEvent::StorageCharged);
            if kind == UploadKind::Crash {
                after == (
                    UploadState::Finished,
                    UploadAction::Answer(
                        Reply { status: put_status->0, message: ReplyMessage::FileUploaded },
                    ),
                )
            } else {
                after == (UploadState::AwaitingQueue(put_status->0), UploadAction::QueueWorker)
            }
        }),
{
}

/// A whole request that is authorized, reads its body, has the file accepted by the
/// store (status 200 or 201) and, unless it is a crash report, queues it: it lists
/// the upload, stops listing and stores, charges the device, and then queues and
/// answers (boot and driving logs) or answers at once (crash reports).
pub proof fn lemma_accepted_upload_runs_in_order(kind: UploadKind, status: u16, queued: bool)
    requires
        status == 200 || status == 201,
    ensures
        kind != UploadKind::Crash ==> upload_actions(
            kind,
            UploadState::Start,
            seq![
                UploadEvent::Authorized,
                UploadEvent::BodyRead(true),
                UploadEvent::StoreAnswered(Some(status)),
                UploadEvent::StorageCharged,
                UploadEvent::Queued(queued),
            ],
        ) == seq![
            UploadAction::Receive,
            UploadAction::StopListingAndStore,
            UploadAction::ChargeStorage,
            UploadAction::QueueWorker,
            UploadAction::Answer(
                if queued {
                    Reply { status, message: ReplyMessage::QueuedWorker }
                } else {
                    Reply { status: 500, message: ReplyMessage::FailedToQueueWorker }
                },
            ),
        ],
        kind == UploadKind::Crash ==> upload_actions(
            kind,
            UploadState::Start,
            seq![
                UploadEvent::Authorized,
                UploadEvent::BodyRead(true),
                UploadEvent::StoreAnswered(Some(status)),
                UploadEvent::StorageCharged,
            ],
        ) == seq![
            UploadAction::Receive,
            UploadAction::StopListingAndStore,
            UploadAction::ChargeStorage,
            UploadAction::Answer(Reply { status, message: ReplyMessage::FileUploaded }),
        ],
{
    let e5 = seq![
        UploadEvent::Authorized,
        UploadEvent::BodyRead(true),
        UploadEvent::StoreAnswered(Some(status)),
        UploadEvent::StorageCharged,
        UploadEvent::Queued(queued),
    ];
    let e4 = seq![
        UploadEvent::Authorized,
        UploadEvent::BodyRead(true),
        UploadEvent::StoreAnswered(Some(status)),
        UploadEvent::StorageCharged,
    ];
    reveal_with_fuel(upload_actions, 6);
    assert(e5.drop_first() =~= seq![
        UploadEvent::BodyRead(true),
        UploadEvent::StoreAnswered(Some(status)),
        UploadEvent::StorageCharged,
        UploadEvent::Queued(queued),
    ]);
    assert(e5.drop_first().drop_first() =~= seq![
        UploadEvent::StoreAnswered(Some(status)),
        UploadEvent::StorageCharged,
        UploadEvent::Queued(queued),
    ]);
    assert(e5.drop_first().drop_first().drop_first() =~= seq![
        UploadEvent::StorageCharged,
        UploadEvent::Queued(queued),
    ]);
    assert(e5.drop_first().drop_first().drop_first().drop_first() =~= seq![UploadEvent::Queued(queued)]);
    assert(e5.drop_first().drop_first().drop_first().drop_first().drop_first() =~= Seq::<UploadEvent>::empty());
    assert(e4.drop_first() =~= seq![
        UploadEvent::BodyRead(true),
        UploadEvent::StoreAnswered(Some(status)),
        UploadEvent::StorageCharged,
    ]);
    assert(e4.drop_first().drop_first() =~= seq![
        UploadEvent::StoreAnswered(Some(status)),
        UploadEvent::StorageCharged,
    ]);
    assert(e4.drop_first().drop_first().drop_first() =~= seq![UploadEvent::StorageCharged]);
    assert(e4.drop_first().drop_first().drop_first().drop_first() =~= Seq::<UploadEvent>::empty());
    if kind != UploadKind::Crash {
        assert(upload_actions(kind, UploadState::Start, e5) =~= seq![
            UploadAction::Receive,
            UploadAction::StopListingAndStore,
            UploadAction::ChargeStorage,
            UploadAction::QueueWorker,
            UploadAction::Answer(
                if queued {
                    Reply { status, message: ReplyMessage::QueuedWorker }
                } else {
                    Reply { status: 500, message: ReplyMessage::FailedToQueueWorker }
                },
            ),
        ]);
    } else {
        assert(upload_actions(kind, UploadState::Start, e4) =~= seq![
            UploadAction::Receive,
            UploadAction::StopListingAndStore,
            UploadAction::ChargeStorage,
            UploadAction::Answer(Reply { status, message: ReplyMessage::FileUploaded }),
        ]);
    }
}

} // verus!
