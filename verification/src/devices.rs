//! Device records: what the server keeps of each registered device, and the
//! record it writes when a device registers.

use vstd::prelude::*;
use vstd::string::*;

verus! {

/// The stored record of one device.
#[derive(Debug)]
pub struct DM {
    pub dongle_id: String,
    pub public_key: String,
    pub imei: String,
    pub imei2: String,
    pub serial: String,
    pub uploads_allowed: bool,
    pub prime: bool,
    pub prime_type: i16,
    pub alias: String,
    pub firehose: bool,
    /// Bytes of uploaded files stored for the device.
    pub server_storage: i64,
    pub online: bool,
    /// Unix milliseconds of the last ping, 0 when it never pinged.
    pub last_athena_ping: i64,
    pub owner_id: Option<i32>,
    /// Unix milliseconds of the first save.
    pub created_at_ms: i64,
    /// Unix milliseconds of the latest save.
    pub updated_at_ms: i64,
}

/// `d` holds the defaults of every field: empty texts, `false`, zero and no owner.
pub open spec fn is_blank_device(d: DM) -> bool {
    &&& d.dongle_id@ == Seq::<char>::empty()
    &&& d.public_key@ == Seq::<char>::empty()
    &&& d.imei@ == Seq::<char>::empty()
    &&& d.imei2@ == Seq::<char>::empty()
    &&& d.serial@ == Seq::<char>::empty()
    &&& !d.uploads_allowed
    &&& !d.prime
    &&& d.prime_type == 0
    &&& d.alias@ == Seq::<char>::empty()
    &&& !d.firehose
    &&& d.server_storage == 0
    &&& !d.online
    &&& d.last_athena_ping == 0
    &&& d.owner_id is None
    &&& d.created_at_ms == 0
    &&& d.updated_at_ms == 0
}

impl Default for DM {
    fn default() -> (d: Self)
        ensures
            is_blank_device(d),
    {
        DM {
            dongle_id: String::new(),
            public_key: String::new(),
            imei: String::new(),
            imei2: String::new(),
            serial: String::new(),
            uploads_allowed: false,
            prime: false,
            prime_type: 0,
            alias: String::new(),
            firehose: false,
            server_storage: 0,
            online: false,
            last_athena_ping: 0,
            owner_id: None,
            created_at_ms: 0,
            updated_at_ms: 0,
        }
    }
}

/// What a device sends when it registers.
#[derive(Debug)]
pub struct DeviceRegistrationParams {
    pub public_key: String,
    pub imei: String,
    pub imei2: String,
    pub serial: String,
}

/// The alias every new device gets until its owner names it.
pub open spec fn default_alias() -> Seq<char> {
    "Please set to discord username"@
}

/// `d` is the record of a newly registered device `dongle_id` with `params`:
/// uploads allowed, prime of type 2, firehose on, the default alias, and every
/// other field at its default.
pub open spec fn is_new_registration(d: DM, dongle_id: Seq<char>, params: DeviceRegistrationParams) -> bool {
    &&& d.dongle_id@ == dongle_id
    &&& d.public_key == params.public_key
    &&& d.imei == params.imei
    &&& d.imei2 == params.imei2
    &&& d.serial == params.serial
    &&& d.uploads_allowed
    &&& d.prime
    &&& d.prime_type == 2
    &&& d.alias@ == default_alias()
    &&& d.firehose
    &&& d.server_storage == 0
    &&& !d.online
    &&& d.last_athena_ping == 0
    &&& d.owner_id is None
    &&& d.created_at_ms == 0
    &&& d.updated_at_ms == 0
}

impl DM {
    /// The record written for a device that registers for the first time.
    pub fn new_registration(dongle_id: &String, params: DeviceRegistrationParams) -> (d: DM)
        ensures
            is_new_registration(d, dongle_id@, params),
    {
        let alias = String::from_str("Please set to discord username");
        DM {
            dongle_id: dongle_id.clone(),
            public_key: params.public_key,
            imei: params.imei,
            imei2: params.imei2,
            serial: params.serial,
            uploads_allowed: true,
            prime: true,
            prime_type: 2,
            alias,
            firehose: true,
            server_storage: 0,
            online: false,
            last_athena_ping: 0,
            owner_id: None,
            created_at_ms: 0,
            updated_at_ms: 0,
        }
    }

    /// Sets the save times before a save at `now_ms`: a first save sets both the
    /// creation and the update time, a later one the update time only.
    pub fn stamp_before_save(&mut self, insert: bool, now_ms: i64)
        ensures
            *final(self) == (DM {
                created_at_ms: if insert { now_ms } else { old(self).created_at_ms },
                updated_at_ms: now_ms,
                ..*old(self)
            }),
    {
        if insert {
            self.created_at_ms = now_ms;
            self.updated_at_ms = now_ms;
        } else {
            self.updated_at_ms = now_ms;
        }
    }
}

/// A newly registered device differs from the blank record only in its dongle id,
/// the registration's key and identifiers, and the fields registration switches on:
/// it is not online, never pinged, stores nothing, has no owner and was never saved.
pub proof fn lemma_registration_is_blank_elsewhere(
    d: DM,
    blank: DM,
    dongle_id: Seq<char>,
    params: DeviceRegistrationParams,
)
    requires
        is_new_registration(d, dongle_id, params),
        is_blank_device(blank),
    ensures
        d.online == blank.online,
        d.last_athena_ping == blank.last_athena_ping,
        d.server_storage == blank.server_storage,
        d.owner_id == blank.owner_id,
        d.created_at_ms == blank.created_at_ms,
        d.updated_at_ms == blank.updated_at_ms,
        !d.online,
        d.last_athena_ping == 0,
        d.server_storage == 0,
        d.owner_id is None,
        d.uploads_allowed && d.prime && d.firehose && d.prime_type == 2,
        d.dongle_id@ == dongle_id,
        d.public_key == params.public_key && d.imei == params.imei && d.imei2 == params.imei2
            && d.serial == params.serial,
{
}

} // verus!
