use connect::devices::{DeviceRegistrationParams, DM};

#[test]
fn default_record_is_blank() {
    let d = DM::default();
    assert_eq!(d.dongle_id, "");
    assert!(!d.uploads_allowed);
    assert!(!d.prime);
    assert_eq!(d.prime_type, 0);
    assert_eq!(d.server_storage, 0);
    assert_eq!(d.owner_id, None);
}

#[test]
fn new_registration_record() {
    let params = DeviceRegistrationParams {
        public_key: "KEY".to_string(),
        imei: "111".to_string(),
        imei2: "222".to_string(),
        serial: "SER".to_string(),
    };
    let d = DM::new_registration(&"abc123".to_string(), params);
    assert_eq!(d.dongle_id, "abc123");
    assert_eq!(d.public_key, "KEY");
    assert_eq!(d.imei, "111");
    assert_eq!(d.imei2, "222");
    assert_eq!(d.serial, "SER");
    assert!(d.uploads_allowed);
    assert!(d.prime);
    assert_eq!(d.prime_type, 2);
    assert_eq!(d.alias, "Please set to discord username");
    assert!(d.firehose);
    assert_eq!(d.server_storage, 0);
    assert_eq!(d.owner_id, None);
}

#[test]
fn save_times() {
    let mut d = DM::default();
    d.stamp_before_save(true, 1_000);
    assert_eq!((d.created_at_ms, d.updated_at_ms), (1_000, 1_000));
    d.stamp_before_save(false, 2_000);
    assert_eq!((d.created_at_ms, d.updated_at_ms), (1_000, 2_000));
}
