use connect::upload_tracker::{
    ActiveUploadGuard, TransferRate, UploadKind, UploadMeta, UploadTracker,
};

fn meta(kind: UploadKind, dongle: &str, file: &str) -> UploadMeta {
    UploadMeta { kind, dongle_id: dongle.to_string(), file_name: file.to_string() }
}

#[test]
fn started_upload_is_listed_with_nothing_received() {
    let mut t = UploadTracker::new();
    let id = t.start_at("u1".to_string(), meta(UploadKind::Crash, "abc123", "f1"), 1_000);
    assert_eq!(id, "u1");
    let msg = t.snapshot_message_at(true, 1_100);
    assert_eq!(msg.server_time_ms, 1_100);
    assert_eq!(msg.uploads.len(), 1);
    let s = &msg.uploads[0];
    assert_eq!(s.id, "u1");
    assert_eq!(s.kind, UploadKind::Crash);
    assert_eq!(s.dongle_id, "abc123");
    assert_eq!(s.file_name.as_deref(), Some("f1"));
    assert_eq!(s.bytes_received, 0);
    assert_eq!(s.speed, TransferRate { bytes: 0, window_ms: 0 });
    assert_eq!(s.started_at_ms, 1_000);
    assert_eq!(s.last_update_ms, 1_000);
}

#[test]
fn rate_is_recomputed_at_most_every_200_ms() {
    let mut t = UploadTracker::new();
    t.start_at("u1".to_string(), meta(UploadKind::DrivingLog, "d", "f"), 0);
    t.add_bytes_at("u1", 100, 150);
    let s = &t.snapshot_message_at(false, 150).uploads[0];
    assert_eq!(s.bytes_received, 100);
    assert_eq!(s.last_update_ms, 150);
    assert_eq!(s.speed, TransferRate { bytes: 0, window_ms: 0 });

    t.add_bytes_at("u1", 300, 250);
    let s = &t.snapshot_message_at(false, 250).uploads[0];
    assert_eq!(s.bytes_received, 400);
    assert_eq!(s.speed, TransferRate { bytes: 400, window_ms: 250 });

    t.add_bytes_at("u1", 50, 300);
    let s = &t.snapshot_message_at(false, 300).uploads[0];
    assert_eq!(s.bytes_received, 450);
    assert_eq!(s.speed, TransferRate { bytes: 400, window_ms: 250 });

    t.add_bytes_at("u1", 10, 460);
    let s = &t.snapshot_message_at(false, 460).uploads[0];
    assert_eq!(s.bytes_received, 460);
    assert_eq!(s.speed, TransferRate { bytes: 60, window_ms: 210 });
}

#[test]
fn byte_count_saturates() {
    let mut t = UploadTracker::new();
    t.start_at("u1".to_string(), meta(UploadKind::Bootlog, "d", "f"), 0);
    t.add_bytes_at("u1", usize::MAX, 10);
    t.add_bytes_at("u1", usize::MAX, 20);
    let s = &t.snapshot_message_at(false, 20).uploads[0];
    assert_eq!(s.bytes_received, u64::MAX);
}

#[test]
fn stale_uploads_report_no_rate() {
    let mut t = UploadTracker::new();
    t.start_at("u1".to_string(), meta(UploadKind::Bootlog, "d", "f"), 0);
    t.add_bytes_at("u1", 1000, 500);
    let fresh = &t.snapshot_message_at(false, 2_000).uploads[0];
    assert_eq!(fresh.speed, TransferRate { bytes: 1000, window_ms: 500 });
    let stale = &t.snapshot_message_at(false, 2_001).uploads[0];
    assert_eq!(stale.speed, TransferRate { bytes: 0, window_ms: 0 });
    assert_eq!(stale.bytes_received, 1000);
}

#[test]
fn unknown_upload_ids_change_nothing() {
    let mut t = UploadTracker::new();
    t.start_at("u1".to_string(), meta(UploadKind::Bootlog, "d", "f"), 0);
    t.add_bytes_at("nope", 1000, 500);
    t.finish("nope");
    let msg = t.snapshot_message_at(false, 600);
    assert_eq!(msg.uploads.len(), 1);
    assert_eq!(msg.uploads[0].bytes_received, 0);
}

#[test]
fn snapshot_lists_newest_first_and_hides_names() {
    let mut t = UploadTracker::new();
    t.start_at("a".to_string(), meta(UploadKind::Bootlog, "d1", "f1"), 100);
    t.start_at("b".to_string(), meta(UploadKind::Crash, "d2", "f2"), 300);
    t.start_at("c".to_string(), meta(UploadKind::DrivingLog, "d3", "f3"), 200);
    let msg = t.snapshot_message_at(false, 400);
    let ids: Vec<&str> = msg.uploads.iter().map(|u| u.id.as_str()).collect();
    assert_eq!(ids, vec!["b", "c", "a"]);
    assert!(msg.uploads.iter().all(|u| u.file_name.is_none()));
    let msg = t.snapshot_message_at(true, 400);
    let names: Vec<Option<&str>> = msg.uploads.iter().map(|u| u.file_name.as_deref()).collect();
    assert_eq!(names, vec![Some("f2"), Some("f3"), Some("f1")]);
}

#[test]
fn finish_forgets_only_that_upload() {
    let mut t = UploadTracker::new();
    t.start_at("a".to_string(), meta(UploadKind::Bootlog, "d1", "f1"), 100);
    t.start_at("b".to_string(), meta(UploadKind::Crash, "d2", "f2"), 300);
    t.finish("a");
    let msg = t.snapshot_message_at(false, 400);
    assert_eq!(msg.uploads.len(), 1);
    assert_eq!(msg.uploads[0].id, "b");
    t.finish("b");
    assert!(t.snapshot_message_at(false, 400).uploads.is_empty());
}

#[test]
fn start_uses_a_hyphenated_random_id() {
    let mut t = UploadTracker::new();
    let id1 = t.start(meta(UploadKind::Crash, "d", "f"));
    let id2 = t.start(meta(UploadKind::Crash, "d", "f"));
    assert_eq!(id1.len(), 36);
    assert_ne!(id1, id2);
    assert_eq!(t.snapshot_message(false).uploads.len(), 2);
    t.add_bytes(&id1, 10);
    let msg = t.snapshot_message(true);
    let u = msg.uploads.iter().find(|u| u.id == id1).unwrap();
    assert_eq!(u.bytes_received, 10);
}

#[test]
fn guard_tracks_until_released() {
    let mut t = UploadTracker::new();
    let g = ActiveUploadGuard::new(&mut t, meta(UploadKind::DrivingLog, "d", "f"));
    let id = g.id().to_string();
    assert_eq!(id.len(), 36);
    assert_eq!(t.snapshot_message(false).uploads[0].id, id);
    g.release(&mut t);
    assert!(t.snapshot_message(false).uploads.is_empty());
}

#[test]
fn restarting_an_id_resets_it() {
    let mut t = UploadTracker::new();
    t.start_at("a".to_string(), meta(UploadKind::Bootlog, "d1", "f1"), 100);
    t.add_bytes_at("a", 5, 150);
    t.start_at("a".to_string(), meta(UploadKind::Crash, "d2", "f2"), 200);
    let msg = t.snapshot_message_at(true, 250);
    assert_eq!(msg.uploads.len(), 1);
    assert_eq!(msg.uploads[0].bytes_received, 0);
    assert_eq!(msg.uploads[0].kind, UploadKind::Crash);
}

fn is_v4_text(id: &str) -> bool {
    let c: Vec<char> = id.chars().collect();
    c.len() == 36
        && c.iter().enumerate().all(|(i, ch)| {
            if [8, 13, 18, 23].contains(&i) {
                *ch == '-'
            } else {
                ch.is_ascii_digit() || ('a'..='f').contains(ch)
            }
        })
        && c[14] == '4'
        && ['8', '9', 'a', 'b'].contains(&c[19])
}

#[test]
fn ids_have_the_v4_form() {
    let mut t = UploadTracker::new();
    for _ in 0..20 {
        let id = t.start(meta(UploadKind::Crash, "d", "f"));
        assert!(is_v4_text(&id), "{id}");
    }
}

#[test]
fn viewers_see_the_same_uploads() {
    let mut t = UploadTracker::new();
    t.start_at("a".to_string(), meta(UploadKind::Bootlog, "d1", "f1"), 100);
    t.start_at("b".to_string(), meta(UploadKind::Crash, "d2", "f2"), 100);
    t.start_at("c".to_string(), meta(UploadKind::DrivingLog, "d3", "f3"), 50);
    t.add_bytes_at("b", 7, 120);
    let su = t.snapshot_message_at(true, 130);
    let plain = t.snapshot_message_at(false, 130);
    let again = t.snapshot_message_at(false, 130);
    assert_eq!(su.uploads.len(), plain.uploads.len());
    let starts = |m: &connect::upload_tracker::UploadsSnapshotMessage| -> Vec<i64> {
        m.uploads.iter().map(|u| u.started_at_ms).collect()
    };
    assert_eq!(starts(&su), vec![100, 100, 50]);
    assert_eq!(starts(&plain), starts(&su));
    assert_eq!(starts(&again), starts(&su));
    for u in &su.uploads {
        let p = plain.uploads.iter().find(|p| p.id == u.id).unwrap();
        assert_eq!((p.kind, &p.dongle_id, p.bytes_received, p.speed), (u.kind, &u.dongle_id, u.bytes_received, u.speed));
        assert!(p.file_name.is_none());
    }
    let b = su.uploads.iter().find(|u| u.id == "b").unwrap();
    assert_eq!(b.file_name.as_deref(), Some("f2"));
    assert_eq!(b.bytes_received, 7);
}
