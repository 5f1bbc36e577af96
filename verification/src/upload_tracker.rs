//! Live bookkeeping of uploads in progress: when each started, how many bytes
//! arrived, and a throttled transfer-rate estimate, plus the snapshot that is
//! shown to operators.

use crate::clock::unix_millis_now;
use dashmap::DashMap;
use vstd::prelude::*;
use vstd::relations::{sorted_by, total_ordering};

verus! {

#[verifier::external_type_specification]
#[verifier::external_body]
#[verifier::reject_recursive_types(K)]
#[verifier::reject_recursive_types(V)]
#[verifier::reject_recursive_types(S)]
pub struct ExDashMap<K, V, S>(DashMap<K, V, S>);

/// What kind of file an upload carries.
#[derive(Clone, Copy, Debug, PartialEq, Eq, Structural)]
pub enum UploadKind {
    DrivingLog,
    Crash,
    Bootlog,
}

/// Who uploads what.
#[derive(Debug)]
pub struct UploadMeta {
    pub kind: UploadKind,
    pub dongle_id: String,
    pub file_name: String,
}

impl Clone for UploadMeta {
    fn clone(&self) -> (r: Self)
        ensures
            r == *self,
    {
        UploadMeta {
            kind: self.kind,
            dongle_id: self.dongle_id.clone(),
            file_name: self.file_name.clone(),
        }
    }
}

/// A transfer rate: `bytes` received over `window_ms` milliseconds. A window of 0
/// stands for the rate 0 (nothing measured yet); the bytes per second are
/// `bytes * 1000 / window_ms`.
#[derive(Clone, Copy, Debug, PartialEq, Eq, Structural)]
pub struct TransferRate {
    pub bytes: u64,
    pub window_ms: i64,
}

impl TransferRate {
    pub open spec fn spec_zero() -> TransferRate {
        TransferRate { bytes: 0, window_ms: 0 }
    }

    /// The rate of nothing measured.
    pub fn zero() -> (r: TransferRate)
        ensures
            r == TransferRate::spec_zero(),
    {
        TransferRate { bytes: 0, window_ms: 0 }
    }
}

/// The least time between two recomputations of the rate.
pub const RATE_RECOMPUTE_MS: i64 = 200;

/// An upload whose last bytes are older than this reports no rate.
pub const STALE_AFTER_MS: i64 = 1500;

/// One upload in progress.
#[derive(Debug)]
pub struct ActiveUpload {
    pub meta: UploadMeta,
    pub started_at_ms: i64,
    pub last_update_ms: i64,
    pub bytes_received: u64,
    /// A short moving estimate from the bytes since the last recomputation.
    pub speed: TransferRate,
    pub speed_calc_at_ms: i64,
    pub speed_calc_bytes: u64,
}

impl Clone for ActiveUpload {
    fn clone(&self) -> (r: Self)
        ensures
            r == *self,
    {
        ActiveUpload {
            meta: self.meta.clone(),
            started_at_ms: self.started_at_ms,
            last_update_ms: self.last_update_ms,
            bytes_received: self.bytes_received,
            speed: self.speed,
            speed_calc_at_ms: self.speed_calc_at_ms,
            speed_calc_bytes: self.speed_calc_bytes,
        }
    }
}

/// One upload as operators see it.
#[derive(Debug)]
pub struct UploadSnapshot {
    pub id: String,
    pub kind: UploadKind,
    pub dongle_id: String,
    /// Shown to superusers only.
    pub file_name: Option<String>,
    pub bytes_received: u64,
    pub speed: TransferRate,
    pub started_at_ms: i64,
    pub last_update_ms: i64,
}

/// All uploads in progress, newest first, at a moment of the server's clock.
#[derive(Debug)]
pub struct UploadsSnapshotMessage {
    pub server_time_ms: i64,
    pub uploads: Vec<UploadSnapshot>,
}

/// `a - b`, clamped to the range of `i64`.
pub open spec fn saturating_diff(a: i64, b: i64) -> i64 {
    let d = a - b;
    if d > i64::MAX {
        i64::MAX
    } else if d < i64::MIN {
        i64::MIN
    } else {
        d as i64
    }
}

/// `a - b` on `i64`, saturating at the bounds.
pub fn saturating_diff_i64(a: i64, b: i64) -> (r: i64)
    ensures
        r == saturating_diff(a, b),
{
    if b >= 0 {
        if a >= i64::MIN + b {
            a - b
        } else {
            i64::MIN
        }
    } else {
        if a <= i64::MAX + b {
            a - b
        } else {
            i64::MAX
        }
    }
}

/// `a + b` on `u64`, saturating at `u64::MAX`.
pub open spec fn saturating_sum(a: u64, b: u64) -> u64 {
    if a + b > u64::MAX {
        u64::MAX
    } else {
        (a + b) as u64
    }
}

/// `a - b` on `u64`, saturating at 0.
pub open spec fn saturating_less(a: u64, b: u64) -> u64 {
    if a >= b {
        (a - b) as u64
    } else {
        0
    }
}

/// An upload that starts at `now_ms` with nothing received.
pub open spec fn fresh_upload(meta: UploadMeta, now_ms: i64) -> ActiveUpload {
    ActiveUpload {
        meta,
        started_at_ms: now_ms,
        last_update_ms: now_ms,
        bytes_received: 0,
        speed: TransferRate::spec_zero(),
        speed_calc_at_ms: now_ms,
        speed_calc_bytes: 0,
    }
}

/// `u` after `n` more bytes arrived at `now_ms`: the count grows (saturating), the
/// update time moves to `now_ms`, and when at least `RATE_RECOMPUTE_MS` passed since
/// the last recomputation the rate becomes the bytes since then over that time.
pub open spec fn upload_after_bytes(u: ActiveUpload, n: usize, now_ms: i64) -> ActiveUpload {
    let received = saturating_sum(u.bytes_received, n as u64);
    let elapsed = saturating_diff(now_ms, u.speed_calc_at_ms);
    if elapsed >= RATE_RECOMPUTE_MS {
        ActiveUpload {
            meta: u.meta,
            started_at_ms: u.started_at_ms,
            last_update_ms: now_ms,
            bytes_received: received,
            speed: TransferRate {
                bytes: saturating_less(received, u.speed_calc_bytes),
                window_ms: elapsed,
            },
            speed_calc_at_ms: now_ms,
            speed_calc_bytes: received,
        }
    } else {
        ActiveUpload {
            meta: u.meta,
            started_at_ms: u.started_at_ms,
            last_update_ms: now_ms,
            bytes_received: received,
            speed: u.speed,
            speed_calc_at_ms: u.speed_calc_at_ms,
            speed_calc_bytes: u.speed_calc_bytes,
        }
    }
}

/// The rate an upload reports at `now_ms`: none once it went stale.
pub open spec fn reported_rate(u: ActiveUpload, now_ms: i64) -> TransferRate {
    if saturating_diff(now_ms, u.last_update_ms) > STALE_AFTER_MS {
        TransferRate::spec_zero()
    } else {
        u.speed
    }
}

/// `s` shows the upload `u` stored under `id`, as seen at `now_ms` by a viewer who
/// is a superuser or not.
pub open spec fn shows_upload(
    s: UploadSnapshot,
    id: Seq<char>,
    u: ActiveUpload,
    is_superuser: bool,
    now_ms: i64,
) -> bool {
    &&& s.id@ == id
    &&& s.kind == u.meta.kind
    &&& s.dongle_id@ == u.meta.dongle_id@
    &&& if is_superuser {
        s.file_name is Some && s.file_name->0@ == u.meta.file_name@
    } else {
        s.file_name is None
    }
    &&& s.bytes_received == u.bytes_received
    &&& s.speed == reported_rate(u, now_ms)
    &&& s.started_at_ms == u.started_at_ms
    &&& s.last_update_ms == u.last_update_ms
}

/// Newest first: start times never increase along `uploads`.
pub open spec fn newest_first(uploads: Seq<UploadSnapshot>) -> bool {
    forall|a: int, b: int|
        0 <= a < b < uploads.len() ==> #[trigger] uploads[a].started_at_ms
            >= #[trigger] uploads[b].started_at_ms
}

/// `uploads` shows every upload of `active` once, and nothing else, newest first.
pub open spec fn lists_uploads(
    uploads: Seq<UploadSnapshot>,
    active: Map<Seq<char>, ActiveUpload>,
    is_superuser: bool,
    now_ms: i64,
) -> bool {
    &&& newest_first(uploads)
    &&& forall|a: int, b: int|
        0 <= a < b < uploads.len() ==> #[trigger] uploads[a].id@ != #[trigger] uploads[b].id@
    &&& forall|a: int|
        0 <= a < uploads.len() ==> active.dom().contains(#[trigger] uploads[a].id@)
            && shows_upload(uploads[a], uploads[a].id@, active[uploads[a].id@], is_superuser, now_ms)
    &&& forall|id: Seq<char>|
        #[trigger] active.dom().contains(id) ==> exists|a: int|
            0 <= a < uploads.len() && #[trigger] uploads[a].id@ == id
}

/// The map that holds the uploads in progress, by id.
pub type UploadMap = DashMap<String, ActiveUpload>;

/// What a map of uploads holds: each upload under its id.
pub uninterp spec fn active_uploads(map: UploadMap) -> Map<Seq<char>, ActiveUpload>;

/// Calls `DashMap::new`: a map that holds nothing.
#[verifier::external_body]
fn new_upload_map() -> (uploads: UploadMap)
    ensures
        active_uploads(uploads) =~= Map::empty(),
{
    DashMap::new()
}

/// Calls `DashMap::insert`: afterwards `id` holds `upload`, every other id is as it
/// was, and the value that `id` held before comes back.
#[verifier::external_body]
fn insert_upload(map: &mut UploadMap, id: String, upload: ActiveUpload) -> (prev: Option<ActiveUpload>)
    ensures
        active_uploads(*final(map)) == active_uploads(*old(map)).insert(id@, upload),
        prev == (if active_uploads(*old(map)).dom().contains(id@) {
            Some(active_uploads(*old(map))[id@])
        } else {
            None
        }),
{
    map.insert(id, upload)
}

/// Calls `DashMap::remove`: afterwards `id` holds nothing, every other id is as it
/// was, and the entry that `id` held comes back, if it held one.
#[verifier::external_body]
fn remove_upload(map: &mut UploadMap, id: &str) -> (removed: Option<(String, ActiveUpload)>)
    ensures
        active_uploads(*final(map)) == active_uploads(*old(map)).remove(id@),
        removed is Some == active_uploads(*old(map)).dom().contains(id@),
        removed matches Some(entry) ==> entry.0@ == id@ && entry.1 == active_uploads(
            *old(map),
        )[id@],
{
    map.remove(id)
}

/// Walks the map with `DashMap::iter`, cloning each entry. The order of the walk
/// follows the map's hashing and is left open: every entry comes once, with its id
/// and upload, and nothing else comes.
#[verifier::external_body]
fn upload_entries(map: &UploadMap) -> (entries: Vec<(String, ActiveUpload)>)
    ensures
        forall|i: int|
            0 <= i < entries.len() ==> active_uploads(*map).dom().contains(
                #[trigger] entries@[i].0@,
            ) && entries@[i].1 == active_uploads(*map)[entries@[i].0@],
        forall|i: int, j: int|
            0 <= i < j < entries.len() ==> #[trigger] entries@[i].0@ != #[trigger] entries@[j].0@,
        forall|id: Seq<char>|
            #[trigger] active_uploads(*map).dom().contains(id) ==> exists|i: int|
                0 <= i < entries.len() && #[trigger] entries@[i].0@ == id,
{
    map.iter().map(|entry| (entry.key().clone(), entry.value().clone())).collect()
}

/// A lowercase hexadecimal digit.
pub open spec fn is_lower_hex_digit(c: char) -> bool {
    ('0' as u32 <= c as u32 <= '9' as u32) || ('a' as u32 <= c as u32 <= 'f' as u32)
}

/// The hyphenated lowercase text of a random (version 4, RFC 4122 variant) UUID:
/// 36 characters, hyphens at 8, 13, 18 and 23, hexadecimal digits elsewhere, the
/// version digit `4` at 14 and a variant digit of `8`, `9`, `a` or `b` at 19.
pub open spec fn is_v4_uuid_text(s: Seq<char>) -> bool {
    &&& s.len() == 36
    &&& forall|i: int|
        0 <= i < 36 ==> (if i == 8 || i == 13 || i == 18 || i == 23 {
            #[trigger] s[i] == '-'
        } else {
            is_lower_hex_digit(s[i])
        })
    &&& s[14] == '4'
    &&& (s[19] == '8' || s[19] == '9' || s[19] == 'a' || s[19] == 'b')
}

/// Calls `uuid::Uuid::new_v4` and renders the id in its hyphenated form. The id is
/// random; its text has the form of a version 4 UUID.
#[verifier::external_body]
fn new_upload_id() -> (id: String)
    ensures
        is_v4_uuid_text(id@),
{
    uuid::Uuid::new_v4().to_string()
}

/// The uploads in progress, by id.
pub struct UploadTracker {
    active: UploadMap,
}

impl View for UploadTracker {
    type V = Map<Seq<char>, ActiveUpload>;

    closed spec fn view(&self) -> Map<Seq<char>, ActiveUpload> {
        active_uploads(self.active)
    }
}

/// `u` after `n` bytes at `now_ms`.
fn advance_upload(u: ActiveUpload, n: usize, now_ms: i64) -> (r: ActiveUpload)
    ensures
        r == upload_after_bytes(u, n, now_ms),
{
    let received = u.bytes_received.saturating_add(n as u64);
    let elapsed = saturating_diff_i64(now_ms, u.speed_calc_at_ms);
    if elapsed >= RATE_RECOMPUTE_MS {
        ActiveUpload {
            meta: u.meta,
            started_at_ms: u.started_at_ms,
            last_update_ms: now_ms,
            bytes_received: received,
            speed: TransferRate {
                bytes: received.saturating_sub(u.speed_calc_bytes),
                window_ms: elapsed,
            },
            speed_calc_at_ms: now_ms,
            speed_calc_bytes: received,
        }
    } else {
        ActiveUpload {
            meta: u.meta,
            started_at_ms: u.started_at_ms,
            last_update_ms: now_ms,
            bytes_received: received,
            speed: u.speed,
            speed_calc_at_ms: u.speed_calc_at_ms,
            speed_calc_bytes: u.speed_calc_bytes,
        }
    }
}

/// Some position below `n` of `origin` holds `e`.
spec fn reaches(origin: Seq<int>, e: int, n: int) -> bool {
    exists|a: int| 0 <= a < n && #[trigger] origin[a] == e
}

/// The snapshot of `u` stored under `id`.
fn describe_upload(id: &String, u: &ActiveUpload, is_superuser: bool, now_ms: i64) -> (s: UploadSnapshot)
    ensures
        shows_upload(s, id@, *u, is_superuser, now_ms),
{
    let stale_ms = saturating_diff_i64(now_ms, u.last_update_ms);
    let speed = if stale_ms > STALE_AFTER_MS {
        TransferRate::zero()
    } else {
        u.speed
    };
    UploadSnapshot {
        id: id.clone(),
        kind: u.meta.kind,
        dongle_id: u.meta.dongle_id.clone(),
        file_name: if is_superuser {
            Some(u.meta.file_name.clone())
        } else {
            None
        },
        bytes_received: u.bytes_received,
        speed,
        started_at_ms: u.started_at_ms,
        last_update_ms: u.last_update_ms,
    }
}

impl UploadTracker {
    /// A tracker with no uploads.
    pub fn new() -> (t: Self)
        ensures
            t@ == Map::<Seq<char>, ActiveUpload>::empty(),
    {
        UploadTracker { active: new_upload_map() }
    }

    /// Records the upload `meta` under `id`, started at `now_ms`, and gives `id` back.
    pub fn start_at(&mut self, id: String, meta: UploadMeta, now_ms: i64) -> (r: String)
        ensures
            r@ == id@,
            final(self)@ == old(self)@.insert(id@, fresh_upload(meta, now_ms)),
    {
        let key = id.clone();
        let upload = ActiveUpload {
            meta,
            started_at_ms: now_ms,
            last_update_ms: now_ms,
            bytes_received: 0,
            speed: TransferRate::zero(),
            speed_calc_at_ms: now_ms,
            speed_calc_bytes: 0,
        };
        let _ = insert_upload(&mut self.active, key, upload);
        id
    }

    /// Records the upload `meta` under a new random id, started now, and gives the id.
    pub fn start(&mut self, meta: UploadMeta) -> (r: String)
        ensures
            is_v4_uuid_text(r@),
            exists|now_ms: i64| final(self)@ == old(self)@.insert(r@, #[trigger] fresh_upload(meta, now_ms)),
    {
        let id = new_upload_id();
        let now_ms = unix_millis_now();
        self.start_at(id, meta, now_ms)
    }

    /// Counts `n` more bytes of the upload `id`, received at `now_ms`. An unknown id
    /// changes nothing.
    pub fn add_bytes_at(&mut self, id: &str, n: usize, now_ms: i64)
        ensures
            final(self)@ == (if old(self)@.dom().contains(id@) {
                old(self)@.insert(id@, upload_after_bytes(old(self)@[id@], n, now_ms))
            } else {
                old(self)@
            }),
    {
        match remove_upload(&mut self.active, id) {
            Some((key, upload)) => {
                let updated = advance_upload(upload, n, now_ms);
                let _ = insert_upload(&mut self.active, key, updated);
                assert(old(self)@.remove(id@).insert(id@, upload_after_bytes(old(self)@[id@], n, now_ms))
                    =~= old(self)@.insert(id@, upload_after_bytes(old(self)@[id@], n, now_ms)));
            },
            None => {
                assert(old(self)@.remove(id@) =~= old(self)@);
            },
        }
    }

    /// Counts `n` more bytes of the upload `id`, received now.
    pub fn add_bytes(&mut self, id: &str, n: usize)
        ensures
            exists|now_ms: i64|
                final(self)@ == (if old(self)@.dom().contains(id@) {
                    old(self)@.insert(id@, #[trigger] upload_after_bytes(old(self)@[id@], n, now_ms))
                } else {
                    old(self)@
                }),
    {
        let now_ms = unix_millis_now();
        self.add_bytes_at(id, n, now_ms);
    }

    /// Forgets the upload `id`.
    pub fn finish(&mut self, id: &str)
        ensures
            final(self)@ == old(self)@.remove(id@),
    {
        let _ = remove_upload(&mut self.active, id);
    }

    /// Every upload in progress as seen at `now_ms`, newest first.
    pub fn snapshot_message_at(&self, is_superuser: bool, now_ms: i64) -> (msg: UploadsSnapshotMessage)
        ensures
            msg.server_time_ms == now_ms,
            lists_uploads(msg.uploads@, self@, is_superuser, now_ms),
    {
        let entries = upload_entries(&self.active);
        let ghost active = self@;
        let mut uploads: Vec<UploadSnapshot> = Vec::new();
        // `origin[a]` is the entry that `uploads[a]` shows.
        let ghost mut origin: Seq<int> = Seq::empty();
        let mut i: usize = 0;
        while i < entries.len()
            invariant
                active == self@,
                forall|e: int|
                    0 <= e < entries.len() ==> active.dom().contains(#[trigger] entries@[e].0@)
                        && entries@[e].1 == active[entries@[e].0@],
                forall|e: int, f: int|
                    0 <= e < f < entries.len() ==> #[trigger] entries@[e].0@
                        != #[trigger] entries@[f].0@,
                i <= entries.len(),
                uploads.len() == i,
                origin.len() == i,
                newest_first(uploads@),
                forall|a: int| 0 <= a < i ==> 0 <= #[trigger] origin[a] < i,
                forall|a: int, b: int|
                    0 <= a < b < i ==> #[trigger] origin[a] != #[trigger] origin[b],
                forall|a: int|
                    0 <= a < i ==> shows_upload(
                        #[trigger] uploads@[a],
                        entries@[origin[a]].0@,
                        entries@[origin[a]].1,
                        is_superuser,
                        now_ms,
                    ),
                forall|e: int| 0 <= e < i ==> #[trigger] reaches(origin, e, i as int),
            decreases entries.len() - i,
        {
            let s = describe_upload(&entries[i].0, &entries[i].1, is_superuser, now_ms);
            let mut p: usize = 0;
            while p < uploads.len() && uploads[p].started_at_ms >= s.started_at_ms
                invariant
                    p <= uploads.len(),
                    forall|q: int| 0 <= q < p ==> #[trigger] uploads@[q].started_at_ms >= s.started_at_ms,
                decreases uploads.len() - p,
            {
                p = p + 1;
            }
            let ghost before = uploads@;
            let ghost before_origin = origin;
            uploads.insert(p, s);
            proof {
                origin = origin.insert(p as int, i as int);
                assert forall|a: int, b: int|
                    0 <= a < b < uploads@.len() implies #[trigger] uploads@[a].started_at_ms
                    >= #[trigger] uploads@[b].started_at_ms by {
                    if b < p {
                    } else if b == p {
                    } else if a < p {
                        assert(before[a].started_at_ms >= uploads@[p as int].started_at_ms);
                        if p < before.len() {
                            assert(before[p as int].started_at_ms < uploads@[p as int].started_at_ms);
                            assert(before[p as int].started_at_ms >= before[b - 1].started_at_ms);
                        }
                    } else if a == p {
                        assert(before[p as int].started_at_ms < uploads@[p as int].started_at_ms);
                        assert(before[p as int].started_at_ms >= before[b - 1].started_at_ms);
                    } else {
                        assert(before[a - 1].started_at_ms >= before[b - 1].started_at_ms);
                    }
                }
                assert forall|a: int| 0 <= a < i + 1 implies 0 <= #[trigger] origin[a] < i + 1 by {
                    if a < p {
                        assert(origin[a] == before_origin[a]);
                    } else if a > p {
                        assert(origin[a] == before_origin[a - 1]);
                    }
                }
                assert forall|a: int, b: int|
                    0 <= a < b < i + 1 implies #[trigger] origin[a] != #[trigger] origin[b] by {
                    if a < p && b < p {
                        assert(origin[a] == before_origin[a] && origin[b] == before_origin[b]);
                    } else if a < p && b == p {
                        assert(origin[a] == before_origin[a]);
                    } else if a < p && b > p {
                        assert(origin[a] == before_origin[a] && origin[b] == before_origin[b - 1]);
                    } else if a == p {
                        assert(origin[b] == before_origin[b - 1]);
                    } else {
                        assert(origin[a] == before_origin[a - 1] && origin[b] == before_origin[b - 1]);
                    }
                }
                assert forall|a: int|
                    0 <= a < i + 1 implies shows_upload(
                    #[trigger] uploads@[a],
                    entries@[origin[a]].0@,
                    entries@[origin[a]].1,
                    is_superuser,
                    now_ms,
                ) by {
                    if a < p {
                        assert(uploads@[a] == before[a] && origin[a] == before_origin[a]);
                    } else if a > p {
                        assert(uploads@[a] == before[a - 1] && origin[a] == before_origin[a - 1]);
                    }
                }
                assert forall|e: int| 0 <= e < i + 1 implies #[trigger] reaches(origin, e, i + 1) by {
                    if e == i {
                        assert(origin[p as int] == e);
                    } else {
                        assert(reaches(before_origin, e, i as int));
                        let a0 = choose|a: int| 0 <= a < i && #[trigger] before_origin[a] == e;
                        if a0 < p {
                            assert(origin[a0] == e);
                        } else {
                            assert(origin[a0 + 1] == e);
                        }
                    }
                }
            }
            i = i + 1;
        }
        proof {
            assert forall|a: int, b: int|
                0 <= a < b < uploads@.len() implies #[trigger] uploads@[a].id@
                != #[trigger] uploads@[b].id@ by {
                let (x, y) = (origin[a], origin[b]);
                if x < y {
                    assert(entries@[x].0@ != entries@[y].0@);
                } else {
                    assert(entries@[y].0@ != entries@[x].0@);
                }
            }
            assert forall|a: int|
                0 <= a < uploads@.len() implies active.dom().contains(#[trigger] uploads@[a].id@)
                && shows_upload(uploads@[a], uploads@[a].id@, active[uploads@[a].id@], is_superuser, now_ms) by {
                assert(entries@[origin[a]].1 == active[entries@[origin[a]].0@]);
            }
            assert forall|id: Seq<char>|
                #[trigger] active.dom().contains(id) implies exists|a: int|
                0 <= a < uploads@.len() && #[trigger] uploads@[a].id@ == id by {
                let e = choose|e: int| 0 <= e < entries.len() && #[trigger] entries@[e].0@ == id;
                assert(reaches(origin, e, i as int));
                let a = choose|a: int| 0 <= a < i && #[trigger] origin[a] == e;
                assert(uploads@[a].id@ == id);
            }
        }
        UploadsSnapshotMessage { server_time_ms: now_ms, uploads }
    }

    /// Every upload in progress as seen now, newest first.
    pub fn snapshot_message(&self, is_superuser: bool) -> (msg: UploadsSnapshotMessage)
        ensures
            lists_uploads(msg.uploads@, self@, is_superuser, msg.server_time_ms),
    {
        let now_ms = unix_millis_now();
        self.snapshot_message_at(is_superuser, now_ms)
    }
}

/// Keeps an upload listed for as long as the guard lives; `release` forgets it.
pub struct ActiveUploadGuard {
    id: String,
}

impl View for ActiveUploadGuard {
    type V = Seq<char>;

    closed spec fn view(&self) -> Seq<char> {
        self.id@
    }
}

impl ActiveUploadGuard {
    /// Starts tracking `meta` in `tracker` under a new id.
    pub fn new(tracker: &mut UploadTracker, meta: UploadMeta) -> (g: Self)
        ensures
            is_v4_uuid_text(g@),
            exists|now_ms: i64| final(tracker)@ == old(tracker)@.insert(g@, #[trigger] fresh_upload(meta, now_ms)),
    {
        let id = tracker.start(meta);
        ActiveUploadGuard { id }
    }

    /// The id of the guarded upload.
    pub fn id(&self) -> (r: &str)
        ensures
            r@ == self@,
    {
        self.id.as_str()
    }

    /// Stops tracking the guarded upload.
    pub fn release(self, tracker: &mut UploadTracker)
        ensures
            final(tracker)@ == old(tracker)@.remove(self@),
    {
        tracker.finish(self.id.as_str());
    }
}

/// A rate is either unmeasured or measured over at least `RATE_RECOMPUTE_MS`.
pub open spec fn rate_window_ok(u: ActiveUpload) -> bool {
    u.speed.window_ms == 0 || u.speed.window_ms >= RATE_RECOMPUTE_MS
}

/// Starting an upload under an id that is not in use and finishing it leaves the
/// uploads as they were.
pub proof fn lemma_finish_undoes_start(
    active: Map<Seq<char>, ActiveUpload>,
    id: Seq<char>,
    meta: UploadMeta,
    now_ms: i64,
)
    requires
        !active.dom().contains(id),
    ensures
        active.insert(id, fresh_upload(meta, now_ms)).remove(id) == active,
{
    assert(active.insert(id, fresh_upload(meta, now_ms)).remove(id) =~= active);
}

/// Counting bytes never lowers the count, adds exactly the bytes that arrived while
/// the count fits in a `u64`, and keeps who uploads what and since when.
pub proof fn lemma_bytes_accumulate(u: ActiveUpload, n: usize, now_ms: i64)
    ensures
        upload_after_bytes(u, n, now_ms).bytes_received >= u.bytes_received,
        u.bytes_received + n <= u64::MAX ==> upload_after_bytes(u, n, now_ms).bytes_received
            == u.bytes_received + n,
        upload_after_bytes(u, n, now_ms).meta == u.meta,
        upload_after_bytes(u, n, now_ms).started_at_ms == u.started_at_ms,
        upload_after_bytes(u, n, now_ms).last_update_ms == now_ms,
{
}

/// The rate changes only once `RATE_RECOMPUTE_MS` passed since it was last computed,
/// and every rate is measured over at least that long: a new upload has none, and
/// counting bytes keeps it so.
pub proof fn lemma_rate_throttled(u: ActiveUpload, n: usize, now_ms: i64, meta: UploadMeta)
    ensures
        upload_after_bytes(u, n, now_ms).speed != u.speed ==> saturating_diff(
            now_ms,
            u.speed_calc_at_ms,
        ) >= RATE_RECOMPUTE_MS,
        rate_window_ok(fresh_upload(meta, now_ms)),
        rate_window_ok(u) ==> rate_window_ok(upload_after_bytes(u, n, now_ms)),
{
}

/// A snapshot shows no rate for an upload whose last bytes are older than
/// `STALE_AFTER_MS`, and hides file names from viewers who are not superusers.
pub proof fn lemma_snapshot_hides_stale_and_private(
    uploads: Seq<UploadSnapshot>,
    active: Map<Seq<char>, ActiveUpload>,
    is_superuser: bool,
    now_ms: i64,
    a: int,
)
    requires
        lists_uploads(uploads, active, is_superuser, now_ms),
        0 <= a < uploads.len(),
    ensures
        saturating_diff(now_ms, uploads[a].last_update_ms) > STALE_AFTER_MS ==> uploads[a].speed
            == TransferRate::spec_zero(),
        !is_superuser ==> uploads[a].file_name is None,
{
    assert(active.dom().contains(uploads[a].id@));
}

/// A started upload is listed with nothing received, its start time and its
/// owner, until something else happens to it.
pub proof fn lemma_started_upload_is_listed(
    uploads: Seq<UploadSnapshot>,
    active: Map<Seq<char>, ActiveUpload>,
    id: Seq<char>,
    meta: UploadMeta,
    started_ms: i64,
    is_superuser: bool,
    now_ms: i64,
)
    requires
        lists_uploads(uploads, active.insert(id, fresh_upload(meta, started_ms)), is_superuser, now_ms),
    ensures
        exists|a: int|
            0 <= a < uploads.len() && #[trigger] uploads[a].id@ == id && uploads[a].bytes_received
                == 0 && uploads[a].started_at_ms == started_ms && uploads[a].dongle_id@
                == meta.dongle_id@ && uploads[a].kind == meta.kind,
{
    let listed = active.insert(id, fresh_upload(meta, started_ms));
    assert(listed.dom().contains(id));
    let a = choose|a: int| 0 <= a < uploads.len() && #[trigger] uploads[a].id@ == id;
    assert(listed.dom().contains(uploads[a].id@));
}

/// A finished upload is no longer listed.
pub proof fn lemma_finished_upload_is_not_listed(
    uploads: Seq<UploadSnapshot>,
    active: Map<Seq<char>, ActiveUpload>,
    id: Seq<char>,
    is_superuser: bool,
    now_ms: i64,
)
    requires
        lists_uploads(uploads, active.remove(id), is_superuser, now_ms),
    ensures
        forall|a: int| 0 <= a < uploads.len() ==> #[trigger] uploads[a].id@ != id,
{
    assert forall|a: int| 0 <= a < uploads.len() implies #[trigger] uploads[a].id@ != id by {
        assert(active.remove(id).dom().contains(uploads[a].id@));
    }
}

/// `s` and `t` show the same upload in every field but the file name.
pub open spec fn same_upload_shown(s: UploadSnapshot, t: UploadSnapshot) -> bool {
    &&& s.id@ == t.id@
    &&& s.kind == t.kind
    &&& s.dongle_id@ == t.dongle_id@
    &&& s.bytes_received == t.bytes_received
    &&& s.speed == t.speed
    &&& s.started_at_ms == t.started_at_ms
    &&& s.last_update_ms == t.last_update_ms
}

/// Some snapshot of `uploads` shows the upload `id`.
pub open spec fn shows_id(uploads: Seq<UploadSnapshot>, id: Seq<char>) -> bool {
    exists|b: int| 0 <= b < uploads.len() && #[trigger] uploads[b].id@ == id
}

/// The file name a snapshot shows, by its characters.
pub open spec fn name_shown(s: UploadSnapshot) -> Option<Seq<char>> {
    match s.file_name {
        Some(n) => Some(n@),
        None => None,
    }
}

/// Two orders of the same ids, each without repeats, carry the same values.
proof fn lemma_reordered_ids(x: Seq<Seq<char>>, y: Seq<Seq<char>>, f: spec_fn(Seq<char>) -> int)
    requires
        x.no_duplicates(),
        y.no_duplicates(),
        forall|k: Seq<char>| x.contains(k) <==> y.contains(k),
    ensures
        x.map_values(f).to_multiset() == y.map_values(f).to_multiset(),
    decreases x.len(),
{
    broadcast use vstd::seq_lib::group_to_multiset_ensures;
    broadcast use vstd::multiset::group_multiset_axioms;

    if x.len() == 0 {
        if y.len() > 0 {
            assert(y.contains(y[0]));
        }
        assert(x.map_values(f) =~= Seq::<int>::empty());
        assert(y.map_values(f) =~= Seq::<int>::empty());
    } else {
        let v = x.last();
        assert(x.contains(v)) by {
            assert(x[x.len() - 1] == v);
        }
        let j = choose|j: int| 0 <= j < y.len() && y[j] == v;
        let x2 = x.drop_last();
        let y2 = y.remove(j);
        assert(x2.no_duplicates()) by {
            assert forall|a: int, b: int| 0 <= a < x2.len() && 0 <= b < x2.len() && a != b implies x2[a]
                != x2[b] by {
                assert(x2[a] == x[a] && x2[b] == x[b]);
            }
        }
        assert(y2.no_duplicates()) by {
            assert forall|a: int, b: int| 0 <= a < y2.len() && 0 <= b < y2.len() && a != b implies y2[a]
                != y2[b] by {
                let a0 = if a < j { a } else { a + 1 };
                let b0 = if b < j { b } else { b + 1 };
                assert(y2[a] == y[a0] && y2[b] == y[b0]);
            }
        }
        assert forall|k: Seq<char>| x2.contains(k) <==> y2.contains(k) by {
            if x2.contains(k) {
                let a = choose|a: int| 0 <= a < x2.len() && x2[a] == k;
                assert(x[a] == k);
                assert(x.contains(k));
                assert(k != v) by {
                    assert(x[x.len() - 1] == v);
                }
                let b = choose|b: int| 0 <= b < y.len() && y[b] == k;
                if b < j {
                    assert(y2[b] == k);
                } else {
                    assert(b != j);
                    assert(y2[b - 1] == k);
                }
            }
            if y2.contains(k) {
                let b = choose|b: int| 0 <= b < y2.len() && y2[b] == k;
                let b0 = if b < j { b } else { b + 1 };
                assert(y[b0] == k);
                assert(y.contains(k));
                assert(k != v);
                let a = choose|a: int| 0 <= a < x.len() && x[a] == k;
                assert(a != x.len() - 1);
                assert(x2[a] == k);
            }
        }
        lemma_reordered_ids(x2, y2, f);
        let ym = y.map_values(f);
        assert(x.map_values(f) =~= x2.map_values(f).push(f(v)));
        assert(ym.remove(j) =~= y2.map_values(f));
        assert(ym[j] == f(v));
        assert(ym.remove(j).to_multiset() == ym.to_multiset().remove(f(v)));
        assert(ym.to_multiset().count(f(v)) > 0) by {
            assert(ym.contains(f(v)));
        }
        assert(ym.to_multiset().remove(f(v)).insert(f(v)) =~= ym.to_multiset());
    }
}

/// Two snapshots of the same uploads at the same moment agree. They are equally
/// long and have the same start time at every position, so they differ at most in
/// the order of uploads that started in the same millisecond. Each shows every
/// upload with the same fields; they differ in file names only where one viewer is a
/// superuser and the other is not, and a superuser sees the file name given at the
/// upload's start.
pub proof fn lemma_snapshots_agree(
    first: Seq<UploadSnapshot>,
    second: Seq<UploadSnapshot>,
    active: Map<Seq<char>, ActiveUpload>,
    first_superuser: bool,
    second_superuser: bool,
    now_ms: i64,
)
    requires
        lists_uploads(first, active, first_superuser, now_ms),
        lists_uploads(second, active, second_superuser, now_ms),
    ensures
        first.len() == second.len(),
        forall|a: int|
            0 <= a < first.len() ==> #[trigger] first[a].started_at_ms == second[a].started_at_ms,
        forall|a: int| 0 <= a < first.len() ==> #[trigger] shows_id(second, first[a].id@),
        forall|a: int, b: int|
            0 <= a < first.len() && 0 <= b < second.len() && #[trigger] first[a].id@
                == #[trigger] second[b].id@ ==> same_upload_shown(first[a], second[b]) && (
            first_superuser == second_superuser ==> name_shown(first[a]) == name_shown(
                second[b],
            )),
        forall|a: int|
            0 <= a < first.len() ==> (if first_superuser {
                name_shown(#[trigger] first[a]) == Some(active[first[a].id@].meta.file_name@)
            } else {
                name_shown(first[a]) is None
            }),
{
    let ids1 = first.map_values(|s: UploadSnapshot| s.id@);
    let ids2 = second.map_values(|s: UploadSnapshot| s.id@);
    assert forall|a: int| 0 <= a < first.len() implies active.dom().contains(#[trigger] first[a].id@)
        && shows_upload(first[a], first[a].id@, active[first[a].id@], first_superuser, now_ms) by {}
    assert forall|a: int| 0 <= a < second.len() implies active.dom().contains(#[trigger] second[a].id@)
        && shows_upload(second[a], second[a].id@, active[second[a].id@], second_superuser, now_ms) by {}
    assert(ids1.no_duplicates()) by {
        assert forall|a: int, b: int| 0 <= a < ids1.len() && 0 <= b < ids1.len() && a != b implies ids1[a]
            != ids1[b] by {
            if a < b {
                assert(first[a].id@ != first[b].id@);
            } else {
                assert(first[b].id@ != first[a].id@);
            }
        }
    }
    assert(ids2.no_duplicates()) by {
        assert forall|a: int, b: int| 0 <= a < ids2.len() && 0 <= b < ids2.len() && a != b implies ids2[a]
            != ids2[b] by {
            if a < b {
                assert(second[a].id@ != second[b].id@);
            } else {
                assert(second[b].id@ != second[a].id@);
            }
        }
    }
    assert forall|k: Seq<char>| ids1.contains(k) <==> ids2.contains(k) by {
        if ids1.contains(k) {
            let a = choose|a: int| 0 <= a < ids1.len() && ids1[a] == k;
            assert(active.dom().contains(first[a].id@));
            let b = choose|b: int| 0 <= b < second.len() && #[trigger] second[b].id@ == k;
            assert(ids2[b] == k);
        }
        if ids2.contains(k) {
            let b = choose|b: int| 0 <= b < ids2.len() && ids2[b] == k;
            assert(active.dom().contains(second[b].id@));
            let a = choose|a: int| 0 <= a < first.len() && #[trigger] first[a].id@ == k;
            assert(ids1[a] == k);
        }
    }
    let f = |k: Seq<char>| active[k].started_at_ms as int;
    lemma_reordered_ids(ids1, ids2, f);
    let starts1 = first.map_values(|s: UploadSnapshot| s.started_at_ms as int);
    let starts2 = second.map_values(|s: UploadSnapshot| s.started_at_ms as int);
    assert(starts1 =~= ids1.map_values(f));
    assert(starts2 =~= ids2.map_values(f));
    let later_or_same = |p: int, q: int| p >= q;
    assert(total_ordering(later_or_same));
    assert(sorted_by(starts1, later_or_same)) by {
        assert forall|i: int, j: int| 0 <= i < j < starts1.len() implies #[trigger] later_or_same(
            starts1[i],
            starts1[j],
        ) by {
            assert(first[i].started_at_ms >= first[j].started_at_ms);
        }
    }
    assert(sorted_by(starts2, later_or_same)) by {
        assert forall|i: int, j: int| 0 <= i < j < starts2.len() implies #[trigger] later_or_same(
            starts2[i],
            starts2[j],
        ) by {
            assert(second[i].started_at_ms >= second[j].started_at_ms);
        }
    }
    vstd::seq_lib::lemma_sorted_unique(starts1, starts2, later_or_same);
    assert(starts1.len() == starts2.len());
    assert forall|a: int| 0 <= a < first.len() implies #[trigger] first[a].started_at_ms
        == second[a].started_at_ms by {
        assert(starts1[a] == starts2[a]);
    }
    assert forall|a: int| 0 <= a < first.len() implies #[trigger] shows_id(second, first[a].id@) by {
        let b = choose|b: int| 0 <= b < second.len() && #[trigger] second[b].id@ == first[a].id@;
        assert(second[b].id@ == first[a].id@);
    }
}

} // verus!
