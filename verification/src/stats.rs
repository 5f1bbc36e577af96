//! Usage statistics: daily and running series for charts, the windows of recent
//! activity, and the space of the data disk.

use crate::text::same_text;
use chrono::{TimeZone, Utc};
use vstd::prelude::*;
use vstd::string::*;

verus! {

/// One point of a chart: a calendar day and a value.
#[derive(Debug)]
pub struct TimeSeriesPoint {
    pub date: String,
    pub miles: i64,
}

/// Space on a disk, in bytes.
#[derive(Clone, Copy, Debug, PartialEq, Eq, Structural)]
pub struct DiskSpace {
    pub total: u64,
    pub used: u64,
    pub free: u64,
}

/// What the system reports of one disk.
#[derive(Debug)]
pub struct DiskReading {
    pub name: String,
    pub total_space: u64,
    pub available_space: u64,
}

/// The UTC calendar day, written `YYYY-MM-DD`, of the instant `ms` milliseconds after
/// the Unix epoch; `None` when the instant lies outside the calendar that chrono
/// covers.
pub uninterp spec fn utc_calendar_day(ms: i64) -> Option<Seq<char>>;

/// The calendar day of the Unix epoch.
pub open spec fn epoch_day() -> Seq<char> {
    "1970-01-01"@
}

/// Calls chrono's `Utc.timestamp_millis_opt`, keeps its single result and formats it
/// with `%Y-%m-%d`. The result is named by `utc_calendar_day`; of its value the
/// contract states only that the epoch is 1970-01-01, as chrono documents.
#[verifier::external_body]
fn utc_day_text(ms: i64) -> (day: Option<String>)
    ensures
        day is Some == utc_calendar_day(ms) is Some,
        day is Some ==> day->0@ == utc_calendar_day(ms)->0,
        ms == 0 ==> day is Some && day->0@ == epoch_day(),
{
    Utc.timestamp_millis_opt(ms).single().map(|dt| dt.format("%Y-%m-%d").to_string())
}

/// The day shown for `day_ms`: its UTC calendar day, or the epoch's when chrono has
/// none.
pub open spec fn day_label_of(day_ms: i64) -> Seq<char> {
    match utc_calendar_day(day_ms) {
        Some(t) => t,
        None => epoch_day(),
    }
}

/// The label for a day whose own lookup gave `found`, falling back to the epoch's day
/// `epoch`.
pub fn label_or_epoch(found: Option<String>, epoch: Option<String>) -> (label: String)
    ensures
        label@ == match found {
            Some(t) => t@,
            None => match epoch {
                Some(e) => e@,
                None => Seq::<char>::empty(),
            },
        },
{
    match found {
        Some(t) => t,
        None => match epoch {
            Some(e) => e,
            None => String::new(),
        },
    }
}

/// The day shown for `day_ms`.
pub fn day_label(day_ms: i64) -> (label: String)
    ensures
        label@ == day_label_of(day_ms),
{
    let found = utc_day_text(day_ms);
    if found.is_some() {
        label_or_epoch(found, None)
    } else {
        let epoch = utc_day_text(0);
        label_or_epoch(found, epoch)
    }
}

/// One point per row `(day_ms, value)`, labelled with its day.
pub fn daily_points(rows: &Vec<(i64, i64)>) -> (points: Vec<TimeSeriesPoint>)
    ensures
        points.len() == rows.len(),
        forall|i: int|
            0 <= i < rows.len() ==> (#[trigger] points@[i]).date@ == day_label_of(rows@[i].0)
                && points@[i].miles == rows@[i].1,
{
    let mut points: Vec<TimeSeriesPoint> = Vec::new();
    let mut i: usize = 0;
    while i < rows.len()
        invariant
            i <= rows.len(),
            points.len() == i,
            forall|j: int|
                0 <= j < i ==> (#[trigger] points@[j]).date@ == day_label_of(rows@[j].0)
                    && points@[j].miles == rows@[j].1,
        decreases rows.len() - i,
    {
        let (day_ms, value) = rows[i];
        let date = day_label(day_ms);
        points.push(TimeSeriesPoint { date, miles: value });
        i = i + 1;
    }
    points
}

/// The sum of the values of the first `n` points.
pub open spec fn running_total(points: Seq<TimeSeriesPoint>, n: int) -> int
    decreases n,
{
    if n <= 0 {
        0
    } else {
        running_total(points, n - 1) + points[n - 1].miles
    }
}

/// Every running total of `points` fits in an `i64`.
pub open spec fn totals_fit(points: Seq<TimeSeriesPoint>) -> bool {
    forall|k: int| 0 <= k <= points.len() ==> i64::MIN <= #[trigger] running_total(points, k) <= i64::MAX
}

/// The running series of `daily`: the same days, each with the sum of the values
/// up to and including it.
pub fn cumulative_points(daily: &Vec<TimeSeriesPoint>) -> (points: Vec<TimeSeriesPoint>)
    requires
        totals_fit(daily@),
    ensures
        points.len() == daily.len(),
        forall|i: int|
            0 <= i < daily.len() ==> (#[trigger] points@[i]).date == daily@[i].date
                && points@[i].miles == running_total(daily@, i + 1),
{
    let mut points: Vec<TimeSeriesPoint> = Vec::with_capacity(daily.len());
    let mut acc: i64 = 0;
    let mut i: usize = 0;
    while i < daily.len()
        invariant
            totals_fit(daily@),
            i <= daily.len(),
            points.len() == i,
            acc == running_total(daily@, i as int),
            forall|j: int|
                0 <= j < i ==> (#[trigger] points@[j]).date == daily@[j].date
                    && points@[j].miles == running_total(daily@, j + 1),
        decreases daily.len() - i,
    {
        assert(i64::MIN <= running_total(daily@, i + 1) <= i64::MAX);
        acc = acc + daily[i].miles;
        points.push(TimeSeriesPoint { date: daily[i].date.clone(), miles: acc });
        i = i + 1;
    }
    points
}

pub const SECONDS_PER_DAY: u64 = 86400;

/// The start of each window of recent activity, in seconds: one day, one week,
/// thirty days and ninety days before now.
#[derive(Clone, Copy, Debug, PartialEq, Eq, Structural)]
pub struct ActivityCutoffs {
    pub daily: u64,
    pub weekly: u64,
    pub monthly: u64,
    pub quarterly: u64,
}

/// The windows of recent activity that end at `now_secs`.
pub fn activity_cutoffs(now_secs: u64) -> (c: ActivityCutoffs)
    requires
        now_secs >= 90 * SECONDS_PER_DAY,
    ensures
        c.daily == now_secs - SECONDS_PER_DAY,
        c.weekly == now_secs - 7 * SECONDS_PER_DAY,
        c.monthly == now_secs - 30 * SECONDS_PER_DAY,
        c.quarterly == now_secs - 90 * SECONDS_PER_DAY,
{
    ActivityCutoffs {
        daily: now_secs - SECONDS_PER_DAY,
        weekly: now_secs - 7 * SECONDS_PER_DAY,
        monthly: now_secs - 30 * SECONDS_PER_DAY,
        quarterly: now_secs - 90 * SECONDS_PER_DAY,
    }
}

/// The device of the data array, the only disk whose space is reported.
pub open spec fn is_data_disk(d: DiskReading) -> bool {
    d.name@ == "/dev/md0"@
}

/// The space of `d`: what is not available counts as used.
pub open spec fn space_of(d: DiskReading) -> DiskSpace {
    DiskSpace {
        total: d.total_space,
        used: (d.total_space - d.available_space) as u64,
        free: d.available_space,
    }
}

/// The space of the data disks among `disks`, in their order.
pub open spec fn data_disk_space(disks: Seq<DiskReading>) -> Seq<DiskSpace>
    decreases disks.len(),
{
    if disks.len() == 0 {
        Seq::empty()
    } else if is_data_disk(disks.last()) {
        data_disk_space(disks.drop_last()).push(space_of(disks.last()))
    } else {
        data_disk_space(disks.drop_last())
    }
}

/// The space of the data disks among `disks`.
pub fn disk_usage(disks: &Vec<DiskReading>) -> (spaces: Vec<DiskSpace>)
    requires
        forall|i: int|
            0 <= i < disks.len() && is_data_disk(#[trigger] disks@[i]) ==> disks@[i].available_space
                <= disks@[i].total_space,
    ensures
        spaces@ == data_disk_space(disks@),
{
    let mut spaces: Vec<DiskSpace> = Vec::new();
    let mut i: usize = 0;
    while i < disks.len()
        invariant
            i <= disks.len(),
            forall|j: int|
                0 <= j < disks.len() && is_data_disk(#[trigger] disks@[j]) ==> disks@[j].available_space
                    <= disks@[j].total_space,
            spaces@ == data_disk_space(disks@.take(i as int)),
        decreases disks.len() - i,
    {
        let d = &disks[i];
        assert(disks@.take(i + 1).drop_last() =~= disks@.take(i as int));
        assert(disks@.take(i + 1).last() == disks@[i as int]);
        if same_text(d.name.as_str(), "/dev/md0") {
            spaces.push(
                DiskSpace {
                    total: d.total_space,
                    used: d.total_space - d.available_space,
                    free: d.available_space,
                },
            );
        }
        i = i + 1;
    }
    assert(disks@.take(disks.len() as int) =~= disks@);
    spaces
}

/// A running series gains exactly the day's value from one day to the next, so it
/// never falls when no day's value is negative.
pub proof fn lemma_running_total_steps(points: Seq<TimeSeriesPoint>, i: int, j: int)
    requires
        0 <= i <= j <= points.len(),
        forall|k: int| 0 <= k < points.len() ==> #[trigger] points[k].miles >= 0,
    ensures
        i < points.len() ==> running_total(points, i + 1) == running_total(points, i)
            + points[i].miles,
        running_total(points, i) <= running_total(points, j),
    decreases j - i,
{
    if i < j {
        lemma_running_total_steps(points, i, j - 1);
    }
}

/// The windows of recent activity are nested: ninety days reach back furthest, one
/// day least, and none reaches past now.
pub proof fn lemma_activity_windows_nested(now_secs: u64, c: ActivityCutoffs)
    requires
        now_secs >= 90 * SECONDS_PER_DAY,
        c.daily == now_secs - SECONDS_PER_DAY,
        c.weekly == now_secs - 7 * SECONDS_PER_DAY,
        c.monthly == now_secs - 30 * SECONDS_PER_DAY,
        c.quarterly == now_secs - 90 * SECONDS_PER_DAY,
    ensures
        c.quarterly <= c.monthly <= c.weekly <= c.daily <= now_secs,
{
}

/// Every data disk reported splits its total space into used and free space.
pub proof fn lemma_disk_space_adds_up(disks: Seq<DiskReading>, i: int)
    requires
        forall|j: int|
            0 <= j < disks.len() && is_data_disk(#[trigger] disks[j]) ==> disks[j].available_space
                <= disks[j].total_space,
        0 <= i < data_disk_space(disks).len(),
    ensures
        data_disk_space(disks)[i].used + data_disk_space(disks)[i].free == data_disk_space(
            disks,
        )[i].total,
    decreases disks.len(),
{
    if disks.len() > 0 {
        let rest = disks.drop_last();
        assert forall|j: int|
            0 <= j < rest.len() && is_data_disk(#[trigger] rest[j]) implies rest[j].available_space
            <= rest[j].total_space by {
            assert(rest[j] == disks[j]);
        }
        if is_data_disk(disks.last()) && i == data_disk_space(rest).len() {
            assert(disks.last() == disks[disks.len() - 1]);
        } else {
            lemma_disk_space_adds_up(rest, i);
        }
    }
}

} // verus!
