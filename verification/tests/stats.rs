use connect::stats::{
    activity_cutoffs, cumulative_points, daily_points, day_label, disk_usage, DiskReading,
    DiskSpace, TimeSeriesPoint,
};

#[test]
fn days_are_labelled_in_utc() {
    assert_eq!(day_label(0), "1970-01-01");
    assert_eq!(day_label(86_399_999), "1970-01-01");
    assert_eq!(day_label(86_400_000), "1970-01-02");
    assert_eq!(day_label(1_700_000_000_000), "2023-11-14");
    assert_eq!(day_label(-1), "1969-12-31");
}

#[test]
fn out_of_range_days_fall_back_to_the_epoch() {
    assert_eq!(day_label(i64::MAX), "1970-01-01");
    assert_eq!(day_label(i64::MIN), "1970-01-01");
}

#[test]
fn daily_and_running_series() {
    let rows = vec![(0i64, 5i64), (86_400_000, 0), (172_800_000, 7)];
    let daily = daily_points(&rows);
    let dates: Vec<&str> = daily.iter().map(|p| p.date.as_str()).collect();
    assert_eq!(dates, vec!["1970-01-01", "1970-01-02", "1970-01-03"]);
    let values: Vec<i64> = daily.iter().map(|p| p.miles).collect();
    assert_eq!(values, vec![5, 0, 7]);
    let running = cumulative_points(&daily);
    let totals: Vec<i64> = running.iter().map(|p| p.miles).collect();
    assert_eq!(totals, vec![5, 5, 12]);
    assert_eq!(running[2].date, "1970-01-03");
    assert!(cumulative_points(&Vec::<TimeSeriesPoint>::new()).is_empty());
}

#[test]
fn activity_windows_reach_back() {
    let now = 10_000_000u64;
    let c = activity_cutoffs(now);
    assert_eq!(c.daily, now - 86_400);
    assert_eq!(c.weekly, now - 604_800);
    assert_eq!(c.monthly, now - 2_592_000);
    assert_eq!(c.quarterly, now - 7_776_000);
}

#[test]
fn only_the_data_array_is_reported() {
    let disks = vec![
        DiskReading { name: "/dev/sda1".to_string(), total_space: 100, available_space: 10 },
        DiskReading { name: "/dev/md0".to_string(), total_space: 1000, available_space: 250 },
        DiskReading { name: "/dev/md01".to_string(), total_space: 7, available_space: 7 },
        DiskReading { name: "/dev/md0".to_string(), total_space: 50, available_space: 50 },
    ];
    assert_eq!(
        disk_usage(&disks),
        vec![
            DiskSpace { total: 1000, used: 750, free: 250 },
            DiskSpace { total: 50, used: 0, free: 50 },
        ]
    );
    assert!(disk_usage(&Vec::new()).is_empty());
}
