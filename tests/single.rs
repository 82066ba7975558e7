use load_shedding::{
    parse_local_timestamp, ConversionError, ManuallyInputSchedule, RawManuallyInputSchedule,
    RawShedding, Shedding, TimeField, Timestamp, OFFSET_SUFFIX,
};

fn raw(start: &str, finish: &str, stage: u8, source: &str) -> RawShedding {
    RawShedding {
        start: start.to_string(),
        finsh: finish.to_string(),
        stage,
        source: source.to_string(),
    }
}

fn local(year: i32, month: u32, day: u32, hour: u32, minute: u32) -> Timestamp {
    Timestamp {
        year,
        month,
        day,
        hour,
        minute,
        second: 0,
        nanosecond: 0,
        offset_seconds: 7200,
    }
}

#[test]
fn local_timestamp_gets_fixed_offset() {
    assert_eq!(
        parse_local_timestamp("2024-06-01T18:00:00", OFFSET_SUFFIX),
        Some(local(2024, 6, 1, 18, 0))
    );
    let t = parse_local_timestamp("2024-06-01T18:00:00", "Z").unwrap();
    assert_eq!(t.offset_seconds, 0);
    assert_eq!(parse_local_timestamp("not-a-time", OFFSET_SUFFIX), None);
}

#[test]
fn single_event_copies_stage_and_source() {
    let s = Shedding::try_from(raw("2024-06-01T18:00:00", "2024-06-01T20:30:00", 4, "feed")).unwrap();
    assert_eq!(s.start, local(2024, 6, 1, 18, 0));
    assert_eq!(s.finsh, local(2024, 6, 1, 20, 30));
    assert_eq!(s.stage, 4);
    assert_eq!(s.source, "feed");
}

#[test]
fn finish_before_start_is_accepted() {
    let s = Shedding::from_raw(&raw("2024-06-01T18:00:00", "2024-06-01T16:00:00", 2, "x")).unwrap();
    assert_eq!(s.start, local(2024, 6, 1, 18, 0));
    assert_eq!(s.finsh, local(2024, 6, 1, 16, 0));
}

#[test]
fn date_time_without_seconds_is_no_timestamp() {
    let r = Shedding::from_raw(&raw("2024-06-01T18:00", "2024-06-01T16:00", 2, "x"));
    assert_eq!(r.unwrap_err(), ConversionError::MalformedTimestamp(TimeField::Start));
}

#[test]
fn malformed_finish_is_reported() {
    let r = Shedding::from_raw(&raw("2024-06-01T18:00:00", "later", 2, "x"));
    assert_eq!(r.unwrap_err(), ConversionError::MalformedTimestamp(TimeField::Finish));
}

#[test]
fn schedule_keeps_order_of_both_lists() {
    let a = raw("2024-06-01T10:00:00", "2024-06-01T12:00:00", 1, "a");
    let b = raw("2024-06-02T10:00:00", "2024-06-02T12:00:00", 2, "b");
    let c = raw("2024-05-01T10:00:00", "2024-05-01T12:00:00", 3, "c");
    let schedule = ManuallyInputSchedule::from_raw(&RawManuallyInputSchedule {
        changes: vec![a, b],
        historical_changes: vec![c],
    })
    .unwrap();
    assert_eq!(schedule.changes.len(), 2);
    assert_eq!(schedule.changes[0].source, "a");
    assert_eq!(schedule.changes[0].start, local(2024, 6, 1, 10, 0));
    assert_eq!(schedule.changes[1].source, "b");
    assert_eq!(schedule.changes[1].finsh, local(2024, 6, 2, 12, 0));
    assert_eq!(schedule.historical_changes.len(), 1);
    assert_eq!(schedule.historical_changes[0].stage, 3);
    assert_eq!(schedule.historical_changes[0].start, local(2024, 5, 1, 10, 0));
}

#[test]
fn schedule_fails_on_malformed_event() {
    let good = raw("2024-06-01T10:00:00", "2024-06-01T12:00:00", 1, "a");
    let bad = raw("not-a-time", "2024-06-01T12:00:00", 1, "b");
    let r = ManuallyInputSchedule::from_raw(&RawManuallyInputSchedule {
        changes: vec![good],
        historical_changes: vec![bad],
    });
    assert_eq!(r.unwrap_err(), ConversionError::MalformedTimestamp(TimeField::Start));
}

#[test]
fn schedule_reports_first_failure() {
    let bad_finish = raw("2024-06-01T10:00:00", "soon", 1, "a");
    let bad_start = raw("never", "2024-06-01T12:00:00", 1, "b");
    let r = ManuallyInputSchedule::from_raw(&RawManuallyInputSchedule {
        changes: vec![bad_finish, bad_start],
        historical_changes: vec![],
    });
    assert_eq!(r.unwrap_err(), ConversionError::MalformedTimestamp(TimeField::Finish));
}

#[test]
fn empty_schedule_converts() {
    let s = ManuallyInputSchedule::from_raw(&RawManuallyInputSchedule {
        changes: vec![],
        historical_changes: vec![],
    })
    .unwrap();
    assert!(s.changes.is_empty());
    assert!(s.historical_changes.is_empty());
}
