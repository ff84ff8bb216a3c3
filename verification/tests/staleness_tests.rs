use viber_alerts::engine::EngineState;
use viber_alerts::errors::EngineError;
use viber_alerts::forecast::{DailyPoint, ForecastSnapshot};

// 2026-10-11 00:00 UTC and the day after.
const DAY_D: u64 = 20737 * 86400;
const DAY_D1: u64 = 20738 * 86400;

fn point(time: u64) -> DailyPoint {
    DailyPoint {
        time,
        temperature_low: Some(20),
        temperature_high: Some(70),
        precip_type: None,
        precip_probability: None,
    }
}

fn snapshot_with_reference_day(day_start: u64) -> ForecastSnapshot {
    ForecastSnapshot {
        time: day_start,
        daily: Some(vec![
            point(day_start - 86400 + 43200),
            point(day_start + 43200),
            point(day_start + 86400 + 43200),
        ]),
    }
}

#[test]
fn no_snapshot_is_always_stale() {
    let st = EngineState::new();
    assert!(st.needs_refetch(DAY_D));
    assert!(st.needs_refetch(0));
}

#[test]
fn fresh_snapshot_is_not_stale_twice_within_same_date() {
    let mut st = EngineState::new();
    assert!(st.needs_refetch(DAY_D + 3600));
    st.install_fetch_result(Ok(snapshot_with_reference_day(DAY_D)));
    // Two checks within the same calendar reference date: both no-ops.
    assert!(!st.needs_refetch(DAY_D + 7200));
    assert!(!st.needs_refetch(DAY_D + 86399));
}

#[test]
fn rollover_fires_exactly_once() {
    let mut st = EngineState::new();
    st.install_fetch_result(Ok(snapshot_with_reference_day(DAY_D)));
    // Day D: not stale.
    assert!(!st.needs_refetch(DAY_D + 50000));
    // Day D+1: stale, until the refetch lands...
    assert!(st.needs_refetch(DAY_D1 + 100));
    st.install_fetch_result(Ok(snapshot_with_reference_day(DAY_D1)));
    // ...after which the rest of day D+1 is quiet.
    assert!(!st.needs_refetch(DAY_D1 + 200));
    assert!(!st.needs_refetch(DAY_D1 + 86000));
}

#[test]
fn snapshot_with_too_few_points_is_stale() {
    let mut st = EngineState::new();
    st.install_fetch_result(Ok(ForecastSnapshot { time: DAY_D, daily: Some(vec![point(DAY_D)]) }));
    assert!(st.needs_refetch(DAY_D + 100));
}

#[test]
fn snapshot_without_daily_block_is_stale() {
    let mut st = EngineState::new();
    st.install_fetch_result(Ok(ForecastSnapshot { time: DAY_D, daily: None }));
    assert!(st.needs_refetch(DAY_D + 100));
}

#[test]
fn failed_fetch_retains_previous_snapshot() {
    let mut st = EngineState::new();
    st.install_fetch_result(Ok(snapshot_with_reference_day(DAY_D)));
    assert!(!st.needs_refetch(DAY_D + 100));
    st.install_fetch_result(Err(EngineError::NetworkError));
    st.install_fetch_result(Err(EngineError::NonSuccessStatus("bad gateway".to_owned())));
    st.install_fetch_result(Err(EngineError::ParseError));
    // The cached snapshot survived every failure.
    assert!(!st.needs_refetch(DAY_D + 200));
    assert!(st.last_response.is_some());
}

#[test]
fn tomorrow_point_fails_with_array_index_under_three_points() {
    for n in 0..3u64 {
        let snap = ForecastSnapshot {
            time: DAY_D,
            daily: Some((0..n).map(|i| point(DAY_D + i * 86400)).collect()),
        };
        assert!(matches!(snap.tomorrow(), Err(EngineError::ArrayIndex)));
    }
}

#[test]
fn tomorrow_point_reads_index_two() {
    let snap = snapshot_with_reference_day(DAY_D);
    let p = snap.tomorrow().unwrap();
    assert_eq!(p.time, DAY_D + 86400 + 43200);
    let t = snap.today().unwrap();
    assert_eq!(t.time, DAY_D + 43200);
}

#[test]
fn tomorrow_point_without_daily_block_is_missing_field() {
    let snap = ForecastSnapshot { time: DAY_D, daily: None };
    match snap.tomorrow() {
        Err(EngineError::MissingField(name)) => assert_eq!(name, "daily"),
        other => panic!("unexpected: {:?}", other),
    }
}
