use chrono::Datelike;
use viber_alerts::errors::EngineError;
use viber_alerts::forecast::{DailyPoint, PrecipKind};
use viber_alerts::render::{format_message_parts, format_point_message};

fn point(
    time: u64,
    low: Option<i32>,
    high: Option<i32>,
    kind: Option<PrecipKind>,
    prob: Option<u8>,
) -> DailyPoint {
    DailyPoint {
        time,
        temperature_low: low,
        temperature_high: high,
        precip_type: kind,
        precip_probability: prob,
    }
}

#[test]
fn message_parts_exact() {
    assert_eq!(
        format_message_parts(12, 10, 20, 70, &Some(PrecipKind::Rain), 60),
        "Forecast for tomorrow 12.10:\nTemperature: 2.0 - 7.0\nPrecipitation: Rain with probability 60%"
    );
    assert_eq!(
        format_message_parts(1, 1, -35, 0, &None, 0),
        "Forecast for tomorrow 1.1:\nTemperature: -3.5 - 0.0\nPrecipitation: - with probability 0%"
    );
    assert_eq!(
        format_message_parts(31, 12, -123, 1234, &Some(PrecipKind::Sleet), 100),
        "Forecast for tomorrow 31.12:\nTemperature: -12.3 - 123.4\nPrecipitation: Sleet with probability 100%"
    );
    assert_eq!(
        format_message_parts(5, 2, 5, 9, &Some(PrecipKind::Snow), 7),
        "Forecast for tomorrow 5.2:\nTemperature: 0.5 - 0.9\nPrecipitation: Snow with probability 7%"
    );
}

#[test]
fn point_message_reads_real_calendar_date() {
    // 2026-10-12 12:00 UTC.
    let ts: u64 = 20738 * 86400 + 43200;
    let date = chrono::DateTime::from_timestamp(ts as i64, 0).unwrap();
    let expected = format!(
        "Forecast for tomorrow {}.{}:\nTemperature: 2.0 - 7.0\nPrecipitation: Rain with probability 60%",
        date.day(),
        date.month()
    );
    let m = format_point_message(&point(ts, Some(20), Some(70), Some(PrecipKind::Rain), Some(60)))
        .unwrap();
    assert_eq!(m, expected);
    assert!(m.contains("12.10"));
}

#[test]
fn point_message_missing_low() {
    match format_point_message(&point(0, None, Some(70), None, None)) {
        Err(EngineError::MissingField(name)) => assert_eq!(name, "low"),
        other => panic!("unexpected: {:?}", other),
    }
}

#[test]
fn point_message_missing_high() {
    match format_point_message(&point(0, Some(20), None, None, None)) {
        Err(EngineError::MissingField(name)) => assert_eq!(name, "high"),
        other => panic!("unexpected: {:?}", other),
    }
}

#[test]
fn point_message_kind_without_probability() {
    match format_point_message(&point(0, Some(20), Some(70), Some(PrecipKind::Rain), None)) {
        Err(EngineError::MissingField(name)) => assert_eq!(name, "precip_probability"),
        other => panic!("unexpected: {:?}", other),
    }
}

#[test]
fn point_message_absent_kind_defaults_explicitly() {
    // No precipitation kind: reported as "-" with probability 0, even when a
    // probability value is present.
    let m = format_point_message(&point(0, Some(0), Some(0), None, Some(55))).unwrap();
    assert_eq!(
        m,
        "Forecast for tomorrow 1.1:\nTemperature: 0.0 - 0.0\nPrecipitation: - with probability 0%"
    );
}
