//! Formatting of the "tomorrow" forecast message: date, temperature range,
//! precipitation kind and probability. The calendar day and month of the
//! point's timestamp come from chrono through a trusted wrapper; everything
//! built around them is verified character by character.

use vstd::prelude::*;

use crate::errors::{EngineError, ErrorModel};
use crate::forecast::{DailyPoint, PrecipKind};

verus! {

/// The day of month (1..=31) of a UTC epoch timestamp, as chrono computes it.
pub uninterp spec fn utc_day_of(ts: int) -> int;

/// The month (1..=12) of a UTC epoch timestamp, as chrono computes it.
pub uninterp spec fn utc_month_of(ts: int) -> int;

/// Relies on chrono's `DateTime::from_timestamp` and `Datelike::{day, month}`:
/// the calendar day and month of a UTC timestamp depend on the timestamp
/// alone; `day` is documented to start from 1 (at most 31), `month` to start
/// from 1 (at most 12). A timestamp outside chrono's representable range maps
/// to (1, 1).
#[verifier::external_body]
fn utc_day_month(ts: u64) -> (r: (u32, u32))
    ensures
        r.0 as int == utc_day_of(ts as int),
        r.1 as int == utc_month_of(ts as int),
        1 <= r.0 <= 31,
        1 <= r.1 <= 12,
{
    i64::try_from(ts)
        .ok()
        .and_then(|t| chrono::DateTime::from_timestamp(t, 0))
        .map_or((1, 1), |d| (chrono::Datelike::day(&d), chrono::Datelike::month(&d)))
}

/// The decimal digit character for `d` (0..=9).
pub open spec fn spec_digit(d: int) -> char {
    if d == 0 {
        '0'
    } else if d == 1 {
        '1'
    } else if d == 2 {
        '2'
    } else if d == 3 {
        '3'
    } else if d == 4 {
        '4'
    } else if d == 5 {
        '5'
    } else if d == 6 {
        '6'
    } else if d == 7 {
        '7'
    } else if d == 8 {
        '8'
    } else {
        '9'
    }
}

/// The decimal digits of a nonnegative integer, most significant first.
pub open spec fn spec_decimal(n: int) -> Seq<char>
    decreases n,
{
    if n < 10 {
        seq![spec_digit(n)]
    } else {
        spec_decimal(n / 10) + seq![spec_digit(n % 10)]
    }
}

/// A temperature in tenths of a degree rendered with one digit after the
/// decimal point, e.g. 20 -> "2.0" and -35 -> "-3.5".
pub open spec fn spec_tenths(t: int) -> Seq<char> {
    if t < 0 {
        seq!['-'] + spec_decimal((-t) / 10) + seq!['.'] + seq![spec_digit((-t) % 10)]
    } else {
        spec_decimal(t / 10) + seq!['.'] + seq![spec_digit(t % 10)]
    }
}

/// The label of a precipitation kind; absence is rendered as "-".
pub open spec fn spec_kind_label(kind: Option<PrecipKind>) -> Seq<char> {
    match kind {
        Option::None => "-"@,
        Option::Some(PrecipKind::Rain) => "Rain"@,
        Option::Some(PrecipKind::Snow) => "Snow"@,
        Option::Some(PrecipKind::Sleet) => "Sleet"@,
    }
}

/// The full broadcast message for given date parts, temperatures (tenths of
/// a degree), precipitation kind and probability (percent).
pub open spec fn spec_forecast_message(
    day: int,
    month: int,
    low: int,
    high: int,
    kind: Option<PrecipKind>,
    prob: int,
) -> Seq<char> {
    "Forecast for tomorrow "@ + spec_decimal(day) + "."@ + spec_decimal(month)
        + ":\nTemperature: "@ + spec_tenths(low) + " - "@ + spec_tenths(high)
        + "\nPrecipitation: "@ + spec_kind_label(kind) + " with probability "@ + spec_decimal(prob)
        + "%"@
}

/// The message owed for one daily point: the temperatures are required (a
/// missing one aborts with `MissingField`), a present precipitation kind
/// requires its probability, and an absent kind is reported explicitly as
/// "-" with probability 0.
pub open spec fn spec_point_message(p: DailyPoint) -> Result<Seq<char>, ErrorModel> {
    if p.temperature_low is None {
        Err(ErrorModel::MissingField("low"@))
    } else if p.temperature_high is None {
        Err(ErrorModel::MissingField("high"@))
    } else if p.precip_type is Some && p.precip_probability is None {
        Err(ErrorModel::MissingField("precip_probability"@))
    } else {
        Ok(
            spec_forecast_message(
                utc_day_of(p.time as int),
                utc_month_of(p.time as int),
                p.temperature_low->0 as int,
                p.temperature_high->0 as int,
                p.precip_type,
                if p.precip_type is Some {
                    p.precip_probability->0 as int
                } else {
                    0
                },
            ),
        )
    }
}

/// The one-character string for a decimal digit.
fn digit_str(d: u64) -> (s: &'static str)
    requires
        d < 10,
    ensures
        s@ =~= seq![spec_digit(d as int)],
{
    proof {
        reveal_strlit("0");
        reveal_strlit("1");
        reveal_strlit("2");
        reveal_strlit("3");
        reveal_strlit("4");
        reveal_strlit("5");
        reveal_strlit("6");
        reveal_strlit("7");
        reveal_strlit("8");
        reveal_strlit("9");
    }
    match d {
        0 => "0",
        1 => "1",
        2 => "2",
        3 => "3",
        4 => "4",
        5 => "5",
        6 => "6",
        7 => "7",
        8 => "8",
        _ => "9",
    }
}

/// Appends the decimal digits of `n` to `out`.
fn push_decimal(out: &mut String, n: u64)
    ensures
        final(out)@ == old(out)@ + spec_decimal(n as int),
    decreases n,
{
    if n >= 10 {
        push_decimal(out, n / 10);
    }
    out.append(digit_str(n % 10));
    proof {
        assert(old(out)@ + spec_decimal(n as int) =~= final(out)@);
    }
}

/// Appends a temperature in tenths of a degree, e.g. -35 as "-3.5".
fn push_tenths(out: &mut String, t: i32)
    ensures
        final(out)@ == old(out)@ + spec_tenths(t as int),
{
    let magnitude: u64 = if t < 0 {
        out.append("-");
        (-(t as i64)) as u64
    } else {
        t as u64
    };
    push_decimal(out, magnitude / 10);
    out.append(".");
    push_decimal(out, magnitude % 10);
    proof {
        reveal_strlit("-");
        reveal_strlit(".");
        assert(final(out)@ =~= old(out)@ + spec_tenths(t as int));
    }
}

/// The label shown for a precipitation kind.
fn kind_label(kind: &Option<PrecipKind>) -> (s: &'static str)
    ensures
        s@ == spec_kind_label(*kind),
{
    match kind {
        Option::None => "-",
        Option::Some(PrecipKind::Rain) => "Rain",
        Option::Some(PrecipKind::Snow) => "Snow",
        Option::Some(PrecipKind::Sleet) => "Sleet",
    }
}

/// Builds the broadcast message from already-extracted parts: calendar day
/// and month, temperatures in tenths of a degree, precipitation kind and
/// probability in percent.
pub fn format_message_parts(
    day: u32,
    month: u32,
    low: i32,
    high: i32,
    kind: &Option<PrecipKind>,
    prob: u8,
) -> (r: String)
    ensures
        r@ == spec_forecast_message(
            day as int,
            month as int,
            low as int,
            high as int,
            *kind,
            prob as int,
        ),
{
    let mut out = "Forecast for tomorrow ".to_owned();
    push_decimal(&mut out, day as u64);
    out.append(".");
    push_decimal(&mut out, month as u64);
    out.append(":\nTemperature: ");
    push_tenths(&mut out, low);
    out.append(" - ");
    push_tenths(&mut out, high);
    out.append("\nPrecipitation: ");
    out.append(kind_label(kind));
    out.append(" with probability ");
    push_decimal(&mut out, prob as u64);
    out.append("%");
    proof {
        assert(out@ =~= spec_forecast_message(
            day as int,
            month as int,
            low as int,
            high as int,
            *kind,
            prob as int,
        ));
    }
    out
}

/// Formats the message for one daily point, or reports the missing field
/// that prevents it. The date is read from the point's timestamp.
pub fn format_point_message(p: &DailyPoint) -> (r: Result<String, EngineError>)
    ensures
        match r {
            Ok(m) => spec_point_message(*p) == Ok::<Seq<char>, ErrorModel>(m@),
            Err(e) => spec_point_message(*p) == Err::<Seq<char>, ErrorModel>(e@),
        },
{
    let low = match p.temperature_low {
        Option::Some(v) => v,
        Option::None => {
            return Err(EngineError::MissingField("low".to_owned()));
        },
    };
    let high = match p.temperature_high {
        Option::Some(v) => v,
        Option::None => {
            return Err(EngineError::MissingField("high".to_owned()));
        },
    };
    let prob: u8 = match p.precip_type {
        Option::Some(_) => match p.precip_probability {
            Option::Some(v) => v,
            Option::None => {
                return Err(EngineError::MissingField("precip_probability".to_owned()));
            },
        },
        Option::None => 0,
    };
    let (day, month) = utc_day_month(p.time);
    Ok(format_message_parts(day, month, low, high, &p.precip_type, prob))
}

} // verus!
