//! The forecast snapshot: an ordered sequence of daily points indexed from 0
//! (today) upward. Index 1 is the "reference today" point that the staleness
//! decision compares to the current date; index 2 is the "tomorrow" point
//! that broadcasts and on-demand answers report.

use vstd::prelude::*;

use crate::errors::{EngineError, ErrorModel};

verus! {

/// Index of the point whose calendar date stands for "today".
pub const TODAY_INDEX: usize = 1;

/// Index of the point reported as "tomorrow".
pub const TOMORROW_INDEX: usize = 2;

/// A precipitation kind named by the forecast provider. Absence of
/// precipitation is the absence of a value, as the provider reports it.
#[derive(Clone, Copy, PartialEq, Eq, Structural, Debug)]
pub enum PrecipKind {
    Rain,
    Snow,
    Sleet,
}

/// One daily forecast point. Temperatures are in tenths of a degree, the
/// precipitation probability in whole percent; each field the provider may
/// omit is optional.
#[derive(Clone, Copy, Debug)]
pub struct DailyPoint {
    /// Epoch seconds of the point's calendar day.
    pub time: u64,
    /// Low temperature, tenths of a degree.
    pub temperature_low: Option<i32>,
    /// High temperature, tenths of a degree.
    pub temperature_high: Option<i32>,
    /// Precipitation kind, absent when none is forecast.
    pub precip_type: Option<PrecipKind>,
    /// Probability of precipitation, whole percent.
    pub precip_probability: Option<u8>,
}

/// The most recently fetched forecast: when it was fetched and the daily
/// points, which the provider may omit wholesale.
#[derive(Debug)]
pub struct ForecastSnapshot {
    /// Epoch seconds at which this snapshot was fetched.
    pub time: u64,
    /// The ordered daily points, absent if the response had no daily block.
    pub daily: Option<Vec<DailyPoint>>,
}

/// Reading the daily point at `idx`: absent daily block is a missing field,
/// too short a block is an index failure.
pub open spec fn spec_daily_point(s: ForecastSnapshot, idx: int) -> Result<DailyPoint, ErrorModel> {
    match s.daily {
        Option::None => Err(ErrorModel::MissingField("daily"@)),
        Option::Some(points) => if idx < points@.len() {
            Ok(points@[idx])
        } else {
            Err(ErrorModel::ArrayIndex)
        },
    }
}

impl ForecastSnapshot {
    /// Reads the daily point at `idx` or reports why it cannot be read.
    pub fn daily_point(&self, idx: usize) -> (r: Result<DailyPoint, EngineError>)
        ensures
            match r {
                Ok(p) => spec_daily_point(*self, idx as int) == Ok::<DailyPoint, ErrorModel>(p),
                Err(e) => spec_daily_point(*self, idx as int) == Err::<DailyPoint, ErrorModel>(
                    e@,
                ),
            },
    {
        match &self.daily {
            Option::None => Err(EngineError::MissingField("daily".to_owned())),
            Option::Some(points) => {
                if idx < points.len() {
                    Ok(points[idx])
                } else {
                    Err(EngineError::ArrayIndex)
                }
            },
        }
    }

    /// The "reference today" point (index 1).
    pub fn today(&self) -> (r: Result<DailyPoint, EngineError>)
        ensures
            match r {
                Ok(p) => spec_daily_point(*self, TODAY_INDEX as int) == Ok::<
                    DailyPoint,
                    ErrorModel,
                >(p),
                Err(e) => spec_daily_point(*self, TODAY_INDEX as int) == Err::<
                    DailyPoint,
                    ErrorModel,
                >(e@),
            },
    {
        self.daily_point(TODAY_INDEX)
    }

    /// The "tomorrow" point (index 2). On any snapshot whose daily block has
    /// fewer than 3 points this fails with `ArrayIndex`.
    pub fn tomorrow(&self) -> (r: Result<DailyPoint, EngineError>)
        ensures
            match r {
                Ok(p) => spec_daily_point(*self, TOMORROW_INDEX as int) == Ok::<
                    DailyPoint,
                    ErrorModel,
                >(p),
                Err(e) => spec_daily_point(*self, TOMORROW_INDEX as int) == Err::<
                    DailyPoint,
                    ErrorModel,
                >(e@),
            },
    {
        self.daily_point(TOMORROW_INDEX)
    }
}

} // verus!
