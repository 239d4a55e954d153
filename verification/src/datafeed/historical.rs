//! From the ticks of a symbol to its enhanced series.

use crate::datafeed::bar_generator::generate_from_ticks;
use crate::datafeed::bar_generator::volume_bars;
use crate::domain::bar::bar_models;
use crate::domain::bar::closes;
use crate::domain::bar::Bar;
use crate::domain::indicators::Indicators;
use crate::domain::interval::Interval;
use crate::domain::resolution::Resolution;
use crate::domain::series::answers;
use crate::domain::series::EnhancedSeries;
use crate::domain::series::Series;
use crate::domain::tick::tick_models;
use crate::domain::tick::Tick;
use crate::storage::QueryResult;
use crate::text::lowercase;
use crate::text::lowercase_of;
use crate::text::uppercase;
use crate::text::uppercase_of;
use vstd::prelude::*;
use vstd::string::StringExecFns;

verus! {

/// Why no series could be made.
#[derive(Clone, Copy, Debug, PartialEq, Eq, Structural)]
pub enum SeriesError {
    /// There are no ticks to build from.
    NoDataFound,
    /// Only tick resolution can be built.
    UnsupportedResolution,
}

/// The text of a `SeriesError`.
pub fn describe(error: SeriesError) -> (r: String)
    ensures
        r@ == (match error {
            SeriesError::NoDataFound => "No data found"@,
            SeriesError::UnsupportedResolution => "Unsupported resolution type"@,
        }),
{
    match error {
        SeriesError::NoDataFound => "No data found".to_owned(),
        SeriesError::UnsupportedResolution => "Unsupported resolution type".to_owned(),
    }
}

/// The table that holds the data of an exchange at a resolution: the
/// exchange in lower case, an underscore and the resolution in lower case.
pub fn get_table_name(exchange: &String, resolution: &Resolution) -> (r: String)
    ensures
        r@ == lowercase_of(exchange@) + "_"@ + resolution.spec_lower_name(),
{
    let mut table_name = lowercase(exchange.as_str());
    let resolution = resolution.lower_name();
    table_name.append("_");
    table_name.append(resolution.as_str());
    table_name
}

/// The query for the ticks of a symbol on an exchange from a time on, and up
/// to a time where one is given. The symbol is put in upper case.
pub fn tick_query(symbol: &String, exchange: &String, from: &String, to: &Option<String>) -> (r:
    String)
    ensures
        r@ == "SELECT * FROM "@ + lowercase_of(exchange@) + "_"@
            + Resolution::TICK.spec_lower_name() + " WHERE symbol = '"@ + uppercase_of(symbol@)
            + "' AND timestamp >= '"@ + from@ + "'"@ + (match to {
            Some(t) => " AND timestamp <= '"@ + t@ + "'"@,
            None => Seq::empty(),
        }),
{
    let table_name = get_table_name(exchange, &Resolution::TICK);
    let symbol = uppercase(symbol.as_str());
    let mut query = "SELECT * FROM ".to_owned();
    query.append(table_name.as_str());
    query.append(" WHERE symbol = '");
    query.append(symbol.as_str());
    query.append("' AND timestamp >= '");
    query.append(from.as_str());
    query.append("'");
    match to {
        Some(t) => {
            let ghost head = query@;
            query.append(" AND timestamp <= '");
            query.append(t.as_str());
            query.append("'");
            assert(query@ =~= head + (" AND timestamp <= '"@ + t@ + "'"@));
        },
        None => {
            assert(query@ =~= query@ + Seq::<char>::empty());
        },
    }
    assert("SELECT * FROM "@ + table_name@ =~= "SELECT * FROM "@ + lowercase_of(exchange@) + "_"@
        + Resolution::TICK.spec_lower_name());
    query
}

/// The bars that ticks make, or `NoDataFound` where there are no ticks.
pub fn bars_from_ticks(ticks: &Vec<Tick>, interval: &Interval) -> (r: Result<
    QueryResult<Bar>,
    SeriesError,
>)
    ensures
        ticks.len() == 0 ==> r is Err && r->Err_0 == SeriesError::NoDataFound,
        ticks.len() > 0 ==> r is Ok && bar_models(r->Ok_0.data@) == volume_bars(
            tick_models(ticks@),
            interval.threshold(),
        ),
{
    if ticks.len() == 0 {
        return Err(SeriesError::NoDataFound);
    }
    Ok(QueryResult { data: generate_from_ticks(ticks, interval) })
}

/// The enhanced series of a symbol from its ticks.
///
/// Fails with `UnsupportedResolution` for any resolution but `TICK`, and
/// with `NoDataFound` where there are no ticks. Otherwise the ticks are
/// folded into bars of the interval, and each requested indicator is computed
/// over them; no request list stands for an empty one.
pub fn enhanced_series(
    symbol: &String,
    resolution: &Resolution,
    interval: &Interval,
    ticks: &Vec<Tick>,
    indicators: &Option<Vec<Indicators>>,
) -> (r: Result<EnhancedSeries, SeriesError>)
    ensures
        *resolution != Resolution::TICK ==> r == Err::<EnhancedSeries, SeriesError>(
            SeriesError::UnsupportedResolution,
        ),
        *resolution == Resolution::TICK && ticks.len() == 0 ==> r == Err::<
            EnhancedSeries,
            SeriesError,
        >(SeriesError::NoDataFound),
        *resolution == Resolution::TICK && ticks.len() > 0 ==> r is Ok && ({
            let series = r->Ok_0;
            let requests = match indicators {
                Some(list) => list@,
                None => Seq::empty(),
            };
            &&& series.symbol@ == symbol@
            &&& series.resolution == Resolution::TICK
            &&& series.interval == *interval
            &&& bar_models(series.data@) == volume_bars(tick_models(ticks@), interval.threshold())
            &&& series.indicators is Some
            &&& series.indicators->0.len() == requests.len()
            &&& forall|i: int|
                0 <= i < requests.len() ==> answers(
                    #[trigger] series.indicators->0[i],
                    requests[i],
                    closes(series.data@),
                )
        }),
{
    match resolution {
        Resolution::TICK => {},
        _ => {
            return Err(SeriesError::UnsupportedResolution);
        },
    }
    if ticks.len() == 0 {
        return Err(SeriesError::NoDataFound);
    }
    let bars = generate_from_ticks(ticks, interval);
    let series = Series::new(symbol.clone(), *resolution, *interval, bars);
    let enhanced = match indicators {
        Some(list) => series.enhance_with(list),
        None => {
            let none: Vec<Indicators> = Vec::new();
            series.enhance_with(&none)
        },
    };
    Ok(enhanced)
}

} // verus!
