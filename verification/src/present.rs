//! Rendering decoded weather data as display text.
//!
//! Both renderers are total and deterministic: the output is a function
//! of the input sequence alone, given exactly by the spec functions
//! here. An empty input yields a fixed sentinel line; otherwise each
//! record contributes one text block, in input order, and every block
//! ends with a line holding only the separator `---`.

use vstd::prelude::*;
use vstd::string::StringExecFns;

verus! {

use crate::report::{DayForecast, DayForecastView, Forecast, ForecastView, Live, LiveView};

/// The sentinel returned for an empty sequence of live reports.
pub open spec fn live_sentinel() -> Seq<char> {
    "No active alerts found."@
}

/// The sentinel returned for an empty sequence of forecasts.
pub open spec fn forecast_sentinel() -> Seq<char> {
    "No forecast data available."@
}

/// The text block that one live report contributes to the output.
pub open spec fn live_block(l: LiveView) -> Seq<char> {
    "省份: "@ + l.province + "\n城市: "@ + l.city + "\n天气: "@ + l.weather + "\n温度: "@
        + l.temperature + "°\n风向: "@ + l.winddirection + "("@ + l.windpower + ")\n---\n"@
}

/// The blocks of a sequence of live reports, concatenated in order.
pub open spec fn live_blocks(ls: Seq<LiveView>) -> Seq<char>
    decreases ls.len(),
{
    if ls.len() == 0 {
        Seq::<char>::empty()
    } else {
        live_blocks(ls.drop_last()) + live_block(ls.last())
    }
}

/// What `format_alerts` returns for a given sequence of live reports.
pub open spec fn format_live_spec(ls: Seq<LiveView>) -> Seq<char> {
    if ls.len() == 0 {
        live_sentinel()
    } else {
        live_blocks(ls)
    }
}

/// The daytime summary line of a day's forecast (with its trailing space).
pub open spec fn day_line(d: DayForecastView) -> Seq<char> {
    "\n白天: "@ + d.dayweather + " "@ + d.daytemp + "° "@ + d.daywind + "("@ + d.daypower
        + ") "@
}

/// The nighttime summary line of a day's forecast.
pub open spec fn night_line(d: DayForecastView) -> Seq<char> {
    "\n夜间: "@ + d.nightweather + " "@ + d.nighttemp + "° "@ + d.nightwind + "("@ + d.nightpower
        + ")"@
}

/// The text block that one day's forecast contributes to the output:
/// the date line, the daytime summary, the nighttime summary, and the
/// separator line.
pub open spec fn day_block(d: DayForecastView) -> Seq<char> {
    "日期: "@ + d.date + day_line(d) + night_line(d) + "\n---\n"@
}

/// The blocks of a sequence of day forecasts, concatenated in order.
pub open spec fn day_blocks(ds: Seq<DayForecastView>) -> Seq<char>
    decreases ds.len(),
{
    if ds.len() == 0 {
        Seq::<char>::empty()
    } else {
        day_blocks(ds.drop_last()) + day_block(ds.last())
    }
}

/// The blocks of a sequence of city forecasts: each city's day blocks,
/// cities in order, days in order within each city.
pub open spec fn forecast_blocks(fs: Seq<ForecastView>) -> Seq<char>
    decreases fs.len(),
{
    if fs.len() == 0 {
        Seq::<char>::empty()
    } else {
        forecast_blocks(fs.drop_last()) + day_blocks(fs.last().casts)
    }
}

/// What `format_forecast` returns for a given sequence of forecasts.
pub open spec fn format_forecast_spec(fs: Seq<ForecastView>) -> Seq<char> {
    if fs.len() == 0 {
        forecast_sentinel()
    } else {
        forecast_blocks(fs)
    }
}

/// Appends one live report's block to the output being built.
fn push_live_block(out: &mut String, alert: &Live)
    ensures
        final(out)@ == old(out)@ + live_block(alert@),
{
    out.append("省份: ");
    out.append(alert.province.as_str());
    out.append("\n城市: ");
    out.append(alert.city.as_str());
    out.append("\n天气: ");
    out.append(alert.weather.as_str());
    out.append("\n温度: ");
    out.append(alert.temperature.as_str());
    out.append("°\n风向: ");
    out.append(alert.winddirection.as_str());
    out.append("(");
    out.append(alert.windpower.as_str());
    out.append(")\n---\n");
    assert(out@ =~= old(out)@ + live_block(alert@));
}

/// Renders the live reports for display: the sentinel when there are
/// none, otherwise one block per report, in input order.
pub fn format_alerts(alerts: &[Live]) -> (result: String)
    ensures
        result@ == format_live_spec(alerts@.map_values(|l: Live| l@)),
{
    let ghost lviews = alerts@.map_values(|l: Live| l@);
    if alerts.len() == 0 {
        return String::from_str("No active alerts found.");
    }
    let mut result = String::new();
    let mut i: usize = 0;
    while i < alerts.len()
        invariant
            i <= alerts@.len(),
            lviews == alerts@.map_values(|l: Live| l@),
            result@ == live_blocks(lviews.take(i as int)),
        decreases alerts@.len() - i,
    {
        push_live_block(&mut result, &alerts[i]);
        proof {
            assert(lviews.take(i + 1).drop_last() =~= lviews.take(i as int));
            assert(lviews.take(i + 1).last() == lviews[i as int]);
        }
        i = i + 1;
    }
    proof {
        assert(lviews.take(lviews.len() as int) =~= lviews);
    }
    result
}

/// Appends one day's forecast block to the output being built.
fn push_day_block(out: &mut String, day: &DayForecast)
    ensures
        final(out)@ == old(out)@ + day_block(day@),
{
    out.append("日期: ");
    out.append(day.date.as_str());
    out.append("\n白天: ");
    out.append(day.dayweather.as_str());
    out.append(" ");
    out.append(day.daytemp.as_str());
    out.append("° ");
    out.append(day.daywind.as_str());
    out.append("(");
    out.append(day.daypower.as_str());
    out.append(") ");
    out.append("\n夜间: ");
    out.append(day.nightweather.as_str());
    out.append(" ");
    out.append(day.nighttemp.as_str());
    out.append("° ");
    out.append(day.nightwind.as_str());
    out.append("(");
    out.append(day.nightpower.as_str());
    out.append(")");
    out.append("\n---\n");
    assert(out@ =~= old(out)@ + day_block(day@));
}

/// Renders the forecasts for display: the sentinel when there are none,
/// otherwise one block per day, cities in input order and days in order
/// within each city.
pub fn format_forecast(periods: &[Forecast]) -> (result: String)
    ensures
        result@ == format_forecast_spec(periods@.map_values(|f: Forecast| f@)),
{
    let ghost fviews = periods@.map_values(|f: Forecast| f@);
    if periods.len() == 0 {
        return String::from_str("No forecast data available.");
    }
    let mut result = String::new();
    let mut i: usize = 0;
    while i < periods.len()
        invariant
            i <= periods@.len(),
            fviews == periods@.map_values(|f: Forecast| f@),
            result@ == forecast_blocks(fviews.take(i as int)),
        decreases periods@.len() - i,
    {
        let period = &periods[i];
        let ghost cviews = period@.casts;
        let mut j: usize = 0;
        while j < period.casts.len()
            invariant
                j <= period.casts@.len(),
                cviews == period@.casts,
                cviews == period.casts@.map_values(|d: DayForecast| d@),
                result@ == forecast_blocks(fviews.take(i as int)) + day_blocks(
                    cviews.take(j as int),
                ),
            decreases period.casts@.len() - j,
        {
            push_day_block(&mut result, &period.casts[j]);
            proof {
                assert(cviews.take(j + 1).drop_last() =~= cviews.take(j as int));
                assert(cviews.take(j + 1).last() == cviews[j as int]);
                assert(result@ =~= forecast_blocks(fviews.take(i as int)) + day_blocks(
                    cviews.take(j + 1),
                ));
            }
            j = j + 1;
        }
        proof {
            assert(cviews.take(cviews.len() as int) =~= cviews);
            assert(fviews.take(i + 1).drop_last() =~= fviews.take(i as int));
            assert(fviews.take(i + 1).last() == fviews[i as int]);
            assert(fviews[i as int].casts == cviews);
        }
        i = i + 1;
    }
    proof {
        assert(fviews.take(fviews.len() as int) =~= fviews);
    }
    result
}

/// Law: for a nonempty report sequence the rendered text is exactly the
/// reports' blocks in input order — each report contributes one block,
/// appended after the blocks of the reports before it.
pub proof fn lemma_format_live_is_blocks(ls: Seq<LiveView>)
    requires
        ls.len() > 0,
    ensures
        format_live_spec(ls) == live_blocks(ls),
        forall|i: int|
            0 <= i < ls.len() ==> live_blocks(ls.take(i + 1)) == live_blocks(ls.take(i))
                + #[trigger] live_block(ls[i]),
{
    assert forall|i: int|
        0 <= i < ls.len() implies live_blocks(ls.take(i + 1)) == live_blocks(ls.take(i))
        + #[trigger] live_block(ls[i]) by {
        assert(ls.take(i + 1).drop_last() =~= ls.take(i));
        assert(ls.take(i + 1).last() == ls[i]);
    }
}

/// Law: every live block ends with a line holding only the separator
/// `---`.
pub proof fn lemma_live_block_separator(l: LiveView)
    ensures
        live_block(l).len() >= 4,
        live_block(l).subrange(live_block(l).len() - 4, live_block(l).len() as int) == "---\n"@,
{
    reveal_strlit(")\n---\n");
    reveal_strlit("---\n");
    assert(live_block(l).subrange(live_block(l).len() - 4, live_block(l).len() as int)
        =~= "---\n"@);
}

/// Law: within one envelope, each day entry contributes one block,
/// appended after the blocks of the days before it — days render in
/// order.
pub proof fn lemma_day_blocks_per_day(ds: Seq<DayForecastView>)
    ensures
        forall|j: int|
            0 <= j < ds.len() ==> day_blocks(ds.take(j + 1)) == day_blocks(ds.take(j))
                + #[trigger] day_block(ds[j]),
{
    assert forall|j: int|
        0 <= j < ds.len() implies day_blocks(ds.take(j + 1)) == day_blocks(ds.take(j))
        + #[trigger] day_block(ds[j]) by {
        assert(ds.take(j + 1).drop_last() =~= ds.take(j));
        assert(ds.take(j + 1).last() == ds[j]);
    }
}

/// Law: every day block ends with a line holding only the separator
/// `---`; by construction it carries the daytime summary line and then
/// the nighttime summary line before that separator.
pub proof fn lemma_day_block_separator(d: DayForecastView)
    ensures
        day_block(d).len() >= 4,
        day_block(d).subrange(day_block(d).len() - 4, day_block(d).len() as int) == "---\n"@,
{
    reveal_strlit("\n---\n");
    reveal_strlit("---\n");
    assert(day_block(d).subrange(day_block(d).len() - 4, day_block(d).len() as int) =~= "---\n"@);
}

/// Law: an envelope with exactly two day entries renders to exactly the
/// first day's block followed by the second day's block.
pub proof fn lemma_two_day_forecast(f: ForecastView)
    requires
        f.casts.len() == 2,
    ensures
        format_forecast_spec(seq![f]) == day_block(f.casts[0]) + day_block(f.casts[1]),
{
    let fs = seq![f];
    let ds = f.casts;
    assert(fs.last() == f);
    assert(forecast_blocks(fs) == forecast_blocks(fs.drop_last()) + day_blocks(ds));
    assert(fs.drop_last() =~= Seq::<ForecastView>::empty());
    assert(forecast_blocks(Seq::<ForecastView>::empty()) == Seq::<char>::empty());
    assert(ds.last() == ds[1]);
    assert(day_blocks(ds) == day_blocks(ds.drop_last()) + day_block(ds[1]));
    assert(ds.drop_last().last() == ds[0]);
    assert(day_blocks(ds.drop_last()) == day_blocks(ds.drop_last().drop_last()) + day_block(
        ds[0],
    ));
    assert(ds.drop_last().drop_last() =~= Seq::<DayForecastView>::empty());
    assert(day_blocks(Seq::<DayForecastView>::empty()) == Seq::<char>::empty());
    assert(format_forecast_spec(fs) =~= day_block(ds[0]) + day_block(ds[1]));
}

/// Law: rendering live reports is deterministic — equal input
/// sequences yield identical text.
pub proof fn lemma_format_live_deterministic(a: Seq<LiveView>, b: Seq<LiveView>)
    requires
        a == b,
    ensures
        format_live_spec(a) == format_live_spec(b),
{
}

/// Law: rendering forecasts is deterministic — equal input sequences
/// yield identical text.
pub proof fn lemma_format_forecast_deterministic(a: Seq<ForecastView>, b: Seq<ForecastView>)
    requires
        a == b,
    ensures
        format_forecast_spec(a) == format_forecast_spec(b),
{
}

} // verus!
