//! The text of the reports, in Chinese or English.
use vstd::prelude::*;
use vstd::string::*;
use crate::model::{days_view, CurrentView, CurrentWeather, DailyData, DailyView, Secret, WeatherError};
use crate::response::{current_from_response, current_of_response, future_from_response, future_of_response};

verus! {

/// The languages that reports are written in.
#[derive(Clone, Copy, Debug, PartialEq, Eq, Structural)]
pub enum Lang {
    Zh,
    En,
}

/// The report language that a language code selects; other codes select none.
pub open spec fn lang_of(language: Seq<char>) -> Option<Lang> {
    if language == "zh-Hans"@ {
        Some(Lang::Zh)
    } else if language == "en"@ {
        Some(Lang::En)
    } else {
        None
    }
}

/// The Chinese names of the known city codes.
pub open spec fn city_table() -> Seq<(Seq<char>, Seq<char>)> {
    seq![
        ("GuangZhou"@, "广州"@),
        ("ShenZhen"@, "深圳"@),
        ("ShangHai"@, "上海"@),
        ("BeiJing"@, "北京"@),
    ]
}

/// The name that the first entry with key `key` gives.
pub open spec fn lookup(table: Seq<(Seq<char>, Seq<char>)>, key: Seq<char>) -> Option<Seq<char>>
    decreases table.len(),
{
    if table.len() == 0 {
        None
    } else if table[0].0 == key {
        Some(table[0].1)
    } else {
        lookup(table.drop_first(), key)
    }
}

/// The name under which a location is shown: its Chinese name in Chinese
/// reports where the table has one, else the code itself.
pub open spec fn location_name(location: Seq<char>, language: Seq<char>) -> Seq<char> {
    if language == "zh-Hans"@ {
        match lookup(city_table(), location) {
            Some(name) => name,
            None => location,
        }
    } else {
        location
    }
}

pub open spec fn day_label(l: Lang) -> Seq<char> {
    match l {
        Lang::Zh => "白天："@,
        Lang::En => "Day: "@,
    }
}

pub open spec fn night_label(l: Lang) -> Seq<char> {
    match l {
        Lang::Zh => "夜晚："@,
        Lang::En => "Night: "@,
    }
}

/// The one-line header of the present conditions.
pub open spec fn header_text(name: Seq<char>, c: CurrentView) -> Seq<char> {
    "\n"@ + name + " (￣︶￣)↗ |"@ + c.text + " | "@ + c.temperature + "°C"@
}

/// The segment of one day in the forecast text.
pub open spec fn forecast_segment(l: Lang, d: DailyView) -> Seq<char> {
    "·"@ + d.date + " | "@ + day_label(l) + d.text_day + " | "@ + night_label(l) + d.text_night
        + " | "@ + d.low + "°C ~ "@ + d.high + "°C ~ "@ + "\n"@
}

/// The forecast text: the segments of the days, in order.
pub open spec fn forecast_text(l: Lang, days: Seq<DailyView>) -> Seq<char>
    decreases days.len(),
{
    if days.len() == 0 {
        Seq::empty()
    } else {
        forecast_text(l, days.drop_last()) + forecast_segment(l, days.last())
    }
}

/// The lines of one day in the full report.
pub open spec fn report_day(l: Lang, d: DailyView) -> Seq<char> {
    "·\n"@ + d.date + " | "@ + day_label(l) + d.text_day + " | "@ + night_label(l) + d.text_night
        + " | "@ + d.low + "°C ~ "@ + d.high + "°C\n"@
}

/// The day lines of the full report, in order.
pub open spec fn report_days(l: Lang, days: Seq<DailyView>) -> Seq<char>
    decreases days.len(),
{
    if days.len() == 0 {
        Seq::empty()
    } else {
        report_days(l, days.drop_last()) + report_day(l, days.last())
    }
}

/// The header text for a secret; empty for an unsupported language.
pub open spec fn current_text(secret: Secret, c: CurrentView) -> Seq<char> {
    match lang_of(secret.language@) {
        Some(_) => header_text(location_name(secret.location@, secret.language@), c),
        None => Seq::empty(),
    }
}

/// The forecast text for a secret; empty for an unsupported language.
pub open spec fn future_text(secret: Secret, days: Seq<DailyView>) -> Seq<char> {
    match lang_of(secret.language@) {
        Some(l) => forecast_text(l, days),
        None => Seq::empty(),
    }
}

/// The full report for a secret; empty for an unsupported language.
pub open spec fn report_text(secret: Secret, c: CurrentView, days: Seq<DailyView>) -> Seq<char> {
    match lang_of(secret.language@) {
        Some(l) => "\n"@ + location_name(secret.location@, secret.language@) + " (￣︶￣)↗ | "@
            + c.text + " | "@ + c.temperature + "°C\n"@ + report_days(l, days),
        None => Seq::empty(),
    }
}

/// Whether two texts hold the same characters.
pub fn same_text(a: &str, b: &str) -> (r: bool)
    ensures
        r == (a@ == b@),
{
    let n = a.unicode_len();
    if n != b.unicode_len() {
        return false;
    }
    let mut i: usize = 0;
    while i < n
        invariant
            n == a@.len(),
            n == b@.len(),
            i <= n,
            forall|k: int| 0 <= k < i ==> a@[k] == b@[k],
        decreases n - i,
    {
        if a.get_char(i) != b.get_char(i) {
            return false;
        }
        i = i + 1;
    }
    assert(a@ =~= b@);
    true
}

/// The report language that a language code selects.
pub fn lang_from(language: &str) -> (r: Option<Lang>)
    ensures
        r == lang_of(language@),
{
    if same_text(language, "zh-Hans") {
        Some(Lang::Zh)
    } else if same_text(language, "en") {
        Some(Lang::En)
    } else {
        None
    }
}

pub open spec fn table_view(t: Seq<(&str, &str)>) -> Seq<(Seq<char>, Seq<char>)> {
    Seq::new(t.len(), |i: int| (t[i].0@, t[i].1@))
}

/// The table of Chinese city names.
pub fn city_names() -> (r: Vec<(&'static str, &'static str)>)
    ensures
        table_view(r@) == city_table(),
{
    let r = vec![("GuangZhou", "广州"), ("ShenZhen", "深圳"), ("ShangHai", "上海"), ("BeiJing", "北京")];
    assert(table_view(r@) =~= city_table());
    r
}

/// The name under which a location is shown in a report of the given
/// language.
pub fn display_name(location: &str, language: &str) -> (r: String)
    ensures
        r@ == location_name(location@, language@),
{
    if !same_text(language, "zh-Hans") {
        return location.to_owned();
    }
    let table = city_names();
    let ghost t = table_view(table@);
    let mut i: usize = 0;
    assert(t.skip(0) =~= t);
    while i < table.len()
        invariant
            t == table_view(table@),
            t == city_table(),
            language@ == "zh-Hans"@,
            i <= t.len(),
            lookup(t, location@) == lookup(t.skip(i as int), location@),
        decreases table.len() - i,
    {
        assert(t.skip(i as int).drop_first() =~= t.skip(i + 1));
        let (key, name) = table[i];
        if same_text(key, location) {
            return name.to_owned();
        }
        i = i + 1;
    }
    location.to_owned()
}

fn append_header(out: &mut String, name: &str, current: &CurrentWeather)
    ensures
        final(out)@ == old(out)@ + header_text(name@, current@),
{
    out.append("\n");
    out.append(name);
    out.append(" (￣︶￣)↗ |");
    out.append(current.text.as_str());
    out.append(" | ");
    out.append(current.temperature.as_str());
    out.append("°C");
    assert(final(out)@ =~= old(out)@ + header_text(name@, current@));
}

fn day_label_text(l: Lang) -> (r: &'static str)
    ensures
        r@ == day_label(l),
{
    match l {
        Lang::Zh => "白天：",
        Lang::En => "Day: ",
    }
}

fn night_label_text(l: Lang) -> (r: &'static str)
    ensures
        r@ == night_label(l),
{
    match l {
        Lang::Zh => "夜晚：",
        Lang::En => "Night: ",
    }
}

/// Appends the day, night and temperature parts that both day layouts share.
fn append_day_body(out: &mut String, l: Lang, d: &DailyData)
    ensures
        final(out)@ == old(out)@ + d.date@ + " | "@ + day_label(l) + d.text_day@ + " | "@
            + night_label(l) + d.text_night@ + " | "@ + d.low@ + "°C ~ "@ + d.high@,
{
    out.append(d.date.as_str());
    out.append(" | ");
    out.append(day_label_text(l));
    out.append(d.text_day.as_str());
    out.append(" | ");
    out.append(night_label_text(l));
    out.append(d.text_night.as_str());
    out.append(" | ");
    out.append(d.low.as_str());
    out.append("°C ~ ");
    out.append(d.high.as_str());
    assert(final(out)@ =~= old(out)@ + d.date@ + " | "@ + day_label(l) + d.text_day@ + " | "@
        + night_label(l) + d.text_night@ + " | "@ + d.low@ + "°C ~ "@ + d.high@);
}

fn append_forecast_segment(out: &mut String, l: Lang, d: &DailyData)
    ensures
        final(out)@ == old(out)@ + forecast_segment(l, d@),
{
    out.append("·");
    append_day_body(out, l, d);
    out.append("°C ~ ");
    out.append("\n");
    assert(final(out)@ =~= old(out)@ + forecast_segment(l, d@));
}

fn append_report_day(out: &mut String, l: Lang, d: &DailyData)
    ensures
        final(out)@ == old(out)@ + report_day(l, d@),
{
    out.append("·\n");
    append_day_body(out, l, d);
    out.append("°C\n");
    assert(final(out)@ =~= old(out)@ + report_day(l, d@));
}

fn forecast_string(l: Lang, days: &Vec<DailyData>) -> (r: String)
    ensures
        r@ == forecast_text(l, days_view(days@)),
{
    let ghost dv = days_view(days@);
    let mut out = String::new();
    let mut i: usize = 0;
    assert(dv.take(0) =~= Seq::<DailyView>::empty());
    while i < days.len()
        invariant
            dv == days_view(days@),
            i <= days@.len(),
            out@ == forecast_text(l, dv.take(i as int)),
        decreases days.len() - i,
    {
        append_forecast_segment(&mut out, l, &days[i]);
        assert(dv.take(i + 1).drop_last() =~= dv.take(i as int));
        i = i + 1;
    }
    assert(dv.take(i as int) =~= dv);
    out
}

fn report_days_string(out: &mut String, l: Lang, days: &Vec<DailyData>)
    ensures
        final(out)@ == old(out)@ + report_days(l, days_view(days@)),
{
    let ghost dv = days_view(days@);
    let ghost start = out@;
    let mut i: usize = 0;
    assert(dv.take(0) =~= Seq::<DailyView>::empty());
    assert(out@ =~= start + report_days(l, dv.take(0)));
    while i < days.len()
        invariant
            dv == days_view(days@),
            i <= days@.len(),
            out@ == start + report_days(l, dv.take(i as int)),
        decreases days.len() - i,
    {
        append_report_day(out, l, &days[i]);
        assert(dv.take(i + 1).drop_last() =~= dv.take(i as int));
        assert(out@ =~= start + report_days(l, dv.take(i + 1)));
        i = i + 1;
    }
    assert(dv.take(i as int) =~= dv);
}

/// The header line of the present conditions; empty for a language other
/// than `"en"` and `"zh-Hans"`.
pub fn render_current(secret: &Secret, current: &CurrentWeather) -> (r: String)
    ensures
        r@ == current_text(*secret, current@),
{
    let mut out = String::new();
    match lang_from(secret.language.as_str()) {
        Some(_) => {
            let name = display_name(secret.location.as_str(), secret.language.as_str());
            append_header(&mut out, name.as_str(), current);
            assert(out@ =~= current_text(*secret, current@));
        },
        None => {},
    }
    out
}

/// The forecast text, one segment per day ending in a newline; empty for a
/// language other than `"en"` and `"zh-Hans"`.
pub fn render_future(secret: &Secret, days: &Vec<DailyData>) -> (r: String)
    ensures
        r@ == future_text(*secret, days_view(days@)),
{
    match lang_from(secret.language.as_str()) {
        Some(l) => forecast_string(l, days),
        None => String::new(),
    }
}

/// The full report: the present conditions, then one block per forecast
/// day; empty for a language other than `"en"` and `"zh-Hans"`.
pub fn render_report(secret: &Secret, current: &CurrentWeather, days: &Vec<DailyData>) -> (r: String)
    ensures
        r@ == report_text(*secret, current@, days_view(days@)),
{
    let mut out = String::new();
    match lang_from(secret.language.as_str()) {
        Some(l) => {
            let name = display_name(secret.location.as_str(), secret.language.as_str());
            out.append("\n");
            out.append(name.as_str());
            out.append(" (￣︶￣)↗ | ");
            out.append(current.text.as_str());
            out.append(" | ");
            out.append(current.temperature.as_str());
            out.append("°C\n");
            report_days_string(&mut out, l, days);
            assert(out@ =~= report_text(*secret, current@, days_view(days@)));
        },
        None => {},
    }
    out
}

/// The header line that an answer of the `now` endpoint gives.
pub open spec fn current_report_of(secret: Secret, status: u16, body: Seq<char>) -> Result<
    Seq<char>,
    WeatherError,
> {
    match current_of_response(status, body) {
        Ok(c) => Ok(current_text(secret, c)),
        Err(e) => Err(e),
    }
}

/// The forecast text that an answer of the `daily` endpoint gives.
pub open spec fn future_report_of(secret: Secret, status: u16, body: Seq<char>) -> Result<
    Seq<char>,
    WeatherError,
> {
    match future_of_response(status, body) {
        Ok(ds) => Ok(future_text(secret, ds)),
        Err(e) => Err(e),
    }
}

/// The full report that the answers of both endpoints give; the first
/// failure, in the order of the requests, decides the error.
pub open spec fn full_report_of(
    secret: Secret,
    now_status: u16,
    now_body: Seq<char>,
    daily_status: u16,
    daily_body: Seq<char>,
) -> Result<Seq<char>, WeatherError> {
    match current_of_response(now_status, now_body) {
        Err(e) => Err(e),
        Ok(c) => match future_of_response(daily_status, daily_body) {
            Err(e) => Err(e),
            Ok(ds) => Ok(report_text(secret, c, ds)),
        },
    }
}

pub open spec fn text_result_view(r: Result<String, WeatherError>) -> Result<Seq<char>, WeatherError> {
    match r {
        Ok(s) => Ok(s@),
        Err(e) => Err(e),
    }
}

/// The header line of the present conditions, from the status and body of
/// an answer of the `now` endpoint.
pub fn show_current_data(secret: &Secret, status: u16, body: &str) -> (r: Result<String, WeatherError>)
    ensures
        text_result_view(r) == current_report_of(*secret, status, body@),
{
    let current = current_from_response(status, body)?;
    Ok(render_current(secret, &current))
}

/// The forecast text of the days after today, from the status and body of
/// an answer of the `daily` endpoint.
pub fn show_furture_data(secret: &Secret, status: u16, body: &str) -> (r: Result<String, WeatherError>)
    ensures
        text_result_view(r) == future_report_of(*secret, status, body@),
{
    let days = future_from_response(status, body)?;
    Ok(render_future(secret, &days))
}

/// The full report, from the answers of the `now` and `daily` endpoints.
pub fn show_data(
    secret: &Secret,
    now_status: u16,
    now_body: &str,
    daily_status: u16,
    daily_body: &str,
) -> (r: Result<String, WeatherError>)
    ensures
        text_result_view(r) == full_report_of(*secret, now_status, now_body@, daily_status, daily_body@),
{
    let current = current_from_response(now_status, now_body)?;
    let days = future_from_response(daily_status, daily_body)?;
    Ok(render_report(secret, &current, &days))
}

} // verus!
