//! Request URLs, and the decoding of the provider's answers into weather
//! records.
use vstd::prelude::*;
use vstd::string::*;
use crate::json::{
    field, item, json_array, json_field, json_item, json_model, json_parse, json_text, opt_model,
    parse_json, text_of, JsonModel,
};
use crate::model::{days_view, CurrentView, CurrentWeather, DailyData, DailyView, Secret, WeatherError};

verus! {

/// The provider's API root.
pub const BASE_URL: &'static str = "https://api.seniverse.com/v3/weather";

/// Whether an HTTP status is a success (2xx).
pub open spec fn status_ok(status: u16) -> bool {
    200 <= status <= 299
}

/// The query string shared by both endpoints.
pub open spec fn query_spec(secret: Secret) -> Seq<char> {
    "?key="@ + secret.api_key@ + "&location="@ + secret.location@ + "&language="@
        + secret.language@ + "&unit=c"@
}

pub open spec fn current_url_spec(secret: Secret) -> Seq<char> {
    BASE_URL@ + "/now.json"@ + query_spec(secret)
}

pub open spec fn future_url_spec(secret: Secret) -> Seq<char> {
    BASE_URL@ + "/daily.json"@ + query_spec(secret) + "&start=0&days=3"@
}

/// The first location result of an answer.
pub open spec fn first_result(j: JsonModel) -> Option<JsonModel> {
    match field(j, "results"@) {
        Some(a) => item(a, 0),
        None => None,
    }
}

/// The present conditions that a location result holds.
pub open spec fn now_of(r: JsonModel) -> Option<CurrentView> {
    match field(r, "now"@) {
        Some(n) => match (field(n, "text"@), field(n, "temperature"@)) {
            (Some(t), Some(c)) => match (text_of(t), text_of(c)) {
                (Some(ts), Some(cs)) => Some(CurrentView { text: ts, temperature: cs }),
                _ => None,
            },
            _ => None,
        },
        None => None,
    }
}

pub open spec fn str_field(j: JsonModel, key: Seq<char>) -> Option<Seq<char>> {
    match field(j, key) {
        Some(v) => text_of(v),
        None => None,
    }
}

/// One forecast day as a daily entry holds it.
pub open spec fn day_of(e: JsonModel) -> Option<DailyView> {
    match (
        str_field(e, "date"@),
        str_field(e, "text_day"@),
        str_field(e, "text_night"@),
        str_field(e, "low"@),
        str_field(e, "high"@),
    ) {
        (Some(date), Some(text_day), Some(text_night), Some(low), Some(high)) => Some(
            DailyView { date, text_day, text_night, low, high },
        ),
        _ => None,
    }
}

/// All the days of a forecast, if every entry is well formed.
pub open spec fn days_of(es: Seq<JsonModel>) -> Option<Seq<DailyView>> {
    if forall|i: int| 0 <= i < es.len() ==> (#[trigger] day_of(es[i])) is Some {
        Some(Seq::new(es.len(), |i: int| day_of(es[i])->Some_0))
    } else {
        None
    }
}

/// The present conditions that a decoded answer gives.
pub open spec fn current_of_json(j: JsonModel) -> Result<CurrentView, WeatherError> {
    match first_result(j) {
        None => Err(WeatherError::EmptyResult),
        Some(r) => match now_of(r) {
            Some(c) => Ok(c),
            None => Err(WeatherError::Decode),
        },
    }
}

/// The forecast days after today that a decoded answer gives. The
/// provider's forecast starts with today, so a forecast without days holds
/// no result.
pub open spec fn future_of_json(j: JsonModel) -> Result<Seq<DailyView>, WeatherError> {
    match first_result(j) {
        None => Err(WeatherError::EmptyResult),
        Some(r) => match field(r, "daily"@) {
            Some(JsonModel::Array(es)) => if es.len() == 0 {
                Err(WeatherError::EmptyResult)
            } else {
                match days_of(es) {
                    Some(ds) => Ok(ds.drop_first()),
                    None => Err(WeatherError::Decode),
                }
            },
            _ => Err(WeatherError::Decode),
        },
    }
}

/// The present conditions that an HTTP answer gives.
pub open spec fn current_of_response(status: u16, body: Seq<char>) -> Result<
    CurrentView,
    WeatherError,
> {
    if !status_ok(status) {
        Err(WeatherError::HttpStatus(status))
    } else {
        match json_parse(body) {
            Some(j) => current_of_json(j),
            None => Err(WeatherError::Decode),
        }
    }
}

/// The forecast days after today that an HTTP answer gives.
pub open spec fn future_of_response(status: u16, body: Seq<char>) -> Result<
    Seq<DailyView>,
    WeatherError,
> {
    if !status_ok(status) {
        Err(WeatherError::HttpStatus(status))
    } else {
        match json_parse(body) {
            Some(j) => future_of_json(j),
            None => Err(WeatherError::Decode),
        }
    }
}

pub open spec fn current_result_view(r: Result<CurrentWeather, WeatherError>) -> Result<
    CurrentView,
    WeatherError,
> {
    match r {
        Ok(c) => Ok(c@),
        Err(e) => Err(e),
    }
}

pub open spec fn future_result_view(r: Result<Vec<DailyData>, WeatherError>) -> Result<
    Seq<DailyView>,
    WeatherError,
> {
    match r {
        Ok(v) => Ok(days_view(v@)),
        Err(e) => Err(e),
    }
}

/// Whether an HTTP status is a success (2xx).
pub fn is_success(status: u16) -> (r: bool)
    ensures
        r == status_ok(status),
{
    200 <= status && status <= 299
}

fn append_query(url: &mut String, secret: &Secret)
    ensures
        final(url)@ == old(url)@ + query_spec(*secret),
{
    url.append("?key=");
    url.append(secret.api_key.as_str());
    url.append("&location=");
    url.append(secret.location.as_str());
    url.append("&language=");
    url.append(secret.language.as_str());
    url.append("&unit=c");
    assert(final(url)@ =~= old(url)@ + query_spec(*secret));
}

/// The URL of the present conditions at the secret's location.
pub fn current_url(secret: &Secret) -> (r: String)
    ensures
        r@ == current_url_spec(*secret),
{
    let mut url = String::from_str(BASE_URL);
    url.append("/now.json");
    append_query(&mut url, secret);
    assert(url@ =~= current_url_spec(*secret));
    url
}

/// The URL of the three-day forecast, today first, at the secret's location.
pub fn future_url(secret: &Secret) -> (r: String)
    ensures
        r@ == future_url_spec(*secret),
{
    let mut url = String::from_str(BASE_URL);
    url.append("/daily.json");
    append_query(&mut url, secret);
    url.append("&start=0&days=3");
    assert(url@ =~= future_url_spec(*secret));
    url
}

fn string_field(v: &serde_json::Value, key: &str) -> (r: Option<String>)
    ensures
        match r {
            Some(s) => str_field(json_model(*v), key@) == Some(s@),
            None => str_field(json_model(*v), key@) is None,
        },
{
    match json_field(v, key) {
        Some(f) => match json_text(f) {
            Some(s) => Some(s.to_owned()),
            None => None,
        },
        None => None,
    }
}

fn first_result_of(v: &serde_json::Value) -> (r: Option<&serde_json::Value>)
    ensures
        opt_model(r) == first_result(json_model(*v)),
{
    match json_field(v, "results") {
        Some(a) => json_item(a, 0),
        None => None,
    }
}

/// The present conditions in a decoded answer of the `now` endpoint.
pub fn current_from_json(v: &serde_json::Value) -> (r: Result<CurrentWeather, WeatherError>)
    ensures
        current_result_view(r) == current_of_json(json_model(*v)),
{
    let result = match first_result_of(v) {
        Some(x) => x,
        None => return Err(WeatherError::EmptyResult),
    };
    let now = match json_field(result, "now") {
        Some(n) => n,
        None => return Err(WeatherError::Decode),
    };
    let text = string_field(now, "text");
    let temperature = string_field(now, "temperature");
    match (text, temperature) {
        (Some(text), Some(temperature)) => Ok(CurrentWeather { text, temperature }),
        _ => Err(WeatherError::Decode),
    }
}

/// One forecast day from a daily entry.
fn day_from_json(e: &serde_json::Value) -> (r: Option<DailyData>)
    ensures
        match r {
            Some(d) => day_of(json_model(*e)) == Some(d@),
            None => day_of(json_model(*e)) is None,
        },
{
    let date = string_field(e, "date");
    let text_day = string_field(e, "text_day");
    let text_night = string_field(e, "text_night");
    let low = string_field(e, "low");
    let high = string_field(e, "high");
    match (date, text_day, text_night, low, high) {
        (Some(date), Some(text_day), Some(text_night), Some(low), Some(high)) => Some(
            DailyData { date, text_day, text_night, low, high },
        ),
        _ => None,
    }
}

/// The forecast days after today in a decoded answer of the `daily`
/// endpoint.
pub fn future_from_json(v: &serde_json::Value) -> (r: Result<Vec<DailyData>, WeatherError>)
    ensures
        future_result_view(r) == future_of_json(json_model(*v)),
{
    let result = match first_result_of(v) {
        Some(x) => x,
        None => return Err(WeatherError::EmptyResult),
    };
    let daily = match json_field(result, "daily") {
        Some(d) => d,
        None => return Err(WeatherError::Decode),
    };
    let entries = match json_array(daily) {
        Some(es) => es,
        None => return Err(WeatherError::Decode),
    };
    if entries.len() == 0 {
        return Err(WeatherError::EmptyResult);
    }
    let ghost es = json_model(*daily)->Array_0;
    let mut days: Vec<DailyData> = Vec::new();
    let mut i: usize = 0;
    while i < entries.len()
        invariant
            first_result(json_model(*v)) == Some(json_model(*result)),
            field(json_model(*result), "daily"@) == Some(json_model(*daily)),
            json_model(*daily) == JsonModel::Array(es),
            entries@.len() == es.len(),
            forall|k: int| 0 <= k < es.len() ==> json_model(#[trigger] entries@[k]) == es[k],
            es.len() > 0,
            0 <= i <= es.len(),
            forall|k: int| 0 <= k < i ==> (#[trigger] day_of(es[k])) is Some,
            days@.len() == if i == 0 { 0 } else { i - 1 },
            forall|k: int|
                0 <= k < days@.len() ==> day_of(es[k + 1]) == Some(#[trigger] days@[k]@),
        decreases entries.len() - i,
    {
        match day_from_json(&entries[i]) {
            Some(d) => {
                if i >= 1 {
                    days.push(d);
                }
            },
            None => {
                assert(day_of(es[i as int]) is None);
                assert(days_of(es) is None);
                return Err(WeatherError::Decode);
            },
        }
        i = i + 1;
    }
    let ghost ds = days_of(es)->Some_0;
    assert(days_view(days@) =~= ds.drop_first());
    Ok(days)
}

/// The present conditions that an HTTP answer of the `now` endpoint gives.
pub fn current_from_response(status: u16, body: &str) -> (r: Result<CurrentWeather, WeatherError>)
    ensures
        current_result_view(r) == current_of_response(status, body@),
{
    if !is_success(status) {
        return Err(WeatherError::HttpStatus(status));
    }
    match parse_json(body) {
        Ok(v) => current_from_json(&v),
        Err(_) => Err(WeatherError::Decode),
    }
}

/// The forecast days after today that an HTTP answer of the `daily` endpoint
/// gives.
pub fn future_from_response(status: u16, body: &str) -> (r: Result<Vec<DailyData>, WeatherError>)
    ensures
        future_result_view(r) == future_of_response(status, body@),
{
    if !is_success(status) {
        return Err(WeatherError::HttpStatus(status));
    }
    match parse_json(body) {
        Ok(v) => future_from_json(&v),
        Err(_) => Err(WeatherError::Decode),
    }
}

} // verus!
