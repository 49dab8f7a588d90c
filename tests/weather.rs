use weather_report::{
    current_from_json, current_from_response, current_url, display_name, future_from_json,
    future_from_response, future_url, is_success, lang_from, render_current, render_future,
    render_report, same_text, show_current_data, show_data, show_furture_data, CurrentWeather,
    DailyData, Lang, Secret, WeatherError,
};

fn secret(location: &str, language: &str) -> Secret {
    Secret {
        api_key: "k123".to_string(),
        location: location.to_string(),
        language: language.to_string(),
    }
}

fn cloudy() -> CurrentWeather {
    CurrentWeather { text: "Cloudy".to_string(), temperature: "22".to_string() }
}

fn day(date: &str, d: &str, n: &str, low: &str, high: &str) -> DailyData {
    DailyData {
        date: date.to_string(),
        text_day: d.to_string(),
        text_night: n.to_string(),
        low: low.to_string(),
        high: high.to_string(),
    }
}

const NOW_BODY: &str = r#"{"results":[{"location":{"id":"WS10730EM8EV"},"now":{"text":"Cloudy","code":"4","temperature":"22"},"last_update":"2024-05-01T10:00:00+08:00"}]}"#;

const DAILY_BODY: &str = r#"{"results":[{"daily":[
  {"date":"2024-05-01","text_day":"Sunny","text_night":"Clear","low":"18","high":"27"},
  {"date":"2024-05-02","text_day":"Cloudy","text_night":"Rain","low":"19","high":"25"},
  {"date":"2024-05-03","text_day":"Shower","text_night":"Overcast","low":"20","high":"24"}
]}]}"#;

#[test]
fn header_scenario_shenzhen_en() {
    let s = render_current(&secret("ShenZhen", "en"), &cloudy());
    assert_eq!(s, "\nShenZhen (￣︶￣)↗ |Cloudy | 22°C");
}

#[test]
fn header_scenario_through_response() {
    let r = show_current_data(&secret("ShenZhen", "en"), 200, NOW_BODY);
    assert_eq!(r, Ok("\nShenZhen (￣︶￣)↗ |Cloudy | 22°C".to_string()));
}

#[test]
fn header_in_chinese_uses_city_name() {
    let s = render_current(&secret("ShenZhen", "zh-Hans"), &cloudy());
    assert_eq!(s, "\n深圳 (￣︶￣)↗ |Cloudy | 22°C");
}

#[test]
fn header_holds_each_field() {
    let s = render_current(&secret("Paris", "en"), &CurrentWeather {
        text: "Fog".to_string(),
        temperature: "-3".to_string(),
    });
    assert_eq!(s, "\nParis (￣︶￣)↗ |Fog | -3°C");
    assert_eq!(s.matches("Fog").count(), 1);
    assert_eq!(s.matches("-3").count(), 1);
    assert_eq!(s.matches("Paris").count(), 1);
}

#[test]
fn city_table_lookup() {
    assert_eq!(display_name("BeiJing", "zh-Hans"), "北京");
    assert_eq!(display_name("GuangZhou", "zh-Hans"), "广州");
    assert_eq!(display_name("ShenZhen", "zh-Hans"), "深圳");
    assert_eq!(display_name("ShangHai", "zh-Hans"), "上海");
    assert_eq!(display_name("BeiJing", "en"), "BeiJing");
}

#[test]
fn unknown_city_passes_through() {
    assert_eq!(display_name("Paris", "zh-Hans"), "Paris");
    assert_eq!(display_name("Paris", "en"), "Paris");
    assert_eq!(display_name("beijing", "zh-Hans"), "beijing");
    assert_eq!(display_name("", "fr"), "");
}

#[test]
fn forecast_drops_today() {
    let days = future_from_response(200, DAILY_BODY).ok().unwrap();
    assert_eq!(days.len(), 2);
    assert_eq!(days[0].date, "2024-05-02");
    assert_eq!(days[0].text_night, "Rain");
    assert_eq!(days[1].date, "2024-05-03");
    assert_eq!(days[1].high, "24");
}

#[test]
fn forecast_of_one_day_is_empty() {
    let body = r#"{"results":[{"daily":[{"date":"d","text_day":"a","text_night":"b","low":"1","high":"2"}]}]}"#;
    assert_eq!(future_from_response(200, body).ok().unwrap().len(), 0);
}

#[test]
fn forecast_without_days_fails() {
    let body = r#"{"results":[{"daily":[]}]}"#;
    assert_eq!(future_from_response(200, body).err(), Some(WeatherError::EmptyResult));
    let s = secret("ShenZhen", "en");
    assert_eq!(show_furture_data(&s, 200, body), Err(WeatherError::EmptyResult));
    assert_eq!(show_data(&s, 200, NOW_BODY, 200, body), Err(WeatherError::EmptyResult));
}

#[test]
fn forecast_with_bad_entry_fails() {
    let body = r#"{"results":[{"daily":[{"date":"d","text_day":"a","text_night":"b","low":"1","high":"2"},{"date":"e","text_day":"a","low":"1","high":"2"}]}]}"#;
    assert_eq!(future_from_response(200, body).err(), Some(WeatherError::Decode));
}

#[test]
fn failed_status_fails_both_endpoints() {
    assert_eq!(current_from_response(404, NOW_BODY).err(), Some(WeatherError::HttpStatus(404)));
    assert_eq!(future_from_response(500, DAILY_BODY).err(), Some(WeatherError::HttpStatus(500)));
    assert_eq!(current_from_response(199, NOW_BODY).err(), Some(WeatherError::HttpStatus(199)));
    assert_eq!(current_from_response(300, NOW_BODY).err(), Some(WeatherError::HttpStatus(300)));
    let s = secret("ShenZhen", "en");
    assert_eq!(show_data(&s, 200, NOW_BODY, 403, DAILY_BODY), Err(WeatherError::HttpStatus(403)));
    assert_eq!(show_data(&s, 401, NOW_BODY, 200, DAILY_BODY), Err(WeatherError::HttpStatus(401)));
    assert_eq!(show_furture_data(&s, 404, DAILY_BODY), Err(WeatherError::HttpStatus(404)));
}

#[test]
fn success_statuses() {
    assert!(is_success(200));
    assert!(is_success(204));
    assert!(is_success(299));
    assert!(!is_success(199));
    assert!(!is_success(301));
}

#[test]
fn empty_results_fail() {
    let body = r#"{"results":[]}"#;
    assert_eq!(current_from_response(200, body).err(), Some(WeatherError::EmptyResult));
    assert_eq!(future_from_response(200, body).err(), Some(WeatherError::EmptyResult));
    assert_eq!(current_from_response(200, r#"{"status":"bad key"}"#).err(), Some(WeatherError::EmptyResult));
    assert_eq!(current_from_response(200, r#"{"results":{}}"#).err(), Some(WeatherError::EmptyResult));
}

#[test]
fn malformed_answers_fail_to_decode() {
    assert_eq!(current_from_response(200, "not json").err(), Some(WeatherError::Decode));
    assert_eq!(current_from_response(200, r#"{"results":[{"now":{"text":"Sunny"}}]}"#).err(), Some(WeatherError::Decode));
    assert_eq!(current_from_response(200, r#"{"results":[{"now":{"text":"Sunny","temperature":20}}]}"#).err(), Some(WeatherError::Decode));
    assert_eq!(future_from_response(200, r#"{"results":[{"now":{}}]}"#).err(), Some(WeatherError::Decode));
    assert_eq!(future_from_response(200, r#"{"results":[{"daily":{}}]}"#).err(), Some(WeatherError::Decode));
}

#[test]
fn decodes_present_conditions() {
    let c = current_from_response(200, NOW_BODY).ok().unwrap();
    assert_eq!(c.text, "Cloudy");
    assert_eq!(c.temperature, "22");
    let v: serde_json::Value = serde_json::from_str(r#"{"results":[{"now":{"text":"晴","temperature":"30"}},{"now":{"text":"x","temperature":"1"}}]}"#).unwrap();
    let c = current_from_json(&v).ok().unwrap();
    assert_eq!(c.text, "晴");
    assert_eq!(c.temperature, "30");
}

#[test]
fn decodes_forecast_from_value() {
    let v: serde_json::Value = serde_json::from_str(DAILY_BODY).unwrap();
    let days = future_from_json(&v).ok().unwrap();
    assert_eq!(days.len(), 2);
    assert_eq!(days[0].text_day, "Cloudy");
    assert_eq!(days[1].low, "20");
    let v: serde_json::Value = serde_json::from_str("[1,2]").unwrap();
    assert_eq!(future_from_json(&v).err(), Some(WeatherError::EmptyResult));
}

#[test]
fn unsupported_language_gives_empty_text() {
    let s = secret("ShenZhen", "fr");
    assert_eq!(render_current(&s, &cloudy()), "");
    assert_eq!(render_future(&s, &vec![day("d", "a", "b", "1", "2")]), "");
    assert_eq!(render_report(&s, &cloudy(), &vec![day("d", "a", "b", "1", "2")]), "");
    assert_eq!(show_current_data(&s, 200, NOW_BODY), Ok(String::new()));
    assert_eq!(show_furture_data(&s, 200, DAILY_BODY), Ok(String::new()));
    assert_eq!(show_data(&s, 200, NOW_BODY, 200, DAILY_BODY), Ok(String::new()));
}

#[test]
fn forecast_text_english() {
    let s = secret("ShenZhen", "en");
    let days = vec![day("2024-05-02", "Cloudy", "Rain", "19", "25"), day("2024-05-03", "Sun", "Clear", "20", "24")];
    assert_eq!(
        render_future(&s, &days),
        "·2024-05-02 | Day: Cloudy | Night: Rain | 19°C ~ 25°C ~ \n·2024-05-03 | Day: Sun | Night: Clear | 20°C ~ 24°C ~ \n"
    );
    assert_eq!(render_future(&s, &Vec::new()), "");
}

#[test]
fn forecast_text_chinese() {
    let r = show_furture_data(&secret("BeiJing", "zh-Hans"), 200, DAILY_BODY);
    assert_eq!(
        r,
        Ok("·2024-05-02 | 白天：Cloudy | 夜晚：Rain | 19°C ~ 25°C ~ \n·2024-05-03 | 白天：Shower | 夜晚：Overcast | 20°C ~ 24°C ~ \n".to_string())
    );
}

#[test]
fn full_report_chinese() {
    let r = show_data(&secret("BeiJing", "zh-Hans"), 200, NOW_BODY, 200, DAILY_BODY);
    assert_eq!(
        r,
        Ok("\n北京 (￣︶￣)↗ | Cloudy | 22°C\n·\n2024-05-02 | 白天：Cloudy | 夜晚：Rain | 19°C ~ 25°C\n·\n2024-05-03 | 白天：Shower | 夜晚：Overcast | 20°C ~ 24°C\n".to_string())
    );
}

#[test]
fn full_report_english() {
    let days = vec![day("2024-05-02", "Cloudy", "Rain", "19", "25")];
    assert_eq!(
        render_report(&secret("BeiJing", "en"), &cloudy(), &days),
        "\nBeiJing (￣︶￣)↗ | Cloudy | 22°C\n·\n2024-05-02 | Day: Cloudy | Night: Rain | 19°C ~ 25°C\n"
    );
}

#[test]
fn request_urls() {
    let s = secret("ShenZhen", "en");
    assert_eq!(
        current_url(&s),
        "https://api.seniverse.com/v3/weather/now.json?key=k123&location=ShenZhen&language=en&unit=c"
    );
    assert_eq!(
        future_url(&s),
        "https://api.seniverse.com/v3/weather/daily.json?key=k123&location=ShenZhen&language=en&unit=c&start=0&days=3"
    );
}

#[test]
fn language_codes() {
    assert_eq!(lang_from("en"), Some(Lang::En));
    assert_eq!(lang_from("zh-Hans"), Some(Lang::Zh));
    assert_eq!(lang_from("zh"), None);
    assert_eq!(lang_from("EN"), None);
    assert!(same_text("深圳", "深圳"));
    assert!(!same_text("深圳", "深"));
    assert!(!same_text("ab", "ac"));
    assert!(same_text("", ""));
}

#[test]
fn one_segment_and_one_block_per_day_after_today() {
    let s = secret("ShangHai", "zh-Hans");
    let text = show_furture_data(&s, 200, DAILY_BODY).ok().unwrap();
    assert_eq!(text.matches('\n').count(), 2);
    assert!(text.starts_with("·2024-05-02"));
    assert!(!text.contains("2024-05-01"));
    let report = show_data(&s, 200, NOW_BODY, 200, DAILY_BODY).ok().unwrap();
    assert_eq!(report.matches('·').count(), 2);
    assert!(report.starts_with("\n上海 (￣︶￣)↗ | "));
    assert!(!report.contains("2024-05-01"));
}
