//! Facts that relate the decoding and the rendering of answers.
use vstd::prelude::*;
use crate::json::{field, json_parse, JsonModel};
use crate::model::{CurrentView, DailyView, Secret, WeatherError};
use crate::render::{
    city_table, current_report_of, current_text, day_label, forecast_segment, forecast_text,
    full_report_of, future_report_of, future_text, lang_of, location_name, lookup, night_label,
    report_day, report_days, report_text, Lang,
};
use crate::response::{
    current_of_response, days_of, first_result, future_of_response, now_of, status_ok,
};

verus! {

/// The header of a successful answer whose first result holds the conditions
/// `text` and `temperature` is the newline, the location's display name, the
/// mood glyph, `text`, the separator `" | "`, `temperature` and `"°C"`, in
/// that order, each part standing at its place.
pub proof fn header_shows_fields(
    secret: Secret,
    status: u16,
    body: Seq<char>,
    text: Seq<char>,
    temperature: Seq<char>,
)
    requires
        status_ok(status),
        json_parse(body) is Some,
        first_result(json_parse(body)->Some_0) is Some,
        now_of(first_result(json_parse(body)->Some_0)->Some_0) == Some(
            CurrentView { text, temperature },
        ),
        secret.language@ == "en"@ || secret.language@ == "zh-Hans"@,
    ensures
        ({
            let name = location_name(secret.location@, secret.language@);
            let glyph = " (￣︶￣)↗ |"@;
            let a: int = 1 + name.len() as int;
            let b: int = a + glyph.len();
            let c: int = b + text.len() + 3;
            let h = "\n"@ + name + glyph + text + " | "@ + temperature + "°C"@;
            &&& current_report_of(secret, status, body) == Ok::<Seq<char>, WeatherError>(h)
            &&& h.len() == c + temperature.len() + 2
            &&& h.subrange(1, a) == name
            &&& h.subrange(a, b) == glyph
            &&& h.subrange(b, b + text.len()) == text
            &&& h.subrange(b + text.len(), c) == " | "@
            &&& h.subrange(c, c + temperature.len()) == temperature
            &&& h.subrange(c + temperature.len(), h.len() as int) == "°C"@
        }),
{
    reveal_strlit(" | ");
    reveal_strlit("°C");
    reveal_strlit("\n");
    reveal_strlit("en");
    reveal_strlit("zh-Hans");
    let name = location_name(secret.location@, secret.language@);
    let glyph = " (￣︶￣)↗ |"@;
    let a: int = 1 + name.len() as int;
    let b: int = a + glyph.len();
    let c: int = b + text.len() + 3;
    let h = "\n"@ + name + glyph + text + " | "@ + temperature + "°C"@;
    assert(current_text(secret, CurrentView { text, temperature }) == h);
    assert(h.subrange(1, a) =~= name);
    assert(h.subrange(a, b) =~= glyph);
    assert(h.subrange(b, b + text.len()) =~= text);
    assert(h.subrange(b + text.len(), c) =~= " | "@);
    assert(h.subrange(c, c + temperature.len()) =~= temperature);
    assert(h.subrange(c + temperature.len(), h.len() as int) =~= "°C"@);
}

/// A successful forecast answer with `k >= 1` well-formed daily entries gives
/// the `k - 1` days after the first, in their order.
pub proof fn forecast_drops_first_day(status: u16, body: Seq<char>, entries: Seq<JsonModel>)
    requires
        status_ok(status),
        json_parse(body) is Some,
        first_result(json_parse(body)->Some_0) is Some,
        field(first_result(json_parse(body)->Some_0)->Some_0, "daily"@) == Some(
            JsonModel::Array(entries),
        ),
        days_of(entries) is Some,
        entries.len() >= 1,
    ensures
        ({
            let all = days_of(entries)->Some_0;
            &&& future_of_response(status, body) is Ok
            &&& future_of_response(status, body)->Ok_0.len() == entries.len() - 1
            &&& forall|i: int|
                0 <= i < entries.len() - 1 ==> #[trigger] future_of_response(status, body)->Ok_0[i]
                    == all[i + 1]
        }),
{
}

/// A code that the table of city names lacks is shown as it is, in every
/// language.
pub proof fn unknown_code_passes_through(location: Seq<char>, language: Seq<char>)
    requires
        forall|i: int| 0 <= i < city_table().len() ==> city_table()[i].0 != location,
    ensures
        location_name(location, language) == location,
{
    lemma_lookup_absent(city_table(), location);
}

proof fn lemma_lookup_absent(table: Seq<(Seq<char>, Seq<char>)>, key: Seq<char>)
    requires
        forall|i: int| 0 <= i < table.len() ==> table[i].0 != key,
    ensures
        lookup(table, key) is None,
    decreases table.len(),
{
    if table.len() > 0 {
        assert(table[0].0 != key);
        assert forall|i: int| 0 <= i < table.drop_first().len() implies table.drop_first()[i].0
            != key by {
            assert(table.drop_first()[i] == table[i + 1]);
        }
        lemma_lookup_absent(table.drop_first(), key);
    }
}

/// An answer with a status outside 200..=299, from either endpoint, gives
/// the status error and no weather.
pub proof fn failed_status_fails(
    secret: Secret,
    now_status: u16,
    now_body: Seq<char>,
    daily_status: u16,
    daily_body: Seq<char>,
)
    ensures
        !status_ok(now_status) ==> {
            &&& current_of_response(now_status, now_body) == Err::<CurrentView, _>(
                WeatherError::HttpStatus(now_status),
            )
            &&& current_report_of(secret, now_status, now_body) == Err::<Seq<char>, _>(
                WeatherError::HttpStatus(now_status),
            )
            &&& full_report_of(secret, now_status, now_body, daily_status, daily_body) == Err::<
                Seq<char>,
                _,
            >(WeatherError::HttpStatus(now_status))
        },
        !status_ok(daily_status) ==> {
            &&& future_of_response(daily_status, daily_body) == Err::<Seq<DailyView>, _>(
                WeatherError::HttpStatus(daily_status),
            )
            &&& future_report_of(secret, daily_status, daily_body) == Err::<Seq<char>, _>(
                WeatherError::HttpStatus(daily_status),
            )
            &&& full_report_of(secret, now_status, now_body, daily_status, daily_body) is Err
        },
{
}

/// An answer whose `results` array is empty gives the empty-result error,
/// from either endpoint.
pub proof fn empty_results_fail(secret: Secret, status: u16, body: Seq<char>)
    requires
        status_ok(status),
        json_parse(body) is Some,
        field(json_parse(body)->Some_0, "results"@) == Some(
            JsonModel::Array(Seq::<JsonModel>::empty()),
        ),
    ensures
        current_of_response(status, body) == Err::<CurrentView, _>(WeatherError::EmptyResult),
        future_of_response(status, body) == Err::<Seq<DailyView>, _>(WeatherError::EmptyResult),
        current_report_of(secret, status, body) == Err::<Seq<char>, _>(WeatherError::EmptyResult),
        future_report_of(secret, status, body) == Err::<Seq<char>, _>(WeatherError::EmptyResult),
{
}

/// A language other than `"en"` and `"zh-Hans"` gives empty texts.
pub proof fn unsupported_language_is_silent(
    secret: Secret,
    current: CurrentView,
    days: Seq<DailyView>,
)
    requires
        secret.language@ != "en"@,
        secret.language@ != "zh-Hans"@,
    ensures
        current_text(secret, current) == Seq::<char>::empty(),
        future_text(secret, days) == Seq::<char>::empty(),
        report_text(secret, current, days) == Seq::<char>::empty(),
{
}

/// An answer whose forecast holds no day gives the empty-result error, and
/// no report.
pub proof fn empty_forecast_fails(
    secret: Secret,
    now_status: u16,
    now_body: Seq<char>,
    status: u16,
    body: Seq<char>,
)
    requires
        status_ok(status),
        json_parse(body) is Some,
        first_result(json_parse(body)->Some_0) is Some,
        field(first_result(json_parse(body)->Some_0)->Some_0, "daily"@) == Some(
            JsonModel::Array(Seq::<JsonModel>::empty()),
        ),
    ensures
        future_of_response(status, body) == Err::<Seq<DailyView>, _>(WeatherError::EmptyResult),
        future_report_of(secret, status, body) == Err::<Seq<char>, _>(WeatherError::EmptyResult),
        full_report_of(secret, now_status, now_body, status, body) is Err,
{
}

/// How many times `c` occurs in `s`.
pub open spec fn occurrences(s: Seq<char>, c: char) -> nat
    decreases s.len(),
{
    if s.len() == 0 {
        0
    } else {
        occurrences(s.drop_last(), c) + if s.last() == c {
            1nat
        } else {
            0nat
        }
    }
}

/// Whether `c` does not occur in `s`.
pub open spec fn lacks(s: Seq<char>, c: char) -> bool {
    forall|i: int| 0 <= i < s.len() ==> s[i] != c
}

/// Whether no field of a day holds `c`.
pub open spec fn day_lacks(d: DailyView, c: char) -> bool {
    lacks(d.date, c) && lacks(d.text_day, c) && lacks(d.text_night, c) && lacks(d.low, c) && lacks(
        d.high,
        c,
    )
}

proof fn lemma_occurrences_concat(a: Seq<char>, b: Seq<char>, c: char)
    ensures
        occurrences(a + b, c) == occurrences(a, c) + occurrences(b, c),
    decreases b.len(),
{
    if b.len() == 0 {
        assert(a + b =~= a);
    } else {
        assert((a + b).drop_last() =~= a + b.drop_last());
        lemma_occurrences_concat(a, b.drop_last(), c);
    }
}

proof fn lemma_occurrences_absent(s: Seq<char>, c: char)
    requires
        lacks(s, c),
    ensures
        occurrences(s, c) == 0,
    decreases s.len(),
{
    if s.len() > 0 {
        lemma_occurrences_absent(s.drop_last(), c);
    }
}

proof fn lemma_occurrences_once(p: Seq<char>, c: char)
    requires
        lacks(p, c),
    ensures
        occurrences(p + seq![c], c) == 1,
{
    assert((p + seq![c]).drop_last() =~= p);
    lemma_occurrences_absent(p, c);
}

proof fn lemma_segment_one_line(l: Lang, d: DailyView)
    requires
        day_lacks(d, '\n'),
    ensures
        occurrences(forecast_segment(l, d), '\n') == 1,
{
    reveal_strlit("·");
    reveal_strlit(" | ");
    reveal_strlit("°C ~ ");
    reveal_strlit("\n");
    reveal_strlit("白天：");
    reveal_strlit("夜晚：");
    reveal_strlit("Day: ");
    reveal_strlit("Night: ");
    let p = "·"@ + d.date + " | "@ + day_label(l) + d.text_day + " | "@ + night_label(l)
        + d.text_night + " | "@ + d.low + "°C ~ "@ + d.high + "°C ~ "@;
    assert(forecast_segment(l, d) =~= p + seq!['\n']);
    assert(lacks(p, '\n'));
    lemma_occurrences_once(p, '\n');
}

/// The forecast text holds one line per day: as many newlines as days,
/// where no field of a day holds a newline.
pub proof fn forecast_text_one_line_per_day(l: Lang, days: Seq<DailyView>)
    requires
        forall|i: int| 0 <= i < days.len() ==> day_lacks(#[trigger] days[i], '\n'),
    ensures
        occurrences(forecast_text(l, days), '\n') == days.len(),
    decreases days.len(),
{
    if days.len() > 0 {
        forecast_text_one_line_per_day(l, days.drop_last());
        lemma_segment_one_line(l, days.last());
        lemma_occurrences_concat(
            forecast_text(l, days.drop_last()),
            forecast_segment(l, days.last()),
            '\n',
        );
    }
}

proof fn lemma_block_one_dot(l: Lang, d: DailyView)
    requires
        day_lacks(d, '·'),
    ensures
        occurrences(report_day(l, d), '·') == 1,
{
    reveal_strlit("·\n");
    reveal_strlit("\n");
    reveal_strlit(" | ");
    reveal_strlit("°C ~ ");
    reveal_strlit("°C\n");
    reveal_strlit("白天：");
    reveal_strlit("夜晚：");
    reveal_strlit("Day: ");
    reveal_strlit("Night: ");
    let p = d.date + " | "@ + day_label(l) + d.text_day + " | "@ + night_label(l) + d.text_night
        + " | "@ + d.low + "°C ~ "@ + d.high + "°C\n"@;
    assert("·\n"@ =~= seq!['·'] + "\n"@);
    assert(report_day(l, d) =~= seq!['·'] + ("\n"@ + p));
    assert(lacks("\n"@ + p, '·'));
    lemma_occurrences_absent("\n"@ + p, '·');
    lemma_occurrences_once(Seq::<char>::empty(), '·');
    assert(Seq::<char>::empty() + seq!['·'] =~= seq!['·']);
    lemma_occurrences_concat(seq!['·'], "\n"@ + p, '·');
    assert(report_day(l, d) == seq!['·'] + ("\n"@ + p));
}

proof fn lemma_blocks_one_dot_each(l: Lang, days: Seq<DailyView>)
    requires
        forall|i: int| 0 <= i < days.len() ==> day_lacks(#[trigger] days[i], '·'),
    ensures
        occurrences(report_days(l, days), '·') == days.len(),
    decreases days.len(),
{
    if days.len() > 0 {
        lemma_blocks_one_dot_each(l, days.drop_last());
        lemma_block_one_dot(l, days.last());
        lemma_occurrences_concat(report_days(l, days.drop_last()), report_day(l, days.last()), '·');
    }
}

/// The full report opens one block with a dot per day: as many dots as
/// days, where neither the header's fields nor any day's fields hold one.
pub proof fn report_one_block_per_day(secret: Secret, c: CurrentView, days: Seq<DailyView>)
    requires
        secret.language@ == "en"@ || secret.language@ == "zh-Hans"@,
        lacks(location_name(secret.location@, secret.language@), '·'),
        lacks(c.text, '·'),
        lacks(c.temperature, '·'),
        forall|i: int| 0 <= i < days.len() ==> day_lacks(#[trigger] days[i], '·'),
    ensures
        occurrences(report_text(secret, c, days), '·') == days.len(),
{
    reveal_strlit("\n");
    reveal_strlit(" (￣︶￣)↗ | ");
    reveal_strlit(" | ");
    reveal_strlit("°C\n");
    reveal_strlit("en");
    reveal_strlit("zh-Hans");
    let l = lang_of(secret.language@)->Some_0;
    let head = "\n"@ + location_name(secret.location@, secret.language@) + " (￣︶￣)↗ | "@ + c.text
        + " | "@ + c.temperature + "°C\n"@;
    assert(report_text(secret, c, days) == head + report_days(l, days));
    assert(lacks(head, '·'));
    lemma_occurrences_absent(head, '·');
    lemma_blocks_one_dot_each(l, days);
    lemma_occurrences_concat(head, report_days(l, days), '·');
}

/// The forecast text of a successful answer with `k >= 1` well-formed daily
/// entries is that of the `k - 1` days after the first, in their order.
pub proof fn forecast_answer_text(secret: Secret, status: u16, body: Seq<char>, entries: Seq<JsonModel>)
    requires
        status_ok(status),
        json_parse(body) is Some,
        first_result(json_parse(body)->Some_0) is Some,
        field(first_result(json_parse(body)->Some_0)->Some_0, "daily"@) == Some(
            JsonModel::Array(entries),
        ),
        days_of(entries) is Some,
        entries.len() >= 1,
        secret.language@ == "en"@ || secret.language@ == "zh-Hans"@,
    ensures
        future_report_of(secret, status, body) == Ok::<Seq<char>, WeatherError>(
            forecast_text(lang_of(secret.language@)->Some_0, days_of(entries)->Some_0.drop_first()),
        ),
{
    reveal_strlit("en");
    reveal_strlit("zh-Hans");
}

} // verus!
