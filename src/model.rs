//! The records that a weather query works on, and their views.
use vstd::prelude::*;

verus! {

/// What a query needs: the account key, the city code and the language of
/// the answer (`"en"` or `"zh-Hans"`).
pub struct Secret {
    pub api_key: String,
    pub location: String,
    pub language: String,
}

/// The conditions at present: a description and a temperature, the latter
/// kept as the provider's text.
pub struct CurrentWeather {
    pub text: String,
    pub temperature: String,
}

/// One day of a forecast. Temperatures are kept as the provider's text.
pub struct DailyData {
    pub date: String,
    pub text_day: String,
    pub text_night: String,
    pub low: String,
    pub high: String,
}

/// Why a query gave no weather.
#[derive(Clone, Copy, Debug, PartialEq, Eq, Structural)]
pub enum WeatherError {
    /// The request could not be sent or its body could not be read.
    Transport,
    /// The provider answered with a status outside 200..=299.
    HttpStatus(u16),
    /// The answer holds no location result, or a forecast without days.
    EmptyResult,
    /// The answer is not JSON, or not of the expected shape.
    Decode,
}

pub struct CurrentView {
    pub text: Seq<char>,
    pub temperature: Seq<char>,
}

pub struct DailyView {
    pub date: Seq<char>,
    pub text_day: Seq<char>,
    pub text_night: Seq<char>,
    pub low: Seq<char>,
    pub high: Seq<char>,
}

impl View for CurrentWeather {
    type V = CurrentView;

    open spec fn view(&self) -> CurrentView {
        CurrentView { text: self.text@, temperature: self.temperature@ }
    }
}

impl View for DailyData {
    type V = DailyView;

    open spec fn view(&self) -> DailyView {
        DailyView {
            date: self.date@,
            text_day: self.text_day@,
            text_night: self.text_night@,
            low: self.low@,
            high: self.high@,
        }
    }
}

/// The views of a sequence of forecast days.
pub open spec fn days_view(days: Seq<DailyData>) -> Seq<DailyView> {
    Seq::new(days.len(), |i: int| days[i]@)
}

} // verus!
