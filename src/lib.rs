//! Weather reports for a configured city: the request URLs, the decoding of
//! the provider's JSON answers, and the bilingual text of the reports.
pub mod json;
pub mod laws;
pub mod model;
pub mod render;
pub mod response;

pub use model::{CurrentWeather, DailyData, Secret, WeatherError};
pub use render::{
    display_name, lang_from, render_current, render_future, render_report, same_text, show_current_data,
    show_data, show_furture_data, Lang,
};
pub use response::{
    current_from_json, current_from_response, current_url, future_from_json, future_from_response,
    future_url, is_success, BASE_URL,
};
