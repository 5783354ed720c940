//! The OpenWeather provider: current weather, and forecasts in three-hour
//! steps from tomorrow up to five days ahead.

use vstd::prelude::*;
use vstd::string::StringExecFns;
use crate::date::{
    date_at_millis, date_of_millis, date_text, day_span, days_between, format_date, Date, DAY_FIRST,
};
use crate::forecast::{Forecast, Reading, Scale};
use crate::json::{decode, decoded_json, Json};
use crate::provider::{copied, Fault, ProviderIR, ProviderType, WeatherProvider};

verus! {

/// Provider for OpenWeather.
pub struct OpenWeather {
    api_key: String,
}

/// A decoded response body, together with the day that was asked about.
pub struct OpenWeatherJson<'a> {
    pub body: Json,
    pub forecast_date: Option<&'a Date>,
}

/// Errors for OpenWeather.
#[derive(Debug)]
#[allow(inconsistent_fields)]
pub enum OpenWeatherError {
    BadResponse { error: String },
    InvalidJsonFormat { field: String },
    InvalidJson { error: serde_json::Error },
    ForecastNotFound { date: String },
    ForecastNotAvailable { date: String },
}

impl OpenWeatherError {
    /// This error with its text as characters.
    pub open spec fn fault(self) -> Fault {
        match self {
            OpenWeatherError::BadResponse { error } => Fault::BadResponse(error@),
            OpenWeatherError::InvalidJsonFormat { field } => Fault::InvalidJsonFormat(field@),
            OpenWeatherError::InvalidJson { error } => Fault::InvalidJson,
            OpenWeatherError::ForecastNotFound { date } => Fault::ForecastNotFound(date@),
            OpenWeatherError::ForecastNotAvailable { date } => Fault::ForecastNotAvailable(date@),
        }
    }
}

/// Whether the vendor offers a forecast for `date` on `today`.
pub open spec fn in_window(date: Date, today: Date) -> bool {
    1 <= day_span(date, today) <= 5
}

/// Address of the current-weather endpoint.
pub open spec fn current_url(key: Seq<char>, address: Seq<char>) -> Seq<char> {
    "https://api.openweathermap.org/data/2.5/weather?q="@ + address + "&appid="@ + key
}

/// Address of the five-day forecast endpoint.
pub open spec fn forecast_url(key: Seq<char>, address: Seq<char>) -> Seq<char> {
    "https://api.openweathermap.org/data/2.5/forecast?q="@ + address + "&appid="@ + key
}

/// What a request for `date` made on `today` comes to: the address to
/// fetch, or the fault that stops it before anything is fetched.
pub open spec fn planned_request(
    key: Seq<char>,
    address: Seq<char>,
    date: Option<Date>,
    today: Date,
) -> Result<Seq<char>, Fault> {
    match date {
        None => Ok(current_url(key, address)),
        Some(day) => if in_window(day, today) {
            Ok(forecast_url(key, address))
        } else {
            Err(Fault::ForecastNotAvailable(date_text(day, DAY_FIRST@)))
        },
    }
}

/// Asked on `today` about `day`, the request goes out exactly where the
/// day lies one to five days ahead; for any other day it is turned down as
/// not available, under the day's day-first text. Asked about no day, it
/// always goes out.
pub proof fn window_decides_the_request(key: Seq<char>, address: Seq<char>, day: Date, today: Date)
    ensures
        1 <= day_span(day, today) <= 5 ==> planned_request(key, address, Some(day), today) == Ok::<
            Seq<char>,
            Fault,
        >(forecast_url(key, address)),
        !(1 <= day_span(day, today) <= 5) ==> planned_request(key, address, Some(day), today)
            == Err::<Seq<char>, Fault>(Fault::ForecastNotAvailable(date_text(day, DAY_FIRST@))),
        planned_request(key, address, None, today) == Ok::<Seq<char>, Fault>(
            current_url(key, address),
        ),
{
}

/// The UTC day of a time given in seconds since the Unix epoch, where the
/// same time in milliseconds still fits 64 bits.
pub open spec fn day_of_seconds(seconds: int) -> Option<Date> {
    if i64::MIN <= seconds * 1000 <= i64::MAX {
        date_at_millis(seconds * 1000)
    } else {
        None
    }
}

/// Whether a forecast entry is stamped with a time on `date`.
pub open spec fn is_entry_for(entry: Json, date: Date) -> bool {
    match entry.member("dt"@) {
        Some(value) => match value.integer() {
            Some(seconds) => day_of_seconds(seconds as int) == Some(date),
            None => false,
        },
        None => false,
    }
}

/// The first entry stamped with a time on `date`.
pub open spec fn first_entry_for(entries: Seq<Json>, date: Date) -> Option<Json>
    decreases entries.len(),
{
    if entries.len() == 0 {
        None
    } else if is_entry_for(entries[0], date) {
        Some(entries[0])
    } else {
        first_entry_for(entries.skip(1), date)
    }
}

/// The entry of `list` that a body holds for `date`.
pub open spec fn forecast_entry(body: Json, date: Date) -> Option<Json> {
    match body.member("list"@) {
        Some(list) => match list.items() {
            Some(entries) => first_entry_for(entries, date),
            None => None,
        },
        None => None,
    }
}

/// The text at `main` of the last item of `scope.weather`.
pub open spec fn condition_in(scope: Json) -> Option<Seq<char>> {
    match scope.member("weather"@) {
        Some(list) => match list.last_item() {
            Some(item) => match item.member("main"@) {
                Some(text) => text.text(),
                None => None,
            },
            None => None,
        },
        None => None,
    }
}

/// The number at `scope.main.temp`.
pub open spec fn kelvin_in(scope: Json) -> Option<u64> {
    match scope.member2("main"@, "temp"@) {
        Some(value) => value.real_bits(),
        None => None,
    }
}

/// The temperature and the condition in `scope`, or the fault that names
/// the one that is missing, the temperature first.
pub open spec fn weather_in(scope: Json) -> Result<(u64, Seq<char>), Fault> {
    match kelvin_in(scope) {
        Some(bits) => match condition_in(scope) {
            Some(text) => Ok((bits, text)),
            None => Err(Fault::InvalidJsonFormat("weather:main"@)),
        },
        None => Err(Fault::InvalidJsonFormat("main:temp"@)),
    }
}

/// What a response body says about `date`, or about now where there is no
/// date: the bit pattern of the temperature in kelvins and the condition,
/// or the fault.
pub open spec fn weather_of(body: Json, date: Option<Date>) -> Result<(u64, Seq<char>), Fault> {
    match date {
        None => weather_in(body),
        Some(day) => match forecast_entry(body, day) {
            Some(entry) => weather_in(entry),
            None => Err(Fault::ForecastNotFound(date_text(day, DAY_FIRST@))),
        },
    }
}

/// What the text of a response says about `date`: what the document says
/// that the text decodes to, and a fault of its own where it decodes to none.
pub open spec fn response_weather(text: Seq<char>, date: Option<Date>) -> Result<
    (u64, Seq<char>),
    Fault,
> {
    match decoded_json(text) {
        Some(body) => weather_of(body, date),
        None => Err(Fault::InvalidJson),
    }
}

impl OpenWeather {
    /// The API key that this provider holds.
    pub closed spec fn spec_key(self) -> Seq<char> {
        self.api_key@
    }

    /// Makes the provider that holds the key of `value`.
    pub fn from_ir(value: ProviderIR) -> (result: OpenWeather)
        ensures
            result.spec_key() == value.key@,
    {
        OpenWeather { api_key: value.key }
    }

    /// The API key that this provider holds.
    pub fn key(&self) -> (result: &str)
        ensures
            result@ == self.spec_key(),
    {
        self.api_key.as_str()
    }

    /// Decides the forecast request for `day`, which lies `span` days after
    /// the day on which it is asked. The request goes out exactly where
    /// the span lies between one and five; otherwise it is turned down as
    /// not available, under the day's day-first text.
    pub fn window_request(&self, address: &str, day: &Date, span: i64) -> (result: Result<
        String,
        OpenWeatherError,
    >)
        requires
            day.is_valid(),
        ensures
            match result {
                Ok(url) => 1 <= span <= 5 && url@ == forecast_url(self.spec_key(), address@),
                Err(error) => !(1 <= span <= 5) && error.fault() == Fault::ForecastNotAvailable(
                    date_text(*day, DAY_FIRST@),
                ),
            },
    {
        if span < 1 || span > 5 {
            return Err(OpenWeatherError::ForecastNotAvailable { date: format_date(day, DAY_FIRST) });
        }
        let mut url: String = "https://api.openweathermap.org/data/2.5/forecast?q=".to_owned();
        url.append(address);
        url.append("&appid=");
        url.append(self.api_key.as_str());
        Ok(url)
    }
}

/// The UTC day of a time given in seconds since the Unix epoch.
fn day_of(seconds: i64) -> (result: Option<Date>)
    ensures
        result == day_of_seconds(seconds as int),
{
    if seconds < -9223372036854775 || seconds > 9223372036854775 {
        None
    } else {
        date_of_millis(seconds * 1000)
    }
}

/// Finds the first forecast entry stamped with a time on `date`.
fn find_entry<'a>(entries: &'a Vec<Json>, date: &Date) -> (result: Option<&'a Json>)
    ensures
        match result {
            Some(entry) => first_entry_for(entries@, *date) == Some(*entry),
            None => first_entry_for(entries@, *date).is_none(),
        },
{
    let mut i: usize = 0;
    proof {
        assert(entries@.skip(0) =~= entries@);
    }
    while i < entries.len()
        invariant
            i <= entries.len(),
            first_entry_for(entries@, *date) == first_entry_for(entries@.skip(i as int), *date),
        decreases entries.len() - i,
    {
        proof {
            assert(entries@.skip(i as int)[0] == entries@[i as int]);
            assert(entries@.skip(i as int).skip(1) =~= entries@.skip(i as int + 1));
        }
        let stamp: Option<i64> = match entries[i].get("dt") {
            Some(value) => value.as_i64(),
            None => None,
        };
        let found: bool = match stamp {
            Some(seconds) => match day_of(seconds) {
                Some(day) => day == *date,
                None => false,
            },
            None => false,
        };
        if found {
            return Some(&entries[i]);
        }
        i = i + 1;
    }
    None
}

/// Reads the temperature and the condition out of `scope`.
fn read_weather(scope: &Json) -> (result: Result<Forecast, OpenWeatherError>)
    ensures
        match result {
            Ok(forecast) => forecast.temp.scale == Scale::Kelvin && weather_in(*scope) == Ok::<
                (u64, Seq<char>),
                Fault,
            >((forecast.temp.bits, forecast.condition@)),
            Err(error) => weather_in(*scope) == Err::<(u64, Seq<char>), Fault>(error.fault()),
        },
{
    let bits: Option<u64> = match scope.get2("main", "temp") {
        Some(value) => value.as_bits(),
        None => None,
    };
    let bits: u64 = match bits {
        Some(bits) => bits,
        None => {
            return Err(OpenWeatherError::InvalidJsonFormat { field: "main:temp".to_owned() });
        },
    };
    let last: Option<&Json> = match scope.get("weather") {
        Some(list) => list.last(),
        None => None,
    };
    let condition: Option<&str> = match last {
        Some(item) => match item.get("main") {
            Some(text) => text.as_str(),
            None => None,
        },
        None => None,
    };
    match condition {
        Some(text) => Ok(
            Forecast { temp: Reading { bits, scale: Scale::Kelvin }, condition: text.to_owned() },
        ),
        None => Err(OpenWeatherError::InvalidJsonFormat { field: "weather:main".to_owned() }),
    }
}

impl<'a> OpenWeatherJson<'a> {
    /// Reads the weather for `date`, or the current weather where there is no
    /// date, out of the response body. The temperature is left in kelvins.
    pub fn into_forecast(self) -> (result: Result<Forecast, OpenWeatherError>)
        requires
            self.forecast_date matches Some(day) ==> day.is_valid(),
        ensures
            match result {
                Ok(forecast) => forecast.temp.scale == Scale::Kelvin && weather_of(
                    self.body,
                    copied(self.forecast_date),
                ) == Ok::<(u64, Seq<char>), Fault>((forecast.temp.bits, forecast.condition@)),
                Err(error) => weather_of(
                    self.body,
                    copied(self.forecast_date),
                ) == Err::<(u64, Seq<char>), Fault>(error.fault()),
            },
    {
        let body: &Json = &self.body;
        match self.forecast_date {
            None => read_weather(body),
            Some(day) => {
                let entry: Option<&Json> = match body.get("list") {
                    Some(list) => match list.as_array() {
                        Some(entries) => find_entry(entries, day),
                        None => None,
                    },
                    None => None,
                };
                match entry {
                    Some(entry) => read_weather(entry),
                    None => Err(OpenWeatherError::ForecastNotFound { date: format_date(day, DAY_FIRST) }),
                }
            },
        }
    }
}

impl WeatherProvider for OpenWeather {
    type Error = OpenWeatherError;

    open spec fn followed_type(&self) -> ProviderType {
        ProviderType::OpenWeather
    }

    open spec fn sent_key(&self) -> Seq<char> {
        self.spec_key()
    }

    open spec fn fault_of(error: OpenWeatherError) -> Fault {
        error.fault()
    }

    fn request_url(&self, address: &str, date: Option<&Date>, today: &Date) -> (result: Result<
        String,
        OpenWeatherError,
    >)
    {
        match date {
            Some(day) => self.window_request(address, day, days_between(day, today)),
            None => {
                let mut url: String = "https://api.openweathermap.org/data/2.5/weather?q=".to_owned();
                url.append(address);
                url.append("&appid=");
                url.append(self.api_key.as_str());
                Ok(url)
            },
        }
    }

    fn read_response(&self, text: &str, date: Option<&Date>) -> (result: Result<Forecast, OpenWeatherError>) {
        match decode(text) {
            Ok(body) => (OpenWeatherJson { body, forecast_date: date }).into_forecast(),
            Err(error) => Err(OpenWeatherError::InvalidJson { error }),
        }
    }
}

} // verus!
