//! The WeatherApi provider: current weather, and forecasts from tomorrow up
//! to thirteen days ahead.

use vstd::prelude::*;
use vstd::string::StringExecFns;
use crate::date::{date_text, day_span, days_between, format_date, Date, DAY_FIRST, YEAR_FIRST};
use crate::forecast::{Forecast, Reading, Scale};
use crate::json::{decode, decoded_json, Json};
use crate::provider::{
    copied, small_decimal, small_decimal_string, Fault, ProviderIR, ProviderType, WeatherProvider,
};

verus! {

/// Provider for WeatherApi.
pub struct WeatherApi {
    api_key: String,
}

/// A decoded response body, together with the day that was asked about.
pub struct WeatherApiJson<'a> {
    pub body: Json,
    pub forecast_date: Option<&'a Date>,
}

/// Errors for WeatherApi.
#[derive(Debug)]
#[allow(inconsistent_fields)]
pub enum WeatherApiError {
    BadResponse { error: String },
    InvalidJsonFormat { field: String },
    InvalidJson { error: serde_json::Error },
    ForecastNotFound { date: String },
    ForecastNotAvailable { date: String },
}

impl WeatherApiError {
    /// This error with its text as characters.
    pub open spec fn fault(self) -> Fault {
        match self {
            WeatherApiError::BadResponse { error } => Fault::BadResponse(error@),
            WeatherApiError::InvalidJsonFormat { field } => Fault::InvalidJsonFormat(field@),
            WeatherApiError::InvalidJson { error } => Fault::InvalidJson,
            WeatherApiError::ForecastNotFound { date } => Fault::ForecastNotFound(date@),
            WeatherApiError::ForecastNotAvailable { date } => Fault::ForecastNotAvailable(date@),
        }
    }
}

/// The day count that a forecast request for `date` carries when made on
/// `today`: this vendor counts today as day one.
pub open spec fn day_count(date: Date, today: Date) -> int {
    day_span(date, today) + 1
}

/// Whether the vendor offers a forecast for `date` on `today`.
pub open spec fn in_window(date: Date, today: Date) -> bool {
    2 <= day_count(date, today) <= 14
}

/// Address of the current-weather endpoint.
pub open spec fn current_url(key: Seq<char>, address: Seq<char>) -> Seq<char> {
    "http://api.weatherapi.com/v1/current.json?key="@ + key + "&q="@ + address + "&aqi=no"@
}

/// Address of the forecast endpoint for `days` days.
pub open spec fn forecast_url(key: Seq<char>, address: Seq<char>, days: int) -> Seq<char> {
    "http://api.weatherapi.com/v1/forecast.json?key="@ + key + "&q="@ + address + "&days="@
        + small_decimal(days) + "&aqi=no&alerts=no"@
}

/// What a request for `date` made on `today` comes to: the address to
/// fetch, or the fault that stops it before anything is fetched.
pub open spec fn planned_request(
    key: Seq<char>,
    address: Seq<char>,
    date: Option<Date>,
    today: Date,
) -> Result<Seq<char>, Fault> {
    match date {
        None => Ok(current_url(key, address)),
        Some(day) => if in_window(day, today) {
            Ok(forecast_url(key, address, day_count(day, today)))
        } else {
            Err(Fault::ForecastNotAvailable(date_text(day, DAY_FIRST@)))
        },
    }
}

/// Asked on `today` about `day`, the request goes out exactly where the
/// day count lies between two and fourteen, and carries that count; for any
/// other day it is turned down as not available, under the day's day-first
/// text. Asked about no day, it always goes out.
pub proof fn window_decides_the_request(key: Seq<char>, address: Seq<char>, day: Date, today: Date)
    ensures
        2 <= day_span(day, today) + 1 <= 14 ==> planned_request(key, address, Some(day), today)
            == Ok::<Seq<char>, Fault>(forecast_url(key, address, day_span(day, today) + 1)),
        !(2 <= day_span(day, today) + 1 <= 14) ==> planned_request(key, address, Some(day), today)
            == Err::<Seq<char>, Fault>(Fault::ForecastNotAvailable(date_text(day, DAY_FIRST@))),
        planned_request(key, address, None, today) == Ok::<Seq<char>, Fault>(
            current_url(key, address),
        ),
{
}

/// Whether a forecast entry is the one for `date`.
pub open spec fn is_entry_for(entry: Json, date: Date) -> bool {
    match entry.member("date"@) {
        Some(value) => value.text() == Some(date_text(date, YEAR_FIRST@)),
        None => false,
    }
}

/// The first entry for `date`.
pub open spec fn first_entry_for(entries: Seq<Json>, date: Date) -> Option<Json>
    decreases entries.len(),
{
    if entries.len() == 0 {
        None
    } else if is_entry_for(entries[0], date) {
        Some(entries[0])
    } else {
        first_entry_for(entries.skip(1), date)
    }
}

/// The entry of `forecast.forecastday` that a body holds for `date`.
pub open spec fn forecast_entry(body: Json, date: Date) -> Option<Json> {
    match body.member2("forecast"@, "forecastday"@) {
        Some(list) => match list.items() {
            Some(entries) => first_entry_for(entries, date),
            None => None,
        },
        None => None,
    }
}

/// The binary64 bits of the number called `number` in `scope`.
pub open spec fn number_in(scope: Option<Json>, number: Seq<char>) -> Option<u64> {
    match scope {
        Some(inner) => match inner.member(number) {
            Some(value) => value.real_bits(),
            None => None,
        },
        None => None,
    }
}

/// The text at `condition.text` in `scope`.
pub open spec fn condition_in(scope: Option<Json>) -> Option<Seq<char>> {
    match scope {
        Some(inner) => match inner.member2("condition"@, "text"@) {
            Some(value) => value.text(),
            None => None,
        },
        None => None,
    }
}

/// The temperature called `number` and the condition in `scope`, or the
/// fault that names the one that is missing, the temperature first.
pub open spec fn weather_in(
    scope: Option<Json>,
    number: Seq<char>,
    no_number: Seq<char>,
    no_condition: Seq<char>,
) -> Result<(u64, Seq<char>), Fault> {
    match number_in(scope, number) {
        Some(bits) => match condition_in(scope) {
            Some(text) => Ok((bits, text)),
            None => Err(Fault::InvalidJsonFormat(no_condition)),
        },
        None => Err(Fault::InvalidJsonFormat(no_number)),
    }
}

/// What a response body says about `date`, or about now where there is no
/// date: the temperature's bit pattern and the condition, or the fault.
pub open spec fn weather_of(body: Json, date: Option<Date>) -> Result<(u64, Seq<char>), Fault> {
    match date {
        None => weather_in(
            body.member("current"@),
            "temp_c"@,
            "current:temp_c"@,
            "current:condition:text"@,
        ),
        Some(day) => match forecast_entry(body, day) {
            Some(entry) => weather_in(
                entry.member("day"@),
                "avgtemp_c"@,
                "day:avgtemp_c"@,
                "day:condition:text"@,
            ),
            None => Err(Fault::ForecastNotFound(date_text(day, DAY_FIRST@))),
        },
    }
}

/// What the text of a response says about `date`: what the document says
/// that the text decodes to, and a fault of its own where it decodes to none.
pub open spec fn response_weather(text: Seq<char>, date: Option<Date>) -> Result<
    (u64, Seq<char>),
    Fault,
> {
    match decoded_json(text) {
        Some(body) => weather_of(body, date),
        None => Err(Fault::InvalidJson),
    }
}

impl WeatherApi {
    /// The API key that this provider holds.
    pub closed spec fn spec_key(self) -> Seq<char> {
        self.api_key@
    }

    /// Makes the provider that holds the key of `value`.
    pub fn from_ir(value: ProviderIR) -> (result: WeatherApi)
        ensures
            result.spec_key() == value.key@,
    {
        WeatherApi { api_key: value.key }
    }

    /// The API key that this provider holds.
    pub fn key(&self) -> (result: &str)
        ensures
            result@ == self.spec_key(),
    {
        self.api_key.as_str()
    }

    /// Decides the forecast request for `day`, which lies `span` days after
    /// the day on which it is asked. The request goes out, with the day
    /// count `span + 1`, exactly where that count lies between two and
    /// fourteen; otherwise it is turned down as not available, under the
    /// day's day-first text.
    pub fn window_request(&self, address: &str, day: &Date, span: i64) -> (result: Result<
        String,
        WeatherApiError,
    >)
        requires
            day.is_valid(),
        ensures
            match result {
                Ok(url) => 2 <= span + 1 <= 14 && url@ == forecast_url(
                    self.spec_key(),
                    address@,
                    span + 1,
                ),
                Err(error) => !(2 <= span + 1 <= 14) && error.fault() == Fault::ForecastNotAvailable(
                    date_text(*day, DAY_FIRST@),
                ),
            },
    {
        // WeatherApi forecast gives the current weather for one day, so
        // the count is the span and one more.
        if span < 1 || span > 13 {
            return Err(WeatherApiError::ForecastNotAvailable { date: format_date(day, DAY_FIRST) });
        }
        let days: i64 = span + 1;
        let mut url: String = "http://api.weatherapi.com/v1/forecast.json?key=".to_owned();
        url.append(self.api_key.as_str());
        url.append("&q=");
        url.append(address);
        url.append("&days=");
        let count: String = small_decimal_string(days);
        url.append(count.as_str());
        url.append("&aqi=no&alerts=no");
        Ok(url)
    }
}

/// Finds the first forecast entry for the day whose year-first text is `wanted`.
fn find_entry<'a>(entries: &'a Vec<Json>, wanted: &String, date: &Date) -> (result: Option<&'a Json>)
    requires
        wanted@ == date_text(*date, YEAR_FIRST@),
    ensures
        match result {
            Some(entry) => first_entry_for(entries@, *date) == Some(*entry),
            None => first_entry_for(entries@, *date).is_none(),
        },
{
    let mut i: usize = 0;
    proof {
        assert(entries@.skip(0) =~= entries@);
    }
    while i < entries.len()
        invariant
            i <= entries.len(),
            wanted@ == date_text(*date, YEAR_FIRST@),
            first_entry_for(entries@, *date) == first_entry_for(entries@.skip(i as int), *date),
        decreases entries.len() - i,
    {
        proof {
            assert(entries@.skip(i as int)[0] == entries@[i as int]);
            assert(entries@.skip(i as int).skip(1) =~= entries@.skip(i as int + 1));
        }
        let found: bool = match entries[i].get("date") {
            Some(value) => match value.as_str() {
                Some(text) => text.to_owned() == *wanted,
                None => false,
            },
            None => false,
        };
        if found {
            return Some(&entries[i]);
        }
        i = i + 1;
    }
    None
}

/// The `Option` of a reference to a value as the `Option` of the value.
pub open spec fn copied_json(scope: Option<&Json>) -> Option<Json> {
    match scope {
        Some(inner) => Some(*inner),
        None => None,
    }
}

/// Reads the temperature called `number` and the condition out of `scope`.
fn read_weather(scope: Option<&Json>, number: &str, no_number: &str, no_condition: &str) -> (result:
    Result<Forecast, WeatherApiError>)
    ensures
        match result {
            Ok(forecast) => forecast.temp.scale == Scale::Celsius && weather_in(
                copied_json(scope),
                number@,
                no_number@,
                no_condition@,
            ) == Ok::<(u64, Seq<char>), Fault>((forecast.temp.bits, forecast.condition@)),
            Err(error) => weather_in(copied_json(scope), number@, no_number@, no_condition@) == Err::<
                (u64, Seq<char>),
                Fault,
            >(error.fault()),
        },
{
    let bits: Option<u64> = match scope {
        Some(inner) => match inner.get(number) {
            Some(value) => value.as_bits(),
            None => None,
        },
        None => None,
    };
    let bits: u64 = match bits {
        Some(bits) => bits,
        None => {
            return Err(WeatherApiError::InvalidJsonFormat { field: no_number.to_owned() });
        },
    };
    let condition: Option<&str> = match scope {
        Some(inner) => match inner.get2("condition", "text") {
            Some(text) => text.as_str(),
            None => None,
        },
        None => None,
    };
    match condition {
        Some(text) => Ok(
            Forecast {
                temp: Reading { bits, scale: Scale::Celsius },
                condition: text.to_owned(),
            },
        ),
        None => Err(WeatherApiError::InvalidJsonFormat { field: no_condition.to_owned() }),
    }
}

impl<'a> WeatherApiJson<'a> {
    /// Reads the weather for `date`, or the current weather where there is no
    /// date, out of the response body.
    pub fn into_forecast(self) -> (result: Result<Forecast, WeatherApiError>)
        requires
            self.forecast_date matches Some(day) ==> day.is_valid(),
        ensures
            match result {
                Ok(forecast) => forecast.temp.scale == Scale::Celsius && weather_of(
                    self.body,
                    copied(self.forecast_date),
                ) == Ok::<(u64, Seq<char>), Fault>((forecast.temp.bits, forecast.condition@)),
                Err(error) => weather_of(
                    self.body,
                    copied(self.forecast_date),
                ) == Err::<(u64, Seq<char>), Fault>(error.fault()),
            },
    {
        let body: &Json = &self.body;
        match self.forecast_date {
            None => read_weather(body.get("current"), "temp_c", "current:temp_c", "current:condition:text"),
            Some(day) => {
                let wanted: String = format_date(day, YEAR_FIRST);
                let entry: Option<&Json> = match body.get2("forecast", "forecastday") {
                    Some(list) => match list.as_array() {
                        Some(entries) => find_entry(entries, &wanted, day),
                        None => None,
                    },
                    None => None,
                };
                match entry {
                    Some(entry) => read_weather(
                        entry.get("day"),
                        "avgtemp_c",
                        "day:avgtemp_c",
                        "day:condition:text",
                    ),
                    None => Err(WeatherApiError::ForecastNotFound { date: format_date(day, DAY_FIRST) }),
                }
            },
        }
    }
}

impl WeatherProvider for WeatherApi {
    type Error = WeatherApiError;

    open spec fn followed_type(&self) -> ProviderType {
        ProviderType::WeatherApi
    }

    open spec fn sent_key(&self) -> Seq<char> {
        self.spec_key()
    }

    open spec fn fault_of(error: WeatherApiError) -> Fault {
        error.fault()
    }

    fn request_url(&self, address: &str, date: Option<&Date>, today: &Date) -> (result: Result<
        String,
        WeatherApiError,
    >)
    {
        match date {
            Some(day) => self.window_request(address, day, days_between(day, today)),
            None => {
                let mut url: String = "http://api.weatherapi.com/v1/current.json?key=".to_owned();
                url.append(self.api_key.as_str());
                url.append("&q=");
                url.append(address);
                url.append("&aqi=no");
                Ok(url)
            },
        }
    }

    fn read_response(&self, text: &str, date: Option<&Date>) -> (result: Result<Forecast, WeatherApiError>) {
        match decode(text) {
            Ok(body) => (WeatherApiJson { body, forecast_date: date }).into_forecast(),
            Err(error) => Err(WeatherApiError::InvalidJson { error }),
        }
    }
}

} // verus!
