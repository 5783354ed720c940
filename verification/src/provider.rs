//! The supported weather providers, their names and their construction.

use vstd::prelude::*;
use crate::date::Date;
use crate::forecast::{Forecast, Scale};
use crate::json::Json;
use crate::provider::open_weather::{OpenWeather, OpenWeatherError};
use crate::provider::weather_api::{WeatherApi, WeatherApiError};

pub mod open_weather;
pub mod weather_api;

verus! {

/// The supported providers.
#[derive(Clone, Copy, Debug, PartialEq, Eq, Hash, Structural)]
pub enum ProviderType {
    WeatherApi,
    OpenWeather,
}

/// What a provider is made from: its type and its API key.
pub struct ProviderIR {
    pub provider: ProviderType,
    pub key: String,
}

/// A provider of one of the supported types, holding its API key.
pub enum Provider {
    WeatherApi(WeatherApi),
    OpenWeather(OpenWeather),
}

/// What went wrong in a provider, with the offending value as characters.
pub enum Fault {
    BadResponse(Seq<char>),
    InvalidJsonFormat(Seq<char>),
    InvalidJson,
    ForecastNotFound(Seq<char>),
    ForecastNotAvailable(Seq<char>),
}

/// An error of one of the providers.
#[derive(Debug)]
pub enum ProviderError {
    WeatherApi(WeatherApiError),
    OpenWeather(OpenWeatherError),
}

impl ProviderError {
    /// This error with its text as characters.
    pub open spec fn fault(self) -> Fault {
        match self {
            ProviderError::WeatherApi(error) => error.fault(),
            ProviderError::OpenWeather(error) => error.fault(),
        }
    }

    /// The type of the provider that raised this error.
    pub open spec fn raised_by(self) -> ProviderType {
        match self {
            ProviderError::WeatherApi(_) => ProviderType::WeatherApi,
            ProviderError::OpenWeather(_) => ProviderType::OpenWeather,
        }
    }
}

/// The `Option` of a reference as the `Option` of what it refers to.
pub open spec fn copied(date: Option<&Date>) -> Option<Date> {
    match date {
        Some(day) => Some(*day),
        None => None,
    }
}

/// What a request to a provider of type `provider` for `date`, made on
/// `today`, comes to: the address to fetch, or the fault that stops it
/// before anything is fetched.
pub open spec fn planned_request(
    provider: ProviderType,
    key: Seq<char>,
    address: Seq<char>,
    date: Option<Date>,
    today: Date,
) -> Result<Seq<char>, Fault> {
    match provider {
        ProviderType::WeatherApi => weather_api::planned_request(key, address, date, today),
        ProviderType::OpenWeather => open_weather::planned_request(key, address, date, today),
    }
}

/// What a response body of a provider of type `provider` says about `date`:
/// the bit pattern of the temperature and the condition, or the fault.
pub open spec fn weather_of(provider: ProviderType, body: Json, date: Option<Date>) -> Result<
    (u64, Seq<char>),
    Fault,
> {
    match provider {
        ProviderType::WeatherApi => weather_api::weather_of(body, date),
        ProviderType::OpenWeather => open_weather::weather_of(body, date),
    }
}

/// What the text of a response of a provider of type `provider` says about
/// `date`.
pub open spec fn response_weather(provider: ProviderType, text: Seq<char>, date: Option<Date>) -> Result<
    (u64, Seq<char>),
    Fault,
> {
    match provider {
        ProviderType::WeatherApi => weather_api::response_weather(text, date),
        ProviderType::OpenWeather => open_weather::response_weather(text, date),
    }
}

/// The provider type registered under `name`: names are matched exactly.
pub open spec fn named_type(name: Seq<char>) -> Option<ProviderType> {
    if name == "WeatherApi"@ {
        Some(ProviderType::WeatherApi)
    } else if name == "OpenWeather"@ {
        Some(ProviderType::OpenWeather)
    } else {
        None
    }
}

/// The provider type that is filed under `code`.
pub open spec fn type_of_code(code: u64) -> Option<ProviderType> {
    if code == 0 {
        Some(ProviderType::WeatherApi)
    } else if code == 1 {
        Some(ProviderType::OpenWeather)
    } else {
        None
    }
}

impl ProviderType {
    /// The number under which keys of this type are filed: each type has
    /// its own.
    pub open spec fn spec_code(self) -> u64 {
        match self {
            ProviderType::WeatherApi => 0,
            ProviderType::OpenWeather => 1,
        }
    }

    /// The number under which keys of this type are filed.
    pub fn code(&self) -> (result: u64)
        ensures
            result == self.spec_code(),
            type_of_code(result) == Some(*self),
    {
        match self {
            ProviderType::WeatherApi => 0,
            ProviderType::OpenWeather => 1,
        }
    }

    /// The provider type that is filed under `code`, if there is one.
    pub fn from_code(code: u64) -> (result: Option<ProviderType>)
        ensures
            result == type_of_code(code),
            result matches Some(found) ==> found.spec_code() == code,
    {
        if code == 0 {
            Some(ProviderType::WeatherApi)
        } else if code == 1 {
            Some(ProviderType::OpenWeather)
        } else {
            None
        }
    }

    /// The name under which this type is registered.
    pub open spec fn spec_name(self) -> Seq<char> {
        match self {
            ProviderType::WeatherApi => "WeatherApi"@,
            ProviderType::OpenWeather => "OpenWeather"@,
        }
    }

    /// The scale in which providers of this type report temperatures.
    pub open spec fn spec_scale(self) -> Scale {
        match self {
            ProviderType::WeatherApi => Scale::Celsius,
            ProviderType::OpenWeather => Scale::Kelvin,
        }
    }

    /// The name under which this type is registered.
    pub fn name(&self) -> (result: &'static str)
        ensures
            result@ == self.spec_name(),
    {
        match self {
            ProviderType::WeatherApi => "WeatherApi",
            ProviderType::OpenWeather => "OpenWeather",
        }
    }
}

/// Finds the provider type registered under `name`.
pub fn resolve(name: &str) -> (result: Option<ProviderType>)
    ensures
        result == named_type(name@),
{
    let wanted: String = name.to_owned();
    if wanted == "WeatherApi".to_owned() {
        Some(ProviderType::WeatherApi)
    } else if wanted == "OpenWeather".to_owned() {
        Some(ProviderType::OpenWeather)
    } else {
        None
    }
}

/// Trait for all weather providers: deciding what to fetch, and reading
/// the response. Both go by the rules of the provider's type.
pub trait WeatherProvider {
    /// The errors of this provider.
    type Error;

    /// The type whose rules this provider follows.
    spec fn followed_type(&self) -> ProviderType;

    /// The API key that this provider sends.
    spec fn sent_key(&self) -> Seq<char>;

    /// An error of this provider with its text as characters.
    spec fn fault_of(error: Self::Error) -> Fault;

    /// Decides what to fetch for `address` and `date` on `today`: the
    /// current-weather address without a date, the forecast address for a
    /// date inside the window, and no address at all for one outside it.
    fn request_url(&self, address: &str, date: Option<&Date>, today: &Date) -> (result: Result<
        String,
        Self::Error,
    >)
        requires
            today.is_valid(),
            date matches Some(day) ==> day.is_valid(),
        ensures
            match result {
                Ok(url) => planned_request(
                    self.followed_type(),
                    self.sent_key(),
                    address@,
                    copied(date),
                    *today,
                ) == Ok::<Seq<char>, Fault>(url@),
                Err(error) => planned_request(
                    self.followed_type(),
                    self.sent_key(),
                    address@,
                    copied(date),
                    *today,
                ) == Err::<Seq<char>, Fault>(Self::fault_of(error)),
            },
    ;

    /// Decodes the text of a response and reads the weather for `date`, or
    /// the current weather where there is no date, out of it. The
    /// temperature comes in the scale of the provider's type.
    fn read_response(&self, text: &str, date: Option<&Date>) -> (result: Result<
        Forecast,
        Self::Error,
    >)
        requires
            date matches Some(day) ==> day.is_valid(),
        ensures
            match result {
                Ok(forecast) => forecast.temp.scale == self.followed_type().spec_scale()
                    && response_weather(self.followed_type(), text@, copied(date)) == Ok::<
                    (u64, Seq<char>),
                    Fault,
                >((forecast.temp.bits, forecast.condition@)),
                Err(error) => response_weather(self.followed_type(), text@, copied(date)) == Err::<
                    (u64, Seq<char>),
                    Fault,
                >(Self::fault_of(error)),
            },
    ;
}

impl Provider {
    /// The type of this provider.
    pub open spec fn spec_provider_type(self) -> ProviderType {
        match self {
            Provider::WeatherApi(_) => ProviderType::WeatherApi,
            Provider::OpenWeather(_) => ProviderType::OpenWeather,
        }
    }

    /// The API key that this provider holds.
    pub open spec fn spec_key(self) -> Seq<char> {
        match self {
            Provider::WeatherApi(p) => p.spec_key(),
            Provider::OpenWeather(p) => p.spec_key(),
        }
    }

    /// Makes the provider that `value` describes.
    pub fn from_ir(value: ProviderIR) -> (result: Provider)
        ensures
            result.spec_provider_type() == value.provider,
            result.spec_key() == value.key@,
    {
        match value.provider {
            ProviderType::WeatherApi => Provider::WeatherApi(WeatherApi::from_ir(value)),
            ProviderType::OpenWeather => Provider::OpenWeather(OpenWeather::from_ir(value)),
        }
    }

    /// The type of this provider.
    pub fn provider_type(&self) -> (result: ProviderType)
        ensures
            result == self.spec_provider_type(),
    {
        match self {
            Provider::WeatherApi(_) => ProviderType::WeatherApi,
            Provider::OpenWeather(_) => ProviderType::OpenWeather,
        }
    }
}

impl WeatherProvider for Provider {
    type Error = ProviderError;

    open spec fn followed_type(&self) -> ProviderType {
        self.spec_provider_type()
    }

    open spec fn sent_key(&self) -> Seq<char> {
        self.spec_key()
    }

    open spec fn fault_of(error: ProviderError) -> Fault {
        error.fault()
    }

    fn request_url(&self, address: &str, date: Option<&Date>, today: &Date) -> (result: Result<
        String,
        ProviderError,
    >)
        ensures
            result matches Err(error) ==> error.raised_by() == self.spec_provider_type(),
    {
        match self {
            Provider::WeatherApi(provider) => match provider.request_url(address, date, today) {
                Ok(url) => Ok(url),
                Err(error) => Err(ProviderError::WeatherApi(error)),
            },
            Provider::OpenWeather(provider) => match provider.request_url(address, date, today) {
                Ok(url) => Ok(url),
                Err(error) => Err(ProviderError::OpenWeather(error)),
            },
        }
    }

    fn read_response(&self, text: &str, date: Option<&Date>) -> (result: Result<
        Forecast,
        ProviderError,
    >)
        ensures
            result matches Err(error) ==> error.raised_by() == self.spec_provider_type(),
    {
        match self {
            Provider::WeatherApi(provider) => match provider.read_response(text, date) {
                Ok(forecast) => Ok(forecast),
                Err(error) => Err(ProviderError::WeatherApi(error)),
            },
            Provider::OpenWeather(provider) => match provider.read_response(text, date) {
                Ok(forecast) => Ok(forecast),
                Err(error) => Err(ProviderError::OpenWeather(error)),
            },
        }
    }
}

/// Every registered name resolves to the type that carries it, a name
/// resolves to a type only if it is that type's name, and every other name
/// resolves to nothing. So a provider made from the type that a name
/// resolved to is of the variant that carries the name.
pub proof fn names_and_types_correspond(name: Seq<char>, provider: ProviderType, made: Provider)
    ensures
        named_type(provider.spec_name()) == Some(provider),
        named_type(name) == Some(provider) <==> name == provider.spec_name(),
        named_type(name).is_none() <==> (name != "WeatherApi"@ && name != "OpenWeather"@),
        named_type(name) == Some(made.spec_provider_type()) ==> made.spec_provider_type().spec_name()
            == name,
{
    reveal_strlit("WeatherApi");
    reveal_strlit("OpenWeather");
    assert("WeatherApi"@.len() != "OpenWeather"@.len());
}

/// A single decimal digit as text.
pub open spec fn digit_text(digit: int) -> Seq<char> {
    if digit == 0 {
        "0"@
    } else if digit == 1 {
        "1"@
    } else if digit == 2 {
        "2"@
    } else if digit == 3 {
        "3"@
    } else if digit == 4 {
        "4"@
    } else if digit == 5 {
        "5"@
    } else if digit == 6 {
        "6"@
    } else if digit == 7 {
        "7"@
    } else if digit == 8 {
        "8"@
    } else {
        "9"@
    }
}

/// A number below one hundred in decimal, without leading zero.
pub open spec fn small_decimal(n: int) -> Seq<char> {
    if n < 10 {
        digit_text(n)
    } else {
        digit_text(n / 10) + digit_text(n % 10)
    }
}

fn digit_str(digit: i64) -> (result: &'static str)
    requires
        0 <= digit < 10,
    ensures
        result@ == digit_text(digit as int),
{
    if digit == 0 {
        "0"
    } else if digit == 1 {
        "1"
    } else if digit == 2 {
        "2"
    } else if digit == 3 {
        "3"
    } else if digit == 4 {
        "4"
    } else if digit == 5 {
        "5"
    } else if digit == 6 {
        "6"
    } else if digit == 7 {
        "7"
    } else if digit == 8 {
        "8"
    } else {
        "9"
    }
}

/// Writes a number below one hundred in decimal.
pub(crate) fn small_decimal_string(n: i64) -> (result: String)
    requires
        0 <= n < 100,
    ensures
        result@ == small_decimal(n as int),
{
    if n < 10 {
        digit_str(n).to_owned()
    } else {
        let mut text: String = digit_str(n / 10).to_owned();
        text.append(digit_str(n % 10));
        text
    }
}

} // verus!
