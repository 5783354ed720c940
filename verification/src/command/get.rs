//! Getting: checking the date and planning the lookup at the default
//! provider.

use vstd::prelude::*;
use crate::config::Config;
use crate::date::{date_text, format_date, parse_date, parsed_date, Date, DAY_FIRST};
use crate::forecast::Forecast;
use crate::provider::{
    planned_request, response_weather, Fault, Provider, ProviderError, WeatherProvider,
};
use crate::provider_loader::{get_default_provider, LoaderError};

verus! {

/// Errors for action get.
#[derive(Debug)]
pub enum GettingError {
    InvalidDate { error: chrono::ParseError, date: String },
    PastDate { date: String },
}

/// A date turned down, with its text as characters.
pub enum DateFault {
    InvalidDate(Seq<char>),
    PastDate(Seq<char>),
}

impl GettingError {
    /// This error with its text as characters.
    pub open spec fn fault(self) -> DateFault {
        match self {
            GettingError::InvalidDate { error, date } => DateFault::InvalidDate(date@),
            GettingError::PastDate { date } => DateFault::PastDate(date@),
        }
    }
}

/// Why no lookup was planned.
#[derive(Debug)]
pub enum GetError {
    Loader(LoaderError),
    Getting(GettingError),
    Provider(ProviderError),
}

/// A planned lookup: the provider to ask, the address to fetch, and the
/// day asked about, where that is not today.
pub struct Lookup {
    pub provider: Provider,
    pub url: String,
    pub date: Option<Date>,
}

/// The characters of an optional string slice.
pub open spec fn text_of(text: Option<&str>) -> Option<Seq<char>> {
    match text {
        Some(s) => Some(s@),
        None => None,
    }
}

/// What becomes of the date that the user typed, on the day `today`: no
/// text and today's date both stand for the weather now, a later day for
/// itself; text that is no day-first date and days before today are
/// turned down.
pub open spec fn checked_date(text: Option<Seq<char>>, today: Date) -> Result<Option<Date>, DateFault> {
    match text {
        None => Ok(None),
        Some(typed) => match parsed_date(typed, DAY_FIRST@) {
            None => Err(DateFault::InvalidDate(typed)),
            Some(day) => checked_day(day, today),
        },
    }
}

/// What `get` does: how the result follows from the configuration, the
/// address, the typed date and the day. The default provider is made
/// first, then the date is checked, then the request is planned.
pub open spec fn get_spec(
    config: Config,
    address: Seq<char>,
    date: Option<Seq<char>>,
    today: Date,
    result: Result<Lookup, GetError>,
) -> bool {
    match config.default {
        None => result matches Err(GetError::Loader(error)) && error
            == LoaderError::DefaultProviderNotSet,
        Some(provider) => match config.key_of(provider) {
            None => result matches Err(GetError::Loader(error)) && error == (
            LoaderError::APIKeyNotFound { provider }),
            Some(key) => match checked_date(date, today) {
                Err(fault) => result matches Err(GetError::Getting(error)) && error.fault() == fault,
                Ok(day) => match planned_request(provider, key, address, day, today) {
                    Err(fault) => result matches Err(GetError::Provider(error)) && error.fault()
                        == fault && error.raised_by() == provider,
                    Ok(url) => {
                        &&& result matches Ok(lookup)
                        &&& lookup.wf()
                        &&& lookup.provider.spec_provider_type() == provider
                        &&& lookup.provider.spec_key() == key
                        &&& lookup.date == day
                        &&& lookup.url@ == url
                    },
                },
            },
        },
    }
}

/// What becomes of a day that was read, on the day `today`: today stands
/// for the weather now, a later day for itself, and a day before today is
/// turned down under its day-first text.
pub open spec fn checked_day(day: Date, today: Date) -> Result<Option<Date>, DateFault> {
    if day.precedes(today) {
        Err(DateFault::PastDate(date_text(day, DAY_FIRST@)))
    } else if day == today {
        Ok(None)
    } else {
        Ok(Some(day))
    }
}

/// Checks a day that was read against `today`.
pub fn check_day(day: Date, today: &Date) -> (result: Result<Option<Date>, GettingError>)
    requires
        day.is_valid(),
        today.is_valid(),
    ensures
        match result {
            Ok(kept) => checked_day(day, *today) == Ok::<Option<Date>, DateFault>(kept),
            Err(error) => error is PastDate && checked_day(day, *today) == Err::<
                Option<Date>,
                DateFault,
            >(error.fault()),
        },
{
    if day.is_before(today) {
        Err(GettingError::PastDate { date: format_date(&day, DAY_FIRST) })
    } else if day == *today {
        Ok(None)
    } else {
        Ok(Some(day))
    }
}

/// Reads and checks the date that the user typed.
pub fn validate_date(date: Option<&str>, today: &Date) -> (result: Result<Option<Date>, GettingError>)
    requires
        today.is_valid(),
    ensures
        match result {
            Ok(day) => checked_date(text_of(date), *today) == Ok::<Option<Date>, DateFault>(day) && (
            day matches Some(d) ==> d.is_valid()),
            Err(error) => checked_date(text_of(date), *today) == Err::<Option<Date>, DateFault>(
                error.fault(),
            ),
        },
{
    match date {
        None => Ok(None),
        Some(typed) => match parse_date(typed, DAY_FIRST) {
            Err(error) => Err(GettingError::InvalidDate { error, date: typed.to_owned() }),
            Ok(day) => check_day(day, today),
        },
    }
}

impl Lookup {
    /// The day asked about is an existing day.
    pub open spec fn wf(self) -> bool {
        self.date matches Some(day) ==> day.is_valid()
    }

    /// Reads the forecast out of the text of the response to this lookup.
    pub fn read(&self, text: &str) -> (result: Result<Forecast, ProviderError>)
        requires
            self.wf(),
        ensures
            match result {
                Ok(forecast) => forecast.temp.scale == self.provider.spec_provider_type().spec_scale()
                    && response_weather(self.provider.spec_provider_type(), text@, self.date) == Ok::<
                    (u64, Seq<char>),
                    Fault,
                >((forecast.temp.bits, forecast.condition@)),
                Err(error) => error.raised_by() == self.provider.spec_provider_type() && response_weather(
                    self.provider.spec_provider_type(),
                    text@,
                    self.date,
                ) == Err::<(u64, Seq<char>), Fault>(error.fault()),
            },
    {
        match &self.date {
            Some(day) => self.provider.read_response(text, Some(day)),
            None => self.provider.read_response(text, None),
        }
    }

    /// The day-first text of the day that the report is about: the day
    /// asked about, or `today`.
    pub fn report_date(&self, today: &Date) -> (result: String)
        requires
            self.wf(),
            today.is_valid(),
        ensures
            result@ == date_text(
                match self.date {
                    Some(day) => day,
                    None => *today,
                },
                DAY_FIRST@,
            ),
    {
        match &self.date {
            Some(day) => format_date(day, DAY_FIRST),
            None => format_date(today, DAY_FIRST),
        }
    }
}

/// Plans the lookup of the weather at `address`: makes the default
/// provider, checks the typed date against `today`, and decides what to
/// fetch.
pub fn get(config: &Config, address: &str, date: Option<&str>, today: &Date) -> (result: Result<
    Lookup,
    GetError,
>)
    requires
        today.is_valid(),
    ensures
        get_spec(*config, address@, text_of(date), *today, result),
{
    let provider: Provider = match get_default_provider(config) {
        Ok(provider) => provider,
        Err(error) => {
            return Err(GetError::Loader(error));
        },
    };
    let day: Option<Date> = match validate_date(date, today) {
        Ok(day) => day,
        Err(error) => {
            return Err(GetError::Getting(error));
        },
    };
    let planned = match &day {
        Some(d) => provider.request_url(address, Some(d), today),
        None => provider.request_url(address, None, today),
    };
    match planned {
        Ok(url) => Ok(Lookup { provider, url, date: day }),
        Err(error) => Err(GetError::Provider(error)),
    }
}

} // verus!
