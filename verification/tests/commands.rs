use weather::command::configure::{set_provider, ConfigurationError, CONFIG_PATH};
use weather::command::get::{check_day, get, validate_date, GetError, GettingError};
use weather::command::{Args, Command, CommandError, Step};
use weather::config::Config;
use weather::date::Date;
use weather::provider::weather_api::WeatherApiError;
use weather::provider::{ProviderError, ProviderType, WeatherProvider};
use weather::provider_loader::json_loader::{JsonLoader, JsonLoaderError};
use weather::provider_loader::{
    get_default_provider, get_provider, LoaderError, LoadingError, ProviderLoader,
};

fn day(year: i32, month: u32, day: u32) -> Date {
    Date::new(year, month, day).unwrap()
}

#[test]
fn config_keeps_one_key_for_each_provider() {
    let mut config = Config::new();
    assert!(config.default.is_none());
    assert!(config.get_key(ProviderType::WeatherApi).is_none());
    config.set_key(ProviderType::WeatherApi, "one");
    config.set_key(ProviderType::OpenWeather, "two");
    config.set_key(ProviderType::WeatherApi, "three");
    assert_eq!(config.keys.len(), 2);
    assert_eq!(config.get_key(ProviderType::WeatherApi).map(String::as_str), Some("three"));
    assert_eq!(config.get_key(ProviderType::OpenWeather).map(String::as_str), Some("two"));
    assert!(config.default.is_none());
    config.set_default(ProviderType::OpenWeather);
    assert_eq!(config.default, Some(ProviderType::OpenWeather));
    assert_eq!(config.keys.len(), 2);
}

#[test]
fn providers_are_made_from_the_keys_on_file() {
    let mut config = Config::new();
    assert_eq!(get_default_provider(&config).err(), Some(LoaderError::DefaultProviderNotSet));
    config.set_default(ProviderType::OpenWeather);
    assert_eq!(
        get_default_provider(&config).err(),
        Some(LoaderError::APIKeyNotFound { provider: ProviderType::OpenWeather })
    );
    config.set_key(ProviderType::OpenWeather, "two");
    let provider = get_default_provider(&config).ok().unwrap();
    assert_eq!(provider.provider_type(), ProviderType::OpenWeather);
    assert_eq!(
        get_provider(&config, ProviderType::WeatherApi).err(),
        Some(LoaderError::APIKeyNotFound { provider: ProviderType::WeatherApi })
    );
    let url = get_provider(&config, ProviderType::OpenWeather)
        .ok()
        .unwrap()
        .request_url("Rome", None, &day(2024, 5, 10))
        .unwrap();
    assert_eq!(url, "https://api.openweathermap.org/data/2.5/weather?q=Rome&appid=two");
}

#[test]
fn loader_fails_until_a_config_is_loaded() {
    let mut loader = JsonLoader::new(CONFIG_PATH);
    assert_eq!(loader.path, "config.json");
    assert!(matches!(loader.get_config(), Err(JsonLoaderError::ConfigNotLoaded)));
    assert!(matches!(loader.save_config(), Err(JsonLoaderError::ConfigNotLoaded)));
    assert!(matches!(
        loader.set_default_provider(ProviderType::WeatherApi),
        Err(JsonLoaderError::FailedToSetDefaultProvider { provider: ProviderType::WeatherApi })
    ));
    assert!(matches!(
        loader.set_provider_key(ProviderType::OpenWeather, "k"),
        Err(JsonLoaderError::FailedToSetAPI { provider: ProviderType::OpenWeather })
    ));
    assert!(loader.config.is_none());
    loader.load_config(Config::new());
    loader.set_provider_key(ProviderType::OpenWeather, "k").unwrap();
    loader.set_default_provider(ProviderType::OpenWeather).unwrap();
    let config = loader.save_config().unwrap();
    assert_eq!(config.default, Some(ProviderType::OpenWeather));
    assert_eq!(config.get_key(ProviderType::OpenWeather).map(String::as_str), Some("k"));
    assert_eq!(loader.path, "config.json");
}

#[test]
fn only_an_unreadable_file_calls_for_a_blank_one() {
    let unreadable =
        JsonLoaderError::FailedToRead { error: "missing".to_string(), path: "c".to_string() };
    let broken = JsonLoaderError::FailedToParse { error: "eof".to_string(), path: "c".to_string() };
    assert!(JsonLoader::calls_for_blank_file(&unreadable));
    assert!(!JsonLoader::calls_for_blank_file(&broken));
    assert!(!JsonLoader::calls_for_blank_file(&JsonLoaderError::ConfigNotLoaded));
}

#[test]
fn configure_with_key_then_without() {
    let mut config = Config::new();
    set_provider(&mut config, "WeatherApi", Some("XYZ")).unwrap();
    assert_eq!(config.default, Some(ProviderType::WeatherApi));
    set_provider(&mut config, "WeatherApi", None).unwrap();
    assert_eq!(config.default, Some(ProviderType::WeatherApi));
    assert_eq!(config.get_key(ProviderType::WeatherApi).map(String::as_str), Some("XYZ"));
    assert_eq!(config.keys.len(), 1);
}

#[test]
fn configure_unknown_provider() {
    let mut config = Config::new();
    match set_provider(&mut config, "Unknown", Some("XYZ")) {
        Err(ConfigurationError::ProviderNotSupported { provider }) => assert_eq!(provider, "Unknown"),
        other => panic!("unexpected {:?}", other),
    }
    match set_provider(&mut config, "Unknown", None) {
        Err(ConfigurationError::ProviderNotSupported { provider }) => assert_eq!(provider, "Unknown"),
        other => panic!("unexpected {:?}", other),
    }
    assert!(config.default.is_none());
    assert!(config.keys.is_empty());
}

#[test]
fn configure_without_any_key() {
    let mut config = Config::new();
    set_provider(&mut config, "WeatherApi", Some("XYZ")).unwrap();
    match set_provider(&mut config, "OpenWeather", None) {
        Err(ConfigurationError::NotHasAPIKey { provider }) => assert_eq!(provider, "OpenWeather"),
        other => panic!("unexpected {:?}", other),
    }
    assert_eq!(config.default, Some(ProviderType::WeatherApi));
    assert_eq!(config.keys.len(), 1);
}

#[test]
fn dates_are_validated_against_today() {
    let today = day(2024, 5, 10);
    assert_eq!(validate_date(None, &today).unwrap(), None);
    assert_eq!(validate_date(Some("31.12.2099"), &today).unwrap(), Some(day(2099, 12, 31)));
    assert_eq!(validate_date(Some("10.05.2024"), &today).unwrap(), None);
    assert_eq!(validate_date(Some("11.05.2024"), &today).unwrap(), Some(day(2024, 5, 11)));
    match validate_date(Some("01.01.2000"), &today) {
        Err(GettingError::PastDate { date }) => assert_eq!(date, "01.01.2000"),
        other => panic!("unexpected {:?}", other),
    }
    match validate_date(Some("13/25/2024"), &today) {
        Err(GettingError::InvalidDate { date, .. }) => assert_eq!(date, "13/25/2024"),
        other => panic!("unexpected {:?}", other),
    }
    match validate_date(Some("30.02.2024"), &today) {
        Err(GettingError::InvalidDate { date, .. }) => assert_eq!(date, "30.02.2024"),
        other => panic!("unexpected {:?}", other),
    }
}

#[test]
fn get_plans_the_lookup_at_the_default_provider() {
    let today = day(2024, 5, 10);
    let mut config = Config::new();
    assert!(matches!(
        get(&config, "Kyiv", None, &today),
        Err(GetError::Loader(LoaderError::DefaultProviderNotSet))
    ));
    set_provider(&mut config, "WeatherApi", Some("XYZ")).unwrap();
    let lookup = get(&config, "Kyiv", Some("12.05.2024"), &today).ok().unwrap();
    assert_eq!(
        lookup.url,
        "http://api.weatherapi.com/v1/forecast.json?key=XYZ&q=Kyiv&days=3&aqi=no&alerts=no"
    );
    assert_eq!(lookup.date, Some(day(2024, 5, 12)));
    assert_eq!(lookup.report_date(&today), "12.05.2024");
    let lookup = get(&config, "Kyiv", Some("10.05.2024"), &today).ok().unwrap();
    assert_eq!(lookup.url, "http://api.weatherapi.com/v1/current.json?key=XYZ&q=Kyiv&aqi=no");
    assert_eq!(lookup.date, None);
    assert_eq!(lookup.report_date(&today), "10.05.2024");
    assert!(matches!(
        get(&config, "Kyiv", Some("09.05.2024"), &today),
        Err(GetError::Getting(GettingError::PastDate { .. }))
    ));
    assert!(matches!(
        get(&config, "Kyiv", Some("soon"), &today),
        Err(GetError::Getting(GettingError::InvalidDate { .. }))
    ));
    assert!(matches!(
        get(&config, "Kyiv", Some("01.07.2024"), &today),
        Err(GetError::Provider(ProviderError::WeatherApi(
            WeatherApiError::ForecastNotAvailable { .. }
        )))
    ));
}

#[test]
fn process_decides_both_commands() {
    let today = day(2024, 5, 10);
    let mut config = Config::new();
    let args = Args {
        command: Command::Configure {
            provider: "OpenWeather".to_string(),
            api_key: Some("K".to_string()),
        },
    };
    match args.command.process(&mut config, &today) {
        Ok(Step::Save { provider }) => assert_eq!(provider, "OpenWeather"),
        _ => panic!("configure was turned down"),
    }
    assert_eq!(config.default, Some(ProviderType::OpenWeather));
    let unknown = Command::Configure { provider: "Unknown".to_string(), api_key: None };
    assert!(matches!(
        unknown.process(&mut config, &today),
        Err(CommandError::Configuration(ConfigurationError::ProviderNotSupported { .. }))
    ));
    let get = Command::Get { address: "Lviv".to_string(), date: Some("15.05.2024".to_string()) };
    match get.process(&mut config, &today) {
        Ok(Step::Fetch(lookup)) => {
            assert_eq!(lookup.url, "https://api.openweathermap.org/data/2.5/forecast?q=Lviv&appid=K");
            assert_eq!(lookup.date, Some(day(2024, 5, 15)));
        }
        _ => panic!("get was turned down"),
    }
    let late = Command::Get { address: "Lviv".to_string(), date: Some("16.05.2024".to_string()) };
    assert!(matches!(
        late.process(&mut config, &today),
        Err(CommandError::Get(GetError::Provider(ProviderError::OpenWeather(_))))
    ));
    assert_eq!(config.default, Some(ProviderType::OpenWeather));
    assert_eq!(config.keys.len(), 1);
}

#[test]
fn loader_makes_providers_from_what_it_loaded() {
    let mut loader = JsonLoader::new("config.json");
    assert!(matches!(
        loader.get_default_provider(),
        Err(LoadingError::Store(JsonLoaderError::ConfigNotLoaded))
    ));
    assert!(matches!(
        loader.get_provider(ProviderType::WeatherApi),
        Err(LoadingError::Store(JsonLoaderError::ConfigNotLoaded))
    ));
    loader.load_config(Config::new());
    assert!(matches!(
        loader.get_default_provider(),
        Err(LoadingError::Config(LoaderError::DefaultProviderNotSet))
    ));
    loader.set_default_provider(ProviderType::WeatherApi).unwrap();
    assert!(matches!(
        loader.get_default_provider(),
        Err(LoadingError::Config(LoaderError::APIKeyNotFound { provider: ProviderType::WeatherApi }))
    ));
    loader.set_provider_key(ProviderType::WeatherApi, "XYZ").unwrap();
    loader.set_provider_key(ProviderType::OpenWeather, "ABC").unwrap();
    let provider = loader.get_default_provider().ok().unwrap();
    assert_eq!(provider.provider_type(), ProviderType::WeatherApi);
    assert_eq!(
        provider.request_url("Kyiv", None, &day(2024, 5, 10)).unwrap(),
        "http://api.weatherapi.com/v1/current.json?key=XYZ&q=Kyiv&aqi=no"
    );
    let other = loader.get_provider(ProviderType::OpenWeather).ok().unwrap();
    assert_eq!(other.provider_type(), ProviderType::OpenWeather);
}

#[test]
fn days_are_checked_against_today() {
    let today = day(2024, 5, 10);
    assert_eq!(check_day(day(2099, 12, 31), &today).unwrap(), Some(day(2099, 12, 31)));
    assert_eq!(check_day(day(2024, 5, 11), &today).unwrap(), Some(day(2024, 5, 11)));
    assert_eq!(check_day(today, &today).unwrap(), None);
    match check_day(day(2000, 1, 1), &today) {
        Err(GettingError::PastDate { date }) => assert_eq!(date, "01.01.2000"),
        other => panic!("unexpected {:?}", other),
    }
    match check_day(day(2024, 5, 9), &today) {
        Err(GettingError::PastDate { date }) => assert_eq!(date, "09.05.2024"),
        other => panic!("unexpected {:?}", other),
    }
}

#[test]
fn keys_are_filed_under_the_codes_of_their_providers() {
    let mut config = Config::new();
    config.set_key(ProviderType::OpenWeather, "two");
    assert_eq!(config.keys.get(&ProviderType::OpenWeather.code()).map(String::as_str), Some("two"));
    assert!(config.keys.get(&ProviderType::WeatherApi.code()).is_none());
}
