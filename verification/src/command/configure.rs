//! Configuring: putting a provider's key on file and making the provider
//! the default.

use vstd::prelude::*;
use crate::command::get::text_of;
use crate::config::Config;
use crate::provider::{named_type, resolve, ProviderType};

verus! {

/// Path to the config file.
pub const CONFIG_PATH: &'static str = "config.json";

/// Errors for action configure.
#[derive(Debug)]
pub enum ConfigurationError {
    ProviderNotSupported { provider: String },
    NotHasAPIKey { provider: String },
}

/// What `set_provider` does: how the configuration `after` and the result
/// follow from the configuration `before`, the provider's name and the key.
pub open spec fn set_provider_spec(
    before: Config,
    name: Seq<char>,
    key: Option<Seq<char>>,
    after: Config,
    result: Result<(), ConfigurationError>,
) -> bool {
    match named_type(name) {
        None => {
            &&& after == before
            &&& result matches Err(ConfigurationError::ProviderNotSupported { provider })
            &&& provider@ == name
        },
        Some(provider_type) => match key {
            Some(text) => {
                &&& result is Ok
                &&& after.default == Some(provider_type)
                &&& after.key_of(provider_type) == Some(text)
                &&& forall|other: ProviderType|
                    other != provider_type ==> after.key_of(other) == before.key_of(other)
            },
            None => if before.key_of(provider_type).is_some() {
                &&& result is Ok
                &&& after.default == Some(provider_type)
                &&& after.keys == before.keys
            } else {
                &&& after == before
                &&& result matches Err(ConfigurationError::NotHasAPIKey { provider })
                &&& provider@ == name
            },
        },
    }
}

/// Makes the provider called `provider` the default. With an API key, the
/// key is put on file for it first; without one, a key must be on file
/// already. Fails, changing nothing, on a name that is not registered and
/// on a provider without any key.
pub fn set_provider(config: &mut Config, provider: &str, api_key: Option<&str>) -> (result: Result<
    (),
    ConfigurationError,
>)
    requires
        old(config).wf(),
    ensures
        final(config).wf(),
        set_provider_spec(*old(config), provider@, text_of(api_key), *final(config), result),
{
    let provider_type: ProviderType = match resolve(provider) {
        Some(found) => found,
        None => {
            return Err(ConfigurationError::ProviderNotSupported { provider: provider.to_owned() });
        },
    };
    match api_key {
        Some(key) => {
            config.set_key(provider_type, key);
        },
        None => {
            if config.get_key(provider_type).is_none() {
                return Err(ConfigurationError::NotHasAPIKey { provider: provider.to_owned() });
            }
        },
    }
    config.set_default(provider_type);
    Ok(())
}

/// Configuring a registered provider with a key and then again without one
/// succeeds both times, and leaves that provider as the default with that
/// key on file.
pub proof fn key_then_default(
    start: Config,
    middle: Config,
    end: Config,
    name: Seq<char>,
    key: Seq<char>,
    first: Result<(), ConfigurationError>,
    second: Result<(), ConfigurationError>,
)
    requires
        named_type(name).is_some(),
        set_provider_spec(start, name, Some(key), middle, first),
        set_provider_spec(middle, name, None, end, second),
    ensures
        first is Ok,
        second is Ok,
        end.default == named_type(name),
        end.key_of(named_type(name).unwrap()) == Some(key),
{
    let provider_type = named_type(name).unwrap();
    assert(middle.key_of(provider_type).is_some());
}

/// Configuring under a name that is not registered fails with that name
/// and changes nothing, with or without a key.
pub proof fn unknown_name_is_refused(
    before: Config,
    after: Config,
    name: Seq<char>,
    key: Option<Seq<char>>,
    result: Result<(), ConfigurationError>,
)
    requires
        named_type(name).is_none(),
        set_provider_spec(before, name, key, after, result),
    ensures
        after == before,
        result matches Err(ConfigurationError::ProviderNotSupported { provider }) && provider@ == name,
{
}

} // verus!
