//! Loaders of the configuration, and making providers out of a loaded
//! configuration.

use vstd::prelude::*;
use crate::config::Config;
use crate::provider::{Provider, ProviderIR, ProviderType};

pub mod json_loader;

verus! {

/// Errors of making a provider out of a configuration.
#[derive(Clone, Copy, Debug, PartialEq, Eq, Structural)]
pub enum LoaderError {
    APIKeyNotFound { provider: ProviderType },
    DefaultProviderNotSet,
}

/// Why a loader made no provider: it has loaded nothing, which it reports
/// in its own way, or the loaded configuration does not allow it.
#[derive(Debug)]
pub enum LoadingError<E> {
    Store(E),
    Config(LoaderError),
}

/// Trait for provider loader: a store that holds the configuration once it
/// has loaded it. Can be used for creating different ways to keep the
/// configuration (JSON, YAML, database, etc.).
pub trait ProviderLoader {
    /// What a failed operation of this loader reports.
    type Error;

    /// The configuration that this loader holds, where it has loaded one.
    spec fn loaded(&self) -> Option<Config>;

    /// Whether `error` is this loader's report that nothing was loaded.
    spec fn reports_nothing_loaded(error: Self::Error) -> bool;

    /// Get cached config; fails exactly where nothing was loaded, with
    /// the report of that.
    fn get_config(&self) -> (result: Result<&Config, Self::Error>)
        ensures
            match result {
                Ok(config) => self.loaded() == Some(*config),
                Err(error) => self.loaded().is_none() && Self::reports_nothing_loaded(error),
            },
    ;

    /// Set default weather provider; fails, changing nothing, exactly where
    /// nothing was loaded.
    fn set_default_provider(&mut self, provider: ProviderType) -> (result: Result<(), Self::Error>)
        requires
            old(self).loaded() matches Some(config) ==> config.wf(),
        ensures
            final(self).loaded() matches Some(config) ==> config.wf(),
            match result {
                Ok(_) => old(self).loaded() matches Some(before) && final(self).loaded() matches Some(
                    after,
                ) && after.default == Some(provider) && after.keys == before.keys,
                Err(_) => old(self).loaded().is_none() && final(self).loaded().is_none(),
            },
    ;

    /// Set API key for specified weather provider; fails, changing
    /// nothing, exactly where nothing was loaded.
    fn set_provider_key(&mut self, provider: ProviderType, key: &str) -> (result: Result<
        (),
        Self::Error,
    >)
        requires
            old(self).loaded() matches Some(config) ==> config.wf(),
        ensures
            final(self).loaded() matches Some(config) ==> config.wf(),
            match result {
                Ok(_) => old(self).loaded() matches Some(before) && final(self).loaded() matches Some(
                    after,
                ) && after.default == before.default && after.key_of(provider) == Some(key@)
                    && forall|other: ProviderType|
                    other != provider ==> after.key_of(other) == before.key_of(other),
                Err(_) => old(self).loaded().is_none() && final(self).loaded().is_none(),
            },
    ;

    /// Get provider by provider type: the provider with the key on file.
    /// Fails where nothing was loaded, with the loader's report of that,
    /// and where no key is on file.
    fn get_provider(&self, provider: ProviderType) -> (result: Result<
        Provider,
        LoadingError<Self::Error>,
    >)
        ensures
            match self.loaded() {
                None => result matches Err(LoadingError::Store(error))
                    && Self::reports_nothing_loaded(error),
                Some(config) => match config.key_of(provider) {
                    Some(key) => result matches Ok(made) && made.spec_provider_type() == provider
                        && made.spec_key() == key,
                    None => result matches Err(LoadingError::Config(error)) && error == (
                    LoaderError::APIKeyNotFound { provider }),
                },
            },
    {
        match self.get_config() {
            Ok(config) => match get_provider(config, provider) {
                Ok(made) => Ok(made),
                Err(error) => Err(LoadingError::Config(error)),
            },
            Err(error) => Err(LoadingError::Store(error)),
        }
    }

    /// Get default provider. Fails where nothing was loaded, with the
    /// loader's report of that, where no default is set, and where no key
    /// is on file for the default.
    fn get_default_provider(&self) -> (result: Result<Provider, LoadingError<Self::Error>>)
        ensures
            match self.loaded() {
                None => result matches Err(LoadingError::Store(error))
                    && Self::reports_nothing_loaded(error),
                Some(config) => match config.default {
                    None => result matches Err(LoadingError::Config(error)) && error
                        == LoaderError::DefaultProviderNotSet,
                    Some(provider) => match config.key_of(provider) {
                        Some(key) => result matches Ok(made) && made.spec_provider_type() == provider
                            && made.spec_key() == key,
                        None => result matches Err(LoadingError::Config(error)) && error == (
                        LoaderError::APIKeyNotFound { provider }),
                    },
                },
            },
    {
        match self.get_config() {
            Ok(config) => match get_default_provider(config) {
                Ok(made) => Ok(made),
                Err(error) => Err(LoadingError::Config(error)),
            },
            Err(error) => Err(LoadingError::Store(error)),
        }
    }
}

/// Makes the provider of type `provider` with the key on file for it; fails
/// exactly where no key is on file.
pub fn get_provider(config: &Config, provider: ProviderType) -> (result: Result<Provider, LoaderError>)
    ensures
        match result {
            Ok(made) => made.spec_provider_type() == provider && config.key_of(provider) == Some(
                made.spec_key(),
            ),
            Err(error) => config.key_of(provider).is_none() && error == (LoaderError::APIKeyNotFound {
                provider,
            }),
        },
{
    match config.get_key(provider) {
        Some(key) => Ok(Provider::from_ir(ProviderIR { provider, key: key.clone() })),
        None => Err(LoaderError::APIKeyNotFound { provider }),
    }
}

/// Makes the default provider; fails where no default is set, and where no
/// key is on file for the default.
pub fn get_default_provider(config: &Config) -> (result: Result<Provider, LoaderError>)
    ensures
        match result {
            Ok(made) => config.default == Some(made.spec_provider_type()) && config.key_of(
                made.spec_provider_type(),
            ) == Some(made.spec_key()),
            Err(error) => match config.default {
                None => error == LoaderError::DefaultProviderNotSet,
                Some(provider) => config.key_of(provider).is_none() && error == (
                LoaderError::APIKeyNotFound { provider }),
            },
        },
{
    match config.default {
        Some(provider) => get_provider(config, provider),
        None => Err(LoaderError::DefaultProviderNotSet),
    }
}

} // verus!
