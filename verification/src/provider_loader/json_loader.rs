//! The loader that keeps the configuration in a JSON file: what it holds in
//! memory between reading the file and writing it back.

use vstd::prelude::*;
use crate::config::Config;
use crate::provider::ProviderType;
use crate::provider_loader::ProviderLoader;

verus! {

/// Errors for JsonLoader.
#[derive(Debug)]
pub enum JsonLoaderError {
    FailedToRead { error: String, path: String },
    FailedToParse { error: String, path: String },
    ConfigNotLoaded,
    FailedToStringify { error: String },
    FailedToSave { error: String, path: String },
    FailedToSetDefaultProvider { provider: ProviderType },
    FailedToSetAPI { provider: ProviderType },
}

/// Loader for saving config and loading providers from JSON.
#[derive(Debug)]
pub struct JsonLoader {
    pub path: String,
    pub config: Option<Config>,
}

impl JsonLoader {
    /// A loaded configuration holds every key under the code of a provider.
    pub open spec fn wf(self) -> bool {
        self.config matches Some(config) ==> config.wf()
    }

    /// A loader for the file at `path`, with nothing loaded yet.
    pub fn new(path: &str) -> (result: JsonLoader)
        ensures
            result.path@ == path@,
            result.config.is_none(),
            result.wf(),
    {
        JsonLoader { path: path.to_owned(), config: None }
    }

    /// Whether a first attempt to load that ended in `error` calls for a
    /// blank file to be written and loaded: only where the file could not
    /// be read.
    pub fn calls_for_blank_file(error: &JsonLoaderError) -> (result: bool)
        ensures
            result == (*error is FailedToRead),
    {
        match error {
            JsonLoaderError::FailedToRead { .. } => true,
            _ => false,
        }
    }

    /// Takes in the configuration that was read from the file.
    pub fn load_config(&mut self, config: Config)
        requires
            config.wf(),
        ensures
            final(self).path == old(self).path,
            final(self).config == Some(config),
            final(self).wf(),
    {
        self.config = Some(config);
    }

    /// The configuration to write to the file; fails where nothing was loaded.
    pub fn save_config(&self) -> (result: Result<&Config, JsonLoaderError>)
        ensures
            match result {
                Ok(config) => self.config == Some(*config),
                Err(error) => self.config.is_none() && error is ConfigNotLoaded,
            },
    {
        self.get_config()
    }
}

impl ProviderLoader for JsonLoader {
    type Error = JsonLoaderError;

    open spec fn loaded(&self) -> Option<Config> {
        self.config
    }

    open spec fn reports_nothing_loaded(error: JsonLoaderError) -> bool {
        error is ConfigNotLoaded
    }

    /// The loaded configuration; fails where nothing was loaded.
    fn get_config(&self) -> (result: Result<&Config, JsonLoaderError>)
        ensures
            match result {
                Ok(config) => self.config == Some(*config),
                Err(error) => self.config.is_none() && error is ConfigNotLoaded,
            },
    {
        match &self.config {
            Some(config) => Ok(config),
            None => Err(JsonLoaderError::ConfigNotLoaded),
        }
    }

    /// Makes `provider` the default of the loaded configuration; fails,
    /// changing nothing, where nothing was loaded.
    fn set_default_provider(&mut self, provider: ProviderType) -> (result: Result<
        (),
        JsonLoaderError,
    >)
        ensures
            final(self).path == old(self).path,
            match result {
                Ok(_) => old(self).config matches Some(before) && final(self).config matches Some(after)
                    && after.default == Some(provider) && after.keys == before.keys,
                Err(error) => old(self).config.is_none() && final(self).config.is_none() && error == (
                JsonLoaderError::FailedToSetDefaultProvider { provider }),
            },
    {
        match self.config.take() {
            Some(mut config) => {
                config.set_default(provider);
                self.config = Some(config);
                Ok(())
            },
            None => Err(JsonLoaderError::FailedToSetDefaultProvider { provider }),
        }
    }

    /// Puts `key` on file for `provider` in the loaded configuration; fails,
    /// changing nothing, where nothing was loaded.
    fn set_provider_key(&mut self, provider: ProviderType, key: &str) -> (result: Result<
        (),
        JsonLoaderError,
    >)
        ensures
            final(self).path == old(self).path,
            match result {
                Ok(_) => old(self).config matches Some(before) && final(self).config matches Some(after)
                    && after.default == before.default && after.key_of(provider) == Some(key@)
                    && forall|other: ProviderType|
                    other != provider ==> after.key_of(other) == before.key_of(other),
                Err(error) => old(self).config.is_none() && final(self).config.is_none() && error == (
                JsonLoaderError::FailedToSetAPI { provider }),
            },
    {
        match self.config.take() {
            Some(mut config) => {
                config.set_key(provider, key);
                self.config = Some(config);
                Ok(())
            },
            None => Err(JsonLoaderError::FailedToSetAPI { provider }),
        }
    }
}

} // verus!
