//! The two commands and what each of them decides.

use vstd::prelude::*;
use crate::command::configure::{set_provider, set_provider_spec, ConfigurationError};
use crate::command::get::{get, get_spec, text_of, GetError, Lookup};
use crate::config::Config;
use crate::date::Date;

pub mod configure;
pub mod get;

verus! {

/// The command line: one command.
pub struct Args {
    pub command: Command,
}

/// A command with its arguments.
pub enum Command {
    /// Configure the provider and API key for it.
    Configure { provider: String, api_key: Option<String> },
    /// Get weather information for the address on the date.
    Get { address: String, date: Option<String> },
}

/// What is left to do once a command has been decided.
pub enum Step {
    /// Write the configuration back and report that the named provider is
    /// the default now.
    Save { provider: String },
    /// Fetch the address of the lookup and read the forecast out of the
    /// response.
    Fetch(Lookup),
}

/// Why a command was turned down.
pub enum CommandError {
    Configuration(ConfigurationError),
    Get(GetError),
}

/// The characters of an optional string.
pub open spec fn string_of(text: Option<String>) -> Option<Seq<char>> {
    match text {
        Some(s) => Some(s@),
        None => None,
    }
}

impl Command {
    /// Decides this command against the loaded configuration on the day
    /// `today`. Configuring changes the configuration as `set_provider`
    /// does and asks for it to be saved; getting leaves it alone and plans
    /// the lookup as `get` does.
    pub fn process(&self, config: &mut Config, today: &Date) -> (result: Result<Step, CommandError>)
        requires
            old(config).wf(),
            today.is_valid(),
        ensures
            final(config).wf(),
            match *self {
                Command::Configure { provider, api_key } => match result {
                    Ok(Step::Save { provider: saved }) => saved@ == provider@ && set_provider_spec(
                        *old(config),
                        provider@,
                        string_of(api_key),
                        *final(config),
                        Ok(()),
                    ),
                    Err(CommandError::Configuration(error)) => set_provider_spec(
                        *old(config),
                        provider@,
                        string_of(api_key),
                        *final(config),
                        Err(error),
                    ),
                    _ => false,
                },
                Command::Get { address, date } => *final(config) == *old(config) && match result {
                    Ok(Step::Fetch(lookup)) => get_spec(
                        *old(config),
                        address@,
                        string_of(date),
                        *today,
                        Ok(lookup),
                    ),
                    Err(CommandError::Get(error)) => get_spec(
                        *old(config),
                        address@,
                        string_of(date),
                        *today,
                        Err(error),
                    ),
                    _ => false,
                },
            },
    {
        match self {
            Command::Configure { provider, api_key } => {
                let key: Option<&str> = match api_key {
                    Some(text) => Some(text.as_str()),
                    None => None,
                };
                assert(text_of(key) == string_of(*api_key));
                match set_provider(config, provider.as_str(), key) {
                    Ok(_) => Ok(Step::Save { provider: provider.clone() }),
                    Err(error) => Err(CommandError::Configuration(error)),
                }
            },
            Command::Get { address, date } => {
                let text: Option<&str> = match date {
                    Some(text) => Some(text.as_str()),
                    None => None,
                };
                assert(text_of(text) == string_of(*date));
                match get(config, address.as_str(), text, today) {
                    Ok(lookup) => Ok(Step::Fetch(lookup)),
                    Err(error) => Err(CommandError::Get(error)),
                }
            },
        }
    }
}

} // verus!
