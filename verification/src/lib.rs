//! Weather lookup core: calendar dates, JSON readings, the supported
//! providers with their forecast windows, the stored configuration and the
//! decisions behind the two commands.

pub mod date;
pub mod forecast;
pub mod json;
pub mod provider;
pub mod config;
pub mod provider_loader;
pub mod command;
