//! Settings of the gateway, with the values that stand in for missing ones.

use vstd::prelude::*;
use vstd::string::StringExecFns;

verus! {

/// Base address of the prediction service where none is configured.
pub open spec fn default_ai_service_url() -> Seq<char> {
    "http://localhost:8001"@
}

/// Listening port where none is configured.
pub open spec fn default_port() -> Seq<char> {
    "3000"@
}

/// Interface that the gateway listens on: all of them.
pub open spec fn listen_host() -> Seq<char> {
    "0.0.0.0:"@
}

/// A configured value, or `fallback` where there is none.
pub open spec fn setting_or(value: Option<String>, fallback: Seq<char>) -> Seq<char> {
    match value {
        Some(text) => text@,
        None => fallback,
    }
}

/// The gateway's settings. They are made once and handed to whoever needs them.
#[derive(Clone, Debug, PartialEq)]
pub struct Config {
    /// Base address of the prediction service.
    pub ai_service_url: String,
    /// Port that the gateway listens on.
    pub port: String,
}

/// What a [`Config`] holds.
pub struct ConfigView {
    pub ai_service_url: Seq<char>,
    pub port: Seq<char>,
}

impl View for Config {
    type V = ConfigView;

    open spec fn view(&self) -> ConfigView {
        ConfigView { ai_service_url: self.ai_service_url@, port: self.port@ }
    }
}

impl Config {
    /// Builds the settings from what the surroundings provide. A value that is
    /// there is taken as it is, an empty one too; a missing one gets its default.
    pub fn from_settings(ai_service_url: Option<String>, port: Option<String>) -> (config: Config)
        ensures
            config@.ai_service_url == setting_or(ai_service_url, default_ai_service_url()),
            config@.port == setting_or(port, default_port()),
    {
        let ai_service_url = match ai_service_url {
            Some(text) => text,
            None => "http://localhost:8001".to_owned(),
        };
        let port = match port {
            Some(text) => text,
            None => "3000".to_owned(),
        };
        Config { ai_service_url, port }
    }

    /// The address to listen on: every interface, at the configured port.
    pub fn listen_address(&self) -> (address: String)
        ensures
            address@ == listen_host() + self@.port,
    {
        "0.0.0.0:".to_owned().concat(self.port.as_str())
    }
}

} // verus!
