//! Rules of a service that keeps a set of cloud drives in step with a media
//! library scanner: which folders a batch of changes touches, what is sent to
//! the scanner and when, how one round over all drives is scheduled, and when
//! the service stops.
//!
//! Nothing here performs I/O. Each rule is a function from plain values to
//! plain values, so that the program around it only carries out what the rule
//! has decided.

use vstd::prelude::*;
use vstd::std_specs::convert::FromSpecImpl;

pub mod autoscan;
pub mod changes;
pub mod config;
pub mod drive;
pub mod path;
pub mod payload;
pub mod tasks;
pub mod text;
pub mod tick;

pub use autoscan::{Autoscan, AutoscanBuilder, AutoscanError, Credentials};
use autoscan::Reply;
pub use config::{Config, ConfigError};

verus! {

/// Why a round, or the start of the service, failed.
#[derive(Debug, PartialEq, Eq)]
pub enum Error {
    /// The scanner did not answer, or answered with an error.
    AutoscanUnavailable(AutoscanError),
    /// The change tracker failed; the text says how.
    Bernard(String),
    /// Something else failed; the text says what.
    Unexpected(String),
    /// The settings could not be had.
    Configuration(ConfigError),
}

impl Error {
    /// The error in words.
    pub fn message(&self) -> (text: String)
        ensures
            text@ == match *self {
                Error::AutoscanUnavailable(_) => "Autoscan is unavailable"@,
                Error::Bernard(_) => "Bernard"@,
                Error::Unexpected(cause) => cause@,
                Error::Configuration(_) => "Invalid configuration"@,
            },
    {
        match self {
            Error::AutoscanUnavailable(_) => "Autoscan is unavailable".to_owned(),
            Error::Bernard(_) => "Bernard".to_owned(),
            Error::Unexpected(cause) => cause.clone(),
            Error::Configuration(_) => "Invalid configuration".to_owned(),
        }
    }
}

impl From<AutoscanError> for Error {
    fn from(err: AutoscanError) -> (error: Error) {
        Error::AutoscanUnavailable(err)
    }
}

impl FromSpecImpl<AutoscanError> for Error {
    open spec fn obeys_from_spec() -> bool {
        true
    }

    open spec fn from_spec(err: AutoscanError) -> Error {
        Error::AutoscanUnavailable(err)
    }
}

impl From<ConfigError> for Error {
    fn from(err: ConfigError) -> (error: Error) {
        Error::Configuration(err)
    }
}

impl FromSpecImpl<ConfigError> for Error {
    open spec fn obeys_from_spec() -> bool {
        true
    }

    open spec fn from_spec(err: ConfigError) -> Error {
        Error::Configuration(err)
    }
}

/// The service: the scanner it reports to and the drives it watches.
#[derive(Debug)]
pub struct Atrain {
    pub autoscan: Autoscan,
    /// The identifiers of the drives, in the order of the registry.
    pub drives: Vec<String>,
}

/// The settings of a service that is about to start.
#[derive(Debug)]
pub struct AtrainBuilder {
    pub autoscan: AutoscanBuilder,
    pub drives: Vec<String>,
}

impl AtrainBuilder {
    /// Settings for a service as `config` describes it: its scanner, reached
    /// without a proxy, and its drives.
    pub fn new(config: Config) -> (builder: AtrainBuilder)
        ensures
            builder.autoscan == (AutoscanBuilder {
                auth: config.autoscan.authentication,
                url: config.autoscan.url,
                proxy: None,
            }),
            builder.drives == config.drive.drives,
    {
        AtrainBuilder {
            autoscan: Autoscan::builder(config.autoscan.url, config.autoscan.authentication),
            drives: config.drive.drives,
        }
    }

    /// The same settings, with requests going through the proxy at `url`.
    pub fn proxy(self, url: String) -> (builder: AtrainBuilder)
        ensures
            builder.autoscan == (AutoscanBuilder { proxy: Some(url), ..self.autoscan }),
            builder.drives == self.drives,
    {
        AtrainBuilder { autoscan: self.autoscan.proxy(url), drives: self.drives }
    }

    /// The service with these settings, provided that the scanner is up:
    /// `probe` is its answer to [`Autoscan::available`].
    pub fn build(self, probe: Reply) -> (service: Result<Atrain, Error>)
        ensures
            service == if probe.healthy() {
                Ok::<Atrain, Error>(
                    Atrain {
                        autoscan: Autoscan {
                            auth: self.autoscan.auth,
                            url: self.autoscan.url,
                            proxy: self.autoscan.proxy,
                        },
                        drives: self.drives,
                    },
                )
            } else {
                Err(Error::AutoscanUnavailable(AutoscanError::Network(probe)))
            },
    {
        match Autoscan::probed(probe) {
            Ok(()) => Ok(Atrain { autoscan: self.autoscan.build(), drives: self.drives }),
            Err(err) => Err(Error::AutoscanUnavailable(err)),
        }
    }
}

} // verus!
