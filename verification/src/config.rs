//! The settings of the service, as its configuration file gives them.

use vstd::prelude::*;
use crate::autoscan::Credentials;

verus! {

/// Why the settings could not be had.
#[derive(Debug, PartialEq, Eq)]
pub enum ConfigError {
    /// Reading or understanding the configuration went wrong; the text says
    /// how.
    UnexpectedError(String),
}

impl ConfigError {
    /// The error in words: what went wrong underneath.
    pub fn message(&self) -> (text: String)
        ensures
            text@ == self->UnexpectedError_0@,
    {
        match self {
            ConfigError::UnexpectedError(cause) => cause.clone(),
        }
    }
}

/// The settings of the service.
#[derive(Debug)]
pub struct Config {
    pub autoscan: AutoscanConfig,
    pub drive: DriveConfig,
}

/// Where the scanner is and how to authenticate with it.
#[derive(Debug)]
pub struct AutoscanConfig {
    pub authentication: Option<Credentials>,
    pub url: String,
}

/// Which drives to watch, and with which account.
#[derive(Debug)]
pub struct DriveConfig {
    /// The path of the file that holds the service account.
    pub account: String,
    /// The identifiers of the drives, in the order in which they are listed.
    pub drives: Vec<String>,
}

} // verus!
