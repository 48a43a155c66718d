//! The configuration of a test run: the contracts under test, by name.

use crate::artifact::Artifact;
use std::collections::HashMap;
use vstd::prelude::*;

verus! {

pub const DEFAULT_PROJECTS_FOLDER: &'static str = "cloned_repos";

/// The contracts of a test run, keyed by name.
#[derive(Debug, Clone)]
pub struct TestConfig {
    pub contracts: HashMap<String, Contract>,
}

/// One contract under test.
#[derive(Debug, Clone)]
pub struct Contract {
    pub name: String,
    pub artifact: Artifact,
    /// The address of the contract on a chain; empty where it has none.
    pub chain_address: String,
}

/// What can be wrong with a configuration.
#[derive(Debug)]
pub enum ConfigError {
    QueryError { msg: String },
    InvalidMnemonic { msg: String },
}

impl ConfigError {
    /// The text of the error: what kind it is, then its message.
    pub open spec fn text(&self) -> Seq<char> {
        match *self {
            ConfigError::QueryError { msg } => "query error: "@ + msg@,
            ConfigError::InvalidMnemonic { msg } => "invalid mnemonic: "@ + msg@,
        }
    }

    /// Renders the error as text.
    pub fn message(&self) -> (s: String)
        ensures
            s@ == self.text(),
    {
        match self {
            ConfigError::QueryError { msg } => "query error: ".to_owned().concat(msg.as_str()),
            ConfigError::InvalidMnemonic { msg } => "invalid mnemonic: ".to_owned().concat(
                msg.as_str(),
            ),
        }
    }
}

impl TestConfig {
    /// The contracts of this configuration.
    pub fn contracts(&self) -> (r: &HashMap<String, Contract>)
        ensures
            *r == self.contracts,
    {
        &self.contracts
    }
}

} // verus!
