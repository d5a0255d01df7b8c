//! The configuration that the program reads once when it starts and that
//! every request then shares.

use vstd::prelude::*;
use vstd::string::*;

verus! {

/// A setting that was given as the empty string.
#[derive(Debug, Clone, Copy, PartialEq, Eq, Structural)]
pub enum ConfigError {
    /// The webhook's address is empty.
    EmptyUrl,
    /// The chat title is empty.
    EmptyTitle,
}

/// The title under which messages are posted, and the webhook that they go
/// to where no alert names another. Neither is empty, and neither changes
/// once the configuration is made.
#[derive(Debug)]
pub struct DestinationConfig {
    title: String,
    ding_url: String,
}

impl DestinationConfig {
    /// The chat title.
    pub closed spec fn spec_title(&self) -> Seq<char> {
        self.title@
    }

    /// The configured webhook.
    pub closed spec fn spec_ding_url(&self) -> Seq<char> {
        self.ding_url@
    }

    /// Whether both settings are present.
    pub open spec fn wf(&self) -> bool {
        self.spec_title().len() > 0 && self.spec_ding_url().len() > 0
    }

    /// Makes the configuration, or names the setting that is empty. The
    /// webhook is looked at first.
    pub fn new(title: String, ding_url: String) -> (made: Result<DestinationConfig, ConfigError>)
        ensures
            match made {
                Ok(config) => config.wf() && config.spec_title() == title@
                    && config.spec_ding_url() == ding_url@,
                Err(ConfigError::EmptyUrl) => ding_url@.len() == 0,
                Err(ConfigError::EmptyTitle) => ding_url@.len() > 0 && title@.len() == 0,
            },
    {
        if ding_url.as_str().is_empty() {
            Err(ConfigError::EmptyUrl)
        } else if title.as_str().is_empty() {
            Err(ConfigError::EmptyTitle)
        } else {
            Ok(DestinationConfig { title, ding_url })
        }
    }

    /// The chat title.
    pub fn title(&self) -> (title: &str)
        ensures
            title@ == self.spec_title(),
    {
        self.title.as_str()
    }

    /// The configured webhook.
    pub fn ding_url(&self) -> (ding_url: &str)
        ensures
            ding_url@ == self.spec_ding_url(),
    {
        self.ding_url.as_str()
    }
}

} // verus!
