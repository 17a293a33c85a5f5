//! The library's error type.

use vstd::prelude::*;
use vstd::string::*;
use crate::text::concat2;

verus! {

/// Everything that can go wrong in validation, fetching, storage and delivery.
/// Errors of outside services arrive as their message text.
#[derive(Debug, Clone)]
pub enum FeederError {
    Config(String),
    MissingEnvVar(String),
    InvalidUrl(String),
    FeedValidation(String),
    FeedNotFound(String),
    FeedAlreadyExists(String),
    UnsupportedSource(String),
    Http(String),
    FeedParse(String),
    OpmlParse(String),
    Database(String),
    Notification(String),
    Io(String),
    InvalidInput(String),
    Channel(String),
}

impl FeederError {
    pub open spec fn prefix(&self) -> Seq<char> {
        match self {
            FeederError::Config(_) => "Configuration error: "@,
            FeederError::MissingEnvVar(_) => "Missing environment variable: "@,
            FeederError::InvalidUrl(_) => "Invalid feed URL: "@,
            FeederError::FeedValidation(_) => "Feed validation failed: "@,
            FeederError::FeedNotFound(_) => "Feed not found: "@,
            FeederError::FeedAlreadyExists(_) => "Feed already exists: "@,
            FeederError::UnsupportedSource(_) => "Unsupported feed source: "@,
            FeederError::Http(_) => "HTTP request failed: "@,
            FeederError::FeedParse(_) => "Feed parsing failed: "@,
            FeederError::OpmlParse(_) => "OPML parsing failed: "@,
            FeederError::Database(_) => "Database error: "@,
            FeederError::Notification(_) => "Notification failed: "@,
            FeederError::Io(_) => "IO error: "@,
            FeederError::InvalidInput(_) => "Invalid input: "@,
            FeederError::Channel(_) => "Channel error: "@,
        }
    }

    pub open spec fn detail(&self) -> Seq<char> {
        match self {
            FeederError::Config(s) => s@,
            FeederError::MissingEnvVar(s) => s@,
            FeederError::InvalidUrl(s) => s@,
            FeederError::FeedValidation(s) => s@,
            FeederError::FeedNotFound(s) => s@,
            FeederError::FeedAlreadyExists(s) => s@,
            FeederError::UnsupportedSource(s) => s@,
            FeederError::Http(s) => s@,
            FeederError::FeedParse(s) => s@,
            FeederError::OpmlParse(s) => s@,
            FeederError::Database(s) => s@,
            FeederError::Notification(s) => s@,
            FeederError::Io(s) => s@,
            FeederError::InvalidInput(s) => s@,
            FeederError::Channel(s) => s@,
        }
    }

    /// An exact copy of this error.
    pub fn duplicate(&self) -> (r: Self)
        ensures
            r == *self,
    {
        match self {
            FeederError::Config(s) => FeederError::Config(s.clone()),
            FeederError::MissingEnvVar(s) => FeederError::MissingEnvVar(s.clone()),
            FeederError::InvalidUrl(s) => FeederError::InvalidUrl(s.clone()),
            FeederError::FeedValidation(s) => FeederError::FeedValidation(s.clone()),
            FeederError::FeedNotFound(s) => FeederError::FeedNotFound(s.clone()),
            FeederError::FeedAlreadyExists(s) => FeederError::FeedAlreadyExists(s.clone()),
            FeederError::UnsupportedSource(s) => FeederError::UnsupportedSource(s.clone()),
            FeederError::Http(s) => FeederError::Http(s.clone()),
            FeederError::FeedParse(s) => FeederError::FeedParse(s.clone()),
            FeederError::OpmlParse(s) => FeederError::OpmlParse(s.clone()),
            FeederError::Database(s) => FeederError::Database(s.clone()),
            FeederError::Notification(s) => FeederError::Notification(s.clone()),
            FeederError::Io(s) => FeederError::Io(s.clone()),
            FeederError::InvalidInput(s) => FeederError::InvalidInput(s.clone()),
            FeederError::Channel(s) => FeederError::Channel(s.clone()),
        }
    }

    /// The message shown to a user: a fixed prefix per kind, then the detail.
    pub fn describe(&self) -> (r: String)
        ensures
            r@ == self.prefix() + self.detail(),
    {
        match self {
            FeederError::Config(s) => concat2("Configuration error: ", s.as_str()),
            FeederError::MissingEnvVar(s) => concat2("Missing environment variable: ", s.as_str()),
            FeederError::InvalidUrl(s) => concat2("Invalid feed URL: ", s.as_str()),
            FeederError::FeedValidation(s) => concat2("Feed validation failed: ", s.as_str()),
            FeederError::FeedNotFound(s) => concat2("Feed not found: ", s.as_str()),
            FeederError::FeedAlreadyExists(s) => concat2("Feed already exists: ", s.as_str()),
            FeederError::UnsupportedSource(s) => concat2("Unsupported feed source: ", s.as_str()),
            FeederError::Http(s) => concat2("HTTP request failed: ", s.as_str()),
            FeederError::FeedParse(s) => concat2("Feed parsing failed: ", s.as_str()),
            FeederError::OpmlParse(s) => concat2("OPML parsing failed: ", s.as_str()),
            FeederError::Database(s) => concat2("Database error: ", s.as_str()),
            FeederError::Notification(s) => concat2("Notification failed: ", s.as_str()),
            FeederError::Io(s) => concat2("IO error: ", s.as_str()),
            FeederError::InvalidInput(s) => concat2("Invalid input: ", s.as_str()),
            FeederError::Channel(s) => concat2("Channel error: ", s.as_str()),
        }
    }
}

} // verus!
