//! Health profiles, diet history and rule-based recipe recommendations.
//!
//! Quantities are held in fixed point so that every rule is exact: masses,
//! lengths, energies and ingredient amounts in thousandths of their unit,
//! relevance scores in hundredths.

use vstd::prelude::*;
use vstd::string::*;

pub mod outside;
pub mod text;
pub mod models;
pub mod engine;
pub mod rules;
pub mod database;
pub mod config;
pub mod location;

verus! {

/// The failures that the library reports, each with a message for the caller.
#[derive(Debug)]
pub enum AppError {
    Database(String),
    Validation(String),
    NotFound(String),
    Network(String),
    Location(String),
}

pub type AppResult<T> = Result<T, AppError>;

impl AppError {
    /// The message that the error carries.
    pub open spec fn detail(&self) -> Seq<char> {
        match self {
            AppError::Database(m) => m@,
            AppError::Validation(m) => m@,
            AppError::NotFound(m) => m@,
            AppError::Network(m) => m@,
            AppError::Location(m) => m@,
        }
    }

    /// The words that introduce each kind of error when it is shown.
    pub open spec fn heading(&self) -> Seq<char> {
        match self {
            AppError::Database(_) => "Database error: "@,
            AppError::Validation(_) => "Validation error: "@,
            AppError::NotFound(_) => "Not found: "@,
            AppError::Network(_) => "Network error: "@,
            AppError::Location(_) => "Location error: "@,
        }
    }

    /// The error as one line of text: its heading, then its message.
    pub fn message(&self) -> (line: String)
        ensures
            line@ == self.heading() + self.detail(),
    {
        match self {
            AppError::Database(m) => "Database error: ".to_owned().concat(m.as_str()),
            AppError::Validation(m) => "Validation error: ".to_owned().concat(m.as_str()),
            AppError::NotFound(m) => "Not found: ".to_owned().concat(m.as_str()),
            AppError::Network(m) => "Network error: ".to_owned().concat(m.as_str()),
            AppError::Location(m) => "Location error: ".to_owned().concat(m.as_str()),
        }
    }

    /// A validation failure with the given message.
    pub fn validation(msg: &str) -> (e: AppError)
        ensures
            e is Validation,
            e.detail() == msg@,
    {
        AppError::Validation(msg.to_owned())
    }
}

} // verus!
