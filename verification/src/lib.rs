//! Ingestion core for a personal mood-log service, together with the URL
//! builder for the Garmin Connect endpoints that the surrounding tooling
//! talks to.
//!
//! The ingestion pipeline takes an authenticated request carrying a CSV
//! export of daily mood entries and reports which calendar dates since the
//! most recent entry have no log entry.

pub mod date;
pub mod entry;
pub mod gap;
pub mod request;
pub mod text;
pub mod url_builder;

pub use date::Date;
