//! Reminders for bike-sharing stations: offers, confirmations and the
//! periodic reconciliation of active reminders against live station data.
pub mod bike_service;
pub mod commands;
pub mod config;
pub mod cycle_lemmas;
pub mod decimal;
pub mod error;
pub mod handle_location;
pub mod markdown;
pub mod models;
mod sources;
pub mod station_low_warn;
pub mod telegram;
