//! Core of a weather-display daemon: configuration and credential
//! validation, a drift-corrected tick scheduler, and the orchestration
//! state machine that drives the weather-fetch / display-render loop.
//!
//! Everything here is pure logic over plain values. The surrounding
//! binary performs the file reads, network calls, sleeps and display
//! operations, and feeds their outcomes back in as values.

pub mod config;
pub mod schedule;
pub mod service;
