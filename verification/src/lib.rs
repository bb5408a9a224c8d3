//! Control of TCL Home air conditioners.

pub mod account_laws;
pub mod airflow;
pub mod app;
pub mod app_laws;
pub mod auth;
pub mod cache;
pub mod cli;
pub mod clock;
pub mod cloud_laws;
pub mod config;
pub mod device;
pub mod double;
pub mod energy;
pub mod fault;
pub mod http;
pub mod iot;
pub mod json;
pub mod key_laws;
pub mod launch;
pub mod laws;
pub mod meter_laws;
pub mod number_laws;
pub mod order_laws;
pub mod orders;
pub mod panels;
pub mod readouts;
pub mod reports;
pub mod rest;
pub mod screen_laws;
pub mod state_laws;
pub mod status_laws;
pub mod style;
pub mod text;
pub mod text_laws;
pub mod trend;
pub mod ui;
