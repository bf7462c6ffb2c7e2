//! The verified core of the light-factory terminal client.

pub mod api;
pub mod client;
pub mod commands;
pub mod config;
pub mod credentials;
pub mod engine_view;
pub mod fetch;
pub mod i18n;
pub mod keys;
pub mod laws;
pub mod layout;
pub mod modal;
pub mod modal_view;
pub mod provider;
pub mod screen;
pub mod selection;
pub mod settings;
pub mod strmap;
pub mod text;
