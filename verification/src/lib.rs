pub mod app;
pub mod auth;
pub mod config;
pub mod control;
pub mod settings;
pub mod spotify;
pub mod text;
pub mod view;
