//! Library core of a terminal client for the Tidal music service.
pub mod text;
pub mod i18n;
pub mod tidal;
pub mod lyrics;
pub mod library;
pub mod search;
pub mod player;
pub mod app;
pub mod events;
pub mod keys;
pub mod remote;
pub mod layout;
pub mod display;
pub mod rounding;
