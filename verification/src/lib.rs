//! Loon: request, configuration, catalog and admin-panel logic of the Loon
//! movie server and its desktop tools, with contracts checked by Verus.

pub mod admin;
pub mod api;
pub mod config;
pub mod db;
pub mod models;
pub mod number;
pub mod player;
pub mod text;
pub mod theme;
pub mod time;
