//! Supervisor logic for the database instances of one server.
//!
//! A [`manager::ManagerState`] hands out ports, sets instances up and stops them. What
//! has to be done outside (files, processes, requests to the master server) is given to
//! the caller as plain values, and what came of it is handed back.

pub mod api;
pub mod args;
pub mod config_laws;
pub mod config_toml;
pub mod id_map;
pub mod instance;
pub mod laws;
pub mod manager;
pub mod model;
pub mod outcomes;
pub mod password;
pub mod port_pool;
pub mod register;
pub mod source;
pub mod startup;
pub mod text;
pub mod toml_text;
