//! Orbis: the decision logic of a cross-vendor PC game hub, with its
//! contracts proved by Verus.

pub mod text;
pub mod version;
pub mod model;
pub mod tool;
pub mod compat;
pub mod attention;
pub mod json;
pub mod seed;
pub mod manifest;
pub mod assets;
pub mod tools;
pub mod contract;
pub mod db;
pub mod catalog;
pub mod capabilities;
pub mod error;
pub mod installation;
pub mod process;
pub mod backup;
pub mod playtime;
pub mod log;
pub mod clock;
pub mod runtime;
pub mod dto;
pub mod paths;
pub mod log_line;
pub mod commands;
