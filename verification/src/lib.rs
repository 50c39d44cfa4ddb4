//! The core of a local game-launcher control panel: the game catalog, the
//! single-session store, password verification, the launch protocol and the
//! request dispatch that ties them together.

pub mod catalog;
pub mod config;
pub mod cookie;
pub mod error;
pub mod game;
pub mod hexcode;
pub mod http;
pub mod json;
pub mod launcher;
pub mod password;
pub mod router;
pub mod session;
pub mod splash;
pub mod static_files;
pub mod text;
pub mod token;
pub mod web;
