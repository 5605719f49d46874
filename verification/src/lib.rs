//! Verified core of the Rylus tablet-input and screen-streaming server.

pub mod assoc;
pub mod bench;
pub mod capture;
pub mod compress;
pub mod config;
pub mod encode;
pub mod enigo;
pub mod error;
pub mod gui;
pub mod input;
pub mod keymap;
pub mod logging;
pub mod mdns;
pub mod pixel;
pub mod protocol;
pub mod server;
pub mod session;
pub mod text;
pub mod tls;
pub mod web;
pub mod wininput;

