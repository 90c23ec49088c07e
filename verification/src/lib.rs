//! The rules of ClipLink, which keeps the text clipboards of two computers in step over a ZeroTier
//! network: its wire protocol, its one connection at a time, its configuration and what it shows.
//!
//! The library does no input or output of its own. It is told what happened and says what is to be
//! done; `network::model` and `network::laws` state how a connection behaves.
pub mod autostart;
pub mod clipboard;
pub mod commands;
pub mod config;
pub mod config_file;
pub mod error;
pub mod external_status;
pub mod frame;
pub mod identity;
pub mod ipv4;
pub mod json;
pub mod network;
pub mod protocol;
pub mod state;
pub mod system;
pub mod text;
pub mod tray;
pub mod window;
pub mod wire;
pub mod zerotier;
