//! The chat client's and server's state and protocol rules.

pub mod options;
pub mod voice_options;
pub mod screen_options;
pub mod voice;
pub mod role;
pub mod schema;
pub mod codes;
pub mod network;
pub mod screen;
pub mod sfx;
pub mod aec;
pub mod voice_client;
pub mod voice_server;
pub mod server;
pub mod handshake;
pub mod channels;
pub mod selection;
pub mod animation;
pub mod sweep;
pub mod login;
pub mod compress;
pub mod upload;
pub mod share;
pub mod connection;
pub mod dispatch;
pub mod client_flow;
