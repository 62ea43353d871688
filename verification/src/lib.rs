//! WHY2: a grid-based symmetric block cipher run in counter mode, with HMAC authentication and
//! incremental streams, and the protocol rules and state of the WHY2 chat built on it.

pub mod consts;
pub mod gf;
pub mod grid;
pub mod crypto;
pub mod types;
pub mod encrypter;
pub mod decrypter;
pub mod stream;
pub mod auth;
pub mod diffusion;
pub mod chat;
