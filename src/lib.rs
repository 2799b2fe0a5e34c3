//! Authenticated, encrypted dispatch of notification events: API-key
//! admission, payload sealing with an AEAD cipher, and the per-request
//! dispatch state machine that binds them to a delivery sink.

pub mod auth;
pub mod cipher;
pub mod entropy;
pub mod error;
pub mod pipeline;
