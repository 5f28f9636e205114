//! Authentication gateway core: staged signup/login flows confirmed by
//! one-time passcodes, password reset, token claims issuance and refresh,
//! and OAuth provider selection, over an in-memory ephemeral store with
//! per-key expiry and an in-memory account store.
pub mod model;
pub mod dto;
pub mod error;
pub mod outside;
pub mod store;
pub mod accounts;
pub mod text;
pub mod otp;
pub mod token;
pub mod signup;
pub mod password;
pub mod laws;
pub mod oauth;
