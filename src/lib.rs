//! ownkey: a local secret store kept in one encrypted file.
//!
//! The library holds the verified core of the store: key derivation and
//! authenticated encryption of the vault, the on-disk envelope and the
//! migration of older formats, the session cache rules, the decisions of
//! the locked atomic store and the orchestration of the vault service.
pub mod codec;
pub mod commands;
pub mod config;
pub mod crypto;
pub mod error;
pub mod keychain;
pub mod models;
pub mod service;
pub mod session;
pub mod store;
pub mod sync;
pub mod text;
pub mod vault;
