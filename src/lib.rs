//! Identity and credential core: registration, passphrase authentication,
//! signed tokens, TOTP two-factor enrollment and account recovery, over a
//! transactional record store with secondary indices.

pub mod ambient;
pub mod api;
pub mod config;
pub mod error;
pub mod guard;
pub mod hasher;
pub mod keys;
pub mod laws;
pub mod model;
pub mod repository;
pub mod service;
pub mod store;
pub mod token;
pub mod totp;
