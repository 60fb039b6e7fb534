//! VaultChat's rules and data: credential checks, request validation, account
//! views, message ordering and decryption bookkeeping, the binary-string layer
//! of key encoding, password hashing, session claims, and the states of the
//! client's pages.

pub mod chat;
pub mod credentials;
pub mod keys;
pub mod models;
pub mod navigation;
pub mod password;
pub mod security;
pub mod text;
