//! Authentication core: credential hashing, signed access tokens, rotating
//! refresh tokens with reuse detection, account lockout and single-use tokens
//! for password reset and email verification.
//!
//! Every operation works on an explicitly owned [`store::SecretStore`] and
//! takes the current time as an argument. What it does to the store and what
//! it answers is a function of its inputs and of the values it draws from
//! the random source; [`session`] and [`account`] state that function for
//! each operation, and [`laws`] what follows for several operations in a
//! row. An exclusive borrow of the store makes each operation atomic.

pub mod account;
pub mod config;
pub mod encoding;
pub mod error;
pub mod guard;
pub mod handlers;
pub mod hasher;
pub mod http;
pub mod laws;
pub mod lookup;
pub mod models;
pub mod plugin;
pub mod requests;
pub mod responses;
pub mod service;
pub mod session;
pub mod store;
pub mod token;
