//! Session and request-gating core of a small Q&A service: encrypted
//! credential storage, session resolution with token refresh, the
//! authentication checkpoint and per-client rate limiting, with the rules
//! of the questions and answers around them.

pub mod text;
pub mod encoding;
pub mod crypto;
pub mod error;
pub mod session;
pub mod store;
pub mod refresh;
pub mod resolver;
pub mod login;
pub mod gate;
pub mod limiter;
pub mod calendar;
pub mod account;
pub mod http;
pub mod oai;
pub mod bot;
pub mod time;
