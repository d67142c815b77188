//! Core of a chat client: credential storage, the authenticated request
//! protocol with its one-shot token refresh, and the login, register and
//! logout flows that tie them to persistent storage and a shared
//! authentication flag.
//!
//! The client decides; whoever runs it performs the HTTP calls. An
//! [`client::Exchange`] names the request to send next, and each reply is
//! handed back through [`client::ApiClient::advance`] until the call is done.
pub mod apps;
pub mod auth;
pub mod client;
pub mod config;
pub mod endpoint;
pub mod list;
pub mod schemas;
pub mod session;
pub mod storage;
