//! Client library for the LibreLinkUp glucose-sharing service: session
//! establishment from a login response, and the request plans of the read
//! endpoints (URL and headers), with their contracts.

pub mod login;
pub mod account;
pub mod request;
pub mod client;
