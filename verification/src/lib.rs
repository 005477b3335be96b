//! The decisions of the Groupify API server: sign-in with OAuth providers, invoice
//! history, request metrics and the set-up of trace export.
//!
//! Everything here computes on plain values. The server around it reads the
//! environment, talks to the database and to other services, and hands the answers in.
//!
//! A type with a parameter `S` stands for two: with `String` it is the value that the
//! program holds, with `Seq<char>` it is the model of that value that contracts speak of.

pub mod apple_auth;
pub mod errors;
pub mod exchange;
pub mod invoices;
pub mod json;
pub mod metrics;
pub mod oauth;
pub mod outside;
pub mod profile;
pub mod session;
pub mod sign_in;
pub mod telemetry;
pub mod text;

