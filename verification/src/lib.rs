//! Dispatch layer for URL-safety classification.
//!
//! A caller asks for the classification of one URL or of a batch. The request
//! goes to a remote HTTP service or to a local executable, and whatever comes
//! back is normalised into a [`record::ResultRecord`]. This crate holds the
//! decisions of that layer: which request to send, how an answer is read, and
//! what a failed item of a batch turns into. Sending and spawning are left to
//! the caller, which hands the outcome back as plain values.

pub mod json;
pub mod text;
pub mod error;
pub mod record;
pub mod document;
pub mod http;
pub mod remote;
pub mod local;
pub mod auth;
pub mod health;
pub mod batch;
pub mod context;
pub mod dispatch;
