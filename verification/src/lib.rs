//! A client for a content-addressed blob store with two endpoints, an
//! aggregator that serves reads and a publisher that accepts writes, and the
//! rules of a small file manager that keeps an index of what it has stored.
//!
//! The library builds each request and interprets each reply; carrying a
//! request over the network is left to the caller, who hands the reply back.
//! In the same way the file manager decides what a message does and what
//! work it asks for, and leaves dialogs, disk and network to its surroundings.

pub mod text;
pub mod error;
pub mod web;
pub mod json;
pub mod http;
pub mod multipart;
pub mod models;
pub mod client;
pub mod blob;
pub mod quilt;
pub mod data;
pub mod file_management;
pub mod index;
pub mod app_logic;
pub mod mock_api;

pub use client::WalrusClient;
pub use error::WalrusError;
