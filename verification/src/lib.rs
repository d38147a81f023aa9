//! Core logic of the Egghead chat bot: the blog-generation pipeline, the
//! text-to-speech job poller, the in-memory model of the blog-post store,
//! and the string formatting those flows share.
//!
//! Network and file I/O stay outside this crate; every function here works
//! on plain values and carries a verified contract.

pub mod api;
mod chance;
pub mod chat;
pub mod encode;
pub mod feed;
pub mod fetcher;
pub mod format;
pub mod images;
pub mod jsonio;
pub mod links;
pub mod llm;
pub mod pipeline;
pub mod poller;
pub mod scheduler;
pub mod post;
pub mod store;
pub mod text;
