//! GPU provider node: bidding, session context, and turn handling, with the rules proved.

pub mod bidder;
pub mod bytes;
pub mod cipher;
pub mod completion;
pub mod config;
pub mod context;
pub mod encoding;
pub mod http;
pub mod identity;
pub mod inflight;
pub mod mesh;
pub mod ollama;
pub mod text;
pub mod walrus;
