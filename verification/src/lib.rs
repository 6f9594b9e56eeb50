//! A broker for text-to-speech synthesis: it validates synthesis requests,
//! frames them for the upstream speech services, demultiplexes the framed
//! audio that comes back by request identifier, and keeps the state of the
//! pooled upstream sessions.

pub mod broker;
pub mod buffer;
pub mod clock;
pub mod cmd;
pub mod dialer;
pub mod error;
pub mod frames;
pub mod origin;
pub mod pool;
pub mod region;
pub mod request;
pub mod session;
pub mod ssml;
pub mod subscription;
pub mod text;
pub mod upstream_http;
pub mod utils;
pub mod voices;
pub mod web;
