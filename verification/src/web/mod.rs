//! The rules of the HTTP interface: how a caller's request becomes a
//! synthesis request, who may call, and what the answers say.

pub mod controller;
pub mod error;
pub mod entity;
pub mod vo;
pub mod middleware;
pub mod web_entrance;
