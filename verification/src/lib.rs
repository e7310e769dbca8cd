//! A gateway between OpenAI-compatible clients and a local Codex app-server.
//!
//! Requests of the Chat Completions and Responses APIs become Codex turns, and the events of
//! a turn become an answer or a stream. Here stands everything that is decided on the way;
//! the program around it moves bytes between sockets, pipes and these functions.

pub mod api;
pub mod app_server;
pub mod auth;
pub mod chat;
pub mod codec;
pub mod config;
pub mod error;
pub mod fields;
pub mod frame;
pub mod ident;
pub mod json;
pub mod laws;
pub mod protocol;
pub mod responses;
pub mod runs;
pub mod table;
pub mod text;
pub mod translate;
pub mod turn;
