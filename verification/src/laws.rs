//! What the gateway says and does, read field by field.
pub mod answers;
pub mod requests;
pub mod server;
pub mod views;
