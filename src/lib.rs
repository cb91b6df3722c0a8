//! Resolve a permalink to a chat message into portable markdown: channel name,
//! author name and a body whose mention tokens are rewritten to display text.
pub mod error;
pub mod mention;
pub mod message;
pub mod permalink;
pub mod request;
pub mod response;
pub mod second_pass;
pub mod text;
