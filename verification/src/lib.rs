//! Inter-process communication between a native application and the JavaScript
//! in its webviews: messages, responses, and how responses become JSON.

pub mod bigint;
pub mod body;
pub mod data;
pub mod decimal;
pub mod error;
pub mod json;
pub mod laws;
pub mod message;
pub mod resolver;
pub mod response;
pub mod serializer;
