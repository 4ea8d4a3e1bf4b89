//! Request routing, filter chains and typed JSON replies for the link search
//! and name services, together with the logic of their outbound client.

pub mod args;
pub mod backend;
pub mod client;
pub mod errors;
pub mod filter;
pub mod http;
pub mod messages;
pub mod path;
pub mod registry;
pub mod route;
pub mod search;
pub mod text;
