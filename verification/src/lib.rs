//! An in-memory micro-blogging service: a credential store of registered
//! users, an append-only feed of posts, and request handlers that read and
//! change the two under content-negotiated rendering.

pub mod handlers;
pub mod json;
pub mod laws;
pub mod model;
pub mod render;
pub mod store;
