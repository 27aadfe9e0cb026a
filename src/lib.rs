//! Generation of matched server and client bindings from one annotated
//! service definition, together with the data types shared by the picture
//! frame service and its clients.
//!
//! The generator runs in passes over one intermediate model: the
//! parameter classifier and method descriptor builder ([`descriptor`]),
//! the service expansion ([`service`]), then the server binding
//! ([`server`]) and the client binding ([`client`]), both derived from the
//! same [`model::ServiceSpec`].

pub mod client;
pub mod common;
pub mod descriptor;
pub mod inbox;
pub mod model;
pub mod server;
pub mod service;
pub mod template;
pub mod text;
