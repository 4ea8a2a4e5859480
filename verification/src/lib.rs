//! A representation-negotiating HTTP gateway core: it re-exposes a
//! third-party e-commerce provider's GraphQL responses as a small, stable
//! JSON surface, and renders a couple of human-facing pages.
//!
//! The crate holds the gateway's decision logic: `Accept`-header
//! negotiation ([`media`]), path routing ([`route`]), transformation of
//! the provider's nested JSON into normalized records ([`transform`]),
//! rendering into response bodies ([`render`]), and the per-request reply
//! decisions with failure classification ([`gateway`]). The surrounding
//! process owns the sockets and the upstream HTTP call and hands bodies
//! in as plain text.

pub mod gateway;
pub mod json;
pub mod media;
pub mod render;
pub mod route;
pub mod text;
pub mod transform;
