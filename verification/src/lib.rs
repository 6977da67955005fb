//! Notification dispatch backend for a workflow engine.
//!
//! The crate receives one command at a time: either the configuration of a
//! named notification-target instance, or a request to render a template and
//! deliver it through a previously configured instance.  Template storage,
//! secret resolution and the outbound provider calls are collaborators behind
//! the `TemplateRegistry`, `SecretStore` and `DeliveryTransport` traits.

pub mod values;
pub mod templates;
pub mod services;
pub mod slack;
pub mod server;
