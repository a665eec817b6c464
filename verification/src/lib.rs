//! Projection of federated-messaging protocol events into timeline items and
//! classified push-notification descriptors.
//!
//! The crate has two independent paths that share content-description rules:
//! the timeline path turns a raw protocol event (or a live timeline record)
//! into a renderable feed item, and the notification path classifies an event
//! into a push style with a title, a body and a deep-link target URL.

pub mod content;
pub mod events;
pub mod group;
pub mod live;
pub mod message;
pub mod news;
pub mod notify;
pub mod objects;
pub mod project;
pub mod receipt;
pub mod stream;
pub mod text;
pub mod timeline;
