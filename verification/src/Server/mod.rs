//! Server-side scaffolding: shared constants and the notification handler tree.

pub mod Constants;
pub mod Notification;
