//! Client-side building blocks for embedders that call Vine services: the
//! connection pool and its per-connection health, the shutdown flag, request
//! admission and completion, and connection readiness.

pub mod IsShuttingDown;
pub mod MarkShutdown;
pub mod NotificationFrame;
pub mod SendRequest;
pub mod Shared;
pub mod SubscriberCount;
pub mod WaitForClientConnection;
