//! An async adapter core for a callback-driven native HTTP/WebSocket engine.
//!
//! Handler code runs as independently scheduled tasks, while the native
//! engine owns its connections on a single loop thread. This crate holds the
//! bridge's verified core: the type-keyed data storage, the response state
//! machine and its upgrade coordinator, the per-connection registry, and the
//! message channel that turns push-style frame delivery into pull-style
//! consumption. Every operation that must touch a native handle is decided
//! here and handed out as a plain action value; the unverified runner around
//! the library executes those actions on the loop thread.

pub mod data_storage;
pub mod http_request;
pub mod http_response;
pub mod ws_behavior;
pub mod ws_channel;
pub mod ws_message;
