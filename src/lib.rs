//! Notification fan-out core: rendering, grouping, persistence and push
//! planning, per-device rate limiting, and the in-process caches.

pub mod notification;
pub mod text;
pub mod assoc;
pub mod account_activity;
pub mod preferences;
pub mod grouping;
pub mod persister;
pub mod publisher;
pub mod fcm_tokens;
pub mod grouping_lemmas;
pub mod consumer;
pub mod pagination;
pub mod scopes;
