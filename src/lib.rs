//! A host-side client for status notifier items: resolving an item's service
//! identifier, validating the status it reports, and choosing between its
//! locally built menu and a remote context-menu call.

pub mod address;
pub mod item;
pub mod status;
