//! Terminal client core for a paginated content listing: a markup extractor
//! that turns a fetched page into structured records, a cursor/viewport
//! navigation state machine, a pagination controller with optimistic
//! apply/rollback, and a notification queue with tick-driven expiry.

pub mod app;
pub mod extract;
pub mod nav;
pub mod notify;
pub mod scrape;
pub mod story;
pub mod text;
