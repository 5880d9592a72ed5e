//! Decision logic of a new-mail notifier: reading the unread count of one
//! folder out of a "check mail" response, and the poll-compare-signal state
//! machine that turns successive counts into single signal pulses.

pub mod mail;
pub mod error;
pub mod notifier;
pub mod request;
