//! Daily attendance reporting for a chat bot: classification of member
//! presence records against fixed thresholds, rendering of the reports, and
//! the trigger logic that decides when a report is posted and when it is
//! edited.
//!
//! Everything here is plain computation. The surrounding program reads the
//! clock, sends the requests and talks to the chat platform; it hands the
//! results to this crate and carries out the actions that come back.
//!
//! - [`time`], [`label`], [`text`]: dates, times of day and their textual forms.
//! - [`clock`]: reading a time from text and an instant as local time, by `chrono`.
//! - [`classify`], [`roster`]: the verdict on one record, and the lists of names.
//! - [`report`]: the two reports as text.
//! - [`scheduler`], [`trace`]: the daily triggers as a state machine, and
//!   what it does over a whole run of events.
//! - [`json`], [`payload`], [`fetch`], [`db`]: from the answers of the
//!   attendance service to the records that are classified.

pub mod classify;
pub mod clock;
pub mod db;
pub mod fetch;
pub mod json;
pub mod label;
pub mod payload;
pub mod report;
pub mod roster;
pub mod scheduler;
pub mod text;
pub mod time;
pub mod trace;
