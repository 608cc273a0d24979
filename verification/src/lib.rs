//! The ensign system: small agents that wake up on call, orient themselves in a
//! room, keep a story of what the automation did, and keep the room fine-tuned
//! at yellow alert even when the deadband says green would be fine.
//!
//! - `kinds`, `ident`: the vocabulary (model kinds, lifecycle states, alert
//!   levels, call reasons, deadband statuses) and ensign identifiers.
//! - `ensign`: the ensign's lifecycle and counters, driven by the readings it
//!   is handed; `laws`: what holds across any sequence of its operations.
//! - `deadband`: windows, reversal counting and trend classification.
//! - `story`, `orientation`: the room story's narrative and the orientation
//!   summary; `escalation`: hand-off requests; `text`: rendering helpers.

pub mod deadband;
pub mod ensign;
pub mod escalation;
pub mod ident;
pub mod kinds;
pub mod laws;
pub mod orientation;
pub mod story;
pub mod text;
