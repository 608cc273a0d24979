//! Requests for Hermes to take over a room.

use vstd::prelude::*;

use crate::kinds::DeadbandStatus;

verus! {

/// Request for Hermes to take over.
#[derive(Debug, Clone, PartialEq)]
pub struct EscalationRequest {
    pub ensign_id: String,
    pub room_id: String,
    pub reason: String,
    pub story_summary: String,
    pub current_deadband: DeadbandStatus,
}

impl EscalationRequest {
    /// A request with no story yet, filed while the deadband reads green.
    pub fn new(ensign: &str, room: &str, reason: &str) -> (r: Self)
        ensures
            r.ensign_id@ == ensign@,
            r.room_id@ == room@,
            r.reason@ == reason@,
            r.story_summary@ == Seq::<char>::empty(),
            r.current_deadband == DeadbandStatus::Green,
    {
        EscalationRequest {
            ensign_id: ensign.to_owned(),
            room_id: room.to_owned(),
            reason: reason.to_owned(),
            story_summary: String::new(),
            current_deadband: DeadbandStatus::Green,
        }
    }
}

} // verus!
