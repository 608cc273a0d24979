//! The human-readable summary of what an ensign learned about a room.

use vstd::prelude::*;

use crate::kinds::DeadbandStatus;
use crate::text::{decimal, push_decimal};

verus! {

/// The name of a deadband status, as it is printed.
pub open spec fn status_name(s: DeadbandStatus) -> Seq<char> {
    match s {
        DeadbandStatus::Green => "Green"@,
        DeadbandStatus::Yellow => "Yellow"@,
        DeadbandStatus::Red => "Red"@,
        DeadbandStatus::Breached => "Breached"@,
    }
}

/// The summary of an orientation: the room, how far through the automation is
/// (in whole percent), the interaction partner (`unknown partner` when there is
/// none), the deadband status and the room gravity (as already rendered).
pub open spec fn orientation_text(
    room_id: Seq<char>,
    percent: u8,
    partner: Option<Seq<char>>,
    status: DeadbandStatus,
    gravity: Seq<char>,
) -> Seq<char> {
    "I'm in the "@ + room_id + " room. Autopilot is "@ + decimal(percent as nat) + "% through. Partner: "@
        + (match partner {
        Some(p) => p,
        None => "unknown partner"@,
    }) + ". Deadband is "@ + status_name(status) + ". Room gravity is "@ + gravity + "."@
}

/// The name of a deadband status, as it is printed.
pub fn status_name_of(s: DeadbandStatus) -> (r: &'static str)
    ensures
        r@ == status_name(s),
{
    proof {
        reveal_strlit("Green");
        reveal_strlit("Yellow");
        reveal_strlit("Red");
        reveal_strlit("Breached");
    }
    match s {
        DeadbandStatus::Green => "Green",
        DeadbandStatus::Yellow => "Yellow",
        DeadbandStatus::Red => "Red",
        DeadbandStatus::Breached => "Breached",
    }
}

/// The summary of an orientation.
pub fn orientation_summary(
    room_id: &str,
    percent: u8,
    partner: Option<&str>,
    status: DeadbandStatus,
    gravity: &str,
) -> (r: String)
    ensures
        r@ == orientation_text(
            room_id@,
            percent,
            match partner {
                Some(p) => Some(p@),
                None => None,
            },
            status,
            gravity@,
        ),
{
    let mut s = String::from_str("I'm in the ");
    s.append(room_id);
    s.append(" room. Autopilot is ");
    push_decimal(&mut s, percent as u64);
    s.append("% through. Partner: ");
    match partner {
        Some(p) => s.append(p),
        None => s.append("unknown partner"),
    }
    s.append(". Deadband is ");
    s.append(status_name_of(status));
    s.append(". Room gravity is ");
    s.append(gravity);
    s.append(".");
    proof {
        reveal_strlit("I'm in the ");
        reveal_strlit(" room. Autopilot is ");
        reveal_strlit("% through. Partner: ");
        reveal_strlit("unknown partner");
        reveal_strlit(". Deadband is ");
        reveal_strlit(". Room gravity is ");
        reveal_strlit(".");
    }
    assert(s@ =~= orientation_text(
        room_id@,
        percent,
        match partner {
            Some(p) => Some(p@),
            None => None,
        },
        status,
        gravity@,
    ));
    s
}

} // verus!
