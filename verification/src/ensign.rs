//! THE ensign: a small model agent that wakes on call, orients in a room, keeps
//! the room fine-tuned at yellow alert, escalates to Hermes when the deadband
//! breaks, and stands down with a report.
//!
//! The ensign here holds its identity, its lifecycle and its counters. The
//! readings it acts on (the deadband status, whether the gravity signal is
//! strong, the story text) are handed to it by the caller that measures them.

use vstd::prelude::*;

use crate::escalation::EscalationRequest;
use crate::ident::{id_for_name, EnsignId};
use crate::kinds::{AlertLevel, CallReason, DeadbandStatus, EnsignStatus, ModelType};
use crate::text::{decimal, joined, push_decimal, push_joined};

verus! {

/// The state that an ensign's operations change: its lifecycle state, its
/// alert level and its counters.
pub struct Watch {
    pub status: EnsignStatus,
    pub alert_level: AlertLevel,
    pub fine_tunes_performed: u32,
    pub actions_taken: u32,
    pub escalations_count: u32,
    pub ticks_on_shift: u64,
    pub deadband_ever_left_green: bool,
}

impl Watch {
    /// A dormant ensign that has done nothing yet.
    pub open spec fn fresh() -> Watch {
        Watch {
            status: EnsignStatus::Dormant,
            alert_level: AlertLevel::Green,
            fine_tunes_performed: 0,
            actions_taken: 0,
            escalations_count: 0,
            ticks_on_shift: 0,
            deadband_ever_left_green: false,
        }
    }

    /// Called: waking, with a fresh shift clock and a deadband that has not
    /// left green yet. Counters of earlier shifts stay.
    pub open spec fn called(self) -> Watch {
        Watch {
            status: EnsignStatus::Waking,
            ticks_on_shift: 0,
            deadband_ever_left_green: false,
            ..self
        }
    }

    /// Oriented: at yellow alert.
    pub open spec fn oriented(self) -> Watch {
        Watch { status: EnsignStatus::YellowAlert, alert_level: AlertLevel::Yellow, ..self }
    }

    /// One fine-tuning decision: one more action, and one more fine-tune when
    /// the ensign acted.
    pub open spec fn fine_tuned(self, acted: bool) -> Watch {
        Watch {
            fine_tunes_performed: if acted {
                (self.fine_tunes_performed + 1) as u32
            } else {
                self.fine_tunes_performed
            },
            actions_taken: (self.actions_taken + 1) as u32,
            ..self
        }
    }

    /// The deadband was checked and read `db`. Green and yellow readings put
    /// the ensign at yellow alert (yellow even when green would be fine); red
    /// and breached readings put it at red alert. Any reading other than green
    /// is remembered.
    pub open spec fn checked(self, db: DeadbandStatus) -> Watch {
        let left = self.deadband_ever_left_green || db != DeadbandStatus::Green;
        match db {
            DeadbandStatus::Green | DeadbandStatus::Yellow => Watch {
                alert_level: AlertLevel::Yellow,
                deadband_ever_left_green: left,
                ..self
            },
            DeadbandStatus::Red | DeadbandStatus::Breached => Watch {
                status: EnsignStatus::RedAlert,
                alert_level: AlertLevel::Red,
                deadband_ever_left_green: left,
                ..self
            },
        }
    }

    /// Handed off to Hermes.
    pub open spec fn escalated(self) -> Watch {
        Watch {
            status: EnsignStatus::Escalated,
            escalations_count: (self.escalations_count + 1) as u32,
            ..self
        }
    }

    /// Standing down.
    pub open spec fn stood_down(self) -> Watch {
        Watch { status: EnsignStatus::StandingDown, ..self }
    }

    /// The state after the tick's clock advanced and the deadband was checked.
    pub open spec fn tick_checked(self, db: DeadbandStatus) -> Watch {
        Watch { ticks_on_shift: (self.ticks_on_shift + 1) as u64, ..self }.checked(db)
    }

    /// One monitoring tick that read `db`: the clock advances, the deadband is
    /// checked, a fine-tune is made at yellow alert or above, a breach is
    /// escalated, and the tick counts as one action.
    pub open spec fn ticked(self, db: DeadbandStatus) -> Watch {
        let c = self.tick_checked(db);
        let tuned = if c.alert_level.spec_is_yellow_or_above() {
            Watch { fine_tunes_performed: (c.fine_tunes_performed + 1) as u32, ..c }
        } else {
            c
        };
        let handled = if db == DeadbandStatus::Breached {
            tuned.escalated()
        } else {
            tuned
        };
        Watch { actions_taken: (handled.actions_taken + 1) as u32, ..handled }
    }

    /// The counters can take one more tick that reads `db`.
    pub open spec fn can_tick(self, db: DeadbandStatus) -> bool {
        &&& self.ticks_on_shift < u64::MAX
        &&& self.fine_tunes_performed < u32::MAX
        &&& self.actions_taken < u32::MAX
        &&& db == DeadbandStatus::Breached ==> self.escalations_count < u32::MAX
    }
}

/// What an ensign does to fine-tune the room.
#[derive(Debug, Clone, PartialEq)]
pub enum FineTunePlan {
    /// Nudge the room gravity against the signal.
    AdjustGravity,
    /// Draft a response template.
    PrepareResponse { template: String },
    /// Watching, everything fine.
    NoAction,
}

/// The response template drafted for a partner after `count` messages.
pub open spec fn response_template(partner: Seq<char>, count: nat) -> Seq<char> {
    "draft response for "@ + partner + " ("@ + decimal(count) + " msgs)"@
}

/// The fine-tuning decision for an interaction: adjust the gravity when its
/// signal is strong, else prepare a response once more than five messages came,
/// else do nothing.
pub open spec fn plan_for(strong_gravity: bool, partner: Seq<char>, count: nat, plan: FineTunePlan) -> bool {
    if strong_gravity {
        plan is AdjustGravity
    } else if count > 5 {
        plan matches FineTunePlan::PrepareResponse { template } && template@ == response_template(partner, count)
    } else {
        plan is NoAction
    }
}

/// The room's name as text: empty when the ensign has no room.
pub open spec fn room_text(room: Option<String>) -> Seq<char> {
    match room {
        Some(r) => r@,
        None => Seq::empty(),
    }
}

/// The lessons of a shift: that the deadband left green, how many escalations
/// were required, and that fine-tuning ran high (more than three fine-tunes).
pub open spec fn lessons_of(w: Watch) -> Seq<Seq<char>> {
    (if w.deadband_ever_left_green {
        seq!["Deadband left green during shift"@]
    } else {
        Seq::empty()
    }) + (if w.escalations_count > 0 {
        seq![decimal(w.escalations_count as nat) + " escalation(s) required"@]
    } else {
        Seq::empty()
    }) + (if w.fine_tunes_performed > 3 {
        seq!["High fine-tune rate — consider adjusting deadband tolerance"@]
    } else {
        Seq::empty()
    })
}

/// Report of what happened during the ensign's shift.
#[derive(Debug, Clone, PartialEq)]
pub struct StandDownReport {
    pub ensign_id: String,
    pub room_id: String,
    pub duration_ticks: u64,
    pub actions_taken: u32,
    pub fine_tunes: u32,
    pub escalations: u32,
    pub deadband_stayed_green: bool,
    pub story: String,
    pub lessons_learned: Vec<String>,
}

/// The human-readable summary of a stand-down report.
pub open spec fn summary_text(r: StandDownReport) -> Seq<char> {
    "Ensign "@ + r.ensign_id@ + " stood down from "@ + r.room_id@ + " after "@ + decimal(
        r.duration_ticks as nat,
    ) + " ticks. "@ + decimal(r.actions_taken as nat) + " actions ("@ + decimal(
        r.fine_tunes as nat,
    ) + " fine-tunes, "@ + decimal(r.escalations as nat) + " escalations). Deadband "@ + (if r.deadband_stayed_green {
        "stayed green"@
    } else {
        "left green"@
    }) + ". Lessons: "@ + joined(r.lessons_learned@.map_values(|s: String| s@), ", "@)
}

impl StandDownReport {
    /// The human-readable summary of the report.
    pub fn summary(&self) -> (r: String)
        ensures
            r@ == summary_text(*self),
    {
        let mut s = String::from_str("Ensign ");
        s.append(self.ensign_id.as_str());
        s.append(" stood down from ");
        s.append(self.room_id.as_str());
        s.append(" after ");
        push_decimal(&mut s, self.duration_ticks);
        s.append(" ticks. ");
        push_decimal(&mut s, self.actions_taken as u64);
        s.append(" actions (");
        push_decimal(&mut s, self.fine_tunes as u64);
        s.append(" fine-tunes, ");
        push_decimal(&mut s, self.escalations as u64);
        s.append(" escalations). Deadband ");
        if self.deadband_stayed_green {
            s.append("stayed green");
        } else {
            s.append("left green");
        }
        s.append(". Lessons: ");
        push_joined(&mut s, &self.lessons_learned, ", ");
        proof {
            reveal_strlit("Ensign ");
            reveal_strlit(" stood down from ");
            reveal_strlit(" after ");
            reveal_strlit(" ticks. ");
            reveal_strlit(" actions (");
            reveal_strlit(" fine-tunes, ");
            reveal_strlit(" escalations). Deadband ");
            reveal_strlit("stayed green");
            reveal_strlit("left green");
            reveal_strlit(". Lessons: ");
            reveal_strlit(", ");
        }
        assert(s@ =~= summary_text(*self));
        s
    }
}

/// What happened in one tick of monitoring.
#[derive(Debug, Clone, PartialEq)]
pub struct EnsignTickResult {
    pub fine_tune: Option<FineTunePlan>,
    pub deadband: DeadbandStatus,
    pub alert: AlertLevel,
    pub escalation: Option<EscalationRequest>,
    pub story_updated: bool,
}

/// THE ensign: a small model agent that wakes on call, orients in a room, and
/// keeps the room fine-tuned at yellow alert.
#[derive(Debug, Clone)]
pub struct Ensign {
    pub id: EnsignId,
    pub name: String,
    pub model_type: ModelType,
    pub room: Option<String>,
    pub status: EnsignStatus,
    pub call_reason: Option<CallReason>,
    pub alert_level: AlertLevel,
    pub fine_tunes_performed: u32,
    pub actions_taken: u32,
    pub escalations_count: u32,
    pub ticks_on_shift: u64,
    pub deadband_ever_left_green: bool,
}

impl Ensign {
    /// The lifecycle state and counters of the ensign.
    pub open spec fn watch(self) -> Watch {
        Watch {
            status: self.status,
            alert_level: self.alert_level,
            fine_tunes_performed: self.fine_tunes_performed,
            actions_taken: self.actions_taken,
            escalations_count: self.escalations_count,
            ticks_on_shift: self.ticks_on_shift,
            deadband_ever_left_green: self.deadband_ever_left_green,
        }
    }

    /// The identity and assignment of `self` are those of `other`.
    pub open spec fn same_post(self, other: Ensign) -> bool {
        &&& self.id == other.id
        &&& self.name == other.name
        &&& self.model_type == other.model_type
        &&& self.room == other.room
        &&& self.call_reason == other.call_reason
    }

    /// A dormant ensign with the given name and model type.
    pub fn new(name: &str, model_type: ModelType) -> (r: Self)
        ensures
            r.id@ == id_for_name(name@),
            r.name@ == name@,
            r.model_type == model_type,
            r.room is None,
            r.call_reason is None,
            r.watch() == Watch::fresh(),
    {
        Ensign {
            id: EnsignId::for_name(name),
            name: name.to_owned(),
            model_type,
            room: None,
            status: EnsignStatus::Dormant,
            call_reason: None,
            alert_level: AlertLevel::Green,
            fine_tunes_performed: 0,
            actions_taken: 0,
            escalations_count: 0,
            ticks_on_shift: 0,
            deadband_ever_left_green: false,
        }
    }

    /// Wakes the ensign for a room, for the given reason.
    pub fn call(&mut self, reason: CallReason, room: &str)
        ensures
            final(self).watch() == old(self).watch().called(),
            final(self).call_reason == Some(reason),
            final(self).room matches Some(r) && r@ == room@,
            final(self).id == old(self).id,
            final(self).name == old(self).name,
            final(self).model_type == old(self).model_type,
    {
        self.status = EnsignStatus::Waking;
        self.call_reason = Some(reason);
        self.room = Some(room.to_owned());
        self.ticks_on_shift = 0;
        self.deadband_ever_left_green = false;
    }

    /// The ensign has read the room: it is at yellow alert.
    pub fn orient(&mut self)
        ensures
            final(self).watch() == old(self).watch().oriented(),
            final(self).same_post(*old(self)),
    {
        self.status = EnsignStatus::YellowAlert;
        self.alert_level = AlertLevel::Yellow;
    }

    /// Decides how to fine-tune the room for an interaction with `partner`
    /// that holds `message_count` messages and whose gravity signal is strong
    /// or not.
    pub fn fine_tune(&mut self, strong_gravity: bool, partner: &str, message_count: usize) -> (r:
        FineTunePlan)
        requires
            old(self).actions_taken < u32::MAX,
            strong_gravity || message_count > 5 ==> old(self).fine_tunes_performed < u32::MAX,
        ensures
            plan_for(strong_gravity, partner@, message_count as nat, r),
            final(self).watch() == old(self).watch().fine_tuned(!(r is NoAction)),
            final(self).same_post(*old(self)),
    {
        let plan = if strong_gravity {
            FineTunePlan::AdjustGravity
        } else if message_count > 5 {
            let mut t = String::from_str("draft response for ");
            t.append(partner);
            t.append(" (");
            push_decimal(&mut t, message_count as u64);
            t.append(" msgs)");
            proof {
                reveal_strlit("draft response for ");
                reveal_strlit(" (");
                reveal_strlit(" msgs)");
            }
            assert(t@ =~= response_template(partner@, message_count as nat));
            FineTunePlan::PrepareResponse { template: t }
        } else {
            FineTunePlan::NoAction
        };
        let acted: bool = match plan {
            FineTunePlan::NoAction => false,
            _ => true,
        };
        if acted {
            self.fine_tunes_performed = self.fine_tunes_performed + 1;
        }
        self.actions_taken = self.actions_taken + 1;
        plan
    }

    /// Takes the deadband reading `status` into account and returns it.
    pub fn check_deadband(&mut self, status: DeadbandStatus) -> (r: DeadbandStatus)
        ensures
            r == status,
            final(self).watch() == old(self).watch().checked(status),
            final(self).same_post(*old(self)),
    {
        if status != DeadbandStatus::Green {
            self.deadband_ever_left_green = true;
        }
        match status {
            DeadbandStatus::Green => {
                // Stay at yellow even when green would be fine.
                self.alert_level = AlertLevel::Yellow;
            },
            DeadbandStatus::Yellow => {
                self.alert_level = AlertLevel::Yellow;
            },
            DeadbandStatus::Red => {
                self.alert_level = AlertLevel::Red;
                self.status = EnsignStatus::RedAlert;
            },
            DeadbandStatus::Breached => {
                self.alert_level = AlertLevel::Red;
                self.status = EnsignStatus::RedAlert;
            },
        }
        status
    }

    /// The ensign's room as text, empty when it has none.
    fn room_string(&self) -> (r: String)
        ensures
            r@ == room_text(self.room),
    {
        match &self.room {
            Some(r) => r.clone(),
            None => String::new(),
        }
    }

    /// Hands the room off to Hermes, with the story told so far and the
    /// deadband's current reading.
    pub fn escalate(&mut self, reason: &str, story_summary: &str, current_deadband: DeadbandStatus) -> (r:
        EscalationRequest)
        requires
            old(self).escalations_count < u32::MAX,
        ensures
            final(self).watch() == old(self).watch().escalated(),
            final(self).same_post(*old(self)),
            r.ensign_id@ == old(self).id@,
            r.room_id@ == room_text(old(self).room),
            r.reason@ == reason@,
            r.story_summary@ == story_summary@,
            r.current_deadband == current_deadband,
    {
        self.status = EnsignStatus::Escalated;
        self.escalations_count = self.escalations_count + 1;
        EscalationRequest {
            ensign_id: self.id.to_string(),
            room_id: self.room_string(),
            reason: reason.to_owned(),
            story_summary: story_summary.to_owned(),
            current_deadband,
        }
    }

    /// Ends the shift and reports on it, with the story told so far.
    pub fn stand_down(&mut self, story: &str) -> (r: StandDownReport)
        ensures
            final(self).watch() == old(self).watch().stood_down(),
            final(self).same_post(*old(self)),
            r.ensign_id@ == old(self).id@,
            r.room_id@ == room_text(old(self).room),
            r.duration_ticks == old(self).ticks_on_shift,
            r.actions_taken == old(self).actions_taken,
            r.fine_tunes == old(self).fine_tunes_performed,
            r.escalations == old(self).escalations_count,
            r.deadband_stayed_green == !old(self).deadband_ever_left_green,
            r.story@ == story@,
            r.lessons_learned@.map_values(|s: String| s@) == lessons_of(old(self).watch()),
    {
        self.status = EnsignStatus::StandingDown;
        let mut lessons: Vec<String> = Vec::new();
        proof {
            reveal_strlit("Deadband left green during shift");
            reveal_strlit(" escalation(s) required");
            reveal_strlit("High fine-tune rate — consider adjusting deadband tolerance");
        }
        if self.deadband_ever_left_green {
            lessons.push(String::from_str("Deadband left green during shift"));
        }
        if self.escalations_count > 0 {
            let mut l = String::new();
            push_decimal(&mut l, self.escalations_count as u64);
            l.append(" escalation(s) required");
            lessons.push(l);
        }
        if self.fine_tunes_performed > 3 {
            lessons.push(
                String::from_str("High fine-tune rate — consider adjusting deadband tolerance"),
            );
        }
        assert(lessons@.map_values(|s: String| s@) =~= lessons_of(old(self).watch()));
        StandDownReport {
            ensign_id: self.id.to_string(),
            room_id: self.room_string(),
            duration_ticks: self.ticks_on_shift,
            actions_taken: self.actions_taken,
            fine_tunes: self.fine_tunes_performed,
            escalations: self.escalations_count,
            deadband_stayed_green: !self.deadband_ever_left_green,
            story: story.to_owned(),
            lessons_learned: lessons,
        }
    }

    /// One tick of yellow-alert monitoring, in which the deadband read
    /// `deadband`; `story_summary` is the story told so far, for a hand-off.
    pub fn tick(&mut self, deadband: DeadbandStatus, story_summary: &str) -> (r: EnsignTickResult)
        requires
            old(self).watch().can_tick(deadband),
        ensures
            final(self).watch() == old(self).watch().ticked(deadband),
            final(self).same_post(*old(self)),
            r.deadband == deadband,
            r.alert == old(self).watch().tick_checked(deadband).alert_level,
            r.alert.spec_is_yellow_or_above(),
            r.fine_tune == Some(FineTunePlan::AdjustGravity),
            r.story_updated == (final(self).ticks_on_shift % 10 == 0),
            deadband != DeadbandStatus::Breached ==> r.escalation is None,
            deadband == DeadbandStatus::Breached ==> (r.escalation matches Some(req) && {
                &&& req.ensign_id@ == old(self).id@
                &&& req.room_id@ == room_text(old(self).room)
                &&& req.reason@ == "deadband breached"@
                &&& req.story_summary@ == story_summary@
                &&& req.current_deadband == DeadbandStatus::Breached
            }),
    {
        self.ticks_on_shift = self.ticks_on_shift + 1;
        let db = self.check_deadband(deadband);
        let alert = self.alert_level;
        let fine_tune = if alert.is_yellow_or_above() {
            self.fine_tunes_performed = self.fine_tunes_performed + 1;
            Some(FineTunePlan::AdjustGravity)
        } else {
            None
        };
        let escalation = if db == DeadbandStatus::Breached {
            proof {
                reveal_strlit("deadband breached");
            }
            Some(self.escalate("deadband breached", story_summary, db))
        } else {
            None
        };
        let story_updated = self.ticks_on_shift % 10 == 0;
        self.actions_taken = self.actions_taken + 1;
        EnsignTickResult { fine_tune, deadband: db, alert, escalation, story_updated }
    }

    /// Is this ensign at yellow alert or above?
    pub fn is_at_yellow(&self) -> (r: bool)
        ensures
            r == self.alert_level.spec_is_yellow_or_above(),
    {
        self.alert_level.is_yellow_or_above()
    }
}

/// A strong gravity signal always adjusts the gravity, whatever the message
/// count; a weak one prepares a response after more than five messages and
/// does nothing otherwise.
pub proof fn lemma_fine_tune_decision(strong_gravity: bool, partner: Seq<char>, count: nat, plan: FineTunePlan)
    requires
        plan_for(strong_gravity, partner, count, plan),
    ensures
        strong_gravity ==> plan is AdjustGravity,
        !strong_gravity && count > 5 ==> plan is PrepareResponse,
        !strong_gravity && count <= 5 ==> plan is NoAction,
        plan is AdjustGravity ==> strong_gravity,
        plan is PrepareResponse ==> count > 5,
{
}

proof fn lemma_decimal_starts_with_digit(n: nat)
    ensures
        decimal(n).len() >= 1,
        decimal(n)[0] != 'H',
        decimal(n)[0] != 'D',
    decreases n,
{
    if n >= 10 {
        lemma_decimal_starts_with_digit(n / 10);
    }
}

/// The lessons of a shift: the high fine-tune-rate lesson is there exactly when
/// more than three fine-tunes were performed, whether or not the deadband left
/// green or escalations happened; the left-green lesson exactly when the
/// deadband left green; and one lesson for each of these, at most three.
pub proof fn lemma_lessons_rules(w: Watch)
    ensures
        lessons_of(w).contains("High fine-tune rate — consider adjusting deadband tolerance"@)
            <==> w.fine_tunes_performed > 3,
        lessons_of(w).contains("Deadband left green during shift"@) <==> w.deadband_ever_left_green,
        lessons_of(w).len() == (if w.deadband_ever_left_green {
            1int
        } else {
            0int
        }) + (if w.escalations_count > 0 {
            1int
        } else {
            0int
        }) + (if w.fine_tunes_performed > 3 {
            1int
        } else {
            0int
        }),
        w.escalations_count > 0 ==> lessons_of(w).contains(
            decimal(w.escalations_count as nat) + " escalation(s) required"@,
        ),
{
    reveal_strlit("High fine-tune rate — consider adjusting deadband tolerance");
    reveal_strlit("Deadband left green during shift");
    let high = "High fine-tune rate — consider adjusting deadband tolerance"@;
    let left = "Deadband left green during shift"@;
    let esc = decimal(w.escalations_count as nat) + " escalation(s) required"@;
    lemma_decimal_starts_with_digit(w.escalations_count as nat);
    assert(esc[0] != 'H' && esc[0] != 'D');
    assert(high != left) by {
        assert(high[0] != left[0]);
    }
    assert(esc != high) by {
        assert(esc[0] != high[0]);
    }
    assert(esc != left) by {
        assert(esc[0] != left[0]);
    }
    let l = lessons_of(w);
    if w.fine_tunes_performed > 3 {
        assert(l[l.len() - 1] == high);
    }
    if w.deadband_ever_left_green {
        assert(l[0] == left);
    }
    if w.escalations_count > 0 {
        let k: int = if w.deadband_ever_left_green {
            1
        } else {
            0
        };
        assert(l[k] == esc);
    }
    assert(forall|i: int| 0 <= i < l.len() ==> l[i] == high || l[i] == left || l[i] == esc);
}

} // verus!
