//! What holds of an ensign across any sequence of its operations.

use vstd::prelude::*;

use crate::ensign::Watch;
use crate::kinds::{AlertLevel, DeadbandStatus, EnsignStatus};

verus! {

/// One operation on an ensign, as far as its lifecycle and counters see it.
pub enum Event {
    /// `call`.
    Call,
    /// `orient`.
    Orient,
    /// `fine_tune`, which acted or did nothing.
    FineTune(bool),
    /// `check_deadband` with the given reading.
    Check(DeadbandStatus),
    /// `escalate`.
    Escalate,
    /// `stand_down`.
    StandDown,
    /// `tick` with the given reading.
    Tick(DeadbandStatus),
}

/// The state after one operation.
pub open spec fn step(w: Watch, e: Event) -> Watch {
    match e {
        Event::Call => w.called(),
        Event::Orient => w.oriented(),
        Event::FineTune(acted) => w.fine_tuned(acted),
        Event::Check(db) => w.checked(db),
        Event::Escalate => w.escalated(),
        Event::StandDown => w.stood_down(),
        Event::Tick(db) => w.ticked(db),
    }
}

/// The state after the operations, first to last.
pub open spec fn run(w: Watch, evs: Seq<Event>) -> Watch
    decreases evs.len(),
{
    if evs.len() == 0 {
        w
    } else {
        step(run(w, evs.drop_last()), evs.last())
    }
}

/// The operation reads the deadband off green.
pub open spec fn reads_off_green(e: Event) -> bool {
    match e {
        Event::Check(db) => db != DeadbandStatus::Green,
        Event::Tick(db) => db != DeadbandStatus::Green,
        _ => false,
    }
}

/// The number of ticks among the operations.
pub open spec fn ticks_in(evs: Seq<Event>) -> nat
    decreases evs.len(),
{
    if evs.len() == 0 {
        0
    } else {
        ticks_in(evs.drop_last()) + if evs.last() is Tick {
            1nat
        } else {
            0nat
        }
    }
}

/// The number of hand-offs among the operations: escalations, and ticks that
/// read a breach.
pub open spec fn handoffs_in(evs: Seq<Event>) -> nat
    decreases evs.len(),
{
    if evs.len() == 0 {
        0
    } else {
        handoffs_in(evs.drop_last()) + match evs.last() {
            Event::Escalate => 1nat,
            Event::Tick(DeadbandStatus::Breached) => 1nat,
            _ => 0nat,
        }
    }
}

/// Checking the deadband never leaves the ensign at green: a green or yellow
/// reading puts it at yellow alert (yellow even when green would be fine), a
/// red reading or a breach at red alert.
pub proof fn lemma_check_sets_alert(w: Watch, db: DeadbandStatus)
    ensures
        w.checked(db).alert_level == (if db == DeadbandStatus::Green || db == DeadbandStatus::Yellow {
            AlertLevel::Yellow
        } else {
            AlertLevel::Red
        }),
        w.checked(db).alert_level.spec_is_yellow_or_above(),
{
}

/// Once an ensign is at yellow alert or above, no operation brings it back to
/// green.
pub proof fn lemma_watch_persists(w: Watch, evs: Seq<Event>)
    requires
        w.alert_level.spec_is_yellow_or_above(),
    ensures
        run(w, evs).alert_level.spec_is_yellow_or_above(),
    decreases evs.len(),
{
    if evs.len() > 0 {
        lemma_watch_persists(w, evs.drop_last());
    }
}

/// After orienting, an ensign is at yellow alert or above whatever it does
/// next.
pub proof fn lemma_at_yellow_after_orient(w: Watch, evs: Seq<Event>)
    ensures
        run(w.oriented(), evs).alert_level.spec_is_yellow_or_above(),
{
    lemma_watch_persists(w.oriented(), evs);
}

/// Within a shift (after a call, with no other call), the deadband has left
/// green exactly when some check or tick read it off green: a stand-down
/// reports that the deadband stayed green exactly when every reading was
/// green.
pub proof fn lemma_left_green_iff_read_off_green(w: Watch, evs: Seq<Event>)
    requires
        forall|i: int| 0 <= i < evs.len() ==> !(#[trigger] evs[i] is Call),
    ensures
        run(w.called(), evs).deadband_ever_left_green <==> exists|i: int|
            0 <= i < evs.len() && reads_off_green(#[trigger] evs[i]),
    decreases evs.len(),
{
    if evs.len() > 0 {
        let init = evs.drop_last();
        assert forall|i: int| 0 <= i < init.len() implies !(#[trigger] init[i] is Call) by {
            assert(init[i] == evs[i]);
        }
        lemma_left_green_iff_read_off_green(w, init);
        let last = evs.len() - 1;
        if run(w.called(), evs).deadband_ever_left_green {
            if !reads_off_green(evs[last]) {
                let i = choose|i: int| 0 <= i < init.len() && reads_off_green(#[trigger] init[i]);
                assert(evs[i] == init[i]);
            }
        } else {
            assert forall|i: int| 0 <= i < evs.len() implies !reads_off_green(#[trigger] evs[i]) by {
                if i < last {
                    assert(evs[i] == init[i]);
                }
            }
        }
    }
}

/// Within a shift (after a call, with no other call), the shift clock counts
/// the ticks, as long as the count fits its counter.
pub proof fn lemma_shift_clock_counts_ticks(w: Watch, evs: Seq<Event>)
    requires
        forall|i: int| 0 <= i < evs.len() ==> !(#[trigger] evs[i] is Call),
        evs.len() <= u64::MAX,
    ensures
        run(w.called(), evs).ticks_on_shift == ticks_in(evs),
    decreases evs.len(),
{
    if evs.len() > 0 {
        let init = evs.drop_last();
        assert forall|i: int| 0 <= i < init.len() implies !(#[trigger] init[i] is Call) by {
            assert(init[i] == evs[i]);
        }
        lemma_shift_clock_counts_ticks(w, init);
        lemma_ticks_in_bounded(init);
    }
}

/// There are no more ticks than operations.
pub proof fn lemma_ticks_in_bounded(evs: Seq<Event>)
    ensures
        ticks_in(evs) <= evs.len(),
    decreases evs.len(),
{
    if evs.len() > 0 {
        lemma_ticks_in_bounded(evs.drop_last());
    }
}

/// There are no more hand-offs than operations.
pub proof fn lemma_handoffs_in_bounded(evs: Seq<Event>)
    ensures
        handoffs_in(evs) <= evs.len(),
    decreases evs.len(),
{
    if evs.len() > 0 {
        lemma_handoffs_in_bounded(evs.drop_last());
    }
}

/// Every escalation and every tick that reads a breach hands off to Hermes
/// once: the escalation counter grows by exactly their number, as long as it
/// fits its counter.
pub proof fn lemma_escalations_count_handoffs(w: Watch, evs: Seq<Event>)
    requires
        w.escalations_count + evs.len() <= u32::MAX,
    ensures
        run(w, evs).escalations_count == w.escalations_count + handoffs_in(evs),
    decreases evs.len(),
{
    if evs.len() > 0 {
        lemma_escalations_count_handoffs(w, evs.drop_last());
        lemma_handoffs_in_bounded(evs.drop_last());
    }
}

/// The number of operations that count as actions: fine-tuning decisions and
/// ticks.
pub open spec fn actions_in(evs: Seq<Event>) -> nat
    decreases evs.len(),
{
    if evs.len() == 0 {
        0
    } else {
        actions_in(evs.drop_last()) + match evs.last() {
            Event::FineTune(_) => 1nat,
            Event::Tick(_) => 1nat,
            _ => 0nat,
        }
    }
}

/// The number of operations that fine-tune the room: fine-tuning decisions
/// that acted, and ticks.
pub open spec fn fine_tunes_in(evs: Seq<Event>) -> nat
    decreases evs.len(),
{
    if evs.len() == 0 {
        0
    } else {
        fine_tunes_in(evs.drop_last()) + match evs.last() {
            Event::FineTune(acted) => if acted {
                1nat
            } else {
                0nat
            },
            Event::Tick(_) => 1nat,
            _ => 0nat,
        }
    }
}

proof fn lemma_counts_bounded(evs: Seq<Event>)
    ensures
        actions_in(evs) <= evs.len(),
        fine_tunes_in(evs) <= evs.len(),
    decreases evs.len(),
{
    if evs.len() > 0 {
        lemma_counts_bounded(evs.drop_last());
    }
}

/// Every fine-tuning decision and every tick counts as one action, and every
/// tick and every fine-tuning decision that acted counts as one fine-tune, as
/// long as the counts fit their counters.
pub proof fn lemma_actions_and_fine_tunes_counted(w: Watch, evs: Seq<Event>)
    requires
        w.actions_taken + evs.len() <= u32::MAX,
        w.fine_tunes_performed + evs.len() <= u32::MAX,
    ensures
        run(w, evs).actions_taken == w.actions_taken + actions_in(evs),
        run(w, evs).fine_tunes_performed == w.fine_tunes_performed + fine_tunes_in(evs),
    decreases evs.len(),
{
    if evs.len() > 0 {
        lemma_actions_and_fine_tunes_counted(w, evs.drop_last());
        lemma_counts_bounded(evs.drop_last());
    }
}

/// The operation puts the ensign on watch: orienting, checking the deadband,
/// or a tick.
pub open spec fn starts_watch(e: Event) -> bool {
    e is Orient || e is Check || e is Tick
}

/// An ensign at green alert (as every new ensign is) stays at green exactly
/// until it orients, checks the deadband or ticks; from then on it is at
/// yellow alert or above.
pub proof fn lemma_green_until_watch(w: Watch, evs: Seq<Event>)
    requires
        w.alert_level == AlertLevel::Green,
    ensures
        (run(w, evs).alert_level == AlertLevel::Green) <==> (forall|i: int|
            0 <= i < evs.len() ==> !starts_watch(#[trigger] evs[i])),
    decreases evs.len(),
{
    if evs.len() > 0 {
        let init = evs.drop_last();
        let last = evs.len() - 1;
        lemma_green_until_watch(w, init);
        let before = run(w, init);
        if before.alert_level == AlertLevel::Green {
            assert forall|i: int| 0 <= i < last implies !starts_watch(#[trigger] evs[i]) by {
                assert(evs[i] == init[i]);
            }
        } else {
            let k = choose|k: int| 0 <= k < init.len() && starts_watch(#[trigger] init[k]);
            assert(evs[k] == init[k]);
            assert(before.alert_level.spec_is_yellow_or_above());
            assert(run(w, evs) == step(before, evs[last]));
        }
    }
}

/// Within a shift (after a call, with no other call), a tick brings the shift
/// clock to the number of ticks of the shift, this one included: the tick
/// updates the story exactly when it is the tenth, twentieth, ... tick of the
/// shift.
pub proof fn lemma_story_update_every_tenth_tick(w: Watch, evs: Seq<Event>, db: DeadbandStatus)
    requires
        forall|i: int| 0 <= i < evs.len() ==> !(#[trigger] evs[i] is Call),
        evs.len() < u64::MAX,
    ensures
        run(w.called(), evs.push(Event::Tick(db))).ticks_on_shift == ticks_in(evs) + 1,
        (run(w.called(), evs.push(Event::Tick(db))).ticks_on_shift % 10 == 0) <==> ((ticks_in(
            evs,
        ) + 1) % 10 == 0),
{
    let all = evs.push(Event::Tick(db));
    assert(all.drop_last() =~= evs);
    assert forall|i: int| 0 <= i < all.len() implies !(#[trigger] all[i] is Call) by {
        if i < evs.len() {
            assert(all[i] == evs[i]);
        }
    }
    lemma_shift_clock_counts_ticks(w, all);
}

/// The lifecycle: a call wakes the ensign, orienting puts it at yellow alert,
/// a red or breached reading puts it at red alert (a green or yellow one
/// leaves the lifecycle state as it was), an escalation or a tick that reads a
/// breach hands it off, and standing down ends the shift. A call, a check and
/// a stand-down keep the counters of actions, fine-tunes and escalations.
pub proof fn lemma_lifecycle(w: Watch, db: DeadbandStatus)
    ensures
        w.called().status == EnsignStatus::Waking,
        w.oriented().status == EnsignStatus::YellowAlert,
        (db == DeadbandStatus::Red || db == DeadbandStatus::Breached) ==> w.checked(db).status
            == EnsignStatus::RedAlert,
        (db == DeadbandStatus::Green || db == DeadbandStatus::Yellow) ==> w.checked(db).status
            == w.status,
        w.checked(db).deadband_ever_left_green == (w.deadband_ever_left_green || db
            != DeadbandStatus::Green),
        w.escalated().status == EnsignStatus::Escalated,
        w.ticked(DeadbandStatus::Breached).status == EnsignStatus::Escalated,
        w.stood_down().status == EnsignStatus::StandingDown,
        w.called().actions_taken == w.actions_taken && w.called().fine_tunes_performed
            == w.fine_tunes_performed && w.called().escalations_count == w.escalations_count,
        w.checked(db).actions_taken == w.actions_taken && w.checked(db).fine_tunes_performed
            == w.fine_tunes_performed && w.checked(db).escalations_count == w.escalations_count
            && w.checked(db).ticks_on_shift == w.ticks_on_shift,
        w.stood_down().actions_taken == w.actions_taken && w.stood_down().ticks_on_shift
            == w.ticks_on_shift && w.stood_down().alert_level == w.alert_level,
{
}

/// A new ensign is dormant, at green alert, with every counter at zero.
pub proof fn lemma_fresh_watch()
    ensures
        Watch::fresh().status == EnsignStatus::Dormant,
        Watch::fresh().alert_level == AlertLevel::Green,
        Watch::fresh().actions_taken == 0 && Watch::fresh().fine_tunes_performed == 0
            && Watch::fresh().escalations_count == 0 && Watch::fresh().ticks_on_shift == 0,
        !Watch::fresh().deadband_ever_left_green,
{
}

} // verus!
