use lau_ensign::ensign::{Ensign, FineTunePlan, StandDownReport};
use lau_ensign::kinds::{AlertLevel, CallReason, DeadbandStatus, EnsignStatus, ModelType};
use lau_ensign::story::{compose_narrative, render_narrative, story_line};

/// The status of a reading `current` in the band `[lower, upper]` with the
/// given warning threshold, measured the way a deadband monitor measures it.
fn reading(upper: f64, lower: f64, current: f64, warning: f64) -> DeadbandStatus {
    let outside = current > upper || current < lower;
    let min_dist = (upper - current).min(current - lower);
    DeadbandStatus::classify(outside, min_dist <= warning * 0.3, min_dist <= warning)
}

/// The reading of a freshly called ensign: centred on 0 with tolerance 1.
fn default_reading() -> DeadbandStatus {
    reading(1.0, -1.0, 0.0, 0.75)
}

#[test]
fn ensign_new() {
    let e = Ensign::new("Nav", ModelType::LocalTiny);
    assert_eq!(e.name, "Nav");
    assert_eq!(e.status, EnsignStatus::Dormant);
    assert!(e.room.is_none());
}

#[test]
fn ensign_new_fresh_counters() {
    let e = Ensign::new("Nav Officer", ModelType::RemoteVision);
    assert_eq!(e.id.as_str(), "ensign-nav-officer");
    assert_eq!(e.alert_level, AlertLevel::Green);
    assert_eq!(e.fine_tunes_performed, 0);
    assert_eq!(e.actions_taken, 0);
    assert_eq!(e.escalations_count, 0);
    assert_eq!(e.ticks_on_shift, 0);
    assert!(!e.deadband_ever_left_green);
    assert!(!e.is_at_yellow());
}

#[test]
fn ensign_call() {
    let mut e = Ensign::new("Nav", ModelType::LocalTiny);
    e.call(CallReason::Preemptive("routine check".into()), "nav-room");
    assert_eq!(e.status, EnsignStatus::Waking);
    assert_eq!(e.room, Some("nav-room".to_string()));
    assert!(e.call_reason.is_some());
}

#[test]
fn ensign_call_resets_shift_only() {
    let mut e = Ensign::new("Nav", ModelType::LocalTiny);
    e.call(CallReason::Preemptive("first".into()), "a");
    e.tick(DeadbandStatus::Yellow, "");
    e.escalate("why", "", DeadbandStatus::Yellow);
    e.call(CallReason::Maintenance("second".into()), "b");
    assert_eq!(e.ticks_on_shift, 0);
    assert!(!e.deadband_ever_left_green);
    assert_eq!(e.escalations_count, 1);
    assert_eq!(e.actions_taken, 1);
    assert_eq!(e.fine_tunes_performed, 1);
    assert_eq!(e.room, Some("b".to_string()));
    assert_eq!(e.call_reason, Some(CallReason::Maintenance("second".into())));
}

#[test]
fn ensign_orient() {
    let mut e = Ensign::new("Nav", ModelType::LocalJEPA);
    e.call(CallReason::NewInteraction("user arrived".into()), "nav");
    e.orient();
    assert_eq!(e.status, EnsignStatus::YellowAlert);
    assert_eq!(e.room, Some("nav".to_string()));
}

#[test]
fn ensign_fine_tune_with_gravity() {
    let mut e = Ensign::new("Tune", ModelType::LocalTiny);
    e.call(CallReason::NewInteraction("hi".into()), "room-1");
    let gravity_signal: f64 = 0.8;
    let action = e.fine_tune(gravity_signal.abs() > 0.5, "user", 0);
    assert!(matches!(action, FineTunePlan::AdjustGravity));
}

#[test]
fn ensign_fine_tune_many_messages() {
    let mut e = Ensign::new("Tune", ModelType::LocalTiny);
    e.call(CallReason::NewInteraction("hi".into()), "room-1");
    let messages = vec!["a".to_string(); 6];
    let gravity_signal: f64 = 0.0;
    let action = e.fine_tune(gravity_signal.abs() > 0.5, "user", messages.len());
    assert!(matches!(action, FineTunePlan::PrepareResponse { .. }));
    assert_eq!(
        action,
        FineTunePlan::PrepareResponse { template: "draft response for user (6 msgs)".to_string() }
    );
}

#[test]
fn ensign_fine_tune_no_action() {
    let mut e = Ensign::new("Tune", ModelType::LocalTiny);
    e.call(CallReason::NewInteraction("hi".into()), "room-1");
    let action = e.fine_tune(false, "user", 0);
    assert!(matches!(action, FineTunePlan::NoAction));
}

#[test]
fn ensign_fine_tune_counts() {
    let mut e = Ensign::new("Tune", ModelType::LocalTiny);
    e.fine_tune(false, "user", 5);
    assert_eq!(e.fine_tunes_performed, 0);
    assert_eq!(e.actions_taken, 1);
    e.fine_tune(true, "user", 50);
    assert_eq!(e.fine_tunes_performed, 1);
    assert_eq!(e.actions_taken, 2);
    let plan = e.fine_tune(false, "captain", 12);
    assert_eq!(
        plan,
        FineTunePlan::PrepareResponse { template: "draft response for captain (12 msgs)".to_string() }
    );
    assert_eq!(e.fine_tunes_performed, 2);
    assert_eq!(e.actions_taken, 3);
}

#[test]
fn ensign_check_deadband_green_stays_yellow() {
    let mut e = Ensign::new("Nav", ModelType::LocalTiny);
    e.call(CallReason::Preemptive("check".into()), "room-1");
    // default deadband is centered at 0 with tolerance 1.0
    let status = e.check_deadband(default_reading());
    assert_eq!(status, DeadbandStatus::Green);
    // KEY: even when green, ensign stays at yellow alert
    assert_eq!(e.alert_level, AlertLevel::Yellow);
    assert!(e.is_at_yellow());
}

#[test]
fn ensign_check_deadband_red() {
    let mut e = Ensign::new("Nav", ModelType::LocalTiny);
    e.call(CallReason::Preemptive("check".into()), "room-1");
    // very close to upper bound of 1.0
    let status = e.check_deadband(reading(1.0, -1.0, 0.95, 0.75));
    assert!(matches!(status, DeadbandStatus::Red | DeadbandStatus::Yellow));
}

#[test]
fn ensign_check_deadband_readings() {
    let mut e = Ensign::new("Nav", ModelType::LocalTiny);
    e.call(CallReason::Preemptive("check".into()), "room-1");
    e.check_deadband(DeadbandStatus::Yellow);
    assert_eq!(e.alert_level, AlertLevel::Yellow);
    assert_eq!(e.status, EnsignStatus::Waking);
    assert!(e.deadband_ever_left_green);
    e.check_deadband(DeadbandStatus::Red);
    assert_eq!(e.alert_level, AlertLevel::Red);
    assert_eq!(e.status, EnsignStatus::RedAlert);
    e.check_deadband(DeadbandStatus::Green);
    assert_eq!(e.alert_level, AlertLevel::Yellow);
    assert_eq!(e.status, EnsignStatus::RedAlert);
    assert!(e.deadband_ever_left_green);
    e.check_deadband(DeadbandStatus::Breached);
    assert_eq!(e.alert_level, AlertLevel::Red);
}

#[test]
fn ensign_escalate() {
    let mut e = Ensign::new("Nav", ModelType::LocalTiny);
    e.call(CallReason::Emergency("urgent".into()), "room-1");
    let req = e.escalate("deadband breached", "", DeadbandStatus::Green);
    assert_eq!(e.status, EnsignStatus::Escalated);
    assert_eq!(req.reason, "deadband breached");
    assert_eq!(e.escalations_count, 1);
}

#[test]
fn ensign_escalate_request_fields() {
    let mut e = Ensign::new("Nav", ModelType::LocalTiny);
    let req = e.escalate("lost", "story so far", DeadbandStatus::Red);
    assert_eq!(req.ensign_id, "ensign-nav");
    assert_eq!(req.room_id, "");
    assert_eq!(req.story_summary, "story so far");
    assert_eq!(req.current_deadband, DeadbandStatus::Red);
}

#[test]
fn ensign_stand_down() {
    let mut e = Ensign::new("Nav", ModelType::LocalTiny);
    e.call(CallReason::NewInteraction("test".into()), "room-1");
    // Simulate some ticks
    for _ in 0..10 {
        e.tick(default_reading(), "");
    }
    let report = e.stand_down("");
    assert_eq!(report.ensign_id, "ensign-nav");
    assert_eq!(report.room_id, "room-1");
    assert!(report.duration_ticks > 0);
    assert_eq!(report.duration_ticks, 10);
    assert_eq!(e.status, EnsignStatus::StandingDown);
}

#[test]
fn ensign_tick() {
    let mut e = Ensign::new("Ticker", ModelType::LocalJEPA);
    e.call(CallReason::Preemptive("check".into()), "room-1");
    let result = e.tick(default_reading(), "");
    assert!(result.fine_tune.is_some());
    assert_eq!(result.alert, AlertLevel::Yellow);
    assert!(!result.story_updated);
}

#[test]
fn ensign_tick_counts() {
    let mut e = Ensign::new("Ticker", ModelType::LocalJEPA);
    e.call(CallReason::Preemptive("check".into()), "room-1");
    let result = e.tick(DeadbandStatus::Green, "");
    assert_eq!(result.deadband, DeadbandStatus::Green);
    assert_eq!(result.fine_tune, Some(FineTunePlan::AdjustGravity));
    assert!(result.escalation.is_none());
    assert_eq!(e.ticks_on_shift, 1);
    assert_eq!(e.actions_taken, 1);
    assert_eq!(e.fine_tunes_performed, 1);
}

#[test]
fn ensign_tick_story_update() {
    let mut e = Ensign::new("Ticker", ModelType::LocalJEPA);
    e.call(CallReason::Preemptive("check".into()), "room-1");
    // Tick 10 should trigger story update
    for _ in 0..9 {
        e.tick(default_reading(), "");
    }
    let result = e.tick(default_reading(), "");
    assert!(result.story_updated);
    let next = e.tick(default_reading(), "");
    assert!(!next.story_updated);
}

#[test]
fn ensign_report() {
    let mut e = Ensign::new("Reporter", ModelType::RemoteLight);
    e.call(CallReason::Maintenance("scheduled".into()), "room-1");
    assert_eq!(e.name, "Reporter");
    assert_eq!(e.status, EnsignStatus::Waking);
}

#[test]
fn ensign_is_at_yellow_after_orient() {
    let mut e = Ensign::new("Nav", ModelType::LocalTiny);
    e.call(CallReason::Preemptive("check".into()), "room-1");
    e.orient();
    assert!(e.is_at_yellow());
}

#[test]
fn ensign_stays_at_yellow_after_orient() {
    let mut e = Ensign::new("Nav", ModelType::LocalTiny);
    e.call(CallReason::Preemptive("check".into()), "room-1");
    e.orient();
    e.fine_tune(false, "user", 0);
    assert!(e.is_at_yellow());
    e.check_deadband(DeadbandStatus::Green);
    assert!(e.is_at_yellow());
    e.escalate("why", "", DeadbandStatus::Green);
    assert!(e.is_at_yellow());
    e.tick(DeadbandStatus::Green, "");
    assert!(e.is_at_yellow());
    e.stand_down("");
    assert!(e.is_at_yellow());
}

#[test]
fn full_lifecycle() {
    let mut e = Ensign::new("FullLifecycle", ModelType::LocalJEPA);

    // 1. Call
    e.call(CallReason::NewInteraction("user connected".into()), "bridge");
    assert_eq!(e.status, EnsignStatus::Waking);

    // 2. Orient
    e.orient();
    assert_eq!(e.status, EnsignStatus::YellowAlert);

    // 3. Build story
    let timeline = vec![
        (1, story_line("nav", "init", "")),
        (2, story_line("nav", "course_set", "ok")),
        (3, story_line("nav", "executing", "")),
    ];
    let narrative = compose_narrative(&timeline);
    assert!(!render_narrative(&narrative).is_empty());

    // 4. Fine-tune
    let gravity_signal: f64 = 0.6;
    let action = e.fine_tune(gravity_signal.abs() > 0.5, "captain", 1);
    assert!(matches!(action, FineTunePlan::AdjustGravity));

    // 5. Tick loop
    for _ in 0..5 {
        let result = e.tick(default_reading(), render_narrative(&narrative));
        assert!(result.alert.is_yellow_or_above());
    }

    // 6. Check deadband stays yellow even when green
    let db = e.check_deadband(default_reading());
    assert_eq!(db, DeadbandStatus::Green);
    assert!(e.is_at_yellow());

    // 7. Stand down
    let report = e.stand_down(render_narrative(&narrative));
    assert!(report.deadband_stayed_green);
}

#[test]
fn ensign_tick_breach_triggers_escalation() {
    let mut e = Ensign::new("Breach", ModelType::LocalTiny);
    e.call(CallReason::Emergency("critical".into()), "room-1");
    // Force a breach
    let result = e.tick(reading(1.0, -1.0, 2.0, 0.75), "");
    assert!(result.escalation.is_some());
    assert_eq!(e.status, EnsignStatus::Escalated);
}

#[test]
fn ensign_tick_breach_request() {
    let mut e = Ensign::new("Breach", ModelType::LocalTiny);
    e.call(CallReason::Emergency("critical".into()), "room-1");
    let result = e.tick(DeadbandStatus::Breached, "so far");
    let req = result.escalation.unwrap();
    assert_eq!(req.reason, "deadband breached");
    assert_eq!(req.ensign_id, "ensign-breach");
    assert_eq!(req.room_id, "room-1");
    assert_eq!(req.story_summary, "so far");
    assert_eq!(req.current_deadband, DeadbandStatus::Breached);
    assert_eq!(result.alert, AlertLevel::Red);
    assert_eq!(e.escalations_count, 1);
    assert!(e.deadband_ever_left_green);
}

#[test]
fn ensign_stand_down_with_escalations() {
    let mut e = Ensign::new("Esc", ModelType::LocalTiny);
    e.call(CallReason::Emergency("urgent".into()), "room-1");
    e.escalate("test", "", DeadbandStatus::Green);
    e.deadband_ever_left_green = true;
    e.status = EnsignStatus::Escalated;
    e.status = EnsignStatus::YellowAlert;
    let report = e.stand_down("");
    assert_eq!(report.escalations, 1);
    assert!(!report.deadband_stayed_green);
    assert!(!report.lessons_learned.is_empty());
}

#[test]
fn ensign_stand_down_lessons() {
    let mut e = Ensign::new("Busy", ModelType::LocalTiny);
    e.call(CallReason::Emergency("urgent".into()), "deck");
    for _ in 0..4 {
        e.tick(DeadbandStatus::Green, "");
    }
    e.tick(DeadbandStatus::Breached, "");
    e.escalate("again", "", DeadbandStatus::Red);
    let report = e.stand_down("what happened");
    assert_eq!(
        report.lessons_learned,
        vec![
            "Deadband left green during shift".to_string(),
            "2 escalation(s) required".to_string(),
            "High fine-tune rate — consider adjusting deadband tolerance".to_string(),
        ]
    );
    assert_eq!(report.story, "what happened");
    assert_eq!(report.actions_taken, 5);
    assert_eq!(report.fine_tunes, 5);
    assert_eq!(report.duration_ticks, 5);
}

#[test]
fn ensign_stand_down_quiet_shift_has_no_lessons() {
    let mut e = Ensign::new("Quiet", ModelType::LocalTiny);
    e.call(CallReason::Preemptive("check".into()), "deck");
    for _ in 0..3 {
        e.tick(DeadbandStatus::Green, "");
    }
    let report = e.stand_down("");
    assert!(report.lessons_learned.is_empty());
    assert!(report.deadband_stayed_green);
}

#[test]
fn stand_down_report_summary() {
    let r = StandDownReport {
        ensign_id: "e-1".into(),
        room_id: "room-1".into(),
        duration_ticks: 100,
        actions_taken: 10,
        fine_tunes: 5,
        escalations: 0,
        deadband_stayed_green: true,
        story: "all good".into(),
        lessons_learned: vec![],
    };
    let s = r.summary();
    assert!(s.contains("100 ticks"));
    assert!(s.contains("stayed green"));
}

#[test]
fn stand_down_report_with_lessons() {
    let r = StandDownReport {
        ensign_id: "e-1".into(),
        room_id: "room-1".into(),
        duration_ticks: 100,
        actions_taken: 20,
        fine_tunes: 15,
        escalations: 2,
        deadband_stayed_green: false,
        story: "eventful".into(),
        lessons_learned: vec!["Deadband left green".into(), "2 escalation(s) required".into()],
    };
    let s = r.summary();
    assert!(s.contains("left green"));
    assert!(s.contains("2 escalation"));
}

#[test]
fn stand_down_report_summary_exact() {
    let r = StandDownReport {
        ensign_id: "e-1".into(),
        room_id: "room-1".into(),
        duration_ticks: 100,
        actions_taken: 20,
        fine_tunes: 15,
        escalations: 2,
        deadband_stayed_green: false,
        story: "eventful".into(),
        lessons_learned: vec!["a".into(), "b".into()],
    };
    assert_eq!(
        r.summary(),
        "Ensign e-1 stood down from room-1 after 100 ticks. 20 actions (15 fine-tunes, 2 escalations). Deadband left green. Lessons: a, b"
    );
}

#[test]
fn ensign_fine_tune_no_action_at_full_fine_tune_count() {
    let mut e = Ensign::new("Full", ModelType::LocalTiny);
    e.fine_tunes_performed = u32::MAX;
    let plan = e.fine_tune(false, "user", 2);
    assert_eq!(plan, FineTunePlan::NoAction);
    assert_eq!(e.fine_tunes_performed, u32::MAX);
    assert_eq!(e.actions_taken, 1);
}

#[test]
fn ensign_green_until_watch() {
    let mut e = Ensign::new("Idle", ModelType::LocalTiny);
    e.call(CallReason::Preemptive("check".into()), "room-1");
    e.fine_tune(true, "user", 9);
    e.escalate("why", "", DeadbandStatus::Red);
    e.stand_down("");
    assert!(!e.is_at_yellow());
    assert_eq!(e.alert_level, AlertLevel::Green);
    e.check_deadband(DeadbandStatus::Green);
    assert!(e.is_at_yellow());
}
