use lau_ensign::escalation::EscalationRequest;
use lau_ensign::ident::EnsignId;
use lau_ensign::kinds::{AlertLevel, DeadbandStatus, ModelType};

// --- EnsignId ---
#[test]
fn ensign_id_new_and_display() {
    let id = EnsignId::new("alpha-1");
    assert_eq!(id.as_str(), "alpha-1");
    assert_eq!(id.to_string(), "alpha-1");
}

#[test]
fn ensign_id_clone_eq_hash() {
    let a = EnsignId::new("x");
    let b = a.clone();
    assert_eq!(a, b);
    let mut set = std::collections::HashSet::new();
    set.insert(a.clone());
    assert!(set.contains(&b));
}

#[test]
fn ensign_id_from_str() {
    let id = EnsignId::new("test-id");
    assert_eq!(id.as_str(), "test-id");
}

#[test]
fn ensign_id_for_name_lowercases_and_dashes() {
    assert_eq!(EnsignId::for_name("Nav").as_str(), "ensign-nav");
    assert_eq!(EnsignId::for_name("Full Lifecycle Bot").as_str(), "ensign-full-lifecycle-bot");
    assert_eq!(EnsignId::for_name("").as_str(), "ensign-");
    assert_eq!(EnsignId::from_lowercase_name("a b  c").as_str(), "ensign-a-b--c");
}

// --- ModelType ---
#[test]
fn model_type_local() {
    assert!(ModelType::LocalTiny.is_local());
    assert!(ModelType::LocalVision.is_local());
    assert!(ModelType::LocalAudio.is_local());
    assert!(ModelType::LocalJEPA.is_local());
    assert!(!ModelType::RemoteLight.is_local());
    assert!(!ModelType::RemoteVision.is_local());
}

#[test]
fn model_type_vision() {
    assert!(ModelType::LocalVision.supports_vision());
    assert!(ModelType::RemoteVision.supports_vision());
    assert!(!ModelType::LocalTiny.supports_vision());
}

#[test]
fn model_type_audio() {
    assert!(ModelType::LocalAudio.supports_audio());
    assert!(!ModelType::LocalTiny.supports_audio());
    assert!(!ModelType::LocalVision.supports_audio());
}

#[test]
fn model_type_remote_capabilities() {
    assert!(!ModelType::RemoteLight.supports_vision());
    assert!(!ModelType::RemoteLight.supports_audio());
    assert!(!ModelType::RemoteVision.supports_audio());
    assert!(!ModelType::LocalJEPA.supports_vision());
}

// --- AlertLevel ---
#[test]
fn alert_level_yellow_or_above() {
    assert!(!AlertLevel::Green.is_yellow_or_above());
    assert!(AlertLevel::Yellow.is_yellow_or_above());
    assert!(AlertLevel::Red.is_yellow_or_above());
}

// --- DeadbandStatus ---
#[test]
fn deadband_status_classify_order() {
    assert_eq!(DeadbandStatus::classify(true, true, true), DeadbandStatus::Breached);
    assert_eq!(DeadbandStatus::classify(false, true, true), DeadbandStatus::Red);
    assert_eq!(DeadbandStatus::classify(false, false, true), DeadbandStatus::Yellow);
    assert_eq!(DeadbandStatus::classify(false, false, false), DeadbandStatus::Green);
}

// --- EscalationRequest ---
#[test]
fn escalation_request_new() {
    let e = EscalationRequest::new("e-1", "room-1", "breach");
    assert_eq!(e.ensign_id, "e-1");
    assert_eq!(e.room_id, "room-1");
    assert_eq!(e.reason, "breach");
}

#[test]
fn escalation_request_new_defaults() {
    let e = EscalationRequest::new("e-1", "room-1", "breach");
    assert_eq!(e.story_summary, "");
    assert_eq!(e.current_deadband, DeadbandStatus::Green);
}
