use lau_ensign::story::{compose_narrative, render_narrative, story_line, text_le_of};

#[test]
fn room_story_new() {
    let narrative = String::new();
    assert_eq!(render_narrative(&narrative), "Story not yet composed.");
}

#[test]
fn room_story_add_and_compose() {
    let timeline = vec![(1, "started".to_string()), (5, "adjusted".to_string())];
    let narrative = compose_narrative(&timeline);
    let rendered = render_narrative(&narrative);
    assert!(rendered.contains("started"));
    assert!(rendered.contains("adjusted"));
}

#[test]
fn room_story_compose_empty() {
    let narrative = compose_narrative(&vec![]);
    assert_eq!(render_narrative(&narrative), "No events recorded.");
}

#[test]
fn room_story_compose_orders_by_tick() {
    let timeline = vec![
        (10, "late".to_string()),
        (5, "early".to_string()),
        (5, "early too".to_string()),
        (7, "middle".to_string()),
    ];
    assert_eq!(
        compose_narrative(&timeline),
        "[t=5] early; [t=5] early too; [t=7] middle; [t=10] late"
    );
}

#[test]
fn story_line_formats() {
    assert_eq!(story_line("nav", "start", "ok"), "nav: start → ok");
    assert_eq!(story_line("nav", "correct", ""), "nav: correct → ok");
    assert_eq!(story_line("nav", "verify", "nominal"), "nav: verify → nominal");
}

#[test]
fn ensign_build_story() {
    let timeline = vec![
        (1, story_line("nav", "start", "ok")),
        (2, story_line("nav", "correct", "")),
        (3, story_line("nav", "verify", "nominal")),
    ];
    assert_eq!(timeline.len(), 3);
    let narrative = compose_narrative(&timeline);
    assert!(!render_narrative(&narrative).is_empty());
    assert_eq!(
        narrative,
        "[t=1] nav: start → ok; [t=2] nav: correct → ok; [t=3] nav: verify → nominal"
    );
}

#[test]
fn room_story_same_tick_by_description() {
    let timeline = vec![(1, "b".to_string()), (1, "a".to_string()), (0, "z".to_string())];
    assert_eq!(compose_narrative(&timeline), "[t=0] z; [t=1] a; [t=1] b");
}

#[test]
fn text_order() {

    assert!(text_le_of("a", "b"));
    assert!(!text_le_of("b", "a"));
    assert!(text_le_of("ab", "abc"));
    assert!(!text_le_of("abc", "ab"));
    assert!(text_le_of("", ""));
    assert!(text_le_of("Z", "a"));
    assert!(text_le_of("same", "same"));
}
