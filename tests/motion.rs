use egui::{Modifiers, TouchPhase};
use egui_android::input::{translate_motion, InputStatus, MotionAction, MotionOutput, ToolType, META_ALT_ON};

#[test]
fn single_touch_down_adds_a_press() {
    let (status, events) = translate_motion(MotionAction::Down, &vec![ToolType::Finger], 0);
    assert_eq!(status, InputStatus::Handled);
    assert_eq!(
        events,
        vec![
            MotionOutput::Touch { pointer: 0, phase: TouchPhase::Start },
            MotionOutput::PointerButton { pointer: 0, pressed: true },
        ]
    );
}

#[test]
fn multi_touch_down_gives_touches_only() {
    let (status, events) =
        translate_motion(MotionAction::PointerDown, &vec![ToolType::Finger, ToolType::Finger], 0);
    assert_eq!(status, InputStatus::Handled);
    assert_eq!(
        events,
        vec![
            MotionOutput::Touch { pointer: 0, phase: TouchPhase::Start },
            MotionOutput::Touch { pointer: 1, phase: TouchPhase::Start },
        ]
    );
}

#[test]
fn single_touch_up_releases_and_leaves() {
    let (_, events) = translate_motion(MotionAction::Up, &vec![ToolType::Finger], 0);
    assert_eq!(
        events,
        vec![
            MotionOutput::Touch { pointer: 0, phase: TouchPhase::End },
            MotionOutput::PointerButton { pointer: 0, pressed: false },
            MotionOutput::PointerGone,
        ]
    );
    let (_, events) = translate_motion(MotionAction::PointerUp, &vec![ToolType::Finger; 3], 0);
    assert_eq!(events.len(), 3);
    assert!(events.iter().all(|e| matches!(e, MotionOutput::Touch { phase: TouchPhase::End, .. })));
    let (_, events) = translate_motion(MotionAction::Up, &vec![], 0);
    assert_eq!(events, vec![MotionOutput::PointerGone]);
}

#[test]
fn move_and_cancel() {
    let (_, events) = translate_motion(MotionAction::Move, &vec![ToolType::Stylus], 0);
    assert_eq!(
        events,
        vec![
            MotionOutput::Touch { pointer: 0, phase: TouchPhase::Move },
            MotionOutput::PointerMoved { pointer: 0 },
        ]
    );
    let (_, events) = translate_motion(MotionAction::Cancel, &vec![ToolType::Finger, ToolType::Finger], 0);
    assert_eq!(
        events,
        vec![
            MotionOutput::Touch { pointer: 0, phase: TouchPhase::Cancel },
            MotionOutput::Touch { pointer: 1, phase: TouchPhase::Cancel },
        ]
    );
    let (status, events) = translate_motion(MotionAction::Outside, &vec![ToolType::Finger], 0);
    assert_eq!((status, events), (InputStatus::Handled, vec![MotionOutput::PointerGone]));
}

#[test]
fn hover_reports_mouse_pointers_only() {
    let tools = vec![ToolType::Finger, ToolType::Mouse, ToolType::Stylus, ToolType::Mouse];
    let (status, events) = translate_motion(MotionAction::HoverMove, &tools, 0);
    assert_eq!(status, InputStatus::Handled);
    assert_eq!(
        events,
        vec![MotionOutput::MouseMoved { pointer: 1 }, MotionOutput::MouseMoved { pointer: 3 }]
    );
}

#[test]
fn scroll_gives_a_wheel_event_per_pointer() {
    let (_, events) = translate_motion(MotionAction::Scroll, &vec![ToolType::Mouse, ToolType::Mouse], META_ALT_ON);
    let alt = Modifiers { alt: true, ..Modifiers::NONE };
    assert_eq!(
        events,
        vec![
            MotionOutput::MouseWheel { pointer: 0, modifiers: alt },
            MotionOutput::MouseWheel { pointer: 1, modifiers: alt },
        ]
    );
}

#[test]
fn other_motion_is_unhandled() {
    let (status, events) = translate_motion(MotionAction::Other, &vec![ToolType::Mouse], 0);
    assert_eq!(status, InputStatus::Unhandled);
    assert!(events.is_empty());
}
