use cheat_core::cheat::Cheat;
use cheat_core::InputType;

#[test]
fn cheat_starts_with_zero_frame_time() {
    let c = Cheat::default();
    assert_eq!(c.last_frame_time, 0);
}

#[test]
fn cheat_records_frame_time() {
    let mut c = Cheat::default();
    c.record_frame_time(16_667);
    assert_eq!(c.last_frame_time, 16_667);
    c.record_frame_time(0);
    assert_eq!(c.last_frame_time, 0);
}

#[test]
fn input_type_distinguishes_press_and_release() {
    assert!(InputType::KeyDown == InputType::KeyDown);
    assert!(InputType::KeyUp == InputType::KeyUp);
    assert!(InputType::KeyDown != InputType::KeyUp);
    let copied: InputType = InputType::KeyDown;
    assert!(copied == InputType::KeyDown);
}
