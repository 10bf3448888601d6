use yulaven::joystick::{FingerTracker, JoystickUpdate, TouchPhase};

#[test]
fn one_finger_controls_joystick() {
    let mut f = FingerTracker { touch_id: None };
    assert_eq!(f.on_touch(TouchPhase::Started, 7, false), JoystickUpdate::Ignore);
    assert_eq!(f.touch_id, None);
    assert_eq!(f.on_touch(TouchPhase::Started, 7, true), JoystickUpdate::Grab);
    assert_eq!(f.touch_id, Some(7));
    assert_eq!(f.on_touch(TouchPhase::Started, 8, true), JoystickUpdate::Ignore);
    assert_eq!(f.on_touch(TouchPhase::Moved, 8, true), JoystickUpdate::Ignore);
    assert_eq!(f.on_touch(TouchPhase::Ended, 8, true), JoystickUpdate::Ignore);
    assert_eq!(f.touch_id, Some(7));
    assert_eq!(f.on_touch(TouchPhase::Moved, 7, false), JoystickUpdate::Steer);
    assert_eq!(f.on_touch(TouchPhase::Canceled, 7, false), JoystickUpdate::Release);
    assert_eq!(f.touch_id, None);
    assert_eq!(f.on_touch(TouchPhase::Moved, 7, true), JoystickUpdate::Ignore);
}
