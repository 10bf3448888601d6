use vstd::prelude::*;

verus! {

/// Stage of a touch on the screen.
#[derive(Clone, Copy, Debug, PartialEq, Eq, Structural)]
pub enum TouchPhase {
    Started,
    Moved,
    Ended,
    Canceled,
}

/// What a touch does to the on-screen joystick.
#[derive(Clone, Copy, Debug, PartialEq, Eq, Structural)]
pub enum JoystickUpdate {
    /// The touch is not the joystick's.
    Ignore,
    /// The touch takes the joystick; its anchor is the screen centre.
    Grab,
    /// The controlling finger moved: steer by its offset from the anchor.
    Steer,
    /// The controlling finger lifted: centre the knob, stop steering.
    Release,
}

/// The finger that controls the joystick, if any.
#[derive(Clone, Copy, Debug, PartialEq, Eq, Structural)]
pub struct FingerTracker {
    pub touch_id: Option<u64>,
}

/// The joystick's reaction to one touch event, and the finger that
/// controls it afterwards. A new touch takes the joystick only when no
/// finger holds it and the touch lands near the centre; only the
/// controlling finger steers or releases it.
pub open spec fn spec_touch(held: Option<u64>, phase: TouchPhase, id: u64, near_center: bool) -> (
    JoystickUpdate,
    Option<u64>,
) {
    match phase {
        TouchPhase::Started => if held is None && near_center {
            (JoystickUpdate::Grab, Some(id))
        } else {
            (JoystickUpdate::Ignore, held)
        },
        TouchPhase::Moved => if held == Some(id) {
            (JoystickUpdate::Steer, held)
        } else {
            (JoystickUpdate::Ignore, held)
        },
        TouchPhase::Ended | TouchPhase::Canceled => if held == Some(id) {
            (JoystickUpdate::Release, None)
        } else {
            (JoystickUpdate::Ignore, held)
        },
    }
}

impl FingerTracker {
    /// Feeds one touch event; `near_center` tells whether a starting
    /// touch lies within twice the joystick radius of the screen centre.
    pub fn on_touch(&mut self, phase: TouchPhase, id: u64, near_center: bool) -> (u: JoystickUpdate)
        ensures
            (u, final(self).touch_id) == spec_touch(old(self).touch_id, phase, id, near_center),
            u == JoystickUpdate::Grab <==> (phase == TouchPhase::Started && old(self).touch_id is None
                && near_center),
            u == JoystickUpdate::Steer <==> (phase == TouchPhase::Moved && old(self).touch_id
                == Some(id)),
            u == JoystickUpdate::Release <==> ((phase == TouchPhase::Ended || phase
                == TouchPhase::Canceled) && old(self).touch_id == Some(id)),
            u == JoystickUpdate::Grab ==> final(self).touch_id == Some(id),
            u == JoystickUpdate::Release ==> (final(self).touch_id is None),
            u == JoystickUpdate::Ignore || u == JoystickUpdate::Steer ==> final(self).touch_id
                == old(self).touch_id,
    {
        match phase {
            TouchPhase::Started => {
                if self.touch_id.is_none() && near_center {
                    self.touch_id = Some(id);
                    JoystickUpdate::Grab
                } else {
                    JoystickUpdate::Ignore
                }
            },
            TouchPhase::Moved => {
                if self.touch_id == Some(id) {
                    JoystickUpdate::Steer
                } else {
                    JoystickUpdate::Ignore
                }
            },
            TouchPhase::Ended | TouchPhase::Canceled => {
                if self.touch_id == Some(id) {
                    self.touch_id = None;
                    JoystickUpdate::Release
                } else {
                    JoystickUpdate::Ignore
                }
            },
        }
    }
}

/// One finger at a time: while a finger holds the joystick, every event
/// of another touch is ignored and leaves it held by the same finger.
pub proof fn lemma_one_finger(held: u64, phase: TouchPhase, id: u64, near_center: bool)
    requires
        id != held,
    ensures
        spec_touch(Some(held), phase, id, near_center) == (JoystickUpdate::Ignore, Some(held)),
{
}

/// The controlling finger's own lift always frees the joystick.
pub proof fn lemma_lift_releases(held: u64, near_center: bool)
    ensures
        spec_touch(Some(held), TouchPhase::Ended, held, near_center) == (JoystickUpdate::Release, None::<u64>),
        spec_touch(Some(held), TouchPhase::Canceled, held, near_center) == (JoystickUpdate::Release, None::<u64>),
{
}

/// A free joystick is taken by the first touch that starts near the
/// centre, and that finger then steers it with its moves.
pub proof fn lemma_grab_then_steer(id: u64)
    ensures
        spec_touch(None, TouchPhase::Started, id, true) == (JoystickUpdate::Grab, Some(id)),
        spec_touch(Some(id), TouchPhase::Moved, id, false) == (JoystickUpdate::Steer, Some(id)),
        spec_touch(None, TouchPhase::Started, id, false) == (JoystickUpdate::Ignore, None::<u64>),
{
}

} // verus!
