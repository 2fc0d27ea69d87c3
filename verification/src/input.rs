//! The keys that steer the camera and the lights.

use vstd::prelude::*;

verus! {

pub const VK_SPACE: u16 = 32;

pub const VK_LEFT: u16 = 37;

pub const VK_UP: u16 = 38;

pub const VK_RIGHT: u16 = 39;

pub const VK_DOWN: u16 = 40;

/// One turn of the camera about the point it looks at. The angle of a
/// turn grows with the time since the last frame.
#[derive(Clone, Copy, Debug, PartialEq, Eq, Structural)]
pub enum CameraStep {
    /// About the up axis, by the negative angle.
    YawLeft,
    /// About the up axis, by the positive angle.
    YawRight,
    /// About the axis to the right of the camera, by the positive angle.
    PitchUp,
    /// About the axis to the right of the camera, by the negative angle.
    PitchDown,
}

/// Which arrow keys are held down, and whether the lights move.
#[derive(Clone, Copy, Debug, PartialEq, Eq, Structural)]
pub struct InputState {
    pub right_arrow_pressed: bool,
    pub left_arrow_pressed: bool,
    pub up_arrow_pressed: bool,
    pub down_arrow_pressed: bool,
    pub animate: bool,
}

impl InputState {
    /// The state after the key with virtual key code `key` goes down: an
    /// arrow key is held from then on. Other keys change nothing.
    pub open spec fn after_key_down(self, key: u16) -> InputState {
        if key == VK_LEFT {
            InputState { left_arrow_pressed: true, ..self }
        } else if key == VK_RIGHT {
            InputState { right_arrow_pressed: true, ..self }
        } else if key == VK_UP {
            InputState { up_arrow_pressed: true, ..self }
        } else if key == VK_DOWN {
            InputState { down_arrow_pressed: true, ..self }
        } else {
            self
        }
    }

    /// The state after the key with virtual key code `key` comes up: an
    /// arrow key is held no longer, and the space bar starts or stops the
    /// lights. Other keys change nothing.
    pub open spec fn after_key_up(self, key: u16) -> InputState {
        if key == VK_LEFT {
            InputState { left_arrow_pressed: false, ..self }
        } else if key == VK_RIGHT {
            InputState { right_arrow_pressed: false, ..self }
        } else if key == VK_UP {
            InputState { up_arrow_pressed: false, ..self }
        } else if key == VK_DOWN {
            InputState { down_arrow_pressed: false, ..self }
        } else if key == VK_SPACE {
            InputState { animate: !self.animate, ..self }
        } else {
            self
        }
    }

    /// The turns that the camera makes in one frame, in order: one for
    /// each arrow key that is held, left before right before up before
    /// down.
    pub open spec fn spec_camera_steps(self) -> Seq<CameraStep> {
        (if self.left_arrow_pressed {
            seq![CameraStep::YawLeft]
        } else {
            Seq::empty()
        }) + (if self.right_arrow_pressed {
            seq![CameraStep::YawRight]
        } else {
            Seq::empty()
        }) + (if self.up_arrow_pressed {
            seq![CameraStep::PitchUp]
        } else {
            Seq::empty()
        }) + (if self.down_arrow_pressed {
            seq![CameraStep::PitchDown]
        } else {
            Seq::empty()
        })
    }

    pub fn camera_steps(&self) -> (steps: Vec<CameraStep>)
        ensures
            steps@ == self.spec_camera_steps(),
    {
        let mut steps: Vec<CameraStep> = Vec::new();
        if self.left_arrow_pressed {
            steps.push(CameraStep::YawLeft);
        }
        if self.right_arrow_pressed {
            steps.push(CameraStep::YawRight);
        }
        if self.up_arrow_pressed {
            steps.push(CameraStep::PitchUp);
        }
        if self.down_arrow_pressed {
            steps.push(CameraStep::PitchDown);
        }
        assert(steps@ =~= self.spec_camera_steps());
        steps
    }

    pub fn on_key_up(&mut self, key: u16)
        ensures
            *final(self) == old(self).after_key_up(key),
    {
        if key == VK_LEFT {
            self.left_arrow_pressed = false;
        } else if key == VK_RIGHT {
            self.right_arrow_pressed = false;
        } else if key == VK_UP {
            self.up_arrow_pressed = false;
        } else if key == VK_DOWN {
            self.down_arrow_pressed = false;
        } else if key == VK_SPACE {
            self.animate = !self.animate;
        }
    }

    pub fn on_key_down(&mut self, key: u16)
        ensures
            *final(self) == old(self).after_key_down(key),
    {
        if key == VK_LEFT {
            self.left_arrow_pressed = true;
        } else if key == VK_RIGHT {
            self.right_arrow_pressed = true;
        } else if key == VK_UP {
            self.up_arrow_pressed = true;
        } else if key == VK_DOWN {
            self.down_arrow_pressed = true;
        }
    }
}

impl Default for InputState {
    /// No key held, the lights at rest.
    fn default() -> (state: Self)
        ensures
            state == (InputState {
                right_arrow_pressed: false,
                left_arrow_pressed: false,
                up_arrow_pressed: false,
                down_arrow_pressed: false,
                animate: false,
            }),
    {
        InputState {
            right_arrow_pressed: false,
            left_arrow_pressed: false,
            up_arrow_pressed: false,
            down_arrow_pressed: false,
            animate: false,
        }
    }
}

/// The way in which light `index` goes round the scene while the lights
/// move: 1 for the lights with an even index, -1 for the others, who go
/// the other way.
pub fn light_direction(index: usize) -> (sign: i8)
    ensures
        sign == if index % 2 == 0 {
            1i8
        } else {
            -1i8
        },
{
    if index % 2 == 0 {
        1
    } else {
        -1
    }
}

/// An arrow key that went down and came up again leaves the state that
/// its coming up alone would have left: the arrow is not held.
pub proof fn lemma_key_released(state: InputState, key: u16)
    requires
        key == VK_LEFT || key == VK_RIGHT || key == VK_UP || key == VK_DOWN,
    ensures
        state.after_key_down(key).after_key_up(key) == state.after_key_up(key),
{
}

/// Two presses of the space bar leave the lights as they were.
pub proof fn lemma_space_twice(state: InputState)
    ensures
        state.after_key_up(VK_SPACE).after_key_up(VK_SPACE) == state,
{
}

} // verus!
