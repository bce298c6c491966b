use vstd::prelude::*;

verus! {

/// One frame's input snapshot: which movement keys are currently held,
/// whether the sprint key is currently held, and whether the sprint key was
/// released this exact frame (edge detection).
#[derive(Clone, Copy, Debug, PartialEq, Eq, Structural)]
pub struct FrameInput {
    pub left: bool,
    pub right: bool,
    pub forward: bool,
    pub backward: bool,
    pub sprint_held: bool,
    pub sprint_released: bool,
}

/// Raw movement direction: the vector sum of the unit axis vectors of the
/// held movement keys (left = -x, right = +x, forward = +y, backward = -y),
/// so each component lies in -1 ..= 1 and opposing keys cancel exactly.
#[derive(Clone, Copy, Debug, PartialEq, Eq, Structural)]
pub struct Direction {
    pub x: i32,
    pub y: i32,
}

/// The x component of the raw direction for a frame's input.
pub open spec fn spec_dir_x(inp: FrameInput) -> int {
    (if inp.right { 1int } else { 0int }) - (if inp.left { 1int } else { 0int })
}

/// The y component of the raw direction for a frame's input.
pub open spec fn spec_dir_y(inp: FrameInput) -> int {
    (if inp.forward { 1int } else { 0int }) - (if inp.backward { 1int } else { 0int })
}

/// A frame moves the actor exactly when the raw direction is non-zero.
pub open spec fn spec_moving(inp: FrameInput) -> bool {
    spec_dir_x(inp) != 0 || spec_dir_y(inp) != 0
}

impl FrameInput {
    /// The snapshot of a frame during which no key is held and no key edge
    /// was observed.
    pub open spec fn spec_no_keys() -> FrameInput {
        FrameInput {
            left: false,
            right: false,
            forward: false,
            backward: false,
            sprint_held: false,
            sprint_released: false,
        }
    }

    /// Builds the no-keys snapshot.
    pub fn no_keys() -> (inp: FrameInput)
        ensures
            inp == FrameInput::spec_no_keys(),
    {
        FrameInput {
            left: false,
            right: false,
            forward: false,
            backward: false,
            sprint_held: false,
            sprint_released: false,
        }
    }

    /// Sums the unit axis contributions of the held movement keys.
    pub fn direction(&self) -> (d: Direction)
        ensures
            d.x == spec_dir_x(*self),
            d.y == spec_dir_y(*self),
    {
        let mut x: i32 = 0;
        let mut y: i32 = 0;
        if self.left {
            x = x - 1;
        }
        if self.right {
            x = x + 1;
        }
        if self.forward {
            y = y + 1;
        }
        if self.backward {
            y = y - 1;
        }
        Direction { x, y }
    }
}

impl Direction {
    /// A direction is zero when no axis has a net contribution.
    pub open spec fn spec_is_zero(self) -> bool {
        self.x == 0 && self.y == 0
    }

    /// Tests whether the direction is the zero vector.
    pub fn is_zero(&self) -> (r: bool)
        ensures
            r == self.spec_is_zero(),
    {
        self.x == 0 && self.y == 0
    }
}

} // verus!
