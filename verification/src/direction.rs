use vstd::prelude::*;

verus! {

/// One of the four cardinal directions on screen. `Up` points towards
/// smaller `y`, `Left` towards smaller `x`.
#[derive(Debug, Clone, Copy, PartialEq, Eq, Structural)]
pub enum Direction {
    Left,
    Right,
    Up,
    Down,
}

impl Direction {
    /// The unit step along the horizontal axis: `-1`, `0` or `1`.
    pub open spec fn step_x(self) -> int {
        match self {
            Direction::Left => -1,
            Direction::Right => 1,
            Direction::Up => 0,
            Direction::Down => 0,
        }
    }

    /// The unit step along the vertical axis: `-1`, `0` or `1`.
    pub open spec fn step_y(self) -> int {
        match self {
            Direction::Left => 0,
            Direction::Right => 0,
            Direction::Up => -1,
            Direction::Down => 1,
        }
    }
}

/// The axis along which a container lays out its children: `Horizontal`
/// is left to right, `Vertical` is top to bottom.
#[derive(Debug, Clone, Copy, PartialEq, Eq, Structural)]
pub enum TilingDirection {
    Vertical,
    Horizontal,
}

} // verus!
