//! What the keyboard asks of a frame.
use vstd::prelude::*;

verus! {

/// Which movement keys are held during a frame.
#[derive(Clone, Copy, Debug, PartialEq, Eq)]
pub struct Keys {
    pub up: bool,
    pub left: bool,
    pub down: bool,
    pub right: bool,
}

/// What one frame's input holds: whether a quit was asked for, and which
/// movement keys are held.
#[derive(Clone, Copy, Debug, PartialEq, Eq)]
pub struct FrameInput {
    pub quit: bool,
    pub keys: Keys,
}

/// 1 for a held key, 0 otherwise.
pub open spec fn held(b: bool) -> int {
    if b {
        1
    } else {
        0
    }
}

/// The horizontal part of the intent that `k` gives.
pub open spec fn intent_x(k: Keys) -> int {
    held(k.right) - held(k.left)
}

/// The vertical part of the intent that `k` gives; up is towards smaller `y`.
pub open spec fn intent_y(k: Keys) -> int {
    held(k.down) - held(k.up)
}

/// The movement intent `(dx, dy)` of the held keys, each part in `{-1, 0, 1}`.
/// Opposite keys held together cancel out.
pub fn intent(keys: &Keys) -> (r: (i32, i32))
    ensures
        r.0 == intent_x(*keys),
        r.1 == intent_y(*keys),
        -1 <= r.0 <= 1,
        -1 <= r.1 <= 1,
{
    let mut dx: i32 = 0;
    let mut dy: i32 = 0;
    if keys.up {
        dy = dy - 1;
    }
    if keys.left {
        dx = dx - 1;
    }
    if keys.down {
        dy = dy + 1;
    }
    if keys.right {
        dx = dx + 1;
    }
    (dx, dy)
}

} // verus!
