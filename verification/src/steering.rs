//! The heading that the pressed direction keys ask for.

use vstd::prelude::*;

verus! {

/// The heading for a set of pressed directions, as `(x, y)` with each
/// component in `{-1, 0, 1}`: right wins over left, and down over up.
pub open spec fn spec_heading(up: bool, left: bool, down: bool, right: bool) -> (i8, i8) {
    (
        if right {
            1i8
        } else if left {
            -1i8
        } else {
            0i8
        },
        if down {
            -1i8
        } else if up {
            1i8
        } else {
            0i8
        },
    )
}

#[verifier::when_used_as_spec(spec_heading)]
pub fn heading(up: bool, left: bool, down: bool, right: bool) -> (towards: (i8, i8))
    ensures
        towards == spec_heading(up, left, down, right),
{
    let mut x: i8 = 0;
    let mut y: i8 = 0;
    if up {
        y = 1;
    }
    if left {
        x = -1;
    }
    if down {
        y = -1;
    }
    if right {
        x = 1;
    }
    (x, y)
}

} // verus!
