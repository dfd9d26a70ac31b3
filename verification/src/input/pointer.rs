//! Following the pointer: relative motion events move the cursor, which is
//! kept on the screen.

use vstd::prelude::*;

verus! {

/// Event type of relative motion events (`EV_REL`).
pub const EV_REL: u16 = 0x02;

/// Event code of horizontal relative motion (`REL_X`).
pub const REL_X: u16 = 0x00;

/// Event code of vertical relative motion (`REL_Y`).
pub const REL_Y: u16 = 0x01;

/// Position of the cursor's top-left corner on the screen.
#[derive(Clone, Copy, Debug, PartialEq, Eq, Structural)]
pub struct CursorPosition {
    pub x: i32,
    pub y: i32,
}

/// `v` limited to `lo ..= hi`.
pub open spec fn clamped(v: int, lo: int, hi: int) -> int {
    if v < lo {
        lo
    } else if v > hi {
        hi
    } else {
        v
    }
}

/// How far an input event moves the cursor horizontally.
pub open spec fn motion_x(event_type: u16, code: u16, value: i32) -> int {
    if event_type == EV_REL && code == REL_X {
        value as int
    } else {
        0
    }
}

/// How far an input event moves the cursor vertically.
pub open spec fn motion_y(event_type: u16, code: u16, value: i32) -> int {
    if event_type == EV_REL && code == REL_Y {
        value as int
    } else {
        0
    }
}

/// `v` is `target` brought onto `0 ..= limit - 1`: it lies there, equals
/// `target` when `target` lies there too, and is the nearer end when `target`
/// lies beyond it.
pub open spec fn kept_on_axis(v: int, target: int, limit: int) -> bool {
    &&& 0 <= v < limit
    &&& (0 <= target < limit ==> v == target)
    &&& (target < 0 ==> v == 0)
    &&& (target >= limit ==> v == limit - 1)
}

/// What the cursor does on one input event, said of the event directly: a
/// relative X event (`EV_REL`, `REL_X`) with value `v` moves the cursor to
/// `x + v` brought onto the screen, whatever the sign of `v`, and keeps its
/// row; a relative Y event moves it to `y + v` likewise; every other event
/// only brings the position onto the screen.
pub open spec fn pointer_laws(
    pos: CursorPosition,
    event_type: u16,
    code: u16,
    value: i32,
    width: u16,
    height: u16,
    next: CursorPosition,
) -> bool {
    let dx: int = if event_type == 0x02 && code == 0x00 { value as int } else { 0 };
    let dy: int = if event_type == 0x02 && code == 0x01 { value as int } else { 0 };
    &&& kept_on_axis(next.x as int, pos.x + dx, width as int)
    &&& kept_on_axis(next.y as int, pos.y + dy, height as int)
}

/// The motion of an event is what [`pointer_laws`] says: the value of a
/// relative X or Y event, of either sign, and nothing for other events; so the
/// clamped move of [`apply_pointer_event`] obeys those laws.
pub proof fn lemma_pointer_laws(
    pos: CursorPosition,
    event_type: u16,
    code: u16,
    value: i32,
    width: u16,
    height: u16,
)
    requires
        width > 0,
        height > 0,
    ensures
        event_type == 0x02 && code == 0x00 ==> motion_x(event_type, code, value) == value
            && motion_y(event_type, code, value) == 0,
        event_type == 0x02 && code == 0x01 ==> motion_y(event_type, code, value) == value
            && motion_x(event_type, code, value) == 0,
        !(event_type == 0x02 && (code == 0x00 || code == 0x01)) ==> motion_x(event_type, code, value)
            == 0 && motion_y(event_type, code, value) == 0,
        pointer_laws(
            pos,
            event_type,
            code,
            value,
            width,
            height,
            CursorPosition {
                x: clamped(pos.x + motion_x(event_type, code, value), 0, width - 1) as i32,
                y: clamped(pos.y + motion_y(event_type, code, value), 0, height - 1) as i32,
            },
        ),
{
}

/// The position lies on a `width` x `height` screen.
pub open spec fn on_screen(pos: CursorPosition, width: u16, height: u16) -> bool {
    0 <= pos.x < width && 0 <= pos.y < height
}

/// The cursor position at start-up: the middle of the screen.
pub fn centred_position(width: u16, height: u16) -> (pos: CursorPosition)
    ensures
        pos.x == width / 2,
        pos.y == height / 2,
        width > 0 && height > 0 ==> on_screen(pos, width, height),
{
    CursorPosition { x: (width as i32) / 2, y: (height as i32) / 2 }
}

/// Applies one input event of type `event_type`, code `code` and value `value`
/// to the cursor position: relative motion along X or Y moves the cursor by the
/// value, other events leave it where it is; then the position is clamped to
/// the `width` x `height` screen. The cursor therefore stays on the screen,
/// whatever the events.
pub fn apply_pointer_event(
    pos: CursorPosition,
    event_type: u16,
    code: u16,
    value: i32,
    width: u16,
    height: u16,
) -> (next: CursorPosition)
    requires
        width > 0,
        height > 0,
        i32::MIN <= pos.x + motion_x(event_type, code, value) <= i32::MAX,
        i32::MIN <= pos.y + motion_y(event_type, code, value) <= i32::MAX,
    ensures
        next.x == clamped(pos.x + motion_x(event_type, code, value), 0, width - 1),
        next.y == clamped(pos.y + motion_y(event_type, code, value), 0, height - 1),
        on_screen(next, width, height),
        pointer_laws(pos, event_type, code, value, width, height, next),
{
    let mut x: i32 = pos.x;
    let mut y: i32 = pos.y;
    if event_type == EV_REL {
        if code == REL_X {
            x = x + value;
        } else if code == REL_Y {
            y = y + value;
        }
    }
    let max_x: i32 = (width as i32) - 1;
    let max_y: i32 = (height as i32) - 1;
    if x < 0 {
        x = 0;
    } else if x > max_x {
        x = max_x;
    }
    if y < 0 {
        y = 0;
    } else if y > max_y {
        y = max_y;
    }
    CursorPosition { x, y }
}

/// Whether [`apply_pointer_event`] can take this event: the screen is not
/// empty and the move does not overflow `i32`.
pub fn can_apply_pointer_event(
    pos: CursorPosition,
    event_type: u16,
    code: u16,
    value: i32,
    width: u16,
    height: u16,
) -> (ok: bool)
    ensures
        ok == (width > 0 && height > 0 && i32::MIN <= pos.x + motion_x(event_type, code, value)
            <= i32::MAX && i32::MIN <= pos.y + motion_y(event_type, code, value) <= i32::MAX),
{
    let dx: i64 = if event_type == EV_REL && code == REL_X {
        value as i64
    } else {
        0
    };
    let dy: i64 = if event_type == EV_REL && code == REL_Y {
        value as i64
    } else {
        0
    };
    let nx: i64 = pos.x as i64 + dx;
    let ny: i64 = pos.y as i64 + dy;
    width > 0 && height > 0 && i32::MIN as i64 <= nx && nx <= i32::MAX as i64 && i32::MIN as i64
        <= ny && ny <= i32::MAX as i64
}

} // verus!
