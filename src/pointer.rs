use vstd::prelude::*;

verus! {

/// Smallest width or height that shrinking leaves a window.
pub const MIN_SCALED_SIZE: i64 = 100;

/// Position and size of a window as the display server reports them.
#[derive(Clone, Copy, Debug, PartialEq, Eq, Structural)]
pub struct Geometry {
    pub x: i32,
    pub y: i32,
    pub w: i32,
    pub h: i32,
}

/// A window's new position and size after a scale step.
#[derive(Clone, Copy, Debug, PartialEq, Eq, Structural)]
pub struct Scaled {
    pub x: i64,
    pub y: i64,
    pub w: i64,
    pub h: i64,
}

/// The one interactive move in progress: the window and where window and pointer were when it began.
#[derive(Clone, Copy, Debug, PartialEq, Eq, Structural)]
pub struct DragState {
    pub window: u64,
    pub start_win_x: i32,
    pub start_win_y: i32,
    pub start_mouse_x: i32,
    pub start_mouse_y: i32,
}

/// Half of `d`, rounded toward zero as integer division does.
pub open spec fn half_toward_zero(d: int) -> int {
    if d >= 0 {
        d / 2
    } else {
        -((-d) / 2)
    }
}

fn half(d: i64) -> (r: i64)
    requires
        -0x1_0000_0000_0000 <= d <= 0x1_0000_0000_0000,
    ensures
        r == half_toward_zero(d as int),
{
    if d >= 0 {
        d / 2
    } else {
        -((-d) / 2)
    }
}

/// The window position that follows the pointer: origin plus pointer travel.
pub open spec fn drag_position(s: DragState, x_root: int, y_root: int) -> (int, int) {
    (s.start_win_x + (x_root - s.start_mouse_x), s.start_win_y + (y_root - s.start_mouse_y))
}

/// Where the dragged window goes when the pointer is at (`x_root`, `y_root`).
pub fn drag_target(s: &DragState, x_root: i32, y_root: i32) -> (r: (i64, i64))
    ensures
        (r.0 as int, r.1 as int) == drag_position(*s, x_root as int, y_root as int),
{
    (
        s.start_win_x as i64 + (x_root as i64 - s.start_mouse_x as i64),
        s.start_win_y as i64 + (y_root as i64 - s.start_mouse_y as i64),
    )
}

pub open spec fn shrunk(size: int, step: int) -> int {
    if size - step < MIN_SCALED_SIZE {
        MIN_SCALED_SIZE as int
    } else {
        size - step
    }
}

pub open spec fn grown(size: int, step: int, limit: int) -> int {
    if size + step > limit {
        limit
    } else {
        size + step
    }
}

/// Half again the screen size: the most that growing a window allows.
pub open spec fn grow_limit(screen: int) -> int {
    half_toward_zero(screen * 3)
}

pub open spec fn scale_down_spec(g: Geometry, step: int) -> Scaled {
    let w = shrunk(g.w as int, step);
    let h = shrunk(g.h as int, step);
    Scaled {
        x: (g.x + half_toward_zero(g.w - w)) as i64,
        y: (g.y + half_toward_zero(g.h - h)) as i64,
        w: w as i64,
        h: h as i64,
    }
}

pub open spec fn scale_up_spec(g: Geometry, step: int, screen_w: int, screen_h: int) -> Scaled {
    let w = grown(g.w as int, step, grow_limit(screen_w));
    let h = grown(g.h as int, step, grow_limit(screen_h));
    Scaled {
        x: (g.x - half_toward_zero(w - g.w)) as i64,
        y: (g.y - half_toward_zero(h - g.h)) as i64,
        w: w as i64,
        h: h as i64,
    }
}

/// Shrinks a window by `step` on each axis about its center, to no less than
/// `MIN_SCALED_SIZE` per axis.
pub fn scale_down(g: Geometry, step: u32) -> (r: Scaled)
    ensures
        r == scale_down_spec(g, step as int),
{
    let mut w: i64 = g.w as i64 - step as i64;
    if w < MIN_SCALED_SIZE {
        w = MIN_SCALED_SIZE;
    }
    let mut h: i64 = g.h as i64 - step as i64;
    if h < MIN_SCALED_SIZE {
        h = MIN_SCALED_SIZE;
    }
    let x = g.x as i64 + half(g.w as i64 - w);
    let y = g.y as i64 + half(g.h as i64 - h);
    Scaled { x, y, w, h }
}

/// Grows a window by `step` on each axis about its center, to no more than
/// one and a half times the screen size per axis.
pub fn scale_up(g: Geometry, step: u32, screen_w: i32, screen_h: i32) -> (r: Scaled)
    ensures
        r == scale_up_spec(g, step as int, screen_w as int, screen_h as int),
{
    let limit_w: i64 = half(screen_w as i64 * 3);
    let limit_h: i64 = half(screen_h as i64 * 3);
    let mut w: i64 = g.w as i64 + step as i64;
    if w > limit_w {
        w = limit_w;
    }
    let mut h: i64 = g.h as i64 + step as i64;
    if h > limit_h {
        h = limit_h;
    }
    let x = g.x as i64 - half(w - g.w as i64);
    let y = g.y as i64 - half(h - g.h as i64);
    Scaled { x, y, w, h }
}

/// A drag moves the window by exactly the pointer's travel since the drag began.
pub proof fn lemma_drag_follows_pointer(
    window: u64,
    wx: i32,
    wy: i32,
    px: i32,
    py: i32,
    dx: int,
    dy: int,
)
    ensures
        drag_position(
            DragState {
                window,
                start_win_x: wx,
                start_win_y: wy,
                start_mouse_x: px,
                start_mouse_y: py,
            },
            px + dx,
            py + dy,
        ) == (wx + dx, wy + dy),
{
}

/// Shrinking never leaves a side under `MIN_SCALED_SIZE`, and takes off exactly the
/// step whenever the result stays at or above it: the floor only engages when the
/// step would cross it.
pub proof fn lemma_shrink_floor(g: Geometry, step: u32)
    ensures
        scale_down_spec(g, step as int).w >= MIN_SCALED_SIZE,
        scale_down_spec(g, step as int).h >= MIN_SCALED_SIZE,
        g.w - step >= MIN_SCALED_SIZE ==> scale_down_spec(g, step as int).w == g.w - step,
        g.h - step >= MIN_SCALED_SIZE ==> scale_down_spec(g, step as int).h == g.h - step,
        g.w - step < MIN_SCALED_SIZE ==> scale_down_spec(g, step as int).w == MIN_SCALED_SIZE,
        g.h - step < MIN_SCALED_SIZE ==> scale_down_spec(g, step as int).h == MIN_SCALED_SIZE,
{
}

} // verus!
