use vstd::prelude::*;

verus! {

/// A target rectangle of one tiled window.
#[derive(Clone, Copy, Debug, PartialEq, Eq, Structural)]
pub struct TileRect {
    pub x: i32,
    pub y: i32,
    pub w: i32,
    pub h: i32,
}

/// The least `c` from `from` upward with `c * c >= n`.
pub open spec fn ceil_sqrt_from(n: nat, from: nat) -> nat
    decreases n - from,
{
    if from * from >= n || from >= n {
        from
    } else {
        ceil_sqrt_from(n, from + 1)
    }
}

/// The number of columns of the grid: the ceiling of the square root of `n`.
pub open spec fn ceil_sqrt(n: nat) -> nat {
    ceil_sqrt_from(n, 0)
}

/// Rows needed for `n` windows in `cols` columns.
pub open spec fn grid_rows(n: int, cols: int) -> int {
    (n + cols - 1) / cols
}

/// Height left for tiling below the reserved strip; none when the screen is shorter than the strip.
pub open spec fn usable_height(screen_h: int, reserved_top: int) -> int {
    if screen_h < reserved_top {
        0
    } else {
        screen_h - reserved_top
    }
}

/// The rectangle of the `i`-th of `n` windows, row-major, with truncating division.
pub open spec fn tile_spec(i: int, n: int, screen_w: int, screen_h: int, reserved_top: int) -> (
    int,
    int,
    int,
    int,
) {
    let cols = ceil_sqrt(n as nat) as int;
    let rows = grid_rows(n, cols);
    let w = screen_w / cols;
    let h = usable_height(screen_h, reserved_top) / rows;
    ((i % cols) * w, (i / cols) * h + reserved_top, w, h)
}

pub open spec fn rect_is(r: TileRect, t: (int, int, int, int)) -> bool {
    r.x == t.0 && r.y == t.1 && r.w == t.2 && r.h == t.3
}

pub proof fn lemma_ceil_sqrt_from(n: nat, from: nat)
    requires
        from == 0 || (from - 1) * (from - 1) < n,
    ensures
        ceil_sqrt_from(n, from) * ceil_sqrt_from(n, from) >= n,
        ceil_sqrt_from(n, from) == 0 || (ceil_sqrt_from(n, from) - 1) * (ceil_sqrt_from(n, from)
            - 1) < n,
        ceil_sqrt_from(n, from) <= n || ceil_sqrt_from(n, from) == from,
    decreases n - from,
{
    if from * from >= n {
    } else if from >= n {
        assert(from * from >= from * 1) by (nonlinear_arith)
            requires
                from >= 1,
        ;
    } else {
        lemma_ceil_sqrt_from(n, from + 1);
    }
}

/// The column count is the ceiling of the square root: `c * c >= n > (c - 1) * (c - 1)`.
pub proof fn lemma_ceil_sqrt(n: nat)
    ensures
        ceil_sqrt(n) * ceil_sqrt(n) >= n,
        ceil_sqrt(n) == 0 || (ceil_sqrt(n) - 1) * (ceil_sqrt(n) - 1) < n,
        ceil_sqrt(n) <= n,
        n >= 1 ==> ceil_sqrt(n) >= 1,
{
    lemma_ceil_sqrt_from(n, 0);
}

/// Computes the column count of the grid for `n` windows.
pub fn grid_columns(n: usize) -> (c: usize)
    ensures
        c == ceil_sqrt(n as nat),
{
    let mut c: usize = 0;
    proof {
        lemma_ceil_sqrt(n as nat);
    }
    loop
        invariant
            c <= n,
            ceil_sqrt_from(n as nat, c as nat) == ceil_sqrt(n as nat),
        decreases n - c,
    {
        assert((c as int) * (c as int) <= u128::MAX) by (nonlinear_arith)
            requires
                c <= n,
                n <= usize::MAX,
        ;
        let sq: u128 = (c as u128) * (c as u128);
        if sq >= n as u128 || c >= n {
            return c;
        }
        c = c + 1;
    }
}

proof fn lemma_grid_small(n: int, c: int)
    requires
        1 <= n <= usize::MAX,
        c >= 1,
        c * c >= n,
        (c - 1) * (c - 1) < n,
    ensures
        c <= 0x1_0000_0000,
        grid_rows(n, c) <= c,
{
    assert(c <= 0x1_0000_0000) by (nonlinear_arith)
        requires
            c >= 1,
            (c - 1) * (c - 1) < n,
            n <= usize::MAX,
    ;
    assert((n + c - 1) / c <= c) by (nonlinear_arith)
        requires
            c >= 1,
            c * c >= n,
    ;
}

proof fn lemma_slot_fits(a: int, c: int, s: int)
    requires
        0 <= a < c,
        s >= 0,
    ensures
        0 <= a * (s / c) <= s,
        0 <= (a + 1) * (s / c) <= s,
{
    assert(0 <= a * (s / c) <= (a + 1) * (s / c) <= c * (s / c) <= s) by (nonlinear_arith)
        requires
            0 <= a < c,
            s >= 0,
    ;
}

proof fn lemma_row_bound(i: int, n: int, cols: int)
    requires
        0 <= i < n,
        cols >= 1,
    ensures
        0 <= i / cols < grid_rows(n, cols),
        grid_rows(n, cols) >= 1,
{
    assert(0 <= i / cols < (n + cols - 1) / cols) by (nonlinear_arith)
        requires
            0 <= i < n,
            cols >= 1,
    ;
}

/// Grid layout of `n` windows over a `screen_w` by `screen_h` screen whose top
/// `reserved_top` pixels are kept for the status bar: `cols = ceil(sqrt(n))`,
/// `rows = ceil(n / cols)`, cells of `screen_w / cols` by `usable / rows`, filled
/// row by row. Leftover pixels of the truncating divisions stay unused.
pub fn tile(n: usize, screen_w: i32, screen_h: i32, reserved_top: u32) -> (r: Vec<TileRect>)
    requires
        screen_w >= 0,
        screen_h >= 0,
        reserved_top <= i32::MAX,
    ensures
        r@.len() == n,
        forall|i: int|
            0 <= i < n ==> #[trigger] rect_is(
                r@[i],
                tile_spec(i, n as int, screen_w as int, screen_h as int, reserved_top as int),
            ),
{
    let mut r: Vec<TileRect> = Vec::new();
    if n == 0 {
        return r;
    }
    let cols: usize = grid_columns(n);
    proof {
        lemma_ceil_sqrt(n as nat);
        lemma_grid_small(n as int, cols as int);
    }
    let rows: usize = (n - 1) / cols + 1;
    assert(rows as int == grid_rows(n as int, cols as int)) by (nonlinear_arith)
        requires
            cols >= 1,
            n >= 1,
            rows as int == (n as int - 1) / (cols as int) + 1,
    ;
    assert(rows <= cols <= 0x1_0000_0000);
    let w: i64 = screen_w as i64 / cols as i64;
    let top: i64 = reserved_top as i64;
    let usable: i64 = if (screen_h as i64) < top {
        0
    } else {
        screen_h as i64 - top
    };
    let h: i64 = usable / rows as i64;
    let mut i: usize = 0;
    while i < n
        invariant
            1 <= cols <= n,
            rows <= cols <= 0x1_0000_0000,
            cols == ceil_sqrt(n as nat),
            rows as int == grid_rows(n as int, cols as int),
            w as int == screen_w as int / cols as int,
            top == reserved_top,
            usable == usable_height(screen_h as int, top as int),
            h as int == usable as int / rows as int,
            screen_w >= 0,
            screen_h >= 0,
            reserved_top <= i32::MAX,
            i <= n,
            r@.len() == i,
            forall|k: int|
                0 <= k < i ==> #[trigger] rect_is(
                    r@[k],
                    tile_spec(k, n as int, screen_w as int, screen_h as int, reserved_top as int),
                ),
        decreases n - i,
    {
        proof {
            lemma_slot_fits((i % cols) as int, cols as int, screen_w as int);
            lemma_row_bound(i as int, n as int, cols as int);
            lemma_slot_fits((i / cols) as int, rows as int, usable as int);
        }
        let x: i64 = (i % cols) as i64 * w;
        let y: i64 = (i / cols) as i64 * h + top;
        r.push(TileRect { x: x as i32, y: y as i32, w: w as i32, h: h as i32 });
        i = i + 1;
    }
    r
}

pub open spec fn disjoint(a: (int, int, int, int), b: (int, int, int, int)) -> bool {
    a.0 + a.2 <= b.0 || b.0 + b.2 <= a.0 || a.1 + a.3 <= b.1 || b.1 + b.3 <= a.1
}

proof fn lemma_apart(a: int, b: int, w: int)
    requires
        0 <= a < b,
        w >= 0,
    ensures
        a * w + w <= b * w,
{
    assert(a * w + w <= b * w) by (nonlinear_arith)
        requires
            0 <= a < b,
            w >= 0,
    ;
}

/// The grid tiles: for `n >= 1` windows on a screen with room for at least one pixel
/// per column and per row, every rectangle has positive width and height, no two
/// rectangles overlap, and the column count is the ceiling of the square root of `n`.
pub proof fn lemma_tiles_partition(n: int, screen_w: int, screen_h: int, reserved_top: int)
    requires
        n >= 1,
        screen_w >= ceil_sqrt(n as nat),
        usable_height(screen_h, reserved_top) >= grid_rows(n, ceil_sqrt(n as nat) as int),
    ensures
        ceil_sqrt(n as nat) * ceil_sqrt(n as nat) >= n,
        (ceil_sqrt(n as nat) - 1) * (ceil_sqrt(n as nat) - 1) < n,
        forall|i: int|
            0 <= i < n ==> #[trigger] tile_spec(i, n, screen_w, screen_h, reserved_top).2 > 0
                && tile_spec(i, n, screen_w, screen_h, reserved_top).3 > 0,
        forall|i: int, j: int|
            0 <= i < n && 0 <= j < n && i != j ==> disjoint(
                #[trigger] tile_spec(i, n, screen_w, screen_h, reserved_top),
                #[trigger] tile_spec(j, n, screen_w, screen_h, reserved_top),
            ),
{
    lemma_ceil_sqrt(n as nat);
    let cols = ceil_sqrt(n as nat) as int;
    let rows = grid_rows(n, cols);
    let w = screen_w / cols;
    let h = usable_height(screen_h, reserved_top) / rows;
    assert(rows >= 1) by {
        lemma_row_bound(0, n, cols);
    }
    assert(w >= 1) by (nonlinear_arith)
        requires
            screen_w >= cols >= 1,
            w == screen_w / cols,
    ;
    assert(h >= 1) by (nonlinear_arith)
        requires
            usable_height(screen_h, reserved_top) >= rows >= 1,
            h == usable_height(screen_h, reserved_top) / rows,
    ;
    assert forall|i: int, j: int| 0 <= i < n && 0 <= j < n && i != j implies disjoint(
        #[trigger] tile_spec(i, n, screen_w, screen_h, reserved_top),
        #[trigger] tile_spec(j, n, screen_w, screen_h, reserved_top),
    ) by {
        let ci = i % cols;
        let cj = j % cols;
        let ri = i / cols;
        let rj = j / cols;
        assert(i == ri * cols + ci && j == rj * cols + cj && 0 <= ci < cols && 0 <= cj < cols
            && ri >= 0 && rj >= 0) by (nonlinear_arith)
            requires
                cols >= 1,
                i >= 0,
                j >= 0,
                ci == i % cols,
                cj == j % cols,
                ri == i / cols,
                rj == j / cols,
        ;
        if ci < cj {
            lemma_apart(ci, cj, w);
        } else if cj < ci {
            lemma_apart(cj, ci, w);
        } else if ri < rj {
            lemma_apart(ri, rj, h);
        } else {
            assert(rj < ri);
            lemma_apart(rj, ri, h);
        }
    }
}

} // verus!
