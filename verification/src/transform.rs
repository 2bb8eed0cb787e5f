//! Exact logical-to-screen coordinate transforms.
//!
//! The host draws each cell as a square sprite. A cell's screen position is
//! `pos / bound_game * bound_window - bound_window/2 + tile_size/2` where
//! `tile_size = bound_window / bound_game`: the grid is centered on the
//! window and each cell is centered within its tile. Over a common
//! denominator `2 * bound_game` that value is the exact rational
//! `bound_window * (2*pos + 1 - bound_game) / (2 * bound_game)`, so these
//! functions return numerator and denominator as integers and leave the one
//! lossy division to the host's drawing code.

use crate::game::{GameState, Position, Size, TOTAL_HEIGHT, TOTAL_WIDTH};
use vstd::prelude::*;

verus! {

/// Numerator of the screen coordinate of grid coordinate `pos` along an axis
/// with `bound_game` cells shown in `bound_window` pixels, over the
/// denominator `translation_den(bound_game)`.
pub open spec fn translation_num(pos: int, bound_window: int, bound_game: int) -> int {
    bound_window * (2 * pos + 1 - bound_game)
}

/// Common denominator of the screen coordinates along an axis with
/// `bound_game` cells.
pub open spec fn translation_den(bound_game: int) -> int {
    2 * bound_game
}

/// Screen coordinate of grid coordinate `pos` along one axis, as the exact
/// rational numerator/denominator pair
/// `(bound_window * (2*pos + 1 - bound_game), 2 * bound_game)`.
pub fn convert(pos: i32, bound_window: u32, bound_game: i32) -> (r: (i128, i128))
    requires
        bound_game > 0,
    ensures
        r.0 == translation_num(pos as int, bound_window as int, bound_game as int),
        r.1 == translation_den(bound_game as int),
{
    let w: i128 = bound_window as i128;
    let g: i128 = bound_game as i128;
    let p: i128 = pos as i128;
    proof {
        assert(w * (2 * p + 1 - g) <= i128::MAX && w * (2 * p + 1 - g) >= i128::MIN)
            by (nonlinear_arith)
            requires
                0 <= w < 0x1_0000_0000,
                -0x8000_0000 <= p < 0x8000_0000,
                0 < g < 0x8000_0000,
        ;
    }
    (w * (2 * p + 1 - g), 2 * g)
}

/// A cell's screen position, one exact rational per axis.
#[derive(Clone, Copy, PartialEq, Eq, Structural, Debug)]
pub struct CellTranslation {
    pub x_num: i128,
    pub x_den: i128,
    pub y_num: i128,
    pub y_den: i128,
}

/// True when `t` is the screen position of the cell at `p` for a window of
/// `window_width` by `window_height` pixels over the fixed grid extents.
pub open spec fn is_translation_of(
    t: CellTranslation,
    p: Position,
    window_width: int,
    window_height: int,
) -> bool {
    &&& t.x_num == translation_num(p.x as int, window_width, TOTAL_WIDTH as int)
    &&& t.x_den == translation_den(TOTAL_WIDTH as int)
    &&& t.y_num == translation_num(p.y as int, window_height, TOTAL_HEIGHT as int)
    &&& t.y_den == translation_den(TOTAL_HEIGHT as int)
}

/// Screen position of the cell at `p` for the current window size.
pub fn translate_position(p: Position, window_width: u32, window_height: u32) -> (t:
    CellTranslation)
    ensures
        is_translation_of(t, p, window_width as int, window_height as int),
{
    let (x_num, x_den) = convert(p.x, window_width, TOTAL_WIDTH);
    let (y_num, y_den) = convert(p.y, window_height, TOTAL_HEIGHT);
    CellTranslation { x_num, x_den, y_num, y_den }
}

/// Recomputes every cell's screen position for the current window size, run
/// each frame after the logic updates so a resize takes effect at once. The
/// active cell's translation comes first, then each frozen cell's, oldest
/// first.
pub fn position_translation(state: &GameState, window_width: u32, window_height: u32) -> (r: Vec<
    CellTranslation,
>)
    ensures
        r@.len() == state.frozen_seq().len() + 1,
        is_translation_of(r@[0], state.active_pos(), window_width as int, window_height as int),
        forall|i: int|
            0 <= i < state.frozen_seq().len() ==> is_translation_of(
                r@[i + 1],
                state.frozen_seq()[i],
                window_width as int,
                window_height as int,
            ),
{
    let mut r: Vec<CellTranslation> = Vec::new();
    r.push(translate_position(state.active_position(), window_width, window_height));
    let n = state.frozen_count();
    let mut i: usize = 0;
    while i < n
        invariant
            n == state.frozen_seq().len(),
            i <= n,
            r@.len() == i + 1,
            is_translation_of(r@[0], state.active_pos(), window_width as int, window_height as int),
            forall|j: int|
                0 <= j < i ==> is_translation_of(
                    r@[j + 1],
                    state.frozen_seq()[j],
                    window_width as int,
                    window_height as int,
                ),
        decreases n - i,
    {
        r.push(translate_position(state.frozen_position(i), window_width, window_height));
        i = i + 1;
    }
    r
}

/// Pixel size of a block of logical size `size`, per axis, as the exact
/// rationals `(size.width * window_width) / TOTAL_WIDTH` and
/// `(size.height * window_height) / TOTAL_HEIGHT`: each axis scales by its
/// own window-to-grid ratio, so the cell aspect ratio follows the window's.
pub fn size_scaling(size: &Size, window_width: u32, window_height: u32) -> (r: (
    (u64, u64),
    (u64, u64),
))
    ensures
        r.0.0 == size.width * window_width,
        r.0.1 == TOTAL_WIDTH as u64,
        r.1.0 == size.height * window_height,
        r.1.1 == TOTAL_HEIGHT as u64,
{
    proof {
        assert((size.width as u64) * (window_width as u64) <= u64::MAX) by (nonlinear_arith)
            requires
                size.width <= u32::MAX,
                window_width <= u32::MAX,
        ;
        assert((size.height as u64) * (window_height as u64) <= u64::MAX) by (nonlinear_arith)
            requires
                size.height <= u32::MAX,
                window_height <= u32::MAX,
        ;
    }
    (
        ((size.width as u64) * (window_width as u64), TOTAL_WIDTH as u64),
        ((size.height as u64) * (window_height as u64), TOTAL_HEIGHT as u64),
    )
}

/// The grid's corner cells map to the window's corners, inset by half a
/// tile. With denominator `2 * gw`, the numerator `w - w * gw` at logical 0
/// is the pixel coordinate `-w/2 + w/(2*gw)`, and the numerator `w * gw - w`
/// at logical `gw - 1` is `w/2 - w/(2*gw)`; likewise on the other axis.
pub proof fn lemma_transform_corners(w: int, h: int, gw: int, gh: int)
    requires
        gw > 0,
        gh > 0,
    ensures
        translation_num(0, w, gw) == w - w * gw,
        translation_num(gw - 1, w, gw) == w * gw - w,
        translation_den(gw) == 2 * gw,
        translation_num(0, h, gh) == h - h * gh,
        translation_num(gh - 1, h, gh) == h * gh - h,
        translation_den(gh) == 2 * gh,
{
    assert(w * (2 * 0 + 1 - gw) == w - w * gw) by (nonlinear_arith);
    assert(w * (2 * (gw - 1) + 1 - gw) == w * gw - w) by (nonlinear_arith);
    assert(h * (2 * 0 + 1 - gh) == h - h * gh) by (nonlinear_arith);
    assert(h * (2 * (gh - 1) + 1 - gh) == h * gh - h) by (nonlinear_arith);
}

} // verus!
