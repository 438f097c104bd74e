//! Straight lines of white pixels in a frame.

use vstd::prelude::*;
use vstd::arithmetic::div_mod::lemma_fundamental_div_mod_converse;
use crate::frame_buffer::{FrameBuffer, Pixel};

verus! {

/// Bit pattern of the channel value 1.0.
pub const WHITE: u32 = 0x3F80_0000;

/// Largest coordinate that the stepping arithmetic takes.
pub const MAX_COORDINATE: usize = 0x3FFF_FFFF;

/// Distance between two coordinates.
pub open spec fn span(a: int, b: int) -> int {
    if a > b {
        a - b
    } else {
        b - a
    }
}

/// The step, -1 or 1, that leads from one coordinate toward another.
pub open spec fn toward(from: int, to: int) -> int {
    if from > to {
        -1
    } else {
        1
    }
}

/// How far a line has moved along its short axis after `k` steps along its
/// long one: the short span is added `k` times to half of itself, and every
/// full long span in that sum, short of the sum itself, is one step.
pub open spec fn side_steps(short: int, long: int, k: int) -> int {
    let sum = short / 2 + k * short;
    if sum == 0 {
        0
    } else {
        (sum - 1) / long
    }
}

/// The three ways a line is drawn.
#[derive(Clone, Copy, Debug, PartialEq, Eq, Structural)]
pub enum Run {
    /// End points next to each other or the same: only the start is drawn.
    Dot,
    /// One pixel in every column from start to end.
    Wide,
    /// One pixel in every row from start to end.
    Tall,
}

/// How the line between two points is drawn: by columns unless it spans
/// more rows than columns.
pub open spec fn run_of(sx: int, sy: int, ex: int, ey: int) -> Run {
    let dx = if ex == sx {
        0
    } else {
        span(sx, ex) - 1
    };
    let dy = if ey == sy {
        0
    } else {
        span(sy, ey) - 1
    };
    if dx == 0 && dy == 0 {
        Run::Dot
    } else if dx >= dy {
        Run::Wide
    } else {
        Run::Tall
    }
}

/// Number of pixels of the line.
pub open spec fn line_length(sx: int, sy: int, ex: int, ey: int) -> nat {
    match run_of(sx, sy, ex, ey) {
        Run::Dot => 1,
        Run::Wide => (span(sx, ex) + 1) as nat,
        Run::Tall => (span(sy, ey) + 1) as nat,
    }
}

/// Column and row of pixel `k` of the line.
pub open spec fn line_point(sx: int, sy: int, ex: int, ey: int, k: int) -> (int, int) {
    match run_of(sx, sy, ex, ey) {
        Run::Dot => (sx, sy),
        Run::Wide => (
            sx + toward(sx, ex) * k,
            sy + toward(sy, ey) * side_steps(span(sy, ey), span(sx, ex), k),
        ),
        Run::Tall => (
            sx + toward(sx, ex) * side_steps(span(sx, ex), span(sy, ey), k),
            sy + toward(sy, ey) * k,
        ),
    }
}

/// The pixels of a frame after the first `n` pixels of the line have been
/// made white; depths stay.
pub open spec fn painted(fb: FrameBuffer, sx: int, sy: int, ex: int, ey: int, n: nat) -> Seq<Pixel>
    decreases n,
{
    if n == 0 {
        fb.frame_buffer@
    } else {
        let before = painted(fb, sx, sy, ex, ey, (n - 1) as nat);
        let p = line_point(sx, sy, ex, ey, n - 1);
        let at = fb.slot(p.0 as usize, p.1 as usize);
        before.update(at, Pixel { red: WHITE, green: WHITE, blue: WHITE, depth: before[at].depth })
    }
}

/// The bookkeeping of a run after `k` steps: `carry` holds the part of the
/// sum that has not yet made a step, and `steps` steps were made.
spec fn run_state(short: int, long: int, k: int, steps: int, carry: int) -> bool {
    let sum = short / 2 + k * short;
    &&& 0 <= short <= long
    &&& long >= 2
    &&& 0 <= k
    &&& 0 <= carry <= long
    &&& carry == sum - steps * long
    &&& sum >= 1 ==> carry >= 1
    &&& sum == 0 ==> steps == 0
}

proof fn run_starts(short: int, long: int)
    requires
        0 <= short <= long,
        long >= 2,
    ensures
        run_state(short, long, 0, 0, short / 2),
{
    assert(0 * short == 0);
    assert(0 * long == 0);
}

proof fn run_goes_on(short: int, long: int, k: int, steps: int, carry: int)
    requires
        run_state(short, long, k, steps, carry),
    ensures
        carry + short > long ==> run_state(short, long, k + 1, steps + 1, carry + short - long),
        carry + short <= long ==> run_state(short, long, k + 1, steps, carry + short),
{
    assert((k + 1) * short == k * short + short) by (nonlinear_arith);
    assert((steps + 1) * long == steps * long + long) by (nonlinear_arith);
}

proof fn run_counts_steps(short: int, long: int, k: int, steps: int, carry: int)
    requires
        run_state(short, long, k, steps, carry),
        k <= long,
    ensures
        steps == side_steps(short, long, k),
        0 <= steps <= short,
{
    let sum = short / 2 + k * short;
    assert(0 <= k * short <= long * short) by (nonlinear_arith)
        requires
            0 <= k <= long,
            0 <= short,
    ;
    if sum >= 1 {
        assert(sum - 1 == steps * long + (carry - 1));
        lemma_fundamental_div_mod_converse(sum - 1, long, steps, carry - 1);
        assert(steps * long < (short + 1) * long) by (nonlinear_arith)
            requires
                steps * long <= sum - 1,
                sum <= short / 2 + long * short,
                short / 2 <= long,
        ;
        assert(steps < short + 1) by (nonlinear_arith)
            requires
                steps * long < (short + 1) * long,
                long > 0,
        ;
        assert(steps >= 0) by (nonlinear_arith)
            requires
                steps * long == sum - carry,
                sum - carry >= -long + 1,
                long > 0,
        ;
    }
}

/// Draws a line that has a pixel in every column from `sx` to `ex`.
fn draw_x_line(fb: &mut FrameBuffer, sx: isize, sy: isize, ex: isize, ey: isize)
    requires
        old(fb).wf(),
        old(fb).width >= 1,
        old(fb).height >= 1,
        0 <= sx <= MAX_COORDINATE,
        0 <= sy <= MAX_COORDINATE,
        0 <= ex <= MAX_COORDINATE,
        0 <= ey <= MAX_COORDINATE,
        run_of(sx as int, sy as int, ex as int, ey as int) == Run::Wide,
    ensures
        final(fb).width == old(fb).width,
        final(fb).height == old(fb).height,
        final(fb).frame_buffer@ == painted(
            *old(fb),
            sx as int,
            sy as int,
            ex as int,
            ey as int,
            line_length(sx as int, sy as int, ex as int, ey as int),
        ),
{
    let dir: isize = if sx > ex {
        -1
    } else {
        1
    };
    let change: isize = if sy > ey {
        -1
    } else {
        1
    };
    let mut wy: isize = sy;
    let mut x: isize = sx;
    let dx: isize = if ex > sx {
        ex - sx
    } else {
        sx - ex
    };
    let dy: isize = if ey > sy {
        ey - sy
    } else {
        sy - ey
    };
    let mut fy: isize = dy / 2;
    let ghost k: int = 0;
    let ghost steps: int = 0;
    proof {
        run_starts(dy as int, dx as int);
    }
    while (dir == 1 && x <= ex) || (dir == -1 && x >= ex)
        invariant
            fb.wf(),
            fb.width == old(fb).width,
            fb.height == old(fb).height,
            0 <= sx <= MAX_COORDINATE,
            0 <= sy <= MAX_COORDINATE,
            0 <= ex <= MAX_COORDINATE,
            0 <= ey <= MAX_COORDINATE,
            fb.width >= 1,
            fb.height >= 1,
            run_of(sx as int, sy as int, ex as int, ey as int) == Run::Wide,
            dir == toward(sx as int, ex as int),
            change == toward(sy as int, ey as int),
            dx == span(sx as int, ex as int),
            dy == span(sy as int, ey as int),
            0 <= k <= dx + 1,
            (dir == 1 && x == sx + k) || (dir == -1 && x == sx - k),
            (change == 1 && wy == sy + steps) || (change == -1 && wy == sy - steps),
            0 <= steps <= dy + 1,
            run_state(dy as int, dx as int, k, steps, fy as int),
            fb.frame_buffer@ == painted(
                *old(fb),
                sx as int,
                sy as int,
                ex as int,
                ey as int,
                k as nat,
            ),
        decreases dx + 1 - k,
    {
        proof {
            run_counts_steps(dy as int, dx as int, k, steps, fy as int);
            run_goes_on(dy as int, dx as int, k, steps, fy as int);
            assert(toward(sx as int, ex as int) * k == if dir == 1 {
                k
            } else {
                -k
            }) by (nonlinear_arith)
                requires
                    dir == toward(sx as int, ex as int),
            ;
            assert(toward(sy as int, ey as int) * steps == if change == 1 {
                steps
            } else {
                -steps
            }) by (nonlinear_arith)
                requires
                    change == toward(sy as int, ey as int),
            ;
            assert(line_point(sx as int, sy as int, ex as int, ey as int, k) == (x as int, wy as int));
        }
        fb.plot_pixel(x as usize, wy as usize, WHITE, WHITE, WHITE);
        x += dir;
        fy += dy;
        if fy > dx {
            wy += change;
            fy -= dx;
            proof {
                steps = steps + 1;
            }
        }
        proof {
            k = k + 1;
        }
    }
}

/// Draws a line that has a pixel in every row from `sy` to `ey`.
fn draw_y_line(fb: &mut FrameBuffer, sx: isize, sy: isize, ex: isize, ey: isize)
    requires
        old(fb).wf(),
        old(fb).width >= 1,
        old(fb).height >= 1,
        0 <= sx <= MAX_COORDINATE,
        0 <= sy <= MAX_COORDINATE,
        0 <= ex <= MAX_COORDINATE,
        0 <= ey <= MAX_COORDINATE,
        run_of(sx as int, sy as int, ex as int, ey as int) == Run::Tall,
    ensures
        final(fb).width == old(fb).width,
        final(fb).height == old(fb).height,
        final(fb).frame_buffer@ == painted(
            *old(fb),
            sx as int,
            sy as int,
            ex as int,
            ey as int,
            line_length(sx as int, sy as int, ex as int, ey as int),
        ),
{
    let dir: isize = if sy > ey {
        -1
    } else {
        1
    };
    let change: isize = if sx > ex {
        -1
    } else {
        1
    };
    let mut wx: isize = sx;
    let mut y: isize = sy;
    let dx: isize = if ex > sx {
        ex - sx
    } else {
        sx - ex
    };
    let dy: isize = if ey > sy {
        ey - sy
    } else {
        sy - ey
    };
    let mut fx: isize = dx / 2;
    let ghost k: int = 0;
    let ghost steps: int = 0;
    proof {
        run_starts(dx as int, dy as int);
    }
    while (dir == 1 && y <= ey) || (dir == -1 && y >= ey)
        invariant
            fb.wf(),
            fb.width == old(fb).width,
            fb.height == old(fb).height,
            0 <= sx <= MAX_COORDINATE,
            0 <= sy <= MAX_COORDINATE,
            0 <= ex <= MAX_COORDINATE,
            0 <= ey <= MAX_COORDINATE,
            fb.width >= 1,
            fb.height >= 1,
            run_of(sx as int, sy as int, ex as int, ey as int) == Run::Tall,
            dir == toward(sy as int, ey as int),
            change == toward(sx as int, ex as int),
            dx == span(sx as int, ex as int),
            dy == span(sy as int, ey as int),
            0 <= k <= dy + 1,
            (dir == 1 && y == sy + k) || (dir == -1 && y == sy - k),
            (change == 1 && wx == sx + steps) || (change == -1 && wx == sx - steps),
            0 <= steps <= dx + 1,
            run_state(dx as int, dy as int, k, steps, fx as int),
            fb.frame_buffer@ == painted(
                *old(fb),
                sx as int,
                sy as int,
                ex as int,
                ey as int,
                k as nat,
            ),
        decreases dy + 1 - k,
    {
        proof {
            run_counts_steps(dx as int, dy as int, k, steps, fx as int);
            run_goes_on(dx as int, dy as int, k, steps, fx as int);
            assert(toward(sy as int, ey as int) * k == if dir == 1 {
                k
            } else {
                -k
            }) by (nonlinear_arith)
                requires
                    dir == toward(sy as int, ey as int),
            ;
            assert(toward(sx as int, ex as int) * steps == if change == 1 {
                steps
            } else {
                -steps
            }) by (nonlinear_arith)
                requires
                    change == toward(sx as int, ex as int),
            ;
            assert(line_point(sx as int, sy as int, ex as int, ey as int, k) == (wx as int, y as int));
        }
        fb.plot_pixel(wx as usize, y as usize, WHITE, WHITE, WHITE);
        y += dir;
        fx += dx;
        if fx > dy {
            wx += change;
            fx -= dy;
            proof {
                steps = steps + 1;
            }
        }
        proof {
            k = k + 1;
        }
    }
}

/// Draws the line from (`sx`, `sy`) to (`ex`, `ey`) in white. The line has
/// one pixel in every column, or in every row if it spans more rows than
/// columns, and moves along the other axis as the spans' ratio asks. End
/// points that are the same or next to each other give the start alone.
pub fn draw_line(fb: &mut FrameBuffer, sx: usize, sy: usize, ex: usize, ey: usize)
    requires
        old(fb).wf(),
        old(fb).width >= 1,
        old(fb).height >= 1,
        sx <= MAX_COORDINATE,
        sy <= MAX_COORDINATE,
        ex <= MAX_COORDINATE,
        ey <= MAX_COORDINATE,
    ensures
        final(fb).width == old(fb).width,
        final(fb).height == old(fb).height,
        final(fb).frame_buffer@ == painted(
            *old(fb),
            sx as int,
            sy as int,
            ex as int,
            ey as int,
            line_length(sx as int, sy as int, ex as int, ey as int),
        ),
{
    let dx: usize = if ex == sx {
        0
    } else if ex > sx {
        ex - sx - 1
    } else {
        sx - ex - 1
    };
    let dy: usize = if ey == sy {
        0
    } else if ey > sy {
        ey - sy - 1
    } else {
        sy - ey - 1
    };
    if (dx == 0) && (dy == 0) {
        proof {
            reveal_with_fuel(painted, 2);
        }
        fb.plot_pixel(sx, sy, WHITE, WHITE, WHITE);
    } else if dx >= dy {
        draw_x_line(fb, sx as isize, sy as isize, ex as isize, ey as isize);
    } else {
        draw_y_line(fb, sx as isize, sy as isize, ex as isize, ey as isize);
    }
}

/// Every pixel of a line lies in the box that its end points span, so a
/// line between points of the frame stays in the frame.
pub proof fn line_stays_between_ends(sx: int, sy: int, ex: int, ey: int, k: int)
    requires
        0 <= k < line_length(sx, sy, ex, ey),
    ensures
        sx <= line_point(sx, sy, ex, ey, k).0 <= ex || ex <= line_point(sx, sy, ex, ey, k).0 <= sx,
        sy <= line_point(sx, sy, ex, ey, k).1 <= ey || ey <= line_point(sx, sy, ex, ey, k).1 <= sy,
        line_point(sx, sy, ex, ey, 0) == (sx, sy),
{
    match run_of(sx, sy, ex, ey) {
        Run::Dot => {},
        Run::Wide => {
            side_steps_are_bounded(span(sy, ey), span(sx, ex), k);
            side_steps_are_bounded(span(sy, ey), span(sx, ex), 0);
        },
        Run::Tall => {
            side_steps_are_bounded(span(sx, ex), span(sy, ey), k);
            side_steps_are_bounded(span(sx, ex), span(sy, ey), 0);
        },
    }
}

/// A run never moves farther along its short axis than the short span, and
/// starts without having moved.
pub proof fn side_steps_are_bounded(short: int, long: int, k: int)
    requires
        0 <= short <= long,
        long >= 2,
        0 <= k <= long,
    ensures
        0 <= side_steps(short, long, k) <= short,
        side_steps(short, long, 0) == 0,
{
    let sum = short / 2 + k * short;
    assert(0 * short == 0);
    assert(0 <= k * short <= long * short) by (nonlinear_arith)
        requires
            0 <= k <= long,
            0 <= short,
    ;
    if short / 2 >= 1 {
        assert((short / 2 - 1) / long == 0) by {
            lemma_fundamental_div_mod_converse(short / 2 - 1, long, 0, short / 2 - 1);
        }
    }
    if sum >= 1 {
        let q = (sum - 1) / long;
        let r = (sum - 1) % long;
        assert(sum - 1 == q * long + r && 0 <= r < long) by {
            vstd::arithmetic::div_mod::lemma_fundamental_div_mod(sum - 1, long);
            vstd::arithmetic::div_mod::lemma_mod_pos_bound(sum - 1, long);
            assert(long * q == q * long) by (nonlinear_arith);
        }
        assert(q < short + 1) by (nonlinear_arith)
            requires
                q * long <= sum - 1,
                sum <= short / 2 + long * short,
                short / 2 <= long,
                long > 0,
        ;
        assert(q >= 0) by (nonlinear_arith)
            requires
                q * long + r == sum - 1,
                sum >= 1,
                r < long,
                long > 0,
        ;
    }
}

} // verus!
