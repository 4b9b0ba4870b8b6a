//! Grid spritesheets and frame playback. A sheet slices a texture into equal
//! cells laid out row-major from the top-left corner; frames beyond the grid
//! wrap around. A playback walks a fixed list of frames, wrapping when it
//! loops and holding the last frame otherwise.

use vstd::prelude::*;
use vstd::arithmetic::div_mod::{lemma_fundamental_div_mod, lemma_fundamental_div_mod_converse};

verus! {

/// A grid dimension as the sheet uses it: at least one cell.
pub open spec fn at_least_one(n: u32) -> int {
    if n == 0 {
        1
    } else {
        n as int
    }
}

/// The (column, row) cell that `frame` occupies in a `cols` x `rows` grid
/// laid out row-major, frames beyond the grid wrapping around.
pub open spec fn grid_cell(cols: int, rows: int, frame: int) -> (int, int) {
    let f = frame % (cols * rows);
    (f % cols, f / cols)
}

/// Cell (column, row) of `frame` inside a sheet laid out as `grid`
/// (columns, rows), row-major from the top-left corner. A zero dimension
/// counts as one cell, and frames beyond the grid wrap around so sampling
/// always stays inside the texture.
pub fn frame_cell(grid: (u32, u32), frame: usize) -> (cell: (usize, usize))
    requires
        at_least_one(grid.0) * at_least_one(grid.1) <= usize::MAX,
    ensures
        (cell.0 as int, cell.1 as int) == grid_cell(
            at_least_one(grid.0),
            at_least_one(grid.1),
            frame as int,
        ),
        cell.0 < at_least_one(grid.0),
        cell.1 < at_least_one(grid.1),
        cell.1 * at_least_one(grid.0) + cell.0 == frame as int % (at_least_one(grid.0)
            * at_least_one(grid.1)),
{
    let cols: usize = if grid.0 == 0 { 1 } else { grid.0 as usize };
    let rows: usize = if grid.1 == 0 { 1 } else { grid.1 as usize };
    assert(cols * rows >= 1) by (nonlinear_arith)
        requires
            cols >= 1,
            rows >= 1,
    ;
    let cells: usize = cols * rows;
    let f = frame % cells;
    proof {
        lemma_cell_bounds(cols as int, rows as int, frame as int);
    }
    (f % cols, f / cols)
}

/// The cell of any frame lies inside the grid, and it is the one whose
/// row-major position is the frame's position modulo the number of cells.
pub proof fn lemma_cell_bounds(cols: int, rows: int, frame: int)
    requires
        cols >= 1,
        rows >= 1,
        frame >= 0,
    ensures
        0 <= grid_cell(cols, rows, frame).0 < cols,
        0 <= grid_cell(cols, rows, frame).1 < rows,
        grid_cell(cols, rows, frame).1 * cols + grid_cell(cols, rows, frame).0 == frame % (cols
            * rows),
{
    let n = cols * rows;
    assert(n >= 1) by (nonlinear_arith)
        requires
            cols >= 1,
            rows >= 1,
            n == cols * rows,
    ;
    let f = frame % n;
    lemma_fundamental_div_mod(frame, n);
    lemma_fundamental_div_mod(f, cols);
    assert(0 <= f < n);
    let c = f % cols;
    let r = f / cols;
    assert(0 <= c < cols);
    assert(r * cols + c == f) by (nonlinear_arith)
        requires
            f == cols * (f / cols) + f % cols,
            r == f / cols,
            c == f % cols,
    ;
    assert(0 <= r < rows) by (nonlinear_arith)
        requires
            r * cols + c == f,
            0 <= c < cols,
            0 <= f < cols * rows,
            cols >= 1,
    ;
}

/// Frames beyond the grid wrap around: a frame and the frame one full sheet
/// later occupy the same cell.
pub proof fn lemma_frames_wrap(cols: int, rows: int, frame: int)
    requires
        cols >= 1,
        rows >= 1,
        frame >= 0,
    ensures
        grid_cell(cols, rows, frame + cols * rows) == grid_cell(cols, rows, frame),
{
    let n = cols * rows;
    assert(n >= 1) by (nonlinear_arith)
        requires
            cols >= 1,
            rows >= 1,
            n == cols * rows,
    ;
    lemma_fundamental_div_mod(frame, n);
    assert(frame + n == (frame / n + 1) * n + frame % n) by (nonlinear_arith)
        requires
            frame == n * (frame / n) + frame % n,
    ;
    lemma_fundamental_div_mod_converse(frame + n, n, frame / n + 1, frame % n);
}

/// The frame a playback shows after one frame duration: the next one, or
/// back to the first when looping past the end, or the last one held.
pub open spec fn next_index(frames: int, frame: int, looping: bool) -> int {
    if frame + 1 < frames {
        frame + 1
    } else if looping {
        0
    } else {
        frame
    }
}

/// The frame a playback shows after `n` frame durations.
pub open spec fn index_after(frames: int, frame: int, looping: bool, n: nat) -> int
    decreases n,
{
    if n == 0 {
        frame
    } else {
        next_index(frames, index_after(frames, frame, looping, (n - 1) as nat), looping)
    }
}

/// Time-independent part of an animation: which of `frames` frames is
/// active, and whether playback wraps after the last frame.
#[derive(Debug, Clone, Copy)]
pub struct Playback {
    /// Number of frames in the playback sequence.
    pub frames: usize,
    /// Active frame index.
    pub frame: usize,
    /// Whether playback wraps to frame 0 after the last frame.
    pub looping: bool,
}

impl Playback {
    /// A playback of `frames` frames starting at frame 0.
    pub fn new(frames: usize, looping: bool) -> (p: Self)
        ensures
            p.frames == frames,
            p.frame == 0,
            p.looping == looping,
    {
        Playback { frames, frame: 0, looping }
    }

    /// Moves to the next frame, wrapping if looping or holding the last
    /// frame otherwise.
    pub fn advance(&mut self)
        requires
            old(self).frame < usize::MAX,
        ensures
            final(self).frame == next_index(
                old(self).frames as int,
                old(self).frame as int,
                old(self).looping,
            ),
            final(self).frames == old(self).frames,
            final(self).looping == old(self).looping,
            old(self).frame + 1 < old(self).frames ==> final(self).frame == old(self).frame + 1,
            old(self).frame + 1 >= old(self).frames && old(self).looping ==> final(self).frame == 0,
            old(self).frame + 1 >= old(self).frames && !old(self).looping ==> final(self).frame
                == old(self).frame,
    {
        let next = self.frame + 1;
        if next < self.frames {
            self.frame = next;
        } else if self.looping {
            self.frame = 0;
        }
    }

    /// Returns the active frame index.
    pub fn current_frame(&self) -> (frame: usize)
        ensures
            frame == self.frame,
    {
        self.frame
    }

    /// Whether a non-looping playback reached its last frame. Looping
    /// playbacks are never finished; an empty one is finished from the start.
    pub fn is_finished(&self) -> (finished: bool)
        ensures
            finished == (!self.looping && self.frame + 1 >= self.frames),
    {
        !self.looping && (self.frames == 0 || self.frame >= self.frames - 1)
    }
}

/// A looping playback over a non-empty sequence shows frame
/// `(start + n) mod frames` after `n` frame durations.
pub proof fn lemma_looping_playback_wraps(frames: int, start: int, n: nat)
    requires
        0 <= start < frames,
    ensures
        index_after(frames, start, true, n) == (start + n) % frames,
    decreases n,
{
    if n == 0 {
        lemma_fundamental_div_mod_converse(start, frames, 0, start);
    } else {
        lemma_looping_playback_wraps(frames, start, (n - 1) as nat);
        let prev = (start + n - 1) % frames;
        lemma_fundamental_div_mod(start + n - 1, frames);
        let q = (start + n - 1) / frames;
        if prev + 1 < frames {
            assert(start + n == q * frames + (prev + 1)) by (nonlinear_arith)
                requires
                    start + n - 1 == frames * q + prev,
            ;
            lemma_fundamental_div_mod_converse(start + n, frames, q, prev + 1);
        } else {
            assert(start + n == (q + 1) * frames) by (nonlinear_arith)
                requires
                    start + n - 1 == frames * q + prev,
                    prev + 1 == frames,
            ;
            lemma_fundamental_div_mod_converse(start + n, frames, q + 1, 0);
        }
    }
}

/// A non-looping playback over a non-empty sequence shows frame
/// `min(start + n, frames - 1)` after `n` frame durations: it walks forward
/// and holds the last frame.
pub proof fn lemma_one_shot_playback_holds_last(frames: int, start: int, n: nat)
    requires
        0 <= start < frames,
    ensures
        index_after(frames, start, false, n) == if start + n < frames - 1 {
            start + n
        } else {
            frames - 1
        },
    decreases n,
{
    if n > 0 {
        lemma_one_shot_playback_holds_last(frames, start, (n - 1) as nat);
    }
}

/// Playback never leaves the sequence: from a frame inside it, every later
/// frame is inside it too.
pub proof fn lemma_playback_stays_in_range(frames: int, start: int, looping: bool, n: nat)
    requires
        0 <= start < frames,
    ensures
        0 <= index_after(frames, start, looping, n) < frames,
    decreases n,
{
    if n > 0 {
        lemma_playback_stays_in_range(frames, start, looping, (n - 1) as nat);
    }
}

} // verus!
