//! From a logical frame to the order in which the wired strip takes its pixels.
//!
//! A matrix is one LED strip laid out in lines. The lines are the rows of the
//! matrix (`WiringAxis::Rows`, the default) or its columns
//! (`WiringAxis::Columns`); which of the two is a property of the hardware and
//! is always given, never guessed. On a serpentine matrix the strip turns
//! round at the end of each line, so every second line (the lines with an odd
//! index, counted from zero) runs backwards.

use vstd::prelude::*;
use vstd::arithmetic::div_mod::{lemma_fundamental_div_mod, lemma_fundamental_div_mod_converse};
use crate::config::MatrixConfiguration;
use crate::update::{grid_view, Pixel};

verus! {

/// The direction in which the strip's lines run across the matrix.
#[derive(Clone, Copy, Debug, PartialEq, Eq, Structural)]
pub enum WiringAxis {
    /// Each row is one line of the strip; row 0 comes first.
    Rows,
    /// Each column is one line of the strip; column 0 comes first.
    Columns,
}

impl Default for WiringAxis {
    /// Rows, unless the hardware is known to be wired otherwise.
    fn default() -> (axis: Self)
        ensures
            axis == WiringAxis::Rows,
    {
        WiringAxis::Rows
    }
}

/// Why a frame was turned away.
#[derive(Clone, Copy, Debug, PartialEq, Eq, Structural)]
pub enum FrameError {
    /// The frame does not have as many rows as the matrix is high.
    RowCount { expected: usize, actual: usize },
    /// Row `row` is the first that is not as long as the matrix is wide.
    RowLength { row: usize, expected: usize, actual: usize },
}

/// How the strip runs through a matrix: all that the mapping depends on.
#[derive(Clone, Copy, Debug, PartialEq, Eq, Structural)]
pub struct Wiring {
    /// Width of the matrix, in number of LEDs.
    pub width: usize,
    /// Height of the matrix, in number of LEDs.
    pub height: usize,
    /// Whether every second line runs backwards.
    pub serpentine: bool,
    /// Whether the lines are rows or columns.
    pub axis: WiringAxis,
}

/// Whether every row of `grid` holds `width` pixels.
pub open spec fn rows_have_width(grid: Seq<Seq<Pixel>>, width: int) -> bool {
    forall|r: int| 0 <= r < grid.len() ==> (#[trigger] grid[r]).len() == width
}

/// Whether `row` is the first row of `grid` that does not hold `width` pixels.
pub open spec fn is_first_mismatched_row(grid: Seq<Seq<Pixel>>, width: int, row: int) -> bool {
    &&& 0 <= row < grid.len()
    &&& grid[row].len() != width
    &&& forall|r: int| 0 <= r < row ==> (#[trigger] grid[r]).len() == width
}

impl Wiring {
    /// Number of LEDs on one line of the strip.
    pub open spec fn line_len(&self) -> int {
        match self.axis {
            WiringAxis::Rows => self.width as int,
            WiringAxis::Columns => self.height as int,
        }
    }

    /// Number of lines that the strip is laid out in.
    pub open spec fn line_count(&self) -> int {
        match self.axis {
            WiringAxis::Rows => self.height as int,
            WiringAxis::Columns => self.width as int,
        }
    }

    /// Number of LEDs on the strip.
    pub open spec fn pixel_count(&self) -> int {
        self.width * self.height
    }

    /// Whether `(row, col)` names an LED of the matrix.
    pub open spec fn in_bounds(&self, row: int, col: int) -> bool {
        0 <= row < self.height && 0 <= col < self.width
    }

    /// Whether line `line` runs backwards.
    pub open spec fn runs_backwards(&self, line: int) -> bool {
        self.serpentine && line % 2 == 1
    }

    /// Position on the strip of the LED at logical position `(row, col)`:
    /// the LEDs of all earlier lines come first, then those that the strip
    /// reaches earlier on the LED's own line.
    pub open spec fn physical_index(&self, row: int, col: int) -> int {
        let (line, offset) = match self.axis {
            WiringAxis::Rows => (row, col),
            WiringAxis::Columns => (col, row),
        };
        if self.runs_backwards(line) {
            line * self.line_len() + (self.line_len() - 1 - offset)
        } else {
            line * self.line_len() + offset
        }
    }

    /// Logical position `(row, col)` of the LED at position `index` on the
    /// strip.
    pub open spec fn logical_position(&self, index: int) -> (int, int) {
        let line = index / self.line_len();
        let reached = index % self.line_len();
        let offset = if self.runs_backwards(line) {
            self.line_len() - 1 - reached
        } else {
            reached
        };
        match self.axis {
            WiringAxis::Rows => (line, offset),
            WiringAxis::Columns => (offset, line),
        }
    }

    /// Whether `grid` has the matrix's height and each of its rows the
    /// matrix's width.
    pub open spec fn frame_matches(&self, grid: Seq<Seq<Pixel>>) -> bool {
        grid.len() == self.height && rows_have_width(grid, self.width as int)
    }

    /// What is wrong with `grid` as a frame for this matrix, if anything: a
    /// wrong number of rows is reported before a row of the wrong length, and
    /// of such rows the first.
    pub open spec fn frame_violation(&self, grid: Seq<Seq<Pixel>>) -> Option<FrameError> {
        if grid.len() != self.height {
            Some(FrameError::RowCount { expected: self.height, actual: grid.len() as usize })
        } else if rows_have_width(grid, self.width as int) {
            None
        } else {
            let row = choose|row: int| is_first_mismatched_row(grid, self.width as int, row);
            Some(
                FrameError::RowLength {
                    row: row as usize,
                    expected: self.width,
                    actual: grid[row].len() as usize,
                },
            )
        }
    }

    /// The pixels of `grid` in the order in which the strip takes them.
    pub open spec fn physical_order(&self, grid: Seq<Seq<Pixel>>) -> Seq<Pixel> {
        Seq::new(
            self.pixel_count() as nat,
            |index: int|
                {
                    let (row, col) = self.logical_position(index);
                    grid[row][col]
                },
        )
    }

    /// The pixels of `grid` that lie on line `line`, in reading order: from
    /// left to right along a row, from top to bottom along a column.
    pub open spec fn line_pixels(&self, grid: Seq<Seq<Pixel>>, line: int) -> Seq<Pixel> {
        match self.axis {
            WiringAxis::Rows => grid[line],
            WiringAxis::Columns => Seq::new(self.height as nat, |row: int| grid[row][line]),
        }
    }

    /// Place on the strip of the LED that comes `index`-th when the matrix
    /// is read row by row, each row from left to right.
    pub open spec fn strip_place(&self, index: int) -> int {
        self.physical_index(index / (self.width as int), index % (self.width as int))
    }

    /// What mapping `grid` gives: its pixels in strip order, or the reason
    /// why it is no frame for this matrix.
    pub open spec fn mapped(&self, grid: Seq<Seq<Pixel>>) -> Result<Seq<Pixel>, FrameError> {
        match self.frame_violation(grid) {
            Some(error) => Err(error),
            None => Ok(self.physical_order(grid)),
        }
    }

    /// The wiring of the matrix that `config` describes, with its lines
    /// along `axis`.
    pub fn new(config: &MatrixConfiguration, axis: WiringAxis) -> (wiring: Wiring)
        ensures
            wiring == (Wiring {
                width: config.width,
                height: config.height,
                serpentine: config.serpentine,
                axis,
            }),
    {
        Wiring { width: config.width, height: config.height, serpentine: config.serpentine, axis }
    }

    /// Place on the strip of the LED at `(row, col)`; `None` when the matrix
    /// has no such LED, or when the place is beyond what `usize` can hold.
    pub fn index_of(&self, row: usize, col: usize) -> (index: Option<usize>)
        ensures
            match index {
                Some(i) => self.in_bounds(row as int, col as int) && i == self.physical_index(
                    row as int,
                    col as int,
                ),
                None => !self.in_bounds(row as int, col as int) || self.physical_index(
                    row as int,
                    col as int,
                ) > usize::MAX,
            },
    {
        if row >= self.height || col >= self.width {
            return None;
        }
        let (line_len, line, offset) = match self.axis {
            WiringAxis::Rows => (self.width, row, col),
            WiringAxis::Columns => (self.height, col, row),
        };
        let reached = if self.serpentine && line % 2 == 1 {
            line_len - 1 - offset
        } else {
            offset
        };
        match line.checked_mul(line_len) {
            Some(start) => start.checked_add(reached),
            None => None,
        }
    }

    /// Logical position `(row, col)` of the LED at place `index` on the
    /// strip; `None` when the strip is shorter than that.
    pub fn position_of(&self, index: usize) -> (position: Option<(usize, usize)>)
        ensures
            match position {
                Some((row, col)) => index < self.pixel_count() && (row as int, col as int)
                    == self.logical_position(index as int),
                None => index >= self.pixel_count(),
            },
    {
        let (line_len, line_count) = match self.axis {
            WiringAxis::Rows => (self.width, self.height),
            WiringAxis::Columns => (self.height, self.width),
        };
        proof {
            self.lemma_lines_cover_strip();
        }
        if line_len == 0 {
            assert(self.pixel_count() == 0) by (nonlinear_arith)
                requires
                    self.line_count() * self.line_len() == self.pixel_count(),
                    self.line_len() == 0,
            ;
            return None;
        }
        let line = index / line_len;
        let reached = index % line_len;
        if line >= line_count {
            proof {
                if index < self.pixel_count() {
                    lemma_line_join(line_len as int, line_count as int, index as int);
                }
            }
            return None;
        }
        proof {
            lemma_fundamental_div_mod(index as int, line_len as int);
            lemma_line_split(line_len as int, line_count as int, line as int, reached as int);
        }
        let offset = if self.serpentine && line % 2 == 1 {
            line_len - 1 - reached
        } else {
            reached
        };
        match self.axis {
            WiringAxis::Rows => Some((line, offset)),
            WiringAxis::Columns => Some((offset, line)),
        }
    }

    /// Tells whether `frame` has the matrix's dimensions, and if not, what is
    /// wrong with it.
    pub fn validate_frame(&self, frame: &Vec<Vec<Pixel>>) -> (result: Result<(), FrameError>)
        ensures
            match result {
                Ok(()) => self.frame_violation(grid_view(frame@)) is None,
                Err(error) => self.frame_violation(grid_view(frame@)) == Some(error),
            },
    {
        let ghost grid = grid_view(frame@);
        if frame.len() != self.height {
            return Err(FrameError::RowCount { expected: self.height, actual: frame.len() });
        }
        let mut row: usize = 0;
        while row < frame.len()
            invariant
                row <= frame.len(),
                frame.len() == self.height,
                grid == grid_view(frame@),
                forall|r: int| 0 <= r < row ==> (#[trigger] grid[r]).len() == self.width,
            decreases frame.len() - row,
        {
            let actual = frame[row].len();
            if actual != self.width {
                proof {
                    self.lemma_row_length_violation(grid, row as int);
                }
                return Err(FrameError::RowLength { row, expected: self.width, actual });
            }
            row += 1;
        }
        Ok(())
    }

    /// Maps a frame to the sequence of pixels that the strip takes.
    ///
    /// A frame that has not exactly the matrix's dimensions is turned away
    /// whole: nothing is cut off and nothing is filled in.
    pub fn map_frame(&self, frame: &Vec<Vec<Pixel>>) -> (result: Result<Vec<Pixel>, FrameError>)
        ensures
            match result {
                Ok(buffer) => self.mapped(grid_view(frame@)) == Ok::<Seq<Pixel>, FrameError>(
                    buffer@,
                ),
                Err(error) => self.mapped(grid_view(frame@)) == Err::<Seq<Pixel>, FrameError>(
                    error,
                ),
            },
    {
        let ghost grid = grid_view(frame@);
        match self.validate_frame(frame) {
            Err(error) => {
                return Err(error);
            },
            Ok(()) => {},
        }
        let (line_len, line_count) = match self.axis {
            WiringAxis::Rows => (self.width, self.height),
            WiringAxis::Columns => (self.height, self.width),
        };
        proof {
            self.lemma_lines_cover_strip();
        }
        let mut buffer: Vec<Pixel> = Vec::new();
        let mut line: usize = 0;
        while line < line_count
            invariant
                line <= line_count,
                line_len == self.line_len(),
                line_count == self.line_count(),
                line_count * line_len == self.pixel_count(),
                grid == grid_view(frame@),
                self.frame_matches(grid),
                buffer@.len() == line * line_len,
                forall|i: int|
                    0 <= i < buffer@.len() ==> buffer@[i] == #[trigger] self.physical_order(
                        grid,
                    )[i],
            decreases line_count - line,
        {
            let backwards = self.serpentine && line % 2 == 1;
            let mut reached: usize = 0;
            while reached < line_len
                invariant
                    line < line_count,
                    reached <= line_len,
                    line_len == self.line_len(),
                    line_count == self.line_count(),
                    line_count * line_len == self.pixel_count(),
                    backwards == self.runs_backwards(line as int),
                    grid == grid_view(frame@),
                    self.frame_matches(grid),
                    buffer@.len() == line * line_len + reached,
                    forall|i: int|
                        0 <= i < buffer@.len() ==> buffer@[i] == #[trigger] self.physical_order(
                            grid,
                        )[i],
                decreases line_len - reached,
            {
                let offset = if backwards {
                    line_len - 1 - reached
                } else {
                    reached
                };
                proof {
                    lemma_line_split(
                        line_len as int,
                        line_count as int,
                        line as int,
                        reached as int,
                    );
                }
                let pixel = match self.axis {
                    WiringAxis::Rows => {
                        assert(grid[line as int].len() == self.width);
                        frame[line][offset]
                    },
                    WiringAxis::Columns => {
                        assert(grid[offset as int].len() == self.width);
                        frame[offset][line]
                    },
                };
                buffer.push(pixel);
                reached += 1;
            }
            assert((line + 1) * line_len == line * line_len + line_len) by (nonlinear_arith);
            line += 1;
        }
        assert(buffer@ =~= self.physical_order(grid));
        Ok(buffer)
    }
}

/// An LED's place on the strip, from its line and the place it has there.
proof fn lemma_line_split(len: int, count: int, line: int, reached: int)
    requires
        0 <= line < count,
        0 <= reached < len,
    ensures
        0 <= line * len + reached < count * len,
        (line * len + reached) / len == line,
        (line * len + reached) % len == reached,
{
    assert(0 <= line * len && (line + 1) * len <= count * len) by (nonlinear_arith)
        requires
            0 <= line < count,
            0 < len,
    ;
    assert((line + 1) * len == line * len + len) by (nonlinear_arith);
    lemma_fundamental_div_mod_converse(line * len + reached, len, line, reached);
}

/// An LED's line and its place there, from its place on the strip.
proof fn lemma_line_join(len: int, count: int, index: int)
    requires
        0 <= len,
        0 <= index < count * len,
    ensures
        0 < len,
        0 <= index / len < count,
        0 <= index % len < len,
        index == (index / len) * len + index % len,
{
    assert(len != 0) by (nonlinear_arith)
        requires
            0 <= index < count * len,
    ;
    lemma_fundamental_div_mod(index, len);
    let line = index / len;
    assert(0 <= line < count) by (nonlinear_arith)
        requires
            0 < len,
            0 <= index < count * len,
            index == line * len + index % len,
            0 <= index % len < len,
    ;
}

impl Wiring {
    /// The strip has as many LEDs as its lines hold together.
    pub proof fn lemma_lines_cover_strip(&self)
        ensures
            self.line_count() * self.line_len() == self.pixel_count(),
            0 <= self.line_len(),
            0 <= self.line_count(),
    {
        assert(self.width * self.height == self.height * self.width) by (nonlinear_arith);
    }

    /// Going from an LED to its place on the strip and back gives the LED.
    pub proof fn lemma_position_of_index(&self, row: int, col: int)
        requires
            self.in_bounds(row, col),
        ensures
            0 <= self.physical_index(row, col) < self.pixel_count(),
            self.logical_position(self.physical_index(row, col)) == (row, col),
    {
        self.lemma_lines_cover_strip();
        let (line, offset) = match self.axis {
            WiringAxis::Rows => (row, col),
            WiringAxis::Columns => (col, row),
        };
        let reached = if self.runs_backwards(line) {
            self.line_len() - 1 - offset
        } else {
            offset
        };
        lemma_line_split(self.line_len(), self.line_count(), line, reached);
    }

    /// Going from a place on the strip to its LED and back gives the place.
    pub proof fn lemma_index_of_position(&self, index: int)
        requires
            0 <= index < self.pixel_count(),
        ensures
            self.in_bounds(self.logical_position(index).0, self.logical_position(index).1),
            self.physical_index(self.logical_position(index).0, self.logical_position(index).1)
                == index,
    {
        self.lemma_lines_cover_strip();
        lemma_line_join(self.line_len(), self.line_count(), index);
    }

    /// No two LEDs share a place on the strip.
    pub proof fn lemma_index_injective(&self, row1: int, col1: int, row2: int, col2: int)
        requires
            self.in_bounds(row1, col1),
            self.in_bounds(row2, col2),
            self.physical_index(row1, col1) == self.physical_index(row2, col2),
        ensures
            row1 == row2,
            col1 == col2,
    {
        self.lemma_position_of_index(row1, col1);
        self.lemma_position_of_index(row2, col2);
    }

    /// Every place on the strip is the place of some LED of the matrix.
    pub proof fn lemma_index_surjective(&self, index: int)
        requires
            0 <= index < self.pixel_count(),
        ensures
            exists|row: int, col: int|
                self.in_bounds(row, col) && #[trigger] self.physical_index(row, col) == index,
    {
        self.lemma_index_of_position(index);
        let (row, col) = self.logical_position(index);
        assert(self.in_bounds(row, col) && self.physical_index(row, col) == index);
    }

    /// A frame is mapped exactly when it has the matrix's dimensions, and is
    /// turned away otherwise. What comes out holds one pixel for each LED.
    pub proof fn lemma_mapped_iff_frame_matches(&self, grid: Seq<Seq<Pixel>>)
        ensures
            self.mapped(grid) is Ok <==> self.frame_matches(grid),
            self.frame_matches(grid) ==> self.mapped(grid) == Ok::<Seq<Pixel>, FrameError>(
                self.physical_order(grid),
            ),
            self.physical_order(grid).len() == self.width * self.height,
    {
    }

    /// A frame with the wrong number of rows is turned away for that,
    /// whatever its rows hold.
    pub proof fn lemma_row_count_violation(&self, grid: Seq<Seq<Pixel>>)
        requires
            grid.len() != self.height,
        ensures
            self.mapped(grid) == Err::<Seq<Pixel>, FrameError>(
                FrameError::RowCount { expected: self.height, actual: grid.len() as usize },
            ),
    {
    }

    /// A frame with the right number of rows is turned away for the first
    /// of its rows that has the wrong length.
    pub proof fn lemma_row_length_violation(&self, grid: Seq<Seq<Pixel>>, row: int)
        requires
            grid.len() == self.height,
            is_first_mismatched_row(grid, self.width as int, row),
        ensures
            self.mapped(grid) == Err::<Seq<Pixel>, FrameError>(
                FrameError::RowLength {
                    row: row as usize,
                    expected: self.width,
                    actual: grid[row].len() as usize,
                },
            ),
    {
        let width = self.width as int;
        let chosen = choose|r: int| is_first_mismatched_row(grid, width, r);
        assert(is_first_mismatched_row(grid, width, chosen));
        assert(chosen == row);
    }

    /// In a mapped frame every pixel sits at its LED's place on the strip.
    pub proof fn lemma_mapped_pixel(&self, grid: Seq<Seq<Pixel>>, row: int, col: int)
        requires
            self.frame_matches(grid),
            self.in_bounds(row, col),
        ensures
            0 <= self.physical_index(row, col) < self.physical_order(grid).len(),
            self.physical_order(grid)[self.physical_index(row, col)] == grid[row][col],
    {
        self.lemma_position_of_index(row, col);
    }

    /// On a strip laid out in rows that all run forwards, every LED keeps
    /// the place it has in reading order.
    pub proof fn lemma_straight_rows_keep_reading_order(&self, index: int)
        requires
            self.axis == WiringAxis::Rows,
            !self.serpentine,
            0 <= index < self.pixel_count(),
        ensures
            self.strip_place(index) == index,
            self.strip_place(self.strip_place(index)) == index,
    {
        self.lemma_lines_cover_strip();
        lemma_line_join(self.line_len(), self.line_count(), index);
    }

    /// On a strip laid out in rows, serpentine or not, moving every LED to
    /// its place on the strip twice over puts each back where it was.
    pub proof fn lemma_row_wiring_twice_is_identity(&self, index: int)
        requires
            self.axis == WiringAxis::Rows,
            0 <= index < self.pixel_count(),
        ensures
            0 <= self.strip_place(index) < self.pixel_count(),
            self.strip_place(self.strip_place(index)) == index,
    {
        self.lemma_lines_cover_strip();
        let len = self.line_len();
        lemma_line_join(len, self.line_count(), index);
        let line = index / len;
        let reached = index % len;
        let turned = if self.runs_backwards(line) {
            len - 1 - reached
        } else {
            reached
        };
        lemma_line_split(len, self.line_count(), line, turned);
    }

    /// The strip takes the matrix line by line: a line that runs forwards
    /// as it is read, a line that runs backwards in reverse. On a serpentine
    /// matrix wired in rows, the even rows are thus unchanged and the odd
    /// rows reversed.
    pub proof fn lemma_line_segment(&self, grid: Seq<Seq<Pixel>>, line: int)
        requires
            self.frame_matches(grid),
            0 <= line < self.line_count(),
        ensures
            0 <= line * self.line_len() <= (line + 1) * self.line_len() <= self.pixel_count(),
            self.physical_order(grid).subrange(
                line * self.line_len(),
                (line + 1) * self.line_len(),
            ) == (if self.runs_backwards(line) {
                self.line_pixels(grid, line).reverse()
            } else {
                self.line_pixels(grid, line)
            }),
    {
        self.lemma_lines_cover_strip();
        let len = self.line_len();
        let count = self.line_count();
        let start = line * len;
        assert((line + 1) * len == start + len) by (nonlinear_arith)
            requires
                start == line * len,
        ;
        assert(0 <= start && start + len <= count * len) by (nonlinear_arith)
            requires
                start == line * len,
                0 <= line < count,
                0 <= len,
        ;
        let segment = self.physical_order(grid).subrange(start, start + len);
        let pixels = self.line_pixels(grid, line);
        let expected = if self.runs_backwards(line) {
            pixels.reverse()
        } else {
            pixels
        };
        assert forall|k: int| 0 <= k < len implies segment[k] == expected[k] by {
            lemma_line_split(len, count, line, k);
            let offset = if self.runs_backwards(line) {
                len - 1 - k
            } else {
                k
            };
            assert(self.logical_position(start + k) == match self.axis {
                WiringAxis::Rows => (line, offset),
                WiringAxis::Columns => (offset, line),
            });
            assert(pixels[offset] == match self.axis {
                WiringAxis::Rows => grid[line][offset],
                WiringAxis::Columns => grid[offset][line],
            });
        }
    }
}

} // verus!
