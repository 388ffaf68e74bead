//! The console's waveform view: samples drawn as dots of Braille
//! characters, two dots wide and four high per character.

use vstd::prelude::*;

verus! {

/// Points plotted across the view.
pub const DISPLAY_POINTS: usize = 160;

/// Character rows of the view.
pub const CHAR_ROWS: usize = 4;

/// Character columns of the view: two points per character.
pub const CHAR_COLS: usize = 80;

/// Dot rows of the view: four per character row.
pub const SUB_ROWS: usize = 16;

/// How many buffered samples one plotted point stands for: the buffer
/// length over the number of points, at least one.
pub fn viz_stride(len: usize) -> (stride: usize)
    ensures
        stride == if len / DISPLAY_POINTS >= 1 { len / DISPLAY_POINTS } else { 1 },
{
    let s = len / DISPLAY_POINTS;
    if s >= 1 { s } else { 1 }
}

/// The Braille dot bit of a dot in a character: left column from the top
/// 0x01, 0x02, 0x04, 0x40; right column 0x08, 0x10, 0x20, 0x80.
pub open spec fn spec_braille_dot(sub_col: int, dot_row: int) -> u8 {
    if sub_col == 0 {
        if dot_row == 0 {
            0x01
        } else if dot_row == 1 {
            0x02
        } else if dot_row == 2 {
            0x04
        } else if dot_row == 3 {
            0x40
        } else {
            0
        }
    } else if sub_col == 1 {
        if dot_row == 0 {
            0x08
        } else if dot_row == 1 {
            0x10
        } else if dot_row == 2 {
            0x20
        } else if dot_row == 3 {
            0x80
        } else {
            0
        }
    } else {
        0
    }
}

/// The Braille dot bit of a dot in a character (0 outside the 2 x 4 cell).
pub fn braille_dot(sub_col: usize, dot_row: usize) -> (bit: u8)
    ensures
        bit == spec_braille_dot(sub_col as int, dot_row as int),
{
    match (sub_col, dot_row) {
        (0, 0) => 0x01,
        (0, 1) => 0x02,
        (0, 2) => 0x04,
        (0, 3) => 0x40,
        (1, 0) => 0x08,
        (1, 1) => 0x10,
        (1, 2) => 0x20,
        (1, 3) => 0x80,
        _ => 0,
    }
}

/// A point's dot row, kept inside the view.
pub open spec fn clamp_row(r: usize) -> int {
    if r < SUB_ROWS - 1 { r as int } else { SUB_ROWS - 1 }
}

/// The bit that point `i` sets in character row `row` (0 if the point is
/// not plotted or falls in another row).
pub open spec fn point_bit(rows: Seq<usize>, i: int, row: int) -> u8 {
    if 0 <= i < rows.len() && i < DISPLAY_POINTS && clamp_row(rows[i]) / 4 == row {
        spec_braille_dot(i % 2, clamp_row(rows[i]) % 4)
    } else {
        0
    }
}

/// The Braille pattern of the character at (`row`, `col`): the dots of the
/// two points in its column span that fall in its row.
pub open spec fn cell_bits(rows: Seq<usize>, row: int, col: int) -> u8 {
    point_bit(rows, 2 * col, row) | point_bit(rows, 2 * col + 1, row)
}

/// The bits the first `upto` points set in a character.
pub open spec fn cell_bits_upto(rows: Seq<usize>, upto: int, row: int, col: int) -> u8 {
    (if 2 * col < upto { point_bit(rows, 2 * col, row) } else { 0 }) | (if 2 * col + 1 < upto {
        point_bit(rows, 2 * col + 1, row)
    } else {
        0
    })
}

/// Draws the plotted points into Braille patterns: `sub_rows[i]` is the
/// dot row of point `i` from the top (rows past the bottom are drawn on
/// the bottom row; points past the view's width are not drawn). Returns
/// four rows of eighty patterns.
pub fn braille_grid(sub_rows: &Vec<usize>) -> (grid: Vec<Vec<u8>>)
    ensures
        grid@.len() == CHAR_ROWS,
        forall|r: int| 0 <= r < CHAR_ROWS ==> #[trigger] grid@[r]@.len() == CHAR_COLS,
        forall|r: int, c: int|
            0 <= r < CHAR_ROWS && 0 <= c < CHAR_COLS ==> #[trigger] grid@[r]@[c] == cell_bits(
                sub_rows@,
                r,
                c,
            ),
{
    let ghost rows = sub_rows@;
    let mut cells: Vec<u8> = Vec::new();
    let mut k: usize = 0;
    while k < CHAR_ROWS * CHAR_COLS
        invariant
            k <= CHAR_ROWS * CHAR_COLS,
            cells@ == Seq::new(k as nat, |x: int| 0u8),
        decreases CHAR_ROWS * CHAR_COLS - k,
    {
        cells.push(0);
        k = k + 1;
    }
    assert(0u8 | 0u8 == 0u8) by (bit_vector);
    let n = if sub_rows.len() < DISPLAY_POINTS { sub_rows.len() } else { DISPLAY_POINTS };
    let mut i: usize = 0;
    while i < n
        invariant
            i <= n,
            n <= DISPLAY_POINTS,
            n <= rows.len(),
            rows == sub_rows@,
            cells@.len() == CHAR_ROWS * CHAR_COLS,
            forall|r: int, c: int|
                0 <= r < CHAR_ROWS && 0 <= c < CHAR_COLS ==> #[trigger] cells@[r * 80 + c]
                    == cell_bits_upto(rows, i as int, r, c),
        decreases n - i,
    {
        let raw = sub_rows[i];
        let sub_row = if raw < SUB_ROWS - 1 { raw } else { SUB_ROWS - 1 };
        let col = i / 2;
        let sub_col = i % 2;
        let char_row = sub_row / 4;
        let dot_row = sub_row % 4;
        let bit = braille_dot(sub_col, dot_row);
        let at = char_row * CHAR_COLS + col;
        let old_cell = cells[at];
        cells.set(at, old_cell | bit);
        proof {
            assert forall|r: int, c: int|
                0 <= r < CHAR_ROWS && 0 <= c < CHAR_COLS implies #[trigger] cells@[r * 80 + c]
                    == cell_bits_upto(rows, i + 1, r, c) by {
                let a = point_bit(rows, 2 * c, r);
                let b = point_bit(rows, 2 * c + 1, r);
                assert(r * 80 + c == at ==> r == char_row && c == col);
                if c == col {
                    if i % 2 == 0 {
                        assert(2 * c == i);
                        if r == char_row {
                            assert(a == bit);
                            assert((0u8 | 0u8) | a == a | 0u8) by (bit_vector);
                        } else {
                            assert(a == 0);
                        }
                    } else {
                        assert(2 * c + 1 == i);
                        if r == char_row {
                            assert(b == bit);
                            assert((a | 0u8) | b == a | b) by (bit_vector);
                        } else {
                            assert(b == 0);
                        }
                    }
                }
            }
        }
        i = i + 1;
    }
    let mut grid: Vec<Vec<u8>> = Vec::new();
    let mut r: usize = 0;
    while r < CHAR_ROWS
        invariant
            r <= CHAR_ROWS,
            n <= rows.len(),
            rows == sub_rows@,
            cells@.len() == CHAR_ROWS * CHAR_COLS,
            grid@.len() == r,
            forall|q: int| 0 <= q < r ==> #[trigger] grid@[q]@.len() == CHAR_COLS,
            forall|q: int, c: int|
                0 <= q < r && 0 <= c < CHAR_COLS ==> #[trigger] grid@[q]@[c] == cells@[q * 80 + c],
        decreases CHAR_ROWS - r,
    {
        let mut line: Vec<u8> = Vec::new();
        let mut c: usize = 0;
        while c < CHAR_COLS
            invariant
                c <= CHAR_COLS,
                r < CHAR_ROWS,
                cells@.len() == CHAR_ROWS * CHAR_COLS,
                line@.len() == c,
                forall|x: int| 0 <= x < c ==> #[trigger] line@[x] == cells@[r * 80 + x],
            decreases CHAR_COLS - c,
        {
            line.push(cells[r * CHAR_COLS + c]);
            c = c + 1;
        }
        grid.push(line);
        r = r + 1;
    }
    proof {
        assert forall|q: int, c: int|
            0 <= q < CHAR_ROWS && 0 <= c < CHAR_COLS implies #[trigger] grid@[q]@[c] == cell_bits(
                rows,
                q,
                c,
            ) by {
            let a = point_bit(rows, 2 * c, q);
            let b = point_bit(rows, 2 * c + 1, q);
            assert(cells@[q * 80 + c] == cell_bits_upto(rows, n as int, q, c));
            if n < DISPLAY_POINTS {
                if 2 * c >= n as int {
                    assert(a == 0);
                }
                if 2 * c + 1 >= n as int {
                    assert(b == 0);
                }
            }
        }
    }
    grid
}

} // verus!
