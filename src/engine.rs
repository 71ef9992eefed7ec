//! The calls into the `sudoku` crate, each behind a contract that its
//! source supports, and the spec functions those contracts are stated over.

use vstd::prelude::*;
use sudoku::Sudoku;

verus! {

/// Number of cells on a board.
pub const N_CELLS: usize = 81;

/// Every value is a cell value: 0 (empty) or a digit 1 to 9.
pub open spec fn in_range(cells: Seq<u8>) -> bool {
    forall|i: int| 0 <= i < cells.len() ==> cells[i] <= 9
}

/// Row `r` holds digit `d` somewhere.
pub open spec fn row_has(cells: Seq<u8>, r: int, d: u8) -> bool {
    exists|c: int| 0 <= c < 9 && #[trigger] cells[9 * r + c] == d
}

/// Column `c` holds digit `d` somewhere.
pub open spec fn col_has(cells: Seq<u8>, c: int, d: u8) -> bool {
    exists|r: int| 0 <= r < 9 && #[trigger] cells[9 * r + c] == d
}

/// The 3x3 block `b` (numbered row-major) holds digit `d` somewhere.
pub open spec fn block_has(cells: Seq<u8>, b: int, d: u8) -> bool {
    exists|k: int|
        0 <= k < 9 && #[trigger] cells[27 * (b / 3) + 3 * (b % 3) + 9 * (k / 3) + k % 3] == d
}

/// A solved grid: every cell holds a digit 1 to 9, and every row, column and
/// block holds each of the nine digits.
pub open spec fn is_complete_grid(cells: Seq<u8>) -> bool {
    &&& cells.len() == 81
    &&& forall|i: int| 0 <= i < 81 ==> 1 <= #[trigger] cells[i] && cells[i] <= 9
    &&& forall|h: int, d: u8|
        0 <= h < 9 && 1 <= d <= 9 ==> #[trigger] row_has(cells, h, d) && col_has(cells, h, d)
            && block_has(cells, h, d)
}

/// The cells that the line format parser reads from a text, if it accepts it.
pub uninterp spec fn parsed_line(s: Seq<char>) -> Option<Seq<u8>>;

/// The solution that the solver finds for a grid, if it finds one.
pub uninterp spec fn solution_of(cells: Seq<u8>) -> Option<Seq<u8>>;

/// Relies on `Sudoku::from_str_line` and `Sudoku::to_bytes`: the parser is a
/// function of the text, and each cell it produces is 0 or a digit (the slow
/// path maps `'0'..='9'`, `'.'` and `'_'`; the fast path ends in `from_bytes`,
/// which refuses any byte above 9).
#[verifier::external_body]
pub(crate) fn parse_line(line: &str) -> (r: Option<[u8; 81]>)
    ensures
        r.is_some() == parsed_line(line@).is_some(),
        r matches Some(c) ==> c@ == parsed_line(line@)->0 && in_range(c@),
{
    match Sudoku::from_str_line(line) {
        Ok(s) => Some(s.to_bytes()),
        Err(_) => None,
    }
}

/// Relies on `Sudoku::from_bytes` and `Sudoku::to_bytes`: a grid is accepted
/// exactly when every byte is at most 9, and is kept as it was given.
#[verifier::external_body]
pub(crate) fn check_cells(cells: [u8; 81]) -> (r: Option<[u8; 81]>)
    ensures
        r.is_some() == in_range(cells@),
        r matches Some(c) ==> c@ == cells@,
{
    match Sudoku::from_bytes(cells) {
        Ok(s) => Some(s.to_bytes()),
        Err(_) => None,
    }
}

/// Relies on `Sudoku::some_solution`: the solver is a function of the grid.
/// `from_bytes` accepts every grid in range, so the grid reaches the solver
/// unchanged.
#[verifier::external_body]
pub(crate) fn find_solution(cells: [u8; 81]) -> (r: Option<[u8; 81]>)
    requires
        in_range(cells@),
    ensures
        r.is_some() == solution_of(cells@).is_some(),
        r matches Some(s) ==> s@ == solution_of(cells@)->0,
{
    match Sudoku::from_bytes(cells) {
        Ok(s) => s.some_solution().map(Sudoku::to_bytes),
        Err(_) => None,
    }
}

/// Relies on `Sudoku::is_solved`: true exactly when every cell holds a digit
/// 1 to 9 and each of the 27 houses holds all nine digits. `from_bytes`
/// accepts every grid in range.
#[verifier::external_body]
pub(crate) fn grid_is_solved(cells: [u8; 81]) -> (r: bool)
    requires
        in_range(cells@),
    ensures
        r == is_complete_grid(cells@),
{
    match Sudoku::from_bytes(cells) {
        Ok(s) => s.is_solved(),
        Err(_) => false,
    }
}

} // verus!
