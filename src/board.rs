//! The board: 81 cell values in row-major order, each 0 (empty) or 1 to 9.

use vstd::prelude::*;
use crate::engine::{
    check_cells, find_solution, grid_is_solved, in_range, is_complete_grid, parse_line,
    parsed_line, solution_of,
};

verus! {

broadcast use vstd::array::group_array_axioms;

/// A Sudoku board. Every value it holds is a cell value.
pub struct Board {
    cells: [u8; 81],
}

impl View for Board {
    type V = Seq<u8>;

    closed spec fn view(&self) -> Seq<u8> {
        self.cells@
    }
}

impl Board {
    #[verifier::type_invariant]
    pub closed spec fn inv(&self) -> bool {
        in_range(self.cells@)
    }

    pub(crate) proof fn lemma_inv_in_range(&self)
        requires
            self.inv(),
        ensures
            self@.len() == 81,
            in_range(self@),
    {
    }

    /// Builds a board from a flat array of cell values; `None` when some
    /// value is above 9.
    pub fn from_flat_array(cells: [u8; 81]) -> (r: Option<Board>)
        ensures
            r.is_some() == in_range(cells@),
            r matches Some(b) ==> b@ == cells@,
    {
        match check_cells(cells) {
            Some(c) => Some(Board { cells: c }),
            None => None,
        }
    }

    /// Reads a board in the line format; `None` when the text is refused.
    pub fn parse(line: &str) -> (r: Option<Board>)
        ensures
            r.is_some() == parsed_line(line@).is_some(),
            r matches Some(b) ==> b@ == parsed_line(line@)->0,
    {
        match parse_line(line) {
            Some(c) => Some(Board { cells: c }),
            None => None,
        }
    }

    /// The cell values, row by row.
    pub fn to_flat_array(&self) -> (r: [u8; 81])
        ensures
            r@ == self@,
            r@.len() == 81,
            in_range(r@),
    {
        proof {
            use_type_invariant(self);
        }
        self.cells
    }

    /// The value of one cell.
    pub fn cell(&self, index: usize) -> (r: u8)
        requires
            index < 81,
        ensures
            r == self@[index as int],
            r <= 9,
    {
        proof {
            use_type_invariant(self);
        }
        self.cells[index]
    }

    /// The solved board that the solver finds; `None` when it finds none.
    pub fn solve_step(&self) -> (r: Option<Board>)
        ensures
            r.is_some() == (solution_of(self@) matches Some(s) && in_range(s)),
            r matches Some(b) ==> b@ == solution_of(self@)->0,
    {
        proof {
            use_type_invariant(self);
        }
        match find_solution(self.cells) {
            Some(s) => Board::from_flat_array(s),
            None => None,
        }
    }

    /// Whether the board is completely and correctly filled.
    pub fn is_solved(&self) -> (r: bool)
        ensures
            r == is_complete_grid(self@),
    {
        proof {
            use_type_invariant(self);
        }
        grid_is_solved(self.cells)
    }
}

} // verus!
