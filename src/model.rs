//! The controller: board state plus selection, changed only by messages.

use vstd::prelude::*;
use crate::board::Board;
use crate::engine::{in_range, parsed_line, solution_of};

verus! {

/// The puzzle a game starts from, in line format.
pub const SUDOKU_LINE: &'static str =
    "...2...633....54.1..1..398........9....538....3........263..5..5.37....847...1...";

/// The only ways the state may change.
#[derive(Clone, Copy, PartialEq, Eq, Debug)]
pub enum SudokuMessage {
    /// Start the configured puzzle again.
    New,
    /// Replace the board by the solver's solution.
    Solve,
    /// Write a digit into the selected cell (any value above 9 erases).
    Guess(u8),
    /// Select a cell by its row-major index (out of range clears the selection).
    Select(usize),
}

/// The mathematical state of a [`Model`].
pub struct ModelState {
    pub board: Seq<u8>,
    pub selected: Option<usize>,
    pub puzzle: Seq<char>,
}

/// Board state and controller. The selection is always a valid cell index.
pub struct Model {
    pub(crate) board: Board,
    pub(crate) selected: Option<usize>,
    pub(crate) puzzle: String,
}

/// A guessed digit as it is entered: 0 to 9 as given, anything else 0.
pub open spec fn clamp_digit(d: u8) -> u8 {
    if d < 10 {
        d
    } else {
        0
    }
}

/// The selection after selecting `location`.
pub open spec fn selection_of(location: usize) -> Option<usize> {
    if location < 81 {
        Some(location)
    } else {
        None
    }
}

pub open spec fn after_new_game(s: ModelState) -> ModelState {
    match parsed_line(s.puzzle) {
        Some(c) => ModelState { board: c, ..s },
        None => s,
    }
}

pub open spec fn after_solve(s: ModelState) -> ModelState {
    match solution_of(s.board) {
        Some(c) => if in_range(c) {
            ModelState { board: c, ..s }
        } else {
            s
        },
        None => s,
    }
}

/// A guess at the selected cell, kept only if the resulting grid is accepted.
pub open spec fn after_guess(s: ModelState, d: u8) -> ModelState {
    match s.selected {
        Some(i) => {
            let c = s.board.update(i as int, clamp_digit(d));
            if in_range(c) {
                ModelState { board: c, ..s }
            } else {
                s
            }
        },
        None => s,
    }
}

pub open spec fn after_select(s: ModelState, location: usize) -> ModelState {
    ModelState { selected: selection_of(location), ..s }
}

/// The state after handling one message.
pub open spec fn after_message(s: ModelState, msg: SudokuMessage) -> ModelState {
    match msg {
        SudokuMessage::New => after_new_game(s),
        SudokuMessage::Solve => after_solve(s),
        SudokuMessage::Guess(d) => after_guess(s, d),
        SudokuMessage::Select(l) => after_select(s, l),
    }
}

/// A guess with nothing selected changes nothing.
pub proof fn lemma_guess_without_selection(s: ModelState, d: u8)
    requires
        s.selected is None,
    ensures
        after_guess(s, d) == s,
{
}

/// A guess above 9 is the same as erasing the selected cell.
pub proof fn lemma_large_digit_erases(s: ModelState, d: u8)
    requires
        d > 9,
    ensures
        after_guess(s, d) == after_guess(s, 0),
{
}

/// After a guess, the selected cell holds the entered digit if the grid was
/// accepted, and its earlier value otherwise.
pub proof fn lemma_guess_read_back(s: ModelState, d: u8, i: usize)
    requires
        s.selected == Some(i),
        i < s.board.len(),
    ensures
        after_guess(s, d).board[i as int] == if in_range(s.board.update(i as int, clamp_digit(d))) {
            clamp_digit(d)
        } else {
            s.board[i as int]
        },
{
}

/// A new game yields the parsed configured puzzle, whatever the board was.
pub proof fn lemma_new_game_fresh(s: ModelState, t: ModelState)
    requires
        s.puzzle == t.puzzle,
        parsed_line(s.puzzle) is Some,
    ensures
        after_new_game(s).board == parsed_line(s.puzzle)->0,
        after_new_game(s).board == after_new_game(t).board,
{
}

impl Model {
    #[verifier::type_invariant]
    closed spec fn inv(&self) -> bool {
        self.selected matches Some(i) ==> i < 81
    }

    pub closed spec fn state(&self) -> ModelState {
        ModelState { board: self.board@, selected: self.selected, puzzle: self.puzzle@ }
    }

    pub(crate) proof fn lemma_state_fields(&self)
        ensures
            self.state().board == self.board@,
            self.state().selected == self.selected,
    {
    }

    /// Starts on the puzzle given in line format, with nothing selected;
    /// `None` when the puzzle cannot be parsed.
    pub fn create(puzzle: &str) -> (r: Option<Model>)
        ensures
            r.is_some() == parsed_line(puzzle@).is_some(),
            r matches Some(m) ==> m.state() == (ModelState {
                board: parsed_line(puzzle@)->0,
                selected: None,
                puzzle: puzzle@,
            }),
    {
        match Board::parse(puzzle) {
            Some(board) => Some(Model { board, selected: None, puzzle: String::from_str(puzzle) }),
            None => None,
        }
    }

    /// The current board.
    pub fn board(&self) -> (r: &Board)
        ensures
            r@ == self.state().board,
    {
        &self.board
    }

    /// The selected cell, if any.
    pub fn selected(&self) -> (r: Option<usize>)
        ensures
            r == self.state().selected,
            r matches Some(i) ==> i < 81,
    {
        proof {
            use_type_invariant(self);
        }
        self.selected
    }

    /// Goes back to the configured puzzle; keeps the board if it no longer parses.
    pub fn new_game(&mut self)
        ensures
            final(self).state() == after_new_game(old(self).state()),
    {
        proof {
            use_type_invariant(&*self);
        }
        if let Some(board) = Board::parse(self.puzzle.as_str()) {
            self.board = board;
        }
    }

    /// Enters a digit at the selected cell. Digits above 9 erase the cell.
    /// Without a selection, or when the grid is refused, nothing changes.
    pub fn guess(&mut self, guess: u8)
        ensures
            final(self).state() == after_guess(old(self).state(), guess),
    {
        proof {
            use_type_invariant(&*self);
        }
        let guess: u8 = if guess < 10 {
            guess
        } else {
            0
        };
        if let Some(l) = self.selected {
            let mut board = self.board.to_flat_array();
            board[l] = guess;
            if let Some(b) = Board::from_flat_array(board) {
                self.board = b;
            }
        }
    }

    /// Selects the cell at `location`, or clears the selection when it is
    /// not a cell index.
    pub fn select(&mut self, location: usize)
        ensures
            final(self).state() == after_select(old(self).state(), location),
            location < 81 ==> final(self).state().selected == Some(location),
            location >= 81 ==> final(self).state().selected is None,
    {
        if location < 81 {
            self.selected = Some(location);
        } else {
            self.selected = None;
        }
    }

    /// Replaces the board by the solver's solution, if it finds one.
    pub fn solve(&mut self)
        ensures
            final(self).state() == after_solve(old(self).state()),
    {
        proof {
            use_type_invariant(&*self);
        }
        if let Some(board) = self.board.solve_step() {
            self.board = board;
        }
    }

    /// Handles one message. The view is always to be drawn again afterwards.
    pub fn update(&mut self, msg: SudokuMessage) -> (r: bool)
        ensures
            r,
            final(self).state() == after_message(old(self).state(), msg),
    {
        match msg {
            SudokuMessage::New => self.new_game(),
            SudokuMessage::Solve => self.solve(),
            SudokuMessage::Guess(guess) => self.guess(guess),
            SudokuMessage::Select(location) => self.select(location),
        }
        true
    }
}

} // verus!
