use sudoku_ui::board::Board;
use sudoku_ui::model::{Model, SudokuMessage, SUDOKU_LINE};

fn start() -> Model {
    Model::create(SUDOKU_LINE).unwrap()
}

#[test]
fn create_starts_without_selection() {
    let m = start();
    assert_eq!(m.selected(), None);
    assert_eq!(m.board().to_flat_array(), Board::parse(SUDOKU_LINE).unwrap().to_flat_array());
}

#[test]
fn create_refuses_a_malformed_puzzle() {
    assert!(Model::create("not a sudoku").is_none());
}

#[test]
fn select_in_range_sets_that_index() {
    let mut m = start();
    m.select(0);
    assert_eq!(m.selected(), Some(0));
    m.select(80);
    assert_eq!(m.selected(), Some(80));
}

#[test]
fn select_out_of_range_clears_selection() {
    let mut m = start();
    m.select(4);
    m.select(81);
    assert_eq!(m.selected(), None);
    m.select(4);
    m.select(usize::MAX);
    assert_eq!(m.selected(), None);
}

#[test]
fn guess_without_selection_changes_nothing() {
    let mut m = start();
    let before = m.board().to_flat_array();
    m.guess(5);
    assert_eq!(m.board().to_flat_array(), before);
    assert_eq!(m.selected(), None);
}

#[test]
fn guess_writes_the_selected_cell() {
    let mut m = start();
    m.select(4);
    m.guess(7);
    assert_eq!(m.board().cell(4), 7);
    assert_eq!(m.selected(), Some(4));
}

#[test]
fn guess_above_nine_erases() {
    let mut a = start();
    a.select(3);
    a.guess(12);
    assert_eq!(a.board().cell(3), 0);
    let mut b = start();
    b.select(3);
    b.guess(0);
    assert_eq!(a.board().to_flat_array(), b.board().to_flat_array());
}

#[test]
fn new_game_restores_the_puzzle() {
    let mut m = start();
    m.select(4);
    m.guess(7);
    m.solve();
    m.new_game();
    assert_eq!(m.board().to_flat_array(), Board::parse(SUDOKU_LINE).unwrap().to_flat_array());
    assert_eq!(m.selected(), Some(4));
}

#[test]
fn solve_replaces_the_board_with_a_solution() {
    let mut m = start();
    m.solve();
    assert!(m.board().is_solved());
    assert!(m.view_status());
}

#[test]
fn update_dispatches_and_asks_for_render() {
    let mut m = start();
    assert!(m.update(SudokuMessage::Select(10)));
    assert_eq!(m.selected(), Some(10));
    assert!(m.update(SudokuMessage::Guess(8)));
    assert_eq!(m.board().cell(10), 8);
    assert!(m.update(SudokuMessage::New));
    assert_eq!(m.board().cell(10), 0);
    assert!(m.update(SudokuMessage::Solve));
    assert!(m.board().is_solved());
}

#[test]
fn scenario_select_guess_deselect_solve() {
    let mut m = start();
    assert_eq!(m.selected(), None);
    m.update(SudokuMessage::Select(4));
    m.update(SudokuMessage::Guess(7));
    assert_eq!(m.board().cell(4), 7);
    m.update(SudokuMessage::Select(90));
    assert_eq!(m.selected(), None);
    let before = m.board().to_flat_array();
    m.update(SudokuMessage::Guess(3));
    assert_eq!(m.board().to_flat_array(), before);
    let mut steps = 0;
    loop {
        let prior = m.board().to_flat_array();
        m.update(SudokuMessage::Solve);
        steps += 1;
        if m.board().to_flat_array() == prior || steps > 3 {
            break;
        }
    }
    let cells = m.board().to_flat_array();
    let complete = cells.iter().all(|&v| v != 0);
    assert_eq!(m.board().is_solved(), m.view_status());
    if m.board().is_solved() {
        assert!(complete);
    }
}
