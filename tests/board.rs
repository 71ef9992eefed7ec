use sudoku_ui::board::Board;
use sudoku_ui::model::SUDOKU_LINE;

fn canonical_cells() -> [u8; 81] {
    let mut cells = [0u8; 81];
    for (i, ch) in SUDOKU_LINE.chars().enumerate() {
        if let Some(d) = ch.to_digit(10) {
            cells[i] = d as u8;
        }
    }
    cells
}

#[test]
fn parse_reads_every_cell() {
    let board = Board::parse(SUDOKU_LINE).unwrap();
    assert_eq!(board.to_flat_array(), canonical_cells());
    assert_eq!(board.cell(3), 2);
    assert_eq!(board.cell(7), 6);
    assert_eq!(board.cell(0), 0);
}

#[test]
fn parse_refuses_malformed_text() {
    assert!(Board::parse("").is_none());
    assert!(Board::parse("123").is_none());
    let mut long = String::from(SUDOKU_LINE);
    long.push('1');
    assert!(Board::parse(&long).is_none());
    let bad = SUDOKU_LINE.replacen('.', "x", 1);
    assert!(Board::parse(&bad).is_none());
}

#[test]
fn flat_array_is_in_range() {
    let cells = Board::parse(SUDOKU_LINE).unwrap().to_flat_array();
    assert_eq!(cells.len(), 81);
    assert!(cells.iter().all(|&v| v <= 9));
}

#[test]
fn from_flat_array_round_trips() {
    let mut cells = canonical_cells();
    cells[0] = 9;
    let board = Board::from_flat_array(cells).unwrap();
    assert_eq!(board.to_flat_array(), cells);
}

#[test]
fn from_flat_array_refuses_values_above_nine() {
    let mut cells = canonical_cells();
    cells[80] = 10;
    assert!(Board::from_flat_array(cells).is_none());
    cells[80] = 255;
    assert!(Board::from_flat_array(cells).is_none());
}

#[test]
fn solve_step_fills_the_board_and_keeps_clues() {
    let board = Board::parse(SUDOKU_LINE).unwrap();
    assert!(!board.is_solved());
    let solved = board.solve_step().unwrap();
    assert!(solved.is_solved());
    let before = board.to_flat_array();
    let after = solved.to_flat_array();
    assert_ne!(before, after);
    for i in 0..81 {
        assert!(after[i] >= 1 && after[i] <= 9);
        if before[i] != 0 {
            assert_eq!(after[i], before[i]);
        }
    }
}

#[test]
fn solve_step_on_a_contradiction_finds_nothing() {
    let mut cells = [0u8; 81];
    cells[0] = 5;
    cells[1] = 5;
    let board = Board::from_flat_array(cells).unwrap();
    assert!(board.solve_step().is_none());
}

#[test]
fn is_solved_needs_every_house_complete() {
    let solved = Board::parse(SUDOKU_LINE).unwrap().solve_step().unwrap();
    let mut cells = solved.to_flat_array();
    assert!(Board::from_flat_array(cells).unwrap().is_solved());
    cells[40] = 0;
    assert!(!Board::from_flat_array(cells).unwrap().is_solved());
    let (a, b) = (cells[0], cells[1]);
    cells[40] = solved.cell(40);
    cells[0] = b;
    cells[1] = a;
    assert!(!Board::from_flat_array(cells).unwrap().is_solved());
    assert!(!Board::from_flat_array([0u8; 81]).unwrap().is_solved());
}
