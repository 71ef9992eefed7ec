//! The render composer: a pure function from board and selection to a view
//! tree of squares, 3x3 block separators, a keypad and a solved flag.

use vstd::prelude::*;
use vstd::array::array_as_slice;
use vstd::slice::slice_subrange;
use crate::engine::{in_range, is_complete_grid};
use crate::model::{Model, ModelState};

verus! {

broadcast use vstd::array::group_array_axioms;

/// One cell of the grid as it is shown.
#[derive(Clone, Copy, PartialEq, Eq, Debug, Structural)]
pub struct Square {
    /// Row-major index of the cell; activating the square selects it.
    pub index: usize,
    /// `'_'` for an empty cell, else the digit.
    pub label: char,
    pub selected: bool,
}

/// An entry of a grid row: a square, or the separator between two blocks.
#[derive(Clone, Copy, PartialEq, Eq, Debug, Structural)]
pub enum RowItem {
    Square(Square),
    Gap,
}

/// A row of the grid: squares and gaps, or a separator row of the given width.
#[derive(PartialEq, Eq, Debug)]
pub enum GridRow {
    Squares(Vec<RowItem>),
    Rule(usize),
}

/// The mathematical value of a [`GridRow`].
pub enum RowModel {
    Squares(Seq<RowItem>),
    Rule(nat),
}

impl View for GridRow {
    type V = RowModel;

    open spec fn view(&self) -> RowModel {
        match self {
            GridRow::Squares(v) => RowModel::Squares(v@),
            GridRow::Rule(w) => RowModel::Rule(*w as nat),
        }
    }
}

/// The grid: nine rows of squares with a separator row after each band.
#[derive(PartialEq, Eq, Debug)]
pub struct BoardView {
    pub rows: Vec<GridRow>,
}

impl View for BoardView {
    type V = Seq<RowModel>;

    open spec fn view(&self) -> Seq<RowModel> {
        self.rows@.map_values(|r: GridRow| r@)
    }
}

/// The whole page below its header and game controls.
#[derive(PartialEq, Eq, Debug)]
pub struct PageView {
    pub board: BoardView,
    /// Keypad digits, three rows of three.
    pub keypad: Vec<Vec<u8>>,
    /// Whether the success banner is shown.
    pub solved: bool,
}

/// Number of entries in a grid row: nine squares and two gaps.
pub const ROW_WIDTH: usize = 11;

/// How a cell value is shown.
pub open spec fn label_of(v: u8) -> char {
    if v == 0 {
        '_'
    } else {
        ((v + 48) as u8) as char
    }
}

/// A gap follows the cell at linear index `loc` when it closes a block but
/// not the row.
pub open spec fn gap_after(loc: int) -> bool {
    (loc + 1) % 3 == 0 && (loc + 1) % 9 != 0
}

/// A separator row follows grid row `row` when it closes a band but not the grid.
pub open spec fn rule_after(row: int) -> bool {
    row == 2 || row == 5
}

/// Where column `c` (or row `c`) stands once the two separators are counted.
pub open spec fn slot_of(c: int) -> int {
    c + c / 3
}

/// The column (or row) that stands at slot `p`, for a slot that is no separator.
pub open spec fn index_at_slot(p: int) -> int {
    p - p / 4
}

pub open spec fn square_model(cells: Seq<u8>, sel: Option<usize>, i: int) -> Square {
    Square { index: i as usize, label: label_of(cells[i]), selected: sel == Some(i as usize) }
}

/// The entries of grid row `r`.
#[verifier::opaque]
pub open spec fn row_model(cells: Seq<u8>, sel: Option<usize>, r: int) -> Seq<RowItem> {
    Seq::new(
        11,
        |p: int|
            if p == 3 || p == 7 {
                RowItem::Gap
            } else {
                RowItem::Square(square_model(cells, sel, 9 * r + index_at_slot(p)))
            },
    )
}

/// The rows of the grid view.
#[verifier::opaque]
pub open spec fn grid_model(cells: Seq<u8>, sel: Option<usize>) -> Seq<RowModel> {
    Seq::new(
        11,
        |q: int|
            if q == 3 || q == 7 {
                RowModel::Rule(11)
            } else {
                RowModel::Squares(row_model(cells, sel, index_at_slot(q)))
            },
    )
}

/// The keypad: digits 1 to 9 in three rows.
pub open spec fn keypad_model() -> Seq<Seq<u8>> {
    seq![seq![1u8, 2, 3], seq![4u8, 5, 6], seq![7u8, 8, 9]]
}

proof fn lemma_slot(c: int)
    requires
        0 <= c < 9,
    ensures
        index_at_slot(slot_of(c)) == c,
        slot_of(c) != 3 && slot_of(c) != 7,
        0 <= slot_of(c) < 11,
        gap_after(c) <==> (c == 2 || c == 5),
        (c == 2 || c == 5) ==> (slot_of(c) + 1 == 3 || slot_of(c) + 1 == 7),
{
}

/// The separator after linear cell index `loc`, if one follows it.
pub fn horz_spc(loc: usize) -> (r: Option<RowItem>)
    ensures
        r is Some <==> gap_after(loc as int),
        r matches Some(g) ==> g == RowItem::Gap,
{
    if loc % 3 == 2 && loc % 9 != 8 {
        Some(RowItem::Gap)
    } else {
        None
    }
}

/// The separator row after grid row `row`, if one follows it.
pub fn vert_spc(row: usize) -> (r: Option<GridRow>)
    ensures
        r is Some <==> rule_after(row as int),
        r matches Some(g) ==> g@ == RowModel::Rule(11),
{
    if row == 2 || row == 5 {
        Some(GridRow::Rule(ROW_WIDTH))
    } else {
        None
    }
}


/// Cell `i` stands in its grid row at the slot of its column, and a gap
/// follows it exactly when [`gap_after`] holds.
pub open spec fn cell_placed(cells: Seq<u8>, sel: Option<usize>, i: int) -> bool {
    let row = row_model(cells, sel, i / 9);
    let p = slot_of(i % 9);
    &&& grid_model(cells, sel)[slot_of(i / 9)] == RowModel::Squares(row)
    &&& row[p] == RowItem::Square(square_model(cells, sel, i))
    &&& (p + 1 < 11 && row[p + 1] == RowItem::Gap) == gap_after(i)
}

/// Separators depend on index arithmetic alone: over all 81 cells, a gap
/// follows exactly the cells of columns 2 and 5, and a separator row follows
/// exactly rows 2 and 5. Each cell's square stands in the grid at the slot of
/// its row and column.
pub proof fn lemma_separator_placement(cells: Seq<u8>, sel: Option<usize>)
    requires
        cells.len() == 81,
    ensures
        forall|i: int| 0 <= i < 81 ==> (#[trigger] gap_after(i) <==> (i % 9 == 2 || i % 9 == 5)),
        forall|r: int| 0 <= r < 9 ==> (#[trigger] rule_after(r) <==> (r == 2 || r == 5)),
        forall|i: int| 0 <= i < 81 ==> #[trigger] cell_placed(cells, sel, i),
        forall|r: int|
            0 <= r < 9 ==> ((slot_of(r) + 1 < 11 && #[trigger] grid_model(cells, sel)[slot_of(r)
                + 1] is Rule) <==> rule_after(r)),
{
    assert forall|i: int| 0 <= i < 81 implies (#[trigger] gap_after(i) <==> (i % 9 == 2 || i % 9
        == 5)) by {
        lemma_cell_slot(cells, sel, i);
    }
    assert forall|r: int| 0 <= r < 9 implies (#[trigger] rule_after(r) <==> (r == 2 || r == 5)) by {
    }
    assert forall|i: int| 0 <= i < 81 implies #[trigger] cell_placed(cells, sel, i) by {
        lemma_cell_slot(cells, sel, i);
    }
    assert forall|r: int| 0 <= r < 9 implies ((slot_of(r) + 1 < 11
        && #[trigger] grid_model(cells, sel)[slot_of(r) + 1] is Rule) <==> rule_after(r)) by {
        lemma_row_rule(cells, sel, r);
    }
}

proof fn lemma_row_rule(cells: Seq<u8>, sel: Option<usize>, r: int)
    requires
        0 <= r < 9,
    ensures
        (slot_of(r) + 1 < 11 && grid_model(cells, sel)[slot_of(r) + 1] is Rule) <==> rule_after(r),
{
    reveal(grid_model);
    lemma_slot(r);
    let q = slot_of(r) + 1;
    if q < 11 && q != 3 && q != 7 {
        assert(grid_model(cells, sel)[q] is Squares);
    }
}

proof fn lemma_cell_slot(cells: Seq<u8>, sel: Option<usize>, i: int)
    requires
        0 <= i < 81,
    ensures
        gap_after(i) <==> (i % 9 == 2 || i % 9 == 5),
        grid_model(cells, sel)[slot_of(i / 9)] == RowModel::Squares(row_model(cells, sel, i / 9)),
        cell_placed(cells, sel, i),
{
    reveal(row_model);
    reveal(grid_model);
    let r = i / 9;
    let c = i % 9;
    assert(i == 9 * r + c);
    assert((i + 1) % 3 == (c + 1) % 3);
    assert((i + 1) % 9 == (c + 1) % 9);
    lemma_slot(c);
    lemma_slot(r);
    let row = row_model(cells, sel, r);
    let p = slot_of(c);
    assert(row[p] == RowItem::Square(square_model(cells, sel, 9 * r + c)));
    if p + 1 < 11 && p + 1 != 3 && p + 1 != 7 {
        assert(row[p + 1] != RowItem::Gap);
    }
}

/// Rendering is referentially transparent: two models with the same board
/// and selection render to the same grid and status.
pub proof fn lemma_render_deterministic(a: Model, b: Model)
    requires
        a.state().board == b.state().board,
        a.state().selected == b.state().selected,
    ensures
        grid_model(a.state().board, a.state().selected) == grid_model(
            b.state().board,
            b.state().selected,
        ),
        is_complete_grid(a.state().board) == is_complete_grid(b.state().board),
{
}

impl Model {
    /// The square for cell `location`, whose value is `guess`.
    pub fn view_square(&self, location: usize, guess: u8) -> (r: Square)
        requires
            guess <= 9,
        ensures
            r == (Square {
                index: location,
                label: label_of(guess),
                selected: self.state().selected == Some(location),
            }),
    {
        proof {
            self.lemma_state_fields();
        }
        let label = if guess == 0 {
            '_'
        } else {
            (guess + 48) as char
        };
        let selected = match self.selected {
            Some(v) => v == location,
            None => false,
        };
        Square { index: location, label, selected }
    }

    /// The entries of the grid row that starts at cell `offset` and holds
    /// the values `chunk`.
    pub fn view_row(&self, offset: usize, chunk: &[u8]) -> (r: Vec<RowItem>)
        requires
            offset % 9 == 0,
            offset + 9 <= 81,
            chunk@ == self.state().board.subrange(offset as int, offset + 9),
        ensures
            r@ == row_model(self.state().board, self.state().selected, offset as int / 9),
    {
        proof {
            use_type_invariant(&self.board);
            self.board.lemma_inv_in_range();
            self.lemma_state_fields();
        }
        let ghost cells = self.state().board;
        let ghost sel = self.state().selected;
        let ghost want = row_model(cells, sel, offset as int / 9);
        let mut items: Vec<RowItem> = Vec::new();
        let mut i: usize = 0;
        while i < 9
            invariant
                0 <= i <= 9,
                offset % 9 == 0,
                offset + 9 <= 81,
                chunk@ == cells.subrange(offset as int, offset + 9),
                cells.len() == 81,
                in_range(cells),
                cells == self.state().board,
                sel == self.state().selected,
                want == row_model(cells, sel, offset as int / 9),
                items@.len() == (if i == 9 { 11 } else { slot_of(i as int) }),
                items@ == want.take(items@.len() as int),
            decreases 9 - i,
        {
            proof {
                reveal(row_model);
                lemma_slot(i as int);
                assert(chunk@[i as int] == cells[offset + i]);
            }
            let sq = self.view_square(offset + i, chunk[i]);
            proof {
                reveal(row_model);
                assert(9 * (offset as int / 9) + i == offset + i);
                assert(want[slot_of(i as int)] == RowItem::Square(sq));
            }
            items.push(RowItem::Square(sq));
            if let Some(g) = horz_spc(offset + i) {
                proof {
                    assert(gap_after((offset + i) as int) <==> gap_after(i as int));
                }
                items.push(g);
            }
            proof {
                assert(gap_after((offset + i) as int) <==> gap_after(i as int));
            }
            i = i + 1;
            proof {
                reveal(row_model);
            }
            assert(items@ =~= want.take(items@.len() as int));
        }
        proof {
            reveal(row_model);
        }
        assert(items@ =~= want);
        items
    }

    /// The grid: each row of squares, with a separator row after rows 2 and 5.
    pub fn view_board(&self) -> (r: BoardView)
        ensures
            r@ == grid_model(self.state().board, self.state().selected),
    {
        proof {
            use_type_invariant(&self.board);
            self.board.lemma_inv_in_range();
            self.lemma_state_fields();
        }
        let ghost want = grid_model(self.state().board, self.state().selected);
        let bytes = self.board.to_flat_array();
        let mut rows: Vec<GridRow> = Vec::new();
        let mut i: usize = 0;
        while i < 9
            invariant
                0 <= i <= 9,
                bytes@ == self.state().board,
                bytes@.len() == 81,
                want == grid_model(self.state().board, self.state().selected),
                rows@.len() == (if i == 9 { 11 } else { slot_of(i as int) }),
                forall|k: int| 0 <= k < rows@.len() ==> #[trigger] rows@[k]@ == want[k],
            decreases 9 - i,
        {
            proof {
                lemma_slot(i as int);
            }
            let chunk = slice_subrange(array_as_slice(&bytes), i * 9, i * 9 + 9);
            let row = self.view_row(i * 9, chunk);
            proof {
                reveal(grid_model);
                assert((i * 9) as int / 9 == i);
            }
            rows.push(GridRow::Squares(row));
            if let Some(rule) = vert_spc(i) {
                rows.push(rule);
            }
            proof {
                reveal(grid_model);
            }
            i = i + 1;
        }
        let r = BoardView { rows };
        proof {
            reveal(grid_model);
        }
        assert(r@ =~= want);
        r
    }

    /// The keypad: one control per digit 1 to 9, in three rows of three.
    pub fn view_buttons(&self) -> (r: Vec<Vec<u8>>)
        ensures
            r@.len() == 3,
            forall|k: int| 0 <= k < 3 ==> #[trigger] r@[k]@ == keypad_model()[k],
    {
        let r = vec![vec![1u8, 2, 3], vec![4u8, 5, 6], vec![7u8, 8, 9]];
        assert(r@[0]@ =~= keypad_model()[0]);
        assert(r@[1]@ =~= keypad_model()[1]);
        assert(r@[2]@ =~= keypad_model()[2]);
        r
    }

    /// Whether the success banner is shown: exactly when the board is solved.
    pub fn view_status(&self) -> (r: bool)
        ensures
            r == is_complete_grid(self.state().board),
    {
        proof {
            self.lemma_state_fields();
        }
        self.board.is_solved()
    }

    /// The page: grid, keypad and status, in that order.
    pub fn view(&self) -> (r: PageView)
        ensures
            r.board@ == grid_model(self.state().board, self.state().selected),
            r.keypad@.len() == 3,
            forall|k: int| 0 <= k < 3 ==> #[trigger] r.keypad@[k]@ == keypad_model()[k],
            r.solved == is_complete_grid(self.state().board),
    {
        PageView { board: self.view_board(), keypad: self.view_buttons(), solved: self.view_status() }
    }
}

} // verus!
