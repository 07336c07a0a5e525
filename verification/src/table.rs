//! The cells and rows of the table that shows the validators.

use vstd::prelude::*;

verus! {

/// A colour of the text of a cell.
#[derive(Clone, Copy, Debug, PartialEq, Eq, Structural)]
pub enum Color {
    Red,
    BrightGreen,
}

/// A style of the text of a cell.
#[derive(Clone, Copy, Debug, PartialEq, Eq, Structural)]
pub enum Style {
    Bold,
    Italic,
    Foreground(Color),
}

/// A cell: its text and its styles, in the order in which they are applied.
#[derive(Debug)]
pub struct Cell {
    pub text: String,
    pub styles: Vec<Style>,
}

/// A row of cells.
#[derive(Debug)]
pub struct Row {
    pub cells: Vec<Cell>,
}

/// A table: the row of its titles, and its rows.
#[derive(Debug)]
pub struct Table {
    pub titles: Row,
    pub rows: Vec<Row>,
}

/// A cell as plain values.
pub struct CellView {
    pub text: Seq<char>,
    pub styles: Seq<Style>,
}

impl View for Cell {
    type V = CellView;

    open spec fn view(&self) -> CellView {
        CellView { text: self.text@, styles: self.styles@ }
    }
}

impl View for Row {
    type V = Seq<CellView>;

    open spec fn view(&self) -> Seq<CellView> {
        self.cells@.map_values(|cell: Cell| cell@)
    }
}

/// The rows of a list as plain values.
pub open spec fn row_views(rows: Seq<Row>) -> Seq<Seq<CellView>> {
    rows.map_values(|row: Row| row@)
}

/// The row of the given texts, every cell in the given styles.
pub open spec fn styled_row(texts: Seq<Seq<char>>, styles: Seq<Style>) -> Seq<CellView> {
    texts.map_values(|text: Seq<char>| CellView { text, styles })
}

fn copy_styles(styles: &Vec<Style>) -> (copy: Vec<Style>)
    ensures
        copy@ == styles@,
{
    let mut copy: Vec<Style> = Vec::new();
    let mut i: usize = 0;
    while i < styles.len()
        invariant
            i <= styles.len(),
            copy@ == styles@.take(i as int),
        decreases styles.len() - i,
    {
        copy.push(styles[i]);
        assert(copy@ =~= styles@.take(i + 1));
        i += 1;
    }
    assert(styles@.take(styles.len() as int) =~= styles@);
    copy
}

impl Row {
    /// The row of the given texts, every cell in the given styles.
    pub fn styled(texts: &Vec<String>, styles: &Vec<Style>) -> (row: Row)
        ensures
            row@ == styled_row(texts@.map_values(|text: String| text@), styles@),
    {
        let ghost wanted = styled_row(texts@.map_values(|text: String| text@), styles@);
        let mut cells: Vec<Cell> = Vec::new();
        let mut i: usize = 0;
        while i < texts.len()
            invariant
                i <= texts.len(),
                cells@.len() == i,
                wanted == styled_row(texts@.map_values(|text: String| text@), styles@),
                forall|k: int| 0 <= k < i ==> (#[trigger] cells@[k])@ == wanted[k],
            decreases texts.len() - i,
        {
            cells.push(Cell { text: texts[i].clone(), styles: copy_styles(styles) });
            i += 1;
        }
        let row = Row { cells };
        assert(row@ =~= wanted);
        row
    }
}

} // verus!
