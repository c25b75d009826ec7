use vstd::prelude::*;

verus! {

/// The width, in terminal columns, at which the sprite is drawn.
pub const IMAGE_WIDTH: u16 = 40;

/// The number of terminal rows kept for the sprite.
pub const IMAGE_HEIGHT: u16 = 20;

/// Where the text beside the sprite goes.
#[derive(Clone, Debug)]
pub struct PokedexLayout {
    /// The column at which every text line starts: two past the sprite.
    pub text_column: u16,
    /// The row of each text line, in order.
    pub line_rows: Vec<u16>,
    /// The row on which the cursor is left afterwards.
    pub final_row: u16,
}

/// The row of text line `i`, whose index is taken modulo 2^16 as a `u16` cast does.
pub open spec fn line_row(start_row: u16, i: int) -> int {
    start_row + i % 65536
}

/// The row below both the sprite and the text.
pub open spec fn final_row_of(start_row: u16, line_count: int) -> int {
    let n: int = line_count % 65536;
    start_row + if n > IMAGE_HEIGHT {
        n
    } else {
        IMAGE_HEIGHT as int
    }
}

/// Every row of the layout is a valid `u16`.
pub open spec fn layout_fits(start_row: u16, line_count: int) -> bool {
    &&& forall|i: int| 0 <= i < line_count ==> #[trigger] line_row(start_row, i) <= u16::MAX
    &&& final_row_of(start_row, line_count) <= u16::MAX
}

/// The layout of `line_count` text lines beside a sprite whose top is at
/// `start_row`; `None` when a row would not fit in a `u16`.
pub fn pokedex_layout(start_row: u16, line_count: usize) -> (r: Option<PokedexLayout>)
    ensures
        r is Some <==> layout_fits(start_row, line_count as int),
        r matches Some(layout) ==> {
            &&& layout.text_column == IMAGE_WIDTH + 2
            &&& layout.line_rows@.len() == line_count
            &&& forall|i: int|
                0 <= i < line_count ==> #[trigger] layout.line_rows@[i] == line_row(start_row, i)
            &&& layout.final_row == final_row_of(start_row, line_count as int)
        },
{
    let mut rows: Vec<u16> = Vec::new();
    let mut i: usize = 0;
    while i < line_count
        invariant
            i <= line_count,
            rows@.len() == i,
            forall|j: int| 0 <= j < i ==> #[trigger] rows@[j] == line_row(start_row, j),
        decreases line_count - i,
    {
        let offset: u16 = (i % 65536) as u16;
        match start_row.checked_add(offset) {
            Some(row) => rows.push(row),
            None => {
                assert(line_row(start_row, i as int) > u16::MAX);
                return None;
            },
        }
        i += 1;
    }
    let n: u16 = (line_count % 65536) as u16;
    let tallest: u16 = if n > IMAGE_HEIGHT {
        n
    } else {
        IMAGE_HEIGHT
    };
    assert(start_row + tallest == final_row_of(start_row, line_count as int));
    assert(forall|j: int| 0 <= j < line_count ==> #[trigger] line_row(start_row, j) <= u16::MAX) by {
        assert(forall|j: int| 0 <= j < line_count ==> rows@[j] == line_row(start_row, j));
    }
    match start_row.checked_add(tallest) {
        Some(final_row) => Some(
            PokedexLayout { text_column: IMAGE_WIDTH + 2, line_rows: rows, final_row },
        ),
        None => None,
    }
}

/// With fewer than 65536 text lines, line `i` goes on the row `i` below the
/// sprite's top, the text starts in column 42, two past the 40 columns of
/// the sprite, and the cursor ends below the taller of the text and the 20
/// rows kept for the sprite.
pub proof fn law_layout_rows(start_row: u16, line_count: int)
    requires
        0 <= line_count < 65536,
    ensures
        IMAGE_WIDTH + 2 == 42,
        forall|i: int| 0 <= i < line_count ==> #[trigger] line_row(start_row, i) == start_row + i,
        final_row_of(start_row, line_count) == start_row + if line_count > 20 {
            line_count
        } else {
            20
        },
{
    assert forall|i: int| 0 <= i < line_count implies #[trigger] line_row(start_row, i)
        == start_row + i by {
        assert(i % 65536 == i);
    }
    assert(line_count % 65536 == line_count);
}

} // verus!
