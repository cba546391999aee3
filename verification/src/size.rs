//! Pixel and cell geometry of a terminal.

use vstd::arithmetic::div_mod::lemma_fundamental_div_mod;
use vstd::arithmetic::div_mod::lemma_div_pos_is_pos;
use vstd::arithmetic::div_mod::lemma_basic_div;
use vstd::arithmetic::div_mod::lemma_div_by_multiple;
use vstd::prelude::*;
use vstd::std_specs::convert::FromSpecImpl;

verus! {

/// The largest count of columns or lines that a terminal can be given.
pub const MAX_COUNT: u16 = 65535;

/// A width and a height in one unit.
#[derive(Clone, Debug)]
pub struct Size<T> {
    pub width: T,
    pub height: T,
}

/// What the shell process is told about its terminal.
#[derive(Clone, Copy, Debug, PartialEq, Eq)]
pub struct WindowSize {
    pub num_lines: u16,
    pub num_cols: u16,
    pub cell_width: u16,
    pub cell_height: u16,
}

/// The geometry of a terminal as plain numbers: the view of a `TerminalSize`.
pub struct Geometry {
    /// Width of one cell, in pixels.
    pub cell_width: int,
    /// Height of one cell, in pixels.
    pub cell_height: int,
    /// Columns of the grid.
    pub columns: int,
    /// Visible lines of the grid.
    pub lines: int,
    /// Width of the layout, in pixels.
    pub layout_width: int,
    /// Height of the layout, in pixels.
    pub layout_height: int,
}

impl Geometry {
    /// Whether these numbers can be the geometry of a terminal: pixel sizes
    /// within the range of their machine integers, and a column and a line at
    /// least.
    pub open spec fn well_formed(self) -> bool {
        &&& 0 <= self.cell_width <= u16::MAX
        &&& 0 <= self.cell_height <= u16::MAX
        &&& 1 <= self.columns <= MAX_COUNT
        &&& 1 <= self.lines <= MAX_COUNT
        &&& 0 <= self.layout_width <= u32::MAX
        &&& 0 <= self.layout_height <= u32::MAX
    }
}

impl Geometry {
    /// Whether the counts are what the pixel sizes give: as many columns as
    /// whole cells fit into the width of the layout, and as many lines as fit
    /// into its height.
    pub open spec fn counts_follow_pixels(self) -> bool {
        &&& self.columns == cell_count(self.layout_width, self.cell_width)
        &&& self.lines == cell_count(self.layout_height, self.cell_height)
    }
}

/// How many whole cells of `cell` pixels fit into `layout` pixels, held to
/// `MAX_COUNT`. A cell of no extent saturates the count of any layout that
/// has an extent.
pub open spec fn cell_count(layout: int, cell: int) -> int {
    if cell <= 0 {
        if layout > 0 {
            MAX_COUNT as int
        } else {
            0
        }
    } else if layout / cell >= MAX_COUNT {
        MAX_COUNT as int
    } else {
        layout / cell
    }
}

/// The layout width that a resize works with: the new one if one is given.
pub open spec fn next_layout_width(g: Geometry, layout: Option<Size<u32>>) -> int {
    match layout {
        Some(size) => size.width as int,
        None => g.layout_width,
    }
}

/// The layout height that a resize works with: the new one if one is given.
pub open spec fn next_layout_height(g: Geometry, layout: Option<Size<u32>>) -> int {
    match layout {
        Some(size) => size.height as int,
        None => g.layout_height,
    }
}

/// The cell width that a resize works with: the new one if one is given.
pub open spec fn next_cell_width(g: Geometry, cell: Option<Size<u16>>) -> int {
    match cell {
        Some(size) => size.width as int,
        None => g.cell_width,
    }
}

/// The cell height that a resize works with: the new one if one is given.
pub open spec fn next_cell_height(g: Geometry, cell: Option<Size<u16>>) -> int {
    match cell {
        Some(size) => size.height as int,
        None => g.cell_height,
    }
}

/// Whether a resize yields a grid: a column and a line at least.
pub open spec fn fits(g: Geometry, layout: Option<Size<u32>>, cell: Option<Size<u16>>) -> bool {
    &&& cell_count(next_layout_width(g, layout), next_cell_width(g, cell)) > 0
    &&& cell_count(next_layout_height(g, layout), next_cell_height(g, cell)) > 0
}

/// The geometry after a resize. Pixel sizes are taken over as given; the
/// counts follow them where a grid results and stay as they were otherwise.
pub open spec fn resized(g: Geometry, layout: Option<Size<u32>>, cell: Option<Size<u16>>) -> Geometry {
    let layout_width = next_layout_width(g, layout);
    let layout_height = next_layout_height(g, layout);
    let cell_width = next_cell_width(g, cell);
    let cell_height = next_cell_height(g, cell);
    Geometry {
        cell_width,
        cell_height,
        columns: if fits(g, layout, cell) {
            cell_count(layout_width, cell_width)
        } else {
            g.columns
        },
        lines: if fits(g, layout, cell) {
            cell_count(layout_height, cell_height)
        } else {
            g.lines
        },
        layout_width,
        layout_height,
    }
}

/// The columns of a terminal that has not been resized yet.
pub const INITIAL_COLUMNS: u16 = 80;

/// The lines of a terminal that has not been resized yet.
pub const INITIAL_LINES: u16 = 50;

/// The geometry of a terminal that has not been resized yet: eighty columns
/// and fifty lines, and the layout that holds just these with cells of the
/// given pixel size. With a cell of no extent that layout has none either.
pub open spec fn initial_geometry(cell_width: int, cell_height: int) -> Geometry {
    Geometry {
        cell_width,
        cell_height,
        columns: INITIAL_COLUMNS as int,
        lines: INITIAL_LINES as int,
        layout_width: INITIAL_COLUMNS * cell_width,
        layout_height: INITIAL_LINES * cell_height,
    }
}

/// The geometry of a terminal that nothing has been said about yet: eighty
/// columns and fifty lines of cells one pixel wide and high.
pub open spec fn default_geometry() -> Geometry {
    initial_geometry(1, 1)
}

/// What the shell process is told of a geometry.
pub open spec fn window_of(g: Geometry) -> WindowSize {
    WindowSize {
        num_lines: g.lines as u16,
        num_cols: g.columns as u16,
        cell_width: g.cell_width as u16,
        cell_height: g.cell_height as u16,
    }
}

/// Cell size, grid counts and layout size of one terminal. It always has a
/// column and a line at least.
#[derive(Clone, Copy, Debug)]
pub struct TerminalSize {
    cell_width: u16,
    cell_height: u16,
    num_cols: u16,
    num_lines: u16,
    layout_width: u32,
    layout_height: u32,
}

impl View for TerminalSize {
    type V = Geometry;

    closed spec fn view(&self) -> Geometry {
        Geometry {
            cell_width: self.cell_width as int,
            cell_height: self.cell_height as int,
            columns: self.num_cols as int,
            lines: self.num_lines as int,
            layout_width: self.layout_width as int,
            layout_height: self.layout_height as int,
        }
    }
}

/// How many whole cells fit: `cell_count` on machine integers.
fn count_cells(layout: u32, cell: u16) -> (count: u16)
    ensures
        count == cell_count(layout as int, cell as int),
{
    if cell == 0 {
        if layout > 0 {
            MAX_COUNT
        } else {
            0
        }
    } else {
        let quotient: u32 = layout / (cell as u32);
        if quotient >= MAX_COUNT as u32 {
            MAX_COUNT
        } else {
            quotient as u16
        }
    }
}

impl TerminalSize {
    /// Whether the size has a column and a line at least. Every size has.
    #[verifier::type_invariant]
    pub closed spec fn has_grid(self) -> bool {
        self.num_cols >= 1 && self.num_lines >= 1
    }

    /// The view of a size with a grid is well formed.
    pub proof fn view_is_well_formed(self)
        requires
            self.has_grid(),
        ensures
            self@.well_formed(),
    {
    }

    /// The size of a terminal that has not been resized yet, with cells of
    /// the given pixel size: eighty columns, fifty lines, and the layout
    /// that holds just these. Where the cell has an extent the counts are
    /// what the pixel sizes give; where it has none, no layout gives a grid,
    /// and the size keeps these counts until a resize brings one.
    pub fn with_cell_size(cell: Size<u16>) -> (size: TerminalSize)
        ensures
            size@ == initial_geometry(cell.width as int, cell.height as int),
            size@.well_formed(),
            cell.width >= 1 && cell.height >= 1 ==> size@.counts_follow_pixels(),
    {
        proof {
            if cell.width >= 1 && cell.height >= 1 {
                initial_counts_follow_pixels(cell.width as int, cell.height as int);
            }
            assert(INITIAL_COLUMNS * cell.width <= 80 * 65535 && INITIAL_LINES * cell.height <= 50
                * 65535) by (nonlinear_arith)
                requires
                    INITIAL_COLUMNS == 80,
                    INITIAL_LINES == 50,
                    cell.width <= 65535,
                    cell.height <= 65535,
            ;
        }
        TerminalSize {
            cell_width: cell.width,
            cell_height: cell.height,
            num_cols: INITIAL_COLUMNS,
            num_lines: INITIAL_LINES,
            layout_width: INITIAL_COLUMNS as u32 * cell.width as u32,
            layout_height: INITIAL_LINES as u32 * cell.height as u32,
        }
    }

    /// Width of one cell, in pixels.
    pub fn cell_width(&self) -> (width: u16)
        ensures
            width == self@.cell_width,
    {
        self.cell_width
    }

    /// Height of one cell, in pixels.
    pub fn cell_height(&self) -> (height: u16)
        ensures
            height == self@.cell_height,
    {
        self.cell_height
    }

    /// Columns of the grid.
    pub fn columns(&self) -> (columns: usize)
        ensures
            columns == self@.columns,
            1 <= columns <= MAX_COUNT,
    {
        proof {
            use_type_invariant(self);
        }
        self.num_cols as usize
    }

    /// Visible lines of the grid.
    pub fn screen_lines(&self) -> (lines: usize)
        ensures
            lines == self@.lines,
            1 <= lines <= MAX_COUNT,
    {
        proof {
            use_type_invariant(self);
        }
        self.num_lines as usize
    }

    /// All lines of the grid: a size holds no history, so these are the
    /// visible ones.
    pub fn total_lines(&self) -> (lines: usize)
        ensures
            lines == self@.lines,
            1 <= lines <= MAX_COUNT,
    {
        self.screen_lines()
    }

    /// Index of the last column.
    pub fn last_column(&self) -> (column: usize)
        ensures
            column == self@.columns - 1,
    {
        proof {
            use_type_invariant(self);
        }
        self.num_cols as usize - 1
    }

    /// Index of the lowest visible line.
    pub fn bottommost_line(&self) -> (line: i32)
        ensures
            line == self@.lines - 1,
    {
        proof {
            use_type_invariant(self);
        }
        self.num_lines as i32 - 1
    }

    /// What the shell process is told of this size.
    pub fn window_size(&self) -> (window: WindowSize)
        ensures
            window == window_of(self@),
    {
        WindowSize {
            num_lines: self.num_lines,
            num_cols: self.num_cols,
            cell_width: self.cell_width,
            cell_height: self.cell_height,
        }
    }

    /// Takes over the pixel sizes that are given and recomputes the counts.
    /// The counts change only if a grid results; the return value says
    /// whether one did.
    pub fn resize(&mut self, layout_size: Option<Size<u32>>, font_measure: Option<Size<u16>>) -> (applied: bool)
        ensures
            final(self)@ == resized(old(self)@, layout_size, font_measure),
            final(self)@.well_formed(),
            applied == fits(old(self)@, layout_size, font_measure),
            applied ==> final(self)@.counts_follow_pixels(),
    {
        proof {
            use_type_invariant(&*self);
        }
        if let Some(size) = layout_size {
            self.layout_height = size.height;
            self.layout_width = size.width;
        }
        if let Some(size) = font_measure {
            self.cell_height = size.height;
            self.cell_width = size.width;
        }
        let lines: u16 = count_cells(self.layout_height, self.cell_height);
        let cols: u16 = count_cells(self.layout_width, self.cell_width);
        if lines > 0 && cols > 0 {
            self.num_lines = lines;
            self.num_cols = cols;
            true
        } else {
            false
        }
    }
}

impl Default for TerminalSize {
    fn default() -> (size: TerminalSize)
        ensures
            size@ == default_geometry(),
            size@.well_formed(),
            size@.counts_follow_pixels(),
    {
        TerminalSize::with_cell_size(Size { width: 1, height: 1 })
    }
}

impl From<TerminalSize> for WindowSize {
    fn from(size: TerminalSize) -> (window: WindowSize) {
        size.window_size()
    }
}

impl FromSpecImpl<TerminalSize> for WindowSize {
    open spec fn obeys_from_spec() -> bool {
        true
    }

    open spec fn from_spec(size: TerminalSize) -> WindowSize {
        window_of(size@)
    }
}

/// Eighty columns and fifty lines are what the layout of a terminal that has
/// not been resized yet gives, whatever the extent of its cells.
pub proof fn initial_counts_follow_pixels(cell_width: int, cell_height: int)
    requires
        1 <= cell_width,
        1 <= cell_height,
    ensures
        initial_geometry(cell_width, cell_height).counts_follow_pixels(),
{
    lemma_div_by_multiple(INITIAL_COLUMNS as int, cell_width);
    lemma_div_by_multiple(INITIAL_LINES as int, cell_height);
}

/// A resize that brings neither a layout nor a cell changes nothing, where
/// the counts are what the pixel sizes give or where no grid results.
pub proof fn empty_resize_changes_nothing(g: Geometry)
    requires
        g.counts_follow_pixels() || !fits(g, None, None),
    ensures
        resized(g, None, None) == g,
{
}

/// A count is the floor of the quotient: where a cell has an extent and the
/// count is not held to `MAX_COUNT`, that many cells fit into the layout and
/// one more does not.
pub proof fn count_is_floor(layout: int, cell: int)
    requires
        0 <= layout,
        0 < cell,
        layout / cell < MAX_COUNT,
    ensures
        0 <= cell_count(layout, cell),
        cell_count(layout, cell) * cell <= layout < (cell_count(layout, cell) + 1) * cell,
{
    let n = layout / cell;
    lemma_fundamental_div_mod(layout, cell);
    lemma_div_pos_is_pos(layout, cell);
    assert(layout == cell * n + layout % cell);
    assert(0 <= layout % cell < cell);
    assert(n * cell == cell * n) by (nonlinear_arith);
    assert((n + 1) * cell == cell * n + cell) by (nonlinear_arith);
}

/// A cell larger than the layout gives no grid: the count along that side is
/// zero.
pub proof fn larger_cell_counts_nothing(layout: int, cell: int)
    requires
        0 <= layout < cell,
    ensures
        cell_count(layout, cell) == 0,
{
    lemma_basic_div(layout, cell);
}

/// Resizing twice with the same sizes is resizing once.
pub proof fn resize_is_idempotent(g: Geometry, layout: Option<Size<u32>>, cell: Option<Size<u16>>)
    ensures
        fits(resized(g, layout, cell), layout, cell) == fits(g, layout, cell),
        resized(resized(g, layout, cell), layout, cell) == resized(g, layout, cell),
{
}

/// A resize along which a cell is larger than the layout, in width or in
/// height, changes no count.
pub proof fn zero_area_keeps_counts(g: Geometry, layout: Option<Size<u32>>, cell: Option<Size<u16>>)
    requires
        g.well_formed(),
        next_cell_width(g, cell) > next_layout_width(g, layout) || next_cell_height(g, cell)
            > next_layout_height(g, layout),
    ensures
        !fits(g, layout, cell),
        resized(g, layout, cell).columns == g.columns,
        resized(g, layout, cell).lines == g.lines,
{
    if next_cell_width(g, cell) > next_layout_width(g, layout) {
        larger_cell_counts_nothing(next_layout_width(g, layout), next_cell_width(g, cell));
    } else {
        larger_cell_counts_nothing(next_layout_height(g, layout), next_cell_height(g, cell));
    }
}

} // verus!
