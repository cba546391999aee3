//! The terminal model of `alacritty_terminal`, as far as a session reads and
//! changes it, and the listener through which the model reports.
//!
//! What this module says of the model is not proved. The types are opaque,
//! the spec functions without a body name what a model holds, and each
//! function that calls the model states what the call does to those, as the
//! source of `alacritty_terminal` 0.24 and of `tokio` shows it.

use alacritty_terminal::event::Event;
use alacritty_terminal::event::EventListener;
use alacritty_terminal::grid::Dimensions;
use alacritty_terminal::grid::Grid;
use alacritty_terminal::grid::Scroll;
use alacritty_terminal::term::test::TermSize;
use alacritty_terminal::term::Config;
use alacritty_terminal::term::Term;
use alacritty_terminal::term::TermMode;
use crate::mouse::Point;
use tokio::sync::mpsc::Sender;
use vstd::prelude::*;

verus! {

/// `alacritty_terminal::term::Term`: grid, cursor, history and mode flags of
/// one terminal.
#[verifier::external_type_specification]
#[verifier::external_body]
#[verifier::reject_recursive_types(T)]
pub struct ExTerm<T>(Term<T>);

/// `alacritty_terminal::grid::Grid`: the lines of a terminal with their
/// cells, the cursor and the position of the view.
#[verifier::external_type_specification]
#[verifier::external_body]
#[verifier::reject_recursive_types(T)]
pub struct ExGrid<T>(Grid<T>);

/// `alacritty_terminal::term::cell::Cell`: one character with its colours
/// and flags.
#[verifier::external_type_specification]
#[verifier::external_body]
pub struct ExCell(alacritty_terminal::term::cell::Cell);

/// `alacritty_terminal::event::Event`: a notification of the model or of the
/// loop that reads the process.
#[verifier::external_type_specification]
#[verifier::external_body]
pub struct ExEvent(Event);

/// `tokio::sync::mpsc::Sender`: the sending half of a bounded queue.
#[verifier::external_type_specification]
#[verifier::external_body]
#[verifier::reject_recursive_types(T)]
pub struct ExSender<T>(Sender<T>);

/// `Sender::clone`: another handle to the same queue.
pub assume_specification<T>[ <Sender<T> as Clone>::clone ](sender: &Sender<T>) -> Sender<T>;

/// Forwards the notifications of a model into the application's queue.
#[derive(Clone)]
pub struct EventProxy {
    sender: Sender<Event>,
}

impl EventProxy {
    /// The handle of the queue that the listener feeds.
    pub closed spec fn sender(self) -> Sender<Event> {
        self.sender
    }

    /// A listener that feeds the queue behind `sender`.
    pub fn new(sender: Sender<Event>) -> (proxy: EventProxy)
        ensures
            proxy.sender() == sender,
    {
        EventProxy { sender }
    }
}

impl EventListener for EventProxy {
    /// `Sender::try_send`: the event is queued if the queue has room and is
    /// open, and dropped otherwise. The call does not wait and reports
    /// nothing.
    #[verifier::external_body]
    fn send_event(&self, event: Event) {
        let _ = self.sender.try_send(event);
    }
}

/// The grid that a model shows: what `Term::grid` returns.
pub uninterp spec fn grid_of(term: Term<EventProxy>) -> Grid<alacritty_terminal::term::cell::Cell>;

/// Whether a model is on the alternate screen: whether `Term::mode` contains
/// `ALT_SCREEN`.
pub uninterp spec fn alt_screen(term: Term<EventProxy>) -> bool;

/// Whether a model has alternate scrolling on: whether `Term::mode` contains
/// `ALTERNATE_SCROLL`.
pub uninterp spec fn alternate_scrolling(term: Term<EventProxy>) -> bool;

/// By how many lines the view is scrolled back into the history: what
/// `Grid::display_offset` returns.
pub uninterp spec fn display_offset(grid: Grid<alacritty_terminal::term::cell::Cell>) -> nat;

/// How many lines of history a grid holds: what `Dimensions::history_size`
/// returns.
pub uninterp spec fn history_size(grid: Grid<alacritty_terminal::term::cell::Cell>) -> nat;

/// The columns of a grid: what `Dimensions::columns` returns.
pub uninterp spec fn grid_columns(grid: Grid<alacritty_terminal::term::cell::Cell>) -> nat;

/// The visible lines of a grid: what `Dimensions::screen_lines` returns.
pub uninterp spec fn grid_lines(grid: Grid<alacritty_terminal::term::cell::Cell>) -> nat;

/// The line of the cursor of a grid, counted from the top of the screen:
/// the field `cursor.point.line`.
pub uninterp spec fn cursor_line(grid: Grid<alacritty_terminal::term::cell::Cell>) -> int;

/// The column of the cursor of a grid: the field `cursor.point.column`.
pub uninterp spec fn cursor_column(grid: Grid<alacritty_terminal::term::cell::Cell>) -> nat;

/// The cell under the cursor of a grid: what indexing the grid by
/// `cursor.point` gives.
pub uninterp spec fn cursor_cell(
    grid: Grid<alacritty_terminal::term::cell::Cell>,
) -> alacritty_terminal::term::cell::Cell;

/// Whether a program that takes scrolling for itself runs in the model: the
/// model is on the alternate screen and has alternate scrolling on.
pub open spec fn alternate_scroll(term: Term<EventProxy>) -> bool {
    alt_screen(term) && alternate_scrolling(term)
}

/// Two models in the same mode, as far as scrolling goes.
pub open spec fn same_mode(a: Term<EventProxy>, b: Term<EventProxy>) -> bool {
    &&& alt_screen(a) == alt_screen(b)
    &&& alternate_scrolling(a) == alternate_scrolling(b)
}

/// Two grids of the same extent: columns, visible lines and history.
pub open spec fn same_extent(
    a: Grid<alacritty_terminal::term::cell::Cell>,
    b: Grid<alacritty_terminal::term::cell::Cell>,
) -> bool {
    &&& grid_columns(a) == grid_columns(b)
    &&& grid_lines(a) == grid_lines(b)
    &&& history_size(a) == history_size(b)
}

/// Two grids with the cursor at the same place.
pub open spec fn same_cursor(
    a: Grid<alacritty_terminal::term::cell::Cell>,
    b: Grid<alacritty_terminal::term::cell::Cell>,
) -> bool {
    &&& cursor_line(a) == cursor_line(b)
    &&& cursor_column(a) == cursor_column(b)
}

/// Whether the cursor of a grid is on one of its visible cells.
pub open spec fn cursor_inside(grid: Grid<alacritty_terminal::term::cell::Cell>) -> bool {
    &&& 0 <= cursor_line(grid) < grid_lines(grid)
    &&& cursor_column(grid) < grid_columns(grid)
}

/// A position of the view held to what a history of `history` lines allows.
pub open spec fn within_history(target: int, history: nat) -> nat {
    if target < 0 {
        0
    } else if target > history {
        history
    } else {
        target as nat
    }
}

/// `Term::new` with `Config::default()`: a model of the given dimensions
/// that reports to `proxy`. Its view is at the bottom, it holds no history,
/// its cursor is on the first cell, and it is on the primary screen. The
/// dimensions are those that a terminal can have: two columns and a line at
/// least, and no more of either than sixteen bits count.
#[verifier::external_body]
pub(crate) fn new_term(columns: usize, lines: usize, proxy: EventProxy) -> (term: Term<EventProxy>)
    requires
        2 <= columns <= u16::MAX,
        1 <= lines <= u16::MAX,
    ensures
        grid_columns(grid_of(term)) == columns,
        grid_lines(grid_of(term)) == lines,
        display_offset(grid_of(term)) == 0,
        history_size(grid_of(term)) == 0,
        cursor_line(grid_of(term)) == 0,
        cursor_column(grid_of(term)) == 0,
        !alt_screen(term),
{
    Term::new(Config::default(), &TermSize::new(columns, lines), proxy)
}

/// `Dimensions::columns` of a model.
#[verifier::external_body]
pub(crate) fn model_columns(term: &Term<EventProxy>) -> (columns: usize)
    ensures
        columns == grid_columns(grid_of(*term)),
{
    term.columns()
}

/// `Dimensions::screen_lines` of a model.
#[verifier::external_body]
pub(crate) fn model_lines(term: &Term<EventProxy>) -> (lines: usize)
    ensures
        lines == grid_lines(grid_of(*term)),
{
    term.screen_lines()
}

/// The field `cursor.point` of `Term::grid`, as plain numbers.
#[verifier::external_body]
pub(crate) fn cursor_point(term: &Term<EventProxy>) -> (point: Point)
    ensures
        point.line == cursor_line(grid_of(*term)),
        point.column == cursor_column(grid_of(*term)),
{
    let point = term.grid().cursor.point;
    Point { line: point.line.0, column: point.column.0 }
}

/// `Grid::display_offset` of `Term::grid`.
#[verifier::external_body]
pub(crate) fn view_offset(term: &Term<EventProxy>) -> (offset: usize)
    ensures
        offset == display_offset(grid_of(*term)),
{
    term.grid().display_offset()
}

/// `TermMode::contains` on `Term::mode`, asked for `ALT_SCREEN`.
#[verifier::external_body]
pub(crate) fn has_alt_screen(term: &Term<EventProxy>) -> (set: bool)
    ensures
        set == alt_screen(*term),
{
    term.mode().contains(TermMode::ALT_SCREEN)
}

/// `TermMode::contains` on `Term::mode`, asked for `ALTERNATE_SCROLL`.
#[verifier::external_body]
pub(crate) fn has_alternate_scrolling(term: &Term<EventProxy>) -> (set: bool)
    ensures
        set == alternate_scrolling(*term),
{
    term.mode().contains(TermMode::ALTERNATE_SCROLL)
}

/// `Term::scroll_display` with `Scroll::Bottom`: the view returns to the
/// bottom. Extent, cursor and mode stay.
#[verifier::external_body]
pub(crate) fn scroll_to_bottom(term: &mut Term<EventProxy>)
    ensures
        display_offset(grid_of(*final(term))) == 0,
        same_extent(grid_of(*old(term)), grid_of(*final(term))),
        same_cursor(grid_of(*old(term)), grid_of(*final(term))),
        same_mode(*old(term), *final(term)),
{
    term.scroll_display(Scroll::Bottom);
}

/// `Grid::scroll_display` with `Scroll::Delta`, on `Term::grid_mut`: the view
/// moves back by `delta` lines, as far as the history allows. Extent, cursor
/// and mode stay. The grid adds in `i32`: the sum has to fit.
#[verifier::external_body]
pub(crate) fn scroll_lines(term: &mut Term<EventProxy>, delta: i32)
    requires
        display_offset(grid_of(*old(term))) <= i32::MAX,
        display_offset(grid_of(*old(term))) + delta <= i32::MAX,
    ensures
        display_offset(grid_of(*final(term))) == within_history(
            display_offset(grid_of(*old(term))) + delta,
            history_size(grid_of(*old(term))),
        ),
        same_extent(grid_of(*old(term)), grid_of(*final(term))),
        same_cursor(grid_of(*old(term)), grid_of(*final(term))),
        same_mode(*old(term), *final(term)),
{
    term.grid_mut().scroll_display(Scroll::Delta(delta));
}

/// `Term::resize`: the model has the given dimensions afterwards. The mode
/// stays. The model has to have lines already and its cursor on one of its
/// visible cells, which the reflow of its lines counts from; and it is not
/// given fewer than the two columns that a character of double width takes,
/// nor more columns or lines than sixteen bits count.
#[verifier::external_body]
pub(crate) fn resize_term(term: &mut Term<EventProxy>, columns: usize, lines: usize)
    requires
        2 <= columns <= u16::MAX,
        1 <= lines <= u16::MAX,
        grid_lines(grid_of(*old(term))) >= 1,
        cursor_inside(grid_of(*old(term))),
    ensures
        grid_columns(grid_of(*final(term))) == columns,
        grid_lines(grid_of(*final(term))) == lines,
        same_mode(*old(term), *final(term)),
{
    term.resize(TermSize::new(columns, lines));
}

/// `Term::grid` indexed by its field `cursor.point`, copied: the cell under
/// the cursor. The cursor has to be on a visible cell.
#[verifier::external_body]
pub(crate) fn cell_under_cursor(term: &Term<EventProxy>) -> (cell: alacritty_terminal::term::cell::Cell)
    requires
        cursor_inside(grid_of(*term)),
    ensures
        cell == cursor_cell(grid_of(*term)),
{
    term.grid()[term.grid().cursor.point].clone()
}

/// `Term::grid`, copied.
#[verifier::external_body]
pub(crate) fn grid_copy(term: &Term<EventProxy>) -> (grid: Grid<alacritty_terminal::term::cell::Cell>)
    ensures
        grid == grid_of(*term),
{
    term.grid().clone()
}

/// `Grid::new` with no lines, no columns and no history.
#[verifier::external_body]
pub(crate) fn empty_grid() -> (grid: Grid<alacritty_terminal::term::cell::Cell>)
    ensures
        grid_columns(grid) == 0,
        grid_lines(grid) == 0,
        history_size(grid) == 0,
        display_offset(grid) == 0,
{
    Grid::new(0, 0, 0)
}

/// `Cell::default`.
#[verifier::external_body]
pub(crate) fn blank_cell() -> alacritty_terminal::term::cell::Cell {
    alacritty_terminal::term::cell::Cell::default()
}

} // verus!
