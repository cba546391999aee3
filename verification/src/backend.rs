//! The session: its size, its snapshot of the terminal model, and the
//! dispatch of commands.
//!
//! The terminal model is shared with the loop that feeds it the output of the
//! process, so a session does not own it: each operation takes the model from
//! a caller that holds its lock. What a command owes the process is returned
//! as a request, for the owner of the channel to the process to carry out.

use crate::command::action_of;
use crate::command::Action;
use crate::command::BackendCommand;
use crate::command::ModelEvent;
use crate::command::Outcome;
use crate::command::PtyRequest;
use crate::escape::cursor_keys_len;
use crate::escape::push_decimal;
use crate::escape::push_signed_decimal;
use crate::escape::scroll_keys;
use crate::escape::scroll_letter;
use crate::escape::scroll_sequence;
use crate::escape::BRACKET;
use crate::escape::ESC;
use crate::escape::LESS_THAN;
use crate::escape::SEMICOLON;
use crate::model::alternate_scroll;
use crate::model::alt_screen;
use crate::model::blank_cell;
use crate::model::cell_under_cursor;
use crate::model::cursor_cell;
use crate::model::cursor_column;
use crate::model::cursor_inside;
use crate::model::cursor_line;
use crate::model::cursor_point;
use crate::model::display_offset;
use crate::model::empty_grid;
use crate::model::grid_columns;
use crate::model::grid_copy;
use crate::model::grid_lines;
use crate::model::grid_of;
use crate::model::has_alt_screen;
use crate::model::has_alternate_scrolling;
use crate::model::history_size;
use crate::model::model_columns;
use crate::model::model_lines;
use crate::model::new_term;
use crate::model::resize_term;
use crate::model::same_cursor;
use crate::model::same_extent;
use crate::model::same_mode;
use crate::model::scroll_lines;
use crate::model::scroll_to_bottom;
use crate::model::view_offset;
use crate::model::within_history;
use crate::model::EventProxy;
use crate::mouse::sgr_report;
use crate::mouse::MouseButton;
use crate::mouse::MouseMode;
use crate::mouse::Point;
use crate::mouse::PRESSED;
use crate::mouse::RELEASED;
use crate::size::fits;
use crate::size::initial_geometry;
use crate::size::next_cell_height;
use crate::size::next_cell_width;
use crate::size::next_layout_height;
use crate::size::next_layout_width;
use crate::size::resize_is_idempotent;
use crate::size::resized;
use crate::size::window_of;
use crate::size::zero_area_keeps_counts;
use crate::size::Geometry;
use crate::size::Size;
use crate::size::TerminalSize;
use alacritty_terminal::event::Event;
use alacritty_terminal::grid::Grid;
use alacritty_terminal::term::Term;
use tokio::sync::mpsc::Sender;
use vstd::prelude::*;

verus! {

/// The fewest columns that a model is given: a character of double width
/// takes two.
pub const MIN_MODEL_COLUMNS: usize = 2;

/// What a renderer draws: the grid of the model and the cell under its
/// cursor, copied at one moment.
pub struct RenderableContent {
    pub grid: Grid<alacritty_terminal::term::cell::Cell>,
    pub cursor: alacritty_terminal::term::cell::Cell,
}

impl Default for RenderableContent {
    /// An empty grid and a blank cell.
    fn default() -> (content: RenderableContent)
        ensures
            grid_columns(content.grid) == 0,
            grid_lines(content.grid) == 0,
            history_size(content.grid) == 0,
            display_offset(content.grid) == 0,
    {
        RenderableContent { grid: empty_grid(), cursor: blank_cell() }
    }
}

/// Whether a snapshot is what a model shows: its grid, and the cell under
/// the cursor of that grid.
pub open spec fn shows(content: RenderableContent, term: Term<EventProxy>) -> bool {
    &&& content.grid == grid_of(term)
    &&& content.cursor == cursor_cell(grid_of(term))
}

/// What taking a snapshot of a model leaves in place of the snapshot
/// `before`: what the model shows. A model whose cursor is on none of its
/// visible cells has no cell to show, and leaves the snapshot as it was.
pub open spec fn synced(before: RenderableContent, term: Term<EventProxy>, after: RenderableContent) -> bool {
    if cursor_inside(grid_of(term)) {
        shows(after, term)
    } else {
        after == before
    }
}

/// The position of the view after a scroll by `delta` lines from `offset`,
/// over a history of `history` lines. The model counts lines in `i32`: a
/// position is not moved past that range, and one beyond it is left alone.
pub open spec fn scrolled_offset(offset: nat, history: nat, delta: int) -> nat {
    if offset > i32::MAX {
        offset
    } else if offset + delta > i32::MAX {
        within_history(i32::MAX as int, history)
    } else {
        within_history(offset + delta, history)
    }
}

/// What a scroll by `delta` lines does. Nothing, if `delta` is zero. If the
/// model is on the alternate screen and has alternate scrolling on, the
/// process is sent cursor keys and the model is left alone; otherwise the
/// view moves and the process is sent nothing.
pub open spec fn scrolled(
    before: Term<EventProxy>,
    delta: int,
    after: Term<EventProxy>,
    request: PtyRequest,
) -> bool {
    if delta == 0 {
        &&& request is Idle
        &&& after == before
    } else if alternate_scroll(before) {
        &&& request matches PtyRequest::Input(bytes)
        &&& bytes@ == scroll_keys(delta)
        &&& after == before
    } else {
        &&& request is Idle
        &&& display_offset(grid_of(after)) == scrolled_offset(
            display_offset(grid_of(before)),
            history_size(grid_of(before)),
            delta,
        )
        &&& same_extent(grid_of(before), grid_of(after))
        &&& same_cursor(grid_of(before), grid_of(after))
        &&& same_mode(before, after)
    }
}

/// The columns that a model is given for a size of `columns` columns: as
/// many, but `MIN_MODEL_COLUMNS` at least.
pub open spec fn model_columns_for(columns: int) -> int {
    if columns < MIN_MODEL_COLUMNS {
        MIN_MODEL_COLUMNS as int
    } else {
        columns
    }
}

/// What a resize does to the model and to the process, given the size
/// `size` that the session has after it. Where a grid results, the process
/// is to be told its counts, and the model is given them, except that it is
/// not given fewer than `MIN_MODEL_COLUMNS` columns; a model whose cursor is
/// on none of its visible cells, as that of a model without cells, is left
/// alone. Where no grid results, model and process are left alone.
pub open spec fn resize_applied(
    applies: bool,
    size: Geometry,
    before: Term<EventProxy>,
    after: Term<EventProxy>,
    request: PtyRequest,
) -> bool {
    if applies {
        &&& request == PtyRequest::Resize(window_of(size))
        &&& if cursor_inside(grid_of(before)) {
            &&& grid_columns(grid_of(after)) == model_columns_for(size.columns)
            &&& grid_lines(grid_of(after)) == size.lines
            &&& same_mode(before, after)
        } else {
            after == before
        }
    } else {
        &&& request is Idle
        &&& after == before
    }
}

/// What a session holds, as plain values: the view of a `Backend`.
pub struct BackendView {
    /// The geometry of the terminal.
    pub size: Geometry,
    /// The snapshot last taken.
    pub content: RenderableContent,
    /// Whether the session has been shut down.
    pub closed: bool,
}

/// What a command does to a session `s0` and a model `t0`: the session
/// `s1`, the model `t1` and the answer that result.
pub open spec fn handled(
    s0: BackendView,
    t0: Term<EventProxy>,
    cmd: BackendCommand,
    s1: BackendView,
    t1: Term<EventProxy>,
    outcome: Outcome,
) -> bool {
    &&& s1.closed == s0.closed
    &&& match cmd {
        BackendCommand::ProcessAlacrittyEvent(event) => {
            &&& outcome.action == action_of(event)
            &&& outcome.request is Idle
            &&& s1.size == s0.size
            &&& t1 == t0
            &&& if event is Wakeup {
                synced(s0.content, t0, s1.content)
            } else {
                s1.content == s0.content
            }
        },
        BackendCommand::Write(bytes) => {
            &&& outcome.action is Ignore
            &&& outcome.request == PtyRequest::Input(bytes)
            &&& s1.size == s0.size
            &&& s1.content == s0.content
            &&& display_offset(grid_of(t1)) == 0
            &&& same_extent(grid_of(t0), grid_of(t1))
            &&& same_cursor(grid_of(t0), grid_of(t1))
            &&& same_mode(t0, t1)
        },
        BackendCommand::Scroll(delta) => {
            &&& outcome.action is Redraw
            &&& s1.size == s0.size
            &&& scrolled(t0, delta as int, t1, outcome.request)
            &&& synced(s0.content, t1, s1.content)
        },
        BackendCommand::Resize(layout_size, font_measure) => {
            &&& outcome.action is Redraw
            &&& s1.size == resized(s0.size, layout_size, font_measure)
            &&& resize_applied(fits(s0.size, layout_size, font_measure), s1.size, t0, t1, outcome.request)
            &&& synced(s0.content, t1, s1.content)
        },
        BackendCommand::MouseReport(mode, button, point, pressed) => {
            &&& outcome.action is Redraw
            &&& s1.size == s0.size
            &&& s1.content == s0.content
            &&& t1 == t0
            &&& match mode {
                MouseMode::Sgr => {
                    &&& outcome.request matches PtyRequest::Input(bytes)
                    &&& bytes@ == sgr_report(button, point, pressed)
                },
                MouseMode::Normal => outcome.request is Idle,
            }
        },
    }
}

/// What shutting a session down does: the first time the loop that reads
/// the process is owed its end, and every later time nothing.
pub open spec fn shut_down(s0: BackendView, s1: BackendView, request: PtyRequest) -> bool {
    &&& s1 == (BackendView { closed: true, ..s0 })
    &&& if s0.closed {
        request is Idle
    } else {
        request is Shutdown
    }
}

/// One terminal session: the size of its terminal and the snapshot of the
/// model that a renderer reads.
pub struct Backend {
    size: TerminalSize,
    last_content: RenderableContent,
    closed: bool,
}

impl View for Backend {
    type V = BackendView;

    closed spec fn view(&self) -> BackendView {
        BackendView { size: self.size@, content: self.last_content, closed: self.closed }
    }
}

impl Backend {
    /// A session with cells of the given pixel size, and the model that goes
    /// with it: eighty columns and fifty lines, reporting into the queue
    /// behind `event_sender`. The layout of the session is the one that
    /// holds just this grid, and its snapshot shows the new model.
    pub fn new(event_sender: Sender<Event>, font_size: Size<u16>) -> (made: (Backend, Term<EventProxy>))
        ensures
            made.0@.size == initial_geometry(font_size.width as int, font_size.height as int),
            made.0@.size.well_formed(),
            font_size.width >= 1 && font_size.height >= 1 ==> made.0@.size.counts_follow_pixels(),
            !made.0@.closed,
            shows(made.0@.content, made.1),
            grid_columns(grid_of(made.1)) == 80,
            grid_lines(grid_of(made.1)) == 50,
            history_size(grid_of(made.1)) == 0,
            display_offset(grid_of(made.1)) == 0,
            cursor_line(grid_of(made.1)) == 0,
            cursor_column(grid_of(made.1)) == 0,
            !alt_screen(made.1),
    {
        let size = TerminalSize::with_cell_size(font_size);
        let proxy = EventProxy::new(event_sender);
        let term = new_term(size.columns(), size.screen_lines(), proxy);
        let cursor = cell_under_cursor(&term);
        let grid = grid_copy(&term);
        (Backend { size, last_content: RenderableContent { grid, cursor }, closed: false }, term)
    }

    /// Carries out one command on the session and its model, and says what
    /// the caller is to do and what the process is owed.
    pub fn process_command(&mut self, term: &mut Term<EventProxy>, cmd: BackendCommand) -> (outcome: Outcome)
        ensures
            handled(old(self)@, *old(term), cmd, final(self)@, *final(term), outcome),
            final(self)@.size.well_formed(),
    {
        proof {
            use_type_invariant(&self.size);
            self.size.view_is_well_formed();
        }
        match cmd {
            BackendCommand::ProcessAlacrittyEvent(event) => {
                if let ModelEvent::Wakeup = event {
                    self.sync(term);
                }
                Outcome { action: Action::for_event(event), request: PtyRequest::Idle }
            },
            BackendCommand::Write(input) => {
                scroll_to_bottom(term);
                Outcome { action: Action::Ignore, request: PtyRequest::Input(input) }
            },
            BackendCommand::Scroll(delta) => {
                let request = Backend::scroll(term, delta);
                self.sync(term);
                Outcome { action: Action::Redraw, request }
            },
            BackendCommand::Resize(layout_size, font_measure) => {
                let request = self.resize(term, layout_size, font_measure);
                self.sync(term);
                Outcome { action: Action::Redraw, request }
            },
            BackendCommand::MouseReport(mode, button, point, pressed) => {
                let request = match mode {
                    MouseMode::Sgr => PtyRequest::Input(Backend::sgr_mouse_report(point, button, pressed)),
                    MouseMode::Normal => PtyRequest::Idle,
                };
                Outcome { action: Action::Redraw, request }
            },
        }
    }

    /// The SGR report of a mouse event.
    pub fn sgr_mouse_report(point: Point, button: MouseButton, pressed: bool) -> (report: Vec<u8>)
        ensures
            report@ == sgr_report(button, point, pressed),
    {
        let mut report: Vec<u8> = Vec::new();
        report.push(ESC);
        report.push(BRACKET);
        report.push(LESS_THAN);
        push_decimal(&mut report, button.code() as u128);
        report.push(SEMICOLON);
        push_decimal(&mut report, point.column as u128 + 1);
        report.push(SEMICOLON);
        push_signed_decimal(&mut report, point.line as i64 + 1);
        report.push(if pressed {
            PRESSED
        } else {
            RELEASED
        });
        assert(report@ =~= sgr_report(button, point, pressed));
        report
    }

    /// Takes over the pixel sizes that are given. If a grid results, the
    /// process is to be told and the model is resized to it; the model is
    /// not given fewer than `MIN_MODEL_COLUMNS` columns, and a model whose
    /// cursor is on none of its visible cells is left alone. If no grid
    /// results, the model is left alone.
    pub fn resize(
        &mut self,
        term: &mut Term<EventProxy>,
        layout_size: Option<Size<u32>>,
        font_measure: Option<Size<u16>>,
    ) -> (request: PtyRequest)
        ensures
            final(self)@.size == resized(old(self)@.size, layout_size, font_measure),
            final(self)@.size.well_formed(),
            final(self)@.content == old(self)@.content,
            final(self)@.closed == old(self)@.closed,
            resize_applied(
                fits(old(self)@.size, layout_size, font_measure),
                final(self)@.size,
                *old(term),
                *final(term),
                request,
            ),
    {
        if self.size.resize(layout_size, font_measure) {
            if Backend::cursor_is_inside(term) {
                let columns: usize = self.size.columns();
                let held: usize = if columns < MIN_MODEL_COLUMNS {
                    MIN_MODEL_COLUMNS
                } else {
                    columns
                };
                resize_term(term, held, self.size.screen_lines());
            }
            PtyRequest::Resize(self.size.window_size())
        } else {
            PtyRequest::Idle
        }
    }

    /// Whether a program that takes scrolling for itself runs in the model.
    pub fn in_alternate_scroll(term: &Term<EventProxy>) -> (alternate: bool)
        ensures
            alternate == alternate_scroll(*term),
    {
        has_alt_screen(term) && has_alternate_scrolling(term)
    }

    /// Scrolls by `delta` lines: the view of the model, or, if the model is
    /// on the alternate screen and has alternate scrolling on, the program
    /// that runs there, by way of cursor keys.
    pub fn scroll(term: &mut Term<EventProxy>, delta: i32) -> (request: PtyRequest)
        ensures
            scrolled(*old(term), delta as int, *final(term), request),
    {
        if delta == 0 {
            PtyRequest::Idle
        } else if Backend::in_alternate_scroll(term) {
            PtyRequest::Input(scroll_sequence(delta))
        } else {
            let offset: usize = view_offset(term);
            if offset <= i32::MAX as usize {
                let room: i32 = i32::MAX - (offset as i32);
                let step: i32 = if delta > room {
                    room
                } else {
                    delta
                };
                scroll_lines(term, step);
            }
            PtyRequest::Idle
        }
    }

    /// Whether the cursor of the model is on one of its visible cells.
    pub fn cursor_is_inside(term: &Term<EventProxy>) -> (inside: bool)
        ensures
            inside == cursor_inside(grid_of(*term)),
    {
        let point = cursor_point(term);
        let lines: usize = model_lines(term);
        let columns: usize = model_columns(term);
        point.line >= 0 && (point.line as usize) < lines && point.column < columns
    }

    /// Takes a new snapshot of the model. The model is only read: grid and
    /// cursor come from the one state in which it is handed in, and the
    /// snapshot is replaced as a whole. A model whose cursor is on none of
    /// its visible cells leaves the snapshot as it was.
    pub fn sync(&mut self, term: &Term<EventProxy>)
        ensures
            final(self)@.size == old(self)@.size,
            final(self)@.size.well_formed(),
            final(self)@.closed == old(self)@.closed,
            synced(old(self)@.content, *term, final(self)@.content),
    {
        proof {
            use_type_invariant(&self.size);
            self.size.view_is_well_formed();
        }
        if Backend::cursor_is_inside(term) {
            let cursor = cell_under_cursor(term);
            let grid = grid_copy(term);
            self.last_content = RenderableContent { grid, cursor };
        }
    }

    /// The snapshot last taken.
    pub fn renderable_content(&self) -> (content: &RenderableContent)
        ensures
            *content == self@.content,
    {
        &self.last_content
    }

    /// The size of the terminal.
    pub fn terminal_size(&self) -> (size: TerminalSize)
        ensures
            size@ == self@.size,
            size@.well_formed(),
    {
        proof {
            use_type_invariant(&self.size);
            self.size.view_is_well_formed();
        }
        self.size
    }

    /// Shuts the session down. The first call owes the loop that reads the
    /// process its end; any later call owes nothing.
    pub fn shutdown(&mut self) -> (request: PtyRequest)
        ensures
            shut_down(old(self)@, final(self)@, request),
    {
        if self.closed {
            PtyRequest::Idle
        } else {
            self.closed = true;
            PtyRequest::Shutdown
        }
    }
}

/// Typing returns the view to the live screen. Wherever the view of the
/// model was, after a `Write` it is at the bottom, and the snapshot taken
/// next shows it there.
pub proof fn write_scrolls_to_bottom(
    s0: BackendView,
    t0: Term<EventProxy>,
    bytes: Vec<u8>,
    s1: BackendView,
    t1: Term<EventProxy>,
    outcome: Outcome,
    content: RenderableContent,
)
    requires
        cursor_inside(grid_of(t0)),
        handled(s0, t0, BackendCommand::Write(bytes), s1, t1, outcome),
        synced(s1.content, t1, content),
    ensures
        display_offset(grid_of(t1)) == 0,
        display_offset(content.grid) == 0,
{
}

/// Outside the alternate screen with alternate scrolling, a scroll moves the
/// view by just `delta` lines and sends the process nothing, where the
/// history reaches that far and the model's count of lines, an `i32`, can
/// hold the new position.
pub proof fn scroll_moves_the_view(
    t0: Term<EventProxy>,
    delta: i32,
    t1: Term<EventProxy>,
    request: PtyRequest,
)
    requires
        scrolled(t0, delta as int, t1, request),
        !alternate_scroll(t0),
        display_offset(grid_of(t0)) <= i32::MAX,
        0 <= display_offset(grid_of(t0)) + delta <= history_size(grid_of(t0)),
        display_offset(grid_of(t0)) + delta <= i32::MAX,
    ensures
        request is Idle,
        display_offset(grid_of(t1)) == display_offset(grid_of(t0)) + delta,
{
}

/// On the alternate screen with alternate scrolling, a scroll sends the
/// process one cursor key of three bytes for each line, up for a scroll
/// back and down for a scroll forward, and leaves the model alone.
pub proof fn scroll_on_alternate_screen_sends_keys(
    t0: Term<EventProxy>,
    delta: i32,
    t1: Term<EventProxy>,
    request: PtyRequest,
)
    requires
        scrolled(t0, delta as int, t1, request),
        alternate_scroll(t0),
        delta != 0,
    ensures
        t1 == t0,
        request matches PtyRequest::Input(bytes) && bytes@ == scroll_keys(delta as int) && bytes@.len()
            == 3 * vstd::math::abs(delta as int),
{
    cursor_keys_len(vstd::math::abs(delta as int), scroll_letter(delta as int));
}

/// The snapshot that a scroll leaves shows the view where the scroll has
/// put it: moved once by `delta`, within the history, if the model is not on
/// the alternate screen with alternate scrolling, and where it was if it is.
pub proof fn snapshot_shows_scroll(
    s0: BackendView,
    t0: Term<EventProxy>,
    delta: i32,
    s1: BackendView,
    t1: Term<EventProxy>,
    outcome: Outcome,
)
    requires
        cursor_inside(grid_of(t0)),
        handled(s0, t0, BackendCommand::Scroll(delta), s1, t1, outcome),
    ensures
        shows(s1.content, t1),
        alternate_scroll(t0) ==> display_offset(s1.content.grid) == display_offset(grid_of(t0)),
        !alternate_scroll(t0) && delta != 0 ==> {
            &&& outcome.request is Idle
            &&& display_offset(s1.content.grid) == scrolled_offset(
                display_offset(grid_of(t0)),
                history_size(grid_of(t0)),
                delta as int,
            )
        },
{
}

/// The snapshot that a resize leaves has the counts that the model was
/// given, where a grid results and the cursor of the model is on a visible
/// cell before and afterwards.
pub proof fn snapshot_shows_resize(
    s0: BackendView,
    t0: Term<EventProxy>,
    layout_size: Option<Size<u32>>,
    font_measure: Option<Size<u16>>,
    s1: BackendView,
    t1: Term<EventProxy>,
    outcome: Outcome,
)
    requires
        handled(s0, t0, BackendCommand::Resize(layout_size, font_measure), s1, t1, outcome),
        fits(s0.size, layout_size, font_measure),
        cursor_inside(grid_of(t0)),
        cursor_inside(grid_of(t1)),
    ensures
        grid_columns(s1.content.grid) == model_columns_for(s1.size.columns),
        grid_lines(s1.content.grid) == s1.size.lines,
{
}

/// A snapshot holds what the model held when it was taken, and taking it
/// leaves the model as it was: a second snapshot of the same model is the
/// same snapshot.
pub proof fn sync_again_shows_the_same(
    before: RenderableContent,
    term: Term<EventProxy>,
    first: RenderableContent,
    second: RenderableContent,
)
    requires
        synced(before, term, first),
        synced(first, term, second),
    ensures
        second == first,
        cursor_inside(grid_of(term)) ==> first.grid == grid_of(term) && first.cursor == cursor_cell(
            grid_of(term),
        ),
{
}

/// The same resize dispatched twice gives the same size both times, and the
/// same request to the process.
pub proof fn resize_twice_gives_the_same(
    s0: BackendView,
    t0: Term<EventProxy>,
    layout_size: Option<Size<u32>>,
    font_measure: Option<Size<u16>>,
    s1: BackendView,
    t1: Term<EventProxy>,
    first: Outcome,
    s2: BackendView,
    t2: Term<EventProxy>,
    second: Outcome,
)
    requires
        handled(s0, t0, BackendCommand::Resize(layout_size, font_measure), s1, t1, first),
        handled(s1, t1, BackendCommand::Resize(layout_size, font_measure), s2, t2, second),
    ensures
        s2.size == s1.size,
        second.request == first.request,
{
    resize_is_idempotent(s0.size, layout_size, font_measure);
}

/// A resize with a cell larger than the layout, in width or in height,
/// changes no count, leaves model and process alone, and still asks for a
/// redraw.
pub proof fn zero_area_resize_redraws(
    s0: BackendView,
    t0: Term<EventProxy>,
    layout_size: Option<Size<u32>>,
    font_measure: Option<Size<u16>>,
    s1: BackendView,
    t1: Term<EventProxy>,
    outcome: Outcome,
)
    requires
        s0.size.well_formed(),
        handled(s0, t0, BackendCommand::Resize(layout_size, font_measure), s1, t1, outcome),
        next_cell_width(s0.size, font_measure) > next_layout_width(s0.size, layout_size)
            || next_cell_height(s0.size, font_measure) > next_layout_height(s0.size, layout_size),
    ensures
        s1.size.columns == s0.size.columns,
        s1.size.lines == s0.size.lines,
        outcome.action is Redraw,
        outcome.request is Idle,
        t1 == t0,
{
    zero_area_keeps_counts(s0.size, layout_size, font_measure);
}

/// Shutting a session down twice is shutting it down once: the second time
/// nothing is owed and nothing changes.
pub proof fn shutdown_is_idempotent(
    s0: BackendView,
    s1: BackendView,
    first: PtyRequest,
    s2: BackendView,
    second: PtyRequest,
)
    requires
        shut_down(s0, s1, first),
        shut_down(s1, s2, second),
    ensures
        second is Idle,
        s2 == s1,
{
}

} // verus!
