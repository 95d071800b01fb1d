//! The simulation state: the current table, the clock that decides when a
//! generation is computed, and the cursor used to edit cells while paused.

use crate::grid::{
    cells_of, dead_cells, has_shape, initialize_empty_game_table, initialize_game_table,
    lemma_wrap_step, live_at, neighbour_count, next_generation, toggled, wrap, GameTable,
};
use vstd::prelude::*;

verus! {

/// The rate, in generations per second, that a new simulation starts with.
pub const DEFAULT_MAX_UPDATE_PER_SECOND: u16 = 10;

/// The state of one run of the simulation.
pub struct App {
    /// Set once a quit command has been seen.
    pub exit: bool,
    /// The current generation.
    pub game_table: GameTable,
    /// `(height, width)` of the table, fixed for the whole run.
    pub game_table_size: (usize, usize),
    /// Generations per second while running; never below 1.
    pub update_per_second_max: u16,
    /// Whether the simulation is paused.
    pub game_pause: bool,
    /// `(row, column)` of the editing cursor.
    pub game_table_user_cursor: (usize, usize),
    /// A single generation has been asked for while paused.
    pub step_by_step_next: bool,
}

/// The abstract state of an [`App`].
pub struct AppView {
    pub exit: bool,
    pub cells: Seq<Seq<bool>>,
    pub height: int,
    pub width: int,
    pub rate: int,
    pub paused: bool,
    pub cursor: (int, int),
    pub step_requested: bool,
}

/// A coordinate `i` lies on an axis of length `n` (any value will do on an empty axis).
pub open spec fn on_axis(i: int, n: int) -> bool {
    n == 0 || 0 <= i < n
}

/// Moving one step along an axis of length `n`, with wrap-around; nothing moves on an empty axis.
pub open spec fn step_along(i: int, delta: int, n: int) -> int {
    if n == 0 {
        i
    } else {
        wrap(i + delta, n)
    }
}

/// The elapsed time is at least one update interval, `1 / rate` seconds.
pub open spec fn rate_gate_open(elapsed_nanos: int, rate: int) -> bool {
    elapsed_nanos * rate >= 1_000_000_000
}

/// A key press, as far as the simulation tells keys apart.
#[derive(Clone, Copy, Debug, PartialEq, Eq, Structural)]
pub enum Key {
    /// A character key.
    Char(char),
    Left,
    Right,
    Up,
    Down,
    /// Any other key.
    Other,
}

/// What a call of [`App::advance`] did.
#[derive(Clone, Copy, Debug, PartialEq, Eq, Structural)]
pub enum Advance {
    /// No generation was computed.
    Idle,
    /// A generation was computed because the update interval had passed.
    Scheduled,
    /// A generation was computed for a single-step request while paused.
    Stepped,
}

impl AppView {
    /// The table has the stated dimensions, the rate is at least 1 and the
    /// cursor lies on the grid.
    pub open spec fn inv(&self) -> bool {
        &&& has_shape(self.cells, self.height, self.width)
        &&& self.height >= 0
        &&& self.width >= 0
        &&& 1 <= self.rate <= u16::MAX
        &&& on_axis(self.cursor.0, self.height)
        &&& on_axis(self.cursor.1, self.width)
    }

    /// The state after the clock has been consulted, `elapsed_nanos` after the
    /// last scheduled generation.
    pub open spec fn advanced(self, elapsed_nanos: int) -> AppView {
        if !self.paused && rate_gate_open(elapsed_nanos, self.rate) {
            AppView { cells: next_generation(self.cells, self.height, self.width), ..self }
        } else if self.paused && self.step_requested {
            AppView {
                cells: next_generation(self.cells, self.height, self.width),
                step_requested: false,
                ..self
            }
        } else {
            self
        }
    }

    /// The cell under the cursor flipped, while paused; otherwise unchanged.
    pub open spec fn cell_switched(self) -> AppView {
        if self.paused && self.cursor.0 < self.height && self.cursor.1 < self.width {
            AppView { cells: toggled(self.cells, self.cursor.0, self.cursor.1), ..self }
        } else {
            self
        }
    }

    /// The rate lowered by `n`, unless that would leave it below 1.
    pub open spec fn rate_decreased(self, n: int) -> AppView {
        if self.rate > n {
            AppView { rate: self.rate - n, ..self }
        } else {
            self
        }
    }

    /// Paused, with a single step requested.
    pub open spec fn step_set(self) -> AppView {
        AppView { paused: true, step_requested: true, ..self }
    }

    /// The state after the key `key` was pressed.
    pub open spec fn after_key(self, key: Key) -> AppView {
        match key {
            Key::Char('q') => AppView { exit: true, ..self },
            Key::Char(' ') => AppView { paused: !self.paused, ..self },
            Key::Left => self.cursor_moved(0, -1),
            Key::Right => self.cursor_moved(0, 1),
            Key::Up => self.cursor_moved(-1, 0),
            Key::Down => self.cursor_moved(1, 0),
            Key::Char('s') => self.cell_switched(),
            Key::Char('a') => self.rate_decreased(1),
            Key::Char('d') => if self.rate < u16::MAX {
                AppView { rate: self.rate + 1, ..self }
            } else {
                self
            },
            Key::Char('r') => AppView { rate: DEFAULT_MAX_UPDATE_PER_SECOND as int, ..self },
            Key::Char('t') => self.step_set(),
            Key::Char('n') => AppView { cells: dead_cells(self.height, self.width), ..self },
            _ => self,
        }
    }

    /// The cursor moved by `dr` rows and `dc` columns (each -1, 0 or 1), wrapping around.
    pub open spec fn cursor_moved(self, dr: int, dc: int) -> AppView {
        AppView {
            cursor: (
                if dr == 0 {
                    self.cursor.0
                } else {
                    step_along(self.cursor.0, dr, self.height)
                },
                if dc == 0 {
                    self.cursor.1
                } else {
                    step_along(self.cursor.1, dc, self.width)
                },
            ),
            ..self
        }
    }

    /// Which kind of generation, if any, [`AppView::advanced`] computes.
    pub open spec fn advance_kind(self, elapsed_nanos: int) -> Advance {
        if !self.paused && rate_gate_open(elapsed_nanos, self.rate) {
            Advance::Scheduled
        } else if self.paused && self.step_requested {
            Advance::Stepped
        } else {
            Advance::Idle
        }
    }
}

impl View for App {
    type V = AppView;

    open spec fn view(&self) -> AppView {
        AppView {
            exit: self.exit,
            cells: cells_of(&self.game_table),
            height: self.game_table_size.0 as int,
            width: self.game_table_size.1 as int,
            rate: self.update_per_second_max as int,
            paused: self.game_pause,
            cursor: (self.game_table_user_cursor.0 as int, self.game_table_user_cursor.1 as int),
            step_requested: self.step_by_step_next,
        }
    }
}

/// The coordinate one step before `i` on a ring of `n` positions.
fn ring_prev(i: usize, n: usize) -> (p: usize)
    requires
        i < n,
    ensures
        p as int == wrap(i - 1, n as int),
        p < n,
{
    proof {
        lemma_wrap_step(i - 1, n as int);
    }
    if i == 0 {
        n - 1
    } else {
        i - 1
    }
}

/// The coordinate one step after `i` on a ring of `n` positions.
fn ring_next(i: usize, n: usize) -> (p: usize)
    requires
        i < n,
    ensures
        p as int == wrap(i + 1, n as int),
        p < n,
{
    proof {
        lemma_wrap_step(i + 1, n as int);
    }
    if i + 1 == n {
        0
    } else {
        i + 1
    }
}

/// 1 when the cell at `(r, c)` is live, else 0; `(r, c)` is the wrapped
/// position of `(i, j)`.
fn live_cell(t: &GameTable, r: usize, c: usize, Ghost(i): Ghost<int>, Ghost(j): Ghost<int>, Ghost(
    height,
): Ghost<int>, Ghost(width): Ghost<int>) -> (v: u8)
    requires
        has_shape(cells_of(t), height, width),
        r < height,
        c < width,
        r == wrap(i, height),
        c == wrap(j, width),
    ensures
        v as int == live_at(cells_of(t), height, width, i, j),
{
    assert(cells_of(t)[r as int].len() == width);
    if t[r][c] {
        1
    } else {
        0
    }
}

impl App {
    /// The state invariant.
    pub open spec fn wf(&self) -> bool {
        self@.inv()
    }

    /// The number of live cells among the eight toroidal neighbours of `(x, y)` in `game_table`.
    pub fn count_number_of_neighbour(&self, game_table: &GameTable, x: usize, y: usize) -> (n: u8)
        requires
            has_shape(
                cells_of(game_table),
                self.game_table_size.0 as int,
                self.game_table_size.1 as int,
            ),
            x < self.game_table_size.0,
            y < self.game_table_size.1,
        ensures
            n as int == neighbour_count(
                cells_of(game_table),
                self.game_table_size.0 as int,
                self.game_table_size.1 as int,
                x as int,
                y as int,
            ),
    {
        let height = self.game_table_size.0;
        let width = self.game_table_size.1;
        let ghost (h, w, r, c) = (height as int, width as int, x as int, y as int);
        let up = ring_prev(x, height);
        let down = ring_next(x, height);
        let left = ring_prev(y, width);
        let right = ring_next(y, width);
        proof {
            lemma_wrap_step(r, h);
            lemma_wrap_step(c, w);
        }
        let (gh, gw) = (Ghost(h), Ghost(w));
        let n_up_left = live_cell(game_table, up, left, Ghost(r - 1), Ghost(c - 1), gh, gw);
        let n_up = live_cell(game_table, up, y, Ghost(r - 1), Ghost(c), gh, gw);
        let n_up_right = live_cell(game_table, up, right, Ghost(r - 1), Ghost(c + 1), gh, gw);
        let n_left = live_cell(game_table, x, left, Ghost(r), Ghost(c - 1), gh, gw);
        let n_right = live_cell(game_table, x, right, Ghost(r), Ghost(c + 1), gh, gw);
        let n_down_left = live_cell(game_table, down, left, Ghost(r + 1), Ghost(c - 1), gh, gw);
        let n_down = live_cell(game_table, down, y, Ghost(r + 1), Ghost(c), gh, gw);
        let n_down_right = live_cell(game_table, down, right, Ghost(r + 1), Ghost(c + 1), gh, gw);
        n_up_left + n_up + n_up_right + n_left + n_right + n_down_left + n_down + n_down_right
    }

    /// The next generation of `game_table`, computed into a fresh table.
    pub fn update_game_table(&self, game_table: GameTable) -> (next: GameTable)
        requires
            has_shape(
                cells_of(&game_table),
                self.game_table_size.0 as int,
                self.game_table_size.1 as int,
            ),
        ensures
            has_shape(
                cells_of(&next),
                self.game_table_size.0 as int,
                self.game_table_size.1 as int,
            ),
            cells_of(&next) == next_generation(
                cells_of(&game_table),
                self.game_table_size.0 as int,
                self.game_table_size.1 as int,
            ),
    {
        let height = self.game_table_size.0;
        let width = self.game_table_size.1;
        let ghost old_cells = cells_of(&game_table);
        let ghost target = next_generation(old_cells, height as int, width as int);
        let mut new_game_table: GameTable = Vec::new();
        let mut x: usize = 0;
        while x < height
            invariant
                x <= height,
                height == self.game_table_size.0,
                width == self.game_table_size.1,
                old_cells == cells_of(&game_table),
                has_shape(old_cells, height as int, width as int),
                target == next_generation(old_cells, height as int, width as int),
                new_game_table@.len() == x,
                forall|r: int| 0 <= r < x ==> #[trigger] new_game_table@[r]@ == target[r],
            decreases height - x,
        {
            let mut row: Vec<bool> = Vec::new();
            let mut y: usize = 0;
            while y < width
                invariant
                    x < height,
                    y <= width,
                    height == self.game_table_size.0,
                    width == self.game_table_size.1,
                    old_cells == cells_of(&game_table),
                    has_shape(old_cells, height as int, width as int),
                    target == next_generation(old_cells, height as int, width as int),
                    row@.len() == y,
                    forall|c: int| 0 <= c < y ==> #[trigger] row@[c] == target[x as int][c],
                decreases width - y,
            {
                let neighbour = self.count_number_of_neighbour(&game_table, x, y);
                assert(old_cells[x as int].len() == width);
                let alive = game_table[x][y];
                let new_cell_state = if alive {
                    neighbour == 2 || neighbour == 3
                } else {
                    neighbour == 3
                };
                row.push(new_cell_state);
                y = y + 1;
            }
            assert(row@ =~= target[x as int]);
            new_game_table.push(row);
            x = x + 1;
        }
        assert(cells_of(&new_game_table) =~= target);
        new_game_table
    }
}

impl App {
    /// A running simulation over `game_table`, whose dimensions are `game_table_size`,
    /// at the default rate, with the cursor at the origin.
    pub fn from_game_table(game_table_size: (usize, usize), game_table: GameTable) -> (app: App)
        requires
            has_shape(cells_of(&game_table), game_table_size.0 as int, game_table_size.1 as int),
        ensures
            app.wf(),
            app@ == (AppView {
                exit: false,
                cells: cells_of(&game_table),
                height: game_table_size.0 as int,
                width: game_table_size.1 as int,
                rate: DEFAULT_MAX_UPDATE_PER_SECOND as int,
                paused: false,
                cursor: (0, 0),
                step_requested: false,
            }),
    {
        App {
            exit: false,
            game_table,
            game_table_size,
            update_per_second_max: DEFAULT_MAX_UPDATE_PER_SECOND,
            game_pause: false,
            game_table_user_cursor: (0, 0),
            step_by_step_next: false,
        }
    }

    /// A running simulation over a randomly seeded table of `game_table_size`
    /// (height, width), at the default rate, with the cursor at the origin.
    pub fn new(game_table_size: (usize, usize)) -> (app: App)
        ensures
            app.wf(),
            app@.height == game_table_size.0,
            app@.width == game_table_size.1,
            app@.rate == DEFAULT_MAX_UPDATE_PER_SECOND,
            !app@.exit,
            !app@.paused,
            !app@.step_requested,
            app@.cursor == (0int, 0int),
    {
        App::from_game_table(game_table_size, initialize_game_table(game_table_size))
    }

    /// Replaces the current table with its next generation.
    fn replace_with_next_generation(&mut self)
        requires
            old(self).wf(),
        ensures
            final(self).wf(),
            final(self)@ == (AppView {
                cells: next_generation(old(self)@.cells, old(self)@.height, old(self)@.width),
                ..old(self)@
            }),
    {
        let mut table: GameTable = Vec::new();
        std::mem::swap(&mut table, &mut self.game_table);
        self.game_table = self.update_game_table(table);
    }

    /// Consults the clock, `since_last_update_nanos` after the last scheduled
    /// generation: while running, one generation is computed once the update
    /// interval has passed; while paused, one is computed for a pending
    /// single-step request, which is then cleared.
    pub fn advance(&mut self, since_last_update_nanos: u64) -> (kind: Advance)
        requires
            old(self).wf(),
        ensures
            final(self).wf(),
            final(self)@ == old(self)@.advanced(since_last_update_nanos as int),
            kind == old(self)@.advance_kind(since_last_update_nanos as int),
    {
        if !self.game_pause {
            let elapsed = since_last_update_nanos as u128;
            let rate = self.update_per_second_max as u128;
            assert(elapsed * rate <= u64::MAX as int * u16::MAX as int) by (nonlinear_arith)
                requires
                    elapsed <= u64::MAX,
                    rate <= u16::MAX,
            ;
            if elapsed * rate >= 1_000_000_000 {
                self.replace_with_next_generation();
                return Advance::Scheduled;
            }
            Advance::Idle
        } else if self.step_by_step_next {
            self.replace_with_next_generation();
            self.step_by_step_next = false;
            Advance::Stepped
        } else {
            Advance::Idle
        }
    }

    /// Switches between running and paused.
    pub fn toggle_game_pause(&mut self)
        requires
            old(self).wf(),
        ensures
            final(self).wf(),
            final(self)@ == (AppView { paused: !old(self)@.paused, ..old(self)@ }),
    {
        self.game_pause = !self.game_pause;
    }

    /// Moves the cursor one column left, from the first column to the last.
    pub fn game_table_user_cursor_move_left(&mut self)
        requires
            old(self).wf(),
        ensures
            final(self).wf(),
            final(self)@ == old(self)@.cursor_moved(0, -1),
            old(self)@.width > 0 && old(self)@.cursor.1 == 0 ==> final(self)@.cursor.1
                == old(self)@.width - 1,
    {
        proof {
            if self.game_table_size.1 > 0 {
                lemma_wrap_step(self.game_table_user_cursor.1 - 1, self.game_table_size.1 as int);
            }
        }
        if self.game_table_size.1 == 0 {
        } else if self.game_table_user_cursor.1 > 0 {
            self.game_table_user_cursor.1 = self.game_table_user_cursor.1 - 1;
        } else {
            self.game_table_user_cursor.1 = self.game_table_size.1 - 1;
        }
    }

    /// Moves the cursor one column right, from the last column to the first.
    pub fn game_table_user_cursor_move_right(&mut self)
        requires
            old(self).wf(),
        ensures
            final(self).wf(),
            final(self)@ == old(self)@.cursor_moved(0, 1),
            old(self)@.width > 0 && old(self)@.cursor.1 == old(self)@.width - 1 ==> final(self)@.cursor.1 == 0,
    {
        proof {
            if self.game_table_size.1 > 0 {
                lemma_wrap_step(self.game_table_user_cursor.1 + 1, self.game_table_size.1 as int);
            }
        }
        if self.game_table_size.1 == 0 {
        } else if self.game_table_user_cursor.1 < self.game_table_size.1 - 1 {
            self.game_table_user_cursor.1 = self.game_table_user_cursor.1 + 1;
        } else {
            self.game_table_user_cursor.1 = 0;
        }
    }

    /// Moves the cursor one row up, from the first row to the last.
    pub fn game_table_user_cursor_move_up(&mut self)
        requires
            old(self).wf(),
        ensures
            final(self).wf(),
            final(self)@ == old(self)@.cursor_moved(-1, 0),
            old(self)@.height > 0 && old(self)@.cursor.0 == 0 ==> final(self)@.cursor.0
                == old(self)@.height - 1,
    {
        proof {
            if self.game_table_size.0 > 0 {
                lemma_wrap_step(self.game_table_user_cursor.0 - 1, self.game_table_size.0 as int);
            }
        }
        if self.game_table_size.0 == 0 {
        } else if self.game_table_user_cursor.0 > 0 {
            self.game_table_user_cursor.0 = self.game_table_user_cursor.0 - 1;
        } else {
            self.game_table_user_cursor.0 = self.game_table_size.0 - 1;
        }
    }

    /// Moves the cursor one row down, from the last row to the first.
    pub fn game_table_user_cursor_move_down(&mut self)
        requires
            old(self).wf(),
        ensures
            final(self).wf(),
            final(self)@ == old(self)@.cursor_moved(1, 0),
            old(self)@.height > 0 && old(self)@.cursor.0 == old(self)@.height - 1 ==> final(self)@.cursor.0 == 0,
    {
        proof {
            if self.game_table_size.0 > 0 {
                lemma_wrap_step(self.game_table_user_cursor.0 + 1, self.game_table_size.0 as int);
            }
        }
        if self.game_table_size.0 == 0 {
        } else if self.game_table_user_cursor.0 < self.game_table_size.0 - 1 {
            self.game_table_user_cursor.0 = self.game_table_user_cursor.0 + 1;
        } else {
            self.game_table_user_cursor.0 = 0;
        }
    }
}

impl App {
    /// Flips the cell under the cursor; only while paused.
    pub fn switch_cell_state(&mut self)
        requires
            old(self).wf(),
        ensures
            final(self).wf(),
            final(self)@ == old(self)@.cell_switched(),
    {
        let x = self.game_table_user_cursor.0;
        let y = self.game_table_user_cursor.1;
        if self.game_pause && x < self.game_table_size.0 && y < self.game_table_size.1 {
            let ghost before = self@;
            assert(before.cells[x as int].len() == before.width);
            let mut row: Vec<bool> = Vec::new();
            std::mem::swap(&mut row, &mut self.game_table[x]);
            let flipped = !row[y];
            row.set(y, flipped);
            std::mem::swap(&mut row, &mut self.game_table[x]);
            assert(self@.cells =~~= toggled(before.cells, x as int, y as int));
        }
    }

    /// Raises the rate by `update_per_second`.
    pub fn increase_update_per_second_max(&mut self, update_per_second: u16)
        requires
            old(self).wf(),
            old(self).update_per_second_max + update_per_second <= u16::MAX,
        ensures
            final(self).wf(),
            final(self)@ == (AppView { rate: old(self)@.rate + update_per_second, ..old(self)@ }),
    {
        self.update_per_second_max = self.update_per_second_max + update_per_second;
    }

    /// Lowers the rate by `update_per_second`, unless that would leave it
    /// below 1, in which case nothing changes.
    pub fn decrease_update_per_second_max(&mut self, update_per_second: u16)
        requires
            old(self).wf(),
        ensures
            final(self).wf(),
            final(self)@ == old(self)@.rate_decreased(update_per_second as int),
            final(self)@.rate >= 1,
    {
        if self.update_per_second_max > update_per_second {
            self.update_per_second_max = self.update_per_second_max - update_per_second;
        }
    }

    /// Asks for a single generation, pausing the simulation if it runs.
    pub fn toggle_step_by_step(&mut self)
        requires
            old(self).wf(),
        ensures
            final(self).wf(),
            final(self)@ == old(self)@.step_set(),
    {
        self.step_by_step_next = true;
        if !self.game_pause {
            self.game_pause = true;
        }
    }

    /// Restores the default rate.
    pub fn reset_update_per_second_max(&mut self)
        requires
            old(self).wf(),
        ensures
            final(self).wf(),
            final(self)@ == (AppView {
                rate: DEFAULT_MAX_UPDATE_PER_SECOND as int,
                ..old(self)@
            }),
    {
        self.update_per_second_max = DEFAULT_MAX_UPDATE_PER_SECOND;
    }

    /// Replaces the table with one of the same dimensions whose cells are all dead.
    pub fn reset_game_table(&mut self)
        requires
            old(self).wf(),
        ensures
            final(self).wf(),
            final(self)@ == (AppView {
                cells: dead_cells(old(self)@.height, old(self)@.width),
                ..old(self)@
            }),
    {
        self.game_table = initialize_empty_game_table(self.game_table_size);
    }

    /// Marks the run as finished.
    pub fn exit(&mut self)
        requires
            old(self).wf(),
        ensures
            final(self).wf(),
            final(self)@ == (AppView { exit: true, ..old(self)@ }),
    {
        self.exit = true;
    }

    /// Carries out the command bound to `key`; other keys are ignored. The
    /// rate stays as it is where raising it would leave the range of `u16`.
    pub fn handle_key_event(&mut self, key: Key)
        requires
            old(self).wf(),
        ensures
            final(self).wf(),
            final(self)@ == old(self)@.after_key(key),
    {
        match key {
            Key::Char('q') => self.exit(),
            Key::Char(' ') => self.toggle_game_pause(),
            Key::Left => self.game_table_user_cursor_move_left(),
            Key::Right => self.game_table_user_cursor_move_right(),
            Key::Up => self.game_table_user_cursor_move_up(),
            Key::Down => self.game_table_user_cursor_move_down(),
            Key::Char('s') => self.switch_cell_state(),
            Key::Char('a') => self.decrease_update_per_second_max(1),
            Key::Char('d') => {
                if self.update_per_second_max < u16::MAX {
                    self.increase_update_per_second_max(1);
                }
            },
            Key::Char('r') => self.reset_update_per_second_max(),
            Key::Char('t') => self.toggle_step_by_step(),
            Key::Char('n') => self.reset_game_table(),
            _ => {},
        }
    }
}

/// A single step asked for while paused computes exactly one generation and
/// clears the request; consulting the clock again, with no new request,
/// changes nothing.
pub proof fn lemma_single_step(v: AppView, first_elapsed: int, second_elapsed: int)
    requires
        v.inv(),
        v.paused,
        v.step_requested,
    ensures
        v.advance_kind(first_elapsed) == Advance::Stepped,
        v.advanced(first_elapsed) == (AppView {
            cells: next_generation(v.cells, v.height, v.width),
            step_requested: false,
            ..v
        }),
        v.advanced(first_elapsed).advance_kind(second_elapsed) == Advance::Idle,
        v.advanced(first_elapsed).advanced(second_elapsed) == v.advanced(first_elapsed),
{
}

/// Switching a cell while running leaves the state as it is; while paused it
/// flips the cell under the cursor and no other.
pub proof fn lemma_switch_only_while_paused(v: AppView)
    requires
        v.inv(),
    ensures
        !v.paused ==> v.cell_switched() == v,
        v.paused && v.height > 0 && v.width > 0 ==> {
            let after = v.cell_switched();
            &&& has_shape(after.cells, v.height, v.width)
            &&& after.cells[v.cursor.0][v.cursor.1] == !v.cells[v.cursor.0][v.cursor.1]
            &&& forall|r: int, c: int|
                0 <= r < v.height && 0 <= c < v.width && (r, c) != v.cursor ==> #[trigger] after.cells[r][c]
                    == v.cells[r][c]
            &&& (AppView { cells: v.cells, ..after }) == v
        },
{
}

/// `x + 1`, held at `max`.
pub open spec fn saturating_inc(x: int, max: int) -> int {
    if x < max {
        x + 1
    } else {
        max
    }
}

/// Counts frames and generations over one-second windows, and keeps the
/// counts of the last complete window.
pub struct FrameCounter {
    /// Frames drawn in the last complete window.
    pub fps: u32,
    /// Generations computed by the clock in the last complete window.
    pub update_par_second_real: u16,
    /// Frames drawn in the current window.
    pub frame_count: u32,
    /// Generations computed by the clock in the current window.
    pub update_per_second_count: u16,
}

impl FrameCounter {
    /// All counts zero.
    pub fn new() -> (f: FrameCounter)
        ensures
            f.fps == 0,
            f.update_par_second_real == 0,
            f.frame_count == 0,
            f.update_per_second_count == 0,
    {
        FrameCounter { fps: 0, update_par_second_real: 0, frame_count: 0, update_per_second_count: 0 }
    }

    /// Counts one generation computed by the clock, holding the count at its maximum.
    pub fn count_update(&mut self)
        ensures
            final(self).update_per_second_count == saturating_inc(
                old(self).update_per_second_count as int,
                u16::MAX as int,
            ),
            final(self).fps == old(self).fps,
            final(self).update_par_second_real == old(self).update_par_second_real,
            final(self).frame_count == old(self).frame_count,
    {
        if self.update_per_second_count < u16::MAX {
            self.update_per_second_count = self.update_per_second_count + 1;
        }
    }

    /// Counts one drawn frame, `since_window_start_nanos` after the current
    /// window began. Once a second or more has passed, the window's counts
    /// become the reported ones and a new window starts; the result says
    /// whether that happened.
    pub fn count_frame(&mut self, since_window_start_nanos: u64) -> (window_closed: bool)
        ensures
            window_closed == (since_window_start_nanos >= 1_000_000_000),
            window_closed ==> {
                &&& final(self).fps == saturating_inc(old(self).frame_count as int, u32::MAX as int)
                &&& final(self).update_par_second_real == old(self).update_per_second_count
                &&& final(self).frame_count == 0
                &&& final(self).update_per_second_count == 0
            },
            !window_closed ==> {
                &&& final(self).fps == old(self).fps
                &&& final(self).update_par_second_real == old(self).update_par_second_real
                &&& final(self).frame_count == saturating_inc(
                    old(self).frame_count as int,
                    u32::MAX as int,
                )
                &&& final(self).update_per_second_count == old(self).update_per_second_count
            },
    {
        if self.frame_count < u32::MAX {
            self.frame_count = self.frame_count + 1;
        }
        if since_window_start_nanos >= 1_000_000_000 {
            self.fps = self.frame_count;
            self.frame_count = 0;
            self.update_par_second_real = self.update_per_second_count;
            self.update_per_second_count = 0;
            true
        } else {
            false
        }
    }
}

} // verus!
