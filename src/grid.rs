//! The cell matrix and the rule that computes one generation from the last.

use vstd::arithmetic::div_mod::{
    lemma_mod_add_multiples_vanish, lemma_mod_sub_multiples_vanish, lemma_small_mod,
};
use vstd::prelude::*;

verus! {

/// A cell matrix, indexed `[row][column]`; `true` is a live cell.
pub type GameTable = Vec<Vec<bool>>;

/// The cells of a table, row by row.
pub open spec fn cells_of(t: &GameTable) -> Seq<Seq<bool>> {
    Seq::new(t@.len(), |r: int| t@[r]@)
}

/// `m` has exactly `height` rows of exactly `width` cells each.
pub open spec fn has_shape(m: Seq<Seq<bool>>, height: int, width: int) -> bool {
    &&& m.len() == height
    &&& forall|r: int| 0 <= r < height ==> #[trigger] m[r].len() == width
}

/// The position of coordinate `i` on a ring of `n` positions.
#[verifier::opaque]
pub open spec fn wrap(i: int, n: int) -> int {
    i % n
}

/// Stepping one position off either end of a ring lands on the other end.
pub proof fn lemma_wrap_step(i: int, n: int)
    requires
        n > 0,
        -1 <= i <= n,
    ensures
        wrap(i, n) == if i < 0 {
            i + n
        } else if i >= n {
            i - n
        } else {
            i
        },
{
    reveal(wrap);
    if i < 0 {
        lemma_mod_add_multiples_vanish(i, n);
        lemma_small_mod((i + n) as nat, n as nat);
    } else if i >= n {
        lemma_mod_sub_multiples_vanish(i, n);
        lemma_small_mod((i - n) as nat, n as nat);
    } else {
        lemma_small_mod(i as nat, n as nat);
    }
}


/// 1 when the cell at `(r, c)`, each coordinate wrapped around the grid, is live.
pub open spec fn live_at(m: Seq<Seq<bool>>, height: int, width: int, r: int, c: int) -> int {
    if m[wrap(r, height)][wrap(c, width)] {
        1
    } else {
        0
    }
}

/// The number of live cells among the eight toroidal neighbours of `(r, c)`.
pub open spec fn neighbour_count(m: Seq<Seq<bool>>, height: int, width: int, r: int, c: int) -> int {
    live_at(m, height, width, r - 1, c - 1) + live_at(m, height, width, r - 1, c)
        + live_at(m, height, width, r - 1, c + 1) + live_at(m, height, width, r, c - 1)
        + live_at(m, height, width, r, c + 1) + live_at(m, height, width, r + 1, c - 1)
        + live_at(m, height, width, r + 1, c) + live_at(m, height, width, r + 1, c + 1)
}

/// The rule: a live cell survives with two or three live neighbours, a dead
/// cell is born with exactly three; every other cell is dead.
pub open spec fn next_cell(alive: bool, neighbours: int) -> bool {
    if alive {
        neighbours == 2 || neighbours == 3
    } else {
        neighbours == 3
    }
}

/// The next generation of `m`, every cell computed from `m` alone.
pub open spec fn next_generation(m: Seq<Seq<bool>>, height: int, width: int) -> Seq<Seq<bool>> {
    Seq::new(
        height as nat,
        |r: int|
            Seq::new(width as nat, |c: int| next_cell(m[r][c], neighbour_count(m, height, width, r, c))),
    )
}

/// A table of `height` rows of `width` dead cells.
pub open spec fn dead_cells(height: int, width: int) -> Seq<Seq<bool>> {
    Seq::new(height as nat, |r: int| Seq::new(width as nat, |c: int| false))
}

/// `m` with the cell at `(r, c)` flipped.
pub open spec fn toggled(m: Seq<Seq<bool>>, r: int, c: int) -> Seq<Seq<bool>> {
    m.update(r, m[r].update(c, !m[r][c]))
}

/// Every cell of `m` is dead.
pub open spec fn all_dead(m: Seq<Seq<bool>>) -> bool {
    forall|r: int, c: int| 0 <= r < m.len() && 0 <= c < m[r].len() ==> !#[trigger] m[r][c]
}

/// The next generation has the dimensions of the table it is computed from.
pub proof fn lemma_next_generation_shape(m: Seq<Seq<bool>>, height: int, width: int)
    requires
        height >= 0,
        width >= 0,
        has_shape(m, height, width),
    ensures
        has_shape(next_generation(m, height, width), height, width),
{
}

/// Every coordinate of a neighbour of a cell on the grid lies on the grid.
proof fn lemma_neighbours_on_grid(height: int, width: int, r: int, c: int)
    requires
        0 <= r < height,
        0 <= c < width,
    ensures
        0 <= wrap(r - 1, height) < height,
        0 <= wrap(r + 1, height) < height,
        0 <= wrap(c - 1, width) < width,
        0 <= wrap(c + 1, width) < width,
        wrap(r, height) == r,
        wrap(c, width) == c,
{
    lemma_wrap_step(r - 1, height);
    lemma_wrap_step(r, height);
    lemma_wrap_step(r + 1, height);
    lemma_wrap_step(c - 1, width);
    lemma_wrap_step(c, width);
    lemma_wrap_step(c + 1, width);
}

/// Bringing one dead cell to life leaves every other cell as it was.
proof fn lemma_toggled_dead(m: Seq<Seq<bool>>, height: int, width: int, a: int, b: int)
    requires
        has_shape(m, height, width),
        0 <= a < height,
        0 <= b < width,
        !m[a][b],
    ensures
        forall|i: int, j: int|
            0 <= i < height && 0 <= j < width ==> #[trigger] toggled(m, a, b)[i][j] == (m[i][j] || (i
                == a && j == b)),
{
}

/// A live cell stays live exactly when it has two or three live neighbours,
/// and dies with any other count from 0 to 8.
pub proof fn lemma_survival(m: Seq<Seq<bool>>, height: int, width: int, r: int, c: int)
    requires
        has_shape(m, height, width),
        0 <= r < height,
        0 <= c < width,
        m[r][c],
    ensures
        0 <= neighbour_count(m, height, width, r, c) <= 8,
        next_generation(m, height, width)[r][c] <==> (neighbour_count(m, height, width, r, c) == 2
            || neighbour_count(m, height, width, r, c) == 3),
{
}

/// A dead cell comes alive exactly when it has three live neighbours.
pub proof fn lemma_birth(m: Seq<Seq<bool>>, height: int, width: int, r: int, c: int)
    requires
        has_shape(m, height, width),
        0 <= r < height,
        0 <= c < width,
        !m[r][c],
    ensures
        next_generation(m, height, width)[r][c] <==> neighbour_count(m, height, width, r, c) == 3,
{
}

/// The last row is a neighbour row of the first, and the last column a
/// neighbour column of the first: bringing such a cell to life raises the
/// count across the edge.
pub proof fn lemma_edges_are_neighbours(m: Seq<Seq<bool>>, height: int, width: int, r: int, c: int)
    requires
        has_shape(m, height, width),
        0 <= r < height,
        0 <= c < width,
    ensures
        !m[height - 1][c] ==> neighbour_count(toggled(m, height - 1, c), height, width, 0, c)
            >= neighbour_count(m, height, width, 0, c) + 1,
        !m[r][width - 1] ==> neighbour_count(toggled(m, r, width - 1), height, width, r, 0)
            >= neighbour_count(m, height, width, r, 0) + 1,
{
    lemma_neighbours_on_grid(height, width, 0, c);
    lemma_neighbours_on_grid(height, width, r, 0);
    lemma_wrap_step(-1, height);
    lemma_wrap_step(-1, width);
    if !m[height - 1][c] {
        lemma_toggled_dead(m, height, width, height - 1, c);
    }
    if !m[r][width - 1] {
        lemma_toggled_dead(m, height, width, r, width - 1);
    }
}

/// A table with no live cell stays without one.
pub proof fn lemma_empty_stays_empty(m: Seq<Seq<bool>>, height: int, width: int)
    requires
        height >= 0,
        width >= 0,
        has_shape(m, height, width),
        all_dead(m),
    ensures
        next_generation(m, height, width) == dead_cells(height, width),
{
    let next = next_generation(m, height, width);
    assert forall|r: int, c: int| 0 <= r < height && 0 <= c < width implies !#[trigger] next[r][c] by {
        lemma_neighbours_on_grid(height, width, r, c);
        assert(neighbour_count(m, height, width, r, c) == 0);
    }
    assert(next =~~= dead_cells(height, width));
}

/// The table whose only live cells are the three of row `r` centred on
/// column `c`, wrapping around.
pub open spec fn horizontal_blinker(height: int, width: int, r: int, c: int) -> Seq<Seq<bool>> {
    Seq::new(
        height as nat,
        |i: int|
            Seq::new(
                width as nat,
                |j: int| i == r && (j == wrap(c - 1, width) || j == c || j == wrap(c + 1, width)),
            ),
    )
}

/// The table whose only live cells are the three of column `c` centred on
/// row `r`, wrapping around.
pub open spec fn vertical_blinker(height: int, width: int, r: int, c: int) -> Seq<Seq<bool>> {
    Seq::new(
        height as nat,
        |i: int|
            Seq::new(
                width as nat,
                |j: int| j == c && (i == wrap(r - 1, height) || i == r || i == wrap(r + 1, height)),
            ),
    )
}

/// Three live cells in a row turn into three in a column about the same
/// centre, and back, on any grid of at least four rows and four columns.
pub proof fn lemma_blinker(height: int, width: int, r: int, c: int)
    requires
        height >= 4,
        width >= 4,
        0 <= r < height,
        0 <= c < width,
    ensures
        next_generation(horizontal_blinker(height, width, r, c), height, width) == vertical_blinker(
            height,
            width,
            r,
            c,
        ),
        next_generation(vertical_blinker(height, width, r, c), height, width) == horizontal_blinker(
            height,
            width,
            r,
            c,
        ),
{
    let hz = horizontal_blinker(height, width, r, c);
    let vt = vertical_blinker(height, width, r, c);
    lemma_wrap_step(r - 1, height);
    lemma_wrap_step(r + 1, height);
    lemma_wrap_step(c - 1, width);
    lemma_wrap_step(c + 1, width);
    let next_hz = next_generation(hz, height, width);
    assert forall|i: int, j: int| 0 <= i < height && 0 <= j < width implies #[trigger] next_hz[i][j]
        == vt[i][j] by {
        lemma_wrap_step(i - 1, height);
        lemma_wrap_step(i, height);
        lemma_wrap_step(i + 1, height);
        lemma_wrap_step(j - 1, width);
        lemma_wrap_step(j, width);
        lemma_wrap_step(j + 1, width);
    }
    assert(next_hz =~~= vt);
    let next_vt = next_generation(vt, height, width);
    assert forall|i: int, j: int| 0 <= i < height && 0 <= j < width implies #[trigger] next_vt[i][j]
        == hz[i][j] by {
        lemma_wrap_step(i - 1, height);
        lemma_wrap_step(i, height);
        lemma_wrap_step(i + 1, height);
        lemma_wrap_step(j - 1, width);
        lemma_wrap_step(j, width);
        lemma_wrap_step(j + 1, width);
    }
    assert(next_vt =~~= hz);
}

/// A table of `size.0` rows of `size.1` dead cells.
pub fn initialize_empty_game_table(size: (usize, usize)) -> (t: GameTable)
    ensures
        cells_of(&t) == dead_cells(size.0 as int, size.1 as int),
{
    let mut game_table: GameTable = Vec::new();
    let mut x: usize = 0;
    while x < size.0
        invariant
            x <= size.0,
            game_table@.len() == x,
            forall|r: int|
                0 <= r < x ==> #[trigger] game_table@[r]@ == dead_cells(
                    size.0 as int,
                    size.1 as int,
                )[r],
        decreases size.0 - x,
    {
        let mut row: Vec<bool> = Vec::new();
        let mut y: usize = 0;
        while y < size.1
            invariant
                y <= size.1,
                row@.len() == y,
                forall|c: int| 0 <= c < y ==> !#[trigger] row@[c],
            decreases size.1 - y,
        {
            row.push(false);
            y = y + 1;
        }
        assert(row@ =~= dead_cells(size.0 as int, size.1 as int)[x as int]);
        game_table.push(row);
        x = x + 1;
    }
    assert(cells_of(&game_table) =~= dead_cells(size.0 as int, size.1 as int));
    game_table
}

/// Relies on rand::random::<bool>: a draw from the thread-local generator.
/// Nothing is known of the value drawn.
#[verifier::external_body]
fn random_cell() -> (alive: bool) {
    rand::random::<bool>()
}

/// A table of `size.0` rows of `size.1` cells, each drawn at random.
pub fn initialize_game_table(size: (usize, usize)) -> (t: GameTable)
    ensures
        has_shape(cells_of(&t), size.0 as int, size.1 as int),
{
    let mut game_table: GameTable = Vec::new();
    let mut x: usize = 0;
    while x < size.0
        invariant
            x <= size.0,
            game_table@.len() == x,
            forall|r: int| 0 <= r < x ==> #[trigger] game_table@[r]@.len() == size.1,
        decreases size.0 - x,
    {
        let mut row: Vec<bool> = Vec::new();
        let mut y: usize = 0;
        while y < size.1
            invariant
                y <= size.1,
                row@.len() == y,
            decreases size.1 - y,
        {
            row.push(random_cell());
            y = y + 1;
        }
        game_table.push(row);
        x = x + 1;
    }
    game_table
}

} // verus!
