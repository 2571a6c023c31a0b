//! Four-in-a-row on a 4x4 grid: the cookie team and the milk team drop
//! tokens into columns until one of them fills a row, a column or a
//! diagonal, or the grid fills up.
use vstd::prelude::*;

use crate::days::Endpoint;

verus! {

/// The side of the grid.
pub const N: usize = 4;

/// What one cell of the grid holds.
#[derive(Debug, Clone, Copy, PartialEq, Eq, Structural)]
pub enum Item {
    Empty,
    Cookie,
    Milk,
}

/// Where the game stands.
#[derive(Debug, Clone, Copy, PartialEq, Eq, Structural)]
pub enum GameState {
    NotEnded,
    CookieWon,
    MilkWon,
    NoWinner,
}

/// The two teams that take part.
#[derive(Debug, Clone, Copy, PartialEq, Eq, Structural)]
pub enum Team {
    Milk,
    Cookie,
}

/// The state that a line filled with `item` leads to.
pub open spec fn state_of(item: Item) -> GameState {
    match item {
        Item::Empty => GameState::NotEnded,
        Item::Cookie => GameState::CookieWon,
        Item::Milk => GameState::MilkWon,
    }
}

/// The token of a team.
pub open spec fn token_of(team: Team) -> Item {
    match team {
        Team::Milk => Item::Milk,
        Team::Cookie => Item::Cookie,
    }
}

impl GameState {
    pub open spec fn is_terminal(self) -> bool {
        self != GameState::NotEnded
    }

    pub fn is_game_over(&self) -> (r: bool)
        ensures
            r == self.is_terminal(),
    {
        match self {
            GameState::NotEnded => false,
            GameState::CookieWon | GameState::MilkWon | GameState::NoWinner => true,
        }
    }
}

impl From<Item> for GameState {
    fn from(value: Item) -> (r: Self)
        ensures
            r == state_of(value),
    {
        match value {
            Item::Empty => Self::NotEnded,
            Item::Cookie => Self::CookieWon,
            Item::Milk => Self::MilkWon,
        }
    }
}

impl vstd::std_specs::convert::FromSpecImpl<Item> for GameState {
    open spec fn obeys_from_spec() -> bool {
        true
    }

    open spec fn from_spec(v: Item) -> GameState {
        state_of(v)
    }
}

impl From<Team> for Item {
    fn from(value: Team) -> (r: Self)
        ensures
            r == token_of(value),
    {
        match value {
            Team::Milk => Self::Milk,
            Team::Cookie => Self::Cookie,
        }
    }
}

impl vstd::std_specs::convert::FromSpecImpl<Team> for Item {
    open spec fn obeys_from_spec() -> bool {
        true
    }

    open spec fn from_spec(v: Team) -> Item {
        token_of(v)
    }
}

/// The glyph of the border around the grid.
pub const WALL: &'static str = "⬜";

impl Item {
    pub open spec fn glyph_spec(self) -> Seq<char> {
        match self {
            Item::Empty => "⬛"@,
            Item::Cookie => "🍪"@,
            Item::Milk => "🥛"@,
        }
    }

    /// The glyph that shows this cell.
    pub fn glyph(&self) -> (r: &'static str)
        ensures
            r@ == self.glyph_spec(),
    {
        match self {
            Item::Empty => "⬛",
            Item::Cookie => "🍪",
            Item::Milk => "🥛",
        }
    }
}

impl Default for Item {
    fn default() -> (r: Self)
        ensures
            r == Item::Empty,
    {
        Self::Empty
    }
}

// The grid, as rows from top to bottom, each a sequence of cells from left
// to right.

/// Every row has `N` cells and there are `N` rows.
pub open spec fn well_shaped(g: Seq<Seq<Item>>) -> bool {
    &&& g.len() == N
    &&& forall|r: int| 0 <= r < N ==> #[trigger] g[r].len() == N
}

/// Cell `i` of line `k`, as (row, column). Lines `0..4` are the rows,
/// `4..8` the columns, `8` the main diagonal and `9` the anti-diagonal,
/// in the order in which they are checked.
pub open spec fn line_cell(k: int, i: int) -> (int, int) {
    if k < 4 {
        (k, i)
    } else if k < 8 {
        (i, k - 4)
    } else if k == 8 {
        (i, i)
    } else {
        (i, 3 - i)
    }
}

/// The number of lines that can win.
pub const N_LINES: usize = 10;

pub open spec fn line_item(g: Seq<Seq<Item>>, k: int, i: int) -> Item {
    g[line_cell(k, i).0][line_cell(k, i).1]
}

/// Line `k` holds the same token in all its cells.
pub open spec fn line_won(g: Seq<Seq<Item>>, k: int) -> bool {
    &&& line_item(g, k, 0) != Item::Empty
    &&& forall|i: int| 0 <= i < N ==> #[trigger] line_item(g, k, i) == line_item(g, k, 0)
}

/// The token of the first winning line among lines `k..10`, if any.
pub open spec fn first_win_from(g: Seq<Seq<Item>>, k: int) -> Option<Item>
    decreases N_LINES - k,
{
    if k >= N_LINES {
        None
    } else if line_won(g, k) {
        Some(line_item(g, k, 0))
    } else {
        first_win_from(g, k + 1)
    }
}

/// No cell is empty.
pub open spec fn is_full(g: Seq<Seq<Item>>) -> bool {
    forall|r: int, c: int| 0 <= r < N && 0 <= c < N ==> #[trigger] g[r][c] != Item::Empty
}

/// What win detection makes of a grid.
pub open spec fn outcome(g: Seq<Seq<Item>>) -> GameState {
    match first_win_from(g, 0) {
        Some(item) => state_of(item),
        None => if is_full(g) {
            GameState::NoWinner
        } else {
            GameState::NotEnded
        },
    }
}


/// The model of a board: its grid and its state.
pub struct BoardView {
    pub grid: Seq<Seq<Item>>,
    pub state: GameState,
}

impl BoardView {
    /// The grid is 4x4 and the state is what win detection makes of it.
    pub open spec fn wf(self) -> bool {
        &&& well_shaped(self.grid)
        &&& self.state == outcome(self.grid)
    }

    /// An empty grid, game not ended.
    pub open spec fn initial() -> BoardView {
        BoardView {
            grid: Seq::new(N as nat, |r: int| Seq::new(N as nat, |c: int| Item::Empty)),
            state: GameState::NotEnded,
        }
    }

    /// The lowest of rows `0..=r` (counted from the top) whose cell in
    /// column `c` is empty, or -1.
    pub open spec fn lowest_empty_from(self, c: int, r: int) -> int
        decreases r + 1,
    {
        if r < 0 {
            -1
        } else if self.grid[r][c] == Item::Empty {
            r
        } else {
            self.lowest_empty_from(c, r - 1)
        }
    }

    /// The row that a token dropped into column `c` lands in, or -1.
    pub open spec fn drop_row(self, c: int) -> int {
        self.lowest_empty_from(c, N - 1)
    }

    /// The number of empty cells of column `c` in rows `0..r`.
    pub open spec fn empty_above(self, c: int, r: int) -> nat
        decreases r,
    {
        if r <= 0 {
            0
        } else {
            self.empty_above(c, r - 1) + if self.grid[r - 1][c] == Item::Empty {
                1nat
            } else {
                0nat
            }
        }
    }

    /// The number of empty cells of column `c`.
    pub open spec fn room_in(self, c: int) -> nat {
        self.empty_above(c, N as int)
    }

    pub open spec fn has_room(self, c: int) -> bool {
        self.drop_row(c) >= 0
    }

    /// The board after `team` drops a token into column `c`, which has room.
    pub open spec fn placed(self, team: Team, c: int) -> BoardView {
        let r = self.drop_row(c);
        let g = self.grid.update(r, self.grid[r].update(c, token_of(team)));
        BoardView { grid: g, state: outcome(g) }
    }

    /// A placement into `column` is turned down: no such column, the game
    /// is over, or the column is full.
    pub open spec fn refuses(self, column: int) -> bool {
        !(0 <= column < N) || self.state.is_terminal() || !self.has_room(column)
    }

    /// The board after a placement, accepted or not.
    pub open spec fn step(self, team: Team, column: int) -> BoardView {
        if self.refuses(column) {
            self
        } else {
            self.placed(team, column)
        }
    }

    /// The board after the placements `moves`, in order.
    pub open spec fn run(self, moves: Seq<(Team, int)>) -> BoardView
        decreases moves.len(),
    {
        if moves.len() == 0 {
            self
        } else {
            let last = moves.last();
            self.run(moves.drop_last()).step(last.0, last.1)
        }
    }
}

/// The board: a grid of 4x4 cells, rows from top to bottom, and the state
/// of the game.
#[derive(Debug, Clone, Copy)]
pub struct Board {
    board: [[Item; N]; N],
    state: GameState,
}

impl View for Board {
    type V = BoardView;

    closed spec fn view(&self) -> BoardView {
        BoardView { grid: self.board@.map_values(|row: [Item; N]| row@), state: self.state }
    }
}

/// Row and column of cell `i` of line `k`.
fn line_cell_at(k: usize, i: usize) -> (r: (usize, usize))
    requires
        k < N_LINES,
        i < N,
    ensures
        r.0 < N,
        r.1 < N,
        r.0 as int == line_cell(k as int, i as int).0,
        r.1 as int == line_cell(k as int, i as int).1,
{
    if k < 4 {
        (k, i)
    } else if k < 8 {
        (i, k - 4)
    } else if k == 8 {
        (i, i)
    } else {
        (i, 3 - i)
    }
}

/// When no line from `k` on is won, no winner is found from `k` on.
proof fn lemma_no_win_from(g: Seq<Seq<Item>>, k: int)
    requires
        0 <= k <= N_LINES,
        forall|j: int| k <= j < N_LINES ==> !#[trigger] line_won(g, j),
    ensures
        first_win_from(g, k) is None,
    decreases N_LINES - k,
{
    if k < N_LINES {
        lemma_no_win_from(g, k + 1);
    }
}

impl Board {
    pub closed spec fn wf(&self) -> bool {
        self@.wf()
    }

    proof fn lemma_view_shape(&self)
        ensures
            well_shaped(self@.grid),
            forall|r: int, c: int|
                0 <= r < N && 0 <= c < N ==> #[trigger] self@.grid[r][c] == self.board@[r]@[c],
    {
    }

    /// An empty board, game not ended.
    pub fn new() -> (r: Self)
        ensures
            r.wf(),
            r@ == BoardView::initial(),
    {
        let b = Self { board: [[Item::Empty; N]; N], state: GameState::NotEnded };
        proof {
            b.lemma_view_shape();
            assert(b@.grid =~~= BoardView::initial().grid);
            lemma_initial_is_empty();
        }
        b
    }

    /// Line `k` holds one token in all its cells.
    fn line_is_won(&self, k: usize) -> (r: bool)
        requires
            k < N_LINES,
        ensures
            r == line_won(self@.grid, k as int),
    {
        proof {
            self.lemma_view_shape();
        }
        let (r0, c0) = line_cell_at(k, 0);
        let first = self.board[r0][c0];
        if first == Item::Empty {
            return false;
        }
        let mut i: usize = 1;
        while i < N
            invariant
                1 <= i <= N,
                k < N_LINES,
                first == line_item(self@.grid, k as int, 0),
                first != Item::Empty,
                forall|j: int| 0 <= j < i ==> #[trigger] line_item(self@.grid, k as int, j) == first,
            decreases N - i,
        {
            proof {
                self.lemma_view_shape();
            }
            let (r, c) = line_cell_at(k, i);
            if self.board[r][c] != first {
                assert(line_item(self@.grid, k as int, i as int) != first);
                return false;
            }
            i += 1;
        }
        true
    }

    /// No cell is empty.
    fn is_full(&self) -> (r: bool)
        ensures
            r == is_full(self@.grid),
    {
        proof {
            self.lemma_view_shape();
        }
        let mut r: usize = 0;
        while r < N
            invariant
                r <= N,
                forall|i: int, c: int|
                    0 <= i < r && 0 <= c < N ==> #[trigger] self@.grid[i][c] != Item::Empty,
            decreases N - r,
        {
            let mut c: usize = 0;
            while c < N
                invariant
                    r < N,
                    c <= N,
                    forall|i: int, j: int|
                        0 <= i < r && 0 <= j < N ==> #[trigger] self@.grid[i][j] != Item::Empty,
                    forall|j: int| 0 <= j < c ==> #[trigger] self@.grid[r as int][j] != Item::Empty,
                decreases N - c,
            {
                if self.board[r][c] == Item::Empty {
                    return false;
                }
                c += 1;
            }
            r += 1;
        }
        true
    }

    /// The lowest row whose cell in `column` is empty.
    fn drop_row(&self, column: usize) -> (r: Option<usize>)
        requires
            column < N,
        ensures
            match r {
                Some(row) => row < N && row as int == self@.drop_row(column as int),
                None => self@.drop_row(column as int) == -1,
            },
    {
        let mut r: usize = N;
        while r > 0
            invariant
                r <= N,
                column < N,
                self@.drop_row(column as int) == self@.lowest_empty_from(column as int, r - 1),
            decreases r,
        {
            proof {
                self.lemma_view_shape();
            }
            if self.board[r - 1][column] == Item::Empty {
                return Some(r - 1);
            }
            r -= 1;
        }
        None
    }

    /// Scans the whole grid and sets the state: the first won line in the
    /// order rows, columns, main diagonal, anti-diagonal decides the winner;
    /// failing that, a full grid is a draw.
    fn check_win(&mut self)
        requires
            old(self).state == GameState::NotEnded,
        ensures
            final(self).board == old(self).board,
            final(self).state == outcome(old(self)@.grid),
    {
        let ghost g = self@.grid;
        let mut k: usize = 0;
        while k < N_LINES
            invariant
                k <= N_LINES,
                self.board == old(self).board,
                self.state == GameState::NotEnded,
                g == self@.grid,
                first_win_from(g, 0) == first_win_from(g, k as int),
            decreases N_LINES - k,
        {
            if self.line_is_won(k) {
                let (r0, c0) = line_cell_at(k, 0);
                proof {
                    self.lemma_view_shape();
                }
                self.state = GameState::from(self.board[r0][c0]);
                return;
            }
            k += 1;
        }
        if self.is_full() {
            self.state = GameState::NoWinner;
        }
    }
}

/// A freshly reset board reads back as an all-empty grid with the game not
/// ended, and it is well formed.
pub proof fn lemma_initial_is_empty()
    ensures
        BoardView::initial().wf(),
        BoardView::initial().state == GameState::NotEnded,
        forall|r: int, c: int|
            0 <= r < N && 0 <= c < N ==> #[trigger] BoardView::initial().grid[r][c]
                == Item::Empty,
{
    let g = BoardView::initial().grid;
    assert forall|k: int| 0 <= k < N_LINES implies !#[trigger] line_won(g, k) by {
        assert(line_item(g, k, 0) == Item::Empty);
    }
    lemma_no_win_from(g, 0);
    assert(g[0][0] == Item::Empty);
}

/// The lowest empty cell of a column is found exactly when the column has
/// an empty cell, and it is empty.
proof fn lemma_lowest_empty(v: BoardView, c: int, r: int)
    requires
        well_shaped(v.grid),
        0 <= c < N,
        -1 <= r < N,
    ensures
        -1 <= v.lowest_empty_from(c, r) <= r,
        v.lowest_empty_from(c, r) >= 0 <==> v.empty_above(c, r + 1) > 0,
        v.lowest_empty_from(c, r) >= 0 ==> v.grid[v.lowest_empty_from(c, r)][c] == Item::Empty,
    decreases r + 1,
{
    if r >= 0 {
        lemma_lowest_empty(v, c, r - 1);
    }
}

/// Filling the empty cell at row `row` of column `c` leaves one empty cell
/// fewer below it in that column, and other columns as they were.
proof fn lemma_fill_counts(v: BoardView, w: BoardView, row: int, c: int, r: int)
    requires
        well_shaped(v.grid),
        0 <= c < N,
        0 <= row < N,
        0 <= r <= N,
        v.grid[row][c] == Item::Empty,
        w.grid.len() == N,
        forall|i: int, j: int|
            0 <= i < N && 0 <= j < N ==> #[trigger] w.grid[i][j] == if i == row && j == c {
                w.grid[row][c]
            } else {
                v.grid[i][j]
            },
        w.grid[row][c] != Item::Empty,
    ensures
        w.empty_above(c, r) + (if r > row {
            1nat
        } else {
            0nat
        }) == v.empty_above(c, r),
    decreases r,
{
    if r > 0 {
        lemma_fill_counts(v, w, row, c, r - 1);
    }
}

impl BoardView {
    /// A placement keeps the board well formed; an accepted one fills one
    /// empty cell of its column.
    pub proof fn lemma_step(self, team: Team, column: int)
        requires
            self.wf(),
        ensures
            self.step(team, column).wf(),
            0 <= column < N ==> (self.has_room(column) <==> self.room_in(column) > 0),
            0 <= column < N && !self.refuses(column) ==> self.step(team, column).room_in(column)
                + 1 == self.room_in(column),
    {
        if 0 <= column < N {
            lemma_lowest_empty(self, column, N - 1);
            if !self.refuses(column) {
                let w = self.placed(team, column);
                let row = self.drop_row(column);
                assert forall|i: int, j: int| 0 <= i < N && 0 <= j < N implies #[trigger] w.grid[i][j]
                    == if i == row && j == column {
                    w.grid[row][column]
                } else {
                    self.grid[i][j]
                } by {}
                assert forall|i: int| 0 <= i < N implies #[trigger] w.grid[i].len() == N by {
                    if i != row {
                        assert(w.grid[i] == self.grid[i]);
                    }
                }
                lemma_fill_counts(self, w, row, column, N as int);
            }
        }
    }
}

/// The first `k` placements of a list run one after the other.
proof fn lemma_run_prefix(v: BoardView, moves: Seq<(Team, int)>, k: int)
    requires
        0 < k <= moves.len(),
    ensures
        v.run(moves.take(k)) == v.run(moves.take(k - 1)).step(moves[k - 1].0, moves[k - 1].1),
{
    assert(moves.take(k).drop_last() =~= moves.take(k - 1));
}

/// Placements into column `c` while the game goes on each fill one empty
/// cell of it.
proof fn lemma_run_fills(v: BoardView, moves: Seq<(Team, int)>, c: int)
    requires
        v.wf(),
        0 <= c < N,
        moves.len() <= v.room_in(c),
        forall|k: int| 0 <= k < moves.len() ==> (#[trigger] moves[k]).1 == c,
        forall|k: int| 0 <= k < moves.len() ==> !(#[trigger] v.run(moves.take(k))).state.is_terminal(),
    ensures
        v.run(moves).wf(),
        v.run(moves).room_in(c) + moves.len() == v.room_in(c),
    decreases moves.len(),
{
    if moves.len() > 0 {
        let n = moves.len() - 1;
        let rest = moves.drop_last();
        assert forall|k: int| 0 <= k < rest.len() implies !(#[trigger] v.run(rest.take(k))).state.is_terminal() by {
            assert(rest.take(k) =~= moves.take(k));
            assert(!v.run(moves.take(k)).state.is_terminal());
        }
        lemma_run_fills(v, rest, c);
        let w = v.run(rest);
        assert(moves.take(n) =~= rest);
        assert(!v.run(moves.take(n)).state.is_terminal());
        assert(moves[n].1 == c);
        w.lemma_step(moves[n].0, c);
    }
}

/// Dropping into a column as many tokens as it has empty cells, while the
/// game goes on, fills the column; a further token is then turned down as
/// the column is full, and the board stays as it was.
pub proof fn lemma_column_fills(v: BoardView, moves: Seq<(Team, int)>, c: int, team: Team)
    requires
        v.wf(),
        0 <= c < N,
        moves.len() == v.room_in(c),
        forall|k: int| 0 <= k < moves.len() ==> (#[trigger] moves[k]).1 == c,
        forall|k: int|
            0 <= k <= moves.len() ==> !(#[trigger] v.run(moves.take(k))).state.is_terminal(),
    ensures
        v.run(moves).room_in(c) == 0,
        !v.run(moves).has_room(c),
        !v.run(moves).state.is_terminal(),
        v.run(moves).step(team, c) == v.run(moves),
{
    assert forall|k: int| 0 <= k < moves.len() implies !(#[trigger] v.run(moves.take(k))).state.is_terminal() by {
        assert(!v.run(moves.take(k)).state.is_terminal());
    }
    lemma_run_fills(v, moves, c);
    assert(moves.take(moves.len() as int) =~= moves);
    assert(!v.run(moves.take(moves.len() as int)).state.is_terminal());
    v.run(moves).lemma_step(team, c);
}

/// Once the game has ended, the board stays as it is under every placement
/// into an existing column, each turned down as the game is over, until it
/// is reset.
pub proof fn lemma_game_over_is_final(v: BoardView, moves: Seq<(Team, int)>)
    requires
        v.wf(),
        v.state.is_terminal(),
        forall|k: int| 0 <= k < moves.len() ==> 0 <= (#[trigger] moves[k]).1 < N,
    ensures
        v.run(moves) == v,
        forall|k: int| 0 <= k <= moves.len() ==> #[trigger] v.run(moves.take(k)) == v,
    decreases moves.len(),
{
    if moves.len() > 0 {
        lemma_game_over_is_final(v, moves.drop_last());
    }
    assert forall|k: int| 0 <= k <= moves.len() implies #[trigger] v.run(moves.take(k)) == v by {
        if k < moves.len() {
            lemma_game_over_is_final(v, moves.take(k));
        } else {
            assert(moves.take(k) =~= moves);
        }
    }
}

/// The glyphs of the first `n` cells of a row.
pub open spec fn cells_text(row: Seq<Item>, n: int) -> Seq<char>
    decreases n,
{
    if n <= 0 {
        Seq::empty()
    } else {
        cells_text(row, n - 1) + row[n - 1].glyph_spec()
    }
}

/// One row between two walls, and a line break.
pub open spec fn row_text(row: Seq<Item>) -> Seq<char> {
    WALL@ + cells_text(row, N as int) + WALL@ + "\n"@
}

/// The first `n` rows of a grid.
pub open spec fn rows_text(g: Seq<Seq<Item>>, n: int) -> Seq<char>
    decreases n,
{
    if n <= 0 {
        Seq::empty()
    } else {
        rows_text(g, n - 1) + row_text(g[n - 1])
    }
}

/// `n` wall glyphs.
pub open spec fn walls(n: int) -> Seq<char>
    decreases n,
{
    if n <= 0 {
        Seq::empty()
    } else {
        walls(n - 1) + WALL@
    }
}

/// The line below the grid that tells how the game ended, if it did.
pub open spec fn status_text(state: GameState) -> Seq<char> {
    match state {
        GameState::NotEnded => Seq::empty(),
        GameState::CookieWon => "🍪 wins!\n"@,
        GameState::MilkWon => "🥛 wins!\n"@,
        GameState::NoWinner => "No winner.\n"@,
    }
}

/// The text of a board: its rows between walls, a closing line of walls,
/// and the status line once the game has ended.
pub open spec fn board_text(v: BoardView) -> Seq<char> {
    rows_text(v.grid, N as int) + walls(N + 2) + "\n"@ + status_text(v.state)
}

impl GameState {
    /// The line that tells how the game ended; empty while it goes on.
    pub fn status_line(&self) -> (r: &'static str)
        ensures
            r@ == status_text(*self),
    {
        match self {
            GameState::NotEnded => {
                proof {
                    reveal_strlit("");
                }
                ""
            },
            GameState::CookieWon => "🍪 wins!\n",
            GameState::MilkWon => "🥛 wins!\n",
            GameState::NoWinner => "No winner.\n",
        }
    }
}

impl Board {
    /// The board as text, one line per row.
    pub fn render(&self) -> (r: String)
        ensures
            r@ == board_text(self@),
    {
        proof {
            self.lemma_view_shape();
        }
        let mut out = String::new();
        let mut r: usize = 0;
        while r < N
            invariant
                r <= N,
                out@ == rows_text(self@.grid, r as int),
            decreases N - r,
        {
            proof {
                self.lemma_view_shape();
            }
            let row = self.board[r];
            out.append(WALL);
            let ghost start = out@;
            let mut c: usize = 0;
            while c < N
                invariant
                    r < N,
                    c <= N,
                    row@ == self@.grid[r as int],
                    out@ == start + cells_text(row@, c as int),
                decreases N - c,
            {
                out.append(row[c].glyph());
                c += 1;
            }
            out.append(WALL);
            out.append("\n");
            r += 1;
        }
        let mut w: usize = 0;
        let ghost start = out@;
        while w < N + 2
            invariant
                w <= N + 2,
                out@ == start + walls(w as int),
            decreases N + 2 - w,
        {
            out.append(WALL);
            w += 1;
        }
        out.append("\n");
        out.append(self.state.status_line());
        out
    }

    /// Drops `team`'s token into `column` (0 is the leftmost), where it
    /// falls to the lowest empty cell, then runs win detection. A refused
    /// placement leaves the board as it was.
    pub fn place(&mut self, team: Team, column: usize) -> (r: Result<(), PlaceError>)
        requires
            old(self).wf(),
        ensures
            final(self).wf(),
            final(self)@ == old(self)@.step(team, column as int),
            old(self)@.refuses(column as int) ==> final(self)@ == old(self)@,
            column >= N ==> r == Err::<(), PlaceError>(PlaceError::ColumnNotFound),
            column < N && old(self)@.state.is_terminal() ==> (r matches Err(
                PlaceError::GameOver(b),
            ) && b@ == old(self)@),
            column < N && !old(self)@.state.is_terminal() && !old(self)@.has_room(column as int)
                ==> (r matches Err(PlaceError::ColumnFull(b)) && b@ == old(self)@),
            !old(self)@.refuses(column as int) ==> r is Ok,
    {
        if column > 3 {
            return Err(PlaceError::ColumnNotFound);
        }
        if self.state.is_game_over() {
            return Err(PlaceError::GameOver(self.clone()));
        }
        match self.drop_row(column) {
            Some(row) => {
                let ghost before = self@;
                let mut line = self.board[row];
                line[column] = Item::from(team);
                self.board[row] = line;
                proof {
                    self.lemma_view_shape();
                    old(self).lemma_view_shape();
                    let g = before.grid.update(
                        row as int,
                        before.grid[row as int].update(column as int, token_of(team)),
                    );
                    assert(self@.grid =~~= g);
                }
                self.check_win();
                proof {
                    self.lemma_view_shape();
                }
                Ok(())
            },
            None => Err(PlaceError::ColumnFull(self.clone())),
        }
    }

    /// Puts the board back to an empty grid with the game not ended, and
    /// hands back a copy of it.
    pub fn reset(&mut self) -> (r: Board)
        ensures
            final(self).wf(),
            final(self)@ == BoardView::initial(),
            r@ == BoardView::initial(),
    {
        *self = Board::new();
        self.clone()
    }

    /// A copy of the board, which later placements leave as it is.
    pub fn inspect(&self) -> (r: Board)
        ensures
            r@ == self@,
    {
        self.clone()
    }
}

/// Why a placement was turned down.
#[derive(Debug)]
pub enum PlaceError {
    /// The column does not exist.
    ColumnNotFound,
    /// The column has no empty cell; the board as it stands.
    ColumnFull(Board),
    /// The game has ended; the board as it stands.
    GameOver(Board),
    /// The shared board could not be reached.
    InternalError,
}

impl PlaceError {
    /// The text that answers the request.
    pub fn message(&self) -> (r: String)
        ensures
            r@ == match self {
                PlaceError::ColumnNotFound => "the requested column does not exist"@,
                PlaceError::ColumnFull(b) => board_text(b@),
                PlaceError::GameOver(b) => board_text(b@),
                PlaceError::InternalError => "internal error"@,
            },
    {
        match self {
            PlaceError::ColumnNotFound => "the requested column does not exist".to_owned(),
            PlaceError::ColumnFull(b) => b.render(),
            PlaceError::GameOver(b) => b.render(),
            PlaceError::InternalError => "internal error".to_owned(),
        }
    }

    /// The HTTP status code: a bad request for a missing column, service
    /// unavailable while the game state refuses the move, and an internal
    /// error when the board could not be reached.
    pub fn status_code(&self) -> (r: u16)
        ensures
            r == match self {
                PlaceError::ColumnNotFound => 400u16,
                PlaceError::ColumnFull(_) => 503u16,
                PlaceError::GameOver(_) => 503u16,
                PlaceError::InternalError => 500u16,
            },
    {
        match self {
            PlaceError::ColumnNotFound => 400,
            PlaceError::ColumnFull(_) | PlaceError::GameOver(_) => 503,
            PlaceError::InternalError => 500,
        }
    }
}

impl Board {
    /// A placement as a request names it: columns counted from 1. Column 0
    /// does not exist. On success, a copy of the board after the move.
    pub fn place_numbered(&mut self, team: Team, column: usize) -> (r: Result<Board, PlaceError>)
        requires
            old(self).wf(),
        ensures
            final(self).wf(),
            column == 0 ==> r == Err::<Board, PlaceError>(PlaceError::ColumnNotFound),
            column == 0 ==> final(self)@ == old(self)@,
            column > 0 ==> final(self)@ == old(self)@.step(team, column - 1),
            column > N ==> r == Err::<Board, PlaceError>(PlaceError::ColumnNotFound),
            column > 0 && column <= N && old(self)@.state.is_terminal() ==> (r matches Err(
                PlaceError::GameOver(b),
            ) && b@ == old(self)@),
            column > 0 && column <= N && !old(self)@.state.is_terminal()
                && !old(self)@.has_room(column - 1) ==> (r matches Err(PlaceError::ColumnFull(b))
                && b@ == old(self)@),
            column > 0 && !old(self)@.refuses(column - 1) ==> (r matches Ok(b)
                && b@ == final(self)@),
    {
        if column == 0 {
            return Err(PlaceError::ColumnNotFound);
        }
        match self.place(team, column - 1) {
            Ok(()) => Ok(self.clone()),
            Err(e) => Err(e),
        }
    }
}

/// The routes of this day.
pub open spec fn routes() -> Seq<Endpoint> {
    seq![Endpoint::Board, Endpoint::Reset, Endpoint::Place]
}

pub fn get_router() -> (r: Vec<Endpoint>)
    ensures
        r@ == routes(),
{
    let mut r: Vec<Endpoint> = Vec::new();
    r.push(Endpoint::Board);
    r.push(Endpoint::Reset);
    r.push(Endpoint::Place);
    assert(r@ =~= routes());
    r
}

} // verus!
