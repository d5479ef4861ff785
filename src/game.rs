use vstd::prelude::*;
use rand::Rng;
use rand::rngs::StdRng;
use uuid::Uuid;
use crate::utils::{move_clamp, move_clamp_spec};

verus! {

#[verifier::external_type_specification]
#[verifier::external_body]
pub struct ExUuid(uuid::Uuid);

#[verifier::external_type_specification]
#[verifier::external_body]
pub struct ExStdRng(rand::rngs::StdRng);

/// `Uuid` derives `PartialEq`, which compares the sixteen bytes it holds:
/// two handles are `==` exactly when they are the same value.
pub assume_specification[ <uuid::Uuid as core::cmp::PartialEq>::eq ](a: &uuid::Uuid, b: &uuid::Uuid) -> (r: bool)
    ensures
        r == (*a == *b),
;

/// Relies on rand's `Rng::gen_range` on a half-open range: it panics only on
/// an empty range, and otherwise returns a value inside it.
#[verifier::external_body]
fn gen_range_u32(rng: &mut StdRng, low: u32, high: u32) -> (r: u32)
    requires
        low < high,
    ensures
        low <= r < high,
{
    rng.gen_range(low..high)
}

/// Number of columns of the board.
pub const WIDTH: i32 = 5;

/// Number of rows of the board.
pub const HEIGHT: i32 = 5;

/// Side of a tile in pixels.
pub const TILE_SIZE: i32 = 16;

/// The colour of a tile.
#[derive(Clone, Copy, PartialEq, Eq, Structural, Debug)]
pub enum TileColor {
    Red,
    Green,
    Blue,
    Yellow,
}

/// The colour that a draw of `i` in `1..5` stands for.
pub open spec fn color_of_index(i: u32) -> TileColor {
    if i == 1 {
        TileColor::Red
    } else if i == 2 {
        TileColor::Green
    } else if i == 3 {
        TileColor::Blue
    } else {
        TileColor::Yellow
    }
}

impl TileColor {
    /// Width and height of a tile in pixels.
    pub fn dims() -> (r: (i32, i32))
        ensures
            r == (TILE_SIZE, TILE_SIZE),
    {
        (TILE_SIZE, TILE_SIZE)
    }

    /// The colour numbered `i`, counting from 1 in the order Red, Green,
    /// Blue, Yellow.
    pub fn from_index(i: u32) -> (r: TileColor)
        requires
            1 <= i <= 4,
        ensures
            r == color_of_index(i),
    {
        match i {
            1 => TileColor::Red,
            2 => TileColor::Green,
            3 => TileColor::Blue,
            _ => TileColor::Yellow,
        }
    }

    /// A colour drawn uniformly from `rng`.
    pub fn rand(rng: &mut StdRng) -> (r: TileColor)
        ensures
            exists|i: u32| 1 <= i <= 4 && r == color_of_index(i),
    {
        let i = gen_range_u32(rng, 1, 5);
        TileColor::from_index(i)
    }
}

/// A direction in which the player can be moved.
#[derive(Clone, Copy, PartialEq, Eq, Structural, Debug)]
pub enum Direction {
    Up,
    Down,
    Left,
    Right,
}

/// The one-cell step of a direction; `y` grows downwards.
pub open spec fn delta_of(d: Direction) -> (i32, i32) {
    match d {
        Direction::Up => (0i32, -1i32),
        Direction::Down => (0i32, 1i32),
        Direction::Left => (-1i32, 0i32),
        Direction::Right => (1i32, 0i32),
    }
}

impl Direction {
    /// The step of one cell in this direction.
    pub fn coord_delta(self) -> (r: (i32, i32))
        ensures
            r == delta_of(self),
    {
        match self {
            Direction::Up => (0, -1),
            Direction::Down => (0, 1),
            Direction::Left => (-1, 0),
            Direction::Right => (1, 0),
        }
    }
}

/// A tile on the board: its colour and the handle of the sprite that shows it.
#[derive(Clone, Copy)]
pub struct Tile {
    pub color: TileColor,
    pub sprite_id: Uuid,
}

impl Tile {
    /// The tile of colour `color` shown by the sprite `sprite_id`.
    pub fn new(color: TileColor, sprite_id: Uuid) -> (r: Tile)
        ensures
            r.color == color,
            r.sprite_id == sprite_id,
    {
        Tile { color, sprite_id }
    }
}

/// Number of cells of the board.
pub const CELLS: usize = 25;

/// The position in the cell sequence of the cell in column `x`, row `y`.
pub open spec fn index_of(x: int, y: int) -> int {
    x * HEIGHT + y
}

/// Column and row of the cell at position `k` of the cell sequence.
pub open spec fn coords_of(k: int) -> (i32, i32) {
    ((k / HEIGHT as int) as i32, (k % HEIGHT as int) as i32)
}

/// `(x, y)` lies on the board.
pub open spec fn in_bounds(x: int, y: int) -> bool {
    0 <= x < WIDTH && 0 <= y < HEIGHT
}

/// No two occupied cells hold tiles shown by the same sprite.
pub open spec fn ids_distinct(cells: Seq<Option<Tile>>) -> bool {
    forall|i: int, j: int|
        0 <= i < cells.len() && 0 <= j < cells.len() && i != j && cells[i] is Some
            && cells[j] is Some ==> cells[i]->0.sprite_id != cells[j]->0.sprite_id
}

/// Some occupied cell holds a tile shown by the sprite `id`.
pub open spec fn holds_id(cells: Seq<Option<Tile>>, id: Uuid) -> bool {
    exists|i: int| 0 <= i < cells.len() && cells[i] is Some && cells[i]->0.sprite_id == id
}

/// The board: a `WIDTH` by `HEIGHT` array of cells, each empty or holding
/// one tile.
pub struct Grid {
    cells: Vec<Option<Tile>>,
}

impl View for Grid {
    type V = Seq<Option<Tile>>;

    /// The cells, column after column.
    closed spec fn view(&self) -> Seq<Option<Tile>> {
        self.cells@
    }
}

impl Grid {
    /// Every cell is there, and no sprite shows two tiles.
    pub open spec fn wf(&self) -> bool {
        self@.len() == CELLS && ids_distinct(self@)
    }

    /// The cell in column `x`, row `y`.
    pub open spec fn cell(&self, x: int, y: int) -> Option<Tile> {
        self@[index_of(x, y)]
    }

    /// The board with every cell empty.
    pub fn new() -> (r: Grid)
        ensures
            r.wf(),
            forall|k: int| 0 <= k < CELLS ==> r@[k] is None,
    {
        let mut cells: Vec<Option<Tile>> = Vec::new();
        let mut k: usize = 0;
        while k < CELLS
            invariant
                k <= CELLS,
                cells@.len() == k,
                forall|i: int| 0 <= i < k ==> cells@[i] is None,
            decreases CELLS - k,
        {
            cells.push(None);
            k = k + 1;
        }
        Grid { cells }
    }

    /// The cell in column `x`, row `y`.
    pub fn get(&self, x: i32, y: i32) -> (r: Option<Tile>)
        requires
            self.wf(),
            in_bounds(x as int, y as int),
        ensures
            r == self.cell(x as int, y as int),
    {
        self.cells[(x * HEIGHT + y) as usize]
    }

    /// Some occupied cell holds a tile shown by the sprite `id`.
    pub fn holds_sprite(&self, id: &Uuid) -> (r: bool)
        requires
            self.wf(),
        ensures
            r == holds_id(self@, *id),
    {
        let mut k: usize = 0;
        while k < CELLS
            invariant
                self.wf(),
                k <= CELLS,
                forall|i: int|
                    0 <= i < k && #[trigger] self@[i] is Some ==> self@[i]->0.sprite_id != *id,
            decreases CELLS - k,
        {
            if let Some(t) = self.cells[k] {
                if t.sprite_id == *id {
                    return true;
                }
            }
            k = k + 1;
        }
        false
    }

    /// Replaces the cell in column `x`, row `y` by `cell`. A tile may only be
    /// put down where its sprite shows no other tile of the board.
    pub fn set(&mut self, x: i32, y: i32, cell: Option<Tile>)
        requires
            old(self).wf(),
            in_bounds(x as int, y as int),
            cell matches Some(t) ==> forall|k: int|
                0 <= k < CELLS && k != index_of(x as int, y as int) && #[trigger] old(self)@[k] is Some
                    ==> old(self)@[k]->0.sprite_id != t.sprite_id,
        ensures
            final(self).wf(),
            final(self)@ == old(self)@.update(index_of(x as int, y as int), cell),
    {
        self.cells[(x * HEIGHT + y) as usize] = cell;
    }

    /// The centre of the cell in column `x`, row `y`, in pixels.
    pub fn to_coords(x: i32, y: i32) -> (r: (i32, i32))
        requires
            in_bounds(x as int, y as int),
        ensures
            r.0 == TILE_SIZE * x + TILE_SIZE / 2,
            r.1 == TILE_SIZE * y + TILE_SIZE / 2,
    {
        let (tile_width, tile_height) = TileColor::dims();
        (tile_width * x + tile_width / 2, tile_height * y + tile_height / 2)
    }
}

/// How many of the first `k` cells are empty.
pub open spec fn empties_before(cells: Seq<Option<Tile>>, k: int) -> nat
    decreases k,
{
    if k <= 0 {
        0
    } else {
        empties_before(cells, k - 1) + if cells[k - 1] is None {
            1nat
        } else {
            0nat
        }
    }
}

/// The cells with the empty ones filled, in order, by `tiles`: the `n`-th
/// empty cell (counting from 0) gets `tiles[n]`; occupied cells are kept.
pub open spec fn refilled(cells: Seq<Option<Tile>>, tiles: Seq<Tile>) -> Seq<Option<Tile>> {
    Seq::new(
        cells.len(),
        |k: int|
            if cells[k] is None {
                Some(tiles[empties_before(cells, k) as int])
            } else {
                cells[k]
            },
    )
}

/// The sprites of `tiles` are pairwise distinct and show no tile of `cells`.
pub open spec fn fresh_tiles(cells: Seq<Option<Tile>>, tiles: Seq<Tile>) -> bool {
    &&& forall|i: int| 0 <= i < tiles.len() ==> !holds_id(cells, #[trigger] tiles[i].sprite_id)
    &&& forall|i: int, j: int|
        0 <= i < tiles.len() && 0 <= j < tiles.len() && i != j ==> tiles[i].sprite_id
            != tiles[j].sprite_id
}

/// Counting empty cells never goes down, and it goes up past an empty cell.
pub proof fn lemma_empties_before_grows(cells: Seq<Option<Tile>>, a: int, b: int)
    requires
        0 <= a < b <= cells.len(),
    ensures
        empties_before(cells, a) + (if cells[a] is None { 1int } else { 0int })
            <= empties_before(cells, b),
    decreases b - a,
{
    if b > a + 1 {
        lemma_empties_before_grows(cells, a, b - 1);
    }
}

/// Filling the empty cells with fresh tiles keeps the sprites distinct.
pub proof fn lemma_refilled_ids_distinct(cells: Seq<Option<Tile>>, tiles: Seq<Tile>)
    requires
        ids_distinct(cells),
        tiles.len() == empties_before(cells, cells.len() as int),
        fresh_tiles(cells, tiles),
    ensures
        ids_distinct(refilled(cells, tiles)),
        refilled(cells, tiles).len() == cells.len(),
{
    let r = refilled(cells, tiles);
    assert forall|i: int, j: int|
        0 <= i < r.len() && 0 <= j < r.len() && i != j && r[i] is Some && r[j] is Some
            implies r[i]->0.sprite_id != r[j]->0.sprite_id by {
        if cells[i] is None {
            lemma_empties_before_grows(cells, i, cells.len() as int);
        }
        if cells[j] is None {
            lemma_empties_before_grows(cells, j, cells.len() as int);
        }
        if cells[i] is None && cells[j] is None {
            if i < j {
                lemma_empties_before_grows(cells, i, j);
            } else {
                lemma_empties_before_grows(cells, j, i);
            }
        } else if cells[i] is None {
            assert(!holds_id(cells, tiles[empties_before(cells, i) as int].sprite_id));
        } else if cells[j] is None {
            assert(!holds_id(cells, tiles[empties_before(cells, j) as int].sprite_id));
        }
    }
}

/// A request to show a new tile of colour `color` in column `x`, row `y`.
#[derive(Clone, Copy, PartialEq, Eq, Structural, Debug)]
pub struct Spawn {
    pub x: i32,
    pub y: i32,
    pub color: TileColor,
}

impl Grid {
    /// How many cells are empty.
    pub open spec fn empty_count(&self) -> nat {
        empties_before(self@, CELLS as int)
    }

    /// The number of empty cells.
    pub fn count_empty(&self) -> (r: usize)
        requires
            self.wf(),
        ensures
            r == self.empty_count(),
    {
        let mut n: usize = 0;
        let mut k: usize = 0;
        while k < CELLS
            invariant
                self.wf(),
                k <= CELLS,
                n == empties_before(self@, k as int),
                n <= k,
            decreases CELLS - k,
        {
            if self.cells[k].is_none() {
                n = n + 1;
            }
            k = k + 1;
        }
        n
    }

    /// One spawn for each empty cell, in the order of the cells, each with a
    /// colour drawn from `rng`: the `n`-th empty cell is the `n`-th spawn.
    pub fn plan_replenish(&self, rng: &mut StdRng) -> (r: Vec<Spawn>)
        requires
            self.wf(),
        ensures
            r@.len() == self.empty_count(),
            forall|k: int|
                0 <= k < CELLS && #[trigger] self@[k] is None ==> {
                    let s = r@[empties_before(self@, k) as int];
                    (s.x, s.y) == coords_of(k)
                },
    {
        let mut plan: Vec<Spawn> = Vec::new();
        let mut k: usize = 0;
        while k < CELLS
            invariant
                self.wf(),
                k <= CELLS,
                plan@.len() == empties_before(self@, k as int),
                forall|i: int|
                    0 <= i < k && #[trigger] self@[i] is None ==> {
                        let s = plan@[empties_before(self@, i) as int];
                        (s.x, s.y) == coords_of(i)
                    },
            decreases CELLS - k,
        {
            if self.cells[k].is_none() {
                let color = TileColor::rand(rng);
                plan.push(Spawn { x: (k / 5) as i32, y: (k % 5) as i32, color });
            }
            proof {
                assert forall|i: int|
                    0 <= i < k + 1 && #[trigger] self@[i] is None implies {
                        let s = plan@[empties_before(self@, i) as int];
                        (s.x, s.y) == coords_of(i)
                    } by {
                    if i < k {
                        lemma_empties_before_grows(self@, i, k as int);
                    }
                }
            }
            k = k + 1;
        }
        plan
    }
}

impl Grid {
    /// The sprites of `tiles` are pairwise distinct and show no tile of the
    /// board.
    pub fn tiles_fresh(&self, tiles: &Vec<Tile>) -> (r: bool)
        requires
            self.wf(),
        ensures
            r == fresh_tiles(self@, tiles@),
    {
        let mut i: usize = 0;
        while i < tiles.len()
            invariant
                self.wf(),
                i <= tiles@.len(),
                forall|a: int| 0 <= a < i ==> !holds_id(self@, #[trigger] tiles@[a].sprite_id),
                forall|a: int, b: int|
                    0 <= a < i && 0 <= b < i && a != b ==> tiles@[a].sprite_id
                        != tiles@[b].sprite_id,
            decreases tiles@.len() - i,
        {
            if self.holds_sprite(&tiles[i].sprite_id) {
                return false;
            }
            let mut j: usize = 0;
            while j < i
                invariant
                    i < tiles@.len(),
                    j <= i,
                    forall|b: int| 0 <= b < j ==> tiles@[b].sprite_id != tiles@[i as int].sprite_id,
                decreases i - j,
            {
                if tiles[j].sprite_id == tiles[i].sprite_id {
                    return false;
                }
                j = j + 1;
            }
            i = i + 1;
        }
        true
    }

    /// Fills the empty cells, in order, with `tiles`, one each, when there
    /// are as many tiles as empty cells and their sprites are fresh (see
    /// `tiles_fresh`); returns whether it did. Otherwise the board is left
    /// as it was.
    pub fn replenish(&mut self, tiles: &Vec<Tile>) -> (r: bool)
        requires
            old(self).wf(),
        ensures
            final(self).wf(),
            r == (tiles@.len() == old(self).empty_count() && fresh_tiles(old(self)@, tiles@)),
            r ==> final(self)@ == refilled(old(self)@, tiles@),
            !r ==> final(self)@ == old(self)@,
    {
        if tiles.len() != self.count_empty() || !self.tiles_fresh(tiles) {
            return false;
        }
        let ghost before = self@;
        proof {
            lemma_refilled_ids_distinct(before, tiles@);
        }
        let n: usize = tiles.len();
        let mut k: usize = 0;
        let mut j: usize = 0;
        while k < CELLS
            invariant
                n == tiles@.len(),
                self@.len() == CELLS,
                before.len() == CELLS,
                k <= CELLS,
                tiles@.len() == empties_before(before, CELLS as int),
                j == empties_before(before, k as int),
                forall|i: int| 0 <= i < k ==> self@[i] == refilled(before, tiles@)[i],
                forall|i: int| k <= i < CELLS ==> self@[i] == before[i],
            decreases CELLS - k,
        {
            if self.cells[k].is_none() {
                proof {
                    lemma_empties_before_grows(before, k as int, CELLS as int);
                }
                self.cells[k] = Some(tiles[j]);
                j = j + 1;
            }
            k = k + 1;
        }
        assert(self@ =~= refilled(before, tiles@));
        true
    }
}

/// The displacement, in cells, that a move in direction `d` from `pos`
/// achieves once clamped to the board.
pub open spec fn displacement(pos: (i32, i32), d: Direction) -> (int, int) {
    move_clamp_spec(delta_of(d), pos, (WIDTH, HEIGHT))
}

/// Where a move in direction `d` from `pos` ends.
pub open spec fn step(pos: (i32, i32), d: Direction) -> (i32, i32) {
    let (dx, dy) = displacement(pos, d);
    ((pos.0 + dx) as i32, (pos.1 + dy) as i32)
}

/// An event handed to the game.
#[derive(Clone, Copy, PartialEq, Eq, Structural, Debug)]
pub enum GameEvent {
    /// A step of the simulation: the board is replenished.
    Tick,
    /// The player asks to move one cell.
    DirectionalInput(Direction),
    /// The player attacks the cell it stands on.
    ActionInput,
}

/// What the scene that shows the game has to do after an event.
#[derive(Debug)]
pub enum SceneRequest {
    /// Nothing to show.
    Nothing,
    /// Create a sprite for each spawn; the tiles they show are then handed
    /// back through `UnnamedGame::replenish`.
    Spawn(Vec<Spawn>),
    /// Remove the sprite with this handle.
    Remove(Uuid),
    /// Animate the player's sprite by this many pixels along each axis.
    MoveBy(i32, i32),
}

/// The move that a request asks for, if it is one.
pub open spec fn requested_move(r: SceneRequest) -> Option<(i32, i32)> {
    match r {
        SceneRequest::MoveBy(dx, dy) => Some((dx, dy)),
        _ => None,
    }
}

/// The sprite that a request removes, if it is a removal.
pub open spec fn requested_removal(r: SceneRequest) -> Option<Uuid> {
    match r {
        SceneRequest::Remove(id) => Some(id),
        _ => None,
    }
}

/// The state of a game: the board, the player's cell and the handle of the
/// player's sprite.
pub struct UnnamedGame {
    grid: Grid,
    player_coords: (i32, i32),
    player_id: Uuid,
}

impl UnnamedGame {
    /// The cells of the board, column after column.
    pub closed spec fn board(&self) -> Seq<Option<Tile>> {
        self.grid@
    }

    /// The player's cell.
    pub closed spec fn position(&self) -> (i32, i32) {
        self.player_coords
    }

    /// The handle of the player's sprite.
    pub closed spec fn player(&self) -> Uuid {
        self.player_id
    }

    /// The board is well formed and the player stands on it.
    pub open spec fn wf(&self) -> bool {
        &&& self.board().len() == CELLS
        &&& ids_distinct(self.board())
        &&& in_bounds(self.position().0 as int, self.position().1 as int)
    }

    /// The board cell under the player.
    pub open spec fn cell_under_player(&self) -> Option<Tile> {
        self.board()[index_of(self.position().0 as int, self.position().1 as int)]
    }

    /// `after` and `r` are what a move in direction `d` gives from this
    /// state: nothing while an animation runs or when the clamped move is
    /// zero; otherwise the player steps and its sprite is to be moved by the
    /// displacement in pixels.
    pub open spec fn move_outcome(
        &self,
        d: Direction,
        animating: bool,
        after: UnnamedGame,
        r: Option<(i32, i32)>,
    ) -> bool {
        let (dx, dy) = displacement(self.position(), d);
        &&& after.board() == self.board()
        &&& after.player() == self.player()
        &&& if animating || (dx == 0 && dy == 0) {
            after.position() == self.position() && r is None
        } else {
            &&& after.position() == step(self.position(), d)
            &&& r == Some(((TILE_SIZE * dx) as i32, (TILE_SIZE * dy) as i32))
        }
    }

    /// `after` and `r` are what an attack gives from this state: the tile
    /// under the player, if any, leaves the board and its sprite is to be
    /// removed; nothing else changes.
    pub open spec fn attack_outcome(&self, after: UnnamedGame, r: Option<Uuid>) -> bool {
        &&& after.position() == self.position()
        &&& after.player() == self.player()
        &&& match self.cell_under_player() {
            None => after.board() == self.board() && r is None,
            Some(t) => {
                &&& after.board() == self.board().update(
                    index_of(self.position().0 as int, self.position().1 as int),
                    None,
                )
                &&& r == Some(t.sprite_id)
            },
        }
    }

    /// A game on an empty board, with the player, shown by the sprite
    /// `player_id`, in the top left cell. The first replenishment fills
    /// the board.
    pub fn new(player_id: Uuid) -> (r: UnnamedGame)
        ensures
            r.wf(),
            r.position() == (0i32, 0i32),
            r.player() == player_id,
            forall|k: int| 0 <= k < CELLS ==> r.board()[k] is None,
    {
        UnnamedGame { grid: Grid::new(), player_coords: (0, 0), player_id }
    }

    /// The board.
    pub fn grid(&self) -> (r: &Grid)
        requires
            self.wf(),
        ensures
            r.wf(),
            r@ == self.board(),
    {
        &self.grid
    }

    /// The player's cell.
    pub fn player_coords(&self) -> (r: (i32, i32))
        ensures
            r == self.position(),
    {
        self.player_coords
    }

    /// The handle of the player's sprite.
    pub fn player_id(&self) -> (r: Uuid)
        ensures
            r == self.player(),
    {
        self.player_id
    }

    /// Moves the player one cell in direction `d`, clamped to the board,
    /// unless `animating` says an animation is running. Returns the
    /// displacement in pixels by which the player's sprite is to be
    /// animated, or `None` when the player did not move.
    pub fn move_player(&mut self, d: Direction, animating: bool) -> (r: Option<(i32, i32)>)
        requires
            old(self).wf(),
        ensures
            final(self).wf(),
            old(self).move_outcome(d, animating, *final(self), r),
    {
        if animating {
            return None;
        }
        let (x_delta, y_delta) = move_clamp(d.coord_delta(), self.player_coords, (WIDTH, HEIGHT));
        if x_delta == 0 && y_delta == 0 {
            return None;
        }
        let (p_x, p_y) = self.player_coords;
        self.player_coords = (p_x + x_delta, p_y + y_delta);
        let (tile_width, tile_height) = TileColor::dims();
        Some((tile_width * x_delta, tile_height * y_delta))
    }

    /// Removes the tile under the player, if there is one, and returns the
    /// handle of its sprite, which the scene is to remove.
    pub fn attack(&mut self) -> (r: Option<Uuid>)
        requires
            old(self).wf(),
        ensures
            final(self).wf(),
            old(self).attack_outcome(*final(self), r),
    {
        let (x, y) = self.player_coords;
        match self.grid.get(x, y) {
            None => None,
            Some(tile) => {
                self.grid.set(x, y, None);
                Some(tile.sprite_id)
            },
        }
    }
}

impl UnnamedGame {
    /// One spawn for each empty cell of the board, in the order of the
    /// cells, with colours drawn from `rng`. See `Grid::plan_replenish`.
    pub fn plan_replenish(&self, rng: &mut StdRng) -> (r: Vec<Spawn>)
        requires
            self.wf(),
        ensures
            r@.len() == empties_before(self.board(), CELLS as int),
            forall|k: int|
                0 <= k < CELLS && #[trigger] self.board()[k] is None ==> {
                    let s = r@[empties_before(self.board(), k) as int];
                    (s.x, s.y) == coords_of(k)
                },
    {
        self.grid.plan_replenish(rng)
    }

    /// Fills the empty cells of the board, in order, with `tiles`, when
    /// there are as many tiles as empty cells and their sprites are fresh.
    /// Returns whether it did; otherwise nothing changes.
    pub fn replenish(&mut self, tiles: &Vec<Tile>) -> (r: bool)
        requires
            old(self).wf(),
        ensures
            final(self).wf(),
            final(self).position() == old(self).position(),
            final(self).player() == old(self).player(),
            r == (tiles@.len() == empties_before(old(self).board(), CELLS as int)
                && fresh_tiles(old(self).board(), tiles@)),
            r ==> final(self).board() == refilled(old(self).board(), tiles@),
            !r ==> final(self).board() == old(self).board(),
    {
        self.grid.replenish(tiles)
    }

    /// Handles one event. `animating` tells whether an animation of the
    /// scene is running. A tick leaves the state as it is and asks for the
    /// sprites of the tiles that are to fill the empty cells; a directional
    /// input moves the player as `move_player` does; an action input attacks
    /// as `attack` does.
    pub fn event(&mut self, ev: GameEvent, animating: bool, rng: &mut StdRng) -> (r: SceneRequest)
        requires
            old(self).wf(),
        ensures
            final(self).wf(),
            match ev {
                GameEvent::Tick => {
                    &&& final(self).board() == old(self).board()
                    &&& final(self).position() == old(self).position()
                    &&& final(self).player() == old(self).player()
                    &&& r matches SceneRequest::Spawn(plan) && plan@.len() == empties_before(
                        old(self).board(),
                        CELLS as int,
                    ) && forall|k: int|
                        0 <= k < CELLS && #[trigger] old(self).board()[k] is None ==> {
                            let s = plan@[empties_before(old(self).board(), k) as int];
                            (s.x, s.y) == coords_of(k)
                        }
                },
                GameEvent::DirectionalInput(d) => {
                    &&& r is MoveBy || r is Nothing
                    &&& old(self).move_outcome(d, animating, *final(self), requested_move(r))
                },
                GameEvent::ActionInput => {
                    &&& r is Remove || r is Nothing
                    &&& old(self).attack_outcome(*final(self), requested_removal(r))
                },
            },
    {
        match ev {
            GameEvent::Tick => SceneRequest::Spawn(self.plan_replenish(rng)),
            GameEvent::DirectionalInput(d) => match self.move_player(d, animating) {
                Some((dx, dy)) => SceneRequest::MoveBy(dx, dy),
                None => SceneRequest::Nothing,
            },
            GameEvent::ActionInput => match self.attack() {
                Some(id) => SceneRequest::Remove(id),
                None => SceneRequest::Nothing,
            },
        }
    }
}

} // verus!
