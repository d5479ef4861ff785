use vstd::prelude::*;
use crate::game::{
    Direction, Tile, UnnamedGame, CELLS, empties_before, in_bounds, refilled, step,
};

verus! {

/// A clamped move from a cell of the board ends on the board.
pub proof fn lemma_step_on_board(pos: (i32, i32), d: Direction)
    requires
        in_bounds(pos.0 as int, pos.1 as int),
    ensures
        in_bounds(step(pos, d).0 as int, step(pos, d).1 as int),
{
}

/// Over any sequence of directional inputs, each handled with or without a
/// running animation, the player stays on the board: every state reached
/// is well formed.
pub proof fn lemma_moves_stay_on_board(
    games: Seq<UnnamedGame>,
    dirs: Seq<Direction>,
    animating: Seq<bool>,
    answers: Seq<Option<(i32, i32)>>,
)
    requires
        games.len() == dirs.len() + 1,
        animating.len() == dirs.len(),
        answers.len() == dirs.len(),
        games[0].wf(),
        forall|i: int|
            0 <= i < dirs.len() ==> #[trigger] games[i].move_outcome(
                dirs[i],
                animating[i],
                games[i + 1],
                answers[i],
            ),
    ensures
        forall|i: int| 0 <= i < games.len() ==> #[trigger] games[i].wf(),
    decreases dirs.len(),
{
    if dirs.len() > 0 {
        let n = dirs.len() - 1;
        let prefix = games.take(games.len() - 1);
        assert forall|i: int| 0 <= i < n implies #[trigger] prefix[i].move_outcome(
            dirs.take(n)[i],
            animating.take(n)[i],
            prefix[i + 1],
            answers.take(n)[i],
        ) by {
            assert(games[i].move_outcome(dirs[i], animating[i], games[i + 1], answers[i]));
        }
        lemma_moves_stay_on_board(prefix, dirs.take(n), animating.take(n), answers.take(n));
        assert(prefix[n].wf());
        assert(games[n].move_outcome(dirs[n], animating[n], games[n + 1], answers[n]));
        lemma_step_on_board(games[n].position(), dirs[n]);
        assert forall|i: int| 0 <= i < games.len() implies #[trigger] games[i].wf() by {
            if i < games.len() - 1 {
                assert(prefix[i].wf());
            }
        }
    }
}

/// Two directional inputs in a row, the second while the animation started
/// by the first is still running: only the first can move the player.
pub proof fn lemma_animation_gate(
    g0: UnnamedGame,
    g1: UnnamedGame,
    g2: UnnamedGame,
    d1: Direction,
    d2: Direction,
    r1: Option<(i32, i32)>,
    r2: Option<(i32, i32)>,
)
    requires
        g0.move_outcome(d1, false, g1, r1),
        g1.move_outcome(d2, true, g2, r2),
    ensures
        g2.position() == g1.position(),
        r2 is None,
{
}

/// Replenishing fills every empty cell and leaves every occupied cell as it
/// was.
pub proof fn lemma_replenish_fills_gaps(cells: Seq<Option<Tile>>, tiles: Seq<Tile>)
    requires
        cells.len() == CELLS,
        tiles.len() == empties_before(cells, CELLS as int),
    ensures
        refilled(cells, tiles).len() == CELLS,
        forall|k: int| 0 <= k < CELLS ==> (#[trigger] refilled(cells, tiles)[k]) is Some,
        forall|k: int|
            0 <= k < CELLS && cells[k] is Some ==> #[trigger] refilled(cells, tiles)[k] == cells[k],
{
}

} // verus!
