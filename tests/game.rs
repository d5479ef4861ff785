use rand::rngs::StdRng;
use rand::SeedableRng;
use uuid::Uuid;
use vs_game::utils::{clamp, move_clamp};
use vs_game::game::{
    Direction, GameEvent, Grid, SceneRequest, Spawn, Tile, TileColor, UnnamedGame, CELLS, HEIGHT,
    WIDTH,
};

fn uid(n: u8) -> Uuid {
    let mut b = [0u8; 16];
    b[15] = n;
    b[0] = 0x42;
    Uuid::from_bytes(&b).unwrap()
}

fn player() -> Uuid {
    uid(200)
}

fn tiles_for(plan: &Vec<Spawn>, first: u8) -> Vec<Tile> {
    plan.iter()
        .enumerate()
        .map(|(i, s)| Tile::new(s.color, uid(first + i as u8)))
        .collect()
}

/// A game whose board holds 25 tiles, shown by sprites 1 to 25.
fn full_game(rng: &mut StdRng) -> UnnamedGame {
    let mut g = UnnamedGame::new(player());
    let plan = match g.event(GameEvent::Tick, false, rng) {
        SceneRequest::Spawn(plan) => plan,
        other => panic!("unexpected request {:?}", other),
    };
    assert_eq!(plan.len(), 25);
    assert!(g.replenish(&tiles_for(&plan, 1)));
    g
}

fn occupied(g: &UnnamedGame) -> usize {
    let mut n = 0;
    for x in 0..WIDTH {
        for y in 0..HEIGHT {
            if g.grid().get(x, y).is_some() {
                n += 1;
            }
        }
    }
    n
}

#[test]
fn tile_dims_are_sixteen() {
    assert_eq!(TileColor::dims(), (16, 16));
}

#[test]
fn color_indices() {
    assert_eq!(TileColor::from_index(1), TileColor::Red);
    assert_eq!(TileColor::from_index(2), TileColor::Green);
    assert_eq!(TileColor::from_index(3), TileColor::Blue);
    assert_eq!(TileColor::from_index(4), TileColor::Yellow);
}

#[test]
fn random_colors_vary() {
    let mut rng = StdRng::seed_from_u64(11);
    let mut seen = [false; 4];
    for _ in 0..200 {
        let c = TileColor::rand(&mut rng);
        let i = match c {
            TileColor::Red => 0,
            TileColor::Green => 1,
            TileColor::Blue => 2,
            TileColor::Yellow => 3,
        };
        seen[i] = true;
    }
    assert_eq!(seen, [true; 4]);
}

#[test]
fn direction_deltas() {
    assert_eq!(Direction::Up.coord_delta(), (0, -1));
    assert_eq!(Direction::Down.coord_delta(), (0, 1));
    assert_eq!(Direction::Left.coord_delta(), (-1, 0));
    assert_eq!(Direction::Right.coord_delta(), (1, 0));
}

#[test]
fn cell_centres_in_pixels() {
    assert_eq!(Grid::to_coords(0, 0), (8, 8));
    assert_eq!(Grid::to_coords(1, 2), (24, 40));
    assert_eq!(Grid::to_coords(4, 4), (72, 72));
}

#[test]
fn new_grid_is_empty() {
    let g = Grid::new();
    assert_eq!(g.count_empty(), CELLS);
    for x in 0..WIDTH {
        for y in 0..HEIGHT {
            assert!(g.get(x, y).is_none());
        }
    }
}

#[test]
fn set_and_get_one_cell() {
    let mut g = Grid::new();
    g.set(2, 3, Some(Tile::new(TileColor::Blue, uid(9))));
    let t = g.get(2, 3).unwrap();
    assert_eq!(t.color, TileColor::Blue);
    assert_eq!(t.sprite_id, uid(9));
    assert!(g.get(3, 2).is_none());
    assert_eq!(g.count_empty(), 24);
    assert!(g.holds_sprite(&uid(9)));
    assert!(!g.holds_sprite(&uid(10)));
    g.set(2, 3, None);
    assert_eq!(g.count_empty(), 25);
    assert!(!g.holds_sprite(&uid(9)));
}

#[test]
fn plan_lists_empty_cells_in_order() {
    let mut rng = StdRng::seed_from_u64(3);
    let mut g = Grid::new();
    g.set(0, 1, Some(Tile::new(TileColor::Red, uid(1))));
    g.set(3, 4, Some(Tile::new(TileColor::Red, uid(2))));
    let plan = g.plan_replenish(&mut rng);
    assert_eq!(plan.len(), 23);
    assert_eq!((plan[0].x, plan[0].y), (0, 0));
    assert_eq!((plan[1].x, plan[1].y), (0, 2));
    assert_eq!((plan[5].x, plan[5].y), (1, 1));
    assert_eq!((plan[18].x, plan[18].y), (4, 0));
    assert_eq!((plan[22].x, plan[22].y), (4, 4));
    assert!(plan.iter().all(|s| !(s.x == 3 && s.y == 4)));
}

#[test]
fn replenish_fills_in_order() {
    let mut g = Grid::new();
    g.set(0, 0, Some(Tile::new(TileColor::Red, uid(1))));
    let tiles: Vec<Tile> = (0..24).map(|i| Tile::new(TileColor::Green, uid(10 + i))).collect();
    assert!(g.replenish(&tiles));
    assert_eq!(g.count_empty(), 0);
    assert_eq!(g.get(0, 0).unwrap().sprite_id, uid(1));
    assert_eq!(g.get(0, 0).unwrap().color, TileColor::Red);
    assert_eq!(g.get(0, 1).unwrap().sprite_id, uid(10));
    assert_eq!(g.get(1, 0).unwrap().sprite_id, uid(14));
    assert_eq!(g.get(4, 4).unwrap().sprite_id, uid(33));
}

#[test]
fn replenish_refuses_wrong_count() {
    let mut g = Grid::new();
    let tiles: Vec<Tile> = (0..24).map(|i| Tile::new(TileColor::Green, uid(10 + i))).collect();
    assert!(!g.replenish(&tiles));
    assert_eq!(g.count_empty(), 25);
}

#[test]
fn replenish_refuses_repeated_sprite() {
    let mut g = Grid::new();
    let mut tiles: Vec<Tile> = (0..25).map(|i| Tile::new(TileColor::Green, uid(10 + i))).collect();
    tiles[7] = Tile::new(TileColor::Blue, uid(10));
    assert!(!g.tiles_fresh(&tiles));
    assert!(!g.replenish(&tiles));
    assert_eq!(g.count_empty(), 25);
}

#[test]
fn replenish_refuses_sprite_on_board() {
    let mut g = Grid::new();
    g.set(4, 4, Some(Tile::new(TileColor::Red, uid(77))));
    let mut tiles: Vec<Tile> = (0..24).map(|i| Tile::new(TileColor::Green, uid(10 + i))).collect();
    assert!(g.tiles_fresh(&tiles));
    tiles[0] = Tile::new(TileColor::Green, uid(77));
    assert!(!g.tiles_fresh(&tiles));
    assert!(!g.replenish(&tiles));
    assert_eq!(g.count_empty(), 24);
}

#[test]
fn replenish_on_full_board_does_nothing() {
    let mut rng = StdRng::seed_from_u64(5);
    let mut g = full_game(&mut rng);
    let plan = g.plan_replenish(&mut rng);
    assert!(plan.is_empty());
    assert!(g.replenish(&Vec::new()));
    assert_eq!(occupied(&g), 25);
}

#[test]
fn new_game_starts_top_left_on_empty_board() {
    let g = UnnamedGame::new(player());
    assert_eq!(g.player_coords(), (0, 0));
    assert_eq!(g.player_id(), player());
    assert_eq!(occupied(&g), 0);
}

#[test]
fn moves_from_top_left_corner_are_clamped() {
    let mut g = UnnamedGame::new(player());
    assert_eq!(g.move_player(Direction::Left, false), None);
    assert_eq!(g.move_player(Direction::Up, false), None);
    assert_eq!(g.player_coords(), (0, 0));
}

#[test]
fn moves_from_bottom_right_corner_are_clamped() {
    let mut g = UnnamedGame::new(player());
    for _ in 0..4 {
        assert_eq!(g.move_player(Direction::Right, false), Some((16, 0)));
        assert_eq!(g.move_player(Direction::Down, false), Some((0, 16)));
    }
    assert_eq!(g.player_coords(), (4, 4));
    assert_eq!(g.move_player(Direction::Right, false), None);
    assert_eq!(g.move_player(Direction::Down, false), None);
    assert_eq!(g.player_coords(), (4, 4));
    assert_eq!(g.move_player(Direction::Left, false), Some((-16, 0)));
    assert_eq!(g.move_player(Direction::Up, false), Some((0, -16)));
    assert_eq!(g.player_coords(), (3, 3));
}

#[test]
fn move_clamp_at_corners() {
    assert_eq!(move_clamp((-1, 0), (0, 0), (5, 5)), (0, 0));
    assert_eq!(move_clamp((0, -1), (0, 0), (5, 5)), (0, 0));
    assert_eq!(move_clamp((1, 0), (4, 4), (5, 5)), (0, 0));
    assert_eq!(move_clamp((0, 1), (4, 4), (5, 5)), (0, 0));
    assert_eq!(move_clamp((1, 0), (0, 0), (5, 5)), (1, 0));
    assert_eq!(move_clamp((3, -3), (3, 1), (5, 5)), (1, -1));
}

#[test]
fn clamp_values() {
    assert_eq!(clamp(-3, 0, 4), 0);
    assert_eq!(clamp(9, 0, 4), 4);
    assert_eq!(clamp(2, 0, 4), 2);
    assert_eq!(clamp(0, 0, 4), 0);
    assert_eq!(clamp(4, 0, 4), 4);
}

#[test]
fn clamp_other_orders() {
    assert_eq!(clamp(200u8, 10, 20), 20);
    assert_eq!(clamp(2.5f64, 0.0, 1.0), 1.0);
    assert_eq!(clamp(-0.5f64, 0.0, 1.0), 0.0);
    assert_eq!(clamp('m', 'a', 'z'), 'm');
}

#[test]
fn animation_gate_allows_one_move() {
    let mut rng = StdRng::seed_from_u64(1);
    let mut g = UnnamedGame::new(player());
    let first = g.event(GameEvent::DirectionalInput(Direction::Right), false, &mut rng);
    assert!(matches!(first, SceneRequest::MoveBy(16, 0)));
    let second = g.event(GameEvent::DirectionalInput(Direction::Right), true, &mut rng);
    assert!(matches!(second, SceneRequest::Nothing));
    assert_eq!(g.player_coords(), (1, 0));
}

#[test]
fn random_walk_stays_on_board() {
    let mut rng = StdRng::seed_from_u64(99);
    let mut g = UnnamedGame::new(player());
    let dirs = [Direction::Up, Direction::Down, Direction::Left, Direction::Right];
    for i in 0..500u32 {
        let d = dirs[(TileColor::rand(&mut rng) as usize + i as usize) % 4];
        g.move_player(d, i % 7 == 0);
        let (x, y) = g.player_coords();
        assert!(0 <= x && x < 5 && 0 <= y && y < 5);
    }
}

#[test]
fn attack_on_empty_cell_changes_nothing() {
    let mut rng = StdRng::seed_from_u64(2);
    let mut g = UnnamedGame::new(player());
    let r = g.event(GameEvent::ActionInput, false, &mut rng);
    assert!(matches!(r, SceneRequest::Nothing));
    assert_eq!(g.attack(), None);
    assert_eq!(g.player_coords(), (0, 0));
    assert_eq!(occupied(&g), 0);
}

#[test]
fn attack_removes_the_tile_under_the_player() {
    let mut rng = StdRng::seed_from_u64(4);
    let mut g = full_game(&mut rng);
    g.move_player(Direction::Down, false);
    let under = g.grid().get(0, 1).unwrap().sprite_id;
    assert_eq!(under, uid(2));
    let r = g.event(GameEvent::ActionInput, false, &mut rng);
    match r {
        SceneRequest::Remove(id) => assert_eq!(id, under),
        other => panic!("unexpected request {:?}", other),
    }
    assert!(g.grid().get(0, 1).is_none());
    assert_eq!(occupied(&g), 24);
    assert_eq!(g.player_coords(), (0, 1));
    assert_eq!(g.attack(), None);
    assert_eq!(occupied(&g), 24);
}

#[test]
fn tick_fills_every_gap_and_keeps_the_rest() {
    let mut rng = StdRng::seed_from_u64(8);
    let mut g = full_game(&mut rng);
    assert!(g.attack().is_some());
    g.move_player(Direction::Right, false);
    g.move_player(Direction::Right, false);
    assert!(g.attack().is_some());
    g.move_player(Direction::Down, false);
    assert!(g.attack().is_some());
    assert_eq!(occupied(&g), 22);
    let before: Vec<Option<Uuid>> = (0..25)
        .map(|k| g.grid().get(k / 5, k % 5).map(|t| t.sprite_id))
        .collect();
    let plan = match g.event(GameEvent::Tick, false, &mut rng) {
        SceneRequest::Spawn(plan) => plan,
        other => panic!("unexpected request {:?}", other),
    };
    let cells: Vec<(i32, i32)> = plan.iter().map(|s| (s.x, s.y)).collect();
    assert_eq!(cells, vec![(0, 0), (2, 0), (2, 1)]);
    assert!(g.replenish(&tiles_for(&plan, 100)));
    assert_eq!(occupied(&g), 25);
    for k in 0..25 {
        let now = g.grid().get(k / 5, k % 5).unwrap();
        if let Some(id) = before[k as usize] {
            assert_eq!(now.sprite_id, id);
        }
    }
    assert_eq!(g.grid().get(2, 0).unwrap().sprite_id, uid(101));
    assert_eq!(g.grid().get(2, 0).unwrap().color, plan[1].color);
}

#[test]
fn end_to_end_scenario() {
    let mut rng = StdRng::seed_from_u64(2024);
    let mut g = full_game(&mut rng);
    assert_eq!(g.player_coords(), (0, 0));
    assert_eq!(occupied(&g), 25);

    let r = g.event(GameEvent::ActionInput, false, &mut rng);
    assert!(matches!(r, SceneRequest::Remove(id) if id == uid(1)));
    assert!(g.grid().get(0, 0).is_none());

    let plan = match g.event(GameEvent::Tick, false, &mut rng) {
        SceneRequest::Spawn(plan) => plan,
        other => panic!("unexpected request {:?}", other),
    };
    assert_eq!(plan.len(), 1);
    assert_eq!((plan[0].x, plan[0].y), (0, 0));
    assert!(g.replenish(&tiles_for(&plan, 50)));
    assert!(g.grid().get(0, 0).is_some());

    let r = g.event(GameEvent::DirectionalInput(Direction::Right), false, &mut rng);
    assert!(matches!(r, SceneRequest::MoveBy(16, 0)));
    assert_eq!(g.player_coords(), (1, 0));

    let r = g.event(GameEvent::ActionInput, false, &mut rng);
    assert!(matches!(r, SceneRequest::Remove(id) if id == uid(6)));

    assert_eq!(g.grid().get(0, 0).unwrap().sprite_id, uid(50));
    assert!(g.grid().get(1, 0).is_none());
    assert_eq!(g.player_coords(), (1, 0));
    assert_eq!(occupied(&g), 24);
}
