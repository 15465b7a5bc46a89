use tile_world::component::{EnemyDamageComponent, GridComponent, InputComponent};
use tile_world::entity::{new_enemy, new_player, new_prize, Entity, EntityComponentChecklist, EntityTeam};
use tile_world::grid::{to_screen, Grid, Tile, FLOOR_COLOR, TILE_SIZE, WALL_COLOR};
use tile_world::state::{game_loop, init_state, State};
use tile_world::vector::Vector2;

fn walled_grid(width: u32, height: u32) -> Grid {
    let mut tiles = Vec::new();
    for x in 0..width {
        for y in 0..height {
            if x == 0 || y == 0 || x == width - 1 || y == height - 1 {
                tiles.push(Tile::Wall);
            } else {
                tiles.push(Tile::Floor);
            }
        }
    }
    Grid::new(width, height, tiles)
}

fn open_grid(width: u32, height: u32) -> Grid {
    Grid::new(width, height, vec![Tile::Floor; (width * height) as usize])
}

fn step(s: State, x: i32, y: i32) -> State {
    game_loop(Vector2::new(x, y), s).state
}

#[test]
fn basic_grid() {
    let v: Vec<Tile> = vec![];
    let g = Grid::new(0, 0, v);
    assert!(g.draw().len() == 0)
}

#[test]
fn one_by_one_grid() {
    let g = Grid::new(1, 1, vec![Tile::Wall]);
    assert_eq!(g.draw(), vec![Tile::Wall.get_color(), 0, 0, TILE_SIZE, TILE_SIZE])
}

#[test]
fn run_frame() {
    let s = init_state();
    game_loop(Vector2::new(0, 0), s);
}

#[test]
fn run_frame_input() {
    let mut s = init_state();
    s = game_loop(Vector2::new(1, 0), s).state;
    assert_eq!(s.entities.len(), 3);
}

#[test]
fn player_draw() {
    let mut p = new_player(Vector2::new(0, 0));
    assert_eq!(p.draw(), vec![0x00ff00, 0, 0 as u32, TILE_SIZE, TILE_SIZE]);
    p.health = 0;
    assert_eq!(p.draw(), vec![0xffffff, 0, 0 as u32, TILE_SIZE, TILE_SIZE]);
}

#[test]
fn tile_colors() {
    assert_eq!(Tile::Wall.get_color(), 0x033499);
    assert_eq!(Tile::Floor.get_color(), 0x191919);
    assert_eq!(WALL_COLOR, 0x033499);
    assert_eq!(FLOOR_COLOR, 0x191919);
}

#[test]
fn grid_draw_sizes() {
    for (w, h) in [(0u32, 0u32), (1, 1), (2, 3), (3, 2), (4, 4)] {
        let g = open_grid(w, h);
        assert_eq!(g.draw().len() as u32, 5 * w * h);
    }
}

#[test]
fn grid_draw_order_column_by_column() {
    let g = Grid::new(2, 3, vec![Tile::Wall, Tile::Floor, Tile::Floor, Tile::Floor, Tile::Floor, Tile::Wall]);
    let d = g.draw();
    assert_eq!(
        d,
        vec![
            WALL_COLOR, 0, 0, 20, 20,
            FLOOR_COLOR, 0, 20, 20, 20,
            FLOOR_COLOR, 0, 40, 20, 20,
            FLOOR_COLOR, 20, 0, 20, 20,
            FLOOR_COLOR, 20, 20, 20, 20,
            WALL_COLOR, 20, 40, 20, 20,
        ]
    );
}

#[test]
fn grid_lookup() {
    let g = Grid::new(2, 3, vec![Tile::Wall, Tile::Floor, Tile::Floor, Tile::Floor, Tile::Floor, Tile::Wall]);
    assert_eq!(g.get_tile(Vector2::new(0, 0)), Some(Tile::Wall));
    assert_eq!(g.get_tile(Vector2::new(1, 2)), Some(Tile::Wall));
    assert_eq!(g.get_tile(Vector2::new(1, 1)), Some(Tile::Floor));
    assert_eq!(g.get_tile(Vector2::new(0, 2)), Some(Tile::Floor));
    assert_eq!(g.get_tile(Vector2::new(2, 0)), None);
    assert_eq!(g.get_tile(Vector2::new(0, 3)), None);
    assert_eq!(g.get_tile(Vector2::new(-1, 0)), None);
    assert_eq!(g.get_tile(Vector2::new(0, -1)), None);
    assert_eq!(g.get_tile(Vector2::new(i32::MIN, i32::MIN)), None);
}

#[test]
fn grid_lookup_short_tiles() {
    let g = Grid::new(3, 3, vec![Tile::Floor, Tile::Wall]);
    assert_eq!(g.get_tile(Vector2::new(0, 1)), Some(Tile::Wall));
    assert_eq!(g.get_tile(Vector2::new(1, 1)), None);
}

#[test]
fn screen_coordinates() {
    assert_eq!(to_screen(0), 0);
    assert_eq!(to_screen(7), 140);
    assert_eq!(to_screen(u32::MAX), 4294967276);
}

#[test]
fn entity_draw_half_health() {
    let mut p = new_player(Vector2::new(2, 3));
    p.health = 5;
    assert_eq!(p.draw(), vec![0x7fff7f, 40, 60, 20, 20]);
}

#[test]
fn entity_draw_tints_each_channel() {
    let mut e = new_enemy(Vector2::new(1, 0));
    assert_eq!(e.draw(), vec![0xff0000, 20, 0, 20, 20]);
    e.health = 0;
    assert_eq!(e.draw(), vec![0xffffff, 20, 0, 20, 20]);
    e.health = 9;
    assert_eq!(e.draw()[0], 0xff1919);
    let mut q = new_prize(Vector2::new(0, 0));
    q.health = 0;
    assert_eq!(q.draw()[0], 0xffffff);
}

#[test]
fn entity_draw_negative_position() {
    let p = new_player(Vector2::new(-1, 2));
    assert_eq!(p.draw(), vec![0x00ff00, 4294967276, 40, 20, 20]);
}

#[test]
fn entity_draw_zero_max_health() {
    let e = Entity::new(Vector2::new(0, 0), 0, 0, 0x123456, EntityTeam::Enemy);
    assert_eq!(e.draw()[0], 0x123456);
}

#[test]
fn entity_new_has_no_behaviors() {
    let e = Entity::new(Vector2::new(4, 5), 3, 7, 0xabcdef, EntityTeam::Player);
    assert_eq!(e.position, Vector2::new(4, 5));
    assert_eq!(e.delta_position, Vector2::new(0, 0));
    assert_eq!(e.component_checklist, EntityComponentChecklist::new());
    assert!(!e.component_checklist.input_component);
    assert!(!e.component_checklist.damage_component);
    assert!(!e.component_checklist.grid_component);
    assert_eq!((e.health, e.max_health, e.base_color), (3, 7, 0xabcdef));
}

#[test]
fn archetypes() {
    let p = new_player(Vector2::new(1, 1));
    assert!(p.component_checklist.input_component && p.component_checklist.damage_component && p.component_checklist.grid_component);
    assert_eq!((p.health, p.max_health, p.base_color, p.team), (10, 10, 0x00ff00, EntityTeam::Player));
    let e = new_enemy(Vector2::new(1, 1));
    assert!(!e.component_checklist.input_component && e.component_checklist.damage_component && e.component_checklist.grid_component);
    assert_eq!((e.health, e.max_health, e.base_color, e.team), (10, 10, 0xff0000, EntityTeam::Enemy));
    let q = new_prize(Vector2::new(1, 1));
    assert!(!q.component_checklist.input_component && !q.component_checklist.damage_component && q.component_checklist.grid_component);
    assert_eq!((q.health, q.max_health, q.base_color, q.team), (10, 10, 0xffec00, EntityTeam::Player));
}

#[test]
fn input_component_sets_pending_move() {
    let g = open_grid(3, 3);
    let p = new_player(Vector2::new(1, 1));
    let r = InputComponent {}.apply(p, &g, Vector2::new(1, -1), &vec![p]);
    assert_eq!(r.delta_position, Vector2::new(1, -1));
    assert_eq!(r.position, Vector2::new(1, 1));
}

#[test]
fn grid_component_moves_onto_floor() {
    let g = open_grid(3, 3);
    let mut p = new_player(Vector2::new(1, 1));
    p.delta_position = Vector2::new(1, 0);
    let r = GridComponent {}.apply(p, &g, Vector2::new(0, 0), &vec![p]);
    assert_eq!(r.position, Vector2::new(2, 1));
    assert_eq!(r.delta_position, Vector2::new(0, 0));
}

#[test]
fn damage_component_hurts_the_one_who_bumps() {
    let g = open_grid(3, 3);
    let mut p = new_player(Vector2::new(0, 0));
    p.delta_position = Vector2::new(1, 0);
    let e = new_enemy(Vector2::new(1, 0));
    let r = EnemyDamageComponent {}.apply(p, &g, Vector2::new(0, 0), &vec![p, e]);
    assert_eq!(r.health, 9);
    assert_eq!(r.delta_position, Vector2::new(0, 0));
    let r2 = EnemyDamageComponent {}.apply(e, &g, Vector2::new(0, 0), &vec![p, e]);
    assert_eq!(r2, e);
}

#[test]
fn same_team_never_hurts() {
    let g = open_grid(3, 3);
    let mut p = new_player(Vector2::new(0, 0));
    p.delta_position = Vector2::new(1, 0);
    let q = new_prize(Vector2::new(1, 0));
    let r = EnemyDamageComponent {}.apply(p, &g, Vector2::new(0, 0), &vec![p, q]);
    assert_eq!(r, p);
}

#[test]
fn scenario_small_room_step() {
    let s = State { entities: vec![new_player(Vector2::new(1, 1))], grid: walled_grid(5, 5) };
    let out = game_loop(Vector2::new(1, 0), s);
    assert_eq!(out.state.entities[0].position, Vector2::new(2, 1));
    assert_eq!(out.state.entities[0].delta_position, Vector2::new(0, 0));
    assert_eq!(out.state.get_tile(Vector2::new(2, 1)), Some(Tile::Floor));
    assert_eq!(out.draw_calls.len(), 5 * 25 + 5);
    assert_eq!(&out.draw_calls[125..], &[0x00ff00, 40, 20, 20, 20]);
}

#[test]
fn scenario_bump_into_enemy() {
    let mut s = init_state();
    s = step(s, 0, 1);
    assert_eq!(s.entities[0].position, Vector2::new(1, 2));
    s = step(s, 0, 1);
    assert_eq!(s.entities[0].position, Vector2::new(1, 3));
    assert_eq!(s.entities[1].position, Vector2::new(2, 3));
    s = step(s, 1, 0);
    // The move onto the enemy's cell is cancelled, and the one who ran into
    // a foe loses a point of health.
    assert_eq!(s.entities[0].position, Vector2::new(1, 3));
    assert_eq!(s.entities[0].health, 9);
    assert_eq!(s.entities[1].health, 10);
    assert_eq!(s.entities[1].position, Vector2::new(2, 3));
    s = step(s, 1, 0);
    assert_eq!(s.entities[0].health, 8);
    assert_eq!(s.entities[0].position, Vector2::new(1, 3));
}

#[test]
fn walls_block_movement() {
    let mut s = init_state();
    s = step(s, -1, 0);
    assert_eq!(s.entities[0].position, Vector2::new(1, 1));
    assert_eq!(s.entities[0].delta_position, Vector2::new(0, 0));
    s = step(s, 1, 0);
    assert_eq!(s.get_tile(Vector2::new(2, 1)), Some(Tile::Wall));
    assert_eq!(s.entities[0].position, Vector2::new(1, 1));
    assert_eq!(s.entities[0].delta_position, Vector2::new(0, 0));
}

#[test]
fn grid_edge_blocks_movement() {
    let s = State { entities: vec![new_player(Vector2::new(0, 0))], grid: open_grid(3, 3) };
    let s = step(s, -1, 0);
    assert_eq!(s.entities[0].position, Vector2::new(0, 0));
    let s = step(s, 0, -1);
    assert_eq!(s.entities[0].position, Vector2::new(0, 0));
    let s = step(s, 2, 2);
    assert_eq!(s.entities[0].position, Vector2::new(2, 2));
    let s = step(s, 1, 0);
    assert_eq!(s.entities[0].position, Vector2::new(2, 2));
    assert_eq!(s.entities[0].delta_position, Vector2::new(0, 0));
}

#[test]
fn two_foes_on_one_cell_hurt_once() {
    let s = State {
        entities: vec![new_player(Vector2::new(0, 0)), new_enemy(Vector2::new(1, 0)), new_enemy(Vector2::new(1, 0))],
        grid: open_grid(3, 3),
    };
    let s = step(s, 1, 0);
    assert_eq!(s.entities[0].health, 9);
    assert_eq!(s.entities[0].position, Vector2::new(0, 0));
    assert_eq!(s.entities[1].health, 10);
    assert_eq!(s.entities[2].health, 10);
}

#[test]
fn death_freezes_entity() {
    let mut p = new_player(Vector2::new(1, 1));
    p.health = 1;
    let s = State { entities: vec![p, new_enemy(Vector2::new(2, 1))], grid: open_grid(4, 4) };
    let s = step(s, 1, 0);
    assert_eq!(s.entities[0].health, 0);
    assert!(s.entities[0].component_checklist.input_component);
    let s = step(s, 0, 1);
    assert_eq!(s.entities[0].position, Vector2::new(1, 1));
    assert!(!s.entities[0].component_checklist.input_component);
    assert!(!s.entities[0].component_checklist.damage_component);
    let s = step(s, 0, 1);
    let s = step(s, 1, 0);
    assert_eq!(s.entities[0].position, Vector2::new(1, 1));
    assert_eq!(s.entities[0].health, 0);
    assert!(!s.entities[0].component_checklist.input_component);
    assert!(!s.entities[0].component_checklist.damage_component);
    assert_eq!(s.draw()[5 * 16], 0xffffff);
}

#[test]
fn zero_input_frame_changes_nothing() {
    let before = init_state();
    let after = step(init_state(), 0, 0);
    for i in 0..3 {
        assert_eq!(after.entities[i].position, before.entities[i].position);
        assert_eq!(after.entities[i].health, before.entities[i].health);
    }
    assert_eq!(after.entities, before.entities);
}

#[test]
fn initial_world() {
    let s = init_state();
    assert_eq!((s.grid.width, s.grid.height, s.grid.tiles.len()), (10, 10, 100));
    assert_eq!(s.get_entities().len(), 3);
    assert_eq!(s.entities[0], new_player(Vector2::new(1, 1)));
    assert_eq!(s.entities[1], new_enemy(Vector2::new(2, 3)));
    assert_eq!(s.entities[2], new_prize(Vector2::new(7, 7)));
    assert_eq!(s.get_tile(Vector2::new(0, 0)), Some(Tile::Wall));
    assert_eq!(s.get_tile(Vector2::new(1, 1)), Some(Tile::Floor));
    assert_eq!(s.get_tile(Vector2::new(2, 1)), Some(Tile::Wall));
    assert_eq!(s.get_tile(Vector2::new(2, 3)), Some(Tile::Floor));
    assert_eq!(s.get_tile(Vector2::new(3, 5)), Some(Tile::Wall));
    assert_eq!(s.get_tile(Vector2::new(10, 0)), None);
}

#[test]
fn state_draw_grid_then_entities() {
    let s = init_state();
    let d = s.draw();
    assert_eq!(d.len(), 5 * 100 + 5 * 3);
    assert_eq!(&d[0..5], &[WALL_COLOR, 0, 0, 20, 20]);
    assert_eq!(&d[5 * 11..5 * 12], &[FLOOR_COLOR, 20, 20, 20, 20]);
    assert_eq!(&d[500..], &[0x00ff00, 20, 20, 20, 20, 0xff0000, 40, 60, 20, 20, 0xffec00, 140, 140, 20, 20]);
    let out = game_loop(Vector2::new(0, 0), init_state());
    assert_eq!(out.draw_calls, d);
}

#[test]
fn entities_on_a_cell() {
    let s = State {
        entities: vec![new_player(Vector2::new(1, 0)), new_enemy(Vector2::new(2, 2)), new_prize(Vector2::new(1, 0))],
        grid: open_grid(3, 3),
    };
    let here = s.get_entity(Vector2::new(1, 0));
    assert_eq!(here, vec![new_player(Vector2::new(1, 0)), new_prize(Vector2::new(1, 0))]);
    assert!(s.get_entity(Vector2::new(0, 0)).is_empty());
}
