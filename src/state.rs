use vstd::prelude::*;
use crate::vector::Vector2;
use crate::grid::{Grid, Tile};
use crate::entity::{Entity, new_player, new_enemy, new_prize, player_at, enemy_at, prize_at};
use crate::lemmas::lemma_frame_keeps_health_bounds;
use crate::component::{
    InputComponent, GridComponent, EnemyDamageComponent, input_step, damage_step, move_step,
};

verus! {

/// The input pass: every entity that takes input gets the frame's input as
/// its pending move.
pub open spec fn input_pass(es: Seq<Entity>, input: Vector2) -> Seq<Entity> {
    Seq::new(
        es.len(),
        |i: int|
            if es[i].component_checklist.input_component {
                input_step(es[i], input)
            } else {
                es[i]
            },
    )
}

/// The damage pass: every entity that takes damage is checked against the
/// entities as they stood when the pass began.
pub open spec fn damage_pass(es: Seq<Entity>) -> Seq<Entity> {
    Seq::new(
        es.len(),
        |i: int|
            if es[i].component_checklist.damage_component {
                damage_step(es[i], es)
            } else {
                es[i]
            },
    )
}

/// The movement pass: every entity that moves tries its pending move.
pub open spec fn move_pass(es: Seq<Entity>, world: Grid) -> Seq<Entity> {
    Seq::new(
        es.len(),
        |i: int|
            if es[i].component_checklist.grid_component {
                move_step(es[i], world)
            } else {
                es[i]
            },
    )
}

/// The entities after one frame: input, then damage, then movement.
pub open spec fn frame(es: Seq<Entity>, world: Grid, input: Vector2) -> Seq<Entity> {
    move_pass(damage_pass(input_pass(es, input)), world)
}

/// The entities after one frame per input, in order.
pub open spec fn run(es: Seq<Entity>, world: Grid, inputs: Seq<Vector2>) -> Seq<Entity>
    decreases inputs.len(),
{
    if inputs.len() == 0 {
        es
    } else {
        run(frame(es, world, inputs[0]), world, inputs.drop_first())
    }
}

/// The draw calls of a sequence of entities, in order.
pub open spec fn entity_calls(es: Seq<Entity>) -> Seq<u32>
    decreases es.len(),
{
    if es.len() == 0 {
        Seq::empty()
    } else {
        entity_calls(es.drop_last()) + es.last().calls()
    }
}

/// The entities of `es` that stand on `p`, in order.
pub open spec fn entities_at(es: Seq<Entity>, p: Vector2) -> Seq<Entity>
    decreases es.len(),
{
    if es.len() == 0 {
        Seq::empty()
    } else if es.last().position == p {
        entities_at(es.drop_last(), p).push(es.last())
    } else {
        entities_at(es.drop_last(), p)
    }
}

/// The map laid out when the world starts, column by column.
pub open spec fn initial_tiles() -> Seq<Tile> {
    seq![
        Tile::Wall, Tile::Wall, Tile::Wall, Tile::Wall, Tile::Wall, Tile::Wall, Tile::Wall, Tile::Wall, Tile::Wall, Tile::Wall,
        Tile::Wall, Tile::Floor, Tile::Floor, Tile::Floor, Tile::Floor, Tile::Floor, Tile::Floor, Tile::Floor, Tile::Floor, Tile::Wall,
        Tile::Wall, Tile::Wall, Tile::Wall, Tile::Floor, Tile::Wall, Tile::Floor, Tile::Floor, Tile::Floor, Tile::Floor, Tile::Wall,
        Tile::Wall, Tile::Floor, Tile::Wall, Tile::Floor, Tile::Wall, Tile::Wall, Tile::Wall, Tile::Wall, Tile::Floor, Tile::Wall,
        Tile::Wall, Tile::Floor, Tile::Wall, Tile::Floor, Tile::Wall, Tile::Floor, Tile::Floor, Tile::Floor, Tile::Floor, Tile::Wall,
        Tile::Wall, Tile::Floor, Tile::Wall, Tile::Floor, Tile::Wall, Tile::Floor, Tile::Wall, Tile::Wall, Tile::Wall, Tile::Wall,
        Tile::Wall, Tile::Floor, Tile::Wall, Tile::Floor, Tile::Wall, Tile::Floor, Tile::Floor, Tile::Floor, Tile::Floor, Tile::Wall,
        Tile::Wall, Tile::Floor, Tile::Wall, Tile::Floor, Tile::Wall, Tile::Floor, Tile::Floor, Tile::Floor, Tile::Floor, Tile::Wall,
        Tile::Wall, Tile::Floor, Tile::Floor, Tile::Floor, Tile::Wall, Tile::Floor, Tile::Floor, Tile::Floor, Tile::Floor, Tile::Wall,
        Tile::Wall, Tile::Wall, Tile::Wall, Tile::Wall, Tile::Wall, Tile::Wall, Tile::Wall, Tile::Wall, Tile::Wall, Tile::Wall,
    ]
}

/// The entities that the world starts with: a player, an enemy and a pickup.
pub open spec fn initial_entities() -> Seq<Entity> {
    seq![
        player_at(Vector2 { x: 1, y: 1 }),
        enemy_at(Vector2 { x: 2, y: 3 }),
        prize_at(Vector2 { x: 7, y: 7 }),
    ]
}

/// The whole world: its entities and the map they move on.
pub struct State {
    pub entities: Vec<Entity>,
    pub grid: Grid,
}

/// What one frame hands back: the new world and what to draw.
pub struct MainOutput {
    pub state: State,
    pub draw_calls: Vec<u32>,
}

fn run_input_pass(entities: &Vec<Entity>, world: &Grid, input: Vector2) -> (r: Vec<Entity>)
    ensures
        r@ == input_pass(entities@, input),
{
    let component = InputComponent {};
    let mut next: Vec<Entity> = Vec::new();
    let mut i: usize = 0;
    while i < entities.len()
        invariant
            i <= entities@.len(),
            next@ == input_pass(entities@, input).take(i as int),
        decreases entities@.len() - i,
    {
        let ent = entities[i];
        if ent.component_checklist.input_component {
            next.push(component.apply(ent, world, input, entities));
        } else {
            next.push(ent);
        }
        assert(next@ =~= input_pass(entities@, input).take(i + 1));
        i = i + 1;
    }
    assert(next@ =~= input_pass(entities@, input));
    next
}

fn run_damage_pass(entities: &Vec<Entity>, world: &Grid, input: Vector2) -> (r: Vec<Entity>)
    ensures
        r@ == damage_pass(entities@),
{
    let component = EnemyDamageComponent {};
    let mut next: Vec<Entity> = Vec::new();
    let mut i: usize = 0;
    while i < entities.len()
        invariant
            i <= entities@.len(),
            next@ == damage_pass(entities@).take(i as int),
        decreases entities@.len() - i,
    {
        let ent = entities[i];
        if ent.component_checklist.damage_component {
            next.push(component.apply(ent, world, input, entities));
        } else {
            next.push(ent);
        }
        assert(next@ =~= damage_pass(entities@).take(i + 1));
        i = i + 1;
    }
    assert(next@ =~= damage_pass(entities@));
    next
}

fn run_move_pass(entities: &Vec<Entity>, world: &Grid, input: Vector2) -> (r: Vec<Entity>)
    ensures
        r@ == move_pass(entities@, *world),
{
    let component = GridComponent {};
    let mut next: Vec<Entity> = Vec::new();
    let mut i: usize = 0;
    while i < entities.len()
        invariant
            i <= entities@.len(),
            next@ == move_pass(entities@, *world).take(i as int),
        decreases entities@.len() - i,
    {
        let ent = entities[i];
        if ent.component_checklist.grid_component {
            next.push(component.apply(ent, world, input, entities));
        } else {
            next.push(ent);
        }
        assert(next@ =~= move_pass(entities@, *world).take(i + 1));
        i = i + 1;
    }
    assert(next@ =~= move_pass(entities@, *world));
    next
}

impl State {
    /// The grid holds one tile per cell and every entity's health lies
    /// within its bounds.
    pub open spec fn wf(&self) -> bool {
        &&& self.grid.wf()
        &&& forall|i: int| 0 <= i < self.entities@.len() ==> (#[trigger] self.entities@[i]).wf()
    }

    /// The draw calls of the world: the grid's, then each entity's in order.
    pub open spec fn calls(&self) -> Seq<u32> {
        self.grid.calls() + entity_calls(self.entities@)
    }

    /// Advances the world by one frame: the input pass over all entities,
    /// then the damage pass, then the movement pass, each over the entities
    /// as the previous pass left them. The grid does not change.
    pub fn process(&mut self, input: Vector2)
        ensures
            final(self).entities@ == frame(old(self).entities@, old(self).grid, input),
            final(self).grid == old(self).grid,
            old(self).wf() ==> final(self).wf(),
    {
        let after_input = run_input_pass(&self.entities, &self.grid, input);
        self.entities = after_input;
        let after_damage = run_damage_pass(&self.entities, &self.grid, input);
        self.entities = after_damage;
        let after_move = run_move_pass(&self.entities, &self.grid, input);
        self.entities = after_move;
        proof {
            lemma_frame_keeps_health_bounds(old(self).entities@, old(self).grid, input);
        }
    }

    /// The tile at `position`, if any.
    pub fn get_tile(&self, position: Vector2) -> (r: Option<Tile>)
        ensures
            r == self.grid.tile_at(position),
    {
        self.grid.get_tile(position)
    }

    /// The entities that stand on `position`, in order.
    pub fn get_entity(&self, position: Vector2) -> (r: Vec<Entity>)
        ensures
            r@ == entities_at(self.entities@, position),
    {
        let mut v: Vec<Entity> = Vec::new();
        let mut i: usize = 0;
        while i < self.entities.len()
            invariant
                i <= self.entities@.len(),
                v@ == entities_at(self.entities@.take(i as int), position),
            decreases self.entities@.len() - i,
        {
            let ent = self.entities[i];
            assert(self.entities@.take(i + 1).drop_last() =~= self.entities@.take(i as int));
            if ent.position == position {
                v.push(ent);
            }
            i = i + 1;
        }
        assert(self.entities@.take(self.entities@.len() as int) =~= self.entities@);
        v
    }

    /// The grid's draw calls followed by each entity's, in order.
    pub fn draw(&self) -> (r: Vec<u32>)
        requires
            self.grid.wf(),
        ensures
            r@ == self.calls(),
    {
        let mut draws = self.grid.draw();
        let mut i: usize = 0;
        while i < self.entities.len()
            invariant
                self.grid.wf(),
                i <= self.entities@.len(),
                draws@ == self.grid.calls() + entity_calls(self.entities@.take(i as int)),
            decreases self.entities@.len() - i,
        {
            let mut one = self.entities[i].draw();
            assert(self.entities@.take(i + 1).drop_last() =~= self.entities@.take(i as int));
            draws.append(&mut one);
            assert(draws@ =~= self.grid.calls() + entity_calls(self.entities@.take(i + 1)));
            i = i + 1;
        }
        assert(self.entities@.take(self.entities@.len() as int) =~= self.entities@);
        draws
    }

    /// All entities, in order.
    pub fn get_entities(&self) -> (r: &Vec<Entity>)
        ensures
            r@ == self.entities@,
    {
        &self.entities
    }
}

/// Advances `state` by one frame and draws the result.
pub fn game_loop(input: Vector2, state: State) -> (r: MainOutput)
    requires
        state.grid.wf(),
    ensures
        r.state.entities@ == frame(state.entities@, state.grid, input),
        r.state.grid == state.grid,
        state.wf() ==> r.state.wf(),
        r.draw_calls@ == r.state.calls(),
{
    let mut state_m = state;
    state_m.process(input);
    let draw_calls = state_m.draw();
    MainOutput { state: state_m, draw_calls: draw_calls }
}

/// The world at its start: a ten by ten map of corridors, with a player at
/// `(1, 1)`, an enemy at `(2, 3)` and a pickup at `(7, 7)`.
pub fn init_state() -> (r: State)
    ensures
        r.grid.width == 10,
        r.grid.height == 10,
        r.grid.tiles@ == initial_tiles(),
        r.wf(),
        r.entities@ == initial_entities(),
{
    let entities = vec![
        new_player(Vector2::new(1, 1)),
        new_enemy(Vector2::new(2, 3)),
        new_prize(Vector2::new(7, 7)),
    ];
    let tiles = vec![
        Tile::Wall, Tile::Wall, Tile::Wall, Tile::Wall, Tile::Wall, Tile::Wall, Tile::Wall, Tile::Wall, Tile::Wall, Tile::Wall,
        Tile::Wall, Tile::Floor, Tile::Floor, Tile::Floor, Tile::Floor, Tile::Floor, Tile::Floor, Tile::Floor, Tile::Floor, Tile::Wall,
        Tile::Wall, Tile::Wall, Tile::Wall, Tile::Floor, Tile::Wall, Tile::Floor, Tile::Floor, Tile::Floor, Tile::Floor, Tile::Wall,
        Tile::Wall, Tile::Floor, Tile::Wall, Tile::Floor, Tile::Wall, Tile::Wall, Tile::Wall, Tile::Wall, Tile::Floor, Tile::Wall,
        Tile::Wall, Tile::Floor, Tile::Wall, Tile::Floor, Tile::Wall, Tile::Floor, Tile::Floor, Tile::Floor, Tile::Floor, Tile::Wall,
        Tile::Wall, Tile::Floor, Tile::Wall, Tile::Floor, Tile::Wall, Tile::Floor, Tile::Wall, Tile::Wall, Tile::Wall, Tile::Wall,
        Tile::Wall, Tile::Floor, Tile::Wall, Tile::Floor, Tile::Wall, Tile::Floor, Tile::Floor, Tile::Floor, Tile::Floor, Tile::Wall,
        Tile::Wall, Tile::Floor, Tile::Wall, Tile::Floor, Tile::Wall, Tile::Floor, Tile::Floor, Tile::Floor, Tile::Floor, Tile::Wall,
        Tile::Wall, Tile::Floor, Tile::Floor, Tile::Floor, Tile::Wall, Tile::Floor, Tile::Floor, Tile::Floor, Tile::Floor, Tile::Wall,
        Tile::Wall, Tile::Wall, Tile::Wall, Tile::Wall, Tile::Wall, Tile::Wall, Tile::Wall, Tile::Wall, Tile::Wall, Tile::Wall,
    ];
    assert(entities@ =~= initial_entities());
    assert(tiles@ =~= initial_tiles());
    State { entities: entities, grid: Grid::new(10, 10, tiles) }
}

} // verus!
