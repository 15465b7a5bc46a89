use vstd::prelude::*;
use crate::vector::Vector2;
use crate::grid::{square, to_screen, TILE_SIZE};

verus! {

/// Health that every archetype starts with.
pub const START_HEALTH: u32 = 10;

/// Base color of the player.
pub const PLAYER_COLOR: u32 = 0x00ff00;

/// Base color of an enemy.
pub const ENEMY_COLOR: u32 = 0xff0000;

/// Base color of a pickup.
pub const PRIZE_COLOR: u32 = 0xffec00;

/// The side an entity fights on; entities of one team never hurt each other.
#[derive(Clone, Copy, Debug, PartialEq, Eq, Structural)]
pub enum EntityTeam {
    Player,
    Enemy,
}

/// Which behaviors apply to an entity each frame.
#[derive(Clone, Copy, Debug, PartialEq, Eq, Structural)]
pub struct EntityComponentChecklist {
    /// Takes the frame's input as its pending move.
    pub input_component: bool,
    /// Takes damage from opposing entities, and dies at zero health.
    pub damage_component: bool,
    /// Moves on the grid, blocked by walls and by the grid's edge.
    pub grid_component: bool,
}

/// An actor of the simulation.
#[derive(Clone, Copy, Debug, PartialEq, Eq, Structural)]
pub struct Entity {
    pub position: Vector2,
    /// The move still pending in this frame; reset to zero once consumed.
    pub delta_position: Vector2,
    pub component_checklist: EntityComponentChecklist,
    pub health: u32,
    pub max_health: u32,
    pub base_color: u32,
    pub team: EntityTeam,
}

/// How much a color channel of value `c` brightens towards full intensity
/// for the fraction of health lost, truncated; none at (or above) full
/// health.
pub open spec fn gain(c: int, health: u32, max_health: u32) -> int {
    if health >= max_health {
        0
    } else {
        (255 - c) * (max_health - health) / (max_health as int)
    }
}

/// The displayed color: each channel's gain is added, in its place, onto the
/// base color, wrapping on overflow of `u32`.
pub open spec fn tint(base: u32, health: u32, max_health: u32) -> u32 {
    let red = (base as int / 0x10000) % 0x100;
    let green = (base as int / 0x100) % 0x100;
    let blue = base as int % 0x100;
    ((gain(red, health, max_health) * 0x10000 + gain(green, health, max_health) * 0x100
        + gain(blue, health, max_health) + base) % 0x1_0000_0000) as u32
}

/// The zero vector, as a spec value.
pub open spec fn zero_vec() -> Vector2 {
    Vector2 { x: 0, y: 0 }
}

/// A checklist with all three behaviors set as given.
pub open spec fn checklist(input: bool, damage: bool, grid: bool) -> EntityComponentChecklist {
    EntityComponentChecklist { input_component: input, damage_component: damage, grid_component: grid }
}

/// An entity at `position` with no pending move, full health and the given
/// behaviors.
pub open spec fn archetype(
    position: Vector2,
    color: u32,
    team: EntityTeam,
    behaviors: EntityComponentChecklist,
) -> Entity {
    Entity {
        position: position,
        delta_position: zero_vec(),
        component_checklist: behaviors,
        health: START_HEALTH,
        max_health: START_HEALTH,
        base_color: color,
        team: team,
    }
}

/// The player: takes input, moves, takes damage.
pub open spec fn player_at(position: Vector2) -> Entity {
    archetype(position, PLAYER_COLOR, EntityTeam::Player, checklist(true, true, true))
}

/// An enemy: moves and takes damage, but takes no input.
pub open spec fn enemy_at(position: Vector2) -> Entity {
    archetype(position, ENEMY_COLOR, EntityTeam::Enemy, checklist(false, true, true))
}

/// A pickup: on the player's team, moves but neither takes input nor damage.
pub open spec fn prize_at(position: Vector2) -> Entity {
    archetype(position, PRIZE_COLOR, EntityTeam::Player, checklist(false, false, true))
}

/// The gain of one channel, computed exactly.
fn channel_gain(c: u32, health: u32, max_health: u32) -> (r: u32)
    requires
        c < 0x100,
    ensures
        r == gain(c as int, health, max_health),
        r <= 255 - c,
{
    if health >= max_health {
        0
    } else {
        let lost: u64 = (max_health - health) as u64;
        proof {
            assert((255 - c) as int * lost <= 255 * 0xffff_ffff) by (nonlinear_arith)
                requires c < 0x100, lost <= 0xffff_ffff;
            assert((255 - c) as int * lost / (max_health as int) <= 255 - c) by (nonlinear_arith)
                requires c < 0x100, lost <= max_health, max_health > 0;
        }
        (((255 - c) as u64 * lost) / max_health as u64) as u32
    }
}

impl EntityComponentChecklist {
    /// A checklist with no behavior set.
    pub fn new() -> (r: EntityComponentChecklist)
        ensures
            r == checklist(false, false, false),
    {
        EntityComponentChecklist { input_component: false, grid_component: false, damage_component: false }
    }
}

impl Entity {
    /// Whether health lies within `[0, max_health]`.
    pub open spec fn wf(&self) -> bool {
        self.health <= self.max_health
    }

    /// The displayed color of this entity.
    pub open spec fn color(&self) -> u32 {
        tint(self.base_color, self.health, self.max_health)
    }

    /// The draw call of this entity.
    pub open spec fn calls(&self) -> Seq<u32> {
        square(self.color(), self.position.x as u32, self.position.y as u32)
    }

    pub fn new(pos: Vector2, health: u32, max_health: u32, base_color: u32, team: EntityTeam) -> (r: Entity)
        ensures
            r.position == pos,
            r.delta_position == zero_vec(),
            r.component_checklist == checklist(false, false, false),
            r.health == health,
            r.max_health == max_health,
            r.base_color == base_color,
            r.team == team,
    {
        Entity {
            position: pos,
            delta_position: Vector2::zero(),
            component_checklist: EntityComponentChecklist::new(),
            health: health,
            max_health: max_health,
            base_color: base_color,
            team: team,
        }
    }

    /// One square at the entity's cell, in its base color brightened towards
    /// white by the fraction of health lost: `[color, x, y, size, size]`.
    pub fn draw(&self) -> (r: Vec<u32>)
        ensures
            r@ == self.calls(),
    {
        let base = self.base_color;
        let red = channel_gain((base / 0x10000) % 0x100, self.health, self.max_health);
        let green = channel_gain((base / 0x100) % 0x100, self.health, self.max_health);
        let blue = channel_gain(base % 0x100, self.health, self.max_health);
        let sum: u64 = red as u64 * 0x10000 + green as u64 * 0x100 + blue as u64 + base as u64;
        let color = (sum % 0x1_0000_0000) as u32;
        let px = to_screen(self.position.x as u32);
        let py = to_screen(self.position.y as u32);
        let out = vec![color, px, py, TILE_SIZE, TILE_SIZE];
        assert(out@ =~= self.calls());
        out
    }
}

/// A player at `position`.
pub fn new_player(position: Vector2) -> (r: Entity)
    ensures
        r == player_at(position),
{
    let mut e = Entity::new(position, START_HEALTH, START_HEALTH, PLAYER_COLOR, EntityTeam::Player);
    e.component_checklist.input_component = true;
    e.component_checklist.grid_component = true;
    e.component_checklist.damage_component = true;
    e
}

/// An enemy at `position`.
pub fn new_enemy(position: Vector2) -> (r: Entity)
    ensures
        r == enemy_at(position),
{
    let mut e = Entity::new(position, START_HEALTH, START_HEALTH, ENEMY_COLOR, EntityTeam::Enemy);
    e.component_checklist.input_component = false;
    e.component_checklist.grid_component = true;
    e.component_checklist.damage_component = true;
    e
}

/// A pickup at `position`.
pub fn new_prize(position: Vector2) -> (r: Entity)
    ensures
        r == prize_at(position),
{
    let mut e = Entity::new(position, START_HEALTH, START_HEALTH, PRIZE_COLOR, EntityTeam::Player);
    e.component_checklist.input_component = false;
    e.component_checklist.grid_component = true;
    e.component_checklist.damage_component = false;
    e
}

} // verus!
