use vstd::prelude::*;
use crate::vector::{Vector2, vec_add};
use crate::grid::{Grid, Tile};
use crate::entity::{Entity, EntityComponentChecklist, zero_vec};

verus! {

/// The cell an entity means to enter this frame.
pub open spec fn intended(e: Entity) -> Vector2 {
    vec_add(e.position, e.delta_position)
}

/// Whether some entity of `others` on the other team stands where `e`
/// means to go.
pub open spec fn blocked_by_foe(e: Entity, others: Seq<Entity>) -> bool {
    exists|j: int| 0 <= j < others.len() && #[trigger] others[j].position == intended(e) && others[j].team != e.team
}

/// The input behavior: the frame's input becomes the pending move.
pub open spec fn input_step(e: Entity, input: Vector2) -> Entity {
    Entity { delta_position: input, ..e }
}

/// The damage behavior, against the snapshot `others` of all entities.
/// A dead entity loses its input and damage behaviors for good and its move;
/// a live one that means to step onto a foe loses one point of health and
/// its move.
pub open spec fn damage_step(e: Entity, others: Seq<Entity>) -> Entity {
    if e.health == 0 {
        Entity {
            delta_position: zero_vec(),
            component_checklist: EntityComponentChecklist {
                input_component: false,
                damage_component: false,
                ..e.component_checklist
            },
            ..e
        }
    } else if blocked_by_foe(e, others) {
        Entity { health: (e.health - 1) as u32, delta_position: zero_vec(), ..e }
    } else {
        e
    }
}

/// The movement behavior: the move is made when the cell it leads to is
/// floor, and the pending move is consumed either way.
pub open spec fn move_step(e: Entity, world: Grid) -> Entity {
    Entity {
        position: if world.walkable(intended(e)) { intended(e) } else { e.position },
        delta_position: zero_vec(),
        ..e
    }
}

/// Hands the frame's input to entities that take input.
pub struct InputComponent {}

/// Moves entities on the grid.
pub struct GridComponent {}

/// Makes entities take damage when they run into a foe.
pub struct EnemyDamageComponent {}

impl InputComponent {
    pub fn apply(&self, entity: Entity, _world: &Grid, input: Vector2, _entities: &Vec<Entity>) -> (r: Entity)
        ensures
            r == input_step(entity, input),
    {
        let mut entity_n = entity;
        entity_n.delta_position = input;
        entity_n
    }
}

impl GridComponent {
    pub fn apply(&self, entity: Entity, world: &Grid, _input: Vector2, _entities: &Vec<Entity>) -> (r: Entity)
        ensures
            r == move_step(entity, *world),
            world.tile_at(intended(entity)) != Some(Tile::Floor) ==> r.position == entity.position,
            r.delta_position == zero_vec(),
    {
        let mut entity_m = entity;
        let target = entity.position + entity.delta_position;
        match world.get_tile(target) {
            Some(Tile::Floor) => {
                entity_m.position = target;
            },
            _ => {},
        }
        entity_m.delta_position = Vector2::zero();
        entity_m
    }
}

impl EnemyDamageComponent {
    pub fn apply(&self, entity: Entity, _world: &Grid, _input: Vector2, entities: &Vec<Entity>) -> (r: Entity)
        ensures
            r == damage_step(entity, entities@),
    {
        let mut ent_m = entity;
        if ent_m.health == 0 {
            ent_m.delta_position = Vector2::zero();
            ent_m.component_checklist.damage_component = false;
            ent_m.component_checklist.input_component = false;
            return ent_m;
        }
        let pos = entity.position + entity.delta_position;
        let mut hit = false;
        let mut i: usize = 0;
        while i < entities.len()
            invariant
                i <= entities@.len(),
                pos == intended(entity),
                hit <==> exists|j: int| 0 <= j < i && #[trigger] entities@[j].position == pos && entities@[j].team != entity.team,
            decreases entities@.len() - i,
        {
            let other = &entities[i];
            if other.position == pos && other.team != entity.team {
                hit = true;
            }
            i = i + 1;
        }
        if hit {
            ent_m.health = ent_m.health - 1;
            ent_m.delta_position = Vector2::zero();
        }
        ent_m
    }
}

} // verus!
