use vstd::prelude::*;
use crate::vector::Vector2;
use crate::grid::{Grid, Tile};
use crate::entity::{Entity, zero_vec};
use crate::component::intended;
use crate::state::{input_pass, damage_pass, move_pass, frame, run};

verus! {

/// The entities as they enter the movement pass of a frame.
pub open spec fn before_move(es: Seq<Entity>, input: Vector2) -> Seq<Entity> {
    damage_pass(input_pass(es, input))
}

/// No pass changes the number of entities, their teams, or their behaviors
/// other than input and damage; input and damage leave positions alone.
proof fn lemma_passes_keep(es: Seq<Entity>, world: Grid, input: Vector2, i: int)
    requires
        0 <= i < es.len(),
    ensures
        input_pass(es, input).len() == es.len(),
        before_move(es, input).len() == es.len(),
        frame(es, world, input).len() == es.len(),
        input_pass(es, input)[i].position == es[i].position,
        input_pass(es, input)[i].team == es[i].team,
        input_pass(es, input)[i].health == es[i].health,
        input_pass(es, input)[i].component_checklist == es[i].component_checklist,
        before_move(es, input)[i].position == es[i].position,
        before_move(es, input)[i].team == es[i].team,
        before_move(es, input)[i].component_checklist.grid_component
            == es[i].component_checklist.grid_component,
        frame(es, world, input)[i] == move_pass(before_move(es, input), world)[i],
{
}

/// A frame never raises an entity's health nor changes its maximum, so
/// health stays within `[0, max_health]`.
pub proof fn lemma_frame_keeps_health_bounds(es: Seq<Entity>, world: Grid, input: Vector2)
    ensures
        frame(es, world, input).len() == es.len(),
        forall|i: int| 0 <= i < es.len() ==> {
            &&& (#[trigger] frame(es, world, input)[i]).health <= es[i].health
            &&& frame(es, world, input)[i].max_health == es[i].max_health
        },
        (forall|i: int| 0 <= i < es.len() ==> (#[trigger] es[i]).wf()) ==> forall|i: int|
            0 <= i < es.len() ==> (#[trigger] frame(es, world, input)[i]).wf(),
{
    assert forall|i: int| 0 <= i < es.len() implies {
        &&& (#[trigger] frame(es, world, input)[i]).health <= es[i].health
        &&& frame(es, world, input)[i].max_health == es[i].max_health
    } by {
        lemma_passes_keep(es, world, input, i);
    }
}

/// An entity that moves never enters a wall: when the cell that its pending
/// move leads to is a wall, it keeps its position, and its pending move is
/// consumed.
pub proof fn lemma_wall_blocks_move(es: Seq<Entity>, world: Grid, input: Vector2, i: int)
    requires
        0 <= i < es.len(),
        es[i].component_checklist.grid_component,
        world.tile_at(intended(before_move(es, input)[i])) == Some(Tile::Wall),
    ensures
        frame(es, world, input)[i].position == es[i].position,
        frame(es, world, input)[i].delta_position == zero_vec(),
{
    lemma_passes_keep(es, world, input, i);
}

/// An entity that moves never leaves the grid: when its pending move leads
/// to a cell with no tile, it keeps its position, and its pending move is
/// consumed.
pub proof fn lemma_edge_blocks_move(es: Seq<Entity>, world: Grid, input: Vector2, i: int)
    requires
        0 <= i < es.len(),
        es[i].component_checklist.grid_component,
        world.tile_at(intended(before_move(es, input)[i])) is None,
    ensures
        frame(es, world, input)[i].position == es[i].position,
        frame(es, world, input)[i].delta_position == zero_vec(),
{
    lemma_passes_keep(es, world, input, i);
}

/// In one frame an entity loses at most one point of health, and loses one
/// only when an entity of the other team stands on the cell that its pending
/// move leads to.
pub proof fn lemma_damage_at_most_one(es: Seq<Entity>, world: Grid, input: Vector2, i: int)
    requires
        0 <= i < es.len(),
    ensures
        frame(es, world, input)[i].health >= es[i].health - 1,
        frame(es, world, input)[i].health < es[i].health ==> exists|j: int|
            0 <= j < es.len() && #[trigger] es[j].position == intended(input_pass(es, input)[i])
                && es[j].team != es[i].team,
{
    lemma_passes_keep(es, world, input, i);
    let ip = input_pass(es, input);
    if frame(es, world, input)[i].health < es[i].health {
        let j = choose|j: int|
            0 <= j < ip.len() && #[trigger] ip[j].position == intended(ip[i]) && ip[j].team != ip[i].team;
        lemma_passes_keep(es, world, input, j);
    }
}

/// A dead entity keeps still: with its input and damage behaviors gone and
/// no pending move, no frame changes its position, its health or those
/// behaviors, whatever the input.
proof fn lemma_frozen_frame(es: Seq<Entity>, world: Grid, input: Vector2, i: int)
    requires
        0 <= i < es.len(),
        es[i].health == 0,
        !es[i].component_checklist.input_component,
        !es[i].component_checklist.damage_component,
        es[i].delta_position == zero_vec(),
    ensures
        frame(es, world, input).len() == es.len(),
        frame(es, world, input)[i].health == 0,
        !frame(es, world, input)[i].component_checklist.input_component,
        !frame(es, world, input)[i].component_checklist.damage_component,
        frame(es, world, input)[i].delta_position == zero_vec(),
        frame(es, world, input)[i].position == es[i].position,
{
    lemma_passes_keep(es, world, input, i);
}

proof fn lemma_frozen_run(es: Seq<Entity>, world: Grid, inputs: Seq<Vector2>, i: int)
    requires
        0 <= i < es.len(),
        es[i].health == 0,
        !es[i].component_checklist.input_component,
        !es[i].component_checklist.damage_component,
        es[i].delta_position == zero_vec(),
    ensures
        run(es, world, inputs).len() == es.len(),
        run(es, world, inputs)[i].health == 0,
        !run(es, world, inputs)[i].component_checklist.input_component,
        !run(es, world, inputs)[i].component_checklist.damage_component,
        run(es, world, inputs)[i].delta_position == zero_vec(),
        run(es, world, inputs)[i].position == es[i].position,
    decreases inputs.len(),
{
    if inputs.len() > 0 {
        lemma_frozen_frame(es, world, inputs[0], i);
        lemma_frozen_run(frame(es, world, inputs[0]), world, inputs.drop_first(), i);
    }
}

/// Death is final: an entity that takes damage and has no health left loses
/// its input and damage behaviors in the next frame, and from then on, over
/// any sequence of inputs, it stays without them, at zero health, where it
/// stood.
pub proof fn lemma_death_is_final(es: Seq<Entity>, world: Grid, inputs: Seq<Vector2>, i: int)
    requires
        0 <= i < es.len(),
        es[i].health == 0,
        es[i].component_checklist.damage_component,
        inputs.len() > 0,
    ensures
        run(es, world, inputs)[i].health == 0,
        !run(es, world, inputs)[i].component_checklist.input_component,
        !run(es, world, inputs)[i].component_checklist.damage_component,
        run(es, world, inputs)[i].position == es[i].position,
{
    lemma_passes_keep(es, world, inputs[0], i);
    lemma_frozen_run(frame(es, world, inputs[0]), world, inputs.drop_first(), i);
}

/// A frame with no input changes no entity's position or health, when no
/// entity has a pending move and no two entities of different teams share a
/// cell.
pub proof fn lemma_still_frame(es: Seq<Entity>, world: Grid)
    requires
        forall|k: int| 0 <= k < es.len() ==> (#[trigger] es[k]).delta_position == zero_vec(),
        forall|j: int, k: int|
            0 <= j < es.len() && 0 <= k < es.len() && (#[trigger] es[j]).position == (#[trigger] es[k]).position
                ==> es[j].team == es[k].team,
    ensures
        frame(es, world, zero_vec()).len() == es.len(),
        forall|i: int| 0 <= i < es.len() ==> {
            &&& (#[trigger] frame(es, world, zero_vec())[i]).position == es[i].position
            &&& frame(es, world, zero_vec())[i].health == es[i].health
        },
{
    let ip = input_pass(es, zero_vec());
    assert forall|i: int| 0 <= i < es.len() implies {
        &&& (#[trigger] frame(es, world, zero_vec())[i]).position == es[i].position
        &&& frame(es, world, zero_vec())[i].health == es[i].health
    } by {
        lemma_passes_keep(es, world, zero_vec(), i);
        assert(intended(ip[i]) == es[i].position);
        if exists|j: int| 0 <= j < ip.len() && #[trigger] ip[j].position == intended(ip[i]) && ip[j].team != ip[i].team {
            let j = choose|j: int|
                0 <= j < ip.len() && #[trigger] ip[j].position == intended(ip[i]) && ip[j].team != ip[i].team;
            lemma_passes_keep(es, world, zero_vec(), j);
            assert(es[j].position == es[i].position);
        }
    }

}

/// An entity with no health left, with a base color of three 8-bit
/// channels, is drawn white.
pub proof fn lemma_dead_is_white(e: Entity)
    requires
        e.health == 0,
        e.max_health > 0,
        e.base_color <= 0xffffff,
    ensures
        e.color() == 0xffffff,
{
    let base = e.base_color as int;
    let m = e.max_health as int;
    let red = (base / 0x10000) % 0x100;
    let green = (base / 0x100) % 0x100;
    let blue = base % 0x100;
    assert(base == red * 0x10000 + green * 0x100 + blue) by (nonlinear_arith)
        requires
            0 <= base <= 0xffffff,
            red == (base / 0x10000) % 0x100,
            green == (base / 0x100) % 0x100,
            blue == base % 0x100,
    ;
    assert((255 - red) * m / m == 255 - red) by (nonlinear_arith) requires m > 0;
    assert((255 - green) * m / m == 255 - green) by (nonlinear_arith) requires m > 0;
    assert((255 - blue) * m / m == 255 - blue) by (nonlinear_arith) requires m > 0;
}

} // verus!
