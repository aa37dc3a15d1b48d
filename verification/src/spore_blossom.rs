//! Spore blossoms: they hang from a sturdy ceiling and fall off without it.
use crate::world::{default_state_of, Block, BlockState, Direction, Fluid, FluidState};
use vstd::prelude::*;

verus! {

/// Vanilla spore blossom survival and support updates.
///
/// Vanilla's ambient spores come from client-local `animateTick`; there is
/// no server-side particle work for this block.
#[derive(Clone, Copy, PartialEq, Eq, Structural, Debug)]
pub struct SporeBlossomBlock {
    pub block: Block,
}

/// Whether a spore blossom survives: the block above offers a sturdy centre
/// on its bottom face, is not tagged as having an unstable bottom centre,
/// and no water is at the blossom's own position.
pub open spec fn blossom_survives(
    above_center_sturdy: bool,
    above_unstable_bottom_center: bool,
    fluid_here: FluidState,
) -> bool {
    above_center_sturdy && !above_unstable_bottom_center && fluid_here.fluid != Fluid::Water
}

/// The state after a shape update from `direction`: air when the update
/// comes from above and the blossom no longer survives, else unchanged.
pub open spec fn blossom_shape(state: BlockState, direction: Direction, survives: bool) -> BlockState {
    if direction == Direction::Up && !survives {
        default_state_of(Block::Air)
    } else {
        state
    }
}

impl SporeBlossomBlock {
    /// Creates a new spore blossom block behavior.
    pub fn new(block: Block) -> (b: SporeBlossomBlock)
        ensures
            b.block == block,
    {
        SporeBlossomBlock { block }
    }

    /// Whether the blossom survives, from what the caller read above it
    /// (sturdiness of the centre of the bottom face, the unstable-bottom-
    /// centre tag) and the fluid at its own position.
    pub fn can_survive(
        &self,
        above_center_sturdy: bool,
        above_unstable_bottom_center: bool,
        fluid_here: FluidState,
    ) -> (r: bool)
        ensures
            r == blossom_survives(above_center_sturdy, above_unstable_bottom_center, fluid_here),
    {
        above_center_sturdy && !above_unstable_bottom_center && !fluid_here.is_water()
    }

    /// A change from above removes a blossom that no longer survives; other
    /// changes keep it. `survives` is only read for changes from above.
    pub fn update_shape(&self, state: BlockState, direction: Direction, survives: bool) -> (s:
        BlockState)
        ensures
            s == blossom_shape(state, direction, survives),
    {
        match direction {
            Direction::Up => if survives {
                state
            } else {
                Block::Air.default_state()
            },
            _ => state,
        }
    }

    /// The placed state: the default state where the blossom survives.
    pub fn get_state_for_placement(&self, survives_there: bool) -> (r: Option<BlockState>)
        ensures
            r == (if survives_there {
                Some(default_state_of(self.block))
            } else {
                None
            }),
    {
        if survives_there {
            Some(self.block.default_state())
        } else {
            None
        }
    }
}

/// A blossom needs all three: without a sturdy centre above it falls,
/// under a block with an unstable bottom centre it falls, with water at its
/// position it falls; with all three conditions met it stays.
pub proof fn lemma_blossom_needs_stable_dry_ceiling(
    above_center_sturdy: bool,
    above_unstable_bottom_center: bool,
    fluid_here: FluidState,
)
    ensures
        !above_center_sturdy ==> !blossom_survives(
            above_center_sturdy,
            above_unstable_bottom_center,
            fluid_here,
        ),
        above_unstable_bottom_center ==> !blossom_survives(
            above_center_sturdy,
            above_unstable_bottom_center,
            fluid_here,
        ),
        fluid_here.fluid == Fluid::Water ==> !blossom_survives(
            above_center_sturdy,
            above_unstable_bottom_center,
            fluid_here,
        ),
        (above_center_sturdy && !above_unstable_bottom_center && fluid_here.fluid != Fluid::Water)
            ==> blossom_survives(above_center_sturdy, above_unstable_bottom_center, fluid_here),
{
}

/// Only a change from above can remove a blossom, and a change either keeps
/// the state or leaves air.
pub proof fn lemma_only_ceiling_changes_remove(state: BlockState, direction: Direction, survives: bool)
    ensures
        direction != Direction::Up ==> blossom_shape(state, direction, survives) == state,
        survives ==> blossom_shape(state, direction, survives) == state,
        blossom_shape(state, direction, survives) == state || blossom_shape(
            state,
            direction,
            survives,
        ) == default_state_of(Block::Air),
{
}

} // verus!
