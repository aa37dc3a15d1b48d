//! Mangrove roots: a transparent block that can hold water.
use crate::world::{default_state_of, fluid_of, Block, BlockState, Fluid, FluidState};
use vstd::prelude::*;

verus! {

/// A transparent block that may be waterlogged.
#[derive(Clone, Copy, PartialEq, Eq, Structural, Debug)]
pub struct WaterloggedTransparentBlock {
    pub block: Block,
}

/// What a neighbour change does to a waterlogged transparent block.
#[derive(Clone, Copy, PartialEq, Eq, Structural, Debug)]
pub struct ShapeUpdate {
    /// The state the block keeps.
    pub state: BlockState,
    /// Whether a water tick is to be scheduled at the block.
    pub schedule_water_tick: bool,
}

impl WaterloggedTransparentBlock {
    /// Creates the behavior for `block`.
    pub fn new(block: Block) -> (b: WaterloggedTransparentBlock)
        ensures
            b.block == block,
    {
        WaterloggedTransparentBlock { block }
    }

    /// The placed state: the default state, waterlogged when the fluid at
    /// the target position is a water source.
    pub fn get_state_for_placement(&self, fluid_there: FluidState) -> (r: Option<BlockState>)
        ensures
            r == Some(
                BlockState {
                    waterlogged: fluid_there.fluid == Fluid::Water && fluid_there.source,
                    ..default_state_of(self.block)
                },
            ),
    {
        let wet = fluid_there.is_water() && fluid_there.is_source();
        Some(self.block.default_state().with_waterlogged(wet))
    }

    /// A neighbour change keeps the state and, while it holds water,
    /// schedules a water tick so the water can flow.
    pub fn update_shape(&self, state: BlockState) -> (r: ShapeUpdate)
        ensures
            r.state == state,
            r.schedule_water_tick == state.waterlogged,
    {
        ShapeUpdate { state, schedule_water_tick: state.waterlogged }
    }
}

/// Vanilla mangrove roots behavior.
#[derive(Clone, Copy, PartialEq, Eq, Structural, Debug)]
pub struct MangroveRootsBlock {
    pub waterlogged: WaterloggedTransparentBlock,
}

impl MangroveRootsBlock {
    /// Creates a new mangrove roots behavior.
    pub fn new(block: Block) -> (b: MangroveRootsBlock)
        ensures
            b.waterlogged.block == block,
    {
        MangroveRootsBlock { waterlogged: WaterloggedTransparentBlock::new(block) }
    }

    /// The placed state: waterlogged exactly when placed into a water
    /// source.
    pub fn get_state_for_placement(&self, fluid_there: FluidState) -> (r: Option<BlockState>)
        ensures
            r == Some(
                BlockState {
                    waterlogged: fluid_there.fluid == Fluid::Water && fluid_there.source,
                    ..default_state_of(self.waterlogged.block)
                },
            ),
    {
        self.waterlogged.get_state_for_placement(fluid_there)
    }

    /// A neighbour change keeps the state and schedules a water tick when
    /// the roots hold water.
    pub fn update_shape(&self, state: BlockState) -> (r: ShapeUpdate)
        ensures
            r.state == state,
            r.schedule_water_tick == state.waterlogged,
    {
        self.waterlogged.update_shape(state)
    }
}

/// Placing roots into a water source and reading their fluid back gives the
/// water source: the roots keep the water they were placed into, and only
/// that.
pub proof fn lemma_placed_roots_keep_source_water(block: Block, fluid_there: FluidState)
    requires
        block != Block::Water,
        block != Block::Lava,
    ensures
        ({
            let placed = BlockState {
                waterlogged: fluid_there.fluid == Fluid::Water && fluid_there.source,
                ..default_state_of(block)
            };
            &&& (fluid_of(placed).fluid == Fluid::Water) == (fluid_there.fluid == Fluid::Water
                && fluid_there.source)
            &&& fluid_of(placed).fluid == Fluid::Water ==> fluid_of(placed).source
        }),
{
}

} // verus!
