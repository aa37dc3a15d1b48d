//! Blocks such as grass and mycelium: they turn snowy under snow, decay to
//! their base block when covered, and spread onto nearby base blocks in
//! light.
use crate::random::thread_random_in;
use crate::world::{default_state_of, fluid_of, Block, BlockPos, BlockState, Direction, Fluid};
use vstd::prelude::*;

verus! {

/// Shared random-tick behavior for grass and mycelium.
#[derive(Clone, Copy, PartialEq, Eq, Structural, Debug)]
pub struct SpreadingSnowyBlock {
    /// The spreading block.
    pub block: Block,
    /// The block it decays to and spreads onto.
    pub base_block: Block,
}

/// What a random tick does to a spreading block.
#[derive(Clone, Copy, PartialEq, Eq, Structural, Debug)]
pub enum SpreadTick {
    /// The block cannot stay alive: set this state in its place.
    Decay(BlockState),
    /// Too dark above: nothing happens.
    Rest,
    /// The block tries to spread to four random candidates.
    Spread,
}

/// Whether a spreading block stays alive under `above`, where
/// `light_block_into` is the light the above state blocks from coming down
/// into it: it does under a single snow layer, never under a fluid that
/// fills its block (a source or a falling fluid), and
/// otherwise when less than 15 light is blocked.
pub open spec fn stays_alive(above: BlockState, light_block_into: int) -> bool {
    if above.block == Block::Snow && above.layers == 1 {
        true
    } else if fluid_of(above).amount == 8 {
        false
    } else {
        light_block_into < 15
    }
}

/// Whether a spreading block may spread onto a base block under `above`: it
/// must stay alive there, and no water may sit above.
pub open spec fn propagates(above: BlockState, light_block_into: int) -> bool {
    stays_alive(above, light_block_into) && fluid_of(above).fluid != Fluid::Water
}

/// The state after a shape update from `direction` by a neighbour that is
/// (`neighbor_is_snow`) or is not snow-tagged.
pub open spec fn snowy_shape(state: BlockState, direction: Direction, neighbor_is_snow: bool) -> BlockState {
    if direction == Direction::Up {
        BlockState { snowy: neighbor_is_snow, ..state }
    } else {
        state
    }
}

/// Whether `c` is a spread candidate of `pos`: up to one block away along x
/// and z, from three below to one above along y.
pub open spec fn spread_candidate_of(pos: BlockPos, c: BlockPos) -> bool {
    &&& -1 <= c.x - pos.x <= 1
    &&& -3 <= c.y - pos.y <= 1
    &&& -1 <= c.z - pos.z <= 1
}

/// The spread candidate of `pos` for the rolls `rx`, `ry`, `rz`: `pos` moved
/// by `rx - 1`, `ry - 3` and `rz - 1`.
pub open spec fn candidate_from_rolls(pos: BlockPos, rx: int, ry: int, rz: int) -> BlockPos {
    pos.shifted(rx - 1, ry - 3, rz - 1)
}

/// Whether `c` is the candidate of `pos` for some rolls in the ranges the
/// spread draws from: `0..=2`, `0..=4` and `0..=2`.
pub open spec fn rolled_candidate(pos: BlockPos, c: BlockPos) -> bool {
    exists|rx: int, ry: int, rz: int|
        0 <= rx <= 2 && 0 <= ry <= 4 && 0 <= rz <= 2 && c == #[trigger] candidate_from_rolls(
            pos,
            rx,
            ry,
            rz,
        )
}

impl SpreadingSnowyBlock {
    /// Creates a spreading snowy block with its dirt-like fallback block.
    pub fn new(block: Block, base_block: Block) -> (b: SpreadingSnowyBlock)
        ensures
            b.block == block,
            b.base_block == base_block,
    {
        SpreadingSnowyBlock { block, base_block }
    }

    /// Whether `block` is this spreading block.
    pub fn is_block(&self, block: Block) -> (r: bool)
        ensures
            r == (self.block == block),
    {
        self.block == block
    }

    /// The placed state: snowy when a snow-tagged block sits above.
    pub fn get_state_for_placement(&self, above_is_snow: bool) -> (s: BlockState)
        ensures
            s == (BlockState { snowy: above_is_snow, ..default_state_of(self.block) }),
    {
        self.block.default_state().with_snowy(above_is_snow)
    }

    /// A neighbour change from above sets `snowy` to whether the new block
    /// above is snow-tagged; changes from other sides keep the state.
    pub fn update_shape(state: BlockState, direction: Direction, neighbor_is_snow: bool) -> (s:
        BlockState)
        ensures
            s == snowy_shape(state, direction, neighbor_is_snow),
    {
        match direction {
            Direction::Up => state.with_snowy(neighbor_is_snow),
            _ => state,
        }
    }

    /// Whether the block stays alive under the state `above`, given the
    /// light that state blocks from coming down into it.
    pub fn can_stay_alive(above: BlockState, light_block_into: u8) -> (r: bool)
        ensures
            r == stays_alive(above, light_block_into as int),
    {
        if above.get_block() == Block::Snow && above.layers == 1 {
            return true;
        }
        if above.get_fluid_state().is_full() {
            return false;
        }
        light_block_into < 15
    }

    /// Whether the block may spread onto a base block whose above state is
    /// `above`.
    pub fn can_propagate(above: BlockState, light_block_into: u8) -> (r: bool)
        ensures
            r == propagates(above, light_block_into as int),
    {
        Self::can_stay_alive(above, light_block_into) && !above.get_fluid_state().is_water()
    }

    /// What a random tick does: decay to the base block when the block
    /// cannot stay alive, rest when the brightness above is below 9, spread
    /// otherwise.
    pub fn tick_action(&self, can_stay_alive: bool, brightness_above: u8) -> (r: SpreadTick)
        ensures
            r == (if !can_stay_alive {
                SpreadTick::Decay(default_state_of(self.base_block))
            } else if brightness_above < 9 {
                SpreadTick::Rest
            } else {
                SpreadTick::Spread
            }),
    {
        if !can_stay_alive {
            return SpreadTick::Decay(self.base_block.default_state());
        }
        if brightness_above < 9 {
            return SpreadTick::Rest;
        }
        SpreadTick::Spread
    }

    /// The spread candidate of `pos` for the rolls `rx` in `0..=2`, `ry` in
    /// `0..=4` and `rz` in `0..=2`: `pos` moved by `rx - 1`, `ry - 3` and
    /// `rz - 1`.
    pub fn spread_candidate(pos: BlockPos, rx: i32, ry: i32, rz: i32) -> (c: BlockPos)
        requires
            pos.can_offset(-1, -3, -1),
            pos.can_offset(1, 1, 1),
            0 <= rx <= 2,
            0 <= ry <= 4,
            0 <= rz <= 2,
        ensures
            c == candidate_from_rolls(pos, rx as int, ry as int, rz as int),
            spread_candidate_of(pos, c),
    {
        pos.offset(rx - 1, ry - 3, rz - 1)
    }

    /// Four spread candidates around `pos`, each from three thread-RNG rolls
    /// (`0..=2` for x, `0..=4` for y, `0..=2` for z, in that order) turned
    /// into a candidate by `spread_candidate`.
    pub fn spread_candidates(pos: BlockPos) -> (v: Vec<BlockPos>)
        requires
            pos.can_offset(-1, -3, -1),
            pos.can_offset(1, 1, 1),
        ensures
            v.len() == 4,
            forall|i: int| 0 <= i < 4 ==> rolled_candidate(pos, #[trigger] v[i]),
            forall|i: int| 0 <= i < 4 ==> spread_candidate_of(pos, #[trigger] v[i]),
    {
        let mut v: Vec<BlockPos> = Vec::new();
        let mut i: usize = 0;
        while i < 4
            invariant
                pos.can_offset(-1, -3, -1),
                pos.can_offset(1, 1, 1),
                i <= 4,
                v.len() == i,
                forall|k: int| 0 <= k < i ==> rolled_candidate(pos, #[trigger] v[k]),
                forall|k: int| 0 <= k < i ==> spread_candidate_of(pos, #[trigger] v[k]),
            decreases 4 - i,
        {
            let rx: i32 = thread_random_in(0, 2);
            let ry: i32 = thread_random_in(0, 4);
            let rz: i32 = thread_random_in(0, 2);
            let c = Self::spread_candidate(pos, rx, ry, rz);
            v.push(c);
            assert(rolled_candidate(pos, v[i as int])) by {
                assert(v[i as int] == candidate_from_rolls(pos, rx as int, ry as int, rz as int));
            }
            i = i + 1;
        }
        v
    }

    /// The state to set at a spread candidate: none unless the candidate is
    /// the base block and the block may propagate there, else this block's
    /// default state, snowy when a snow-tagged block sits above.
    pub fn spread_state(&self, candidate_block: Block, can_propagate: bool, snow_above: bool) -> (r:
        Option<BlockState>)
        ensures
            r == (if candidate_block != self.base_block || !can_propagate {
                None
            } else {
                Some(BlockState { snowy: snow_above, ..default_state_of(self.block) })
            }),
    {
        if candidate_block != self.base_block || !can_propagate {
            return None;
        }
        Some(self.block.default_state().with_snowy(snow_above))
    }
}

/// Whatever the light, a block dies under any fluid that fills its block,
/// water or lava alike: a source or falling liquid block, or a waterlogged
/// block that is not itself a liquid; but it lives under a single snow layer. Under anything else it
/// lives exactly when less than 15 light is blocked.
pub proof fn lemma_life_under_cover(above: BlockState, light_block_into: int)
    ensures
        (above.block == Block::Lava || above.block == Block::Water) && (above.level == 0
            || above.level >= 8) ==> !stays_alive(above, light_block_into),
        (above.block != Block::Snow && above.block != Block::Lava && above.block != Block::Water
            && above.waterlogged) ==> !stays_alive(
            above,
            light_block_into,
        ),
        (!(above.block == Block::Snow && above.layers == 1) && fluid_of(above).amount == 8)
            ==> !stays_alive(above, light_block_into),
        (above.block == Block::Snow && above.layers == 1) ==> stays_alive(above, light_block_into),
        (above.block != Block::Water && above.block != Block::Lava && !above.waterlogged && !(
        above.block == Block::Snow && above.layers == 1)) ==> (stays_alive(above, light_block_into)
            <==> light_block_into < 15),
{
}

/// A block spreads onto a base block exactly where it would stay alive and
/// no water sits above; in particular it spreads under a single dry snow
/// layer, whatever the light, and never under water.
pub proof fn lemma_spread_where_alive_and_dry(above: BlockState, light_block_into: int)
    ensures
        propagates(above, light_block_into) <==> (stays_alive(above, light_block_into)
            && fluid_of(above).fluid != Fluid::Water),
        (above.block == Block::Snow && above.layers == 1 && !above.waterlogged) ==> propagates(
            above,
            light_block_into,
        ),
        (above.block == Block::Water || (above.block != Block::Lava && above.waterlogged))
            ==> !propagates(above, light_block_into),
{
}

/// A block only spreads where it could also stay alive.
pub proof fn lemma_propagation_needs_life(above: BlockState, light_block_into: int)
    ensures
        propagates(above, light_block_into) ==> stays_alive(above, light_block_into),
{
}

/// A shape update only ever touches `snowy`, and repeating it changes
/// nothing more.
pub proof fn lemma_snowy_shape_settles(state: BlockState, direction: Direction, neighbor_is_snow: bool)
    ensures
        snowy_shape(state, direction, neighbor_is_snow).block == state.block,
        snowy_shape(state, direction, neighbor_is_snow).waterlogged == state.waterlogged,
        snowy_shape(state, direction, neighbor_is_snow).layers == state.layers,
        snowy_shape(snowy_shape(state, direction, neighbor_is_snow), direction, neighbor_is_snow)
            == snowy_shape(state, direction, neighbor_is_snow),
        direction == Direction::Up ==> snowy_shape(state, direction, neighbor_is_snow).snowy
            == neighbor_is_snow,
{
}

} // verus!
