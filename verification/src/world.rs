//! Positions, directions, blocks and block states as plain values.
use vstd::prelude::*;

verus! {

/// One of the six faces of a block.
#[derive(Clone, Copy, PartialEq, Eq, Structural, Debug)]
pub enum Direction {
    Down,
    Up,
    North,
    South,
    West,
    East,
}

/// A block position in the world.
#[derive(Clone, Copy, PartialEq, Eq, Structural, Debug)]
pub struct BlockPos {
    pub x: i32,
    pub y: i32,
    pub z: i32,
}

/// Whether `v` fits in an `i32`.
pub open spec fn fits_i32(v: int) -> bool {
    i32::MIN <= v <= i32::MAX
}

impl BlockPos {
    /// The origin.
    pub fn zero() -> (p: BlockPos)
        ensures
            p.x == 0 && p.y == 0 && p.z == 0,
    {
        BlockPos { x: 0, y: 0, z: 0 }
    }

    /// Creates a position.
    pub fn new(x: i32, y: i32, z: i32) -> (p: BlockPos)
        ensures
            p.x == x,
            p.y == y,
            p.z == z,
    {
        BlockPos { x, y, z }
    }

    /// Whether moving this position by the given amounts stays inside `i32`.
    pub open spec fn can_offset(self, dx: int, dy: int, dz: int) -> bool {
        fits_i32(self.x + dx) && fits_i32(self.y + dy) && fits_i32(self.z + dz)
    }

    /// This position moved by the given amounts, in the mathematical integers.
    pub open spec fn shifted(self, dx: int, dy: int, dz: int) -> BlockPos {
        BlockPos { x: (self.x + dx) as i32, y: (self.y + dy) as i32, z: (self.z + dz) as i32 }
    }

    /// The position moved by `(dx, dy, dz)`.
    pub fn offset(self, dx: i32, dy: i32, dz: i32) -> (p: BlockPos)
        requires
            self.can_offset(dx as int, dy as int, dz as int),
        ensures
            p == self.shifted(dx as int, dy as int, dz as int),
            p.x == self.x + dx,
            p.y == self.y + dy,
            p.z == self.z + dz,
    {
        BlockPos { x: self.x + dx, y: self.y + dy, z: self.z + dz }
    }

    /// The position one block up.
    pub fn above(self) -> (p: BlockPos)
        requires
            self.y < i32::MAX,
        ensures
            p == (BlockPos { x: self.x, y: (self.y + 1) as i32, z: self.z }),
    {
        BlockPos { x: self.x, y: self.y + 1, z: self.z }
    }

    /// The position one block down.
    pub fn below(self) -> (p: BlockPos)
        requires
            self.y > i32::MIN,
        ensures
            p == (BlockPos { x: self.x, y: (self.y - 1) as i32, z: self.z }),
    {
        BlockPos { x: self.x, y: self.y - 1, z: self.z }
    }

    /// The position one block north (towards negative z).
    pub fn north(self) -> (p: BlockPos)
        requires
            self.z > i32::MIN,
        ensures
            p == (BlockPos { x: self.x, y: self.y, z: (self.z - 1) as i32 }),
    {
        BlockPos { x: self.x, y: self.y, z: self.z - 1 }
    }

    /// The position one block east (towards positive x).
    pub fn east(self) -> (p: BlockPos)
        requires
            self.x < i32::MAX,
        ensures
            p == (BlockPos { x: (self.x + 1) as i32, y: self.y, z: self.z }),
    {
        BlockPos { x: self.x + 1, y: self.y, z: self.z }
    }
}

/// The blocks that the behaviors of this crate name. Any other block is
/// `Other`, told apart by its registry id.
#[derive(Clone, Copy, PartialEq, Eq, Structural, Debug)]
pub enum Block {
    Air,
    CaveAir,
    VoidAir,
    Stone,
    Dirt,
    GrassBlock,
    Mycelium,
    ShortGrass,
    Snow,
    Water,
    Lava,
    OpenEyeblossom,
    ClosedEyeblossom,
    PottedOpenEyeblossom,
    PottedClosedEyeblossom,
    MangroveRoots,
    SporeBlossom,
    OakFenceGate,
    Other(u16),
}

/// A block together with the state properties that these behaviors read or
/// write. Properties that a block does not have keep their default value.
#[derive(Clone, Copy, PartialEq, Eq, Structural, Debug)]
pub struct BlockState {
    pub block: Block,
    /// `snowy`, for grass-like blocks.
    pub snowy: bool,
    /// `waterlogged`, for blocks that can hold water.
    pub waterlogged: bool,
    /// `layers`, for snow (1 to 8).
    pub layers: u8,
    /// `level`, for water and lava blocks: 0 for a source, 1 to 7 for
    /// flowing liquid that thins out, 8 and above for falling liquid.
    pub level: u8,
}

/// The fluid kinds.
#[derive(Clone, Copy, PartialEq, Eq, Structural, Debug)]
pub enum Fluid {
    Empty,
    Water,
    Lava,
}

/// The fluid held by a block state.
#[derive(Clone, Copy, PartialEq, Eq, Structural, Debug)]
pub struct FluidState {
    pub fluid: Fluid,
    /// Whether it is a source block.
    pub source: bool,
    /// How much of the block it fills, in eighths: 8 for a source or a
    /// falling fluid, less for thinning flowing fluid, 0 for no fluid.
    pub amount: u8,
}

impl FluidState {
    /// Whether the fluid is water.
    pub fn is_water(self) -> (r: bool)
        ensures
            r == (self.fluid == Fluid::Water),
    {
        match self.fluid {
            Fluid::Water => true,
            _ => false,
        }
    }

    /// Whether the fluid is a source block.
    pub fn is_source(self) -> (r: bool)
        ensures
            r == self.source,
    {
        self.source
    }

    /// Whether the fluid fills its whole block.
    pub fn is_full(self) -> (r: bool)
        ensures
            r == (self.amount == 8),
    {
        self.amount == 8
    }
}

/// Whether `block` is one of the air blocks: air, cave air or void air.
pub open spec fn is_air_block(block: Block) -> bool {
    block == Block::Air || block == Block::CaveAir || block == Block::VoidAir
}

/// The air blocks are air, cave air and void air, and no others: short
/// grass, stone, liquids and every other block are not air.
pub proof fn lemma_only_air_is_air(block: Block)
    ensures
        block == Block::Air ==> is_air_block(block),
        block == Block::CaveAir ==> is_air_block(block),
        block == Block::VoidAir ==> is_air_block(block),
        (block != Block::Air && block != Block::CaveAir && block != Block::VoidAir) ==> !is_air_block(
            block,
        ),
{
}

/// The default state of a block.
pub open spec fn default_state_of(block: Block) -> BlockState {
    BlockState { block, snowy: false, waterlogged: false, layers: 1, level: 0 }
}

/// The fluid of a liquid block of `fluid` at `level`: level 0 is a source,
/// levels 1 to 7 are flowing with `8 - level` eighths, higher levels are
/// falling and fill the block.
pub open spec fn liquid_fluid(fluid: Fluid, level: u8) -> FluidState {
    FluidState {
        fluid,
        source: level == 0,
        amount: if level == 0 || level >= 8 {
            8u8
        } else {
            (8 - level) as u8
        },
    }
}

/// The fluid that a block state holds.
pub open spec fn fluid_of(state: BlockState) -> FluidState {
    match state.block {
        Block::Water => liquid_fluid(Fluid::Water, state.level),
        Block::Lava => liquid_fluid(Fluid::Lava, state.level),
        _ => if state.waterlogged {
            FluidState { fluid: Fluid::Water, source: true, amount: 8 }
        } else {
            FluidState { fluid: Fluid::Empty, source: false, amount: 0 }
        },
    }
}

fn liquid(fluid: Fluid, level: u8) -> (f: FluidState)
    ensures
        f == liquid_fluid(fluid, level),
{
    let amount: u8 = if level == 0 || level >= 8 {
        8
    } else {
        8 - level
    };
    FluidState { fluid, source: level == 0, amount }
}

impl Block {
    /// The default state of this block.
    pub fn default_state(self) -> (s: BlockState)
        ensures
            s == default_state_of(self),
    {
        BlockState { block: self, snowy: false, waterlogged: false, layers: 1, level: 0 }
    }
}

impl BlockState {
    /// The block of this state.
    pub fn get_block(self) -> (b: Block)
        ensures
            b == self.block,
    {
        self.block
    }

    /// This state with `snowy` set to `snowy`.
    pub fn with_snowy(self, snowy: bool) -> (s: BlockState)
        ensures
            s == (BlockState { snowy, ..self }),
    {
        BlockState { snowy, ..self }
    }

    /// This state with `waterlogged` set to `waterlogged`.
    pub fn with_waterlogged(self, waterlogged: bool) -> (s: BlockState)
        ensures
            s == (BlockState { waterlogged, ..self }),
    {
        BlockState { waterlogged, ..self }
    }

    /// This state with `layers` set to `layers`.
    pub fn with_layers(self, layers: u8) -> (s: BlockState)
        ensures
            s == (BlockState { layers, ..self }),
    {
        BlockState { layers, ..self }
    }

    /// This state with `level` set to `level`.
    pub fn with_level(self, level: u8) -> (s: BlockState)
        ensures
            s == (BlockState { level, ..self }),
    {
        BlockState { level, ..self }
    }

    /// Whether this is one of the air blocks.
    pub fn is_air(self) -> (r: bool)
        ensures
            r == is_air_block(self.block),
    {
        match self.block {
            Block::Air | Block::CaveAir | Block::VoidAir => true,
            _ => false,
        }
    }

    /// The fluid held by this state: water and lava blocks hold their fluid
    /// at their level, a waterlogged block holds a water source.
    pub fn get_fluid_state(self) -> (f: FluidState)
        ensures
            f == fluid_of(self),
    {
        match self.block {
            Block::Water => liquid(Fluid::Water, self.level),
            Block::Lava => liquid(Fluid::Lava, self.level),
            _ => if self.waterlogged {
                FluidState { fluid: Fluid::Water, source: true, amount: 8 }
            } else {
                FluidState { fluid: Fluid::Empty, source: false, amount: 0 }
            },
        }
    }
}

/// Width of the box from `lo` to `hi` along x, both corners included.
pub open spec fn box_width(lo: BlockPos, hi: BlockPos) -> int {
    hi.x - lo.x + 1
}

/// Height of the box from `lo` to `hi` along y, both corners included.
pub open spec fn box_height(lo: BlockPos, hi: BlockPos) -> int {
    hi.y - lo.y + 1
}

/// Depth of the box from `lo` to `hi` along z, both corners included.
pub open spec fn box_depth(lo: BlockPos, hi: BlockPos) -> int {
    hi.z - lo.z + 1
}

/// Number of positions in the box from `lo` to `hi`.
pub open spec fn box_volume(lo: BlockPos, hi: BlockPos) -> int {
    box_width(lo, hi) * (box_height(lo, hi) * box_depth(lo, hi))
}

/// Whether `p` lies in the box whose least corner is `lo` and greatest `hi`.
pub open spec fn in_box(lo: BlockPos, hi: BlockPos, p: BlockPos) -> bool {
    &&& lo.x <= p.x <= hi.x
    &&& lo.y <= p.y <= hi.y
    &&& lo.z <= p.z <= hi.z
}

/// The `i`-th position of the box from `lo` to `hi` when x runs fastest,
/// then y, then z.
pub open spec fn box_pos(lo: BlockPos, hi: BlockPos, i: int) -> BlockPos {
    let w = box_width(lo, hi);
    let h = box_height(lo, hi);
    BlockPos {
        x: (lo.x + i % w) as i32,
        y: (lo.y + (i / w) % h) as i32,
        z: (lo.z + (i / w) / h) as i32,
    }
}

/// Whether `lo` and `hi` are the least and greatest corners of a box small
/// enough to be listed in memory.
pub open spec fn listable_box(lo: BlockPos, hi: BlockPos) -> bool {
    &&& lo.x <= hi.x
    &&& lo.y <= hi.y
    &&& lo.z <= hi.z
    &&& box_volume(lo, hi) <= usize::MAX
}

proof fn lemma_box_factors(w: int, h: int, d: int)
    requires
        w >= 1,
        h >= 1,
        d >= 1,
        w * (h * d) <= usize::MAX,
    ensures
        w <= usize::MAX,
        h <= usize::MAX,
        d <= usize::MAX,
        h * d >= 1,
        h * d <= usize::MAX,
        w * h <= usize::MAX,
{
    assert(h * d >= h && h * d >= d && h * d >= 1) by (nonlinear_arith)
        requires
            h >= 1,
            d >= 1,
    ;
    assert(w * (h * d) >= w && w * (h * d) >= h * d) by (nonlinear_arith)
        requires
            w >= 1,
            h * d >= 1,
    ;
    assert(w * h <= w * (h * d)) by (nonlinear_arith)
        requires
            w >= 1,
            h * d >= h,
    ;
}

/// The `i`-th position of a box lies in the box, for every index below its
/// volume.
pub proof fn lemma_box_pos_in_box(lo: BlockPos, hi: BlockPos, i: int)
    requires
        listable_box(lo, hi),
        0 <= i < box_volume(lo, hi),
    ensures
        0 <= i % box_width(lo, hi) < box_width(lo, hi),
        0 <= (i / box_width(lo, hi)) % box_height(lo, hi) < box_height(lo, hi),
        0 <= (i / box_width(lo, hi)) / box_height(lo, hi) < box_depth(lo, hi),
        in_box(lo, hi, box_pos(lo, hi, i)),
{
    let w = box_width(lo, hi);
    let h = box_height(lo, hi);
    let d = box_depth(lo, hi);
    lemma_box_factors(w, h, d);
    vstd::arithmetic::div_mod::lemma_multiply_divide_lt(i, w, h * d);
    vstd::arithmetic::div_mod::lemma_div_pos_is_pos(i, w);
    vstd::arithmetic::div_mod::lemma_multiply_divide_lt(i / w, h, d);
    vstd::arithmetic::div_mod::lemma_div_pos_is_pos(i / w, h);
}

/// The positions of the box from `lo` to `hi`, both corners included, with
/// x running fastest, then y, then z.
pub fn between_closed(lo: BlockPos, hi: BlockPos) -> (v: Vec<BlockPos>)
    requires
        listable_box(lo, hi),
    ensures
        v.len() == box_volume(lo, hi),
        forall|i: int| 0 <= i < v.len() ==> #[trigger] v[i] == box_pos(lo, hi, i),
{
    proof {
        lemma_box_factors(box_width(lo, hi), box_height(lo, hi), box_depth(lo, hi));
    }
    let w: usize = ((hi.x as i64) - (lo.x as i64) + 1) as usize;
    let h: usize = ((hi.y as i64) - (lo.y as i64) + 1) as usize;
    let d: usize = ((hi.z as i64) - (lo.z as i64) + 1) as usize;
    assert(w * (h * d) <= usize::MAX);
    let n: usize = w * (h * d);
    let mut v: Vec<BlockPos> = Vec::new();
    let mut i: usize = 0;
    while i < n
        invariant
            listable_box(lo, hi),
            w == box_width(lo, hi),
            h == box_height(lo, hi),
            d == box_depth(lo, hi),
            n == box_volume(lo, hi),
            i <= n,
            v.len() == i,
            forall|j: int| 0 <= j < i ==> #[trigger] v[j] == box_pos(lo, hi, j),
        decreases n - i,
    {
        proof {
            lemma_box_pos_in_box(lo, hi, i as int);
        }
        let q: usize = i / w;
        let p = BlockPos {
            x: ((lo.x as i64) + ((i % w) as i64)) as i32,
            y: ((lo.y as i64) + ((q % h) as i64)) as i32,
            z: ((lo.z as i64) + ((q / h) as i64)) as i32,
        };
        v.push(p);
        i = i + 1;
    }
    v
}

/// Every position of a box appears in the list `between_closed` gives for
/// it, at the index that counts x fastest, then y, then z.
pub proof fn lemma_between_closed_covers_box(lo: BlockPos, hi: BlockPos, p: BlockPos)
    requires
        listable_box(lo, hi),
        in_box(lo, hi, p),
    ensures
        ({
            let i = ((p.z - lo.z) * box_height(lo, hi) + (p.y - lo.y)) * box_width(lo, hi) + (p.x
                - lo.x);
            &&& 0 <= i < box_volume(lo, hi)
            &&& box_pos(lo, hi, i) == p
        }),
{
    let w = box_width(lo, hi);
    let h = box_height(lo, hi);
    let d = box_depth(lo, hi);
    let dx = p.x - lo.x;
    let dy = p.y - lo.y;
    let dz = p.z - lo.z;
    let q = dz * h + dy;
    let i = q * w + dx;
    lemma_box_factors(w, h, d);
    assert(0 <= q < h * d) by (nonlinear_arith)
        requires
            0 <= dz < d,
            0 <= dy < h,
            q == dz * h + dy,
    ;
    assert(0 <= i < w * (h * d)) by (nonlinear_arith)
        requires
            0 <= q < h * d,
            0 <= dx < w,
            i == q * w + dx,
    ;
    vstd::arithmetic::div_mod::lemma_fundamental_div_mod_converse(i, w, q, dx);
    vstd::arithmetic::div_mod::lemma_fundamental_div_mod_converse(q, h, dz, dy);
}

/// Whether `y` lies outside the build height of a level whose lowest layer
/// is `min_y` and which is `height` layers tall.
pub open spec fn outside_build_height(min_y: int, height: int, y: int) -> bool {
    y < min_y || y >= min_y + height
}

/// Whether `y` lies outside the build height `[min_y, min_y + height)`.
pub fn is_outside_build_height(min_y: i32, height: i32, y: i32) -> (r: bool)
    ensures
        r == outside_build_height(min_y as int, height as int, y as int),
{
    (y as i64) < (min_y as i64) || (y as i64) >= (min_y as i64) + (height as i64)
}

} // verus!
