//! Open and closed eyeblossoms: which way a flower switches, what it plays
//! and shows, the ticks it schedules for like flowers nearby, and the effect
//! it gives a bee.
use crate::random::thread_random_in;
use crate::world::{
    between_closed, box_depth, box_height, box_pos, box_volume, box_width, default_state_of, Block, BlockPos, BlockState,
};
use vstd::prelude::*;

verus! {

/// The environment attribute that tells whether eyeblossoms should be open.
pub const EYEBLOSSOM_OPEN_ATTRIBUTE: &'static str = "minecraft:gameplay/eyeblossom_open";

/// Vanilla open/closed eyeblossom type.
#[derive(Clone, Copy, PartialEq, Eq, Structural, Debug)]
pub enum EyeblossomType {
    /// Emits open-eyeblossom effects and transforms closed at daytime.
    Open,
    /// Emits closed-eyeblossom effects and transforms open at nighttime.
    Closed,
}

/// The sounds an eyeblossom plays when it switches.
#[derive(Clone, Copy, PartialEq, Eq, Structural, Debug)]
pub enum SoundEvent {
    BlockEyeblossomOpenLong,
    BlockEyeblossomCloseLong,
    BlockEyeblossomOpen,
    BlockEyeblossomClose,
}

/// The mob effects an eyeblossom deals with.
#[derive(Clone, Copy, PartialEq, Eq, Structural, Debug)]
pub enum MobEffect {
    Blindness,
    Nausea,
    Poison,
}

/// A packed `0xRRGGBB` colour.
#[derive(Clone, Copy, PartialEq, Eq, Structural, Debug)]
pub struct RgbColor {
    pub rgb: u32,
}

/// A mob effect with its duration in ticks and its amplifier.
#[derive(Clone, Copy, PartialEq, Eq, Structural, Debug)]
pub struct MobEffectInstance {
    pub effect: MobEffect,
    pub duration: i32,
    pub amplifier: i32,
}

/// World difficulty.
#[derive(Clone, Copy, PartialEq, Eq, Structural, Debug)]
pub enum Difficulty {
    Peaceful,
    Easy,
    Normal,
    Hard,
}

/// The other type.
pub open spec fn opposite(t: EyeblossomType) -> EyeblossomType {
    match t {
        EyeblossomType::Open => EyeblossomType::Closed,
        EyeblossomType::Closed => EyeblossomType::Open,
    }
}

/// The block that carries a type.
pub open spec fn block_of(t: EyeblossomType) -> Block {
    match t {
        EyeblossomType::Open => Block::OpenEyeblossom,
        EyeblossomType::Closed => Block::ClosedEyeblossom,
    }
}

/// The sound of a switch into type `t`, long or short.
pub open spec fn switch_sound_of(t: EyeblossomType, long: bool) -> SoundEvent {
    match (t, long) {
        (EyeblossomType::Open, true) => SoundEvent::BlockEyeblossomOpenLong,
        (EyeblossomType::Closed, true) => SoundEvent::BlockEyeblossomCloseLong,
        (EyeblossomType::Open, false) => SoundEvent::BlockEyeblossomOpen,
        (EyeblossomType::Closed, false) => SoundEvent::BlockEyeblossomClose,
    }
}

/// The type an eyeblossom of type `t` takes when the environment asks for an
/// open (`should_be_open`) or a closed one: `None` when it already agrees.
pub open spec fn change_for(t: EyeblossomType, should_be_open: bool) -> Option<EyeblossomType> {
    if should_be_open == (t == EyeblossomType::Open) {
        None
    } else {
        Some(opposite(t))
    }
}

impl EyeblossomType {
    /// Whether this is the open type.
    pub fn is_open(self) -> (r: bool)
        ensures
            r == (self == EyeblossomType::Open),
    {
        match self {
            EyeblossomType::Open => true,
            EyeblossomType::Closed => false,
        }
    }

    /// The other type.
    pub fn transform(self) -> (t: EyeblossomType)
        ensures
            t == opposite(self),
    {
        match self {
            EyeblossomType::Open => EyeblossomType::Closed,
            EyeblossomType::Closed => EyeblossomType::Open,
        }
    }

    /// The planted block of this type.
    pub fn block(self) -> (b: Block)
        ensures
            b == block_of(self),
    {
        match self {
            EyeblossomType::Open => Block::OpenEyeblossom,
            EyeblossomType::Closed => Block::ClosedEyeblossom,
        }
    }

    /// The sound of a switch into this type on a random tick.
    pub fn long_switch_sound(self) -> (s: SoundEvent)
        ensures
            s == switch_sound_of(self, true),
    {
        match self {
            EyeblossomType::Open => SoundEvent::BlockEyeblossomOpenLong,
            EyeblossomType::Closed => SoundEvent::BlockEyeblossomCloseLong,
        }
    }

    /// The sound of a switch into this type on a scheduled tick.
    pub fn short_switch_sound(self) -> (s: SoundEvent)
        ensures
            s == switch_sound_of(self, false),
    {
        match self {
            EyeblossomType::Open => SoundEvent::BlockEyeblossomOpen,
            EyeblossomType::Closed => SoundEvent::BlockEyeblossomClose,
        }
    }

    /// The colour of the trail particle shown when a flower turns this type.
    pub fn particle_color(self) -> (c: RgbColor)
        ensures
            c.rgb == (match self {
                EyeblossomType::Open => 16_545_810u32,
                EyeblossomType::Closed => 6_250_335u32,
            }),
    {
        match self {
            EyeblossomType::Open => RgbColor { rgb: 16_545_810 },
            EyeblossomType::Closed => RgbColor { rgb: 6_250_335 },
        }
    }

    /// The effect this type gives a bee.
    pub fn bee_effect(self) -> (e: MobEffect)
        ensures
            e == (match self {
                EyeblossomType::Open => MobEffect::Blindness,
                EyeblossomType::Closed => MobEffect::Nausea,
            }),
    {
        match self {
            EyeblossomType::Open => MobEffect::Blindness,
            EyeblossomType::Closed => MobEffect::Nausea,
        }
    }

    /// How many ticks the bee effect of this type lasts.
    pub fn bee_effect_duration(self) -> (d: i32)
        ensures
            d == (match self {
                EyeblossomType::Open => 220i32,
                EyeblossomType::Closed => 140i32,
            }),
    {
        match self {
            EyeblossomType::Open => 220,
            EyeblossomType::Closed => 140,
        }
    }
}

/// Switching twice gives back the type one started from.
pub proof fn lemma_transform_involutive(t: EyeblossomType)
    ensures
        opposite(opposite(t)) == t,
        (opposite(t) == EyeblossomType::Open) != (t == EyeblossomType::Open),
{
}

// ---------------------------------------------------------------------------
// Distances and tick delays.

/// Whether `r` is the floor of the square root of `n`.
pub open spec fn is_floor_sqrt(r: int, n: int) -> bool {
    0 <= r && r * r <= n < (r + 1) * (r + 1)
}

/// The floor of the square root of `n`, for `n >= 0`.
pub open spec fn floor_sqrt(n: int) -> int {
    choose|r: int| is_floor_sqrt(r, n)
}

/// A number has at most one integer square root floor.
proof fn lemma_floor_sqrt_unique(r: int, s: int, n: int)
    requires
        is_floor_sqrt(r, n),
        is_floor_sqrt(s, n),
    ensures
        r == s,
{
    if r < s {
        assert((r + 1) * (r + 1) <= s * s) by (nonlinear_arith)
            requires
                0 <= r,
                r + 1 <= s,
        ;
    }
    if s < r {
        assert((s + 1) * (s + 1) <= r * r) by (nonlinear_arith)
            requires
                0 <= s,
                s + 1 <= r,
        ;
    }
}

/// `floor_sqrt` is the one number with the floor-sqrt property.
proof fn lemma_floor_sqrt_is(r: int, n: int)
    requires
        is_floor_sqrt(r, n),
    ensures
        floor_sqrt(n) == r,
{
    let s = floor_sqrt(n);
    assert(is_floor_sqrt(s, n));
    lemma_floor_sqrt_unique(r, s, n);
}

/// The integer square root: the largest `r` with `r * r <= n`.
pub fn isqrt(n: u32) -> (r: u32)
    ensures
        is_floor_sqrt(r as int, n as int),
        r == floor_sqrt(n as int),
{
    let mut r: u64 = 0;
    loop
        invariant
            r * r <= n,
            r <= 65535,
        ensures
            r * r <= n < (r + 1) * (r + 1),
        decreases n - r * r,
    {
        let s: u64 = r + 1;
        assert(s * s <= 65536 * 65536) by (nonlinear_arith)
            requires
                s <= 65536,
        ;
        if s * s > n as u64 {
            break;
        }
        assert(s <= 65535) by (nonlinear_arith)
            requires
                s * s <= n,
                n <= u32::MAX,
        ;
        assert(r * r < s * s) by (nonlinear_arith)
            requires
                s == r + 1,
        ;
        r = s;
    }
    proof {
        lemma_floor_sqrt_is(r as int, n as int);
    }
    r as u32
}

/// Every natural number has a floor square root.
pub proof fn lemma_floor_sqrt_exists(n: int)
    requires
        0 <= n,
    ensures
        is_floor_sqrt(floor_sqrt(n), n),
    decreases n,
{
    if n == 0 {
        assert(is_floor_sqrt(0, 0));
    } else {
        lemma_floor_sqrt_exists(n - 1);
        let r = floor_sqrt(n - 1);
        if (r + 1) * (r + 1) <= n {
            assert((r + 1) * (r + 1) == r * r + 2 * r + 1) by (nonlinear_arith);
            assert((r + 2) * (r + 2) == r * r + 4 * r + 4) by (nonlinear_arith);
            assert(is_floor_sqrt(r + 1, n));
        } else {
            assert(is_floor_sqrt(r, n));
        }
    }
}

/// The floor square root never falls when its argument grows.
pub proof fn lemma_floor_sqrt_monotone(m: int, n: int)
    requires
        0 <= m <= n,
    ensures
        floor_sqrt(m) <= floor_sqrt(n),
{
    lemma_floor_sqrt_exists(m);
    lemma_floor_sqrt_exists(n);
    let a = floor_sqrt(m);
    let b = floor_sqrt(n);
    if b < a {
        assert((b + 1) * (b + 1) <= a * a) by (nonlinear_arith)
            requires
                0 <= b,
                b + 1 <= a,
        ;
    }
}

/// Squared distance between two positions.
pub open spec fn distance_squared(a: BlockPos, b: BlockPos) -> int {
    (b.x - a.x) * (b.x - a.x) + (b.y - a.y) * (b.y - a.y) + (b.z - a.z) * (b.z - a.z)
}

/// Whether `b` lies within 1024 blocks of `a` along each axis.
pub open spec fn near(a: BlockPos, b: BlockPos) -> bool {
    &&& -1024 <= b.x - a.x <= 1024
    &&& -1024 <= b.y - a.y <= 1024
    &&& -1024 <= b.z - a.z <= 1024
}

/// The least delay of the tick scheduled for a flower at squared distance
/// `d2`: five times the distance, rounded down.
pub open spec fn min_tick_delay(d2: int) -> int {
    floor_sqrt(25 * d2)
}

/// The greatest delay of the tick scheduled for a flower at squared
/// distance `d2`: ten times the distance, rounded down.
pub open spec fn max_tick_delay(d2: int) -> int {
    floor_sqrt(100 * d2)
}

/// The delay bounds of the tick scheduled at `nearby` by a flower switching
/// at `center`: five and ten times their distance, rounded down, computed
/// exactly in integers.
pub fn tick_delay_bounds(center: BlockPos, nearby: BlockPos) -> (r: (i32, i32))
    requires
        near(center, nearby),
    ensures
        r.0 == min_tick_delay(distance_squared(center, nearby)),
        r.1 == max_tick_delay(distance_squared(center, nearby)),
        is_floor_sqrt(r.0 as int, 25 * distance_squared(center, nearby)),
        is_floor_sqrt(r.1 as int, 100 * distance_squared(center, nearby)),
        0 <= r.0 <= r.1,
{
    let dx: i64 = nearby.x as i64 - center.x as i64;
    let dy: i64 = nearby.y as i64 - center.y as i64;
    let dz: i64 = nearby.z as i64 - center.z as i64;
    assert(dx * dx <= 1048576 && dy * dy <= 1048576 && dz * dz <= 1048576) by (nonlinear_arith)
        requires
            -1024 <= dx <= 1024,
            -1024 <= dy <= 1024,
            -1024 <= dz <= 1024,
    ;
    assert(dx * dx >= 0 && dy * dy >= 0 && dz * dz >= 0) by (nonlinear_arith);
    let d2: i64 = dx * dx + dy * dy + dz * dz;
    let lo: u32 = isqrt((25 * d2) as u32);
    let hi: u32 = isqrt((100 * d2) as u32);
    proof {
        lemma_floor_sqrt_monotone(25 * d2, 100 * d2);
    }
    assert(lo <= 65536 && hi <= 65536) by (nonlinear_arith)
        requires
            lo * lo <= 25 * d2,
            hi * hi <= 100 * d2,
            d2 <= 3145728,
    ;
    (lo as i32, hi as i32)
}

/// Draws the delay of the tick scheduled at `nearby` by a flower switching
/// at `center`: a thread-RNG roll between the two delay bounds.
pub fn neighbor_tick_delay(center: BlockPos, nearby: BlockPos) -> (d: i32)
    requires
        near(center, nearby),
    ensures
        min_tick_delay(distance_squared(center, nearby)) <= d <= max_tick_delay(
            distance_squared(center, nearby),
        ),
{
    let (lo, hi): (i32, i32) = tick_delay_bounds(center, nearby);
    thread_random_in(lo, hi)
}

/// The delays a random draw may give lie in a range that is never empty and
/// whose ends are no earlier for a farther flower.
pub proof fn lemma_tick_delay_range(d2: int, e2: int)
    requires
        0 <= d2 <= e2,
    ensures
        min_tick_delay(d2) <= max_tick_delay(d2),
        min_tick_delay(d2) <= min_tick_delay(e2),
        max_tick_delay(d2) <= max_tick_delay(e2),
{
    lemma_floor_sqrt_monotone(25 * d2, 100 * d2);
    lemma_floor_sqrt_monotone(25 * d2, 25 * e2);
    lemma_floor_sqrt_monotone(100 * d2, 100 * e2);
}

// ---------------------------------------------------------------------------
// The planted flower.

/// Behavior for open and closed Eyeblossom blocks.
#[derive(Clone, Copy, PartialEq, Eq, Structural, Debug)]
pub struct EyeblossomBlock {
    pub block: Block,
    pub eyeblossom_type: EyeblossomType,
}

/// What a flower does when it switches type.
#[derive(Clone, Copy, PartialEq, Eq, Structural, Debug)]
pub struct EyeblossomSwitch {
    /// The type it turns into.
    pub new_type: EyeblossomType,
    /// The state to set at its position.
    pub new_state: BlockState,
    /// The sound to play once the state was set.
    pub sound: SoundEvent,
}

/// The least corner of the area whose like flowers a switch wakes.
pub open spec fn area_lo(pos: BlockPos) -> BlockPos {
    pos.shifted(-3, -2, -3)
}

/// The greatest corner of the area whose like flowers a switch wakes.
pub open spec fn area_hi(pos: BlockPos) -> BlockPos {
    pos.shifted(3, 2, 3)
}

/// Whether the area around `pos` fits in the coordinate range.
pub open spec fn area_fits(pos: BlockPos) -> bool {
    pos.can_offset(-3, -2, -3) && pos.can_offset(3, 2, 3)
}

impl EyeblossomBlock {
    /// Creates a new eyeblossom behavior.
    pub fn new(block: Block, eyeblossom_type: EyeblossomType) -> (b: EyeblossomBlock)
        ensures
            b.block == block,
            b.eyeblossom_type == eyeblossom_type,
    {
        EyeblossomBlock { block, eyeblossom_type }
    }

    /// An eyeblossom survives on a block that supports vegetation.
    pub fn can_survive(&self, below_supports_vegetation: bool) -> (r: bool)
        ensures
            r == below_supports_vegetation,
    {
        below_supports_vegetation
    }

    /// The placed state: the block's default state where it can survive.
    pub fn get_state_for_placement(&self, survives_there: bool) -> (r: Option<BlockState>)
        ensures
            r == (if survives_there {
                Some(default_state_of(self.block))
            } else {
                None
            }),
    {
        if survives_there {
            Some(self.block.default_state())
        } else {
            None
        }
    }

    /// The type this flower turns into when the environment attribute says
    /// whether it should be open; `None` when it already agrees.
    pub fn state_change(&self, should_be_open: bool) -> (r: Option<EyeblossomType>)
        ensures
            r == change_for(self.eyeblossom_type, should_be_open),
    {
        if should_be_open == self.eyeblossom_type.is_open() {
            None
        } else {
            Some(self.eyeblossom_type.transform())
        }
    }

    /// What a tick does to this flower: nothing when the environment agrees
    /// with its type, else a switch into the other type, with the long sound
    /// on a random tick (`long_sound`) and the short one on a scheduled tick.
    pub fn switch_plan(&self, should_be_open: bool, long_sound: bool) -> (r: Option<
        EyeblossomSwitch,
    >)
        ensures
            r == (match change_for(self.eyeblossom_type, should_be_open) {
                None => None,
                Some(t) => Some(
                    EyeblossomSwitch {
                        new_type: t,
                        new_state: default_state_of(block_of(t)),
                        sound: switch_sound_of(t, long_sound),
                    },
                ),
            }),
    {
        match self.state_change(should_be_open) {
            None => None,
            Some(new_type) => {
                let sound = if long_sound {
                    new_type.long_switch_sound()
                } else {
                    new_type.short_switch_sound()
                };
                Some(
                    EyeblossomSwitch {
                        new_type,
                        new_state: new_type.block().default_state(),
                        sound,
                    },
                )
            },
        }
    }

    /// The positions whose flowers a switch at `pos` may wake: the box from
    /// three blocks below-west-north to three above-east-south (two along
    /// y), x running fastest, then y, then z.
    pub fn nearby_area(pos: BlockPos) -> (v: Vec<BlockPos>)
        requires
            area_fits(pos),
        ensures
            v.len() == 245,
            forall|i: int| 0 <= i < v.len() ==> #[trigger] v[i] == box_pos(area_lo(pos), area_hi(pos), i),
    {
        let lo = pos.offset(-3, -2, -3);
        let hi = pos.offset(3, 2, 3);
        assert(box_width(lo, hi) == 7 && box_height(lo, hi) == 5 && box_depth(lo, hi) == 7);
        assert(box_volume(lo, hi) == 245);
        between_closed(lo, hi)
    }

    /// The ticks a switch at `pos` schedules: for each position of `nearby`
    /// whose state was the flower's old state (`same_state`), a delay drawn
    /// between five and ten times its distance (rounded down); for the
    /// others none.
    pub fn nearby_tick_delays(pos: BlockPos, nearby: &Vec<BlockPos>, same_state: &Vec<bool>) -> (r:
        Vec<Option<i32>>)
        requires
            nearby.len() == same_state.len(),
            forall|i: int| 0 <= i < nearby.len() ==> near(pos, #[trigger] nearby[i]),
        ensures
            r.len() == nearby.len(),
            forall|i: int|
                0 <= i < r.len() ==> (#[trigger] r[i] is Some <==> same_state[i]),
            forall|i: int|
                0 <= i < r.len() && #[trigger] r[i] is Some ==> min_tick_delay(
                    distance_squared(pos, nearby[i]),
                ) <= r[i].unwrap() <= max_tick_delay(distance_squared(pos, nearby[i])),
    {
        let mut r: Vec<Option<i32>> = Vec::new();
        let mut i: usize = 0;
        while i < nearby.len()
            invariant
                nearby.len() == same_state.len(),
                forall|k: int| 0 <= k < nearby.len() ==> near(pos, #[trigger] nearby[k]),
                i <= nearby.len(),
                r.len() == i,
                forall|k: int| 0 <= k < r.len() ==> (#[trigger] r[k] is Some <==> same_state[k]),
                forall|k: int|
                    0 <= k < r.len() && #[trigger] r[k] is Some ==> min_tick_delay(
                        distance_squared(pos, nearby[k]),
                    ) <= r[k].unwrap() <= max_tick_delay(distance_squared(pos, nearby[k])),
            decreases nearby.len() - i,
        {
            if same_state[i] {
                let d: i32 = neighbor_tick_delay(pos, nearby[i]);
                r.push(Some(d));
            } else {
                r.push(None);
            }
            i = i + 1;
        }
        r
    }

    /// The effect a bee entering this flower gets: none in peaceful
    /// difficulty, on a block that is not bee-attractive, for an entity that
    /// is not a living bee, or for a bee already poisoned; else this type's
    /// effect for its duration at amplifier 0.
    pub fn bee_effect_on_entry(
        &self,
        difficulty: Difficulty,
        state_is_bee_attractive: bool,
        entity_is_bee: bool,
        entity_is_living: bool,
        entity_has_poison: bool,
    ) -> (r: Option<MobEffectInstance>)
        ensures
            r == (if difficulty == Difficulty::Peaceful || !state_is_bee_attractive
                || !entity_is_bee || !entity_is_living || entity_has_poison {
                None
            } else {
                Some(
                    MobEffectInstance {
                        effect: match self.eyeblossom_type {
                            EyeblossomType::Open => MobEffect::Blindness,
                            EyeblossomType::Closed => MobEffect::Nausea,
                        },
                        duration: match self.eyeblossom_type {
                            EyeblossomType::Open => 220i32,
                            EyeblossomType::Closed => 140i32,
                        },
                        amplifier: 0,
                    },
                )
            }),
    {
        let peaceful = match difficulty {
            Difficulty::Peaceful => true,
            _ => false,
        };
        if peaceful || !state_is_bee_attractive || !entity_is_bee {
            return None;
        }
        if !entity_is_living {
            return None;
        }
        if entity_has_poison {
            return None;
        }
        Some(
            MobEffectInstance {
                effect: self.eyeblossom_type.bee_effect(),
                duration: self.eyeblossom_type.bee_effect_duration(),
                amplifier: 0,
            },
        )
    }
}

/// A switch leaves the flower agreeing with its environment: asked again
/// with the same attribute, the new flower does not switch.
pub proof fn lemma_switch_settles(t: EyeblossomType, should_be_open: bool)
    ensures
        match change_for(t, should_be_open) {
            None => (t == EyeblossomType::Open) == should_be_open,
            Some(n) => (n == EyeblossomType::Open) == should_be_open && change_for(
                n,
                should_be_open,
            ) is None,
        },
{
}

} // verus!
