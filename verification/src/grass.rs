//! Grass blocks: a spreading snowy block over dirt that bone meal turns
//! into a patch of grass and flowers.
use crate::spreading_snowy::{snowy_shape, SpreadingSnowyBlock};
use crate::world::{
    default_state_of, is_air_block, is_outside_build_height, outside_build_height, Block, BlockPos, BlockState,
    Direction,
};
use vstd::prelude::*;

verus! {

/// Behavior for grass blocks.
#[derive(Clone, Copy, PartialEq, Eq, Structural, Debug)]
pub struct GrassBlock {
    pub spreading: SpreadingSnowyBlock,
}

/// How bone meal acts on a block.
#[derive(Clone, Copy, PartialEq, Eq, Structural, Debug)]
pub enum BonemealAction {
    /// Bone meal spreads to the neighbourhood of the block.
    NeighborSpreader,
}

impl GrassBlock {
    /// Creates a new grass block behavior, decaying to and spreading onto
    /// dirt.
    pub fn new(block: Block) -> (g: GrassBlock)
        ensures
            g.spreading.block == block,
            g.spreading.base_block == Block::Dirt,
    {
        GrassBlock { spreading: SpreadingSnowyBlock::new(block, Block::Dirt) }
    }

    /// The placed state: snowy when a snow-tagged block sits above.
    pub fn get_state_for_placement(&self, above_is_snow: bool) -> (r: Option<BlockState>)
        ensures
            r == Some(BlockState { snowy: above_is_snow, ..default_state_of(self.spreading.block) }),
    {
        Some(self.spreading.get_state_for_placement(above_is_snow))
    }

    /// A neighbour change from above sets `snowy` to whether the new block
    /// above is snow-tagged.
    pub fn update_shape(&self, state: BlockState, direction: Direction, neighbor_is_snow: bool) -> (s:
        BlockState)
        ensures
            s == snowy_shape(state, direction, neighbor_is_snow),
    {
        SpreadingSnowyBlock::update_shape(state, direction, neighbor_is_snow)
    }

    /// Bone meal works on grass when the block above is an air block inside the
    /// build height of a level from `min_y` that is `height` layers tall.
    pub fn is_valid_bonemeal_target(&self, above_state: BlockState, min_y: i32, height: i32, pos: BlockPos) -> (r: bool)
        requires
            pos.y < i32::MAX,
        ensures
            r == (is_air_block(above_state.block) && !outside_build_height(
                min_y as int,
                height as int,
                pos.y + 1,
            )),
    {
        let above = pos.above();
        above_state.is_air() && !is_outside_build_height(min_y, height, above.y)
    }

    /// Bone meal spreads to the neighbourhood of a grass block.
    pub fn bonemeal_action_type(&self) -> (a: BonemealAction)
        ensures
            a == BonemealAction::NeighborSpreader,
    {
        BonemealAction::NeighborSpreader
    }
}

// ---------------------------------------------------------------------------
// Bone meal on grass, as a machine that the caller drives: it performs each
// action the machine asks for and hands back what it saw or rolled.
//
// Bone meal makes 128 attempts. Attempt `j` starts at the block above the
// grass and takes `j / 16` random steps; each step must land on a block that
// sits on this grass block and has no full collision shape, else the attempt
// ends. Where the walk ends, short grass is bone-mealed in turn with chance
// 1/10; then, if the spot is air inside the build height, a flower feature
// of the biome is placed with chance 1/8, grass otherwise.

/// Where the machine stands within an attempt.
#[derive(Clone, Copy, PartialEq, Eq, Structural, Debug)]
pub enum BonemealStage {
    /// Waiting for the rolls of the next step.
    Walk,
    /// Waiting for what the caller saw where the step landed.
    Inspect,
    /// Waiting for what the caller saw at the end of the walk.
    Target,
    /// Waiting for the 1-in-10 roll for growing the short grass found;
    /// `open` tells whether the target is air inside the build height.
    GrowRoll { open: bool },
    /// Waiting until the caller bone-mealed the short grass found.
    Growing { open: bool },
    /// Waiting for the 1-in-8 roll that picks a biome flower over grass.
    FeatureRoll,
    /// Waiting until the caller placed the feature.
    Placing,
    /// All attempts made.
    Done,
}

/// What the caller hands back.
#[derive(Clone, Copy, PartialEq, Eq, Structural, Debug)]
pub enum BonemealEvent {
    /// Four rolls in `0..3`, drawn in this order, for one step: the x
    /// move, the sign and the scale of the y move, the z move.
    WalkRolls { x: i32, y_sign: i32, y_scale: i32, z: i32 },
    /// At the landing position: whether the block below is this spreading
    /// block, and whether the state there has a full collision shape.
    StepSeen { below_is_spreading: bool, collision_full: bool },
    /// At the end of the walk: whether the state is short grass, is air, and
    /// whether the position is outside the build height.
    TargetSeen { is_short_grass: bool, is_air: bool, outside_build_height: bool },
    /// A roll: in `0..10` for growing, in `0..8` for the feature kind.
    Rolled(i32),
    /// The caller performed the action asked for.
    Performed,
}

/// What the machine asks the caller to do next.
#[derive(Clone, Copy, PartialEq, Eq, Structural, Debug)]
pub enum BonemealRequest {
    /// Draw the four rolls of a step.
    RollWalk,
    /// Look at the landing position of a step.
    InspectStep(BlockPos),
    /// Look at the end of the walk.
    InspectTarget(BlockPos),
    /// Draw the 1-in-10 roll for growing.
    RollGrow,
    /// Bone-meal the short grass at this position if it is a valid target.
    Grow(BlockPos),
    /// Draw the 1-in-8 roll for the feature kind.
    RollFeature,
    /// Place a random flower feature of the biome here.
    PlaceBiomeFeature(BlockPos),
    /// Place the grass feature here.
    PlaceGrass(BlockPos),
    /// Bone meal is done.
    Finish,
}

/// The state of one bone-meal application.
#[derive(Clone, Copy, PartialEq, Eq, Structural, Debug)]
pub struct BonemealSpread {
    /// The block above the grass: where every walk starts.
    pub origin: BlockPos,
    /// The attempt under way, from 0 to 128.
    pub attempt: u32,
    /// The steps of this attempt's walk taken so far.
    pub steps: u32,
    /// Where the walk stands.
    pub pos: BlockPos,
    pub stage: BonemealStage,
}

/// Number of attempts bone meal makes on grass.
pub open spec fn bonemeal_attempts() -> int {
    128
}

/// Number of walk steps of attempt `attempt`.
pub open spec fn walk_length(attempt: int) -> int {
    attempt / 16
}

/// `v / 2` rounded towards zero, as integer division does in Rust.
pub open spec fn half_toward_zero(v: int) -> int {
    if v >= 0 {
        v / 2
    } else {
        -((-v) / 2)
    }
}

/// The move of one walk step from its four rolls.
pub open spec fn walk_move(x: int, y_sign: int, y_scale: int, z: int) -> (int, int, int) {
    (x - 1, half_toward_zero((y_sign - 1) * y_scale), z - 1)
}

/// Whether `p` lies within `k` blocks of `o` along each axis.
pub open spec fn within(o: BlockPos, p: BlockPos, k: int) -> bool {
    &&& -k <= p.x - o.x <= k
    &&& -k <= p.y - o.y <= k
    &&& -k <= p.z - o.z <= k
}

/// Whether every walk from `origin` stays inside the coordinate range.
pub open spec fn origin_fits(origin: BlockPos) -> bool {
    origin.can_offset(-8, -8, -8) && origin.can_offset(8, 8, 8)
}

/// The state and request that open attempt `attempt`.
pub open spec fn begin_attempt(origin: BlockPos, attempt: int) -> (BonemealSpread, BonemealRequest) {
    if attempt >= bonemeal_attempts() {
        (
            BonemealSpread {
                origin,
                attempt: attempt as u32,
                steps: 0,
                pos: origin,
                stage: BonemealStage::Done,
            },
            BonemealRequest::Finish,
        )
    } else if 0 < walk_length(attempt) {
        (
            BonemealSpread {
                origin,
                attempt: attempt as u32,
                steps: 0,
                pos: origin,
                stage: BonemealStage::Walk,
            },
            BonemealRequest::RollWalk,
        )
    } else {
        (
            BonemealSpread {
                origin,
                attempt: attempt as u32,
                steps: 0,
                pos: origin,
                stage: BonemealStage::Target,
            },
            BonemealRequest::InspectTarget(origin),
        )
    }
}

/// After the grass at the target had its chance to grow: on to the feature
/// roll when the target is open, else to the next attempt.
pub open spec fn after_grow(s: BonemealSpread, open: bool) -> (BonemealSpread, BonemealRequest) {
    if open {
        (BonemealSpread { stage: BonemealStage::FeatureRoll, ..s }, BonemealRequest::RollFeature)
    } else {
        begin_attempt(s.origin, s.attempt + 1)
    }
}

/// Whether the machine in state `s` takes event `e`.
pub open spec fn accepts(s: BonemealSpread, e: BonemealEvent) -> bool {
    match (s.stage, e) {
        (BonemealStage::Walk, BonemealEvent::WalkRolls { x, y_sign, y_scale, z }) => {
            &&& 0 <= x <= 2
            &&& 0 <= y_sign <= 2
            &&& 0 <= y_scale <= 2
            &&& 0 <= z <= 2
        },
        (BonemealStage::Inspect, BonemealEvent::StepSeen { .. }) => true,
        (BonemealStage::Target, BonemealEvent::TargetSeen { .. }) => true,
        (BonemealStage::GrowRoll { .. }, BonemealEvent::Rolled(_)) => true,
        (BonemealStage::Growing { .. }, BonemealEvent::Performed) => true,
        (BonemealStage::FeatureRoll, BonemealEvent::Rolled(_)) => true,
        (BonemealStage::Placing, BonemealEvent::Performed) => true,
        _ => false,
    }
}

/// The next state and request of the machine in state `s` on event `e`.
pub open spec fn next(s: BonemealSpread, e: BonemealEvent) -> (BonemealSpread, BonemealRequest) {
    match (s.stage, e) {
        (BonemealStage::Walk, BonemealEvent::WalkRolls { x, y_sign, y_scale, z }) => {
            let m = walk_move(x as int, y_sign as int, y_scale as int, z as int);
            let p = s.pos.shifted(m.0, m.1, m.2);
            (
                BonemealSpread { pos: p, stage: BonemealStage::Inspect, ..s },
                BonemealRequest::InspectStep(p),
            )
        },
        (BonemealStage::Inspect, BonemealEvent::StepSeen { below_is_spreading, collision_full }) => {
            if !below_is_spreading || collision_full {
                begin_attempt(s.origin, s.attempt + 1)
            } else if s.steps + 1 < walk_length(s.attempt as int) {
                (
                    BonemealSpread {
                        steps: (s.steps + 1) as u32,
                        stage: BonemealStage::Walk,
                        ..s
                    },
                    BonemealRequest::RollWalk,
                )
            } else {
                (
                    BonemealSpread {
                        steps: (s.steps + 1) as u32,
                        stage: BonemealStage::Target,
                        ..s
                    },
                    BonemealRequest::InspectTarget(s.pos),
                )
            }
        },
        (
            BonemealStage::Target,
            BonemealEvent::TargetSeen { is_short_grass, is_air, outside_build_height },
        ) => {
            let open = is_air && !outside_build_height;
            if is_short_grass {
                (
                    BonemealSpread { stage: BonemealStage::GrowRoll { open }, ..s },
                    BonemealRequest::RollGrow,
                )
            } else {
                after_grow(s, open)
            }
        },
        (BonemealStage::GrowRoll { open }, BonemealEvent::Rolled(r)) => {
            if r == 0 {
                (
                    BonemealSpread { stage: BonemealStage::Growing { open }, ..s },
                    BonemealRequest::Grow(s.pos),
                )
            } else {
                after_grow(s, open)
            }
        },
        (BonemealStage::Growing { open }, BonemealEvent::Performed) => after_grow(s, open),
        (BonemealStage::FeatureRoll, BonemealEvent::Rolled(r)) => {
            (
                BonemealSpread { stage: BonemealStage::Placing, ..s },
                if r == 0 {
                    BonemealRequest::PlaceBiomeFeature(s.pos)
                } else {
                    BonemealRequest::PlaceGrass(s.pos)
                },
            )
        },
        (BonemealStage::Placing, BonemealEvent::Performed) => begin_attempt(
            s.origin,
            s.attempt + 1,
        ),
        _ => (s, BonemealRequest::Finish),
    }
}

/// The invariant of the machine: attempts and steps within their counts,
/// and the walk no farther from its origin than the steps it took.
pub open spec fn bonemeal_wf(s: BonemealSpread) -> bool {
    &&& origin_fits(s.origin)
    &&& s.attempt <= bonemeal_attempts()
    &&& match s.stage {
        BonemealStage::Done => s.attempt == bonemeal_attempts(),
        BonemealStage::Walk => {
            &&& s.attempt < bonemeal_attempts()
            &&& s.steps < walk_length(s.attempt as int)
            &&& within(s.origin, s.pos, s.steps as int)
        },
        BonemealStage::Inspect => {
            &&& s.attempt < bonemeal_attempts()
            &&& s.steps < walk_length(s.attempt as int)
            &&& within(s.origin, s.pos, s.steps + 1)
        },
        _ => {
            &&& s.attempt < bonemeal_attempts()
            &&& s.steps == walk_length(s.attempt as int)
            &&& within(s.origin, s.pos, s.steps as int)
        },
    }
}

/// How far the machine still has to go: it falls with every event taken.
pub open spec fn remaining_work(s: BonemealSpread) -> int {
    let rank = match s.stage {
        BonemealStage::Walk => 2 * s.steps,
        BonemealStage::Inspect => 2 * s.steps + 1,
        BonemealStage::Target => 16,
        BonemealStage::GrowRoll { .. } => 17,
        BonemealStage::Growing { .. } => 18,
        BonemealStage::FeatureRoll => 19,
        BonemealStage::Placing => 20,
        BonemealStage::Done => 0,
    };
    match s.stage {
        BonemealStage::Done => 0,
        _ => (bonemeal_attempts() - s.attempt) * 32 - rank,
    }
}

/// The position a request names, if any.
pub open spec fn request_pos(r: BonemealRequest) -> Option<BlockPos> {
    match r {
        BonemealRequest::InspectStep(p) => Some(p),
        BonemealRequest::InspectTarget(p) => Some(p),
        BonemealRequest::Grow(p) => Some(p),
        BonemealRequest::PlaceBiomeFeature(p) => Some(p),
        BonemealRequest::PlaceGrass(p) => Some(p),
        _ => None,
    }
}

proof fn lemma_walk_move_small(x: int, y_sign: int, y_scale: int, z: int)
    requires
        0 <= x <= 2,
        0 <= y_sign <= 2,
        0 <= y_scale <= 2,
        0 <= z <= 2,
    ensures
        -1 <= walk_move(x, y_sign, y_scale, z).0 <= 1,
        -1 <= walk_move(x, y_sign, y_scale, z).1 <= 1,
        -1 <= walk_move(x, y_sign, y_scale, z).2 <= 1,
{
    assert(-2 <= (y_sign - 1) * y_scale <= 2) by (nonlinear_arith)
        requires
            0 <= y_sign <= 2,
            0 <= y_scale <= 2,
    ;
}

proof fn lemma_begin_attempt_wf(origin: BlockPos, attempt: int)
    requires
        origin_fits(origin),
        0 <= attempt <= bonemeal_attempts(),
    ensures
        bonemeal_wf(begin_attempt(origin, attempt).0),
        begin_attempt(origin, attempt).0.origin == origin,
        begin_attempt(origin, attempt).0.attempt == attempt,
        attempt < bonemeal_attempts() ==> remaining_work(begin_attempt(origin, attempt).0) >= (
        bonemeal_attempts() - attempt) * 32 - 16,
        request_pos(begin_attempt(origin, attempt).1) matches Some(p) ==> p == origin,
        (begin_attempt(origin, attempt).1 == BonemealRequest::Finish) == (attempt
            == bonemeal_attempts()),
{
}

/// Bone meal starts with attempt 0 at the block above the grass; the
/// machine it starts satisfies its invariant.
pub proof fn lemma_start_wf(origin: BlockPos)
    requires
        origin_fits(origin),
    ensures
        bonemeal_wf(begin_attempt(origin, 0).0),
        begin_attempt(origin, 0).1 == BonemealRequest::InspectTarget(origin),
{
    lemma_begin_attempt_wf(origin, 0);
}

/// Every event the machine takes keeps its invariant, strictly lowers the
/// work that remains, and names only positions within seven blocks of the
/// start along each axis; it asks to finish exactly when it is done.
pub proof fn lemma_bonemeal_step(s: BonemealSpread, e: BonemealEvent)
    requires
        bonemeal_wf(s),
        accepts(s, e),
    ensures
        bonemeal_wf(next(s, e).0),
        next(s, e).0.origin == s.origin,
        0 <= remaining_work(next(s, e).0) < remaining_work(s),
        request_pos(next(s, e).1) matches Some(p) ==> within(s.origin, p, 7),
        (next(s, e).1 == BonemealRequest::Finish) == (next(s, e).0.stage == BonemealStage::Done),
{
    assert(s.attempt < 128);
    assert(walk_length(s.attempt as int) <= 7);
    match (s.stage, e) {
        (BonemealStage::Walk, BonemealEvent::WalkRolls { x, y_sign, y_scale, z }) => {
            lemma_walk_move_small(x as int, y_sign as int, y_scale as int, z as int);
        },
        _ => {},
    }
    if s.attempt + 1 <= bonemeal_attempts() {
        lemma_begin_attempt_wf(s.origin, s.attempt + 1);
    }
}

/// A walk step that lands where the block below is not this spreading
/// block, or on a state with a full collision shape, abandons the attempt:
/// the machine goes back to the start with the next attempt, walking again
/// if that attempt walks, asking to finish after the last one. A step that
/// lands on a free spot over this block keeps the attempt and counts the
/// step.
pub proof fn lemma_step_outcome(s: BonemealSpread, below_is_spreading: bool, collision_full: bool)
    requires
        bonemeal_wf(s),
        s.stage == BonemealStage::Inspect,
    ensures
        ({
            let r = next(
                s,
                BonemealEvent::StepSeen { below_is_spreading, collision_full },
            );
            &&& (!below_is_spreading || collision_full) ==> {
                &&& r.0.attempt == s.attempt + 1
                &&& r.0.steps == 0
                &&& r.0.pos == s.origin
                &&& r.0.origin == s.origin
                &&& s.attempt + 1 == 128 ==> r.0.stage == BonemealStage::Done && r.1
                    == BonemealRequest::Finish
                &&& 16 <= s.attempt + 1 < 128 ==> r.0.stage == BonemealStage::Walk && r.1
                    == BonemealRequest::RollWalk
            }
            &&& (below_is_spreading && !collision_full) ==> {
                &&& r.0.attempt == s.attempt
                &&& r.0.steps == s.steps + 1
                &&& r.0.pos == s.pos
                &&& r.0.stage == BonemealStage::Walk || r.0.stage == BonemealStage::Target
            }
        }),
{
    assert(s.attempt < 128);
    assert(s.attempt / 16 >= 1);
    assert(16 <= s.attempt + 1 ==> (s.attempt + 1) / 16 >= 1);
}

/// How many feature placements a request asks for: one for a biome flower
/// or the grass feature, none otherwise.
pub open spec fn placements(r: BonemealRequest) -> int {
    match r {
        BonemealRequest::PlaceBiomeFeature(_) => 1,
        BonemealRequest::PlaceGrass(_) => 1,
        _ => 0,
    }
}

/// Whether the machine in state `s` takes every event of `es` in turn.
pub open spec fn run_accepted(s: BonemealSpread, es: Seq<BonemealEvent>) -> bool
    decreases es.len(),
{
    es.len() == 0 || (accepts(s, es[0]) && run_accepted(next(s, es[0]).0, es.drop_first()))
}

/// The state after the events `es` from state `s`, and the number of feature
/// placements asked for on the way.
pub open spec fn run_from(s: BonemealSpread, es: Seq<BonemealEvent>) -> (BonemealSpread, int)
    decreases es.len(),
{
    if es.len() == 0 {
        (s, 0)
    } else {
        let step = next(s, es[0]);
        let rest = run_from(step.0, es.drop_first());
        (rest.0, rest.1 + placements(step.1))
    }
}

/// Whether every request made on the events `es` from state `s` names, if
/// any, a position within seven blocks of the start along each axis.
pub open spec fn run_stays_near(s: BonemealSpread, es: Seq<BonemealEvent>) -> bool
    decreases es.len(),
{
    es.len() == 0 || ({
        let step = next(s, es[0]);
        &&& request_pos(step.1) matches Some(p) ==> within(s.origin, p, 7)
        &&& run_stays_near(step.0, es.drop_first())
    })
}

/// 1 while a placement asked for is pending (the machine waits in
/// `Placing`), else 0.
pub open spec fn placing(s: BonemealSpread) -> int {
    if s.stage == BonemealStage::Placing {
        1
    } else {
        0
    }
}

proof fn lemma_run_counts(s: BonemealSpread, es: Seq<BonemealEvent>)
    requires
        bonemeal_wf(s),
        run_accepted(s, es),
    ensures
        bonemeal_wf(run_from(s, es).0),
        run_from(s, es).0.origin == s.origin,
        s.attempt <= run_from(s, es).0.attempt,
        run_from(s, es).1 + placing(s) <= run_from(s, es).0.attempt - s.attempt + placing(
            run_from(s, es).0,
        ),
        run_stays_near(s, es),
    decreases es.len(),
{
    if es.len() > 0 {
        let e = es[0];
        lemma_bonemeal_step(s, e);
        if s.attempt + 1 <= bonemeal_attempts() {
            lemma_begin_attempt_wf(s.origin, s.attempt + 1);
        }
        let step = next(s, e);
        assert(s.attempt <= step.0.attempt);
        assert(placements(step.1) + placing(s) <= step.0.attempt - s.attempt + placing(step.0));
        lemma_run_counts(step.0, es.drop_first());
    }
}

/// A bone-meal run from its start asks for at most one feature placement
/// per attempt it began, so at most 128 in all; and every position it asks
/// the caller to inspect, bone-meal or place a feature at lies within seven
/// blocks of the block above the grass along each axis.
pub proof fn lemma_bonemeal_run(origin: BlockPos, es: Seq<BonemealEvent>)
    requires
        origin_fits(origin),
        run_accepted(begin_attempt(origin, 0).0, es),
    ensures
        ({
            let end = run_from(begin_attempt(origin, 0).0, es);
            &&& bonemeal_wf(end.0)
            &&& end.1 <= end.0.attempt + placing(end.0)
            &&& end.1 <= bonemeal_attempts()
        }),
        run_stays_near(begin_attempt(origin, 0).0, es),
{
    lemma_start_wf(origin);
    lemma_run_counts(begin_attempt(origin, 0).0, es);
}

impl BonemealSpread {
    /// Starts bone meal on the grass below `origin`.
    pub fn start(origin: BlockPos) -> (r: (BonemealSpread, BonemealRequest))
        requires
            origin_fits(origin),
        ensures
            r == begin_attempt(origin, 0),
            bonemeal_wf(r.0),
    {
        proof {
            lemma_start_wf(origin);
        }
        (
            BonemealSpread {
                origin,
                attempt: 0,
                steps: 0,
                pos: origin,
                stage: BonemealStage::Target,
            },
            BonemealRequest::InspectTarget(origin),
        )
    }

    fn begin(origin: BlockPos, attempt: u32) -> (r: (BonemealSpread, BonemealRequest))
        requires
            origin_fits(origin),
            attempt <= 128,
        ensures
            r == begin_attempt(origin, attempt as int),
    {
        if attempt >= 128 {
            (
                BonemealSpread { origin, attempt, steps: 0, pos: origin, stage: BonemealStage::Done },
                BonemealRequest::Finish,
            )
        } else if 0 < attempt / 16 {
            (
                BonemealSpread { origin, attempt, steps: 0, pos: origin, stage: BonemealStage::Walk },
                BonemealRequest::RollWalk,
            )
        } else {
            (
                BonemealSpread {
                    origin,
                    attempt,
                    steps: 0,
                    pos: origin,
                    stage: BonemealStage::Target,
                },
                BonemealRequest::InspectTarget(origin),
            )
        }
    }

    fn grown(self, open: bool) -> (r: (BonemealSpread, BonemealRequest))
        requires
            bonemeal_wf(self),
            self.stage != BonemealStage::Done,
        ensures
            r == after_grow(self, open),
    {
        if open {
            (BonemealSpread { stage: BonemealStage::FeatureRoll, ..self }, BonemealRequest::RollFeature)
        } else {
            Self::begin(self.origin, self.attempt + 1)
        }
    }

    /// Takes the event the caller hands back and tells what to do next.
    pub fn advance(self, e: BonemealEvent) -> (r: (BonemealSpread, BonemealRequest))
        requires
            bonemeal_wf(self),
            accepts(self, e),
        ensures
            r == next(self, e),
            bonemeal_wf(r.0),
    {
        proof {
            lemma_bonemeal_step(self, e);
        }
        let s = self;
        match (s.stage, e) {
            (BonemealStage::Walk, BonemealEvent::WalkRolls { x, y_sign, y_scale, z }) => {
                proof {
                    lemma_walk_move_small(x as int, y_sign as int, y_scale as int, z as int);
                }
                let v: i32 = (y_sign - 1) * y_scale;
                let dy: i32 = if v >= 0 {
                    v / 2
                } else {
                    -((-v) / 2)
                };
                let p = s.pos.offset(x - 1, dy, z - 1);
                (BonemealSpread { pos: p, stage: BonemealStage::Inspect, ..s }, BonemealRequest::InspectStep(p))
            },
            (BonemealStage::Inspect, BonemealEvent::StepSeen { below_is_spreading, collision_full }) => {
                if !below_is_spreading || collision_full {
                    Self::begin(s.origin, s.attempt + 1)
                } else if s.steps + 1 < s.attempt / 16 {
                    (
                        BonemealSpread { steps: s.steps + 1, stage: BonemealStage::Walk, ..s },
                        BonemealRequest::RollWalk,
                    )
                } else {
                    (
                        BonemealSpread { steps: s.steps + 1, stage: BonemealStage::Target, ..s },
                        BonemealRequest::InspectTarget(s.pos),
                    )
                }
            },
            (
                BonemealStage::Target,
                BonemealEvent::TargetSeen { is_short_grass, is_air, outside_build_height },
            ) => {
                let open = is_air && !outside_build_height;
                if is_short_grass {
                    (BonemealSpread { stage: BonemealStage::GrowRoll { open }, ..s }, BonemealRequest::RollGrow)
                } else {
                    s.grown(open)
                }
            },
            (BonemealStage::GrowRoll { open }, BonemealEvent::Rolled(r)) => {
                if r == 0 {
                    (
                        BonemealSpread { stage: BonemealStage::Growing { open }, ..s },
                        BonemealRequest::Grow(s.pos),
                    )
                } else {
                    s.grown(open)
                }
            },
            (BonemealStage::Growing { open }, BonemealEvent::Performed) => s.grown(open),
            (BonemealStage::FeatureRoll, BonemealEvent::Rolled(r)) => {
                (
                    BonemealSpread { stage: BonemealStage::Placing, ..s },
                    if r == 0 {
                        BonemealRequest::PlaceBiomeFeature(s.pos)
                    } else {
                        BonemealRequest::PlaceGrass(s.pos)
                    },
                )
            },
            (BonemealStage::Placing, BonemealEvent::Performed) => Self::begin(s.origin, s.attempt + 1),
            _ => (s, BonemealRequest::Finish),
        }
    }
}

} // verus!
