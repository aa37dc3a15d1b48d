use steel_core::eyeblossom::{EyeblossomBlock, EyeblossomType};
use steel_core::grass::GrassBlock;
use steel_core::mangrove_roots::MangroveRootsBlock;
use steel_core::spore_blossom::SporeBlossomBlock;
use steel_core::spreading_snowy::{SpreadTick, SpreadingSnowyBlock};
use steel_core::world::{Block, BlockPos, Direction, Fluid, FluidState};

fn no_fluid() -> FluidState {
    FluidState { fluid: Fluid::Empty, source: false, amount: 0 }
}

fn water_source() -> FluidState {
    Block::Water.default_state().get_fluid_state()
}

fn lava_source() -> FluidState {
    Block::Lava.default_state().get_fluid_state()
}

// Light that a full opaque block such as stone keeps from the block below.
const STONE_LIGHT_BLOCK: u8 = 15;
// Light that air keeps from the block below.
const AIR_LIGHT_BLOCK: u8 = 0;

// ---------------------------------------------------------------------------
// Scenarios of the original behaviors.

#[test]
fn eyeblossom_requires_vegetation_support() {
    let behavior = EyeblossomBlock::new(Block::ClosedEyeblossom, EyeblossomType::Closed);
    // Dirt supports vegetation, air does not.
    let dirt_supports_vegetation = true;
    let air_supports_vegetation = false;

    assert!(behavior.can_survive(dirt_supports_vegetation));
    assert!(!behavior.can_survive(air_supports_vegetation));
}

#[test]
fn grass_block_updates_snowy_state() {
    let behavior = GrassBlock::new(Block::GrassBlock);
    let non_snowy = Block::GrassBlock.default_state();
    // Snow is snow-tagged; air is not.
    let snowy = behavior.update_shape(non_snowy, Direction::Up, true);
    assert!(snowy.snowy);

    let cleared = behavior.update_shape(snowy, Direction::Up, false);
    assert!(!cleared.snowy);
}

#[test]
fn grass_block_turns_to_dirt_when_covered() {
    let behavior = GrassBlock::new(Block::GrassBlock);
    let pos = BlockPos::new(0, 64, 0);
    let above = Block::Stone.default_state();
    assert_eq!(pos.above(), BlockPos::new(0, 65, 0));

    let alive = SpreadingSnowyBlock::can_stay_alive(above, STONE_LIGHT_BLOCK);
    match behavior.spreading.tick_action(alive, 15) {
        SpreadTick::Decay(state) => assert_eq!(state.get_block(), Block::Dirt),
        _ => panic!("covered grass must decay"),
    }
}

#[test]
fn grass_block_bonemeal_requires_air_inside_build_height() {
    let behavior = GrassBlock::new(Block::GrassBlock);
    let pos = BlockPos::new(0, 64, 0);
    let air = Block::Air.default_state();

    assert!(behavior.is_valid_bonemeal_target(air, -64, 384, pos));
    assert!(!behavior.is_valid_bonemeal_target(Block::Stone.default_state(), -64, 384, pos));
    assert!(!behavior.is_valid_bonemeal_target(air, 0, 384, BlockPos::new(0, 383, 0)));
}

#[test]
fn placement_preserves_source_water() {
    let behavior = MangroveRootsBlock::new(Block::MangroveRoots);
    let wet_state = behavior
        .get_state_for_placement(water_source())
        .expect("mangrove roots should have a wet placement state");
    let dry_state = behavior
        .get_state_for_placement(no_fluid())
        .expect("mangrove roots should have a dry placement state");

    assert!(wet_state.waterlogged);
    assert!(!dry_state.waterlogged);
}

#[test]
fn waterlogged_neighbor_update_schedules_water_tick() {
    let behavior = MangroveRootsBlock::new(Block::MangroveRoots);
    let wet_state = Block::MangroveRoots.default_state().with_waterlogged(true);
    let dry_state = wet_state.with_waterlogged(false);

    let wet = behavior.update_shape(wet_state);
    let dry = behavior.update_shape(dry_state);
    assert_eq!(wet.state, wet_state);
    assert_eq!(dry.state, dry_state);
    assert!(wet.schedule_water_tick);
    assert!(!dry.schedule_water_tick);
}

#[test]
fn waterlogged_roots_contain_source_water() {
    let state = Block::MangroveRoots.default_state().with_waterlogged(true);

    let fluid = state.get_fluid_state();

    assert_eq!(fluid.fluid, Fluid::Water);
    assert!(fluid.is_source());
}

fn behavior() -> SporeBlossomBlock {
    SporeBlossomBlock::new(Block::SporeBlossom)
}

#[test]
fn survives_with_sturdy_ceiling() {
    // Stone above: a sturdy centre, not an unstable bottom centre; air here.
    assert!(behavior().can_survive(true, false, no_fluid()));
}

#[test]
fn does_not_survive_under_unstable_center_support() {
    // An oak fence gate above, on a level that calls every face sturdy.
    // The oak fence gate carries the unstable-bottom-centre tag.
    let oak_fence_gate_unstable = true;
    assert!(!behavior().can_survive(true, oak_fence_gate_unstable, no_fluid()));
}

#[test]
fn update_shape_removes_unsupported_block() {
    let state = Block::SporeBlossom.default_state();
    // An empty level: air above offers no sturdy face.
    let survives = behavior().can_survive(false, false, no_fluid());

    assert_eq!(
        behavior().update_shape(state, Direction::Up, survives),
        Block::Air.default_state()
    );
}

#[test]
fn side_updates_do_not_remove_block() {
    let state = Block::SporeBlossom.default_state();
    let survives = behavior().can_survive(false, false, no_fluid());

    assert_eq!(behavior().update_shape(state, Direction::North, survives), state);
}

#[test]
fn water_at_position_does_not_survive() {
    assert!(!behavior().can_survive(true, false, water_source()));
}

#[test]
fn lava_does_not_block_survival() {
    assert!(behavior().can_survive(true, false, lava_source()));
}

#[test]
fn can_stay_alive_matches_snow_fluid_and_light_rules() {
    let open = Block::Air.default_state();
    assert!(SpreadingSnowyBlock::can_stay_alive(open, AIR_LIGHT_BLOCK));

    let snow = Block::Snow.default_state().with_layers(1);
    assert!(SpreadingSnowyBlock::can_stay_alive(snow, 0));

    let water = Block::Water.default_state();
    assert!(!SpreadingSnowyBlock::can_stay_alive(water, 0));

    let solid = Block::Stone.default_state();
    assert!(!SpreadingSnowyBlock::can_stay_alive(solid, STONE_LIGHT_BLOCK));
}

#[test]
fn can_propagate_rejects_water_above_the_target() {
    let above = Block::Water.default_state();
    assert!(!SpreadingSnowyBlock::can_propagate(above, 0));
}
