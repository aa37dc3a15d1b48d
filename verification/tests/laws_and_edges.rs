use steel_core::eyeblossom::{
    isqrt, neighbor_tick_delay, tick_delay_bounds, Difficulty, EyeblossomBlock, EyeblossomType,
    MobEffect, SoundEvent, EYEBLOSSOM_OPEN_ATTRIBUTE,
};
use steel_core::flower_pot::FlowerPotBlock;
use steel_core::grass::{
    BonemealAction, BonemealEvent, BonemealRequest, BonemealSpread, BonemealStage, GrassBlock,
};
use steel_core::spore_blossom::SporeBlossomBlock;
use steel_core::spreading_snowy::{SpreadTick, SpreadingSnowyBlock};
use steel_core::world::{
    between_closed, is_outside_build_height, Block, BlockPos, Direction, Fluid, FluidState,
};

// ---------------------------------------------------------------------------
// Eyeblossom types.

#[test]
fn transform_twice_gives_back_the_type() {
    for t in [EyeblossomType::Open, EyeblossomType::Closed] {
        assert_eq!(t.transform().transform(), t);
        assert_ne!(t.transform().is_open(), t.is_open());
    }
}

#[test]
fn eyeblossom_type_tables() {
    assert!(EyeblossomType::Open.is_open());
    assert!(!EyeblossomType::Closed.is_open());
    assert_eq!(EyeblossomType::Open.block(), Block::OpenEyeblossom);
    assert_eq!(EyeblossomType::Closed.block(), Block::ClosedEyeblossom);
    assert_eq!(EyeblossomType::Open.long_switch_sound(), SoundEvent::BlockEyeblossomOpenLong);
    assert_eq!(EyeblossomType::Closed.long_switch_sound(), SoundEvent::BlockEyeblossomCloseLong);
    assert_eq!(EyeblossomType::Open.short_switch_sound(), SoundEvent::BlockEyeblossomOpen);
    assert_eq!(EyeblossomType::Closed.short_switch_sound(), SoundEvent::BlockEyeblossomClose);
    assert_eq!(EyeblossomType::Open.particle_color().rgb, 16_545_810);
    assert_eq!(EyeblossomType::Closed.particle_color().rgb, 6_250_335);
    assert_eq!(EyeblossomType::Open.bee_effect(), MobEffect::Blindness);
    assert_eq!(EyeblossomType::Closed.bee_effect(), MobEffect::Nausea);
    assert_eq!(EyeblossomType::Open.bee_effect_duration(), 220);
    assert_eq!(EyeblossomType::Closed.bee_effect_duration(), 140);
    assert_eq!(EYEBLOSSOM_OPEN_ATTRIBUTE, "minecraft:gameplay/eyeblossom_open");
}

#[test]
fn closed_flower_opens_at_night_with_long_sound_on_random_tick() {
    let closed = EyeblossomBlock::new(Block::ClosedEyeblossom, EyeblossomType::Closed);
    let plan = closed.switch_plan(true, true).expect("a closed flower opens at night");
    assert_eq!(plan.new_type, EyeblossomType::Open);
    assert_eq!(plan.new_state, Block::OpenEyeblossom.default_state());
    assert_eq!(plan.sound, SoundEvent::BlockEyeblossomOpenLong);
    assert_eq!(closed.switch_plan(false, true), None);

    let open = EyeblossomBlock::new(Block::OpenEyeblossom, EyeblossomType::Open);
    let plan = open.switch_plan(false, false).expect("an open flower closes by day");
    assert_eq!(plan.new_state.get_block(), Block::ClosedEyeblossom);
    assert_eq!(plan.sound, SoundEvent::BlockEyeblossomClose);
    assert_eq!(open.switch_plan(true, false), None);
}

#[test]
fn switched_flower_agrees_with_its_environment() {
    for t in [EyeblossomType::Open, EyeblossomType::Closed] {
        for should_be_open in [false, true] {
            let flower = EyeblossomBlock::new(t.block(), t);
            match flower.state_change(should_be_open) {
                None => assert_eq!(t.is_open(), should_be_open),
                Some(n) => {
                    assert_eq!(n.is_open(), should_be_open);
                    let next = EyeblossomBlock::new(n.block(), n);
                    assert_eq!(next.state_change(should_be_open), None);
                }
            }
        }
    }
}

#[test]
fn eyeblossom_placement_needs_survival() {
    let flower = EyeblossomBlock::new(Block::OpenEyeblossom, EyeblossomType::Open);
    assert_eq!(
        flower.get_state_for_placement(true),
        Some(Block::OpenEyeblossom.default_state())
    );
    assert_eq!(flower.get_state_for_placement(false), None);
}

#[test]
fn bee_gets_the_type_effect_only_when_all_conditions_hold() {
    let open = EyeblossomBlock::new(Block::OpenEyeblossom, EyeblossomType::Open);
    let effect = open
        .bee_effect_on_entry(Difficulty::Normal, true, true, true, false)
        .expect("a bee in an open eyeblossom is blinded");
    assert_eq!(effect.effect, MobEffect::Blindness);
    assert_eq!(effect.duration, 220);
    assert_eq!(effect.amplifier, 0);

    let closed = EyeblossomBlock::new(Block::ClosedEyeblossom, EyeblossomType::Closed);
    let effect = closed
        .bee_effect_on_entry(Difficulty::Hard, true, true, true, false)
        .expect("a bee in a closed eyeblossom gets nausea");
    assert_eq!(effect.effect, MobEffect::Nausea);
    assert_eq!(effect.duration, 140);

    assert_eq!(open.bee_effect_on_entry(Difficulty::Peaceful, true, true, true, false), None);
    assert_eq!(open.bee_effect_on_entry(Difficulty::Easy, false, true, true, false), None);
    assert_eq!(open.bee_effect_on_entry(Difficulty::Easy, true, false, true, false), None);
    assert_eq!(open.bee_effect_on_entry(Difficulty::Easy, true, true, false, false), None);
    assert_eq!(open.bee_effect_on_entry(Difficulty::Easy, true, true, true, true), None);
}

// ---------------------------------------------------------------------------
// Distances and tick delays.

#[test]
fn isqrt_is_the_floor_square_root() {
    assert_eq!(isqrt(0), 0);
    assert_eq!(isqrt(1), 1);
    assert_eq!(isqrt(24), 4);
    assert_eq!(isqrt(25), 5);
    assert_eq!(isqrt(75), 8);
    assert_eq!(isqrt(u32::MAX), 65535);
    for n in 0..5000u32 {
        let r = isqrt(n) as u64;
        assert!(r * r <= n as u64 && (n as u64) < (r + 1) * (r + 1));
    }
}

#[test]
fn delay_bounds_match_the_floating_point_formula() {
    let center = BlockPos::new(10, 64, -7);
    for dz in -3..=3 {
        for dy in -2..=2 {
            for dx in -3..=3 {
                let nearby = center.offset(dx, dy, dz);
                let distance = f64::from(dx * dx + dy * dy + dz * dz).sqrt();
                let expected = ((distance * 5.0) as i32, (distance * 10.0) as i32);
                assert_eq!(tick_delay_bounds(center, nearby), expected);
            }
        }
    }
    assert_eq!(tick_delay_bounds(center, center.offset(1, 0, 0)), (5, 10));
    assert_eq!(tick_delay_bounds(center, center.offset(3, 2, 3)), (23, 46));
}

#[test]
fn drawn_delays_stay_in_range_and_vary() {
    let center = BlockPos::new(0, 64, 0);
    let nearby = center.offset(3, 2, 3);
    let mut seen = std::collections::BTreeSet::new();
    for _ in 0..400 {
        let d = neighbor_tick_delay(center, nearby);
        assert!((23..=46).contains(&d));
        seen.insert(d);
    }
    assert!(seen.len() > 1);
    assert_eq!(neighbor_tick_delay(center, center), 0);
}

#[test]
fn nearby_area_lists_the_box_x_fastest() {
    let pos = BlockPos::new(5, 70, -2);
    let area = EyeblossomBlock::nearby_area(pos);
    assert_eq!(area.len(), 245);
    assert_eq!(area[0], BlockPos::new(2, 68, -5));
    assert_eq!(area[1], BlockPos::new(3, 68, -5));
    assert_eq!(area[7], BlockPos::new(2, 69, -5));
    assert_eq!(area[35], BlockPos::new(2, 68, -4));
    assert_eq!(area[244], BlockPos::new(8, 72, 1));
    assert!(area.contains(&pos));
}

#[test]
fn nearby_ticks_only_for_like_flowers() {
    let pos = BlockPos::new(0, 64, 0);
    let nearby = vec![pos.offset(1, 0, 0), pos.offset(-3, 2, 3), pos.offset(0, 1, 0)];
    let same = vec![true, false, true];
    let delays = EyeblossomBlock::nearby_tick_delays(pos, &nearby, &same);
    assert_eq!(delays.len(), 3);
    assert!(matches!(delays[0], Some(d) if (5..=10).contains(&d)));
    assert_eq!(delays[1], None);
    assert!(matches!(delays[2], Some(d) if (5..=10).contains(&d)));
}

#[test]
fn between_closed_single_and_line() {
    let p = BlockPos::new(-1, 2, 3);
    assert_eq!(between_closed(p, p), vec![p]);
    let line = between_closed(BlockPos::new(0, 0, 0), BlockPos::new(0, 0, 2));
    assert_eq!(
        line,
        vec![BlockPos::new(0, 0, 0), BlockPos::new(0, 0, 1), BlockPos::new(0, 0, 2)]
    );
}

// ---------------------------------------------------------------------------
// Flower pots.

#[test]
fn potted_eyeblossom_switches_pot() {
    let pot = FlowerPotBlock::new(Block::PottedClosedEyeblossom, Block::ClosedEyeblossom);
    assert_eq!(pot.get_state_for_placement(), Some(Block::PottedClosedEyeblossom.default_state()));
    let current = pot
        .potted_eyeblossom(Block::PottedClosedEyeblossom)
        .expect("the pot holds an eyeblossom");
    assert_eq!(current, EyeblossomType::Closed);
    let plan = FlowerPotBlock::switch_plan(current, true).expect("opens at night");
    assert_eq!(plan.new_type, EyeblossomType::Open);
    assert_eq!(plan.new_state, Block::PottedOpenEyeblossom.default_state());
    assert_eq!(plan.sound, SoundEvent::BlockEyeblossomOpenLong);
    assert_eq!(FlowerPotBlock::switch_plan(current, false), None);

    let plan = FlowerPotBlock::switch_plan(EyeblossomType::Open, false).expect("closes by day");
    assert_eq!(plan.new_state.get_block(), Block::PottedClosedEyeblossom);
    assert_eq!(plan.sound, SoundEvent::BlockEyeblossomCloseLong);
}

#[test]
fn other_pots_and_blocks_are_left_alone() {
    let pot = FlowerPotBlock::new(Block::Other(7), Block::Other(8));
    assert_eq!(pot.potted_eyeblossom(Block::Other(7)), None);
    let pot = FlowerPotBlock::new(Block::PottedOpenEyeblossom, Block::OpenEyeblossom);
    assert_eq!(pot.potted_eyeblossom(Block::Stone), None);
    assert_eq!(pot.potted_eyeblossom(Block::PottedOpenEyeblossom), Some(EyeblossomType::Open));
}

// ---------------------------------------------------------------------------
// Spreading snowy blocks.

#[test]
fn snowy_placement_and_side_updates() {
    let mycelium = SpreadingSnowyBlock::new(Block::Mycelium, Block::Dirt);
    assert!(mycelium.is_block(Block::Mycelium));
    assert!(!mycelium.is_block(Block::GrassBlock));
    assert!(mycelium.get_state_for_placement(true).snowy);
    assert!(!mycelium.get_state_for_placement(false).snowy);
    let snowy = Block::Mycelium.default_state().with_snowy(true);
    assert_eq!(SpreadingSnowyBlock::update_shape(snowy, Direction::North, false), snowy);
    let grass = GrassBlock::new(Block::GrassBlock);
    assert_eq!(
        grass.get_state_for_placement(true),
        Some(Block::GrassBlock.default_state().with_snowy(true))
    );
    assert_eq!(grass.bonemeal_action_type(), BonemealAction::NeighborSpreader);
}

#[test]
fn thick_snow_and_dark_blocks_kill() {
    let snow2 = Block::Snow.default_state().with_layers(2);
    assert!(!SpreadingSnowyBlock::can_stay_alive(snow2, 15));
    assert!(SpreadingSnowyBlock::can_stay_alive(snow2, 1));
    let waterlogged = Block::MangroveRoots.default_state().with_waterlogged(true);
    assert!(!SpreadingSnowyBlock::can_stay_alive(waterlogged, 0));
    assert!(SpreadingSnowyBlock::can_propagate(Block::Air.default_state(), 0));
}

#[test]
fn only_fluids_that_fill_the_block_kill() {
    let flowing = Block::Water.default_state().with_level(3);
    let fluid = flowing.get_fluid_state();
    assert_eq!(fluid.fluid, Fluid::Water);
    assert!(!fluid.is_source());
    assert_eq!(fluid.amount, 5);
    assert!(!fluid.is_full());
    // Thin flowing water falls through to the light rule.
    assert!(SpreadingSnowyBlock::can_stay_alive(flowing, 1));
    assert!(!SpreadingSnowyBlock::can_stay_alive(flowing, 15));
    // It is still water, so nothing spreads under it.
    assert!(!SpreadingSnowyBlock::can_propagate(flowing, 1));

    let falling = Block::Water.default_state().with_level(8);
    assert!(falling.get_fluid_state().is_full());
    assert!(!falling.get_fluid_state().is_source());
    assert!(!SpreadingSnowyBlock::can_stay_alive(falling, 1));

    let flowing_lava = Block::Lava.default_state().with_level(7);
    assert_eq!(flowing_lava.get_fluid_state().amount, 1);
    assert!(SpreadingSnowyBlock::can_propagate(flowing_lava, 1));
    assert!(Block::Lava.default_state().get_fluid_state().is_full());
}

#[test]
fn flowing_water_does_not_waterlog_or_hold_up_blossoms() {
    let roots = steel_core::mangrove_roots::MangroveRootsBlock::new(Block::MangroveRoots);
    let flowing = Block::Water.default_state().with_level(2).get_fluid_state();
    assert_eq!(roots.get_state_for_placement(flowing), Some(Block::MangroveRoots.default_state()));
    let blossom = SporeBlossomBlock::new(Block::SporeBlossom);
    assert!(!blossom.can_survive(true, false, flowing));
}

#[test]
fn tick_action_rests_in_the_dark_and_spreads_in_light() {
    let grass = SpreadingSnowyBlock::new(Block::GrassBlock, Block::Dirt);
    assert_eq!(grass.tick_action(true, 8), SpreadTick::Rest);
    assert_eq!(grass.tick_action(true, 9), SpreadTick::Spread);
    assert_eq!(grass.tick_action(false, 15), SpreadTick::Decay(Block::Dirt.default_state()));
}

#[test]
fn spread_candidates_lie_around_the_block_and_vary() {
    let pos = BlockPos::new(4, 64, -9);
    let mut seen = std::collections::BTreeSet::new();
    for _ in 0..100 {
        let candidates = SpreadingSnowyBlock::spread_candidates(pos);
        assert_eq!(candidates.len(), 4);
        for c in candidates {
            assert!((-1..=1).contains(&(c.x - pos.x)));
            assert!((-3..=1).contains(&(c.y - pos.y)));
            assert!((-1..=1).contains(&(c.z - pos.z)));
            seen.insert((c.x, c.y, c.z));
        }
    }
    assert!(seen.len() > 1);
}

#[test]
fn spread_candidate_maps_rolls_to_offsets() {
    let pos = BlockPos::new(4, 64, -9);
    assert_eq!(SpreadingSnowyBlock::spread_candidate(pos, 0, 0, 0), BlockPos::new(3, 61, -10));
    assert_eq!(SpreadingSnowyBlock::spread_candidate(pos, 1, 3, 1), pos);
    assert_eq!(SpreadingSnowyBlock::spread_candidate(pos, 2, 4, 2), BlockPos::new(5, 65, -8));
}

#[test]
fn spread_only_onto_the_base_block() {
    let grass = SpreadingSnowyBlock::new(Block::GrassBlock, Block::Dirt);
    assert_eq!(
        grass.spread_state(Block::Dirt, true, true),
        Some(Block::GrassBlock.default_state().with_snowy(true))
    );
    assert_eq!(grass.spread_state(Block::Dirt, false, false), None);
    assert_eq!(grass.spread_state(Block::Stone, true, false), None);
}

#[test]
fn cave_air_counts_as_air_for_bonemeal() {
    let grass = GrassBlock::new(Block::GrassBlock);
    let pos = BlockPos::new(0, 10, 0);
    assert!(Block::CaveAir.default_state().is_air());
    assert!(Block::VoidAir.default_state().is_air());
    assert!(!Block::Stone.default_state().is_air());
    assert!(grass.is_valid_bonemeal_target(Block::CaveAir.default_state(), -64, 384, pos));
}

#[test]
fn build_height_bounds() {
    assert!(!is_outside_build_height(-64, 384, -64));
    assert!(is_outside_build_height(-64, 384, -65));
    assert!(!is_outside_build_height(-64, 384, 319));
    assert!(is_outside_build_height(-64, 384, 320));
}

// ---------------------------------------------------------------------------
// Spore blossoms.

#[test]
fn spore_blossom_placement_needs_survival() {
    let b = SporeBlossomBlock::new(Block::SporeBlossom);
    assert_eq!(b.get_state_for_placement(true), Some(Block::SporeBlossom.default_state()));
    assert_eq!(b.get_state_for_placement(false), None);
    let state = Block::SporeBlossom.default_state();
    assert_eq!(b.update_shape(state, Direction::Up, true), state);
    assert_eq!(b.update_shape(state, Direction::Down, false), state);
}

// ---------------------------------------------------------------------------
// Bone meal on grass.

/// Drives the machine with a scripted world: every step is accepted when
/// `steps_ok`, every target is air inside the build height and not short
/// grass, and every roll is `roll`. Returns the requests made.
fn run_bonemeal(origin: BlockPos, steps_ok: bool, roll: i32) -> Vec<BonemealRequest> {
    let (mut s, mut req) = BonemealSpread::start(origin);
    let mut seen = Vec::new();
    loop {
        seen.push(req);
        let event = match req {
            BonemealRequest::RollWalk => BonemealEvent::WalkRolls { x: 2, y_sign: 2, y_scale: 2, z: 0 },
            BonemealRequest::InspectStep(_) => BonemealEvent::StepSeen {
                below_is_spreading: steps_ok,
                collision_full: false,
            },
            BonemealRequest::InspectTarget(_) => BonemealEvent::TargetSeen {
                is_short_grass: false,
                is_air: true,
                outside_build_height: false,
            },
            BonemealRequest::RollGrow | BonemealRequest::RollFeature => BonemealEvent::Rolled(roll),
            BonemealRequest::Grow(_)
            | BonemealRequest::PlaceBiomeFeature(_)
            | BonemealRequest::PlaceGrass(_) => BonemealEvent::Performed,
            BonemealRequest::Finish => break,
        };
        let (ns, nr) = s.advance(event);
        s = ns;
        req = nr;
    }
    assert_eq!(s.stage, BonemealStage::Done);
    seen
}

#[test]
fn bonemeal_places_128_features_when_every_walk_succeeds() {
    let origin = BlockPos::new(0, 65, 0);
    let requests = run_bonemeal(origin, true, 3);
    let placed = requests
        .iter()
        .filter(|r| matches!(r, BonemealRequest::PlaceGrass(_)))
        .count();
    assert_eq!(placed, 128);
    // Attempt j walks j / 16 steps of (+1, +1, -1): the farthest is 7 away.
    assert!(requests.contains(&BonemealRequest::PlaceGrass(origin.offset(7, 7, -7))));
    for r in &requests {
        let p = match r {
            BonemealRequest::InspectStep(p)
            | BonemealRequest::InspectTarget(p)
            | BonemealRequest::Grow(p)
            | BonemealRequest::PlaceBiomeFeature(p)
            | BonemealRequest::PlaceGrass(p) => *p,
            _ => continue,
        };
        assert!((p.x - origin.x).abs() <= 7 && (p.y - origin.y).abs() <= 7 && (p.z - origin.z).abs() <= 7);
    }
}

#[test]
fn bonemeal_walks_that_leave_grass_place_nothing() {
    let origin = BlockPos::new(0, 65, 0);
    let requests = run_bonemeal(origin, false, 0);
    // Only the first 16 attempts take no step; they place biome features.
    let biome = requests
        .iter()
        .filter(|r| matches!(r, BonemealRequest::PlaceBiomeFeature(_)))
        .count();
    assert_eq!(biome, 16);
    assert!(!requests.iter().any(|r| matches!(r, BonemealRequest::PlaceGrass(_))));
}

#[test]
fn bonemeal_grows_short_grass_on_a_zero_roll() {
    let origin = BlockPos::new(0, 65, 0);
    let (s, req) = BonemealSpread::start(origin);
    assert_eq!(req, BonemealRequest::InspectTarget(origin));
    let (s, req) = s.advance(BonemealEvent::TargetSeen {
        is_short_grass: true,
        is_air: false,
        outside_build_height: false,
    });
    assert_eq!(req, BonemealRequest::RollGrow);
    let (s, req) = s.advance(BonemealEvent::Rolled(0));
    assert_eq!(req, BonemealRequest::Grow(origin));
    // Not air: the attempt ends without a feature, and attempt 1 begins.
    let (s, req) = s.advance(BonemealEvent::Performed);
    assert_eq!(req, BonemealRequest::InspectTarget(origin));
    assert_eq!(s.attempt, 1);
}
