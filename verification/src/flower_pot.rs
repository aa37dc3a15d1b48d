//! Flower pots, and the potted eyeblossoms that open and close in them.
use crate::eyeblossom::{change_for, switch_sound_of, EyeblossomType, SoundEvent};
use crate::world::{default_state_of, Block, BlockState};
use vstd::prelude::*;

verus! {

/// Behavior for flower pots, including the two potted Eyeblossom variants.
#[derive(Clone, Copy, PartialEq, Eq, Structural, Debug)]
pub struct FlowerPotBlock {
    /// The pot block itself.
    pub block: Block,
    /// The block planted in the pot.
    pub potted: Block,
}

/// What a potted eyeblossom does when it switches type.
#[derive(Clone, Copy, PartialEq, Eq, Structural, Debug)]
pub struct PotSwitch {
    /// The type it turns into.
    pub new_type: EyeblossomType,
    /// The pot state to set at its position.
    pub new_state: BlockState,
    /// The sound to play once the state was set.
    pub sound: SoundEvent,
}

/// The pot that holds an eyeblossom of type `t`.
pub open spec fn potted_block_of(t: EyeblossomType) -> Block {
    match t {
        EyeblossomType::Open => Block::PottedOpenEyeblossom,
        EyeblossomType::Closed => Block::PottedClosedEyeblossom,
    }
}

impl FlowerPotBlock {
    /// Creates a flower pot behavior for its contained block.
    pub fn new(block: Block, potted: Block) -> (b: FlowerPotBlock)
        ensures
            b.block == block,
            b.potted == potted,
    {
        FlowerPotBlock { block, potted }
    }

    /// A pot is placed in its default state.
    pub fn get_state_for_placement(&self) -> (r: Option<BlockState>)
        ensures
            r == Some(default_state_of(self.block)),
    {
        Some(self.block.default_state())
    }

    /// The eyeblossom type growing in this pot when a random tick reaches a
    /// state of this pot's block; `None` for another block, or for a pot
    /// that holds no eyeblossom.
    pub fn potted_eyeblossom(&self, ticked_block: Block) -> (r: Option<EyeblossomType>)
        ensures
            r == (if ticked_block != self.block {
                None
            } else if self.potted == Block::OpenEyeblossom {
                Some(EyeblossomType::Open)
            } else if self.potted == Block::ClosedEyeblossom {
                Some(EyeblossomType::Closed)
            } else {
                None
            }),
    {
        if ticked_block != self.block {
            return None;
        }
        match self.potted {
            Block::OpenEyeblossom => Some(EyeblossomType::Open),
            Block::ClosedEyeblossom => Some(EyeblossomType::Closed),
            _ => None,
        }
    }

    /// What a random tick does to a pot holding an eyeblossom of type
    /// `current`: nothing when the environment attribute agrees with it,
    /// else a switch to the pot of the other type with its long sound.
    pub fn switch_plan(current: EyeblossomType, should_be_open: bool) -> (r: Option<PotSwitch>)
        ensures
            r == (match change_for(current, should_be_open) {
                None => None,
                Some(t) => Some(
                    PotSwitch {
                        new_type: t,
                        new_state: default_state_of(potted_block_of(t)),
                        sound: switch_sound_of(t, true),
                    },
                ),
            }),
    {
        if should_be_open == current.is_open() {
            return None;
        }
        let new_type = current.transform();
        let new_block = if new_type.is_open() {
            Block::PottedOpenEyeblossom
        } else {
            Block::PottedClosedEyeblossom
        };
        Some(
            PotSwitch {
                new_type,
                new_state: new_block.default_state(),
                sound: new_type.long_switch_sound(),
            },
        )
    }
}

/// A pot switches to the pot that holds the flower of the new type, so the
/// new pot again agrees with the attribute that caused the switch.
pub proof fn lemma_pot_switch_matches_flower(current: EyeblossomType, should_be_open: bool)
    ensures
        change_for(current, should_be_open) matches Some(t) ==> {
            &&& (t == EyeblossomType::Open) == should_be_open
            &&& (potted_block_of(t) == Block::PottedOpenEyeblossom) == should_be_open
        },
{
}

} // verus!
