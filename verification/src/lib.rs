//! Server-side decision logic of a handful of vegetation and decoration
//! blocks: eyeblossoms (potted or planted), grass and other spreading snowy
//! blocks, mangrove roots and spore blossoms.
//!
//! Every function here decides from plain values: what the caller read of
//! the world (block states, light, support faces, environment attributes)
//! and, where the game rolls dice, numbers drawn from the thread RNG. The
//! caller performs the world updates that the returned plans describe.
pub mod world;
pub mod random;
pub mod eyeblossom;
pub mod flower_pot;
pub mod spreading_snowy;
pub mod grass;
pub mod mangrove_roots;
pub mod spore_blossom;
