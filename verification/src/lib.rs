//! Generation and sanity checking of Zobrist hashing keys: fixed-width random
//! bit-vectors whose pairwise Hamming distances lie within a configured band,
//! together with the base-2 / base-16 renderings of such vectors and a
//! probabilistic check that no sampled subset of the packed keys XORs to zero.

mod bits;
mod checker;
mod codec;
mod generator;
mod params;
mod rng;

pub use bits::hamming;
pub use bits::hamming_distance;
pub use bits::lemma_hamming_bounds;
pub use bits::lemma_hamming_symmetric;
pub use checker::check_no_zero_xor_for;
pub use checker::genuine_collision;
pub use checker::random_sanity_check;
pub use checker::xor_prefix;
pub use checker::CollisionReport;
pub use codec::as_base_2;
pub use codec::as_base_16;
pub use codec::base2_chars;
pub use codec::base16_chars;
pub use codec::bits_value;
pub use codec::lemma_base2_round_trip;
pub use codec::pack_u64;
pub use codec::strbools;
pub use codec::strbools_spec;
pub use codec::to_vec_u64;
pub use generator::candidate_ok;
pub use generator::gen_random;
pub use generator::key_views;
pub use generator::pairwise_in_band;
pub use generator::try_accept_candidate;
pub use generator::uniform_width;
pub use params::keys_per_row;
pub use params::validate_params;
pub use params::ParamError;
pub use rng::RandomSource;
pub use rng::SystemRandom;
