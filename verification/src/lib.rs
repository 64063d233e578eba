//! Password generation under a character policy, and a coarse strength score
//! for any password.
//!
//! - [`policy`]: what a caller asks for.
//! - [`alphabet`]: the fixed character tables.
//! - [`charset`]: from a policy to the characters it allows.
//! - [`random`]: the random source.
//! - [`generator`]: drawing a password.
//! - [`strength`]: scoring a password.

pub mod alphabet;
pub mod charset;
pub mod generator;
pub mod policy;
pub mod random;
pub mod strength;

pub use charset::build_charset;
pub use generator::{generate_password, pick_characters};
pub use policy::PasswordOptions;
pub use strength::{
    calculate_password_strength_from_password, character_pool, classify_entropy, PasswordStrength,
    StrengthTier,
};
