//! How the simulation's random generator is seeded.
//!
//! A configuration may give the seed as an integer, or as the word `entropy`
//! to draw it from the system. Without a seed the generator starts from a
//! fixed constant, so that runs repeat.
use vstd::prelude::*;

verus! {

/// The seed that a simulation starts from when its configuration names none.
pub const DEFAULT_SEED: u64 = 0x0123_4567_89AB_CDEF;

/// The seed as a configuration writes it.
#[derive(Debug)]
pub enum SeedConfig {
    Number(u64),
    Text(String),
}

/// Where the generator's seed comes from.
#[derive(Clone, Copy, Debug, PartialEq, Eq, Structural)]
pub enum SeedSource {
    /// This seed.
    Fixed(u64),
    /// Entropy that the system provides.
    Entropy,
}

/// A seed that is neither an integer nor the word `entropy`.
#[derive(Clone, Copy, Debug, PartialEq, Eq, Structural)]
pub struct InvalidSeed;

impl InvalidSeed {
    /// What went wrong, for a person to read.
    pub fn message(&self) -> String {
        "Invalid rng seed specification, valid seeds are \"entropy\", or an integer".to_owned()
    }
}

/// The word that asks for a seed from the system.
pub open spec fn entropy_word() -> Seq<char> {
    "entropy"@
}

/// The source that a configured seed names, if it names one.
pub open spec fn seed_source_of(config: Option<SeedConfig>) -> Result<SeedSource, InvalidSeed> {
    match config {
        None => Ok(SeedSource::Fixed(DEFAULT_SEED)),
        Some(SeedConfig::Number(n)) => Ok(SeedSource::Fixed(n)),
        Some(SeedConfig::Text(t)) => if t@ == entropy_word() {
            Ok(SeedSource::Entropy)
        } else {
            Err(InvalidSeed)
        },
    }
}

/// The source of the generator's seed that a configuration names.
pub fn resolve_seed(config: &Option<SeedConfig>) -> (r: Result<SeedSource, InvalidSeed>)
    ensures
        r == seed_source_of(*config),
{
    match config {
        None => Ok(SeedSource::Fixed(DEFAULT_SEED)),
        Some(SeedConfig::Number(n)) => Ok(SeedSource::Fixed(*n)),
        Some(SeedConfig::Text(t)) => {
            let word = "entropy".to_owned();
            if *t == word {
                Ok(SeedSource::Entropy)
            } else {
                Err(InvalidSeed)
            }
        },
    }
}

} // verus!
