//! Bot strategy constants and helpers

use vstd::prelude::*;

verus! {

/// Strategy profile for bots
#[derive(Debug, Clone, Copy, PartialEq, Eq, Structural)]
pub enum BotPersonality {
    /// Aggressive - buys everything, bids high
    Aggressive,
    /// Conservative - only buys good deals
    Conservative,
    /// Balanced - standard strategy
    Balanced,
}

/// The cash a bot keeps after building, by personality.
pub open spec fn spec_build_threshold(p: BotPersonality) -> i32 {
    match p {
        BotPersonality::Aggressive => 100,
        BotPersonality::Conservative => 500,
        BotPersonality::Balanced => 250,
    }
}

impl BotPersonality {
    /// How quickly to build houses: build if this much is left afterwards
    pub fn build_threshold(&self) -> (r: i32)
        ensures
            r == spec_build_threshold(*self),
    {
        match self {
            BotPersonality::Aggressive => 100,
            BotPersonality::Conservative => 500,
            BotPersonality::Balanced => 250,
        }
    }
}

impl Default for BotPersonality {
    fn default() -> (r: Self)
        ensures
            r == BotPersonality::Balanced,
    {
        BotPersonality::Balanced
    }
}

} // verus!
