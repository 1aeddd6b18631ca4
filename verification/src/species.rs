//! The species that appear in battles.
use vstd::prelude::*;

verus! {

/// A Pokemon species.
#[derive(Debug, Clone, Copy, PartialEq, Eq, Hash, Structural)]
pub enum Species {
    Bulbasaur,
    Charmander,
    Squirtle,
    Pikachu,
    Pidgey,
    Magikarp,
    Snorlax,
    Articuno,
    Ditto,
    Gengar,
}

/// The display name of a species.
pub open spec fn spec_species_name(s: Species) -> Seq<char> {
    match s {
        Species::Bulbasaur => "Bulbasaur"@,
        Species::Charmander => "Charmander"@,
        Species::Squirtle => "Squirtle"@,
        Species::Pikachu => "Pikachu"@,
        Species::Pidgey => "Pidgey"@,
        Species::Magikarp => "Magikarp"@,
        Species::Snorlax => "Snorlax"@,
        Species::Articuno => "Articuno"@,
        Species::Ditto => "Ditto"@,
        Species::Gengar => "Gengar"@,
    }
}

impl Species {
    /// The display name of the species.
    pub fn name(&self) -> (r: &'static str)
        ensures
            r@ == spec_species_name(*self),
    {
        match self {
            Species::Bulbasaur => "Bulbasaur",
            Species::Charmander => "Charmander",
            Species::Squirtle => "Squirtle",
            Species::Pikachu => "Pikachu",
            Species::Pidgey => "Pidgey",
            Species::Magikarp => "Magikarp",
            Species::Snorlax => "Snorlax",
            Species::Articuno => "Articuno",
            Species::Ditto => "Ditto",
            Species::Gengar => "Gengar",
        }
    }
}

} // verus!
