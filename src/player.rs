use vstd::prelude::*;

use crate::development_cards::DevelopmentCard;
use crate::resources::Resources;

verus! {

/// Identifies a party: one of the four standard colours or a custom one.
#[derive(Debug, Clone, Copy, PartialEq, Eq, Structural)]
pub enum PlayerColour {
    Red,
    Green,
    Blue,
    Purple,
    Custom { r: u8, g: u8, b: u8 },
}

/// What a player holds, as values.
pub struct PlayerView {
    pub colour: PlayerColour,
    pub resources: Resources,
    pub development_cards: Seq<DevelopmentCard>,
    pub victory_points: nat,
}

/// A party's ledger: its resources and cards.
#[derive(Debug)]
pub struct Player {
    colour: PlayerColour,
    resources: Resources,
    development_cards: Vec<DevelopmentCard>,
    victory_points: usize,
}

impl View for Player {
    type V = PlayerView;

    closed spec fn view(&self) -> PlayerView {
        PlayerView {
            colour: self.colour,
            resources: self.resources,
            development_cards: self.development_cards@,
            victory_points: self.victory_points as nat,
        }
    }
}

impl Player {
    /// A player of the given colour holding nothing.
    pub fn new(colour: PlayerColour) -> (r: Player)
        ensures
            r@ == (PlayerView {
                colour,
                resources: Resources { ore: 0, grain: 0, wool: 0, brick: 0, lumber: 0 },
                development_cards: Seq::empty(),
                victory_points: 0,
            }),
    {
        Player {
            colour,
            resources: Resources::new_explicit(0, 0, 0, 0, 0),
            development_cards: Vec::new(),
            victory_points: 0,
        }
    }

    /// The player's resources.
    pub fn resources(&self) -> (r: &Resources)
        ensures
            *r == self@.resources,
    {
        &self.resources
    }

    /// The player's resources, for change in place; the rest of the player
    /// stays as it was.
    pub fn resources_mut(&mut self) -> (r: &mut Resources)
        ensures
            *r == old(self)@.resources,
            final(self)@ == (PlayerView { resources: *final(r), ..old(self)@ }),
    {
        &mut self.resources
    }

    /// The player's colour.
    pub fn colour(&self) -> (r: &PlayerColour)
        ensures
            *r == self@.colour,
    {
        &self.colour
    }
}

} // verus!
