use vstd::prelude::*;

use crate::resources::Resources;

verus! {

/// The pieces a player can build.
#[derive(Debug, Clone, Copy, PartialEq, Eq, Structural)]
pub enum Building {
    Settlement,
    City,
    Road,
}

impl Building {
    /// The resources that one piece of this kind costs.
    pub open spec fn cost(self) -> Resources {
        match self {
            Building::Settlement => Resources { ore: 0, grain: 1, wool: 1, brick: 1, lumber: 1 },
            Building::City => Resources { ore: 3, grain: 2, wool: 0, brick: 0, lumber: 0 },
            Building::Road => Resources { ore: 0, grain: 0, wool: 0, brick: 1, lumber: 1 },
        }
    }

    /// The resources that one piece of this kind costs.
    pub fn get_resource_cost(&self) -> (r: Resources)
        ensures
            r == self.cost(),
    {
        match *self {
            Building::Settlement => Resources::new_explicit(0, 1, 1, 1, 1),
            Building::City => Resources::new_explicit(3, 2, 0, 0, 0),
            Building::Road => Resources::new_explicit(0, 0, 0, 1, 1),
        }
    }
}

} // verus!
