use vstd::prelude::*;

use crate::chance::random_below;
use crate::error::CatanError;

verus! {

/// The five kinds of development card.
#[derive(Debug, Clone, Copy, PartialEq, Eq, Structural, Hash)]
pub enum DevelopmentCard {
    YearOfPlenty,
    Monopoly,
    Knight,
    RoadBuilding,
    HiddenVictoryPoint,
}

/// The kind with the given position in the order YearOfPlenty, Monopoly,
/// Knight, RoadBuilding, HiddenVictoryPoint.
pub open spec fn card_at(index: int) -> DevelopmentCard {
    if index == 0 {
        DevelopmentCard::YearOfPlenty
    } else if index == 1 {
        DevelopmentCard::Monopoly
    } else if index == 2 {
        DevelopmentCard::Knight
    } else if index == 3 {
        DevelopmentCard::RoadBuilding
    } else {
        DevelopmentCard::HiddenVictoryPoint
    }
}

/// The position `offset` steps after `start`, wrapping round the five kinds.
pub open spec fn step_from(start: int, offset: int) -> int {
    if start + offset < 5 {
        start + offset
    } else {
        start + offset - 5
    }
}

impl DevelopmentCard {
    /// The kind with the given position, as `card_at` orders them.
    pub fn from_index(index: usize) -> (r: DevelopmentCard)
        requires
            index < 5,
        ensures
            r == card_at(index as int),
    {
        if index == 0 {
            DevelopmentCard::YearOfPlenty
        } else if index == 1 {
            DevelopmentCard::Monopoly
        } else if index == 2 {
            DevelopmentCard::Knight
        } else if index == 3 {
            DevelopmentCard::RoadBuilding
        } else {
            DevelopmentCard::HiddenVictoryPoint
        }
    }

    /// A kind chosen uniformly at random.
    pub fn random() -> (r: DevelopmentCard) {
        DevelopmentCard::from_index(random_below(5))
    }
}

/// How many cards of each kind are left to be drawn.
#[derive(Debug, Clone, Copy, PartialEq, Eq, Structural)]
pub struct DevelopmentCardStock {
    pub year_of_plenty: usize,
    pub monopoly: usize,
    pub knight: usize,
    pub road_building: usize,
    pub hidden_victory_point: usize,
}

impl DevelopmentCardStock {
    /// The number of cards of `kind` left.
    pub open spec fn spec_count(self, kind: DevelopmentCard) -> usize {
        match kind {
            DevelopmentCard::YearOfPlenty => self.year_of_plenty,
            DevelopmentCard::Monopoly => self.monopoly,
            DevelopmentCard::Knight => self.knight,
            DevelopmentCard::RoadBuilding => self.road_building,
            DevelopmentCard::HiddenVictoryPoint => self.hidden_victory_point,
        }
    }

    /// The number of cards left, all kinds together.
    pub open spec fn total(self) -> int {
        self.year_of_plenty + self.monopoly + self.knight + self.road_building
            + self.hidden_victory_point
    }

    /// The counts of a complete set: 2, 2, 14, 2 and 5.
    pub open spec fn is_canonical(self) -> bool {
        self == (DevelopmentCardStock {
            year_of_plenty: 2,
            monopoly: 2,
            knight: 14,
            road_building: 2,
            hidden_victory_point: 5,
        })
    }

    /// `after` is `before` with one card of `kind` taken out.
    pub open spec fn is_draw(before: Self, after: Self, kind: DevelopmentCard) -> bool {
        &&& before.spec_count(kind) > 0
        &&& after.spec_count(kind) == before.spec_count(kind) - 1
        &&& forall|k: DevelopmentCard| k != kind ==> #[trigger] after.spec_count(k) == before.spec_count(k)
    }

    /// A complete set of development cards.
    pub fn new() -> (r: DevelopmentCardStock)
        ensures
            r.is_canonical(),
            r.total() == 25,
    {
        DevelopmentCardStock {
            year_of_plenty: 2,
            monopoly: 2,
            knight: 14,
            road_building: 2,
            hidden_victory_point: 5,
        }
    }

    /// The number of cards of `kind` left.
    pub fn count(&self, kind: DevelopmentCard) -> (r: usize)
        ensures
            r == self.spec_count(kind),
    {
        match kind {
            DevelopmentCard::YearOfPlenty => self.year_of_plenty,
            DevelopmentCard::Monopoly => self.monopoly,
            DevelopmentCard::Knight => self.knight,
            DevelopmentCard::RoadBuilding => self.road_building,
            DevelopmentCard::HiddenVictoryPoint => self.hidden_victory_point,
        }
    }

    /// Takes out one card of `kind`, which must be left.
    fn take(&mut self, kind: DevelopmentCard)
        requires
            old(self).spec_count(kind) > 0,
        ensures
            Self::is_draw(*old(self), *final(self), kind),
            final(self).total() == old(self).total() - 1,
    {
        match kind {
            DevelopmentCard::YearOfPlenty => self.year_of_plenty = self.year_of_plenty - 1,
            DevelopmentCard::Monopoly => self.monopoly = self.monopoly - 1,
            DevelopmentCard::Knight => self.knight = self.knight - 1,
            DevelopmentCard::RoadBuilding => self.road_building = self.road_building - 1,
            DevelopmentCard::HiddenVictoryPoint => self.hidden_victory_point = self.hidden_victory_point - 1,
        }
    }

    /// Draws a card, trying the kinds in order from position `start` onwards
    /// and wrapping round, one attempt per kind. Fails with `Exhausted`, and
    /// changes nothing, exactly when no card is left.
    pub fn draw_from(&mut self, start: usize) -> (r: Result<DevelopmentCard, CatanError>)
        requires
            start < 5,
        ensures
            match r {
                Ok(kind) => Self::is_draw(*old(self), *final(self), kind)
                    && final(self).total() == old(self).total() - 1,
                Err(e) => e == CatanError::Exhausted && old(self).total() == 0
                    && *final(self) == *old(self),
            },
            old(self).total() > 0 ==> r is Ok,
            old(self).total() == 0 ==> r == Err::<DevelopmentCard, CatanError>(CatanError::Exhausted),
            old(self).spec_count(card_at(start as int)) > 0 ==> r == Ok::<DevelopmentCard, CatanError>(card_at(start as int)),
    {
        let mut attempt: usize = 0;
        while attempt < 5
            invariant
                start < 5,
                attempt <= 5,
                *self == *old(self),
                attempt > 0 ==> self.spec_count(card_at(start as int)) == 0,
                forall|j: int|
                    0 <= j < attempt ==> #[trigger] self.spec_count(card_at(step_from(start as int, j))) == 0,
            decreases 5 - attempt,
        {
            let index: usize = if start + attempt < 5 {
                start + attempt
            } else {
                start + attempt - 5
            };
            let kind = DevelopmentCard::from_index(index);
            if self.count(kind) > 0 {
                self.take(kind);
                return Ok(kind);
            }
            assert(step_from(start as int, 0) == start);
            attempt = attempt + 1;
        }
        proof {
            assert forall|m: int| 0 <= m < 5 implies self.spec_count(card_at(m)) == 0 by {
                let j = if m >= start { m - start } else { m + 5 - start };
                assert(step_from(start as int, j) == m);
            }
            assert(self.spec_count(card_at(0)) == 0);
            assert(self.spec_count(card_at(1)) == 0);
            assert(self.spec_count(card_at(2)) == 0);
            assert(self.spec_count(card_at(3)) == 0);
            assert(self.spec_count(card_at(4)) == 0);
        }
        Err(CatanError::Exhausted)
    }

    /// Draws a card of a randomly chosen kind, moving on to the other kinds in
    /// turn while the chosen one is used up. Fails with `Exhausted`, and
    /// changes nothing, exactly when no card is left.
    pub fn draw_random(&mut self) -> (r: Result<DevelopmentCard, CatanError>)
        ensures
            match r {
                Ok(kind) => Self::is_draw(*old(self), *final(self), kind)
                    && final(self).total() == old(self).total() - 1,
                Err(e) => e == CatanError::Exhausted && old(self).total() == 0
                    && *final(self) == *old(self),
            },
            old(self).total() > 0 ==> r is Ok,
            old(self).total() == 0 ==> r == Err::<DevelopmentCard, CatanError>(CatanError::Exhausted),
    {
        let start = random_below(5);
        self.draw_from(start)
    }

    /// Puts one card of `kind` back.
    pub fn return_card(&mut self, kind: DevelopmentCard)
        requires
            old(self).spec_count(kind) < usize::MAX,
        ensures
            final(self).spec_count(kind) == old(self).spec_count(kind) + 1,
            forall|k: DevelopmentCard| k != kind ==> #[trigger] final(self).spec_count(k) == old(self).spec_count(k),
            final(self).total() == old(self).total() + 1,
    {
        match kind {
            DevelopmentCard::YearOfPlenty => self.year_of_plenty = self.year_of_plenty + 1,
            DevelopmentCard::Monopoly => self.monopoly = self.monopoly + 1,
            DevelopmentCard::Knight => self.knight = self.knight + 1,
            DevelopmentCard::RoadBuilding => self.road_building = self.road_building + 1,
            DevelopmentCard::HiddenVictoryPoint => self.hidden_victory_point = self.hidden_victory_point + 1,
        }
    }
}

} // verus!
