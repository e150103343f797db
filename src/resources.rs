use vstd::prelude::*;

use crate::building::Building;
use crate::error::CatanError;

verus! {

/// The five kinds of resource in the game.
#[derive(Debug, Clone, Copy, PartialEq, Eq, Structural, Hash)]
pub enum ResourceKind {
    Ore,
    Grain,
    Wool,
    Brick,
    Lumber,
}

/// What `str::to_lowercase` makes of a string.
pub uninterp spec fn lowercase_of(s: Seq<char>) -> Seq<char>;

/// Relies on `str::to_lowercase`: the lowercase form of `s`, which depends on
/// its characters alone.
#[verifier::external_body]
fn to_lowercase(s: &str) -> (r: String)
    ensures
        r@ == lowercase_of(s@),
{
    s.to_lowercase()
}

/// The kind whose lowercase name is `name`, if any.
pub open spec fn kind_named(name: Seq<char>) -> Option<ResourceKind> {
    if name == "ore"@ {
        Some(ResourceKind::Ore)
    } else if name == "grain"@ {
        Some(ResourceKind::Grain)
    } else if name == "wool"@ {
        Some(ResourceKind::Wool)
    } else if name == "brick"@ {
        Some(ResourceKind::Brick)
    } else if name == "lumber"@ {
        Some(ResourceKind::Lumber)
    } else {
        None
    }
}

impl ResourceKind {
    /// The kind whose name is exactly `name`: "ore", "grain", "wool",
    /// "brick" or "lumber".
    pub fn from_lowercase_name(name: &str) -> (r: Option<ResourceKind>)
        ensures
            r == kind_named(name@),
    {
        let name = name.to_owned();
        if name == "ore".to_owned() {
            Some(ResourceKind::Ore)
        } else if name == "grain".to_owned() {
            Some(ResourceKind::Grain)
        } else if name == "wool".to_owned() {
            Some(ResourceKind::Wool)
        } else if name == "brick".to_owned() {
            Some(ResourceKind::Brick)
        } else if name == "lumber".to_owned() {
            Some(ResourceKind::Lumber)
        } else {
            None
        }
    }

    /// The kind whose name is `name` in any letter case; `None` for any
    /// other text.
    pub fn from_name(name: &str) -> (r: Option<ResourceKind>)
        ensures
            r == kind_named(lowercase_of(name@)),
    {
        let lowered = to_lowercase(name);
        ResourceKind::from_lowercase_name(lowered.as_str())
    }
}

/// A bundle of resources: one non-negative count per kind, always all five.
#[derive(Debug, Clone, Copy, PartialEq, Eq, Structural)]
pub struct Resources {
    pub ore: usize,
    pub grain: usize,
    pub wool: usize,
    pub brick: usize,
    pub lumber: usize,
}

impl Resources {
    /// The count held for `kind`.
    pub open spec fn spec_get(self, kind: ResourceKind) -> usize {
        match kind {
            ResourceKind::Ore => self.ore,
            ResourceKind::Grain => self.grain,
            ResourceKind::Wool => self.wool,
            ResourceKind::Brick => self.brick,
            ResourceKind::Lumber => self.lumber,
        }
    }

    /// Every count of `self` is at least the matching count of `other`.
    pub open spec fn covers(self, other: Resources) -> bool {
        forall|k: ResourceKind| #[trigger] self.spec_get(k) >= other.spec_get(k)
    }

    /// Adding `other` to `self` keeps every count within `usize`.
    pub open spec fn sum_fits(self, other: Resources) -> bool {
        forall|k: ResourceKind| #[trigger] self.spec_get(k) + other.spec_get(k) <= usize::MAX
    }

    /// Multiplying every count by `factor` keeps it within `usize`.
    pub open spec fn scale_fits(self, factor: usize) -> bool {
        forall|k: ResourceKind| #[trigger] self.spec_get(k) * factor <= usize::MAX
    }

    /// `self` is `a + b`, kind by kind.
    pub open spec fn is_sum(self, a: Resources, b: Resources) -> bool {
        forall|k: ResourceKind| #[trigger] self.spec_get(k) == a.spec_get(k) + b.spec_get(k)
    }

    /// `self` is `a - b`, kind by kind.
    pub open spec fn is_difference(self, a: Resources, b: Resources) -> bool {
        forall|k: ResourceKind| #[trigger] self.spec_get(k) == a.spec_get(k) - b.spec_get(k)
    }

    /// The kind-by-kind sum, each count cut to `usize`.
    pub open spec fn spec_add(self, other: Resources) -> Resources {
        Resources {
            ore: (self.ore + other.ore) as usize,
            grain: (self.grain + other.grain) as usize,
            wool: (self.wool + other.wool) as usize,
            brick: (self.brick + other.brick) as usize,
            lumber: (self.lumber + other.lumber) as usize,
        }
    }

    /// The kind-by-kind difference, each count cut to `usize`.
    pub open spec fn spec_sub(self, other: Resources) -> Resources {
        Resources {
            ore: (self.ore - other.ore) as usize,
            grain: (self.grain - other.grain) as usize,
            wool: (self.wool - other.wool) as usize,
            brick: (self.brick - other.brick) as usize,
            lumber: (self.lumber - other.lumber) as usize,
        }
    }

    /// `self` holds `amount` of every kind.
    pub open spec fn is_uniform(self, amount: usize) -> bool {
        forall|k: ResourceKind| #[trigger] self.spec_get(k) == amount
    }

    /// The number of units in the bundle, all kinds together.
    pub open spec fn total(self) -> int {
        self.ore + self.grain + self.wool + self.brick + self.lumber
    }

    /// An empty bundle.
    pub fn new() -> (r: Resources)
        ensures
            r.is_uniform(0),
            r == (Resources { ore: 0, grain: 0, wool: 0, brick: 0, lumber: 0 }),
    {
        Resources { ore: 0, grain: 0, wool: 0, brick: 0, lumber: 0 }
    }

    /// A bundle with the given count of each kind.
    pub fn new_explicit(ore: usize, grain: usize, wool: usize, brick: usize, lumber: usize) -> (r:
        Resources)
        ensures
            r == (Resources { ore, grain, wool, brick, lumber }),
    {
        Resources { ore, grain, wool, brick, lumber }
    }

    /// A bundle holding `amount` of every kind.
    pub fn new_with_amount(amount: usize) -> (r: Resources)
        ensures
            r.is_uniform(amount),
            r == (Resources { ore: amount, grain: amount, wool: amount, brick: amount, lumber: amount }),
    {
        Resources { ore: amount, grain: amount, wool: amount, brick: amount, lumber: amount }
    }

    /// The count held for `kind`.
    pub fn get(&self, kind: ResourceKind) -> (r: usize)
        ensures
            r == self.spec_get(kind),
    {
        match kind {
            ResourceKind::Ore => self.ore,
            ResourceKind::Grain => self.grain,
            ResourceKind::Wool => self.wool,
            ResourceKind::Brick => self.brick,
            ResourceKind::Lumber => self.lumber,
        }
    }

    /// Replaces the count held for `kind`, leaving the other kinds alone.
    pub fn set(&mut self, kind: ResourceKind, value: usize)
        ensures
            final(self).spec_get(kind) == value,
            forall|k: ResourceKind| k != kind ==> #[trigger] final(self).spec_get(k) == old(self).spec_get(k),
    {
        match kind {
            ResourceKind::Ore => self.ore = value,
            ResourceKind::Grain => self.grain = value,
            ResourceKind::Wool => self.wool = value,
            ResourceKind::Brick => self.brick = value,
            ResourceKind::Lumber => self.lumber = value,
        }
    }

    /// Whether every count of `self` is at least the matching count of `other`.
    pub fn contains(&self, other: &Resources) -> (r: bool)
        ensures
            r == self.covers(*other),
    {
        let r = self.ore >= other.ore && self.grain >= other.grain && self.wool >= other.wool
            && self.brick >= other.brick && self.lumber >= other.lumber;
        proof {
            if !r {
                if self.ore < other.ore {
                    assert(self.spec_get(ResourceKind::Ore) < other.spec_get(ResourceKind::Ore));
                } else if self.grain < other.grain {
                    assert(self.spec_get(ResourceKind::Grain) < other.spec_get(ResourceKind::Grain));
                } else if self.wool < other.wool {
                    assert(self.spec_get(ResourceKind::Wool) < other.spec_get(ResourceKind::Wool));
                } else if self.brick < other.brick {
                    assert(self.spec_get(ResourceKind::Brick) < other.spec_get(ResourceKind::Brick));
                } else {
                    assert(self.spec_get(ResourceKind::Lumber) < other.spec_get(ResourceKind::Lumber));
                }
            }
        }
        r
    }

    /// Kind-by-kind sum of two bundles.
    pub fn add(self, rhs: Resources) -> (r: Resources)
        requires
            self.sum_fits(rhs),
        ensures
            r.is_sum(self, rhs),
            r == self.spec_add(rhs),
    {
        proof {
            assert(self.spec_get(ResourceKind::Ore) + rhs.spec_get(ResourceKind::Ore) <= usize::MAX);
            assert(self.spec_get(ResourceKind::Grain) + rhs.spec_get(ResourceKind::Grain) <= usize::MAX);
            assert(self.spec_get(ResourceKind::Wool) + rhs.spec_get(ResourceKind::Wool) <= usize::MAX);
            assert(self.spec_get(ResourceKind::Brick) + rhs.spec_get(ResourceKind::Brick) <= usize::MAX);
            assert(self.spec_get(ResourceKind::Lumber) + rhs.spec_get(ResourceKind::Lumber) <= usize::MAX);
        }
        Resources {
            ore: self.ore + rhs.ore,
            grain: self.grain + rhs.grain,
            wool: self.wool + rhs.wool,
            brick: self.brick + rhs.brick,
            lumber: self.lumber + rhs.lumber,
        }
    }

    /// Kind-by-kind sum, or `Overflow` when some count would not fit.
    pub fn checked_add(self, rhs: Resources) -> (r: Result<Resources, CatanError>)
        ensures
            match r {
                Ok(sum) => self.sum_fits(rhs) && sum.is_sum(self, rhs) && sum == self.spec_add(rhs),
                Err(e) => !self.sum_fits(rhs) && e == CatanError::Overflow,
            },
    {
        if self.ore > usize::MAX - rhs.ore {
            assert(self.spec_get(ResourceKind::Ore) + rhs.spec_get(ResourceKind::Ore) > usize::MAX);
            return Err(CatanError::Overflow);
        }
        if self.grain > usize::MAX - rhs.grain {
            assert(self.spec_get(ResourceKind::Grain) + rhs.spec_get(ResourceKind::Grain) > usize::MAX);
            return Err(CatanError::Overflow);
        }
        if self.wool > usize::MAX - rhs.wool {
            assert(self.spec_get(ResourceKind::Wool) + rhs.spec_get(ResourceKind::Wool) > usize::MAX);
            return Err(CatanError::Overflow);
        }
        if self.brick > usize::MAX - rhs.brick {
            assert(self.spec_get(ResourceKind::Brick) + rhs.spec_get(ResourceKind::Brick) > usize::MAX);
            return Err(CatanError::Overflow);
        }
        if self.lumber > usize::MAX - rhs.lumber {
            assert(self.spec_get(ResourceKind::Lumber) + rhs.spec_get(ResourceKind::Lumber) > usize::MAX);
            return Err(CatanError::Overflow);
        }
        Ok(self.add(rhs))
    }

    /// Adds `rhs` into `self`, kind by kind.
    pub fn add_assign(&mut self, rhs: Resources)
        requires
            old(self).sum_fits(rhs),
        ensures
            final(self).is_sum(*old(self), rhs),
            *final(self) == old(self).spec_add(rhs),
    {
        *self = self.add(rhs);
    }

    /// Kind-by-kind difference; `Underflow` when some count of `rhs` exceeds
    /// the matching count of `self`.
    pub fn subtract(self, rhs: Resources) -> (r: Result<Resources, CatanError>)
        ensures
            match r {
                Ok(diff) => self.covers(rhs) && diff.is_difference(self, rhs) && diff == self.spec_sub(rhs),
                Err(e) => !self.covers(rhs) && e == CatanError::Underflow,
            },
    {
        if !self.contains(&rhs) {
            return Err(CatanError::Underflow);
        }
        proof {
            assert(self.spec_get(ResourceKind::Ore) >= rhs.spec_get(ResourceKind::Ore));
            assert(self.spec_get(ResourceKind::Grain) >= rhs.spec_get(ResourceKind::Grain));
            assert(self.spec_get(ResourceKind::Wool) >= rhs.spec_get(ResourceKind::Wool));
            assert(self.spec_get(ResourceKind::Brick) >= rhs.spec_get(ResourceKind::Brick));
            assert(self.spec_get(ResourceKind::Lumber) >= rhs.spec_get(ResourceKind::Lumber));
        }
        Ok(
            Resources {
                ore: self.ore - rhs.ore,
                grain: self.grain - rhs.grain,
                wool: self.wool - rhs.wool,
                brick: self.brick - rhs.brick,
                lumber: self.lumber - rhs.lumber,
            },
        )
    }

    /// Subtracts `rhs` from `self`; on `Underflow` nothing changes.
    pub fn subtract_assign(&mut self, rhs: Resources) -> (r: Result<(), CatanError>)
        ensures
            match r {
                Ok(()) => old(self).covers(rhs) && final(self).is_difference(*old(self), rhs)
                    && *final(self) == old(self).spec_sub(rhs),
                Err(e) => !old(self).covers(rhs) && e == CatanError::Underflow
                    && *final(self) == *old(self),
            },
    {
        match self.subtract(rhs) {
            Ok(diff) => {
                *self = diff;
                Ok(())
            },
            Err(e) => Err(e),
        }
    }

    /// Every count multiplied by `factor`.
    pub fn scale(self, factor: usize) -> (r: Resources)
        requires
            self.scale_fits(factor),
        ensures
            forall|k: ResourceKind| #[trigger] r.spec_get(k) == self.spec_get(k) * factor,
    {
        proof {
            assert(self.spec_get(ResourceKind::Ore) * factor <= usize::MAX);
            assert(self.spec_get(ResourceKind::Grain) * factor <= usize::MAX);
            assert(self.spec_get(ResourceKind::Wool) * factor <= usize::MAX);
            assert(self.spec_get(ResourceKind::Brick) * factor <= usize::MAX);
            assert(self.spec_get(ResourceKind::Lumber) * factor <= usize::MAX);
        }
        Resources {
            ore: self.ore * factor,
            grain: self.grain * factor,
            wool: self.wool * factor,
            brick: self.brick * factor,
            lumber: self.lumber * factor,
        }
    }

    /// Multiplies every count of `self` by `factor`.
    pub fn scale_assign(&mut self, factor: usize)
        requires
            old(self).scale_fits(factor),
        ensures
            forall|k: ResourceKind| #[trigger] final(self).spec_get(k) == old(self).spec_get(k) * factor,
    {
        *self = self.scale(factor);
    }

    /// The five `(kind, count)` pairs in the fixed order Ore, Grain, Wool,
    /// Brick, Lumber.
    pub fn pairs(&self) -> (r: Vec<(ResourceKind, usize)>)
        ensures
            r@ == seq![
                (ResourceKind::Ore, self.ore),
                (ResourceKind::Grain, self.grain),
                (ResourceKind::Wool, self.wool),
                (ResourceKind::Brick, self.brick),
                (ResourceKind::Lumber, self.lumber),
            ],
    {
        let mut v: Vec<(ResourceKind, usize)> = Vec::new();
        v.push((ResourceKind::Ore, self.ore));
        v.push((ResourceKind::Grain, self.grain));
        v.push((ResourceKind::Wool, self.wool));
        v.push((ResourceKind::Brick, self.brick));
        v.push((ResourceKind::Lumber, self.lumber));
        v
    }

    /// Whether this bundle pays for `infrastructure`.
    pub fn can_build(&self, infrastructure: Building) -> (r: bool)
        ensures
            r == self.covers(infrastructure.cost()),
    {
        let cost = infrastructure.get_resource_cost();
        self.contains(&cost)
    }
}

impl Default for Resources {
    fn default() -> (r: Resources)
        ensures
            r.is_uniform(0),
    {
        Resources::new()
    }
}

} // verus!
