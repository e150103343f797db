use vstd::prelude::*;

use std::collections::HashMap;

use crate::chance::random_identifier;
use crate::development_cards::{DevelopmentCard, DevelopmentCardStock};
use crate::error::CatanError;
use crate::player::PlayerColour;
use crate::resources::{ResourceKind, Resources};
use crate::trade::{Trade, TradeState, TradeView};
use vstd::std_specs::iter::IteratorSpec;

verus! {

broadcast use vstd::std_specs::hash::group_hash_axioms;

/// How many units of each resource kind a complete bank holds.
pub const TOTAL_RESOURCES: usize = 19;

/// Identifies a trade in the bank's registry.
pub type TradeId = u128;

/// The bank, as values.
pub struct BankView {
    pub cards: DevelopmentCardStock,
    pub pool: Resources,
    pub trades: Map<TradeId, Trade>,
}

/// The bundle holding `amount` of `kind` and nothing else.
pub open spec fn single(kind: ResourceKind, amount: usize) -> Resources {
    match kind {
        ResourceKind::Ore => Resources { ore: amount, grain: 0, wool: 0, brick: 0, lumber: 0 },
        ResourceKind::Grain => Resources { ore: 0, grain: amount, wool: 0, brick: 0, lumber: 0 },
        ResourceKind::Wool => Resources { ore: 0, grain: 0, wool: amount, brick: 0, lumber: 0 },
        ResourceKind::Brick => Resources { ore: 0, grain: 0, wool: 0, brick: amount, lumber: 0 },
        ResourceKind::Lumber => Resources { ore: 0, grain: 0, wool: 0, brick: 0, lumber: amount },
    }
}

/// How far `x` lies after `start`, counting upwards and wrapping round the
/// 128-bit range.
pub open spec fn distance_after(start: u128, x: u128) -> int {
    if x >= start {
        x - start
    } else {
        x + 0x1_0000_0000_0000_0000_0000_0000_0000_0000 - start
    }
}

/// Relies on `HashMap::get_mut`: a mutable reference to the value stored
/// under `k`, when there is one; changes through it change that value.
#[verifier::external_body]
fn entry_mut(m: &mut HashMap<TradeId, Trade>, k: TradeId) -> (r: Option<&mut Trade>)
    ensures
        match r {
            Some(t) => old(m)@.contains_key(k) && *t == old(m)@[k] && final(m)@ == old(m)@.insert(
                k,
                *final(t),
            ),
            None => !old(m)@.contains_key(k) && final(m)@ == old(m)@,
        },
{
    m.get_mut(&k)
}

/// The shared reserve of resources and development cards, and the registry
/// of trades in flight.
#[derive(Debug)]
pub struct Bank {
    development_cards: DevelopmentCardStock,
    resources: Resources,
    trades: HashMap<TradeId, Trade>,
}

impl View for Bank {
    type V = BankView;

    closed spec fn view(&self) -> BankView {
        BankView { cards: self.development_cards, pool: self.resources, trades: self.trades@ }
    }
}

impl Bank {
    /// A complete bank: 19 units of each resource, a complete set of
    /// development cards, no trades.
    pub fn new() -> (r: Bank)
        ensures
            r@.pool.is_uniform(TOTAL_RESOURCES),
            r@.pool.total() == 95,
            r@.cards.is_canonical(),
            r@.cards.total() == 25,
            r@.trades == Map::<TradeId, Trade>::empty(),
    {
        Bank {
            development_cards: DevelopmentCardStock::new(),
            resources: Resources::new_with_amount(TOTAL_RESOURCES),
            trades: HashMap::new(),
        }
    }

    /// A bank holding the given reserve and cards, with no trades.
    pub fn from_parts(development_cards: DevelopmentCardStock, resources: Resources) -> (r: Bank)
        ensures
            r@.pool == resources,
            r@.cards == development_cards,
            r@.trades == Map::<TradeId, Trade>::empty(),
    {
        Bank { development_cards, resources, trades: HashMap::new() }
    }

    /// Registers `trade` under `trade_id` and returns `true`, or returns
    /// `false` and changes nothing when that identifier is already in use.
    pub fn restore_trade(&mut self, trade_id: TradeId, trade: Trade) -> (r: bool)
        ensures
            r == !old(self)@.trades.contains_key(trade_id),
            r ==> final(self)@.trades == old(self)@.trades.insert(trade_id, trade),
            !r ==> final(self)@.trades == old(self)@.trades,
            final(self)@.pool == old(self)@.pool,
            final(self)@.cards == old(self)@.cards,
    {
        if self.trades.contains_key(&trade_id) {
            return false;
        }
        self.trades.insert(trade_id, trade);
        true
    }

    /// The reserve of resources.
    pub fn resources(&self) -> (r: Resources)
        ensures
            r == self@.pool,
    {
        self.resources
    }

    /// The development cards left in the bank.
    pub fn development_cards(&self) -> (r: DevelopmentCardStock)
        ensures
            r == self@.cards,
    {
        self.development_cards
    }

    /// The number of trades in the registry.
    pub fn trade_count(&self) -> (r: usize)
        ensures
            r == self@.trades.len(),
    {
        self.trades.len()
    }

    /// Hands out one development card of a random kind that is left.
    /// Fails with `Exhausted`, changing nothing, exactly when none is left.
    pub fn distribute_random_development_card(&mut self) -> (r: Result<DevelopmentCard, CatanError>)
        ensures
            final(self)@.pool == old(self)@.pool,
            final(self)@.trades == old(self)@.trades,
            match r {
                Ok(kind) => DevelopmentCardStock::is_draw(old(self)@.cards, final(self)@.cards, kind)
                    && final(self)@.cards.total() == old(self)@.cards.total() - 1,
                Err(e) => e == CatanError::Exhausted && old(self)@.cards.total() == 0
                    && final(self)@.cards == old(self)@.cards,
            },
            old(self)@.cards.total() > 0 ==> r is Ok,
    {
        self.development_cards.draw_random()
    }

    /// Takes `amount` units of `kind` out of the reserve and hands them out as
    /// a bundle. Fails with `InsufficientSupply`, changing nothing, when the
    /// reserve holds fewer.
    pub fn distribute_resource(&mut self, kind: ResourceKind, amount: usize) -> (r: Result<
        Resources,
        CatanError,
    >)
        ensures
            final(self)@.cards == old(self)@.cards,
            final(self)@.trades == old(self)@.trades,
            amount <= old(self)@.pool.spec_get(kind) ==> r == Ok::<Resources, CatanError>(
                single(kind, amount),
            ) && final(self)@.pool.is_difference(old(self)@.pool, single(kind, amount))
                && final(self)@.pool == old(self)@.pool.spec_sub(single(kind, amount)),
            amount > old(self)@.pool.spec_get(kind) ==> r == Err::<Resources, CatanError>(
                CatanError::InsufficientSupply,
            ) && final(self)@.pool == old(self)@.pool,
    {
        let held = self.resources.get(kind);
        if amount > held {
            return Err(CatanError::InsufficientSupply);
        }
        let mut distributed = Resources::new();
        distributed.set(kind, amount);
        self.resources.set(kind, held - amount);
        proof {
            assert(distributed.spec_get(ResourceKind::Ore) == single(kind, amount).spec_get(ResourceKind::Ore));
            assert(distributed.spec_get(ResourceKind::Grain) == single(kind, amount).spec_get(ResourceKind::Grain));
            assert(distributed.spec_get(ResourceKind::Wool) == single(kind, amount).spec_get(ResourceKind::Wool));
            assert(distributed.spec_get(ResourceKind::Brick) == single(kind, amount).spec_get(ResourceKind::Brick));
            assert(distributed.spec_get(ResourceKind::Lumber) == single(kind, amount).spec_get(ResourceKind::Lumber));
            assert(distributed == single(kind, amount));
            assert forall|k: ResourceKind|
                #[trigger] self.resources.spec_get(k) == old(self)@.pool.spec_get(k) - single(
                    kind,
                    amount,
                ).spec_get(k) by {
                if k != kind {
                    assert(single(kind, amount).spec_get(k) == 0);
                }
            }
            let expected = old(self)@.pool.spec_sub(single(kind, amount));
            assert(self.resources.spec_get(ResourceKind::Ore) == expected.spec_get(ResourceKind::Ore));
            assert(self.resources.spec_get(ResourceKind::Grain) == expected.spec_get(ResourceKind::Grain));
            assert(self.resources.spec_get(ResourceKind::Wool) == expected.spec_get(ResourceKind::Wool));
            assert(self.resources.spec_get(ResourceKind::Brick) == expected.spec_get(ResourceKind::Brick));
            assert(self.resources.spec_get(ResourceKind::Lumber) == expected.spec_get(ResourceKind::Lumber));
        }
        Ok(distributed)
    }

    /// Puts a bundle back into the reserve.
    pub fn return_resources(&mut self, resources: Resources)
        requires
            old(self)@.pool.sum_fits(resources),
        ensures
            final(self)@.pool.is_sum(old(self)@.pool, resources),
            final(self)@.pool == old(self)@.pool.spec_add(resources),
            final(self)@.cards == old(self)@.cards,
            final(self)@.trades == old(self)@.trades,
    {
        self.resources.add_assign(resources);
    }

    /// Puts one development card back.
    pub fn return_dev_card(&mut self, kind: DevelopmentCard)
        requires
            old(self)@.cards.spec_count(kind) < usize::MAX,
        ensures
            final(self)@.cards.spec_count(kind) == old(self)@.cards.spec_count(kind) + 1,
            forall|k: DevelopmentCard|
                k != kind ==> #[trigger] final(self)@.cards.spec_count(k) == old(
                    self,
                )@.cards.spec_count(k),
            final(self)@.cards.total() == old(self)@.cards.total() + 1,
            final(self)@.pool == old(self)@.pool,
            final(self)@.trades == old(self)@.trades,
    {
        self.development_cards.return_card(kind);
    }

    /// The trade registered under `trade_id`, if any.
    pub fn get_trade(&self, trade_id: TradeId) -> (r: Option<&Trade>)
        ensures
            match r {
                Some(t) => self@.trades.contains_key(trade_id) && *t == self@.trades[trade_id],
                None => !self@.trades.contains_key(trade_id),
            },
    {
        self.trades.get(&trade_id)
    }

    /// The trade registered under `trade_id`, for change in place, if any;
    /// the rest of the bank stays as it was.
    pub fn get_trade_mut(&mut self, trade_id: TradeId) -> (r: Option<&mut Trade>)
        ensures
            match r {
                Some(t) => {
                    &&& old(self)@.trades.contains_key(trade_id)
                    &&& *t == old(self)@.trades[trade_id]
                    &&& final(self)@ == (BankView {
                        trades: old(self)@.trades.insert(trade_id, *final(t)),
                        ..old(self)@
                    })
                },
                None => !old(self)@.trades.contains_key(trade_id) && final(self)@ == old(self)@,
            },
    {
        entry_mut(&mut self.trades, trade_id)
    }

    /// The identifiers of all registered trades, each once, in no particular
    /// order.
    pub fn trade_ids(&self) -> (r: Vec<TradeId>)
        ensures
            r@.to_set() == self@.trades.dom(),
            r@.no_duplicates(),
            r@.len() == self@.trades.len(),
    {
        let ghost all = vstd::std_specs::hash::spec_keys_iter(&self.trades).remaining().unref();
        let ghost mut count: int = 0;
        let mut ids: Vec<TradeId> = Vec::new();
        for id in it: self.trades.keys()
            invariant
                it.seq().unref() == all,
                count == it.index(),
                ids@ == all.take(count),
        {
            ids.push(*id);
            proof {
                count = count + 1;
                assert(ids@ =~= all.take(count));
            }
        }
        proof {
            assert(ids@ =~= all);
        }
        ids
    }

    /// An identifier that no trade in the registry uses: `candidate` itself
    /// when it is free, else the first free one counting upwards from it.
    pub fn unused_identifier(&self, candidate: TradeId) -> (r: TradeId)
        ensures
            !self@.trades.contains_key(r),
            !self@.trades.contains_key(candidate) ==> r == candidate,
            forall|x: TradeId|
                distance_after(candidate, x) < distance_after(candidate, r)
                    ==> #[trigger] self@.trades.contains_key(x),
    {
        let n = self.trades.len();
        let mut id: TradeId = candidate;
        let mut steps: usize = 0;
        let ghost mut seen: Set<TradeId> = Set::empty();
        proof {
            assert(self.trades@.dom().finite());
        }
        while self.trades.contains_key(&id)
            invariant
                n == self.trades@.len(),
                self.trades@.dom().finite(),
                steps <= n,
                seen.finite(),
                seen.len() == steps,
                seen.subset_of(self.trades@.dom()),
                distance_after(candidate, id) == steps,
                !self.trades@.contains_key(candidate) ==> steps == 0,
                forall|x: TradeId| #[trigger] seen.contains(x) ==> distance_after(candidate, x) < steps,
                forall|x: TradeId|
                    distance_after(candidate, x) < steps ==> #[trigger] self.trades@.contains_key(x),
            decreases n - steps,
        {
            proof {
                assert(!seen.contains(id));
                let grown = seen.insert(id);
                vstd::set_lib::lemma_len_subset(grown, self.trades@.dom());
                seen = seen.insert(id);
            }
            id = if id == u128::MAX { 0 } else { id + 1 };
            steps = steps + 1;
        }
        id
    }

    /// Registers a new trade proposed by `from` under `trade_id`, or under the
    /// first free identifier after it when `trade_id` is taken, and returns the
    /// identifier used.
    pub fn propose_trade_with_id(
        &mut self,
        trade_id: TradeId,
        from: PlayerColour,
        offering: Resources,
        wants: Resources,
    ) -> (r: TradeId)
        ensures
            !old(self)@.trades.contains_key(r),
            !old(self)@.trades.contains_key(trade_id) ==> r == trade_id,
            final(self)@.trades.contains_key(r),
            final(self)@.trades[r]@ == (TradeView {
                from,
                accepted_by: Seq::empty(),
                to: None,
                offering,
                wants,
                state: TradeState::Proposed,
            }),
            final(self)@.trades.remove(r) == old(self)@.trades,
            final(self)@.pool == old(self)@.pool,
            final(self)@.cards == old(self)@.cards,
    {
        let id = self.unused_identifier(trade_id);
        let t = Trade::new(from, offering, wants);
        self.trades.insert(id, t);
        proof {
            assert(self.trades@.remove(id) =~= old(self)@.trades);
        }
        id
    }

    /// Registers a new trade proposed by `from` under a fresh random
    /// identifier, distinct from those of every trade in the registry.
    pub fn propose_trade(&mut self, from: PlayerColour, offering: Resources, wants: Resources) -> (r:
        TradeId)
        ensures
            !old(self)@.trades.contains_key(r),
            final(self)@.trades.contains_key(r),
            final(self)@.trades[r]@ == (TradeView {
                from,
                accepted_by: Seq::empty(),
                to: None,
                offering,
                wants,
                state: TradeState::Proposed,
            }),
            final(self)@.trades.remove(r) == old(self)@.trades,
            final(self)@.pool == old(self)@.pool,
            final(self)@.cards == old(self)@.cards,
    {
        let candidate = random_identifier();
        self.propose_trade_with_id(candidate, from, offering, wants)
    }

    /// Proposes a trade with the bank itself: `player` offers four of each
    /// unit it wants. Fails with `Overflow`, changing nothing, when four times
    /// some count of `wants` does not fit.
    pub fn propose_trade_with_bank(&mut self, player: PlayerColour, wants: Resources) -> (r: Result<
        TradeId,
        CatanError,
    >)
        ensures
            match r {
                Ok(id) => {
                    &&& wants.scale_fits(4)
                    &&& !old(self)@.trades.contains_key(id)
                    &&& final(self)@.trades.contains_key(id)
                    &&& final(self)@.trades[id]@.from == player
                    &&& final(self)@.trades[id]@.wants == wants
                    &&& forall|k: ResourceKind| #[trigger]
                        final(self)@.trades[id]@.offering.spec_get(k) == wants.spec_get(k) * 4
                    &&& final(self)@.trades[id]@.state == TradeState::Proposed
                    &&& final(self)@.trades.remove(id) == old(self)@.trades
                    &&& final(self)@.pool == old(self)@.pool
                    &&& final(self)@.cards == old(self)@.cards
                },
                Err(e) => e == CatanError::Overflow && !wants.scale_fits(4) && final(self)@
                    == old(self)@,
            },
    {
        let limit: usize = usize::MAX / 4;
        if wants.ore > limit || wants.grain > limit || wants.wool > limit || wants.brick > limit
            || wants.lumber > limit {
            proof {
                if wants.ore > limit {
                    assert(wants.spec_get(ResourceKind::Ore) * 4 > usize::MAX);
                } else if wants.grain > limit {
                    assert(wants.spec_get(ResourceKind::Grain) * 4 > usize::MAX);
                } else if wants.wool > limit {
                    assert(wants.spec_get(ResourceKind::Wool) * 4 > usize::MAX);
                } else if wants.brick > limit {
                    assert(wants.spec_get(ResourceKind::Brick) * 4 > usize::MAX);
                } else {
                    assert(wants.spec_get(ResourceKind::Lumber) * 4 > usize::MAX);
                }
            }
            return Err(CatanError::Overflow);
        }
        proof {
            assert forall|k: ResourceKind| #[trigger] wants.spec_get(k) * 4 <= usize::MAX by {
                assert(wants.spec_get(k) <= limit);
            }
        }
        let requirements = wants.scale(4);
        Ok(self.propose_trade(player, requirements, wants))
    }

    /// Records that `accepted_by` is willing to make the trade `trade_id`.
    /// Fails with `TradeNotFound` when no such trade is registered, and with
    /// `InvalidState` when it is no longer `Proposed`; a failure changes nothing.
    pub fn accept_trade(&mut self, trade_id: TradeId, accepted_by: PlayerColour) -> (r: Result<(), CatanError>)
        ensures
            final(self)@.pool == old(self)@.pool,
            final(self)@.cards == old(self)@.cards,
            !old(self)@.trades.contains_key(trade_id) ==> r == Err::<(), CatanError>(
                CatanError::TradeNotFound,
            ) && final(self)@.trades == old(self)@.trades,
            old(self)@.trades.contains_key(trade_id) && old(self)@.trades[trade_id]@.state
                != TradeState::Proposed ==> r == Err::<(), CatanError>(CatanError::InvalidState)
                && final(self)@.trades == old(self)@.trades,
            old(self)@.trades.contains_key(trade_id) && old(self)@.trades[trade_id]@.state
                == TradeState::Proposed ==> {
                &&& r is Ok
                &&& final(self)@.trades.contains_key(trade_id)
                &&& final(self)@.trades[trade_id]@ == (TradeView {
                    accepted_by: old(self)@.trades[trade_id]@.accepted_by.push(accepted_by),
                    ..old(self)@.trades[trade_id]@
                })
                &&& final(self)@.trades.remove(trade_id) == old(self)@.trades.remove(trade_id)
            },
    {
        match self.trades.get(&trade_id) {
            None => {
                return Err(CatanError::TradeNotFound);
            },
            Some(t) => match t.state() {
                TradeState::Proposed => {},
                _ => {
                    return Err(CatanError::InvalidState);
                },
            },
        }
        let mut t = self.trades.remove(&trade_id).unwrap();
        let _ = t.accept(accepted_by);
        self.trades.insert(trade_id, t);
        proof {
            assert(self.trades@.remove(trade_id) =~= old(self)@.trades.remove(trade_id));
        }
        Ok(())
    }

    /// Locks in `player` as the counter-party of the trade `trade_id`.
    /// Fails with `TradeNotFound` when no such trade is registered, and with
    /// `InvalidState` when it is no longer `Proposed`; a failure changes nothing.
    pub fn finalize_trade(&mut self, trade_id: TradeId, player: PlayerColour) -> (r: Result<(), CatanError>)
        ensures
            final(self)@.pool == old(self)@.pool,
            final(self)@.cards == old(self)@.cards,
            !old(self)@.trades.contains_key(trade_id) ==> r == Err::<(), CatanError>(
                CatanError::TradeNotFound,
            ) && final(self)@.trades == old(self)@.trades,
            old(self)@.trades.contains_key(trade_id) && old(self)@.trades[trade_id]@.state
                != TradeState::Proposed ==> r == Err::<(), CatanError>(CatanError::InvalidState)
                && final(self)@.trades == old(self)@.trades,
            old(self)@.trades.contains_key(trade_id) && old(self)@.trades[trade_id]@.state
                == TradeState::Proposed ==> {
                &&& r is Ok
                &&& final(self)@.trades.contains_key(trade_id)
                &&& final(self)@.trades[trade_id]@ == (TradeView {
                    to: Some(player),
                    state: TradeState::LockedIn,
                    ..old(self)@.trades[trade_id]@
                })
                &&& final(self)@.trades.remove(trade_id) == old(self)@.trades.remove(trade_id)
            },
    {
        match self.trades.get(&trade_id) {
            None => {
                return Err(CatanError::TradeNotFound);
            },
            Some(t) => match t.state() {
                TradeState::Proposed => {},
                _ => {
                    return Err(CatanError::InvalidState);
                },
            },
        }
        let mut t = self.trades.remove(&trade_id).unwrap();
        let _ = t.confirm_recipient(player);
        self.trades.insert(trade_id, t);
        proof {
            assert(self.trades@.remove(trade_id) =~= old(self)@.trades.remove(trade_id));
        }
        Ok(())
    }

    /// Marks the trade `trade_id` settled. Fails with `TradeNotFound` when no
    /// such trade is registered, and with `InvalidState` when it is not
    /// `LockedIn`; a failure changes nothing.
    pub fn complete_trade(&mut self, trade_id: TradeId) -> (r: Result<(), CatanError>)
        ensures
            final(self)@.pool == old(self)@.pool,
            final(self)@.cards == old(self)@.cards,
            !old(self)@.trades.contains_key(trade_id) ==> r == Err::<(), CatanError>(
                CatanError::TradeNotFound,
            ) && final(self)@.trades == old(self)@.trades,
            old(self)@.trades.contains_key(trade_id) && old(self)@.trades[trade_id]@.state
                != TradeState::LockedIn ==> r == Err::<(), CatanError>(CatanError::InvalidState)
                && final(self)@.trades == old(self)@.trades,
            old(self)@.trades.contains_key(trade_id) && old(self)@.trades[trade_id]@.state
                == TradeState::LockedIn ==> {
                &&& r is Ok
                &&& final(self)@.trades.contains_key(trade_id)
                &&& final(self)@.trades[trade_id]@ == (TradeView {
                    state: TradeState::Accepted,
                    ..old(self)@.trades[trade_id]@
                })
                &&& final(self)@.trades.remove(trade_id) == old(self)@.trades.remove(trade_id)
            },
    {
        match self.trades.get(&trade_id) {
            None => {
                return Err(CatanError::TradeNotFound);
            },
            Some(t) => match t.state() {
                TradeState::LockedIn => {},
                _ => {
                    return Err(CatanError::InvalidState);
                },
            },
        }
        let mut t = self.trades.remove(&trade_id).unwrap();
        let _ = t.complete();
        self.trades.insert(trade_id, t);
        proof {
            assert(self.trades@.remove(trade_id) =~= old(self)@.trades.remove(trade_id));
        }
        Ok(())
    }
}

impl Default for Bank {
    fn default() -> (r: Bank)
        ensures
            r@.pool.is_uniform(TOTAL_RESOURCES),
            r@.cards.is_canonical(),
            r@.trades == Map::<TradeId, Trade>::empty(),
    {
        Bank::new()
    }
}

} // verus!
