use vstd::prelude::*;

use crate::error::CatanError;
use crate::player::PlayerColour;
use crate::resources::Resources;

verus! {

/// Where a trade stands in its negotiation.
#[derive(Debug, Clone, Copy, PartialEq, Eq, Structural)]
pub enum TradeState {
    /// Soliciting interest; any party may signal acceptance.
    Proposed,
    /// A counter-party has been confirmed.
    LockedIn,
    /// Settled: the bundles have moved. Nothing leaves this state.
    Accepted,
}

/// A trade, as values.
pub struct TradeView {
    pub from: PlayerColour,
    pub accepted_by: Seq<PlayerColour>,
    pub to: Option<PlayerColour>,
    pub offering: Resources,
    pub wants: Resources,
    pub state: TradeState,
}

impl TradeView {
    /// A counter-party is recorded exactly when the trade has left `Proposed`.
    pub open spec fn wf(self) -> bool {
        (self.state == TradeState::Proposed) == (self.to is None)
    }
}

/// One proposed exchange: the initiating party gives `offering` and receives
/// `wants`.
#[derive(Debug)]
pub struct Trade {
    from: PlayerColour,
    accepted_by: Vec<PlayerColour>,
    to: Option<PlayerColour>,
    offering: Resources,
    wants: Resources,
    state: TradeState,
}

impl View for Trade {
    type V = TradeView;

    closed spec fn view(&self) -> TradeView {
        TradeView {
            from: self.from,
            accepted_by: self.accepted_by@,
            to: self.to,
            offering: self.offering,
            wants: self.wants,
            state: self.state,
        }
    }
}

impl Trade {
    /// A fresh proposal by `from`, accepted by nobody yet.
    pub fn new(from: PlayerColour, offering: Resources, wants: Resources) -> (r: Trade)
        ensures
            r@ == (TradeView {
                from,
                accepted_by: Seq::empty(),
                to: None,
                offering,
                wants,
                state: TradeState::Proposed,
            }),
            r@.wf(),
    {
        Trade { from, accepted_by: Vec::new(), to: None, offering, wants, state: TradeState::Proposed }
    }

    /// A trade rebuilt from its parts; `None` when a counter-party is given
    /// exactly when the state is `Proposed`, which no trade can reach.
    pub fn from_parts(
        from: PlayerColour,
        accepted_by: Vec<PlayerColour>,
        to: Option<PlayerColour>,
        offering: Resources,
        wants: Resources,
        state: TradeState,
    ) -> (r: Option<Trade>)
        ensures
            match r {
                Some(t) => t@ == (TradeView {
                    from,
                    accepted_by: accepted_by@,
                    to,
                    offering,
                    wants,
                    state,
                }) && t@.wf(),
                None => !(TradeView { from, accepted_by: accepted_by@, to, offering, wants, state }).wf(),
            },
    {
        let proposed = match state {
            TradeState::Proposed => true,
            _ => false,
        };
        if proposed != to.is_none() {
            return None;
        }
        Some(Trade { from, accepted_by, to, offering, wants, state })
    }

    /// The confirmed counter-party, if any, whatever the state.
    pub fn recipient(&self) -> (r: Option<PlayerColour>)
        ensures
            r == self@.to,
    {
        self.to
    }

    /// Records that `accepted_by` is willing to make this trade. Legal only
    /// while `Proposed`; the acceptance log keeps repeats.
    pub fn accept(&mut self, accepted_by: PlayerColour) -> (r: Result<(), CatanError>)
        ensures
            old(self)@.state == TradeState::Proposed ==> r is Ok && final(self)@ == (TradeView {
                accepted_by: old(self)@.accepted_by.push(accepted_by),
                ..old(self)@
            }),
            old(self)@.state != TradeState::Proposed ==> r == Err::<(), CatanError>(
                CatanError::InvalidState,
            ) && final(self)@ == old(self)@,
    {
        match self.state {
            TradeState::Proposed => {
                self.accepted_by.push(accepted_by);
                Ok(())
            },
            TradeState::LockedIn | TradeState::Accepted => Err(CatanError::InvalidState),
        }
    }

    /// Locks in `player` as the counter-party. Legal only while `Proposed`.
    pub fn confirm_recipient(&mut self, player: PlayerColour) -> (r: Result<(), CatanError>)
        ensures
            old(self)@.state == TradeState::Proposed ==> r is Ok && final(self)@ == (TradeView {
                to: Some(player),
                state: TradeState::LockedIn,
                ..old(self)@
            }),
            old(self)@.state != TradeState::Proposed ==> r == Err::<(), CatanError>(
                CatanError::InvalidState,
            ) && final(self)@ == old(self)@,
            old(self)@.wf() ==> final(self)@.wf(),
    {
        match self.state {
            TradeState::Proposed => {
                self.to = Some(player);
                self.state = TradeState::LockedIn;
                Ok(())
            },
            TradeState::LockedIn | TradeState::Accepted => Err(CatanError::InvalidState),
        }
    }

    /// Marks the trade settled. Legal only while `LockedIn`.
    pub fn complete(&mut self) -> (r: Result<(), CatanError>)
        ensures
            old(self)@.state == TradeState::LockedIn ==> r is Ok && final(self)@ == (TradeView {
                state: TradeState::Accepted,
                ..old(self)@
            }),
            old(self)@.state != TradeState::LockedIn ==> r == Err::<(), CatanError>(
                CatanError::InvalidState,
            ) && final(self)@ == old(self)@,
            old(self)@.wf() ==> final(self)@.wf(),
    {
        match self.state {
            TradeState::LockedIn => {
                self.state = TradeState::Accepted;
                Ok(())
            },
            TradeState::Proposed | TradeState::Accepted => Err(CatanError::InvalidState),
        }
    }

    /// The party that proposed the trade.
    pub fn get_offering_player(&self) -> (r: PlayerColour)
        ensures
            r == self@.from,
    {
        self.from
    }

    /// The confirmed counter-party; `NoPartner` while none is confirmed.
    pub fn get_trade_partner(&self) -> (r: Result<PlayerColour, CatanError>)
        ensures
            r == (if self@.state != TradeState::Proposed && self@.to is Some {
                Ok::<PlayerColour, CatanError>(self@.to->Some_0)
            } else {
                Err::<PlayerColour, CatanError>(CatanError::NoPartner)
            }),
            self@.wf() ==> (r is Ok <==> self@.state != TradeState::Proposed),
    {
        match self.state {
            TradeState::Proposed => Err(CatanError::NoPartner),
            TradeState::LockedIn | TradeState::Accepted => match self.to {
                Some(p) => Ok(p),
                None => Err(CatanError::NoPartner),
            },
        }
    }

    /// The bundle the proposing party gives.
    pub fn offering(&self) -> (r: &Resources)
        ensures
            *r == self@.offering,
    {
        &self.offering
    }

    /// The bundle the proposing party receives.
    pub fn wants(&self) -> (r: &Resources)
        ensures
            *r == self@.wants,
    {
        &self.wants
    }

    /// Where the trade stands.
    pub fn state(&self) -> (r: TradeState)
        ensures
            r == self@.state,
    {
        self.state
    }

    /// The parties that signalled acceptance, in order, repeats included.
    pub fn accepted_by(&self) -> (r: &Vec<PlayerColour>)
        ensures
            r@ == self@.accepted_by,
    {
        &self.accepted_by
    }
}

} // verus!
