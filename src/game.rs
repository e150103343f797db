use vstd::prelude::*;

use crate::bank::{Bank, BankView, TradeId};
use crate::chance::{random_below, random_identifier};
use crate::error::CatanError;
use crate::player::{Player, PlayerColour, PlayerView};
use crate::resources::Resources;
use crate::trade::{TradeState, TradeView};

verus! {

/// The phase a game is in.
#[derive(Debug, Clone, Copy, PartialEq, Eq, Structural)]
pub enum GameState {
    Setup,
    Running,
    Complete,
}

/// A game, as values.
pub struct GameView {
    pub players: Seq<PlayerView>,
    pub bank: BankView,
    pub state: GameState,
    pub turn_no: nat,
}

/// Some player in `players` has `colour`.
pub open spec fn has_colour(players: Seq<PlayerView>, colour: PlayerColour) -> bool {
    exists|i: int| 0 <= i < players.len() && #[trigger] players[i].colour == colour
}

/// `i` is the position of the first player in `players` with `colour`.
pub open spec fn is_first_with_colour(players: Seq<PlayerView>, colour: PlayerColour, i: int) -> bool {
    &&& 0 <= i < players.len()
    &&& players[i].colour == colour
    &&& forall|j: int| 0 <= j < i ==> #[trigger] players[j].colour != colour
}

/// The position of the first player in `players` with `colour`, where there
/// is one.
pub open spec fn index_of(players: Seq<PlayerView>, colour: PlayerColour) -> int {
    choose|i: int| is_first_with_colour(players, colour, i)
}

/// What a ledger holding `held` holds after giving `give` and receiving `get`.
pub open spec fn exchanged(held: Resources, give: Resources, get: Resources) -> Resources {
    held.spec_sub(give).spec_add(get)
}

/// The error with which settling the trade `id` fails in game `g`, or `None`
/// when it succeeds. The checks come in this order: the trade is registered,
/// it is `LockedIn` with a counter-party, both parties take part in the game,
/// each holds the bundle it gives, and each new count fits in `usize`.
pub open spec fn settlement_error(g: GameView, id: TradeId) -> Option<CatanError> {
    if !g.bank.trades.contains_key(id) {
        Some(CatanError::TradeNotFound)
    } else {
        let t = g.bank.trades[id]@;
        if t.state != TradeState::LockedIn {
            Some(CatanError::InvalidState)
        } else if t.to is None {
            Some(CatanError::NoPartner)
        } else if !has_colour(g.players, t.from) || !has_colour(g.players, t.to->Some_0) {
            Some(CatanError::PlayerNotFound)
        } else {
            let i = index_of(g.players, t.from);
            let j = index_of(g.players, t.to->Some_0);
            if !g.players[i].resources.covers(t.offering) || !g.players[j].resources.covers(
                t.wants,
            ) {
                Some(CatanError::InsufficientFunds)
            } else if i != j && (!g.players[i].resources.spec_sub(t.offering).sum_fits(t.wants)
                || !g.players[j].resources.spec_sub(t.wants).sum_fits(t.offering)) {
                Some(CatanError::Overflow)
            } else {
                None
            }
        }
    }
}

/// A game: the players' ledgers, the bank, and the phase.
#[derive(Debug)]
pub struct Game {
    players: Vec<Player>,
    bank: Bank,
    state: GameState,
    turn_no: usize,
}

impl View for Game {
    type V = GameView;

    closed spec fn view(&self) -> GameView {
        GameView {
            players: player_views(self.players@),
            bank: self.bank@,
            state: self.state,
            turn_no: self.turn_no as nat,
        }
    }
}

/// The views of the players, in order.
pub open spec fn player_views(players: Seq<Player>) -> Seq<PlayerView> {
    players.map_values(|p: Player| p@)
}

proof fn lemma_views_of_update(players: Seq<Player>, i: int)
    requires
        0 <= i < players.len(),
    ensures
        forall|p: Player|
            #[trigger] player_views(players.update(i, p)) == player_views(players).update(i, p@),
{
    assert forall|p: Player| #[trigger]
        player_views(players.update(i, p)) == player_views(players).update(i, p@) by {
        assert(player_views(players.update(i, p)) =~= player_views(players).update(i, p@));
    }
}

/// The first position with a colour is the one `index_of` names.
pub proof fn lemma_first_is_chosen(players: Seq<PlayerView>, colour: PlayerColour, i: int)
    requires
        is_first_with_colour(players, colour, i),
    ensures
        index_of(players, colour) == i,
{
    let k = index_of(players, colour);
    assert(is_first_with_colour(players, colour, k));
    if k < i {
        assert(players[k].colour != colour);
    } else if i < k {
        assert(players[i].colour != colour);
    }
}

impl Game {
    /// A game in setup, with no players and a complete bank.
    pub fn new() -> (r: Game)
        ensures
            r@.players == Seq::<PlayerView>::empty(),
            r@.bank.pool.is_uniform(crate::bank::TOTAL_RESOURCES),
            r@.bank.cards.is_canonical(),
            r@.bank.trades == Map::<TradeId, crate::trade::Trade>::empty(),
            r@.state == GameState::Setup,
            r@.turn_no == 0,
    {
        let r = Game { players: Vec::new(), bank: Bank::new(), state: GameState::Setup, turn_no: 0 };
        proof {
            assert(r@.players =~= Seq::<PlayerView>::empty());
        }
        r
    }

    /// A fresh random identifier for a game in setup; `InvalidState` once the
    /// game has started.
    pub fn get_game_id(&self) -> (r: Result<u128, CatanError>)
        ensures
            self@.state == GameState::Setup <==> r is Ok,
            self@.state != GameState::Setup ==> r == Err::<u128, CatanError>(
                CatanError::InvalidState,
            ),
    {
        match self.state {
            GameState::Setup => Ok(random_identifier()),
            GameState::Running | GameState::Complete => Err(CatanError::InvalidState),
        }
    }

    /// Adds a player of the given colour, holding nothing, after the others.
    pub fn add_player(&mut self, colour: PlayerColour)
        requires
            old(self)@.players.len() < usize::MAX,
        ensures
            final(self)@ == (GameView {
                players: old(self)@.players.push(
                    PlayerView {
                        colour,
                        resources: Resources { ore: 0, grain: 0, wool: 0, brick: 0, lumber: 0 },
                        development_cards: Seq::empty(),
                        victory_points: 0,
                    },
                ),
                ..old(self)@
            }),
    {
        self.players.push(Player::new(colour));
        proof {
            assert(self@.players =~= old(self)@.players.push(
                PlayerView {
                    colour,
                    resources: Resources { ore: 0, grain: 0, wool: 0, brick: 0, lumber: 0 },
                    development_cards: Seq::empty(),
                    victory_points: 0,
                },
            ));
        }
    }

    /// Two dice, each showing 1 to 5.
    pub fn roll_dice() -> (r: (u8, u8))
        ensures
            1 <= r.0 <= 5,
            1 <= r.1 <= 5,
    {
        let first = random_below(5);
        let second = random_below(5);
        ((first + 1) as u8, (second + 1) as u8)
    }

    /// The position of the first player with `colour`.
    fn find_player(&self, colour: PlayerColour) -> (r: Option<usize>)
        ensures
            match r {
                Some(i) => is_first_with_colour(self@.players, colour, i as int)
                    && index_of(self@.players, colour) == i,
                None => !has_colour(self@.players, colour),
            },
    {
        let mut i: usize = 0;
        while i < self.players.len()
            invariant
                i <= self.players.len(),
                self@.players.len() == self.players.len(),
                forall|j: int| 0 <= j < i ==> #[trigger] self@.players[j].colour != colour,
            decreases self.players.len() - i,
        {
            if *self.players[i].colour() == colour {
                proof {
                    lemma_first_is_chosen(self@.players, colour, i as int);
                }
                return Some(i);
            }
            i = i + 1;
        }
        None
    }

    /// The first player with `colour`; `PlayerNotFound` when there is none.
    pub fn get_player(&self, colour: &PlayerColour) -> (r: Result<&Player, CatanError>)
        ensures
            match r {
                Ok(p) => has_colour(self@.players, *colour) && p@ == self@.players[index_of(
                    self@.players,
                    *colour,
                )],
                Err(e) => !has_colour(self@.players, *colour) && e == CatanError::PlayerNotFound,
            },
    {
        match self.find_player(*colour) {
            Some(i) => Ok(&self.players[i]),
            None => Err(CatanError::PlayerNotFound),
        }
    }

    /// Replaces the resources of the player at position `i`.
    fn set_resources(&mut self, i: usize, resources: Resources)
        requires
            i < old(self)@.players.len(),
        ensures
            final(self)@ == (GameView {
                players: old(self)@.players.update(
                    i as int,
                    PlayerView { resources, ..old(self)@.players[i as int] },
                ),
                ..old(self)@
            }),
    {
        *self.players[i].resources_mut() = resources;
        proof {
            assert(self@.players =~= old(self)@.players.update(
                i as int,
                PlayerView { resources, ..old(self)@.players[i as int] },
            ));
        }
    }

    /// Settles the trade `trade_id`: the proposing party gives its offering
    /// to the confirmed counter-party and receives what it wants, and the
    /// trade becomes `Accepted`. Both parties' holdings are checked before
    /// either ledger is touched; on any failure nothing changes. The error is
    /// the one `settlement_error` names.
    pub fn finalize_trade(&mut self, trade_id: TradeId) -> (r: Result<(), CatanError>)
        ensures
            r is Ok <==> settlement_error(old(self)@, trade_id) is None,
            r is Err ==> r == Err::<(), CatanError>(settlement_error(old(self)@, trade_id)->Some_0)
                && final(self)@ == old(self)@,
            r is Ok ==> {
                let g = old(self)@;
                let t = g.bank.trades[trade_id]@;
                let i = index_of(g.players, t.from);
                let j = index_of(g.players, t.to->Some_0);
                &&& final(self)@.bank.trades.contains_key(trade_id)
                &&& final(self)@.bank.trades[trade_id]@ == (TradeView {
                    state: TradeState::Accepted,
                    ..t
                })
                &&& final(self)@.bank.trades.remove(trade_id) == g.bank.trades.remove(trade_id)
                &&& final(self)@.bank.pool == g.bank.pool
                &&& final(self)@.bank.cards == g.bank.cards
                &&& final(self)@.state == g.state
                &&& final(self)@.turn_no == g.turn_no
                &&& final(self)@.players == (if i == j {
                    g.players
                } else {
                    g.players.update(
                        i,
                        PlayerView {
                            resources: exchanged(g.players[i].resources, t.offering, t.wants),
                            ..g.players[i]
                        },
                    ).update(
                        j,
                        PlayerView {
                            resources: exchanged(g.players[j].resources, t.wants, t.offering),
                            ..g.players[j]
                        },
                    )
                })
            },
    {
        let (offering, wants, from, partner) = match self.bank.get_trade(trade_id) {
            None => {
                return Err(CatanError::TradeNotFound);
            },
            Some(t) => {
                match t.state() {
                    TradeState::LockedIn => {},
                    _ => {
                        return Err(CatanError::InvalidState);
                    },
                }
                let partner = match t.get_trade_partner() {
                    Ok(p) => p,
                    Err(e) => {
                        return Err(e);
                    },
                };
                (*t.offering(), *t.wants(), t.get_offering_player(), partner)
            },
        };
        let i = match self.find_player(from) {
            Some(i) => i,
            None => {
                return Err(CatanError::PlayerNotFound);
            },
        };
        let j = match self.find_player(partner) {
            Some(j) => j,
            None => {
                return Err(CatanError::PlayerNotFound);
            },
        };
        let held_i = *self.players[i].resources();
        let held_j = *self.players[j].resources();
        if !held_i.contains(&offering) || !held_j.contains(&wants) {
            return Err(CatanError::InsufficientFunds);
        }
        if i != j {
            let new_i = match held_i.subtract(offering) {
                Ok(d) => d,
                Err(e) => {
                    return Err(e);
                },
            };
            let new_i = match new_i.checked_add(wants) {
                Ok(s) => s,
                Err(e) => {
                    return Err(e);
                },
            };
            let new_j = match held_j.subtract(wants) {
                Ok(d) => d,
                Err(e) => {
                    return Err(e);
                },
            };
            let new_j = match new_j.checked_add(offering) {
                Ok(s) => s,
                Err(e) => {
                    return Err(e);
                },
            };
            self.set_resources(i, new_i);
            self.set_resources(j, new_j);
        }
        let _ = self.bank.complete_trade(trade_id);
        Ok(())
    }

    /// The bank.
    pub fn get_bank(&self) -> (r: &Bank)
        ensures
            r@ == self@.bank,
    {
        &self.bank
    }
    /// The first player with `colour`, for change in place; the rest of the
    /// game stays as it was. `PlayerNotFound` when there is none.
    pub fn get_player_mut(&mut self, colour: PlayerColour) -> (r: Result<&mut Player, CatanError>)
        ensures
            match r {
                Ok(p) => {
                    let i = index_of(old(self)@.players, colour);
                    &&& has_colour(old(self)@.players, colour)
                    &&& p@ == old(self)@.players[i]
                    &&& final(self)@ == (GameView {
                        players: old(self)@.players.update(i, final(p)@),
                        ..old(self)@
                    })
                },
                Err(e) => !has_colour(old(self)@.players, colour) && e == CatanError::PlayerNotFound
                    && final(self)@ == old(self)@,
            },
    {
        match self.find_player(colour) {
            Some(i) => {
                proof {
                    lemma_views_of_update(self.players@, i as int);
                }
                Ok(&mut self.players[i])
            },
            None => Err(CatanError::PlayerNotFound),
        }
    }

    /// The bank, for change in place; the rest of the game stays as it was.
    pub fn get_bank_mut(&mut self) -> (r: &mut Bank)
        ensures
            r@ == old(self)@.bank,
            final(self)@ == (GameView { bank: final(r)@, ..old(self)@ }),
    {
        &mut self.bank
    }
}

impl Default for Game {
    fn default() -> (r: Game)
        ensures
            r@.players == Seq::<PlayerView>::empty(),
            r@.bank.pool.is_uniform(crate::bank::TOTAL_RESOURCES),
            r@.bank.cards.is_canonical(),
            r@.bank.trades == Map::<TradeId, crate::trade::Trade>::empty(),
            r@.state == GameState::Setup,
            r@.turn_no == 0,
    {
        Game::new()
    }
}

} // verus!
