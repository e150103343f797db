use catan_game_logic::bank::Bank;
use catan_game_logic::development_cards::DevelopmentCard::{
    HiddenVictoryPoint, Knight, Monopoly, RoadBuilding, YearOfPlenty,
};
use catan_game_logic::error::CatanError;
use catan_game_logic::player::PlayerColour;
use catan_game_logic::resources::ResourceKind::{Brick, Grain, Lumber, Ore, Wool};
use catan_game_logic::resources::Resources;
use catan_game_logic::trade::TradeState;

#[test]
fn bank_test_init() {
    let b = Bank::new();

    assert_eq!(b.resources().get(Ore), 19);
    assert_eq!(b.resources().get(Wool), 19);
    assert_eq!(b.resources().get(Grain), 19);
    assert_eq!(b.resources().get(Lumber), 19);
    assert_eq!(b.resources().get(Brick), 19);

    assert_eq!(b.development_cards().count(YearOfPlenty), 2);
    assert_eq!(b.development_cards().count(Monopoly), 2);
    assert_eq!(b.development_cards().count(Knight), 14);
    assert_eq!(b.development_cards().count(RoadBuilding), 2);
    assert_eq!(b.development_cards().count(HiddenVictoryPoint), 5);
}

#[test]
fn test_dev_card_distribution() {
    let mut b = Bank::new();
    let dev_card = b.distribute_random_development_card();

    assert!(dev_card.is_ok());
}

#[test]
fn test_resource_distribution() {
    let mut b = Bank::new();
    let resources = b.distribute_resource(Ore, 5);

    assert!(resources.is_ok_and(|r| r == Resources::new_explicit(5, 0, 0, 0, 0)));
    assert_eq!(b.resources().get(Ore), 14);

    let more_resources = b.distribute_resource(Ore, 20);
    assert!(more_resources.is_err());
    assert_eq!(b.resources().get(Ore), 14);
}

#[test]
fn test_resource_return() {
    let mut b = Bank::new();
    let resources = b.distribute_resource(Ore, 4).unwrap();
    assert_eq!(b.resources().get(Ore), 15);
    b.return_resources(resources);
    assert_eq!(b.resources().get(Ore), 19);
}

#[test]
fn test_propose_trade() {
    let mut b = Bank::new();
    let red = PlayerColour::Red;
    let trade_id = b.propose_trade(
        red,
        Resources::new_explicit(0, 0, 1, 0, 1),
        Resources::new_explicit(2, 0, 0, 0, 0),
    );
    assert_eq!(b.trade_count(), 1);
    assert!(b.get_trade(trade_id).is_some());
}

#[test]
fn test_accept_trade() {
    let mut b = Bank::new();
    let red = PlayerColour::Red;
    let blue = PlayerColour::Blue;
    let trade_id = b.propose_trade(
        red,
        Resources::new_explicit(0, 0, 1, 0, 1),
        Resources::new_explicit(2, 0, 0, 0, 0),
    );
    assert!(b.accept_trade(trade_id, blue).is_ok());
    assert_eq!(b.get_trade(trade_id).unwrap().state(), TradeState::Proposed);
}

#[test]
fn test_finalize_trade() {
    let mut b = Bank::new();
    let red = PlayerColour::Red;
    let blue = PlayerColour::Blue;
    let trade_id = b.propose_trade(
        red,
        Resources::new_explicit(0, 0, 1, 0, 1),
        Resources::new_explicit(2, 0, 0, 0, 0),
    );
    let _ = b.accept_trade(trade_id, blue);
    let _ = b.finalize_trade(trade_id, blue);

    assert_eq!(b.get_trade(trade_id).unwrap().state(), TradeState::LockedIn)
}

#[test]
fn test_return_dev_card() {
    let mut b = Bank::new();
    let dc = b.distribute_random_development_card();

    assert!(dc.is_ok());
    b.return_dev_card(dc.unwrap());
}

#[test]
fn distribute_then_return_restores_pool() {
    let mut b = Bank::new();
    b.distribute_resource(Wool, 3).unwrap();
    let before = b.resources();
    let handed = b.distribute_resource(Brick, 7).unwrap();
    assert_eq!(handed, Resources::new_explicit(0, 0, 0, 7, 0));
    assert_eq!(b.resources(), Resources::new_explicit(19, 19, 16, 12, 19));
    b.return_resources(handed);
    assert_eq!(b.resources(), before);
}

#[test]
fn distribute_whole_supply_then_fail() {
    let mut b = Bank::new();
    assert_eq!(b.distribute_resource(Lumber, 19), Ok(Resources::new_explicit(0, 0, 0, 0, 19)));
    assert_eq!(b.resources().get(Lumber), 0);
    assert_eq!(b.distribute_resource(Lumber, 1), Err(CatanError::InsufficientSupply));
    assert_eq!(b.distribute_resource(Lumber, 0), Ok(Resources::new()));
}

#[test]
fn resource_units_are_conserved() {
    let mut b = Bank::new();
    let mut out: Vec<Resources> = Vec::new();
    out.push(b.distribute_resource(Ore, 5).unwrap());
    out.push(b.distribute_resource(Grain, 19).unwrap());
    out.push(b.distribute_resource(Wool, 2).unwrap());
    let units = |r: &Resources| r.pairs().iter().map(|p| p.1).sum::<usize>();
    let total_out: usize = out.iter().map(units).sum();
    assert_eq!(units(&b.resources()) + total_out, 95);
    b.return_resources(out.remove(1));
    let total_out: usize = out.iter().map(units).sum();
    assert_eq!(units(&b.resources()) + total_out, 95);
}

#[test]
fn development_cards_are_conserved() {
    let mut b = Bank::new();
    let mut out = Vec::new();
    for _ in 0..10 {
        out.push(b.distribute_random_development_card().unwrap());
    }
    let stock = |b: &Bank| {
        let s = b.development_cards();
        s.year_of_plenty + s.monopoly + s.knight + s.road_building + s.hidden_victory_point
    };
    assert_eq!(stock(&b) + out.len(), 25);
    b.return_dev_card(out.pop().unwrap());
    b.return_dev_card(out.pop().unwrap());
    assert_eq!(stock(&b) + out.len(), 25);
}

#[test]
fn bank_deck_runs_out_after_twenty_five() {
    let mut b = Bank::new();
    for _ in 0..25 {
        assert!(b.distribute_random_development_card().is_ok());
    }
    assert_eq!(b.distribute_random_development_card(), Err(CatanError::Exhausted));
}

#[test]
fn trade_errors() {
    let mut b = Bank::default();
    assert_eq!(b.accept_trade(7, PlayerColour::Red), Err(CatanError::TradeNotFound));
    assert_eq!(b.finalize_trade(7, PlayerColour::Red), Err(CatanError::TradeNotFound));
    assert_eq!(b.complete_trade(7), Err(CatanError::TradeNotFound));
    let id = b.propose_trade(PlayerColour::Red, Resources::new(), Resources::new());
    assert_eq!(b.complete_trade(id), Err(CatanError::InvalidState));
    assert_eq!(b.finalize_trade(id, PlayerColour::Green), Ok(()));
    assert_eq!(b.accept_trade(id, PlayerColour::Blue), Err(CatanError::InvalidState));
    assert_eq!(b.finalize_trade(id, PlayerColour::Blue), Err(CatanError::InvalidState));
    assert_eq!(b.complete_trade(id), Ok(()));
    assert_eq!(b.get_trade(id).unwrap().state(), TradeState::Accepted);
    assert_eq!(b.accept_trade(id, PlayerColour::Blue), Err(CatanError::InvalidState));
}

#[test]
fn identifiers_are_not_reused() {
    let mut b = Bank::new();
    let first = b.propose_trade_with_id(41, PlayerColour::Red, Resources::new(), Resources::new());
    assert_eq!(first, 41);
    let second = b.propose_trade_with_id(41, PlayerColour::Blue, Resources::new(), Resources::new());
    assert_eq!(second, 42);
    let third = b.propose_trade_with_id(u128::MAX, PlayerColour::Green, Resources::new(), Resources::new());
    assert_eq!(third, u128::MAX);
    let fourth = b.propose_trade_with_id(u128::MAX, PlayerColour::Green, Resources::new(), Resources::new());
    assert_eq!(fourth, 0);
    assert_eq!(b.unused_identifier(41), 43);
    assert_eq!(b.trade_count(), 4);
    assert_eq!(b.get_trade(42).unwrap().get_offering_player(), PlayerColour::Blue);
    let random = b.propose_trade(PlayerColour::Purple, Resources::new(), Resources::new());
    assert_eq!(b.trade_count(), 5);
    assert_eq!(b.get_trade(random).unwrap().get_offering_player(), PlayerColour::Purple);
}

#[test]
fn trade_with_bank_offers_four_for_one() {
    let mut b = Bank::new();
    let id = b.propose_trade_with_bank(PlayerColour::Red, Resources::new_explicit(0, 1, 0, 0, 0)).unwrap();
    let t = b.get_trade(id).unwrap();
    assert_eq!(*t.offering(), Resources::new_explicit(0, 4, 0, 0, 0));
    assert_eq!(*t.wants(), Resources::new_explicit(0, 1, 0, 0, 0));
    let huge = Resources::new_explicit(usize::MAX, 0, 0, 0, 0);
    assert_eq!(b.propose_trade_with_bank(PlayerColour::Red, huge), Err(CatanError::Overflow));
    assert_eq!(b.trade_count(), 1);
}

#[test]
fn registry_lists_and_restores_trades() {
    let mut b = Bank::new();
    let first = b.propose_trade_with_id(3, PlayerColour::Red, Resources::new(), Resources::new());
    let second = b.propose_trade_with_id(9, PlayerColour::Blue, Resources::new(), Resources::new());
    let mut ids = b.trade_ids();
    ids.sort();
    assert_eq!(ids, vec![first, second]);

    let mut copy = Bank::from_parts(b.development_cards(), b.resources());
    assert_eq!(copy.trade_count(), 0);
    let t = catan_game_logic::trade::Trade::from_parts(
        PlayerColour::Red,
        vec![PlayerColour::Green],
        Some(PlayerColour::Green),
        Resources::new_explicit(1, 0, 0, 0, 0),
        Resources::new(),
        TradeState::LockedIn,
    )
    .unwrap();
    assert!(copy.restore_trade(3, t));
    assert_eq!(copy.get_trade(3).unwrap().recipient(), Some(PlayerColour::Green));
    let again = catan_game_logic::trade::Trade::new(PlayerColour::Red, Resources::new(), Resources::new());
    assert!(!copy.restore_trade(3, again));
    assert_eq!(copy.get_trade(3).unwrap().state(), TradeState::LockedIn);
}

#[test]
fn inconsistent_trade_parts_are_refused() {
    let t = catan_game_logic::trade::Trade::from_parts(
        PlayerColour::Red,
        Vec::new(),
        None,
        Resources::new(),
        Resources::new(),
        TradeState::LockedIn,
    );
    assert!(t.is_none());
    let t = catan_game_logic::trade::Trade::from_parts(
        PlayerColour::Red,
        Vec::new(),
        Some(PlayerColour::Blue),
        Resources::new(),
        Resources::new(),
        TradeState::Proposed,
    );
    assert!(t.is_none());
}

#[test]
fn trade_changed_in_place() {
    let mut b = Bank::new();
    let id = b.propose_trade(PlayerColour::Red, Resources::new(), Resources::new());
    assert!(b.get_trade_mut(id.wrapping_add(1)).is_none());
    let t = b.get_trade_mut(id).unwrap();
    t.accept(PlayerColour::Green).unwrap();
    t.confirm_recipient(PlayerColour::Green).unwrap();
    assert_eq!(b.get_trade(id).unwrap().state(), TradeState::LockedIn);
    assert_eq!(*b.get_trade(id).unwrap().accepted_by(), vec![PlayerColour::Green]);
}
