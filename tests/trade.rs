use catan_game_logic::error::CatanError;
use catan_game_logic::player::PlayerColour;
use catan_game_logic::resources::Resources;
use catan_game_logic::trade::{Trade, TradeState};

fn sample() -> Trade {
    Trade::new(
        PlayerColour::Red,
        Resources::new_explicit(0, 0, 1, 0, 1),
        Resources::new_explicit(2, 0, 0, 0, 0),
    )
}

#[test]
fn proposal_starts_proposed() {
    let t = sample();
    assert_eq!(t.state(), TradeState::Proposed);
    assert!(t.accepted_by().is_empty());
    assert_eq!(t.get_offering_player(), PlayerColour::Red);
    assert_eq!(*t.offering(), Resources::new_explicit(0, 0, 1, 0, 1));
    assert_eq!(*t.wants(), Resources::new_explicit(2, 0, 0, 0, 0));
    assert_eq!(t.get_trade_partner(), Err(CatanError::NoPartner));
}

#[test]
fn accept_keeps_proposed_and_logs_repeats() {
    let mut t = sample();
    assert_eq!(t.accept(PlayerColour::Blue), Ok(()));
    assert_eq!(t.accept(PlayerColour::Blue), Ok(()));
    assert_eq!(t.accept(PlayerColour::Green), Ok(()));
    assert_eq!(t.state(), TradeState::Proposed);
    assert_eq!(
        *t.accepted_by(),
        vec![PlayerColour::Blue, PlayerColour::Blue, PlayerColour::Green]
    );
}

#[test]
fn confirm_locks_in_partner() {
    let mut t = sample();
    let custom = PlayerColour::Custom { r: 1, g: 2, b: 3 };
    assert_eq!(t.confirm_recipient(custom), Ok(()));
    assert_eq!(t.state(), TradeState::LockedIn);
    assert_eq!(t.get_trade_partner(), Ok(custom));
}

#[test]
fn no_accept_or_confirm_after_lock_in() {
    let mut t = sample();
    t.confirm_recipient(PlayerColour::Blue).unwrap();
    assert_eq!(t.accept(PlayerColour::Green), Err(CatanError::InvalidState));
    assert_eq!(t.confirm_recipient(PlayerColour::Green), Err(CatanError::InvalidState));
    assert_eq!(t.get_trade_partner(), Ok(PlayerColour::Blue));
    assert!(t.accepted_by().is_empty());
}

#[test]
fn complete_only_from_locked_in() {
    let mut t = sample();
    assert_eq!(t.complete(), Err(CatanError::InvalidState));
    t.confirm_recipient(PlayerColour::Blue).unwrap();
    assert_eq!(t.complete(), Ok(()));
    assert_eq!(t.state(), TradeState::Accepted);
    assert_eq!(t.complete(), Err(CatanError::InvalidState));
    assert_eq!(t.accept(PlayerColour::Green), Err(CatanError::InvalidState));
    assert_eq!(t.confirm_recipient(PlayerColour::Green), Err(CatanError::InvalidState));
    assert_eq!(t.get_trade_partner(), Ok(PlayerColour::Blue));
}
