use catan_game_logic::building::Building;
use catan_game_logic::error::CatanError;
use catan_game_logic::resources::{ResourceKind, Resources};

#[test]
fn resources_test_init() {
    let r = Resources::new();
    assert_eq!(
        r,
        Resources {
            ore: 0,
            grain: 0,
            wool: 0,
            brick: 0,
            lumber: 0,
        }
    );

    let r = Resources::new_with_amount(20);
    assert_eq!(
        r,
        Resources {
            ore: 20,
            grain: 20,
            wool: 20,
            brick: 20,
            lumber: 20
        }
    );

    let r = Resources::new_explicit(5, 3, 2, 6, 2);
    assert_eq!(
        r,
        Resources {
            ore: 5,
            grain: 3,
            wool: 2,
            brick: 6,
            lumber: 2
        }
    );
}

#[test]
fn test_index() {
    let r = Resources::new_with_amount(20);
    assert_eq!(r.get(ResourceKind::Ore), 20);
}

#[test]
fn test_can_build() {
    let r = Building::Road.get_resource_cost();
    assert!(r.can_build(Building::Road));

    let r = Building::Settlement.get_resource_cost();
    assert!(r.can_build(Building::Settlement));

    let r = Building::City.get_resource_cost();
    assert!(r.can_build(Building::City));
}

#[test]
fn cannot_build_without_the_cost() {
    let r = Resources::new_explicit(2, 2, 0, 0, 0);
    assert!(!r.can_build(Building::City));
    assert!(!Resources::new().can_build(Building::Road));
}

#[test]
fn building_costs() {
    assert_eq!(Building::Settlement.get_resource_cost(), Resources::new_explicit(0, 1, 1, 1, 1));
    assert_eq!(Building::City.get_resource_cost(), Resources::new_explicit(3, 2, 0, 0, 0));
    assert_eq!(Building::Road.get_resource_cost(), Resources::new_explicit(0, 0, 0, 1, 1));
}

#[test]
fn set_changes_one_kind() {
    let mut r = Resources::new_explicit(1, 2, 3, 4, 5);
    r.set(ResourceKind::Lumber, 9);
    assert_eq!(r, Resources::new_explicit(1, 2, 3, 4, 9));
    assert_eq!(r.get(ResourceKind::Brick), 4);
}

#[test]
fn add_is_element_wise() {
    let a = Resources::new_explicit(1, 2, 3, 4, 5);
    let b = Resources::new_explicit(10, 20, 30, 40, 50);
    assert_eq!(a.add(b), Resources::new_explicit(11, 22, 33, 44, 55));
    let mut c = a;
    c.add_assign(b);
    assert_eq!(c, Resources::new_explicit(11, 22, 33, 44, 55));
}

#[test]
fn checked_add_overflows() {
    let a = Resources::new_explicit(0, 0, 0, 0, usize::MAX);
    let b = Resources::new_explicit(0, 0, 0, 0, 1);
    assert_eq!(a.checked_add(b), Err(CatanError::Overflow));
    assert_eq!(b.checked_add(b), Ok(Resources::new_explicit(0, 0, 0, 0, 2)));
}

#[test]
fn subtract_is_element_wise() {
    let a = Resources::new_explicit(11, 22, 33, 44, 55);
    let b = Resources::new_explicit(1, 2, 3, 4, 5);
    assert_eq!(a.subtract(b), Ok(Resources::new_explicit(10, 20, 30, 40, 50)));
}

#[test]
fn subtract_underflow_fails() {
    let a = Resources::new_explicit(5, 5, 5, 5, 0);
    let b = Resources::new_explicit(0, 0, 0, 0, 1);
    assert_eq!(a.subtract(b), Err(CatanError::Underflow));
    let mut c = a;
    assert_eq!(c.subtract_assign(b), Err(CatanError::Underflow));
    assert_eq!(c, a);
    assert_eq!(c.subtract_assign(Resources::new_explicit(1, 0, 2, 0, 0)), Ok(()));
    assert_eq!(c, Resources::new_explicit(4, 5, 3, 5, 0));
}

#[test]
fn scale_multiplies_each_count() {
    let a = Resources::new_explicit(1, 0, 2, 3, 4);
    assert_eq!(a.scale(4), Resources::new_explicit(4, 0, 8, 12, 16));
    let mut b = a;
    b.scale_assign(3);
    assert_eq!(b, Resources::new_explicit(3, 0, 6, 9, 12));
}

#[test]
fn pairs_in_fixed_order() {
    let a = Resources::new_explicit(1, 2, 3, 4, 5);
    assert_eq!(
        a.pairs(),
        vec![
            (ResourceKind::Ore, 1),
            (ResourceKind::Grain, 2),
            (ResourceKind::Wool, 3),
            (ResourceKind::Brick, 4),
            (ResourceKind::Lumber, 5),
        ]
    );
}

#[test]
fn contains_checks_every_kind() {
    let a = Resources::new_explicit(1, 1, 1, 1, 1);
    assert!(a.contains(&Resources::new_explicit(1, 0, 1, 0, 1)));
    assert!(!a.contains(&Resources::new_explicit(0, 0, 0, 0, 2)));
    assert_eq!(Resources::default(), Resources::new());
}

#[test]
fn parse_names_in_any_case() {
    assert_eq!(ResourceKind::from_name("ORE"), Some(ResourceKind::Ore));
    assert_eq!(ResourceKind::from_name("Lumber"), Some(ResourceKind::Lumber));
    assert_eq!(ResourceKind::from_name("brick"), Some(ResourceKind::Brick));
    assert_eq!(ResourceKind::from_name("foo"), None);
    assert_eq!(ResourceKind::from_lowercase_name("Wool"), None);
    assert_eq!(ResourceKind::from_lowercase_name("wool"), Some(ResourceKind::Wool));
    assert_eq!(ResourceKind::from_lowercase_name("grain"), Some(ResourceKind::Grain));
}
