//! Properties that relate several operations of the bank and the card stock.

use vstd::prelude::*;

use crate::bank::single;
use crate::development_cards::{DevelopmentCard, DevelopmentCardStock};
use crate::resources::{ResourceKind, Resources};

verus! {

/// The resource units held in a sequence of bundles, all together.
pub open spec fn units_out(bundles: Seq<Resources>) -> int
    decreases bundles.len(),
{
    if bundles.len() == 0 {
        0
    } else {
        units_out(bundles.drop_last()) + bundles.last().total()
    }
}

proof fn lemma_units_out_remove(bundles: Seq<Resources>, i: int)
    requires
        0 <= i < bundles.len(),
    ensures
        units_out(bundles.remove(i)) == units_out(bundles) - bundles[i].total(),
    decreases bundles.len(),
{
    if i == bundles.len() - 1 {
        assert(bundles.remove(i) =~= bundles.drop_last());
    } else {
        let shorter = bundles.drop_last();
        lemma_units_out_remove(shorter, i);
        assert(bundles.remove(i).drop_last() =~= shorter.remove(i));
        assert(bundles.remove(i).last() == bundles.last());
    }
}

proof fn lemma_single_total(kind: ResourceKind, amount: usize)
    ensures
        single(kind, amount).total() == amount,
{
}

proof fn lemma_difference_total(after: Resources, before: Resources, taken: Resources)
    requires
        before.covers(taken),
        after.is_difference(before, taken),
    ensures
        after.total() == before.total() - taken.total(),
{
    assert(after.spec_get(ResourceKind::Ore) == before.spec_get(ResourceKind::Ore) - taken.spec_get(ResourceKind::Ore));
    assert(after.spec_get(ResourceKind::Grain) == before.spec_get(ResourceKind::Grain) - taken.spec_get(ResourceKind::Grain));
    assert(after.spec_get(ResourceKind::Wool) == before.spec_get(ResourceKind::Wool) - taken.spec_get(ResourceKind::Wool));
    assert(after.spec_get(ResourceKind::Brick) == before.spec_get(ResourceKind::Brick) - taken.spec_get(ResourceKind::Brick));
    assert(after.spec_get(ResourceKind::Lumber) == before.spec_get(ResourceKind::Lumber) - taken.spec_get(ResourceKind::Lumber));
}

proof fn lemma_sum_total(after: Resources, before: Resources, added: Resources)
    requires
        after.is_sum(before, added),
    ensures
        after.total() == before.total() + added.total(),
{
    assert(after.spec_get(ResourceKind::Ore) == before.spec_get(ResourceKind::Ore) + added.spec_get(ResourceKind::Ore));
    assert(after.spec_get(ResourceKind::Grain) == before.spec_get(ResourceKind::Grain) + added.spec_get(ResourceKind::Grain));
    assert(after.spec_get(ResourceKind::Wool) == before.spec_get(ResourceKind::Wool) + added.spec_get(ResourceKind::Wool));
    assert(after.spec_get(ResourceKind::Brick) == before.spec_get(ResourceKind::Brick) + added.spec_get(ResourceKind::Brick));
    assert(after.spec_get(ResourceKind::Lumber) == before.spec_get(ResourceKind::Lumber) + added.spec_get(ResourceKind::Lumber));
}

proof fn lemma_draw_total(before: DevelopmentCardStock, after: DevelopmentCardStock, kind: DevelopmentCard)
    requires
        DevelopmentCardStock::is_draw(before, after, kind),
    ensures
        after.total() == before.total() - 1,
{
    assert(after.spec_count(DevelopmentCard::YearOfPlenty) == before.spec_count(DevelopmentCard::YearOfPlenty) - if kind == DevelopmentCard::YearOfPlenty { 1int } else { 0 });
    assert(after.spec_count(DevelopmentCard::Monopoly) == before.spec_count(DevelopmentCard::Monopoly) - if kind == DevelopmentCard::Monopoly { 1int } else { 0 });
    assert(after.spec_count(DevelopmentCard::Knight) == before.spec_count(DevelopmentCard::Knight) - if kind == DevelopmentCard::Knight { 1int } else { 0 });
    assert(after.spec_count(DevelopmentCard::RoadBuilding) == before.spec_count(DevelopmentCard::RoadBuilding) - if kind == DevelopmentCard::RoadBuilding { 1int } else { 0 });
    assert(after.spec_count(DevelopmentCard::HiddenVictoryPoint) == before.spec_count(DevelopmentCard::HiddenVictoryPoint) - if kind == DevelopmentCard::HiddenVictoryPoint { 1int } else { 0 });
}

/// Handing out `amount` units of `kind` and then taking the handed-out bundle
/// back leaves the reserve exactly as it was.
pub proof fn law_distribute_then_return(
    before: Resources,
    middle: Resources,
    after: Resources,
    kind: ResourceKind,
    amount: usize,
)
    requires
        amount <= before.spec_get(kind),
        middle.is_difference(before, single(kind, amount)),
        after.is_sum(middle, single(kind, amount)),
    ensures
        after == before,
{
    assert(after.spec_get(ResourceKind::Ore) == before.spec_get(ResourceKind::Ore));
    assert(after.spec_get(ResourceKind::Grain) == before.spec_get(ResourceKind::Grain));
    assert(after.spec_get(ResourceKind::Wool) == before.spec_get(ResourceKind::Wool));
    assert(after.spec_get(ResourceKind::Brick) == before.spec_get(ResourceKind::Brick));
    assert(after.spec_get(ResourceKind::Lumber) == before.spec_get(ResourceKind::Lumber));
}

/// Handing out a bundle keeps the units in the reserve plus the units in the
/// bundles handed out and not yet returned unchanged.
pub proof fn law_distribution_conserves_units(
    before: Resources,
    after: Resources,
    kind: ResourceKind,
    amount: usize,
    out: Seq<Resources>,
)
    requires
        amount <= before.spec_get(kind),
        after.is_difference(before, single(kind, amount)),
    ensures
        after.total() + units_out(out.push(single(kind, amount))) == before.total() + units_out(out),
{
    assert(before.covers(single(kind, amount)));
    lemma_difference_total(after, before, single(kind, amount));
    lemma_single_total(kind, amount);
    assert(out.push(single(kind, amount)).drop_last() =~= out);
}

/// Returning one of the bundles handed out keeps the units in the reserve
/// plus the units in the bundles still out unchanged.
pub proof fn law_return_conserves_units(before: Resources, after: Resources, out: Seq<Resources>, i: int)
    requires
        0 <= i < out.len(),
        after.is_sum(before, out[i]),
    ensures
        after.total() + units_out(out.remove(i)) == before.total() + units_out(out),
{
    lemma_sum_total(after, before, out[i]);
    lemma_units_out_remove(out, i);
}

/// Drawing a card keeps the cards in the stock plus the cards drawn and not
/// yet returned unchanged.
pub proof fn law_draw_conserves_cards(
    before: DevelopmentCardStock,
    after: DevelopmentCardStock,
    kind: DevelopmentCard,
    out: Seq<DevelopmentCard>,
)
    requires
        DevelopmentCardStock::is_draw(before, after, kind),
    ensures
        after.total() + out.push(kind).len() == before.total() + out.len(),
{
    lemma_draw_total(before, after, kind);
}

/// Returning one of the cards drawn keeps the cards in the stock plus the
/// cards still out unchanged.
pub proof fn law_return_conserves_cards(
    before: DevelopmentCardStock,
    after: DevelopmentCardStock,
    out: Seq<DevelopmentCard>,
    i: int,
)
    requires
        0 <= i < out.len(),
        after.spec_count(out[i]) == before.spec_count(out[i]) + 1,
        forall|k: DevelopmentCard| k != out[i] ==> #[trigger] after.spec_count(k) == before.spec_count(k),
    ensures
        after.total() + out.remove(i).len() == before.total() + out.len(),
{
    let kind = out[i];
    assert(after.spec_count(DevelopmentCard::YearOfPlenty) == before.spec_count(DevelopmentCard::YearOfPlenty) + if kind == DevelopmentCard::YearOfPlenty { 1int } else { 0 });
    assert(after.spec_count(DevelopmentCard::Monopoly) == before.spec_count(DevelopmentCard::Monopoly) + if kind == DevelopmentCard::Monopoly { 1int } else { 0 });
    assert(after.spec_count(DevelopmentCard::Knight) == before.spec_count(DevelopmentCard::Knight) + if kind == DevelopmentCard::Knight { 1int } else { 0 });
    assert(after.spec_count(DevelopmentCard::RoadBuilding) == before.spec_count(DevelopmentCard::RoadBuilding) + if kind == DevelopmentCard::RoadBuilding { 1int } else { 0 });
    assert(after.spec_count(DevelopmentCard::HiddenVictoryPoint) == before.spec_count(DevelopmentCard::HiddenVictoryPoint) + if kind == DevelopmentCard::HiddenVictoryPoint { 1int } else { 0 });
}

proof fn lemma_counts_down(stocks: Seq<DevelopmentCardStock>, kinds: Seq<DevelopmentCard>, n: int)
    requires
        0 <= n <= 25,
        stocks.len() == 26,
        kinds.len() == 25,
        stocks[0].is_canonical(),
        forall|i: int|
            0 <= i < 25 ==> DevelopmentCardStock::is_draw(#[trigger] stocks[i], stocks[i + 1], kinds[i]),
    ensures
        forall|i: int| 0 <= i <= n ==> #[trigger] stocks[i].total() == 25 - i,
    decreases n,
{
    if n > 0 {
        lemma_counts_down(stocks, kinds, n - 1);
        lemma_draw_total(stocks[n - 1], stocks[n], kinds[n - 1]);
    }
}

/// Starting from a complete set, each of 25 draws in a row finds a card, and
/// after them the stock is empty, so the next draw fails.
pub proof fn law_stock_runs_out(stocks: Seq<DevelopmentCardStock>, kinds: Seq<DevelopmentCard>)
    requires
        stocks.len() == 26,
        kinds.len() == 25,
        stocks[0].is_canonical(),
        forall|i: int|
            0 <= i < 25 ==> DevelopmentCardStock::is_draw(#[trigger] stocks[i], stocks[i + 1], kinds[i]),
    ensures
        forall|i: int| 0 <= i < 25 ==> #[trigger] stocks[i].total() > 0,
        stocks[25].total() == 0,
{
    lemma_counts_down(stocks, kinds, 25);
    assert forall|i: int| 0 <= i < 25 implies #[trigger] stocks[i].total() > 0 by {
        assert(stocks[i].total() == 25 - i);
    }
}

} // verus!
