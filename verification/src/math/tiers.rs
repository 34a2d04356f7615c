//! Which discount tier a discount-token holding is granted.
//!
//! Tiers are tried in their declared order and the first one whose minimum the
//! balance reaches is granted, whatever the minimums of the later ones.

use vstd::prelude::*;
use crate::state::{DiscountTokenTier, DiscountTokenTiers, OrderDiscountTier, TokenHolding};

verus! {

/// The tier granted to a holding: the first of the four that admits its
/// balance, and no tier for an absent holding or a balance that none admits.
pub open spec fn spec_order_fee_tier(
    tiers: DiscountTokenTiers,
    discount_token: Option<TokenHolding>,
) -> OrderDiscountTier {
    match discount_token {
        None => OrderDiscountTier::NoTier,
        Some(holding) => if tiers.first_tier.admits(holding.amount) {
            OrderDiscountTier::First
        } else if tiers.second_tier.admits(holding.amount) {
            OrderDiscountTier::Second
        } else if tiers.third_tier.admits(holding.amount) {
            OrderDiscountTier::Third
        } else if tiers.fourth_tier.admits(holding.amount) {
            OrderDiscountTier::Fourth
        } else {
            OrderDiscountTier::NoTier
        },
    }
}

/// Whether `position` is the first place in the order of trial at which a
/// tier admits `balance`.
pub open spec fn is_first_match(tiers: DiscountTokenTiers, balance: u64, position: int) -> bool {
    &&& 0 <= position < 4
    &&& tiers.ordered()[position].admits(balance)
    &&& forall|earlier: int|
        0 <= earlier < position ==> !(#[trigger] tiers.ordered()[earlier]).admits(balance)
}

/// Whether none of the four tiers admits `balance`.
pub open spec fn no_tier_admits(tiers: DiscountTokenTiers, balance: u64) -> bool {
    forall|position: int| 0 <= position < 4 ==> !(#[trigger] tiers.ordered()[position]).admits(balance)
}

/// A holding is granted the tier at the first place where one admits its
/// balance, even where a later tier asks for less; it is granted no tier
/// exactly when no tier admits it.
pub proof fn tier_resolution_is_first_match(tiers: DiscountTokenTiers, holding: TokenHolding)
    ensures
        match spec_order_fee_tier(tiers, Some(holding)).spec_position() {
            Some(position) => is_first_match(tiers, holding.amount, position),
            None => no_tier_admits(tiers, holding.amount),
        },
{
}

/// The first place at which a tier admits the balance decides the label: no
/// other label can be granted.
pub proof fn first_match_decides_tier(tiers: DiscountTokenTiers, holding: TokenHolding, position: int)
    requires
        is_first_match(tiers, holding.amount, position),
    ensures
        spec_order_fee_tier(tiers, Some(holding)) == OrderDiscountTier::priority()[position],
        spec_order_fee_tier(tiers, Some(holding)).spec_position() == Some(position),
        tiers.spec_tier(spec_order_fee_tier(tiers, Some(holding))) == Some(
            tiers.ordered()[position],
        ),
{
    let ordered = tiers.ordered();
    assert(ordered[0] == tiers.first_tier);
    assert(ordered[1] == tiers.second_tier);
    assert(ordered[2] == tiers.third_tier);
    assert(ordered[3] == tiers.fourth_tier);
}

/// A balance that no tier admits is granted no tier.
pub proof fn no_match_is_no_tier(tiers: DiscountTokenTiers, holding: TokenHolding)
    requires
        no_tier_admits(tiers, holding.amount),
    ensures
        spec_order_fee_tier(tiers, Some(holding)) == OrderDiscountTier::NoTier,
{
    let ordered = tiers.ordered();
    assert(ordered[0] == tiers.first_tier);
    assert(ordered[1] == tiers.second_tier);
    assert(ordered[2] == tiers.third_tier);
    assert(ordered[3] == tiers.fourth_tier);
}

/// Whether the holding's balance reaches the tier's minimum.
pub fn belongs_to_tier(tier: &DiscountTokenTier, discount_token: TokenHolding) -> (belongs: bool)
    ensures
        belongs == tier.admits(discount_token.amount),
{
    discount_token.amount >= tier.minimum_balance
}

/// Finds the tier granted to a holding, trying the four tiers in order.
pub fn resolve_tier(tiers: &DiscountTokenTiers, discount_token: Option<TokenHolding>) -> (label:
    OrderDiscountTier)
    ensures
        label == spec_order_fee_tier(*tiers, discount_token),
        discount_token is None ==> label == OrderDiscountTier::NoTier,
{
    let holding = match discount_token {
        None => {
            return OrderDiscountTier::NoTier;
        },
        Some(holding) => holding,
    };
    let mut position: usize = 0;
    while position < 4
        invariant
            position <= 4,
            discount_token == Some(holding),
            forall|earlier: int|
                0 <= earlier < position ==> !(#[trigger] tiers.ordered()[earlier]).admits(
                    holding.amount,
                ),
        decreases 4 - position,
    {
        if let Some(tier) = tiers.tier_at(position) {
            if belongs_to_tier(tier, holding) {
                proof {
                    first_match_decides_tier(*tiers, holding, position as int);
                }
                return OrderDiscountTier::at_position(position);
            }
        }
        position += 1;
    }
    proof {
        no_match_is_no_tier(*tiers, holding);
    }
    OrderDiscountTier::NoTier
}

} // verus!
