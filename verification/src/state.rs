//! Fee schedules and the participant snapshots a fee computation reads.

use vstd::prelude::*;

verus! {

/// One discount tier: the balance that qualifies for it and the share of the
/// fee it waives.
#[derive(Clone, Copy, Debug, PartialEq, Eq, Structural)]
pub struct DiscountTokenTier {
    pub minimum_balance: u64,
    pub discount_numerator: u128,
    pub discount_denominator: u128,
}

/// The four discount tiers, in the order in which they are tried.
#[derive(Clone, Copy, Debug, PartialEq, Eq, Structural)]
pub struct DiscountTokenTiers {
    pub first_tier: DiscountTokenTier,
    pub second_tier: DiscountTokenTier,
    pub third_tier: DiscountTokenTier,
    pub fourth_tier: DiscountTokenTier,
}

/// The two referral ratios, both taken of the undiscounted fee.
#[derive(Clone, Copy, Debug, PartialEq, Eq, Structural)]
pub struct ReferralDiscount {
    pub referrer_reward_numerator: u128,
    pub referrer_reward_denominator: u128,
    pub referee_discount_numerator: u128,
    pub referee_discount_denominator: u128,
}

/// The exchange's fee schedule.
#[derive(Clone, Copy, Debug, PartialEq, Eq, Structural)]
pub struct FeeStructure {
    pub fee_numerator: u128,
    pub fee_denominator: u128,
    pub discount_token_tiers: DiscountTokenTiers,
    pub referral_discount: ReferralDiscount,
}

/// The share of the user's fee paid to whoever fills a resting order.
#[derive(Clone, Copy, Debug, PartialEq, Eq, Structural)]
pub struct OrderFillerRewardStructure {
    pub reward_numerator: u128,
    pub reward_denominator: u128,
}

/// Which discount tier an order was granted.
#[derive(Clone, Copy, Debug, PartialEq, Eq, Structural)]
pub enum OrderDiscountTier {
    NoTier,
    First,
    Second,
    Third,
    Fourth,
}

/// A snapshot of a discount-token holding.
#[derive(Clone, Copy, Debug, PartialEq, Eq, Structural)]
pub struct TokenHolding {
    pub amount: u64,
}

/// Marks that the trader was referred. Fees depend only on whether a referrer
/// exists, not on who it is.
#[derive(Clone, Copy, Debug, PartialEq, Eq, Structural)]
pub struct Referrer {}

impl DiscountTokenTier {
    /// Whether a holding of `balance` qualifies for this tier.
    pub open spec fn admits(self, balance: u64) -> bool {
        balance >= self.minimum_balance
    }
}

impl OrderDiscountTier {
    /// The labels of the four tiers, in the order in which tiers are tried.
    pub open spec fn priority() -> Seq<OrderDiscountTier> {
        seq![
            OrderDiscountTier::First,
            OrderDiscountTier::Second,
            OrderDiscountTier::Third,
            OrderDiscountTier::Fourth,
        ]
    }

    /// Where in the order of trial the tier named by this label stands,
    /// counting from zero; nothing for the label that names no tier.
    pub open spec fn spec_position(self) -> Option<int> {
        match self {
            OrderDiscountTier::NoTier => None,
            OrderDiscountTier::First => Some(0),
            OrderDiscountTier::Second => Some(1),
            OrderDiscountTier::Third => Some(2),
            OrderDiscountTier::Fourth => Some(3),
        }
    }

    /// The label of the tier tried at `position`, counting from zero.
    pub fn at_position(position: usize) -> (label: OrderDiscountTier)
        ensures
            position < 4 ==> label == Self::priority()[position as int],
            position >= 4 ==> label == OrderDiscountTier::NoTier,
    {
        if position == 0 {
            OrderDiscountTier::First
        } else if position == 1 {
            OrderDiscountTier::Second
        } else if position == 2 {
            OrderDiscountTier::Third
        } else if position == 3 {
            OrderDiscountTier::Fourth
        } else {
            OrderDiscountTier::NoTier
        }
    }
}

impl DiscountTokenTiers {
    /// The tiers as a sequence, in the order in which they are tried.
    pub open spec fn ordered(self) -> Seq<DiscountTokenTier> {
        seq![self.first_tier, self.second_tier, self.third_tier, self.fourth_tier]
    }

    /// The tier that `label` names, if it names one.
    pub open spec fn spec_tier(self, label: OrderDiscountTier) -> Option<DiscountTokenTier> {
        match label {
            OrderDiscountTier::NoTier => None,
            OrderDiscountTier::First => Some(self.first_tier),
            OrderDiscountTier::Second => Some(self.second_tier),
            OrderDiscountTier::Third => Some(self.third_tier),
            OrderDiscountTier::Fourth => Some(self.fourth_tier),
        }
    }

    /// The tier tried at `position`, counting from zero.
    pub fn tier_at(&self, position: usize) -> (tier: Option<&DiscountTokenTier>)
        ensures
            position < 4 ==> tier == Some(&self.ordered()[position as int]),
            position >= 4 ==> tier is None,
    {
        if position == 0 {
            Some(&self.first_tier)
        } else if position == 1 {
            Some(&self.second_tier)
        } else if position == 2 {
            Some(&self.third_tier)
        } else if position == 3 {
            Some(&self.fourth_tier)
        } else {
            None
        }
    }

    /// The tier that `label` names, if it names one.
    pub fn tier(&self, label: &OrderDiscountTier) -> (tier: Option<&DiscountTokenTier>)
        ensures
            match tier {
                Some(t) => self.spec_tier(*label) == Some(*t),
                None => self.spec_tier(*label) is None,
            },
    {
        match label {
            OrderDiscountTier::NoTier => None,
            OrderDiscountTier::First => Some(&self.first_tier),
            OrderDiscountTier::Second => Some(&self.second_tier),
            OrderDiscountTier::Third => Some(&self.third_tier),
            OrderDiscountTier::Fourth => Some(&self.fourth_tier),
        }
    }
}

} // verus!
