//! Splitting the fee of a filled order among the user, the market, a referrer
//! and a filler.

use vstd::prelude::*;
use crate::error::{ClearingHouseResult, ErrorCode};
use crate::math::ratio::{checked_deduct, checked_ratio, spec_checked_ratio};
use crate::math::tiers::{resolve_tier, spec_order_fee_tier};
use crate::state::{
    DiscountTokenTier,
    FeeStructure,
    OrderDiscountTier,
    OrderFillerRewardStructure,
    Referrer,
    TokenHolding,
};

verus! {

/// The undiscounted fee on a notional amount.
pub open spec fn spec_fee(quote_asset_amount: u128, fee_structure: FeeStructure) -> Result<
    u128,
    ErrorCode,
> {
    spec_checked_ratio(
        quote_asset_amount,
        fee_structure.fee_numerator,
        fee_structure.fee_denominator,
    )
}

/// The discount a tier grants on `fee`, where it can be computed.
pub open spec fn spec_token_discount_for_tier(fee: u128, tier: DiscountTokenTier) -> Option<u128> {
    match spec_checked_ratio(fee, tier.discount_numerator, tier.discount_denominator) {
        Ok(discount) => Some(discount),
        Err(_) => None,
    }
}

/// The discount on `fee` for an order that was granted the tier `label`:
/// nothing without a tier, else that tier's ratio of the fee.
pub open spec fn spec_token_discount_for_limit_order(
    fee: u128,
    fee_structure: FeeStructure,
    label: OrderDiscountTier,
) -> Result<u128, ErrorCode> {
    match fee_structure.discount_token_tiers.spec_tier(label) {
        None => Ok(0),
        Some(tier) => spec_checked_ratio(fee, tier.discount_numerator, tier.discount_denominator),
    }
}

/// The discount on `fee` for a discount-token holding: that of the tier the
/// holding is granted.
pub open spec fn spec_token_discount(
    fee: u128,
    fee_structure: FeeStructure,
    discount_token: Option<TokenHolding>,
) -> Result<u128, ErrorCode> {
    spec_token_discount_for_limit_order(
        fee,
        fee_structure,
        spec_order_fee_tier(fee_structure.discount_token_tiers, discount_token),
    )
}

/// The referrer's reward and the referee's discount, in that order. Both are
/// ratios of the same undiscounted `fee`; both are zero without a referrer.
pub open spec fn spec_referral_reward_and_referee_discount(
    fee: u128,
    fee_structure: FeeStructure,
    referrer: Option<Referrer>,
) -> Result<(u128, u128), ErrorCode> {
    let referral = fee_structure.referral_discount;
    match referrer {
        None => Ok((0, 0)),
        Some(_) => match (
            spec_checked_ratio(
                fee,
                referral.referrer_reward_numerator,
                referral.referrer_reward_denominator,
            ),
            spec_checked_ratio(
                fee,
                referral.referee_discount_numerator,
                referral.referee_discount_denominator,
            ),
        ) {
            (Ok(referrer_reward), Ok(referee_discount)) => Ok((referrer_reward, referee_discount)),
            _ => Err(ErrorCode::MathError),
        },
    }
}

/// The filler's reward: the schedule's ratio of the user's fee.
pub open spec fn spec_filler_reward(
    fee: u128,
    filler_reward_structure: OrderFillerRewardStructure,
) -> Result<u128, ErrorCode> {
    spec_checked_ratio(
        fee,
        filler_reward_structure.reward_numerator,
        filler_reward_structure.reward_denominator,
    )
}

/// The split of a market order's fee, as `(user_fee, fee_to_market,
/// token_discount, referrer_reward, referee_discount)`.
///
/// The user pays the fee less both discounts; the market keeps that less the
/// referrer's reward. There is no split where a ratio is undefined or where
/// something would be taken from less than itself.
pub open spec fn spec_fee_for_market_order(
    quote_asset_amount: u128,
    fee_structure: FeeStructure,
    discount_token: Option<TokenHolding>,
    referrer: Option<Referrer>,
) -> Result<(u128, u128, u128, u128, u128), ErrorCode> {
    match spec_fee(quote_asset_amount, fee_structure) {
        Err(_) => Err(ErrorCode::MathError),
        Ok(fee) => match (
            spec_token_discount(fee, fee_structure, discount_token),
            spec_referral_reward_and_referee_discount(fee, fee_structure, referrer),
        ) {
            (Ok(token_discount), Ok((referrer_reward, referee_discount))) => {
                if token_discount + referee_discount <= fee && referrer_reward <= fee
                    - token_discount - referee_discount {
                    Ok(
                        (
                            (fee - token_discount - referee_discount) as u128,
                            (fee - token_discount - referee_discount - referrer_reward) as u128,
                            token_discount,
                            referrer_reward,
                            referee_discount,
                        ),
                    )
                } else {
                    Err(ErrorCode::MathError)
                }
            },
            _ => Err(ErrorCode::MathError),
        },
    }
}

/// The split of a limit order's fee, as `(user_fee, fee_to_market,
/// token_discount, filler_reward)`.
///
/// The user pays the fee less the discount of the tier granted at placement;
/// the filler's reward is a ratio of what the user pays, and the market keeps
/// the rest.
pub open spec fn spec_fee_for_limit_order(
    quote_asset_amount: u128,
    fee_structure: FeeStructure,
    filler_reward_structure: OrderFillerRewardStructure,
    order_fee_tier: OrderDiscountTier,
) -> Result<(u128, u128, u128, u128), ErrorCode> {
    match spec_fee(quote_asset_amount, fee_structure) {
        Err(_) => Err(ErrorCode::MathError),
        Ok(fee) => match spec_token_discount_for_limit_order(fee, fee_structure, order_fee_tier) {
            Ok(token_discount) if token_discount <= fee => {
                let user_fee = (fee - token_discount) as u128;
                match spec_filler_reward(user_fee, filler_reward_structure) {
                    Ok(filler_reward) if filler_reward <= user_fee => Ok(
                        (
                            user_fee,
                            (user_fee - filler_reward) as u128,
                            token_discount,
                            filler_reward,
                        ),
                    ),
                    _ => Err(ErrorCode::MathError),
                }
            },
            _ => Err(ErrorCode::MathError),
        },
    }
}

/// Splits the fee of an order that executes at once.
///
/// Returns `(user_fee, fee_to_market, token_discount, referrer_reward,
/// referee_discount)`. Both discounts and the reward are ratios of the same
/// undiscounted fee. Fails, with nothing returned, where any ratio is
/// undefined, the discounts together exceed the fee, or the reward exceeds
/// what the user pays.
pub fn calculate_fee_for_market_order(
    quote_asset_amount: u128,
    fee_structure: &FeeStructure,
    discount_token: Option<TokenHolding>,
    referrer: &Option<Referrer>,
) -> (r: ClearingHouseResult<(u128, u128, u128, u128, u128)>)
    ensures
        r == spec_fee_for_market_order(quote_asset_amount, *fee_structure, discount_token, *referrer),
        r matches Ok((user_fee, fee_to_market, token_discount, referrer_reward, referee_discount))
            ==> {
            &&& spec_fee(quote_asset_amount, *fee_structure) matches Ok(fee)
            &&& user_fee + token_discount + referee_discount == fee
            &&& fee_to_market + referrer_reward == user_fee
            &&& discount_token is None ==> token_discount == 0
            &&& referrer is None ==> referrer_reward == 0 && referee_discount == 0
        },
        r matches Err(e) ==> e == ErrorCode::MathError,
        fee_structure.fee_denominator == 0 ==> r is Err,
        quote_asset_amount * fee_structure.fee_numerator > u128::MAX ==> r is Err,
{
    let fee = checked_ratio(
        quote_asset_amount,
        fee_structure.fee_numerator,
        fee_structure.fee_denominator,
    )?;
    let token_discount = calculate_token_discount(fee, fee_structure, discount_token)?;
    let (referrer_reward, referee_discount) = calculate_referral_reward_and_referee_discount(
        fee,
        fee_structure,
        referrer,
    )?;
    let after_token_discount = checked_deduct(fee, token_discount)?;
    let user_fee = checked_deduct(after_token_discount, referee_discount)?;
    let fee_to_market = checked_deduct(user_fee, referrer_reward)?;
    Ok((user_fee, fee_to_market, token_discount, referrer_reward, referee_discount))
}

/// The discount on `fee` for a discount-token holding.
///
/// The tiers are tried in order; the first that admits the holding decides,
/// and its ratio is taken of `fee`. Zero without a holding or a tier. Fails
/// where the deciding tier's ratio is undefined.
pub fn calculate_token_discount(
    fee: u128,
    fee_structure: &FeeStructure,
    discount_token: Option<TokenHolding>,
) -> (r: ClearingHouseResult<u128>)
    ensures
        r == spec_token_discount(fee, *fee_structure, discount_token),
        discount_token is None ==> r == Ok::<u128, ErrorCode>(0),
{
    let holding = match discount_token {
        None => {
            return Ok(0);
        },
        Some(holding) => holding,
    };
    let tiers = &fee_structure.discount_token_tiers;
    let mut position: usize = 0;
    while position < 4
        invariant
            position <= 4,
            discount_token == Some(holding),
            tiers == &fee_structure.discount_token_tiers,
            forall|earlier: int|
                0 <= earlier < position ==> !(#[trigger] tiers.ordered()[earlier]).admits(
                    holding.amount,
                ),
        decreases 4 - position,
    {
        if let Some(tier) = tiers.tier_at(position) {
            if let Some(outcome) = try_to_calculate_token_discount_for_tier(fee, tier, holding) {
                proof {
                    crate::math::tiers::first_match_decides_tier(*tiers, holding, position as int);
                }
                return outcome;
            }
        }
        position += 1;
    }
    proof {
        crate::math::tiers::no_match_is_no_tier(*tiers, holding);
    }
    Ok(0)
}

/// The discount `tier` grants on `fee` if the holding qualifies for it, and
/// nothing if it does not.
pub fn try_to_calculate_token_discount_for_tier(
    fee: u128,
    tier: &DiscountTokenTier,
    discount_token: TokenHolding,
) -> (r: Option<ClearingHouseResult<u128>>)
    ensures
        r == if tier.admits(discount_token.amount) {
            Some(spec_checked_ratio(fee, tier.discount_numerator, tier.discount_denominator))
        } else {
            None
        },
{
    if crate::math::tiers::belongs_to_tier(tier, discount_token) {
        return Some(checked_ratio(fee, tier.discount_numerator, tier.discount_denominator));
    }
    None
}

/// The discount `tier` grants on `fee`: its ratio of the fee, rounded down,
/// or nothing where the ratio is undefined.
pub fn calculate_token_discount_for_tier(fee: u128, tier: &DiscountTokenTier) -> (r: Option<u128>)
    ensures
        r == spec_token_discount_for_tier(fee, *tier),
{
    match checked_ratio(fee, tier.discount_numerator, tier.discount_denominator) {
        Ok(discount) => Some(discount),
        Err(_) => None,
    }
}

/// The referrer's reward and the referee's discount on `fee`, in that order.
///
/// Both zero without a referrer. Fails where either ratio is undefined.
pub fn calculate_referral_reward_and_referee_discount(
    fee: u128,
    fee_structure: &FeeStructure,
    referrer: &Option<Referrer>,
) -> (r: ClearingHouseResult<(u128, u128)>)
    ensures
        r == spec_referral_reward_and_referee_discount(fee, *fee_structure, *referrer),
        referrer is None ==> r == Ok::<(u128, u128), ErrorCode>((0, 0)),
{
    if referrer.is_none() {
        return Ok((0, 0));
    }
    let referrer_reward = checked_ratio(
        fee,
        fee_structure.referral_discount.referrer_reward_numerator,
        fee_structure.referral_discount.referrer_reward_denominator,
    )?;
    let referee_discount = checked_ratio(
        fee,
        fee_structure.referral_discount.referee_discount_numerator,
        fee_structure.referral_discount.referee_discount_denominator,
    )?;
    Ok((referrer_reward, referee_discount))
}

/// The tier to record on an order when it is placed. Never fails.
pub fn calculate_order_fee_tier(
    fee_structure: &FeeStructure,
    discount_token: Option<TokenHolding>,
) -> (r: ClearingHouseResult<OrderDiscountTier>)
    ensures
        r == Ok::<OrderDiscountTier, ErrorCode>(
            spec_order_fee_tier(fee_structure.discount_token_tiers, discount_token),
        ),
{
    Ok(resolve_tier(&fee_structure.discount_token_tiers, discount_token))
}

/// Splits the fee of a resting order that is filled later.
///
/// Returns `(user_fee, fee_to_market, token_discount, filler_reward)`. The
/// discount is that of the tier recorded at placement, taken of the
/// undiscounted fee; the filler's reward is taken of what the user pays.
/// Fails, with nothing returned, where any ratio is undefined, the discount
/// exceeds the fee, or the reward exceeds what the user pays.
pub fn calculate_fee_for_limit_order(
    quote_asset_amount: u128,
    fee_structure: &FeeStructure,
    filler_reward_structure: &OrderFillerRewardStructure,
    order_fee_tier: &OrderDiscountTier,
) -> (r: ClearingHouseResult<(u128, u128, u128, u128)>)
    ensures
        r == spec_fee_for_limit_order(
            quote_asset_amount,
            *fee_structure,
            *filler_reward_structure,
            *order_fee_tier,
        ),
        r matches Ok((user_fee, fee_to_market, token_discount, filler_reward)) ==> {
            &&& spec_fee(quote_asset_amount, *fee_structure) matches Ok(fee)
            &&& user_fee + token_discount == fee
            &&& fee_to_market + filler_reward == user_fee
            &&& *order_fee_tier == OrderDiscountTier::NoTier ==> token_discount == 0
        },
        r matches Err(e) ==> e == ErrorCode::MathError,
        fee_structure.fee_denominator == 0 ==> r is Err,
        quote_asset_amount * fee_structure.fee_numerator > u128::MAX ==> r is Err,
{
    let fee = checked_ratio(
        quote_asset_amount,
        fee_structure.fee_numerator,
        fee_structure.fee_denominator,
    )?;
    let token_discount = calculate_token_discount_for_limit_order(
        fee,
        fee_structure,
        order_fee_tier,
    )?;
    let user_fee = checked_deduct(fee, token_discount)?;
    let filler_reward = calculate_filler_reward(user_fee, filler_reward_structure)?;
    let fee_to_market = checked_deduct(user_fee, filler_reward)?;
    Ok((user_fee, fee_to_market, token_discount, filler_reward))
}

/// The discount on `fee` for an order that was granted `order_discount_tier`.
///
/// Zero without a tier. Fails where the tier's ratio is undefined.
pub fn calculate_token_discount_for_limit_order(
    fee: u128,
    fee_structure: &FeeStructure,
    order_discount_tier: &OrderDiscountTier,
) -> (r: ClearingHouseResult<u128>)
    ensures
        r == spec_token_discount_for_limit_order(fee, *fee_structure, *order_discount_tier),
{
    match fee_structure.discount_token_tiers.tier(order_discount_tier) {
        None => Ok(0),
        Some(tier) => match calculate_token_discount_for_tier(fee, tier) {
            Some(discount) => Ok(discount),
            None => Err(ErrorCode::MathError),
        },
    }
}

/// The filler's reward on the user's `fee`.
///
/// Fails where the ratio is undefined.
pub fn calculate_filler_reward(
    fee: u128,
    filler_reward_structure: &OrderFillerRewardStructure,
) -> (r: ClearingHouseResult<u128>)
    ensures
        r == spec_filler_reward(fee, *filler_reward_structure),
{
    checked_ratio(
        fee,
        filler_reward_structure.reward_numerator,
        filler_reward_structure.reward_denominator,
    )
}

} // verus!
