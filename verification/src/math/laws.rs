//! What holds of every fee computation, whatever the schedule.

use vstd::prelude::*;
use vstd::arithmetic::div_mod::{lemma_fundamental_div_mod, lemma_fundamental_div_mod_converse};
use crate::error::ErrorCode;
use crate::math::fees::{
    spec_fee,
    spec_fee_for_limit_order,
    spec_fee_for_market_order,
    spec_filler_reward,
    spec_referral_reward_and_referee_discount,
    spec_token_discount,
    spec_token_discount_for_limit_order,
};
use crate::math::ratio::{ratio_floor, ratio_is_defined, spec_checked_ratio};
use crate::math::tiers::spec_order_fee_tier;
use crate::state::{
    FeeStructure,
    OrderDiscountTier,
    OrderFillerRewardStructure,
    Referrer,
    TokenHolding,
};

verus! {

/// A ratio is the exact integer quotient: it is the one integer `quotient`
/// with `quotient * denominator <= amount * numerator < (quotient + 1) *
/// denominator`.
pub proof fn ratio_is_exact_quotient(amount: u128, numerator: u128, denominator: u128, quotient: int)
    requires
        denominator != 0,
    ensures
        quotient == ratio_floor(amount, numerator, denominator) <==> (quotient * denominator
            <= amount * numerator < (quotient + 1) * denominator),
{
    let product: int = amount * numerator;
    let divisor: int = denominator as int;
    lemma_fundamental_div_mod(product, divisor);
    assert(divisor * (product / divisor) == (product / divisor) * divisor) by (nonlinear_arith);
    assert((product / divisor + 1) * divisor == (product / divisor) * divisor + divisor)
        by (nonlinear_arith);
    if quotient * divisor <= product < (quotient + 1) * divisor {
        let rest: int = product - quotient * divisor;
        assert((quotient + 1) * divisor == quotient * divisor + divisor) by (nonlinear_arith);
        assert(quotient * divisor == divisor * quotient) by (nonlinear_arith);
        lemma_fundamental_div_mod_converse(product, divisor, quotient, rest);
    }
}

/// A fee is computed exactly when the schedule's denominator is not zero and
/// the product of notional and numerator fits in 128 bits, and it is then the
/// exact quotient; otherwise the computation fails with an arithmetic error.
pub proof fn fee_is_ratio_or_error(quote_asset_amount: u128, fee_structure: FeeStructure)
    ensures
        match spec_fee(quote_asset_amount, fee_structure) {
            Ok(fee) => {
                &&& fee_structure.fee_denominator != 0
                &&& quote_asset_amount * fee_structure.fee_numerator <= u128::MAX
                &&& fee * fee_structure.fee_denominator <= quote_asset_amount
                    * fee_structure.fee_numerator < (fee + 1) * fee_structure.fee_denominator
            },
            Err(e) => {
                &&& e == ErrorCode::MathError
                &&& fee_structure.fee_denominator == 0 || quote_asset_amount
                    * fee_structure.fee_numerator > u128::MAX
            },
        },
{
    let numerator = fee_structure.fee_numerator;
    let denominator = fee_structure.fee_denominator;
    if ratio_is_defined(quote_asset_amount, numerator, denominator) {
        crate::math::ratio::ratio_floor_fits(quote_asset_amount, numerator, denominator);
        ratio_is_exact_quotient(
            quote_asset_amount,
            numerator,
            denominator,
            ratio_floor(quote_asset_amount, numerator, denominator),
        );
    }
}

/// A ratio of at most one never yields more than the amount it is taken of.
pub proof fn proper_ratio_is_within_amount(amount: u128, numerator: u128, denominator: u128)
    requires
        denominator != 0,
        numerator <= denominator,
    ensures
        ratio_floor(amount, numerator, denominator) <= amount,
{
    let product: int = amount * numerator;
    let divisor: int = denominator as int;
    let quotient: int = product / divisor;
    ratio_is_exact_quotient(amount, numerator, denominator, quotient);
    assert(quotient <= amount) by (nonlinear_arith)
        requires
            quotient * divisor <= amount * numerator,
            0 <= numerator <= divisor,
            0 < divisor,
            0 <= amount,
    {
        if quotient > amount {
            assert(quotient * divisor >= (amount + 1) * divisor);
            assert(amount * numerator <= amount * divisor);
        }
    }
}

/// In every split of a market order's fee the carve-outs fit: the two
/// discounts together are at most the fee, the referrer's reward is at most
/// what the user pays, and the five amounts account for the whole fee. A
/// computation that does not succeed fails with an arithmetic error.
pub proof fn market_order_carve_outs_fit(
    quote_asset_amount: u128,
    fee_structure: FeeStructure,
    discount_token: Option<TokenHolding>,
    referrer: Option<Referrer>,
)
    ensures
        match spec_fee_for_market_order(quote_asset_amount, fee_structure, discount_token, referrer) {
            Ok((user_fee, fee_to_market, token_discount, referrer_reward, referee_discount)) => {
                &&& spec_fee(quote_asset_amount, fee_structure) matches Ok(fee)
                &&& token_discount + referee_discount <= fee
                &&& referrer_reward <= user_fee
                &&& user_fee == fee - token_discount - referee_discount
                &&& fee_to_market == user_fee - referrer_reward
                &&& fee_to_market + referrer_reward + token_discount + referee_discount == fee
            },
            Err(e) => e == ErrorCode::MathError,
        },
{
}

/// A market order whose discounts together exceed the fee, or whose
/// referrer's reward exceeds what is left for the user to pay, has no split.
pub proof fn market_order_overdrawn_fails(
    quote_asset_amount: u128,
    fee_structure: FeeStructure,
    discount_token: Option<TokenHolding>,
    referrer: Option<Referrer>,
    fee: u128,
    token_discount: u128,
    referrer_reward: u128,
    referee_discount: u128,
)
    requires
        spec_fee(quote_asset_amount, fee_structure) == Ok::<u128, ErrorCode>(fee),
        spec_token_discount(fee, fee_structure, discount_token) == Ok::<u128, ErrorCode>(
            token_discount,
        ),
        spec_referral_reward_and_referee_discount(fee, fee_structure, referrer) == Ok::<
            (u128, u128),
            ErrorCode,
        >((referrer_reward, referee_discount)),
        token_discount + referee_discount > fee || referrer_reward > fee - token_discount
            - referee_discount,
    ensures
        spec_fee_for_market_order(quote_asset_amount, fee_structure, discount_token, referrer)
            == Err::<(u128, u128, u128, u128, u128), ErrorCode>(ErrorCode::MathError),
{
}

/// A market order has a split exactly when the fee, the token discount and
/// both referral amounts are defined, the discounts together are at most the
/// fee, and the referrer's reward is at most what is then left.
pub proof fn market_order_succeeds_exactly_when_payable(
    quote_asset_amount: u128,
    fee_structure: FeeStructure,
    discount_token: Option<TokenHolding>,
    referrer: Option<Referrer>,
)
    ensures
        spec_fee_for_market_order(quote_asset_amount, fee_structure, discount_token, referrer)
            is Ok <==> {
            &&& spec_fee(quote_asset_amount, fee_structure) matches Ok(fee)
            &&& spec_token_discount(fee, fee_structure, discount_token) matches Ok(token_discount)
            &&& spec_referral_reward_and_referee_discount(fee, fee_structure, referrer) matches Ok(
                (referrer_reward, referee_discount),
            )
            &&& token_discount + referee_discount <= fee
            &&& referrer_reward <= fee - token_discount - referee_discount
        },
{
}

/// A limit order has a split exactly when the fee, the discount of the
/// recorded tier and the filler's reward are defined, the discount is at most
/// the fee, and the reward is at most what the user pays.
pub proof fn limit_order_succeeds_exactly_when_payable(
    quote_asset_amount: u128,
    fee_structure: FeeStructure,
    filler_reward_structure: OrderFillerRewardStructure,
    order_fee_tier: OrderDiscountTier,
)
    ensures
        spec_fee_for_limit_order(
            quote_asset_amount,
            fee_structure,
            filler_reward_structure,
            order_fee_tier,
        ) is Ok <==> {
            &&& spec_fee(quote_asset_amount, fee_structure) matches Ok(fee)
            &&& spec_token_discount_for_limit_order(fee, fee_structure, order_fee_tier) matches Ok(
                token_discount,
            )
            &&& token_discount <= fee
            &&& spec_filler_reward((fee - token_discount) as u128, filler_reward_structure)
                matches Ok(filler_reward)
            &&& filler_reward <= fee - token_discount
        },
{
}

/// No ratio wraps: a zero denominator or a product beyond 128 bits makes the
/// ratio an arithmetic error, and a fee that is such an error leaves neither
/// kind of order with a split.
pub proof fn undefined_ratio_is_an_error(
    quote_asset_amount: u128,
    fee_structure: FeeStructure,
    filler_reward_structure: OrderFillerRewardStructure,
    discount_token: Option<TokenHolding>,
    referrer: Option<Referrer>,
    order_fee_tier: OrderDiscountTier,
    amount: u128,
    numerator: u128,
    denominator: u128,
)
    ensures
        denominator == 0 || amount * numerator > u128::MAX ==> spec_checked_ratio(
            amount,
            numerator,
            denominator,
        ) == Err::<u128, ErrorCode>(ErrorCode::MathError),
        fee_structure.fee_denominator == 0 || quote_asset_amount * fee_structure.fee_numerator
            > u128::MAX ==> {
            &&& spec_fee_for_market_order(
                quote_asset_amount,
                fee_structure,
                discount_token,
                referrer,
            ) == Err::<(u128, u128, u128, u128, u128), ErrorCode>(ErrorCode::MathError)
            &&& spec_fee_for_limit_order(
                quote_asset_amount,
                fee_structure,
                filler_reward_structure,
                order_fee_tier,
            ) == Err::<(u128, u128, u128, u128), ErrorCode>(ErrorCode::MathError)
        },
{
}

/// In every split of a limit order's fee the carve-outs fit: the discount is
/// at most the fee, the filler's reward is at most what the user pays, and
/// the amounts account for the whole fee.
pub proof fn limit_order_carve_outs_fit(
    quote_asset_amount: u128,
    fee_structure: FeeStructure,
    filler_reward_structure: OrderFillerRewardStructure,
    order_fee_tier: OrderDiscountTier,
)
    ensures
        match spec_fee_for_limit_order(
            quote_asset_amount,
            fee_structure,
            filler_reward_structure,
            order_fee_tier,
        ) {
            Ok((user_fee, fee_to_market, token_discount, filler_reward)) => {
                &&& spec_fee(quote_asset_amount, fee_structure) matches Ok(fee)
                &&& token_discount <= fee
                &&& user_fee == fee - token_discount
                &&& spec_filler_reward(user_fee, filler_reward_structure) == Ok::<u128, ErrorCode>(
                    filler_reward,
                )
                &&& filler_reward <= user_fee
                &&& fee_to_market == user_fee - filler_reward
                &&& fee_to_market + filler_reward + token_discount == fee
            },
            Err(e) => e == ErrorCode::MathError,
        },
{
}

/// Without a discount-token holding no tier is granted and a market order
/// gets no token discount; without a referrer it pays no referrer's reward
/// and gets no referee's discount.
pub proof fn absent_participants_get_nothing(
    quote_asset_amount: u128,
    fee_structure: FeeStructure,
    discount_token: Option<TokenHolding>,
    referrer: Option<Referrer>,
)
    ensures
        discount_token is None ==> spec_order_fee_tier(
            fee_structure.discount_token_tiers,
            discount_token,
        ) == OrderDiscountTier::NoTier,
        spec_fee_for_market_order(quote_asset_amount, fee_structure, discount_token, referrer)
            matches Ok((_, _, token_discount, referrer_reward, referee_discount)) ==> {
            &&& discount_token is None ==> token_discount == 0
            &&& referrer is None ==> referrer_reward == 0 && referee_discount == 0
        },
{
}

/// A holding that no tier admits gets no token discount, whatever the fee
/// and whatever the tiers' ratios.
pub proof fn unmatched_holding_gets_no_discount(
    fee: u128,
    fee_structure: FeeStructure,
    holding: TokenHolding,
)
    requires
        crate::math::tiers::no_tier_admits(fee_structure.discount_token_tiers, holding.amount),
    ensures
        spec_order_fee_tier(fee_structure.discount_token_tiers, Some(holding))
            == OrderDiscountTier::NoTier,
        spec_token_discount(fee, fee_structure, Some(holding)) == Ok::<u128, ErrorCode>(0),
{
    crate::math::tiers::no_match_is_no_tier(fee_structure.discount_token_tiers, holding);
}

/// The token discount of a market order is the one a limit order gets for
/// the tier that the same holding is granted at placement, taken of the same
/// undiscounted fee.
pub proof fn market_discount_is_discount_of_granted_tier(
    fee: u128,
    fee_structure: FeeStructure,
    discount_token: Option<TokenHolding>,
)
    ensures
        spec_token_discount(fee, fee_structure, discount_token)
            == spec_token_discount_for_limit_order(
            fee,
            fee_structure,
            spec_order_fee_tier(fee_structure.discount_token_tiers, discount_token),
        ),
{
}

/// Computing a market order's split twice on the same inputs gives the same
/// outcome, success or failure.
pub proof fn market_order_split_is_repeatable(
    quote_asset_amount: u128,
    fee_structure: FeeStructure,
    discount_token: Option<TokenHolding>,
    referrer: Option<Referrer>,
    first: Result<(u128, u128, u128, u128, u128), ErrorCode>,
    second: Result<(u128, u128, u128, u128, u128), ErrorCode>,
)
    requires
        first == spec_fee_for_market_order(
            quote_asset_amount,
            fee_structure,
            discount_token,
            referrer,
        ),
        second == spec_fee_for_market_order(
            quote_asset_amount,
            fee_structure,
            discount_token,
            referrer,
        ),
    ensures
        first == second,
{
}

/// Computing a limit order's split twice on the same inputs gives the same
/// outcome, success or failure.
pub proof fn limit_order_split_is_repeatable(
    quote_asset_amount: u128,
    fee_structure: FeeStructure,
    filler_reward_structure: OrderFillerRewardStructure,
    order_fee_tier: OrderDiscountTier,
    first: Result<(u128, u128, u128, u128), ErrorCode>,
    second: Result<(u128, u128, u128, u128), ErrorCode>,
)
    requires
        first == spec_fee_for_limit_order(
            quote_asset_amount,
            fee_structure,
            filler_reward_structure,
            order_fee_tier,
        ),
        second == spec_fee_for_limit_order(
            quote_asset_amount,
            fee_structure,
            filler_reward_structure,
            order_fee_tier,
        ),
    ensures
        first == second,
{
}

/// Resolving the tier of a holding twice against the same schedule gives the
/// same label.
pub proof fn tier_resolution_is_repeatable(
    fee_structure: FeeStructure,
    discount_token: Option<TokenHolding>,
    first: OrderDiscountTier,
    second: OrderDiscountTier,
)
    requires
        first == spec_order_fee_tier(fee_structure.discount_token_tiers, discount_token),
        second == spec_order_fee_tier(fee_structure.discount_token_tiers, discount_token),
    ensures
        first == second,
{
}

} // verus!
