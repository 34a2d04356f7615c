use clearing_house::error::ErrorCode;
use clearing_house::math::fees::{
    calculate_fee_for_limit_order, calculate_fee_for_market_order, calculate_filler_reward,
    calculate_order_fee_tier, calculate_referral_reward_and_referee_discount,
    calculate_token_discount, calculate_token_discount_for_limit_order,
    calculate_token_discount_for_tier, try_to_calculate_token_discount_for_tier,
};
use clearing_house::state::{
    DiscountTokenTier, DiscountTokenTiers, FeeStructure, OrderDiscountTier,
    OrderFillerRewardStructure, ReferralDiscount, Referrer, TokenHolding,
};

fn tier(minimum_balance: u64, numerator: u128, denominator: u128) -> DiscountTokenTier {
    DiscountTokenTier {
        minimum_balance,
        discount_numerator: numerator,
        discount_denominator: denominator,
    }
}

fn schedule() -> FeeStructure {
    FeeStructure {
        fee_numerator: 10,
        fee_denominator: 10000,
        discount_token_tiers: DiscountTokenTiers {
            first_tier: tier(1_000_000, 20, 100),
            second_tier: tier(100_000, 15, 100),
            third_tier: tier(10_000, 10, 100),
            fourth_tier: tier(1_000, 5, 100),
        },
        referral_discount: ReferralDiscount {
            referrer_reward_numerator: 10,
            referrer_reward_denominator: 100,
            referee_discount_numerator: 5,
            referee_discount_denominator: 100,
        },
    }
}

fn filler() -> OrderFillerRewardStructure {
    OrderFillerRewardStructure { reward_numerator: 10, reward_denominator: 100 }
}

fn holding(amount: u64) -> Option<TokenHolding> {
    Some(TokenHolding { amount })
}

#[test]
fn market_order_with_top_tier_and_no_referrer() {
    let split = calculate_fee_for_market_order(1_000_000, &schedule(), holding(1_000_000), &None);
    assert_eq!(split, Ok((800, 800, 200, 0, 0)));
}

#[test]
fn market_order_with_referrer_and_no_holding() {
    let split = calculate_fee_for_market_order(1_000_000, &schedule(), None, &Some(Referrer {}));
    assert_eq!(split, Ok((950, 850, 0, 100, 50)));
}

#[test]
fn market_order_with_holding_and_referrer() {
    let split =
        calculate_fee_for_market_order(1_000_000, &schedule(), holding(150_000), &Some(Referrer {}));
    // fee 1000, second tier 15% = 150, referee 50, referrer 100
    assert_eq!(split, Ok((800, 700, 150, 100, 50)));
}

#[test]
fn market_order_without_participants_charges_whole_fee() {
    let split = calculate_fee_for_market_order(1_000_000, &schedule(), None, &None);
    assert_eq!(split, Ok((1000, 1000, 0, 0, 0)));
}

#[test]
fn limit_order_with_top_tier() {
    let split = calculate_fee_for_limit_order(
        1_000_000,
        &schedule(),
        &filler(),
        &OrderDiscountTier::First,
    );
    assert_eq!(split, Ok((800, 720, 200, 80)));
}

#[test]
fn limit_order_for_each_label() {
    let fees = schedule();
    let expected = [
        (OrderDiscountTier::NoTier, (1000, 900, 0, 100)),
        (OrderDiscountTier::First, (800, 720, 200, 80)),
        (OrderDiscountTier::Second, (850, 765, 150, 85)),
        (OrderDiscountTier::Third, (900, 810, 100, 90)),
        (OrderDiscountTier::Fourth, (950, 855, 50, 95)),
    ];
    for (label, split) in expected {
        assert_eq!(calculate_fee_for_limit_order(1_000_000, &fees, &filler(), &label), Ok(split));
    }
}

#[test]
fn fee_rounds_down() {
    let mut fees = schedule();
    fees.fee_numerator = 3;
    fees.fee_denominator = 2;
    // 7 * 3 / 2 = 10.5
    assert_eq!(calculate_fee_for_market_order(7, &fees, None, &None), Ok((10, 10, 0, 0, 0)));
    fees.fee_numerator = 1;
    fees.fee_denominator = 3;
    assert_eq!(calculate_fee_for_market_order(2, &fees, None, &None), Ok((0, 0, 0, 0, 0)));
    assert_eq!(calculate_fee_for_market_order(3, &fees, None, &None), Ok((1, 1, 0, 0, 0)));
    assert_eq!(calculate_fee_for_market_order(0, &fees, None, &None), Ok((0, 0, 0, 0, 0)));
}

#[test]
fn fee_matches_wide_quotient() {
    let mut fees = schedule();
    fees.fee_numerator = 7;
    fees.fee_denominator = 1_000;
    let notionals: [u64; 6] = [0, 1, 142, 143, 999_999_999, u64::MAX];
    for notional in notionals {
        let product = (notional as u128) * 7;
        let quotient = product / 1_000;
        assert!(quotient * 1_000 <= product && product < (quotient + 1) * 1_000);
        assert_eq!(
            calculate_fee_for_market_order(notional as u128, &fees, None, &None),
            Ok((quotient, quotient, 0, 0, 0))
        );
    }
}

#[test]
fn largest_product_that_fits_is_accepted() {
    let mut fees = schedule();
    fees.fee_numerator = 1;
    fees.fee_denominator = 1;
    assert_eq!(
        calculate_fee_for_market_order(u128::MAX, &fees, None, &None),
        Ok((u128::MAX, u128::MAX, 0, 0, 0))
    );
    fees.fee_numerator = 2;
    fees.fee_denominator = 2;
    assert_eq!(
        calculate_fee_for_market_order(u128::MAX / 2, &fees, None, &None),
        Ok((u128::MAX / 2, u128::MAX / 2, 0, 0, 0))
    );
    assert_eq!(
        calculate_fee_for_market_order(u128::MAX / 2 + 1, &fees, None, &None),
        Err(ErrorCode::MathError)
    );
}

#[test]
fn zero_fee_denominator_fails() {
    let mut fees = schedule();
    fees.fee_denominator = 0;
    assert_eq!(
        calculate_fee_for_market_order(1_000_000, &fees, None, &None),
        Err(ErrorCode::MathError)
    );
    assert_eq!(
        calculate_fee_for_limit_order(1_000_000, &fees, &filler(), &OrderDiscountTier::NoTier),
        Err(ErrorCode::MathError)
    );
    assert_eq!(
        calculate_fee_for_market_order(0, &fees, None, &None),
        Err(ErrorCode::MathError)
    );
}

#[test]
fn overflowing_fee_product_fails() {
    let fees = schedule();
    assert_eq!(
        calculate_fee_for_market_order(u128::MAX, &fees, None, &None),
        Err(ErrorCode::MathError)
    );
    assert_eq!(
        calculate_fee_for_limit_order(u128::MAX / 9, &fees, &filler(), &OrderDiscountTier::NoTier),
        Err(ErrorCode::MathError)
    );
}

#[test]
fn tier_is_first_match_in_declared_order() {
    let fees = schedule();
    assert_eq!(calculate_order_fee_tier(&fees, holding(u64::MAX)), Ok(OrderDiscountTier::First));
    assert_eq!(calculate_order_fee_tier(&fees, holding(1_000_000)), Ok(OrderDiscountTier::First));
    assert_eq!(calculate_order_fee_tier(&fees, holding(999_999)), Ok(OrderDiscountTier::Second));
    assert_eq!(calculate_order_fee_tier(&fees, holding(100_000)), Ok(OrderDiscountTier::Second));
    assert_eq!(calculate_order_fee_tier(&fees, holding(99_999)), Ok(OrderDiscountTier::Third));
    assert_eq!(calculate_order_fee_tier(&fees, holding(10_000)), Ok(OrderDiscountTier::Third));
    assert_eq!(calculate_order_fee_tier(&fees, holding(9_999)), Ok(OrderDiscountTier::Fourth));
    assert_eq!(calculate_order_fee_tier(&fees, holding(1_000)), Ok(OrderDiscountTier::Fourth));
    assert_eq!(calculate_order_fee_tier(&fees, holding(999)), Ok(OrderDiscountTier::NoTier));
    assert_eq!(calculate_order_fee_tier(&fees, holding(0)), Ok(OrderDiscountTier::NoTier));
}

#[test]
fn absent_holding_has_no_tier() {
    let mut fees = schedule();
    assert_eq!(calculate_order_fee_tier(&fees, None), Ok(OrderDiscountTier::NoTier));
    fees.discount_token_tiers.first_tier.minimum_balance = 0;
    assert_eq!(calculate_order_fee_tier(&fees, None), Ok(OrderDiscountTier::NoTier));
    assert_eq!(calculate_token_discount(1000, &fees, None), Ok(0));
}

#[test]
fn misordered_tiers_still_grant_earliest_match() {
    let mut fees = schedule();
    // ascending minimums: every qualifying balance lands in the first tier
    fees.discount_token_tiers = DiscountTokenTiers {
        first_tier: tier(1_000, 5, 100),
        second_tier: tier(10_000, 10, 100),
        third_tier: tier(100_000, 15, 100),
        fourth_tier: tier(1_000_000, 20, 100),
    };
    assert_eq!(calculate_order_fee_tier(&fees, holding(5_000_000)), Ok(OrderDiscountTier::First));
    assert_eq!(calculate_token_discount(1000, &fees, holding(5_000_000)), Ok(50));
    // a lower minimum in the third place than in the second
    fees.discount_token_tiers = DiscountTokenTiers {
        first_tier: tier(1_000_000, 20, 100),
        second_tier: tier(100_000, 15, 100),
        third_tier: tier(10, 10, 100),
        fourth_tier: tier(1_000, 5, 100),
    };
    assert_eq!(calculate_order_fee_tier(&fees, holding(2_000)), Ok(OrderDiscountTier::Third));
    assert_eq!(calculate_token_discount(1000, &fees, holding(2_000)), Ok(100));
}

#[test]
fn market_discount_agrees_with_recorded_tier() {
    let fees = schedule();
    for amount in [0u64, 999, 1_000, 10_000, 100_000, 1_000_000, u64::MAX] {
        let label = calculate_order_fee_tier(&fees, holding(amount)).unwrap();
        assert_eq!(
            calculate_token_discount(12_345, &fees, holding(amount)),
            calculate_token_discount_for_limit_order(12_345, &fees, &label)
        );
    }
}

#[test]
fn token_discount_per_tier() {
    let fees = schedule();
    assert_eq!(calculate_token_discount(1000, &fees, holding(1_000_000)), Ok(200));
    assert_eq!(calculate_token_discount(1000, &fees, holding(100_000)), Ok(150));
    assert_eq!(calculate_token_discount(1000, &fees, holding(10_000)), Ok(100));
    assert_eq!(calculate_token_discount(1000, &fees, holding(1_000)), Ok(50));
    assert_eq!(calculate_token_discount(1000, &fees, holding(999)), Ok(0));
    assert_eq!(calculate_token_discount(19, &fees, holding(1_000)), Ok(0));
    assert_eq!(calculate_token_discount(20, &fees, holding(1_000)), Ok(1));
}

#[test]
fn undefined_ratio_of_granted_tier_fails() {
    let mut fees = schedule();
    fees.discount_token_tiers.first_tier.discount_denominator = 0;
    assert_eq!(
        calculate_token_discount(1000, &fees, holding(1_000_000)),
        Err(ErrorCode::MathError)
    );
    assert_eq!(
        calculate_fee_for_market_order(1_000_000, &fees, holding(1_000_000), &None),
        Err(ErrorCode::MathError)
    );
    // a tier that is not granted is never evaluated
    assert_eq!(calculate_token_discount(1000, &fees, holding(100_000)), Ok(150));
    fees.discount_token_tiers.first_tier = tier(1_000_000, u128::MAX, 1);
    assert_eq!(
        calculate_token_discount(2, &fees, holding(1_000_000)),
        Err(ErrorCode::MathError)
    );
    assert_eq!(calculate_token_discount(1, &fees, holding(1_000_000)), Ok(u128::MAX));
}

#[test]
fn try_tier_distinguishes_unqualified_from_undefined() {
    let plain = tier(100, 1, 4);
    assert_eq!(
        try_to_calculate_token_discount_for_tier(1000, &plain, TokenHolding { amount: 99 }),
        None
    );
    assert_eq!(
        try_to_calculate_token_discount_for_tier(1000, &plain, TokenHolding { amount: 100 }),
        Some(Ok(250))
    );
    let broken = tier(100, 1, 0);
    assert_eq!(
        try_to_calculate_token_discount_for_tier(1000, &broken, TokenHolding { amount: 100 }),
        Some(Err(ErrorCode::MathError))
    );
    assert_eq!(
        try_to_calculate_token_discount_for_tier(1000, &broken, TokenHolding { amount: 5 }),
        None
    );
}

#[test]
fn discount_for_tier_is_ratio_or_nothing() {
    assert_eq!(calculate_token_discount_for_tier(1000, &tier(0, 20, 100)), Some(200));
    assert_eq!(calculate_token_discount_for_tier(999, &tier(0, 1, 1000)), Some(0));
    assert_eq!(calculate_token_discount_for_tier(1000, &tier(0, 20, 0)), None);
    assert_eq!(calculate_token_discount_for_tier(u128::MAX, &tier(0, 2, 100)), None);
    assert_eq!(calculate_token_discount_for_tier(0, &tier(0, 0, 0)), None);
}

#[test]
fn limit_discount_follows_label() {
    let mut fees = schedule();
    assert_eq!(
        calculate_token_discount_for_limit_order(1000, &fees, &OrderDiscountTier::NoTier),
        Ok(0)
    );
    assert_eq!(
        calculate_token_discount_for_limit_order(1000, &fees, &OrderDiscountTier::Third),
        Ok(100)
    );
    fees.discount_token_tiers.fourth_tier.discount_denominator = 0;
    assert_eq!(
        calculate_token_discount_for_limit_order(1000, &fees, &OrderDiscountTier::Fourth),
        Err(ErrorCode::MathError)
    );
    assert_eq!(
        calculate_token_discount_for_limit_order(1000, &fees, &OrderDiscountTier::NoTier),
        Ok(0)
    );
}

#[test]
fn referral_amounts_are_taken_of_the_same_fee() {
    let fees = schedule();
    assert_eq!(
        calculate_referral_reward_and_referee_discount(1000, &fees, &Some(Referrer {})),
        Ok((100, 50))
    );
    assert_eq!(calculate_referral_reward_and_referee_discount(1000, &fees, &None), Ok((0, 0)));
    assert_eq!(
        calculate_referral_reward_and_referee_discount(19, &fees, &Some(Referrer {})),
        Ok((1, 0))
    );
}

#[test]
fn undefined_referral_ratio_fails_only_with_referrer() {
    let mut fees = schedule();
    fees.referral_discount.referrer_reward_denominator = 0;
    assert_eq!(
        calculate_referral_reward_and_referee_discount(1000, &fees, &Some(Referrer {})),
        Err(ErrorCode::MathError)
    );
    assert_eq!(calculate_referral_reward_and_referee_discount(1000, &fees, &None), Ok((0, 0)));
    assert_eq!(
        calculate_fee_for_market_order(1_000_000, &fees, None, &Some(Referrer {})),
        Err(ErrorCode::MathError)
    );
    assert_eq!(
        calculate_fee_for_market_order(1_000_000, &fees, None, &None),
        Ok((1000, 1000, 0, 0, 0))
    );
    let mut fees = schedule();
    fees.referral_discount.referee_discount_numerator = u128::MAX;
    assert_eq!(
        calculate_referral_reward_and_referee_discount(2, &fees, &Some(Referrer {})),
        Err(ErrorCode::MathError)
    );
}

#[test]
fn discounts_above_fee_fail() {
    let mut fees = schedule();
    fees.discount_token_tiers.first_tier = tier(1_000_000, 101, 100);
    assert_eq!(
        calculate_fee_for_market_order(1_000_000, &fees, holding(1_000_000), &None),
        Err(ErrorCode::MathError)
    );
    assert_eq!(
        calculate_fee_for_limit_order(1_000_000, &fees, &filler(), &OrderDiscountTier::First),
        Err(ErrorCode::MathError)
    );
    // token discount 98%, referee discount 5%: each fits, together they do not
    fees.discount_token_tiers.first_tier = tier(1_000_000, 98, 100);
    assert_eq!(
        calculate_fee_for_market_order(1_000_000, &fees, holding(1_000_000), &None),
        Ok((20, 20, 980, 0, 0))
    );
    assert_eq!(
        calculate_fee_for_market_order(1_000_000, &fees, holding(1_000_000), &Some(Referrer {})),
        Err(ErrorCode::MathError)
    );
}

#[test]
fn referrer_reward_above_user_fee_fails() {
    let mut fees = schedule();
    // token discount 90% leaves 100 less the referee's 50; the referrer's 100 does not fit
    fees.discount_token_tiers.first_tier = tier(1_000_000, 90, 100);
    assert_eq!(
        calculate_fee_for_market_order(1_000_000, &fees, holding(1_000_000), &Some(Referrer {})),
        Err(ErrorCode::MathError)
    );
    fees.referral_discount.referrer_reward_numerator = 5;
    assert_eq!(
        calculate_fee_for_market_order(1_000_000, &fees, holding(1_000_000), &Some(Referrer {})),
        Ok((50, 0, 900, 50, 50))
    );
}

#[test]
fn filler_reward_is_ratio_of_user_fee() {
    assert_eq!(calculate_filler_reward(800, &filler()), Ok(80));
    assert_eq!(calculate_filler_reward(9, &filler()), Ok(0));
    assert_eq!(
        calculate_filler_reward(800, &OrderFillerRewardStructure {
            reward_numerator: 1,
            reward_denominator: 0
        }),
        Err(ErrorCode::MathError)
    );
    assert_eq!(
        calculate_filler_reward(u128::MAX, &OrderFillerRewardStructure {
            reward_numerator: 2,
            reward_denominator: 2
        }),
        Err(ErrorCode::MathError)
    );
}

#[test]
fn filler_reward_above_user_fee_fails() {
    let greedy = OrderFillerRewardStructure { reward_numerator: 3, reward_denominator: 2 };
    assert_eq!(
        calculate_fee_for_limit_order(1_000_000, &schedule(), &greedy, &OrderDiscountTier::NoTier),
        Err(ErrorCode::MathError)
    );
    let whole = OrderFillerRewardStructure { reward_numerator: 1, reward_denominator: 1 };
    assert_eq!(
        calculate_fee_for_limit_order(1_000_000, &schedule(), &whole, &OrderDiscountTier::Second),
        Ok((850, 0, 150, 850))
    );
}

#[test]
fn splits_account_for_the_whole_fee() {
    let fees = schedule();
    for notional in [0u128, 1, 999, 1_000, 123_456_789, 10_u128.pow(30)] {
        let fee = notional * 10 / 10000;
        for amount in [0u64, 1_000, 10_000, 100_000, 1_000_000] {
            for referrer in [None, Some(Referrer {})] {
                let (user_fee, fee_to_market, token_discount, referrer_reward, referee_discount) =
                    calculate_fee_for_market_order(notional, &fees, holding(amount), &referrer)
                        .unwrap();
                assert!(token_discount + referee_discount <= fee);
                assert!(referrer_reward <= user_fee);
                assert_eq!(user_fee + token_discount + referee_discount, fee);
                assert_eq!(fee_to_market + referrer_reward, user_fee);
            }
            let label = calculate_order_fee_tier(&fees, holding(amount)).unwrap();
            let (user_fee, fee_to_market, token_discount, filler_reward) =
                calculate_fee_for_limit_order(notional, &fees, &filler(), &label).unwrap();
            assert_eq!(user_fee + token_discount, fee);
            assert_eq!(fee_to_market + filler_reward, user_fee);
        }
    }
}

#[test]
fn repeated_calls_agree() {
    let fees = schedule();
    let referrer = Some(Referrer {});
    let first = calculate_fee_for_market_order(987_654_321, &fees, holding(10_000), &referrer);
    let second = calculate_fee_for_market_order(987_654_321, &fees, holding(10_000), &referrer);
    assert_eq!(first, second);
    assert_eq!(first, Ok((839507, 740742, 98765, 98765, 49382)));
    let first = calculate_fee_for_market_order(u128::MAX, &fees, None, &None);
    let second = calculate_fee_for_market_order(u128::MAX, &fees, None, &None);
    assert_eq!(first, second);
    let first =
        calculate_fee_for_limit_order(987_654_321, &fees, &filler(), &OrderDiscountTier::Third);
    let second =
        calculate_fee_for_limit_order(987_654_321, &fees, &filler(), &OrderDiscountTier::Third);
    assert_eq!(first, second);
    assert_eq!(
        calculate_order_fee_tier(&fees, holding(5)),
        calculate_order_fee_tier(&fees, holding(5))
    );
}
