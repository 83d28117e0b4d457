use amm_core::curve::{
    proportional_deposit, proportional_withdraw, swap_amount_out, XYAmounts, BPS_DENOMINATOR,
};
use amm_core::error::AmmError;

fn reference_out(reserve_in: u64, reserve_out: u64, net: u64) -> u64 {
    let product = reserve_in as u128 * reserve_out as u128;
    (reserve_out as u128 - product / (reserve_in as u128 + net as u128)) as u64
}

#[test]
fn fee_denominator_is_ten_thousand() {
    assert_eq!(BPS_DENOMINATOR, 10_000);
}

#[test]
fn deposit_into_virgin_pool_returns_the_bounds() {
    assert_eq!(
        proportional_deposit(0, 0, 0, 777, 1000, 2000),
        Ok(XYAmounts { x: 1000, y: 2000 })
    );
    assert_eq!(
        proportional_deposit(0, 0, 0, 0, 1000, 2000),
        Ok(XYAmounts { x: 1000, y: 2000 })
    );
    assert_eq!(
        proportional_deposit(0, 0, 0, u64::MAX, 1000, 2000),
        Ok(XYAmounts { x: 1000, y: 2000 })
    );
}

#[test]
fn deposit_without_shares_ignores_leftover_reserves() {
    assert_eq!(
        proportional_deposit(5, 9, 0, 10, 1000, 2000),
        Ok(XYAmounts { x: 1000, y: 2000 })
    );
}

#[test]
fn deposit_rounds_amounts_up() {
    // 33 * 1000 / 700 = 47.14.., 33 * 3000 / 700 = 141.42..
    assert_eq!(
        proportional_deposit(1000, 3000, 700, 33, 0, 0),
        Ok(XYAmounts { x: 48, y: 142 })
    );
    // 2 * 5 / 3 = 3.33..
    assert_eq!(proportional_deposit(5, 5, 3, 2, 0, 0), Ok(XYAmounts { x: 4, y: 4 }));
}

#[test]
fn deposit_of_an_exact_part_is_not_rounded() {
    assert_eq!(
        proportional_deposit(1_000_000, 2_000_000, 1_000_000, 250_000, 0, 0),
        Ok(XYAmounts { x: 250_000, y: 500_000 })
    );
}

#[test]
fn deposit_of_no_shares_owes_nothing() {
    assert_eq!(proportional_deposit(1000, 3000, 700, 0, 0, 0), Ok(XYAmounts { x: 0, y: 0 }));
}

#[test]
fn deposit_does_not_depend_on_bounds_once_shares_exist() {
    assert_eq!(
        proportional_deposit(1000, 3000, 700, 33, 0, 0),
        proportional_deposit(1000, 3000, 700, 33, u64::MAX, 17)
    );
}

#[test]
fn deposit_with_shares_but_an_empty_reserve_is_a_math_error() {
    assert_eq!(proportional_deposit(0, 3000, 700, 33, 100, 100), Err(AmmError::MathError));
    assert_eq!(proportional_deposit(1000, 0, 700, 33, 100, 100), Err(AmmError::MathError));
    assert_eq!(proportional_deposit(0, 0, 700, 33, 100, 100), Err(AmmError::MathError));
}

#[test]
fn deposit_beyond_64_bits_is_a_math_error() {
    assert_eq!(proportional_deposit(u64::MAX, 1, 1, 2, 0, 0), Err(AmmError::MathError));
    assert_eq!(proportional_deposit(1, u64::MAX, 1, 2, 0, 0), Err(AmmError::MathError));
    assert_eq!(
        proportional_deposit(u64::MAX, u64::MAX, 1, u64::MAX, 0, 0),
        Err(AmmError::MathError)
    );
}

#[test]
fn deposit_at_the_edge_of_64_bits_succeeds() {
    assert_eq!(
        proportional_deposit(u64::MAX, u64::MAX, u64::MAX, u64::MAX, 0, 0),
        Ok(XYAmounts { x: u64::MAX, y: u64::MAX })
    );
    assert_eq!(
        proportional_deposit(u64::MAX, 1, 1, 1, 0, 0),
        Ok(XYAmounts { x: u64::MAX, y: 1 })
    );
}

#[test]
fn withdraw_rounds_amounts_down() {
    assert_eq!(proportional_withdraw(1000, 3000, 700, 33), Ok(XYAmounts { x: 47, y: 141 }));
    assert_eq!(proportional_withdraw(5, 5, 3, 2), Ok(XYAmounts { x: 3, y: 3 }));
}

#[test]
fn withdraw_of_every_share_returns_both_reserves() {
    assert_eq!(proportional_withdraw(1234, 98_765, 700, 700), Ok(XYAmounts { x: 1234, y: 98_765 }));
}

#[test]
fn withdraw_of_no_shares_pays_nothing() {
    assert_eq!(proportional_withdraw(1000, 3000, 700, 0), Ok(XYAmounts { x: 0, y: 0 }));
}

#[test]
fn withdraw_without_shares_has_no_liquidity() {
    assert_eq!(proportional_withdraw(0, 0, 0, 10), Err(AmmError::NoLiquidity));
    assert_eq!(proportional_withdraw(50, 60, 0, 0), Err(AmmError::NoLiquidity));
}

#[test]
fn withdraw_beyond_64_bits_is_a_math_error() {
    assert_eq!(proportional_withdraw(u64::MAX, 1, 1, 2), Err(AmmError::MathError));
    assert_eq!(proportional_withdraw(1, u64::MAX, 1, 2), Err(AmmError::MathError));
}

#[test]
fn swap_scenario_with_thirty_basis_points() {
    // net input 10_000 * 9970 / 10_000 = 9970;
    // 1_000_000 * 2_000_000 / 1_009_970 = 1_980_256 (truncated)
    assert_eq!(swap_amount_out(1_000_000, 2_000_000, 30, 10_000), Ok(19_744));
    assert_eq!(swap_amount_out(1_000_000, 2_000_000, 30, 10_000), Ok(2_000_000 - 1_980_256));
    assert_eq!(reference_out(1_000_000, 2_000_000, 9970), 19_744);
}

#[test]
fn swap_scenario_in_the_other_direction() {
    assert_eq!(swap_amount_out(2_000_000, 1_000_000, 30, 10_000), Ok(4961));
}

#[test]
fn swap_without_fee_matches_the_formula() {
    assert_eq!(swap_amount_out(300, 500, 0, 7), Ok(12));
    let reserves: [u64; 7] = [1, 2, 3, 1000, 999_983, 1 << 40, u64::MAX];
    let inputs: [u64; 7] = [1, 2, 5, 1000, 123_456_789, 1 << 50, u64::MAX];
    for &reserve_in in reserves.iter() {
        for &reserve_out in reserves.iter() {
            for &amount_in in inputs.iter() {
                assert_eq!(
                    swap_amount_out(reserve_in, reserve_out, 0, amount_in),
                    Ok(reference_out(reserve_in, reserve_out, amount_in))
                );
            }
        }
    }
}

#[test]
fn swap_takes_the_fee_before_pricing() {
    let reserves: [u64; 5] = [1, 77, 1_000_000, 1 << 45, u64::MAX];
    let inputs: [u64; 5] = [2, 10_000, 10_001, 1 << 33, u64::MAX];
    let fees: [u16; 5] = [1, 30, 100, 5000, 9999];
    for &reserve_in in reserves.iter() {
        for &reserve_out in reserves.iter() {
            for &amount_in in inputs.iter() {
                for &fee in fees.iter() {
                    let net = (amount_in as u128 * (10_000 - fee as u128) / 10_000) as u64;
                    let expected = if net == 0 {
                        Err(AmmError::MathError)
                    } else {
                        Ok(reference_out(reserve_in, reserve_out, net))
                    };
                    assert_eq!(swap_amount_out(reserve_in, reserve_out, fee, amount_in), expected);
                }
            }
        }
    }
}

#[test]
fn swap_of_the_largest_values() {
    assert_eq!(
        swap_amount_out(u64::MAX, u64::MAX, 1, u64::MAX),
        Ok(9_222_910_845_193_349_998)
    );
}

#[test]
fn swap_can_take_the_whole_output_reserve() {
    // 1 * 1 / (1 + 5) truncates to nothing
    assert_eq!(swap_amount_out(1, 1, 0, 5), Ok(1));
}

#[test]
fn swap_amount_against_an_empty_reserve_has_no_liquidity() {
    assert_eq!(swap_amount_out(0, 2_000_000, 30, 10_000), Err(AmmError::NoLiquidity));
    assert_eq!(swap_amount_out(1_000_000, 0, 30, 10_000), Err(AmmError::NoLiquidity));
    assert_eq!(swap_amount_out(0, 0, 30, 10_000), Err(AmmError::NoLiquidity));
    // an empty reserve is reported before a bad fee or an empty input
    assert_eq!(swap_amount_out(0, 5, 10_000, 0), Err(AmmError::NoLiquidity));
}

#[test]
fn swap_of_nothing_is_a_math_error() {
    assert_eq!(swap_amount_out(1_000_000, 2_000_000, 30, 0), Err(AmmError::MathError));
    assert_eq!(swap_amount_out(1_000_000, 2_000_000, 0, 0), Err(AmmError::MathError));
}

#[test]
fn swap_of_which_the_fee_leaves_nothing_is_a_math_error() {
    // 1 * 9970 / 10_000 truncates to nothing
    assert_eq!(swap_amount_out(1_000_000, 2_000_000, 30, 1), Err(AmmError::MathError));
    // 2 * 9970 / 10_000 = 1
    assert_eq!(swap_amount_out(1_000_000, 2_000_000, 30, 2), Ok(2));
}

#[test]
fn swap_with_a_fee_of_the_whole_or_more_is_a_math_error() {
    assert_eq!(swap_amount_out(1_000_000, 2_000_000, 10_000, 10_000), Err(AmmError::MathError));
    assert_eq!(swap_amount_out(1_000_000, 2_000_000, 10_001, 10_000), Err(AmmError::MathError));
    assert_eq!(swap_amount_out(1_000_000, 2_000_000, u16::MAX, 10_000), Err(AmmError::MathError));
    assert_eq!(swap_amount_out(1_000_000, 2_000_000, 9999, 10_000), Ok(2));
}
