use elrond_dex::common::{Address, FftTokenAmountPair, State, TokenIdentifier};
use elrond_dex::fee::{FeeAction, FeeError};
use elrond_dex::pair::{Pair, PairError};

fn token(s: &str) -> TokenIdentifier {
    TokenIdentifier::from_bytes(s.as_bytes().to_vec())
}

fn address(b: u8) -> Address {
    Address::from_bytes(vec![b; 32])
}

fn payment(s: &str, amount: u128) -> FftTokenAmountPair {
    FftTokenAmountPair { token_id: token(s), amount }
}

fn new_pair(total_fee: u64, special_fee: u64) -> Pair {
    let mut pair = Pair::init(token("WEGLD-abcdef"), token("MEX-123456"), address(1), address(2), total_fee, special_fee)
        .unwrap();
    pair.set_lp_token_identifier(&address(1), token("LPTOK-a1b2c3")).unwrap();
    pair
}

fn funded_pair(first: u128, second: u128, special_fee: u64) -> Pair {
    let mut pair = new_pair(300, special_fee);
    pair.add_liquidity(&vec![payment("WEGLD-abcdef", first), payment("MEX-123456", second)], 0, 0).unwrap();
    pair.state = State::Active;
    pair
}

#[test]
fn init_rejects_bad_arguments() {
    assert_eq!(
        Pair::init(token("wegld-abcdef"), token("MEX-123456"), address(1), address(2), 300, 50).err(),
        Some(PairError::InvalidFirstTokenId)
    );
    assert_eq!(
        Pair::init(token("WEGLD-abcdef"), token("WEGLD-abcdef"), address(1), address(2), 300, 50).err(),
        Some(PairError::SameExchangeTokens)
    );
    assert_eq!(
        Pair::init(token("WEGLD-abcdef"), token("MEX-123456"), address(1), address(2), 300, 400).err(),
        Some(PairError::InvalidFeePercents)
    );
}

#[test]
fn lp_token_needs_permission() {
    let mut pair = Pair::init(token("WEGLD-abcdef"), token("MEX-123456"), address(1), address(2), 300, 50).unwrap();
    assert_eq!(pair.set_lp_token_identifier(&address(9), token("LPTOK-a1b2c3")), Err(PairError::PermissionDenied));
    assert_eq!(pair.set_lp_token_identifier(&address(2), token("MEX-123456")), Err(PairError::LpTokenSameAsExchangeToken));
    assert_eq!(pair.set_lp_token_identifier(&address(2), token("LPTOK-a1b2c3")), Ok(()));
    assert_eq!(pair.set_lp_token_identifier(&address(2), token("LPTOK-a1b2c3")), Err(PairError::LpTokenAlreadySet));
}

#[test]
fn first_deposit_locks_minimum_liquidity() {
    let mut pair = new_pair(300, 50);
    let (lp, first, second) =
        pair.add_liquidity(&vec![payment("WEGLD-abcdef", 10_000), payment("MEX-123456", 20_000)], 0, 0).unwrap();
    assert_eq!(lp.amount, 9_000);
    assert_eq!(lp.token_id, token("LPTOK-a1b2c3"));
    assert_eq!(first.amount, 10_000);
    assert_eq!(second.amount, 20_000);
    assert_eq!(pair.get_reserves_and_total_supply(), (10_000, 20_000, 10_000));
}

#[test]
fn second_deposit_keeps_ratio() {
    let mut pair = new_pair(300, 50);
    pair.add_liquidity(&vec![payment("WEGLD-abcdef", 10_000), payment("MEX-123456", 20_000)], 0, 0).unwrap();
    let (lp, first, second) =
        pair.add_liquidity(&vec![payment("WEGLD-abcdef", 1_000), payment("MEX-123456", 5_000)], 0, 0).unwrap();
    assert_eq!((lp.amount, first.amount, second.amount), (1_000, 1_000, 2_000));
    assert_eq!(pair.get_reserves_and_total_supply(), (11_000, 22_000, 11_000));
}

#[test]
fn deposit_errors_leave_pool_unchanged() {
    let mut pair = new_pair(300, 50);
    assert_eq!(
        pair.add_liquidity(&vec![payment("MEX-123456", 10), payment("WEGLD-abcdef", 10)], 0, 0).err(),
        Some(PairError::BadFirstTokenId)
    );
    assert_eq!(
        pair.add_liquidity(&vec![payment("WEGLD-abcdef", 500), payment("MEX-123456", 800)], 0, 0).err(),
        Some(PairError::MinimumLiquidityNotReached)
    );
    assert_eq!(pair.add_liquidity(&vec![payment("WEGLD-abcdef", 500)], 0, 0).err(), Some(PairError::BadPaymentsLen));
    assert_eq!(pair.get_reserves_and_total_supply(), (0, 0, 0));
}

#[test]
fn remove_liquidity_pays_shares() {
    let mut pair = new_pair(300, 50);
    pair.add_liquidity(&vec![payment("WEGLD-abcdef", 10_000), payment("MEX-123456", 20_000)], 0, 0).unwrap();
    pair.add_liquidity(&vec![payment("WEGLD-abcdef", 1_000), payment("MEX-123456", 5_000)], 0, 0).unwrap();
    let (first, second) = pair.remove_liquidity(&token("LPTOK-a1b2c3"), 1_000, 0, 0).unwrap();
    assert_eq!((first.amount, second.amount), (1_000, 2_000));
    assert_eq!(pair.get_reserves_and_total_supply(), (10_000, 20_000, 10_000));
    assert_eq!(
        pair.remove_liquidity(&token("LPTOK-a1b2c3"), 9_001, 0, 0).err(),
        Some(PairError::NotEnoughLpTokenSupply)
    );
    assert_eq!(pair.remove_liquidity(&token("MEX-123456"), 10, 0, 0).err(), Some(PairError::WrongLiquidityToken));
    assert_eq!(
        pair.remove_liquidity(&token("LPTOK-a1b2c3"), 100, 101, 0).err(),
        Some(PairError::FirstTokenSlippage)
    );
}

#[test]
fn swap_fixed_input_constant_product() {
    let mut pair = funded_pair(10_000, 20_000, 50);
    let (out, fee, actions) = pair.swap_tokens_fixed_input(&token("WEGLD-abcdef"), 1_000, &token("MEX-123456"), 1).unwrap();
    assert!(actions.is_empty());
    assert_eq!(out.amount, 1_813);
    assert_eq!(out.token_id, token("MEX-123456"));
    assert_eq!(fee, 0);
    assert_eq!(pair.get_reserves_and_total_supply(), (11_000, 18_187, 10_000));
}

#[test]
fn swap_fixed_input_errors() {
    let mut pair = funded_pair(10_000, 20_000, 50);
    assert_eq!(
        pair.swap_tokens_fixed_input(&token("WEGLD-abcdef"), 1_000, &token("MEX-123456"), 1_814).err(),
        Some(PairError::AmountOutBelowMinimum)
    );
    assert_eq!(
        pair.swap_tokens_fixed_input(&token("WEGLD-abcdef"), 0, &token("MEX-123456"), 1).err(),
        Some(PairError::ZeroInput)
    );
    assert_eq!(
        pair.swap_tokens_fixed_input(&token("WEGLD-abcdef"), 10, &token("WEGLD-abcdef"), 1).err(),
        Some(PairError::SameToken)
    );
    assert_eq!(
        pair.swap_tokens_fixed_input(&token("RIDE-abcdef"), 10, &token("MEX-123456"), 1).err(),
        Some(PairError::InvalidTokenIn)
    );
    pair.state = State::ActiveNoSwaps;
    assert_eq!(
        pair.swap_tokens_fixed_input(&token("WEGLD-abcdef"), 10, &token("MEX-123456"), 1).err(),
        Some(PairError::SwapNotEnabled)
    );
    assert_eq!(pair.get_reserves_and_total_supply(), (10_000, 20_000, 10_000));
}

#[test]
fn swap_fixed_output_returns_residuum() {
    let mut pair = funded_pair(10_000, 20_000, 50);
    let (used, residuum, fee, actions) =
        pair.swap_tokens_fixed_output(&token("WEGLD-abcdef"), 600, &token("MEX-123456"), 1_000).unwrap();
    assert!(actions.is_empty());
    assert_eq!(used.amount, 528);
    assert_eq!(residuum.amount, 72);
    assert_eq!(fee, 0);
    assert_eq!(pair.get_reserves_and_total_supply(), (10_528, 19_000, 10_000));
    assert_eq!(
        pair.swap_tokens_fixed_output(&token("WEGLD-abcdef"), 100, &token("MEX-123456"), 1_000).err(),
        Some(PairError::AmountInAboveMaximum)
    );
    assert_eq!(
        pair.swap_tokens_fixed_output(&token("WEGLD-abcdef"), 100, &token("MEX-123456"), 0).err(),
        Some(PairError::ZeroDesiredOutput)
    );
}

#[test]
fn special_fee_leaves_the_pool() {
    let mut pair = funded_pair(1_000_000, 2_000_000, 100);
    pair.set_fee_on(&address(1), true, address(7), token("WEGLD-abcdef"), 100).unwrap();
    let (out, fee, actions) =
        pair.swap_tokens_fixed_input(&token("WEGLD-abcdef"), 10_000, &token("MEX-123456"), 1).unwrap();
    assert_eq!(out.amount, 19_743);
    assert_eq!(fee, 10);
    assert_eq!(pair.get_reserves_and_total_supply(), (1_009_990, 1_980_257, 1_000_000));
    assert_eq!(actions.len(), 1);
    match &actions[0] {
        FeeAction::Send { token_id, amount, destination } => {
            assert_eq!(token_id, &token("WEGLD-abcdef"));
            assert_eq!(*amount, 10);
            assert_eq!(destination, &address(7));
        }
        other => panic!("unexpected action {:?}", other),
    }
}

#[test]
fn fee_in_other_token_is_swapped_locally() {
    let mut pair = funded_pair(1_000_000, 2_000_000, 100);
    pair.set_fee_on(&address(1), true, address(7), token("MEX-123456"), 100).unwrap();
    let action = pair.resolve_fee_slice(&token("WEGLD-abcdef"), 1_000, &address(7), &token("MEX-123456")).unwrap();
    match action {
        FeeAction::Send { token_id, amount, .. } => {
            assert_eq!(token_id, token("MEX-123456"));
            assert_eq!(amount, 1_998);
        }
        other => panic!("unexpected action {:?}", other),
    }
    assert_eq!(pair.get_reserves_and_total_supply(), (1_001_000, 1_998_002, 1_000_000));
}

#[test]
fn fee_to_zero_address_is_burned() {
    let mut pair = funded_pair(1_000_000, 2_000_000, 100);
    let action = pair.resolve_fee_slice(&token("WEGLD-abcdef"), 5, &Address::zero(), &token("WEGLD-abcdef")).unwrap();
    match action {
        FeeAction::Burn { token_id, amount } => {
            assert_eq!(token_id, token("WEGLD-abcdef"));
            assert_eq!(amount, 5);
        }
        other => panic!("unexpected action {:?}", other),
    }
}

#[test]
fn unresolvable_fee_is_reinjected() {
    let mut pair = funded_pair(1_000_000, 2_000_000, 100);
    let action = pair.resolve_fee_slice(&token("WEGLD-abcdef"), 5, &address(7), &token("RIDE-abcdef")).unwrap();
    assert!(matches!(action, FeeAction::Reinjected));
    assert_eq!(pair.get_reserves_and_total_supply(), (1_000_005, 2_000_000, 1_000_000));
}

#[test]
fn fee_goes_to_trusted_pair() {
    let mut pair = funded_pair(1_000_000, 2_000_000, 100);
    pair.add_trusted_swap_pair(&address(2), address(5), token("RIDE-abcdef"), token("WEGLD-abcdef")).unwrap();
    let action = pair.resolve_fee_slice(&token("WEGLD-abcdef"), 5, &address(7), &token("RIDE-abcdef")).unwrap();
    match action {
        FeeAction::ExternSwap { pair_address, amount, restore_reserves, .. } => {
            assert_eq!(pair_address, address(5));
            assert_eq!(amount, 5);
            assert_eq!(restore_reserves, None);
        }
        other => panic!("unexpected action {:?}", other),
    }
    assert_eq!(pair.get_reserves_and_total_supply(), (1_000_000, 2_000_000, 1_000_000));
}

#[test]
fn views_compute_amounts() {
    let pair = funded_pair(10_000, 20_000, 50);
    assert_eq!(pair.get_amount_out_view(&token("WEGLD-abcdef"), 1_000), Ok(1_813));
    assert_eq!(pair.get_amount_in_view(&token("MEX-123456"), 1_000), Ok(528));
    assert_eq!(pair.get_equivalent(&token("WEGLD-abcdef"), 100), Ok(200));
    assert_eq!(pair.get_equivalent(&token("RIDE-abcdef"), 100), Err(PairError::UnknownToken));
    assert_eq!(pair.get_amount_out_view(&token("WEGLD-abcdef"), 0), Err(PairError::ZeroInput));
    let (first, second) = pair.get_tokens_for_given_position(1_000).unwrap();
    assert_eq!((first.amount, second.amount), (1_000, 2_000));
}

#[test]
fn swap_no_fee_needs_whitelist() {
    let mut pair = funded_pair(10_000, 20_000, 50);
    assert_eq!(
        pair.swap_no_fee(&address(3), &token("WEGLD-abcdef"), 1_000, &token("MEX-123456"), &address(4)).err(),
        Some(PairError::NotWhitelisted)
    );
    pair.whitelist_endpoint(&address(1), address(3)).unwrap();
    let (out, action) =
        pair.swap_no_fee(&address(3), &token("WEGLD-abcdef"), 1_000, &token("MEX-123456"), &Address::zero()).unwrap();
    assert_eq!(out.amount, 1_818);
    assert!(matches!(action, FeeAction::Burn { amount: 1_818, .. }));
    assert_eq!(pair.get_reserves_and_total_supply(), (11_000, 18_182, 10_000));
}

#[test]
fn buyback_removes_and_burns() {
    let mut pair = funded_pair(10_000, 20_000, 50);
    pair.whitelist_endpoint(&address(1), address(3)).unwrap();
    let (first, second, actions) =
        pair.remove_liquidity_and_burn_token(&address(3), &token("LPTOK-a1b2c3"), 1_000, &token("WEGLD-abcdef")).unwrap();
    assert_eq!((first, second), (1_000, 2_000));
    assert_eq!(actions.len(), 2);
    assert!(matches!(actions[0], FeeAction::Burn { amount: 1_000, .. }));
}

#[test]
fn fee_destinations_share_fee() {
    let mut pair = new_pair(300, 100);
    assert_eq!(
        pair.set_fee_on(&address(9), true, address(1), token("MEX-123456"), 60),
        Err(FeeError::PermissionDenied)
    );
    assert!(!pair.fee.is_fee_enabled());
    pair.set_fee_on(&address(1), true, address(1), token("MEX-123456"), 60).unwrap();
    pair.set_fee_on(&address(1), true, address(2), token("WEGLD-abcdef"), 40).unwrap();
    assert_eq!(
        pair.set_fee_on(&address(1), true, address(3), token("WEGLD-abcdef"), 1),
        Err(FeeError::PercentSumExceeded)
    );
    assert_eq!(pair.fee.percent_total(), 100);
    let slices = pair.fee.fee_slices(10).unwrap();
    assert_eq!(slices.len(), 2);
    assert_eq!((slices[0].amount, slices[1].amount), (6, 4));
    assert_eq!(pair.fee.fee_slices(1).unwrap().len(), 0);
    pair.set_fee_on(&address(1), false, address(1), token("MEX-123456"), 60).unwrap();
    assert_eq!(pair.fee.get_fee_destinations().len(), 1);
    assert_eq!(
        pair.set_fee_on(&address(1), false, address(1), token("MEX-123456"), 60),
        Err(FeeError::DestinationNotFound)
    );
    assert_eq!(pair.set_fee_on(&address(1), true, address(1), token("MEX-123456"), 0), Err(FeeError::ZeroPercent));
}

#[test]
fn trusted_pairs_and_whitelist() {
    let mut pair = new_pair(300, 100);
    let a = address(5);
    assert_eq!(
        pair.add_trusted_swap_pair(&address(9), a.clone(), token("RIDE-abcdef"), token("MEX-123456")),
        Err(FeeError::PermissionDenied)
    );
    pair.add_trusted_swap_pair(&address(1), a.clone(), token("RIDE-abcdef"), token("MEX-123456")).unwrap();
    assert_eq!(
        pair.add_trusted_swap_pair(&address(1), a.clone(), token("RIDE-abcdef"), token("MEX-123456")),
        Err(FeeError::PairAlreadyTrusted)
    );
    assert_eq!(
        pair.add_trusted_swap_pair(&address(1), a.clone(), token("RIDE-abcdef"), token("RIDE-abcdef")),
        Err(FeeError::SameTokens)
    );
    assert_eq!(pair.fee.get_extern_swap_pair_address(&token("MEX-123456"), &token("RIDE-abcdef")), Some(a.clone()));
    assert_eq!(pair.fee.get_trusted_swap_pairs().len(), 1);
    assert_eq!(
        pair.remove_trusted_swap_pair(&address(9), &token("MEX-123456"), &token("RIDE-abcdef")),
        Err(FeeError::PermissionDenied)
    );
    assert_eq!(pair.remove_trusted_swap_pair(&address(2), &token("MEX-123456"), &token("RIDE-abcdef")), Ok(()));
    assert_eq!(pair.fee.get_extern_swap_pair_address(&token("MEX-123456"), &token("RIDE-abcdef")), None);
    assert_eq!(
        pair.remove_trusted_swap_pair(&address(2), &token("MEX-123456"), &token("RIDE-abcdef")),
        Err(FeeError::PairNotTrusted)
    );
    assert_eq!(pair.whitelist_endpoint(&address(9), a.clone()), Err(FeeError::PermissionDenied));
    pair.whitelist_endpoint(&address(1), a.clone()).unwrap();
    assert!(pair.fee.is_whitelisted(&a));
    assert_eq!(pair.whitelist_endpoint(&address(1), a.clone()), Err(FeeError::AlreadyWhitelisted));
    assert_eq!(pair.remove_whitelist(&address(9), &a), Err(FeeError::PermissionDenied));
    assert_eq!(pair.remove_whitelist(&address(1), &a), Ok(()));
    assert_eq!(pair.remove_whitelist(&address(1), &a), Err(FeeError::NotWhitelisted));
}
