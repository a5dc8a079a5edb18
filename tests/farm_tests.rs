use elrond_dex::common::{Address, State, TokenIdentifier};
use elrond_dex::farm::{calculate_reward_for_given_liquidity, ExitFarmOutcome, Farm, FarmError};

const DSC: u128 = 1_000_000_000_000;

fn token(s: &str) -> TokenIdentifier {
    TokenIdentifier::from_bytes(s.as_bytes().to_vec())
}

fn address(b: u8) -> Address {
    Address::from_bytes(vec![b; 32])
}

fn new_farm() -> Farm {
    let mut farm = Farm::init(address(1), address(2), token("MEX-123456"), token("LPTOK-a1b2c3"), address(3), DSC).unwrap();
    farm.set_farm_token_id(token("FARM-abcdef"));
    farm.start_produce_per_block_rewards(&address(1), 100, 10).unwrap();
    farm
}

#[test]
fn farm_init_checks() {
    assert_eq!(
        Farm::init(address(1), address(2), token("MEX"), token("LPTOK-a1b2c3"), address(3), DSC).err(),
        Some(FarmError::InvalidRewardTokenId)
    );
    assert_eq!(
        Farm::init(address(1), address(2), token("MEX-123456"), token("LPTOK-a1b2c3"), address(3), 0).err(),
        Some(FarmError::ZeroDivisionConstant)
    );
    let farm = Farm::init(address(1), address(2), token("MEX-123456"), token("LPTOK-a1b2c3"), address(3), DSC).unwrap();
    assert_eq!(farm.state, State::Active);
    assert_eq!(farm.penalty_percent, 10);
}

#[test]
fn enter_farm_mints_position() {
    let mut farm = new_farm();
    let (position, attributes) = farm.enter_farm(&token("LPTOK-a1b2c3"), 1_000, false, 10, 5).unwrap();
    assert_eq!(position.token_id, token("FARM-abcdef"));
    assert_eq!(position.token_nonce, 1);
    assert_eq!(position.amount, 1_000);
    assert_eq!(attributes.reward_per_share, 0);
    assert_eq!(attributes.entering_epoch, 5);
    assert_eq!(attributes.apr_multiplier, 1);
    assert_eq!(farm.farm_token_supply, 1_000);
    assert_eq!(farm.farming_token_reserve, 1_000);
}

#[test]
fn enter_farm_errors() {
    let mut farm = new_farm();
    assert_eq!(farm.enter_farm(&token("MEX-123456"), 1_000, false, 10, 5).err(), Some(FarmError::BadInputToken));
    assert_eq!(farm.enter_farm(&token("LPTOK-a1b2c3"), 0, false, 10, 5).err(), Some(FarmError::ZeroAmount));
    farm.pause(&address(1)).unwrap();
    assert_eq!(farm.enter_farm(&token("LPTOK-a1b2c3"), 10, false, 10, 5).err(), Some(FarmError::NotActive));
    assert_eq!(farm.pause(&address(9)), Err(FarmError::PermissionDenied));
}

#[test]
fn locked_rewards_multiply_contribution() {
    let mut farm = new_farm();
    let (position, attributes) = farm.enter_farm(&token("LPTOK-a1b2c3"), 1_000, true, 10, 5).unwrap();
    assert_eq!(position.amount, 2_000);
    assert_eq!(attributes.apr_multiplier, 2);
    assert!(attributes.with_locked_rewards);
    assert_eq!(
        farm.exit_farm(&token("FARM-abcdef"), 2_000, &attributes, 20, 6).err(),
        Some(FarmError::ExitTooEarly)
    );
    let out = farm.exit_farm(&token("FARM-abcdef"), 2_000, &attributes, 20, 8).unwrap();
    assert_eq!(out.farming_token_amount, 1_000);
    assert_eq!(out.reward_amount, 1_000);
}

#[test]
fn rewards_accrue_per_block() {
    let mut farm = new_farm();
    let (_, attributes) = farm.enter_farm(&token("LPTOK-a1b2c3"), 1_000, false, 10, 5).unwrap();
    assert_eq!(farm.calculate_rewards_for_given_position(1_000, &attributes, 20, 10), Ok(1_000));
    assert_eq!(farm.calculate_rewards_for_given_position(1_000, &attributes, 20, 6), Ok(900));
    assert_eq!(farm.calculate_rewards_for_given_position(500, &attributes, 20, 10), Ok(500));
    assert_eq!(farm.calculate_rewards_for_given_position(2_000, &attributes, 20, 10), Err(FarmError::NotEnoughSupply));
}

#[test]
fn exit_farm_pays_reward() {
    let mut farm = new_farm();
    let (_, attributes) = farm.enter_farm(&token("LPTOK-a1b2c3"), 1_000, false, 10, 5).unwrap();
    let out = farm.exit_farm(&token("FARM-abcdef"), 1_000, &attributes, 20, 10).unwrap();
    assert_eq!(
        out,
        ExitFarmOutcome { farming_token_amount: 1_000, reward_amount: 1_000, farming_penalty: 0, reward_penalty: 0 }
    );
    assert_eq!(farm.farm_token_supply, 0);
    assert_eq!(farm.farming_token_reserve, 0);
    assert_eq!(farm.reward_reserve, 0);
}

#[test]
fn early_exit_pays_penalty() {
    let mut farm = new_farm();
    let (_, attributes) = farm.enter_farm(&token("LPTOK-a1b2c3"), 1_000, false, 10, 5).unwrap();
    let out = farm.exit_farm(&token("FARM-abcdef"), 1_000, &attributes, 20, 6).unwrap();
    assert_eq!(
        out,
        ExitFarmOutcome { farming_token_amount: 900, reward_amount: 900, farming_penalty: 100, reward_penalty: 100 }
    );
    assert_eq!(farm.farming_token_reserve, 100);
}

#[test]
fn claim_rewards_renews_position() {
    let mut farm = new_farm();
    let (_, attributes) = farm.enter_farm(&token("LPTOK-a1b2c3"), 1_000, false, 10, 5).unwrap();
    let (position, new_attributes, reward) = farm.claim_rewards(&token("FARM-abcdef"), 1_000, &attributes, 20).unwrap();
    assert_eq!(reward, 1_000);
    assert_eq!(position.token_nonce, 2);
    assert_eq!(position.amount, 1_000);
    assert_eq!(new_attributes.reward_per_share, DSC);
    assert_eq!(new_attributes.entering_epoch, 5);
    assert_eq!(farm.calculate_rewards_for_given_position(1_000, &new_attributes, 20, 10), Ok(0));
}

#[test]
fn fees_are_shared_from_next_block() {
    let mut farm = new_farm();
    let (_, attributes) = farm.enter_farm(&token("LPTOK-a1b2c3"), 1_000, false, 10, 5).unwrap();
    assert_eq!(farm.accept_fee(&token("LPTOK-a1b2c3"), 50, 10), Err(FarmError::BadFeeToken));
    assert_eq!(farm.accept_fee(&token("MEX-123456"), 0, 10), Err(FarmError::ZeroAmount));
    farm.accept_fee(&token("MEX-123456"), 50, 10).unwrap();
    assert_eq!(farm.calculate_rewards_for_given_position(1_000, &attributes, 10, 10), Ok(0));
    assert_eq!(farm.calculate_rewards_for_given_position(1_000, &attributes, 11, 10), Ok(150));
}

#[test]
fn penalty_rules() {
    let mut farm = new_farm();
    assert_eq!(farm.get_penalty_amount(1_000), 100);
    assert!(farm.should_apply_penalty(5, 7));
    assert!(!farm.should_apply_penalty(5, 8));
    assert_eq!(farm.set_penalty_percent(&address(1), 101), Err(FarmError::PercentTooLarge));
    farm.set_penalty_percent(&address(2), 25).unwrap();
    assert_eq!(farm.get_penalty_amount(1_000), 250);
    farm.set_penalty_percent(&address(1), 50).unwrap();
    assert_eq!(farm.get_penalty_amount(100), 50);
    farm.set_penalty_percent(&address(1), 100).unwrap();
    assert_eq!(farm.get_penalty_amount(100), 100);
    assert_eq!(farm.set_locked_rewards_apr_multiplier(&address(1), 0), Err(FarmError::ZeroMultiplier));
}

#[test]
fn liquidity_reward_is_worth_above_entry() {
    assert_eq!(calculate_reward_for_given_liquidity(100, 50, 1_000, 300, 400, 300), Some(50));
    assert_eq!(calculate_reward_for_given_liquidity(100, 150, 1_000, 300, 400, 300), Some(0));
    assert_eq!(calculate_reward_for_given_liquidity(2, 0, 1, u128::MAX, 1, 0), None);
}

#[test]
fn half_penalty_halves_early_exit() {
    let mut farm = new_farm();
    farm.set_penalty_percent(&address(1), 50).unwrap();
    let (_, attributes) = farm.enter_farm(&token("LPTOK-a1b2c3"), 100, false, 10, 5).unwrap();
    let out = farm.exit_farm(&token("FARM-abcdef"), 100, &attributes, 10, 6).unwrap();
    assert_eq!(
        out,
        ExitFarmOutcome { farming_token_amount: 50, reward_amount: 0, farming_penalty: 50, reward_penalty: 0 }
    );
}
