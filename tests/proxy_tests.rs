use elrond_dex::common::{
    Address, FftTokenAmountPair, GenericTokenAmountPair, TokenIdentifier, WrappedFarmTokenAttributes, WrappedLpTokenAttributes,
};
use elrond_dex::proxy::{
    rule_of_three, rule_of_three_non_zero_result, IssueRequestType, ProxyDexImpl, ProxyError, WrappedFarmToken, WrappedLpToken,
};

fn token(s: &str) -> TokenIdentifier {
    TokenIdentifier::from_bytes(s.as_bytes().to_vec())
}

fn address(b: u8) -> Address {
    Address::from_bytes(vec![b; 32])
}

fn new_proxy() -> ProxyDexImpl {
    let mut proxy = ProxyDexImpl::init(address(1), token("MEX-123456"), token("LKMEX-abcdef")).unwrap();
    proxy.issue_nft_callback(IssueRequestType::ProxyPair, token("WLPTOK-abcdef"));
    proxy.add_pair_to_intermediate(&address(1), address(5)).unwrap();
    proxy
}

fn wrapped(amount: u128, lp: &str, total: u128, invested: u128, nonce: u64) -> WrappedLpToken {
    WrappedLpToken {
        token_amount: GenericTokenAmountPair { token_id: token("WLPTOK-abcdef"), token_nonce: 1, amount },
        attributes: WrappedLpTokenAttributes {
            lp_token_id: token(lp),
            lp_token_total_amount: total,
            locked_assets_invested: invested,
            locked_assets_nonce: nonce,
        },
    }
}

#[test]
fn rule_of_three_values() {
    assert_eq!(rule_of_three(50, 100, 30), Some(15));
    assert_eq!(rule_of_three(1, 0, 30), None);
    assert_eq!(rule_of_three_non_zero_result(50, 100, 30), Ok(15));
    assert_eq!(rule_of_three_non_zero_result(1, 100, 30), Err(ProxyError::ZeroResult));
    assert_eq!(rule_of_three_non_zero_result(1, 0, 30), Err(ProxyError::ZeroTotal));
}

#[test]
fn merge_wrapped_lp_tokens_sums_parts() {
    let proxy = new_proxy();
    let deposit = vec![wrapped(100, "LPTOK-a1b2c3", 200, 1_000, 3), wrapped(50, "LPTOK-a1b2c3", 50, 300, 4)];
    let merge = proxy.merge_wrapped_lp_tokens(deposit, None).unwrap();
    assert_eq!(merge.merged_amount, 150);
    assert_eq!(merge.lp_token_id, token("LPTOK-a1b2c3"));
    assert_eq!(merge.locked_parts.len(), 2);
    assert_eq!((merge.locked_parts[0].amount, merge.locked_parts[0].token_nonce), (500, 3));
    assert_eq!((merge.locked_parts[1].amount, merge.locked_parts[1].token_nonce), (300, 4));
    assert_eq!(merge.locked_parts[0].token_id, token("LKMEX-abcdef"));
    assert!(merge.is_merged);
}

#[test]
fn merge_with_replic_only() {
    let proxy = new_proxy();
    let merge = proxy.merge_wrapped_lp_tokens(vec![], Some(wrapped(10, "LPTOK-a1b2c3", 10, 40, 2))).unwrap();
    assert_eq!(merge.merged_amount, 10);
    assert_eq!(merge.locked_parts[0].amount, 40);
    assert!(!merge.is_merged);
}

#[test]
fn merge_errors() {
    let proxy = new_proxy();
    assert_eq!(proxy.merge_wrapped_lp_tokens(vec![], None).err(), Some(ProxyError::EmptyDeposit));
    let deposit = vec![wrapped(100, "LPTOK-a1b2c3", 200, 1_000, 3), wrapped(50, "LPB-a1b2c3", 50, 300, 4)];
    assert_eq!(proxy.merge_wrapped_lp_tokens(deposit, None).err(), Some(ProxyError::LpTokenIdDiffers));
    let tiny = vec![wrapped(1, "LPTOK-a1b2c3", 1_000, 10, 3)];
    assert_eq!(proxy.merge_wrapped_lp_tokens(tiny, None).err(), Some(ProxyError::ZeroResult));
}

#[test]
fn add_liquidity_proxy_checks_payments() {
    let proxy = new_proxy();
    let good = vec![
        GenericTokenAmountPair { token_id: token("WEGLD-abcdef"), token_nonce: 0, amount: 10 },
        GenericTokenAmountPair { token_id: token("LKMEX-abcdef"), token_nonce: 5, amount: 20 },
    ];
    assert_eq!(proxy.check_add_liquidity_proxy(&address(5), &vec![], &good), Ok(()));
    assert_eq!(proxy.check_add_liquidity_proxy(&address(6), &vec![], &good), Err(ProxyError::NotIntermediatedPair));
    let both_fungible = vec![
        GenericTokenAmountPair { token_id: token("WEGLD-abcdef"), token_nonce: 0, amount: 10 },
        GenericTokenAmountPair { token_id: token("LKMEX-abcdef"), token_nonce: 0, amount: 20 },
    ];
    assert_eq!(
        proxy.check_add_liquidity_proxy(&address(5), &vec![], &both_fungible),
        Err(ProxyError::NotOneFungibleOneSemiFungible)
    );
    let (first, second) = proxy.add_liquidity_payments(&good);
    assert_eq!((first.token_id, first.amount), (token("WEGLD-abcdef"), 10));
    assert_eq!((second.token_id, second.amount), (token("MEX-123456"), 20));
}

#[test]
fn add_liquidity_proxy_settles() {
    let proxy = new_proxy();
    let payments = vec![
        GenericTokenAmountPair { token_id: token("WEGLD-abcdef"), token_nonce: 0, amount: 10 },
        GenericTokenAmountPair { token_id: token("LKMEX-abcdef"), token_nonce: 5, amount: 20 },
    ];
    let lp = FftTokenAmountPair { token_id: token("LPTOK-a1b2c3"), amount: 7 };
    let first = FftTokenAmountPair { token_id: token("WEGLD-abcdef"), amount: 10 };
    let second = FftTokenAmountPair { token_id: token("MEX-123456"), amount: 15 };
    let s = proxy.settle_add_liquidity_proxy(&payments, &lp, &first, &second).unwrap();
    assert_eq!(s.consumed_locked_tokens, 15);
    assert_eq!(s.unused_minted_assets, 5);
    assert_eq!(s.locked_asset_token_nonce, 5);
    assert_eq!((s.first_token_unused, s.second_token_unused), (0, 5));
    let no_lp = FftTokenAmountPair { token_id: token("LPTOK-a1b2c3"), amount: 0 };
    assert_eq!(proxy.settle_add_liquidity_proxy(&payments, &no_lp, &first, &second).err(), Some(ProxyError::ZeroLpReceived));
}

#[test]
fn remove_liquidity_proxy_settles() {
    let proxy = new_proxy();
    let attributes = WrappedLpTokenAttributes {
        lp_token_id: token("LPTOK-a1b2c3"),
        lp_token_total_amount: 200,
        locked_assets_invested: 1_000,
        locked_assets_nonce: 3,
    };
    let asset = FftTokenAmountPair { token_id: token("MEX-123456"), amount: 600 };
    let other = FftTokenAmountPair { token_id: token("WEGLD-abcdef"), amount: 70 };
    let s = proxy.settle_remove_liquidity_proxy(100, &attributes, &other, &asset).unwrap();
    assert_eq!(s.fungible_token.token_id, token("WEGLD-abcdef"));
    assert_eq!(s.fungible_token.amount, 70);
    assert_eq!((s.locked_assets_to_send, s.assets_surplus, s.locked_assets_to_burn), (500, 100, 0));
    let small = FftTokenAmountPair { token_id: token("MEX-123456"), amount: 450 };
    let s = proxy.settle_remove_liquidity_proxy(100, &attributes, &small, &other).unwrap();
    assert_eq!((s.locked_assets_to_send, s.assets_surplus, s.locked_assets_to_burn), (450, 0, 50));
    assert_eq!(
        proxy.settle_remove_liquidity_proxy(100, &attributes, &other, &other).err(),
        Some(ProxyError::BadTokensReceived)
    );
}

#[test]
fn intermediated_pairs_registry() {
    let mut proxy = new_proxy();
    assert!(proxy.pairs.is_intermediated_pair(&address(5)));
    proxy.add_pair_to_intermediate(&address(1), address(5)).unwrap();
    assert_eq!(proxy.pairs.intermediated_pairs.len(), 1);
    assert_eq!(proxy.add_pair_to_intermediate(&address(2), address(6)), Err(ProxyError::PermissionDenied));
    assert_eq!(proxy.remove_intermediated_pair(&address(2), &address(5)), Err(ProxyError::PermissionDenied));
    assert_eq!(proxy.remove_intermediated_pair(&address(1), &address(5)), Ok(()));
    assert_eq!(proxy.remove_intermediated_pair(&address(1), &address(5)), Err(ProxyError::NotIntermediatedPair));
    assert_eq!(proxy.issue_sft(&address(1), IssueRequestType::ProxyPair), Err(ProxyError::AlreadyIssued));
    assert_eq!(proxy.issue_sft(&address(1), IssueRequestType::ProxyFarm), Ok(()));
    assert_eq!(proxy.issue_sft(&address(2), IssueRequestType::ProxyFarm), Err(ProxyError::PermissionDenied));
}

#[test]
fn merge_lp_tokens_behind_farm_tokens() {
    let proxy = new_proxy();
    let farm_token = |amount: u128, farm_amount: u128, farming_amount: u128, nonce: u64| WrappedFarmToken {
        token_amount: GenericTokenAmountPair { token_id: token("WFARM-abcdef"), token_nonce: 1, amount },
        attributes: WrappedFarmTokenAttributes {
            farm_token_id: token("FARM-abcdef"),
            farm_token_nonce: 2,
            farm_token_amount: farm_amount,
            farming_token_id: token("WLPTOK-abcdef"),
            farming_token_nonce: nonce,
            farming_token_amount: farming_amount,
        },
    };
    let tokens = vec![farm_token(50, 100, 80, 7), farm_token(10, 10, 20, 8)];
    let attributes = vec![
        WrappedLpTokenAttributes {
            lp_token_id: token("LPTOK-a1b2c3"),
            lp_token_total_amount: 80,
            locked_assets_invested: 800,
            locked_assets_nonce: 3,
        },
        WrappedLpTokenAttributes {
            lp_token_id: token("LPTOK-a1b2c3"),
            lp_token_total_amount: 40,
            locked_assets_invested: 100,
            locked_assets_nonce: 4,
        },
    ];
    let merge = proxy.merge_wrapped_lp_tokens_from_farm(&tokens, attributes).unwrap();
    assert_eq!(merge.merged_amount, 60);
    assert_eq!((merge.locked_parts[0].amount, merge.locked_parts[0].token_nonce), (400, 3));
    assert_eq!((merge.locked_parts[1].amount, merge.locked_parts[1].token_nonce), (50, 4));
    let farm_merge = proxy.merge_wrapped_farm_tokens(vec![], Some(farm_token(50, 100, 80, 7)));
    assert_eq!(farm_merge.err(), Some(ProxyError::EmptyTokenId));
}

#[test]
fn remove_liquidity_proxy_checks() {
    let proxy = new_proxy();
    let attributes = WrappedLpTokenAttributes {
        lp_token_id: token("LPTOK-a1b2c3"),
        lp_token_total_amount: 200,
        locked_assets_invested: 1_000,
        locked_assets_nonce: 3,
    };
    let wlp = token("WLPTOK-abcdef");
    let lp = token("LPTOK-a1b2c3");
    assert_eq!(proxy.check_remove_liquidity_proxy(&address(5), &wlp, 1, 10, &attributes, &lp), Ok(()));
    assert_eq!(proxy.check_remove_liquidity_proxy(&address(5), &wlp, 0, 10, &attributes, &lp), Err(ProxyError::SftRequired));
    assert_eq!(
        proxy.check_remove_liquidity_proxy(&address(5), &wlp, 1, 10, &attributes, &token("LPB-a1b2c3")),
        Err(ProxyError::BadInputAddress)
    );
    assert_eq!(
        proxy.check_remove_liquidity_proxy(&address(5), &lp, 1, 10, &attributes, &lp),
        Err(ProxyError::WrongInputToken)
    );
}

#[test]
fn deposit_creates_merged_wrapped_lp_token() {
    let mut proxy = new_proxy();
    let payments = vec![
        GenericTokenAmountPair { token_id: token("WEGLD-abcdef"), token_nonce: 0, amount: 10 },
        GenericTokenAmountPair { token_id: token("LKMEX-abcdef"), token_nonce: 5, amount: 20 },
    ];
    let lp = FftTokenAmountPair { token_id: token("LPTOK-a1b2c3"), amount: 7 };
    let first = FftTokenAmountPair { token_id: token("WEGLD-abcdef"), amount: 10 };
    let second = FftTokenAmountPair { token_id: token("MEX-123456"), amount: 15 };
    let settlement = proxy.settle_add_liquidity_proxy(&payments, &lp, &first, &second).unwrap();
    let replic = proxy.new_wrapped_lp_token(&lp, &settlement).unwrap();
    assert_eq!(replic.token_amount.amount, 7);
    assert_eq!(replic.attributes.lp_token_total_amount, 7);
    assert_eq!(replic.attributes.locked_assets_invested, 15);
    assert_eq!(replic.attributes.locked_assets_nonce, 5);
    let deposit = vec![wrapped(100, "LPTOK-a1b2c3", 200, 1_000, 3)];
    let merge = proxy.merge_wrapped_lp_tokens(deposit, Some(replic)).unwrap();
    assert_eq!(merge.merged_amount, 107);
    assert_eq!((merge.locked_parts[0].amount, merge.locked_parts[1].amount), (500, 15));
    let merged_locked = GenericTokenAmountPair { token_id: token("LKMEX-abcdef"), token_nonce: 9, amount: 515 };
    let created = proxy.create_merged_wrapped_lp_token(&merge, &merged_locked).unwrap();
    assert_eq!(created.token.token_id, token("WLPTOK-abcdef"));
    assert_eq!(created.token.token_nonce, 1);
    assert_eq!(created.token.amount, 107);
    assert_eq!(created.attributes.lp_token_total_amount, 107);
    assert_eq!((created.attributes.locked_assets_invested, created.attributes.locked_assets_nonce), (515, 9));
    let again = proxy.create_merged_wrapped_lp_token(&merge, &merged_locked).unwrap();
    assert_eq!(again.token.token_nonce, 2);
}

#[test]
fn merged_wrapped_farm_token_takes_next_nonce() {
    let mut proxy = new_proxy();
    let farm = GenericTokenAmountPair { token_id: token("FARM-abcdef"), token_nonce: 4, amount: 60 };
    let farming = GenericTokenAmountPair { token_id: token("LKMEX-abcdef"), token_nonce: 8, amount: 30 };
    assert_eq!(proxy.create_merged_wrapped_farm_token(&farm, &farming).err(), Some(ProxyError::EmptyTokenId));
    proxy.issue_nft_callback(IssueRequestType::ProxyFarm, token("WFARM-abcdef"));
    let (created, attributes) = proxy.create_merged_wrapped_farm_token(&farm, &farming).unwrap();
    assert_eq!((created.token_nonce, created.amount), (1, 60));
    assert_eq!(created.token_id, token("WFARM-abcdef"));
    assert_eq!((attributes.farm_token_nonce, attributes.farming_token_amount), (4, 30));
}
