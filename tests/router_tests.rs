use elrond_dex::common::{Address, GenericTokenAmountPair, TokenIdentifier};
use elrond_dex::factory::{FactoryError, FactoryModule};
use elrond_dex::token_send::{compact_payments, TokenSendModule, TransferPlan};
use elrond_dex::token_supply::{SupplyError, TokenSupplyModule};

fn token(s: &str) -> TokenIdentifier {
    TokenIdentifier::from_bytes(s.as_bytes().to_vec())
}

fn address(b: u8) -> Address {
    Address::from_bytes(vec![b; 32])
}

fn payment(s: &str, nonce: u64, amount: u128) -> GenericTokenAmountPair {
    GenericTokenAmountPair { token_id: token(s), token_nonce: nonce, amount }
}

#[test]
fn valid_identifiers() {
    assert!(token("WEGLD-abcdef").is_valid_esdt_identifier());
    assert!(token("MEX-455c57").is_valid_esdt_identifier());
    assert!(!token("MEX-455C57").is_valid_esdt_identifier());
    assert!(!token("mex-455c57").is_valid_esdt_identifier());
    assert!(!token("ME-455c57").is_valid_esdt_identifier());
    assert!(!token("MEX_455c57").is_valid_esdt_identifier());
    assert!(!token("EGLD").is_valid_esdt_identifier());
    assert!(token("ABCDEFGHIJ-abcdef").is_valid_esdt_identifier());
    assert!(!token("ABCDEFGHIJK-abcdef").is_valid_esdt_identifier());
}

#[test]
fn zero_address() {
    assert!(Address::zero().is_zero());
    assert!(!address(1).is_zero());
    assert_eq!(Address::zero().bytes.len(), 32);
}

#[test]
fn pair_code_upload() {
    let mut router = FactoryModule::init_factory(address(1));
    assert_eq!(router.require_pair_code_ready(), Err(FactoryError::PairCodeNotReady));
    assert_eq!(router.start_pair_code_construction(&address(2)), Err(FactoryError::PermissionDenied));
    router.start_pair_code_construction(&address(1)).unwrap();
    router.apppend_pair_code(&address(1), &vec![1, 2]).unwrap();
    router.apppend_pair_code(&address(1), &vec![3]).unwrap();
    router.end_pair_code_construction(&address(1)).unwrap();
    assert_eq!(router.pair_code, vec![1, 2, 3]);
    assert_eq!(router.require_pair_code_ready(), Ok(()));
    assert_eq!(router.apppend_pair_code(&address(1), &vec![4]), Err(FactoryError::PairConstructionNotStarted));
}

#[test]
fn pair_registry_lookup() {
    let mut router = FactoryModule::init_factory(address(1));
    router.register_pair(&token("WEGLD-abcdef"), &token("MEX-123456"), &address(8), &address(4), 100);
    assert_eq!(router.get_pair(&token("WEGLD-abcdef"), &token("MEX-123456")), Some(address(8)));
    assert_eq!(router.get_pair(&token("MEX-123456"), &token("WEGLD-abcdef")), Some(address(8)));
    assert_eq!(router.get_pair(&token("MEX-123456"), &token("RIDE-abcdef")), None);
    assert_eq!(router.check_is_pair_sc(&address(8)), Ok(()));
    assert_eq!(router.check_is_pair_sc(&address(9)), Err(FactoryError::NotAPair));
    assert_eq!(router.get_all_pairs_addresses(), vec![address(8)]);
    let metadata = router.get_all_pair_contract_metadata();
    assert_eq!(metadata[0].first_token_id, token("WEGLD-abcdef"));
    assert_eq!(metadata[0].address, address(8));
    assert_eq!(router.get_all_token_pairs()[0].second_token_id, token("MEX-123456"));
}

#[test]
fn temporary_owner_expires() {
    let mut router = FactoryModule::init_factory(address(1));
    router.register_pair(&token("WEGLD-abcdef"), &token("MEX-123456"), &address(8), &address(4), 100);
    assert_eq!(router.get_pair_temporary_owner(&address(8), 150), Some(address(4)));
    assert_eq!(router.get_pair_temporary_owner(&address(8), 151), None);
    assert_eq!(router.pair_temporary_owner.len(), 0);
    router.register_pair(&token("RIDE-abcdef"), &token("MEX-123456"), &address(9), &address(4), 100);
    assert_eq!(router.clear_pair_temporary_owner_storage(&address(1)), Ok(1));
    assert_eq!(router.get_pair_temporary_owner(&address(9), 120), None);
}

#[test]
fn payments_are_compacted() {
    let payments = vec![payment("A-abcdef", 0, 10), payment("B-abcdef", 0, 0), payment("A-abcdef", 0, 5), payment("C-abcdef", 3, 7)];
    let compact = compact_payments(&payments).unwrap();
    assert_eq!(compact.len(), 2);
    assert_eq!((compact[0].token_id.clone(), compact[0].amount), (token("A-abcdef"), 15));
    assert_eq!((compact[1].token_nonce, compact[1].amount), (3, 7));
    let sender = TokenSendModule { transfer_exec_gas_limit: 35_000_000 };
    match sender.send_multiple_tokens_compact(&payments).unwrap() {
        TransferPlan::Multiple { payments } => assert_eq!(payments.len(), 2),
        other => panic!("unexpected plan {:?}", other),
    }
    match sender.send_multiple_tokens_compact(&vec![payment("C-abcdef", 3, 7), payment("C-abcdef", 3, 1)]).unwrap() {
        TransferPlan::NonFungible { nonce, amount, .. } => assert_eq!((nonce, amount), (3, 8)),
        other => panic!("unexpected plan {:?}", other),
    }
    assert!(matches!(sender.send_multiple_tokens_compact(&vec![payment("C-abcdef", 0, 0)]), Some(TransferPlan::Nothing)));
    assert!(compact_payments(&vec![payment("A-abcdef", 0, u128::MAX), payment("A-abcdef", 0, 1)]).is_none());
    assert_eq!(sender.transfer_call(&Some(b"accept".to_vec())), (b"accept".to_vec(), 35_000_000));
    assert_eq!(sender.transfer_call(&None), (vec![], 0));
}

#[test]
fn supply_is_minted_less_burned() {
    let mut supply = TokenSupplyModule::new();
    supply.increase_generated_amount(&token("LPTOK-a1b2c3"), 100).unwrap();
    supply.increase_generated_amount(&token("LPTOK-a1b2c3"), 20).unwrap();
    supply.increase_burned_amount(&token("LPTOK-a1b2c3"), 30).unwrap();
    assert_eq!(supply.get_generated_token_amount(&token("LPTOK-a1b2c3")), 120);
    assert_eq!(supply.get_total_supply(&token("LPTOK-a1b2c3")), Ok(90));
    assert_eq!(supply.get_total_supply(&token("MEX-123456")), Ok(0));
    supply.increase_burned_amount(&token("MEX-123456"), 1).unwrap();
    assert_eq!(supply.get_total_supply(&token("MEX-123456")), Err(SupplyError::NegativeTotalSupply));
    assert_eq!(
        supply.increase_generated_amount(&token("LPTOK-a1b2c3"), u128::MAX),
        Err(SupplyError::ArithmeticOverflow)
    );
}
