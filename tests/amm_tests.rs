use elrond_dex::amm::{
    calculate_k, get_amount_in, get_amount_out, get_amount_out_no_fee, get_special_fee_from_input, quote,
};

#[test]
fn amm_formulas() {
    assert_eq!(quote(100, 10_000, 20_000), Some(200));
    assert_eq!(get_amount_out(1_000, 10_000, 20_000, 300), Some(1_813));
    assert_eq!(get_amount_out_no_fee(1_000, 10_000, 20_000), Some(1_818));
    assert_eq!(get_amount_in(1_000, 10_000, 20_000, 300), Some(528));
    assert_eq!(get_special_fee_from_input(10_000, 100), Some(10));
    assert_eq!(calculate_k(3, 4), Some(12));
    assert_eq!(calculate_k(u128::MAX, 2), None);
    assert_eq!(quote(u128::MAX, 1, 2), None);
}
