use vstd::prelude::*;

verus! {

/// Fee percents of a pair are given in units of one thousandth of a percent.
pub const MAX_PERCENT: u64 = 100_000;

/// Liquidity that the first provider of a pool leaves locked forever.
pub const MINIMUM_LIQUIDITY: u128 = 1_000;

/// Whether a mathematical value can be held by an amount.
pub open spec fn fits(x: int) -> bool {
    0 <= x <= u128::MAX
}

/// Product of the two reserves of a pool.
pub open spec fn k_of(first_reserve: int, second_reserve: int) -> int {
    first_reserve * second_reserve
}

/// Computes the constant-product invariant of a pool; `None` where it exceeds an amount.
pub fn calculate_k(first_reserve: u128, second_reserve: u128) -> (k: Option<u128>)
    ensures
        k == if fits(k_of(first_reserve as int, second_reserve as int)) {
            Some(k_of(first_reserve as int, second_reserve as int) as u128)
        } else {
            None::<u128>
        },
{
    first_reserve.checked_mul(second_reserve)
}

/// The amount of the other token that is worth `amount_a` at the current reserve ratio.
pub open spec fn quote_spec(amount_a: int, reserve_a: int, reserve_b: int) -> int {
    amount_a * reserve_b / reserve_a
}

pub fn quote(amount_a: u128, reserve_a: u128, reserve_b: u128) -> (r: Option<u128>)
    requires
        reserve_a > 0,
    ensures
        r == if fits(amount_a * reserve_b) {
            Some(quote_spec(amount_a as int, reserve_a as int, reserve_b as int) as u128)
        } else {
            None::<u128>
        },
{
    match amount_a.checked_mul(reserve_b) {
        Some(p) => {
            assert(0 <= p / reserve_a <= p) by (nonlinear_arith)
                requires
                    reserve_a > 0,
                    p >= 0,
            ;
            Some(p / reserve_a)
        },
        None => None,
    }
}

/// Output of a swap of `amount_in` against the reserves, after the total fee is kept in the
/// pool: `amount_in * (1 - fee) * reserve_out / (reserve_in + amount_in * (1 - fee))`.
pub open spec fn amount_out_spec(amount_in: int, reserve_in: int, reserve_out: int, fee: int) -> int {
    let with_fee = amount_in * (MAX_PERCENT - fee);
    with_fee * reserve_out / (reserve_in * MAX_PERCENT + with_fee)
}

pub open spec fn amount_out_fits(amount_in: int, reserve_in: int, reserve_out: int, fee: int) -> bool {
    let with_fee = amount_in * (MAX_PERCENT - fee);
    &&& fits(with_fee)
    &&& fits(with_fee * reserve_out)
    &&& fits(reserve_in * MAX_PERCENT + with_fee)
}

pub fn get_amount_out(amount_in: u128, reserve_in: u128, reserve_out: u128, total_fee_percent: u64) -> (r:
    Option<u128>)
    requires
        amount_in > 0,
        total_fee_percent < MAX_PERCENT,
    ensures
        r == if amount_out_fits(amount_in as int, reserve_in as int, reserve_out as int, total_fee_percent as int) {
            Some(amount_out_spec(amount_in as int, reserve_in as int, reserve_out as int, total_fee_percent as int) as u128)
        } else {
            None::<u128>
        },
{
    let fee_factor = (MAX_PERCENT - total_fee_percent) as u128;
    let with_fee = match amount_in.checked_mul(fee_factor) {
        Some(v) => v,
        None => return None,
    };
    let numerator = match with_fee.checked_mul(reserve_out) {
        Some(v) => v,
        None => return None,
    };
    let scaled_reserve = match reserve_in.checked_mul(MAX_PERCENT as u128) {
        Some(v) => v,
        None => {
            assert(reserve_in * MAX_PERCENT + with_fee > u128::MAX);
            return None;
        },
    };
    let denominator = match scaled_reserve.checked_add(with_fee) {
        Some(v) => v,
        None => return None,
    };
    assert(with_fee >= 1) by (nonlinear_arith)
        requires
            with_fee == amount_in * fee_factor,
            amount_in >= 1,
            fee_factor >= 1,
    ;
    assert(0 <= numerator / denominator <= numerator) by (nonlinear_arith)
        requires
            denominator >= 1,
            numerator >= 0,
    ;
    Some(numerator / denominator)
}

/// Output of a swap that pays no fee: `amount_in * reserve_out / (reserve_in + amount_in)`.
pub open spec fn amount_out_no_fee_spec(amount_in: int, reserve_in: int, reserve_out: int) -> int {
    amount_in * reserve_out / (reserve_in + amount_in)
}

pub fn get_amount_out_no_fee(amount_in: u128, reserve_in: u128, reserve_out: u128) -> (r: Option<u128>)
    requires
        amount_in > 0,
    ensures
        r == if fits(amount_in * reserve_out) && fits(reserve_in + amount_in) {
            Some(amount_out_no_fee_spec(amount_in as int, reserve_in as int, reserve_out as int) as u128)
        } else {
            None::<u128>
        },
{
    let numerator = match amount_in.checked_mul(reserve_out) {
        Some(v) => v,
        None => return None,
    };
    let denominator = match reserve_in.checked_add(amount_in) {
        Some(v) => v,
        None => return None,
    };
    assert(0 <= numerator / denominator <= numerator) by (nonlinear_arith)
        requires
            denominator >= 1,
            numerator >= 0,
    ;
    Some(numerator / denominator)
}

/// Input that buys `amount_out` against the reserves, the total fee included, rounded up:
/// `reserve_in * amount_out / ((reserve_out - amount_out) * (1 - fee)) + 1`.
pub open spec fn amount_in_spec(amount_out: int, reserve_in: int, reserve_out: int, fee: int) -> int {
    let numerator = reserve_in * amount_out * MAX_PERCENT;
    let denominator = (reserve_out - amount_out) * (MAX_PERCENT - fee);
    numerator / denominator + 1
}

pub open spec fn amount_in_fits(amount_out: int, reserve_in: int, reserve_out: int, fee: int) -> bool {
    &&& fits(reserve_in * amount_out)
    &&& fits(reserve_in * amount_out * MAX_PERCENT)
    &&& fits((reserve_out - amount_out) * (MAX_PERCENT - fee))
    &&& fits(amount_in_spec(amount_out, reserve_in, reserve_out, fee))
}

pub fn get_amount_in(amount_out: u128, reserve_in: u128, reserve_out: u128, total_fee_percent: u64) -> (r:
    Option<u128>)
    requires
        reserve_out > amount_out,
        total_fee_percent < MAX_PERCENT,
    ensures
        r == if amount_in_fits(amount_out as int, reserve_in as int, reserve_out as int, total_fee_percent as int) {
            Some(amount_in_spec(amount_out as int, reserve_in as int, reserve_out as int, total_fee_percent as int) as u128)
        } else {
            None::<u128>
        },
{
    let fee_factor = (MAX_PERCENT - total_fee_percent) as u128;
    let product = match reserve_in.checked_mul(amount_out) {
        Some(v) => v,
        None => return None,
    };
    let numerator = match product.checked_mul(MAX_PERCENT as u128) {
        Some(v) => v,
        None => return None,
    };
    let denominator = match (reserve_out - amount_out).checked_mul(fee_factor) {
        Some(v) => v,
        None => return None,
    };
    assert(denominator >= 1) by (nonlinear_arith)
        requires
            denominator == (reserve_out - amount_out) * fee_factor,
            reserve_out - amount_out >= 1,
            fee_factor >= 1,
    ;
    assert(0 <= numerator / denominator <= numerator) by (nonlinear_arith)
        requires
            denominator >= 1,
            numerator >= 0,
    ;
    let quotient = numerator / denominator;
    match quotient.checked_add(1) {
        Some(v) => Some(v),
        None => None,
    }
}

/// The part of an input amount taken as the special fee: `amount * special_fee_percent / 100000`.
pub open spec fn special_fee_spec(amount: int, special_fee_percent: int) -> int {
    amount * special_fee_percent / (MAX_PERCENT as int)
}

pub fn get_special_fee_from_input(amount: u128, special_fee_percent: u64) -> (r: Option<u128>)
    requires
        special_fee_percent <= MAX_PERCENT,
    ensures
        r == if fits(amount * special_fee_percent) {
            Some(special_fee_spec(amount as int, special_fee_percent as int) as u128)
        } else {
            None::<u128>
        },
        r matches Some(fee) ==> fee <= amount,
{
    match amount.checked_mul(special_fee_percent as u128) {
        Some(p) => {
            assert(0 <= (p as int) / (MAX_PERCENT as int) <= amount) by (nonlinear_arith)
                requires
                    p == amount * special_fee_percent,
                    special_fee_percent <= MAX_PERCENT,
                    amount >= 0,
            ;
            Some(p / (MAX_PERCENT as u128))
        },
        None => None,
    }
}

/// Whether a pair may use these fee percents: the special fee is a part of the total fee,
/// and the total fee is less than the whole input.
pub open spec fn valid_fee_percents(total_fee_percent: u64, special_fee_percent: u64) -> bool {
    special_fee_percent <= total_fee_percent < MAX_PERCENT
}

} // verus!
