use vstd::prelude::*;

use crate::amm::{
    amount_in_fits, amount_in_spec, amount_out_fits, amount_out_no_fee_spec, amount_out_spec,
    calculate_k, fits, get_amount_in, get_amount_out, get_amount_out_no_fee,
    get_special_fee_from_input, k_of, quote, quote_spec, special_fee_spec, valid_fee_percents,
    MAX_PERCENT, MINIMUM_LIQUIDITY,
};
use crate::fee::{
    send_fee_or_burn_on_zero_address, slices_spec, slice_view, transfer_action, trusted_address, FeeAction, FeeError, FeeModule,
    FeeSlice,
};
use crate::common::zero_address;
use crate::common::{opt_id, valid_esdt_identifier, Address, FftTokenAmountPair, State, TokenIdentifier};

verus! {

/// Why a pair refused an operation.
#[derive(Clone, Copy, Debug, PartialEq, Eq, Structural)]
pub enum PairError {
    InvalidFirstTokenId,
    InvalidSecondTokenId,
    SameExchangeTokens,
    InvalidFeePercents,
    PermissionDenied,
    LpTokenAlreadySet,
    LpTokenSameAsExchangeToken,
    InvalidLpTokenId,
    NotActive,
    LpTokenNotIssued,
    BadPaymentsLen,
    BadFirstTokenId,
    BadSecondTokenId,
    InsufficientFirstTokenFunds,
    InsufficientSecondTokenFunds,
    FirstAmountBelowMinimum,
    SecondAmountBelowMinimum,
    InsufficientSecondTokenComputedAmount,
    OptimalAmountGreaterThanDesired,
    InsufficientFirstTokenComputedAmount,
    MinimumLiquidityNotReached,
    InsufficientLiquidityMinted,
    KInvariantFailed,
    WrongLiquidityToken,
    NotEnoughLpTokenSupply,
    FirstTokenSlippage,
    SecondTokenSlippage,
    SwapNotEnabled,
    ZeroInput,
    SameToken,
    InvalidTokenIn,
    InvalidTokenOut,
    InsufficientReserveForTokenOut,
    AmountOutBelowMinimum,
    InsufficientAmountOutReserve,
    ZeroOptimalOutput,
    ZeroDesiredOutput,
    AmountInAboveMaximum,
    NotWhitelisted,
    ZeroOutput,
    ZeroReserves,
    NotEnoughReserves,
    UnknownToken,
    ArithmeticOverflow,
}

/// A constant-product pool of two tokens, with the LP token that stands for shares of it.
pub struct Pair {
    pub first_token_id: TokenIdentifier,
    pub second_token_id: TokenIdentifier,
    pub lp_token_id: Option<TokenIdentifier>,
    pub router_address: Address,
    pub router_owner_address: Address,
    pub first_token_reserve: u128,
    pub second_token_reserve: u128,
    pub lp_token_supply: u128,
    pub state: State,
    pub total_fee_percent: u64,
    pub special_fee_percent: u64,
    pub fee: FeeModule,
}

pub open spec fn min_int(a: int, b: int) -> int {
    if a <= b {
        a
    } else {
        b
    }
}

/// The first check that `init` fails on these arguments, if any.
pub open spec fn init_error(
    first_token_id: Seq<u8>,
    second_token_id: Seq<u8>,
    total_fee_percent: u64,
    special_fee_percent: u64,
) -> Option<PairError> {
    if !valid_esdt_identifier(first_token_id) {
        Some(PairError::InvalidFirstTokenId)
    } else if !valid_esdt_identifier(second_token_id) {
        Some(PairError::InvalidSecondTokenId)
    } else if first_token_id == second_token_id {
        Some(PairError::SameExchangeTokens)
    } else if !valid_fee_percents(total_fee_percent, special_fee_percent) {
        Some(PairError::InvalidFeePercents)
    } else {
        None
    }
}

/// The amounts of the two tokens that a deposit adds to the pool: the desired amounts for an
/// empty pool, else the largest amounts at the current reserve ratio within the desired ones.
pub open spec fn optimal_amounts_spec(
    first_reserve: int,
    second_reserve: int,
    first_desired: int,
    second_desired: int,
    first_min: int,
    second_min: int,
) -> Result<(int, int), PairError> {
    if first_reserve == 0 && second_reserve == 0 {
        Ok((first_desired, second_desired))
    } else if !fits(first_desired * second_reserve) {
        Err(PairError::ArithmeticOverflow)
    } else if quote_spec(first_desired, first_reserve, second_reserve) <= second_desired {
        if quote_spec(first_desired, first_reserve, second_reserve) >= second_min {
            Ok((first_desired, quote_spec(first_desired, first_reserve, second_reserve)))
        } else {
            Err(PairError::InsufficientSecondTokenComputedAmount)
        }
    } else if !fits(second_desired * first_reserve) {
        Err(PairError::ArithmeticOverflow)
    } else if quote_spec(second_desired, second_reserve, first_reserve) > first_desired {
        Err(PairError::OptimalAmountGreaterThanDesired)
    } else if quote_spec(second_desired, second_reserve, first_reserve) < first_min {
        Err(PairError::InsufficientFirstTokenComputedAmount)
    } else {
        Ok((quote_spec(second_desired, second_reserve, first_reserve), second_desired))
    }
}

/// LP tokens minted for a deposit: for the first deposit the smaller amount less the locked
/// minimum, else the smaller of the two shares that the amounts buy.
pub open spec fn liquidity_spec(
    supply: int,
    first_reserve: int,
    second_reserve: int,
    first_amount: int,
    second_amount: int,
) -> Result<int, PairError> {
    if supply == 0 {
        if min_int(first_amount, second_amount) <= MINIMUM_LIQUIDITY {
            Err(PairError::MinimumLiquidityNotReached)
        } else {
            Ok(min_int(first_amount, second_amount) - MINIMUM_LIQUIDITY)
        }
    } else if !fits(first_amount * supply) || !fits(second_amount * supply) {
        Err(PairError::ArithmeticOverflow)
    } else if min_int(first_amount * supply / first_reserve, second_amount * supply / second_reserve) == 0 {
        Err(PairError::InsufficientLiquidityMinted)
    } else {
        Ok(min_int(first_amount * supply / first_reserve, second_amount * supply / second_reserve))
    }
}

/// LP supply after minting `liquidity`: the first deposit also mints the locked minimum.
pub open spec fn supply_after_mint(supply: int, liquidity: int) -> int {
    if supply == 0 {
        liquidity + MINIMUM_LIQUIDITY
    } else {
        supply + liquidity
    }
}

/// Share of a reserve that `liquidity` LP tokens stand for.
pub open spec fn position_spec(liquidity: int, reserve: int, supply: int) -> int {
    if supply == 0 {
        0
    } else {
        liquidity * reserve / supply
    }
}

/// The check of the constant-product invariant after an operation that must raise it
/// (`strict`) or must not lower it.
pub open spec fn k_check(old_first: int, old_second: int, new_first: int, new_second: int, strict: bool) -> Option<
    PairError,
> {
    if !fits(k_of(old_first, old_second)) || !fits(k_of(new_first, new_second)) {
        Some(PairError::ArithmeticOverflow)
    } else if strict && !(k_of(old_first, old_second) < k_of(new_first, new_second)) {
        Some(PairError::KInvariantFailed)
    } else if !strict && !(k_of(old_first, old_second) <= k_of(new_first, new_second)) {
        Some(PairError::KInvariantFailed)
    } else {
        None
    }
}

/// Compares two values of the invariant.
pub fn validate_k_invariant(lower: u128, greater: u128) -> (r: Result<(), PairError>)
    ensures
        r == if lower <= greater {
            Ok(())
        } else {
            Err::<(), PairError>(PairError::KInvariantFailed)
        },
{
    if lower <= greater {
        Ok(())
    } else {
        Err(PairError::KInvariantFailed)
    }
}

/// Compares two values of the invariant, which must differ.
pub fn validate_k_invariant_strict(lower: u128, greater: u128) -> (r: Result<(), PairError>)
    ensures
        r == if lower < greater {
            Ok(())
        } else {
            Err::<(), PairError>(PairError::KInvariantFailed)
        },
{
    if lower < greater {
        Ok(())
    } else {
        Err(PairError::KInvariantFailed)
    }
}

fn check_k(old_first: u128, old_second: u128, new_first: u128, new_second: u128, strict: bool) -> (r: Result<
    (),
    PairError,
>)
    ensures
        r == match k_check(old_first as int, old_second as int, new_first as int, new_second as int, strict) {
            Some(e) => Err::<(), PairError>(e),
            None => Ok(()),
        },
{
    let old_k = match calculate_k(old_first, old_second) {
        Some(k) => k,
        None => return Err(PairError::ArithmeticOverflow),
    };
    let new_k = match calculate_k(new_first, new_second) {
        Some(k) => k,
        None => return Err(PairError::ArithmeticOverflow),
    };
    if strict {
        validate_k_invariant_strict(old_k, new_k)
    } else {
        validate_k_invariant(old_k, new_k)
    }
}

/// Output of a swap without fee that the pool can pay out, or zero.
pub fn no_fee_output(reserve_in: u128, reserve_out: u128, amount_in: u128) -> (out: u128)
    requires
        amount_in > 0,
    ensures
        out == no_fee_output_spec(reserve_in as int, reserve_out as int, amount_in as int),
        out > 0 ==> out < reserve_out && reserve_in + amount_in <= u128::MAX,
{
    if reserve_out == 0 {
        return 0;
    }
    let amount_out = match get_amount_out_no_fee(amount_in, reserve_in, reserve_out) {
        Some(v) => v,
        None => return 0,
    };
    if reserve_out <= amount_out {
        return 0;
    }
    amount_out
}

fn min_u128(a: u128, b: u128) -> (r: u128)
    ensures
        r as int == min_int(a as int, b as int),
{
    if a <= b {
        a
    } else {
        b
    }
}

pub fn calculate_optimal_amounts(
    first_reserve: u128,
    second_reserve: u128,
    first_desired: u128,
    second_desired: u128,
    first_min: u128,
    second_min: u128,
) -> (r: Result<(u128, u128), PairError>)
    requires
        (first_reserve == 0) == (second_reserve == 0),
    ensures
        match optimal_amounts_spec(
            first_reserve as int,
            second_reserve as int,
            first_desired as int,
            second_desired as int,
            first_min as int,
            second_min as int,
        ) {
            Ok((a, b)) => r matches Ok((x, y)) && x == a && y == b,
            Err(e) => r == Err::<(u128, u128), PairError>(e),
        },
{
    if first_reserve == 0 && second_reserve == 0 {
        return Ok((first_desired, second_desired));
    }
    let second_optimal = match quote(first_desired, first_reserve, second_reserve) {
        Some(q) => q,
        None => return Err(PairError::ArithmeticOverflow),
    };
    if second_optimal <= second_desired {
        if second_optimal >= second_min {
            Ok((first_desired, second_optimal))
        } else {
            Err(PairError::InsufficientSecondTokenComputedAmount)
        }
    } else {
        let first_optimal = match quote(second_desired, second_reserve, first_reserve) {
            Some(q) => q,
            None => {
                assert(!fits(second_desired * first_reserve));
                return Err(PairError::ArithmeticOverflow);
            },
        };
        if first_optimal > first_desired {
            Err(PairError::OptimalAmountGreaterThanDesired)
        } else if first_optimal < first_min {
            Err(PairError::InsufficientFirstTokenComputedAmount)
        } else {
            Ok((first_optimal, second_desired))
        }
    }
}

pub fn calculate_liquidity(
    supply: u128,
    first_reserve: u128,
    second_reserve: u128,
    first_amount: u128,
    second_amount: u128,
) -> (r: Result<u128, PairError>)
    requires
        supply > 0 ==> first_reserve > 0 && second_reserve > 0,
    ensures
        match liquidity_spec(
            supply as int,
            first_reserve as int,
            second_reserve as int,
            first_amount as int,
            second_amount as int,
        ) {
            Ok(l) => r == Ok::<u128, PairError>(l as u128),
            Err(e) => r == Err::<u128, PairError>(e),
        },
{
    if supply == 0 {
        let smaller = min_u128(first_amount, second_amount);
        if smaller <= MINIMUM_LIQUIDITY {
            return Err(PairError::MinimumLiquidityNotReached);
        }
        return Ok(smaller - MINIMUM_LIQUIDITY);
    }
    let first_product = match first_amount.checked_mul(supply) {
        Some(v) => v,
        None => return Err(PairError::ArithmeticOverflow),
    };
    let second_product = match second_amount.checked_mul(supply) {
        Some(v) => v,
        None => return Err(PairError::ArithmeticOverflow),
    };
    let liquidity = min_u128(first_product / first_reserve, second_product / second_reserve);
    if liquidity == 0 {
        Err(PairError::InsufficientLiquidityMinted)
    } else {
        Ok(liquidity)
    }
}

/// What a deposit of `first_desired` and `second_desired` does to a pool whose checks passed:
/// the LP tokens minted and the amounts taken, or why it is refused.
pub open spec fn add_liquidity_spec(
    first_reserve: int,
    second_reserve: int,
    supply: int,
    first_desired: int,
    second_desired: int,
    first_min: int,
    second_min: int,
) -> Result<(int, int, int), PairError> {
    match optimal_amounts_spec(first_reserve, second_reserve, first_desired, second_desired, first_min, second_min) {
        Err(e) => Err(e),
        Ok((first_amount, second_amount)) => match liquidity_spec(
            supply,
            first_reserve,
            second_reserve,
            first_amount,
            second_amount,
        ) {
            Err(e) => Err(e),
            Ok(liquidity) => if !fits(first_reserve + first_amount) || !fits(second_reserve + second_amount)
                || !fits(supply_after_mint(supply, liquidity)) {
                Err(PairError::ArithmeticOverflow)
            } else {
                match k_check(
                    first_reserve,
                    second_reserve,
                    first_reserve + first_amount,
                    second_reserve + second_amount,
                    true,
                ) {
                    Some(e) => Err(e),
                    None => Ok((liquidity, first_amount, second_amount)),
                }
            },
        },
    }
}

/// What burning `liquidity` LP tokens takes out of a pool: a share of each reserve in
/// proportion to the LP supply, or why it is refused.
pub open spec fn remove_liquidity_spec(
    first_reserve: int,
    second_reserve: int,
    supply: int,
    liquidity: int,
    first_min: int,
    second_min: int,
) -> Result<(int, int), PairError> {
    if supply < liquidity + MINIMUM_LIQUIDITY {
        Err(PairError::NotEnoughLpTokenSupply)
    } else if !fits(liquidity * first_reserve) || !fits(liquidity * second_reserve) {
        Err(PairError::ArithmeticOverflow)
    } else if position_spec(liquidity, first_reserve, supply) < first_min {
        Err(PairError::FirstTokenSlippage)
    } else if position_spec(liquidity, second_reserve, supply) < second_min {
        Err(PairError::SecondTokenSlippage)
    } else {
        match k_check(
            first_reserve - position_spec(liquidity, first_reserve, supply),
            second_reserve - position_spec(liquidity, second_reserve, supply),
            first_reserve,
            second_reserve,
            true,
        ) {
            Some(e) => Err(e),
            None => Ok(
                (position_spec(liquidity, first_reserve, supply), position_spec(liquidity, second_reserve, supply)),
            ),
        }
    }
}

proof fn lemma_share_below_whole(part: int, whole: int, total: int)
    requires
        0 <= part < total,
        whole > 0,
    ensures
        0 <= part * whole / total < whole,
        part * whole / total <= whole,
{
    assert(part * whole < total * whole) by (nonlinear_arith)
        requires
            0 <= part < total,
            whole > 0,
    ;
    assert(0 <= part * whole / total < whole) by (nonlinear_arith)
        requires
            part * whole < total * whole,
            part * whole >= 0,
            total > 0,
    ;
}

/// What a swap of exactly `amount_in` does to a pool with these reserves: the amount paid
/// out and the special fee taken out of the input, or why it is refused.
pub open spec fn swap_fixed_input_spec(
    reserve_in: int,
    reserve_out: int,
    amount_in: int,
    amount_out_min: int,
    total_fee_percent: int,
    special_fee_percent: int,
    fee_enabled: bool,
    fee_percent_total: int,
) -> Result<(int, int), PairError> {
    if reserve_out <= amount_out_min {
        Err(PairError::InsufficientReserveForTokenOut)
    } else if !amount_out_fits(amount_in, reserve_in, reserve_out, total_fee_percent) {
        Err(PairError::ArithmeticOverflow)
    } else if amount_out_spec(amount_in, reserve_in, reserve_out, total_fee_percent) < amount_out_min {
        Err(PairError::AmountOutBelowMinimum)
    } else if reserve_out <= amount_out_spec(amount_in, reserve_in, reserve_out, total_fee_percent) {
        Err(PairError::InsufficientAmountOutReserve)
    } else if amount_out_spec(amount_in, reserve_in, reserve_out, total_fee_percent) == 0 {
        Err(PairError::ZeroOptimalOutput)
    } else {
        swap_settle_spec(
            reserve_in,
            reserve_out,
            amount_in,
            amount_out_spec(amount_in, reserve_in, reserve_out, total_fee_percent),
            special_fee_percent,
            fee_enabled,
            fee_percent_total,
        )
    }
}

/// The special fee on `amount_in` and the check of the invariant once `amount_in` less the
/// fee has entered the pool and `amount_out` has left it. With the fee on, the fee is then
/// split among destinations whose percents add up to `fee_percent_total`, and its slices
/// may go back into the reserve: both must fit in amounts.
pub open spec fn swap_settle_spec(
    reserve_in: int,
    reserve_out: int,
    amount_in: int,
    amount_out: int,
    special_fee_percent: int,
    fee_enabled: bool,
    fee_percent_total: int,
) -> Result<(int, int), PairError> {
    if fee_enabled && !fits(amount_in * special_fee_percent) {
        Err(PairError::ArithmeticOverflow)
    } else {
        let fee = if fee_enabled {
            special_fee_spec(amount_in, special_fee_percent)
        } else {
            0
        };
        if !fits(reserve_in + amount_in - fee) {
            Err(PairError::ArithmeticOverflow)
        } else if fee_enabled && (!fits(reserve_in + amount_in) || !fits(fee * fee_percent_total)) {
            Err(PairError::ArithmeticOverflow)
        } else {
            match k_check(reserve_in, reserve_out, reserve_in + amount_in - fee, reserve_out - amount_out, false) {
                Some(e) => Err(e),
                None => Ok((amount_out, fee)),
            }
        }
    }
}

/// What buying exactly `amount_out` does to a pool with these reserves: the amount taken
/// from the input and the special fee, or why it is refused.
pub open spec fn swap_fixed_output_spec(
    reserve_in: int,
    reserve_out: int,
    amount_out: int,
    amount_in_max: int,
    total_fee_percent: int,
    special_fee_percent: int,
    fee_enabled: bool,
    fee_percent_total: int,
) -> Result<(int, int), PairError> {
    if reserve_out <= amount_out {
        Err(PairError::InsufficientReserveForTokenOut)
    } else if !amount_in_fits(amount_out, reserve_in, reserve_out, total_fee_percent) {
        Err(PairError::ArithmeticOverflow)
    } else if amount_in_spec(amount_out, reserve_in, reserve_out, total_fee_percent) > amount_in_max {
        Err(PairError::AmountInAboveMaximum)
    } else {
        match swap_settle_spec(
            reserve_in,
            reserve_out,
            amount_in_spec(amount_out, reserve_in, reserve_out, total_fee_percent),
            amount_out,
            special_fee_percent,
            fee_enabled,
            fee_percent_total,
        ) {
            Err(e) => Err(e),
            Ok((_, fee)) => Ok((amount_in_spec(amount_out, reserve_in, reserve_out, total_fee_percent), fee)),
        }
    }
}

/// Output of a swap without fee, or zero where the pool cannot pay it out: an empty
/// reserve, an output that would drain the reserve, rounds to zero, or exceeds an amount.
pub open spec fn no_fee_output_spec(reserve_in: int, reserve_out: int, amount_in: int) -> int {
    if reserve_out == 0 || !fits(amount_in * reserve_out) || !fits(reserve_in + amount_in) {
        0
    } else if reserve_out <= amount_out_no_fee_spec(amount_in, reserve_in, reserve_out) {
        0
    } else {
        amount_out_no_fee_spec(amount_in, reserve_in, reserve_out)
    }
}

impl Pair {
    /// The pool's reserves and LP supply agree: all are zero, or none is.
    pub open spec fn wf(&self) -> bool {
        &&& valid_fee_percents(self.total_fee_percent, self.special_fee_percent)
        &&& self.first_token_id@ != self.second_token_id@
        &&& (self.first_token_reserve == 0) == (self.second_token_reserve == 0)
        &&& (self.first_token_reserve == 0) == (self.lp_token_supply == 0)
        &&& self.fee.wf()
    }

    pub open spec fn is_active_spec(&self) -> bool {
        self.state == State::Active || self.state == State::ActiveNoSwaps
    }

    pub open spec fn can_swap_spec(&self) -> bool {
        self.state == State::Active
    }

    /// The same pool, with other reserves and LP supply.
    pub open spec fn with_pool(&self, other: &Pair, first: int, second: int, supply: int) -> bool {
        &&& other.first_token_id@ == self.first_token_id@
        &&& other.second_token_id@ == self.second_token_id@
        &&& opt_id(other.lp_token_id) == opt_id(self.lp_token_id)
        &&& other.router_address@ == self.router_address@
        &&& other.router_owner_address@ == self.router_owner_address@
        &&& other.state == self.state
        &&& other.total_fee_percent == self.total_fee_percent
        &&& other.special_fee_percent == self.special_fee_percent
        &&& other.first_token_reserve == first
        &&& other.second_token_reserve == second
        &&& other.lp_token_supply == supply
        &&& other.fee.dests() == self.fee.dests()
        &&& other.fee.trusted() == self.fee.trusted()
        &&& other.fee.whitelisted() == self.fee.whitelisted()
    }

    /// Deploys a pair of two distinct valid tokens, with its fees; it starts without an LP
    /// token, with empty reserves, and open to deposits but not to swaps.
    pub fn init(
        first_token_id: TokenIdentifier,
        second_token_id: TokenIdentifier,
        router_address: Address,
        router_owner_address: Address,
        total_fee_percent: u64,
        special_fee_percent: u64,
    ) -> (r: Result<Pair, PairError>)
        ensures
            match init_error(first_token_id@, second_token_id@, total_fee_percent, special_fee_percent) {
                Some(e) => r matches Err(x) && x == e,
                None => r matches Ok(p) && {
                    &&& p.wf()
                    &&& p.first_token_id@ == first_token_id@
                    &&& p.second_token_id@ == second_token_id@
                    &&& p.lp_token_id is None
                    &&& p.router_address@ == router_address@
                    &&& p.router_owner_address@ == router_owner_address@
                    &&& p.first_token_reserve == 0
                    &&& p.second_token_reserve == 0
                    &&& p.lp_token_supply == 0
                    &&& p.state == State::ActiveNoSwaps
                    &&& p.total_fee_percent == total_fee_percent
                    &&& p.special_fee_percent == special_fee_percent
                    &&& p.fee.dests().len() == 0
                    &&& p.fee.trusted().len() == 0
                    &&& p.fee.whitelisted().len() == 0
                },
            },
    {
        if !first_token_id.is_valid_esdt_identifier() {
            return Err(PairError::InvalidFirstTokenId);
        }
        if !second_token_id.is_valid_esdt_identifier() {
            return Err(PairError::InvalidSecondTokenId);
        }
        if first_token_id.same_as(&second_token_id) {
            return Err(PairError::SameExchangeTokens);
        }
        if !(special_fee_percent <= total_fee_percent && total_fee_percent < MAX_PERCENT) {
            return Err(PairError::InvalidFeePercents);
        }
        Ok(Pair {
            first_token_id,
            second_token_id,
            lp_token_id: None,
            router_address,
            router_owner_address,
            first_token_reserve: 0,
            second_token_reserve: 0,
            lp_token_supply: 0,
            state: State::ActiveNoSwaps,
            total_fee_percent,
            special_fee_percent,
            fee: FeeModule::new(),
        })
    }

    pub fn is_active(&self) -> (r: bool)
        ensures
            r == self.is_active_spec(),
    {
        self.state == State::Active || self.state == State::ActiveNoSwaps
    }

    pub fn can_swap(&self) -> (r: bool)
        ensures
            r == self.can_swap_spec(),
    {
        self.state == State::Active
    }

    /// Only the router and its owner may configure the pair.
    pub fn require_permissions(&self, caller: &Address) -> (r: Result<(), PairError>)
        ensures
            r is Ok <==> (caller@ == self.router_address@ || caller@ == self.router_owner_address@),
            r is Err ==> r == Err::<(), PairError>(PairError::PermissionDenied),
    {
        if caller.same_as(&self.router_address) || caller.same_as(&self.router_owner_address) {
            Ok(())
        } else {
            Err(PairError::PermissionDenied)
        }
    }

    /// Reserves of the two tokens and the LP supply.
    pub fn get_reserves_and_total_supply(&self) -> (r: (u128, u128, u128))
        ensures
            r == (self.first_token_reserve, self.second_token_reserve, self.lp_token_supply),
    {
        (self.first_token_reserve, self.second_token_reserve, self.lp_token_supply)
    }

    /// The first check on a deposit that fails, before any amount is computed.
    pub open spec fn add_liquidity_error(&self, payments: Seq<FftTokenAmountPair>, first_min: int, second_min: int) -> Option<
        PairError,
    > {
        if !self.is_active_spec() {
            Some(PairError::NotActive)
        } else if self.lp_token_id is None {
            Some(PairError::LpTokenNotIssued)
        } else if payments.len() != 2 {
            Some(PairError::BadPaymentsLen)
        } else if payments[0].token_id@ != self.first_token_id@ {
            Some(PairError::BadFirstTokenId)
        } else if payments[0].amount == 0 {
            Some(PairError::InsufficientFirstTokenFunds)
        } else if payments[0].amount < first_min {
            Some(PairError::FirstAmountBelowMinimum)
        } else if payments[1].token_id@ != self.second_token_id@ {
            Some(PairError::BadSecondTokenId)
        } else if payments[1].amount == 0 {
            Some(PairError::InsufficientSecondTokenFunds)
        } else if payments[1].amount < second_min {
            Some(PairError::SecondAmountBelowMinimum)
        } else {
            None
        }
    }

    /// Deposits the two tokens of the pool, paid in this order. Takes the largest amounts at
    /// the current ratio within those paid and mints LP tokens for them. Returns the LP tokens
    /// and the amounts taken; the rest of each payment goes back to the caller. On an error
    /// the pool is left as it was.
    pub fn add_liquidity(
        &mut self,
        payments: &Vec<FftTokenAmountPair>,
        first_token_amount_min: u128,
        second_token_amount_min: u128,
    ) -> (r: Result<(FftTokenAmountPair, FftTokenAmountPair, FftTokenAmountPair), PairError>)
        requires
            old(self).wf(),
        ensures
            final(self).wf(),
            match old(self).add_liquidity_error(payments@, first_token_amount_min as int, second_token_amount_min as int) {
                Some(e) => r matches Err(x) && x == e && old(self).with_pool(
                    final(self),
                    old(self).first_token_reserve as int,
                    old(self).second_token_reserve as int,
                    old(self).lp_token_supply as int,
                ),
                None => match add_liquidity_spec(
                    old(self).first_token_reserve as int,
                    old(self).second_token_reserve as int,
                    old(self).lp_token_supply as int,
                    payments@[0].amount as int,
                    payments@[1].amount as int,
                    first_token_amount_min as int,
                    second_token_amount_min as int,
                ) {
                    Err(e) => r matches Err(x) && x == e && old(self).with_pool(
                        final(self),
                        old(self).first_token_reserve as int,
                        old(self).second_token_reserve as int,
                        old(self).lp_token_supply as int,
                    ),
                    Ok((liquidity, first_amount, second_amount)) => r matches Ok((lp, first, second)) && {
                        &&& old(self).lp_token_id matches Some(id) && lp.token_id@ == id@
                        &&& lp.amount == liquidity
                        &&& first.token_id@ == old(self).first_token_id@
                        &&& first.amount == first_amount
                        &&& second.token_id@ == old(self).second_token_id@
                        &&& second.amount == second_amount
                        &&& old(self).with_pool(
                            final(self),
                            old(self).first_token_reserve + first_amount,
                            old(self).second_token_reserve + second_amount,
                            supply_after_mint(old(self).lp_token_supply as int, liquidity),
                        )
                    },
                },
            },
    {
        if !self.is_active() {
            return Err(PairError::NotActive);
        }
        let lp_token_id = match &self.lp_token_id {
            Some(id) => id.copy(),
            None => return Err(PairError::LpTokenNotIssued),
        };
        if payments.len() != 2 {
            return Err(PairError::BadPaymentsLen);
        }
        if !payments[0].token_id.same_as(&self.first_token_id) {
            return Err(PairError::BadFirstTokenId);
        }
        let first_desired = payments[0].amount;
        if first_desired == 0 {
            return Err(PairError::InsufficientFirstTokenFunds);
        }
        if first_desired < first_token_amount_min {
            return Err(PairError::FirstAmountBelowMinimum);
        }
        if !payments[1].token_id.same_as(&self.second_token_id) {
            return Err(PairError::BadSecondTokenId);
        }
        let second_desired = payments[1].amount;
        if second_desired == 0 {
            return Err(PairError::InsufficientSecondTokenFunds);
        }
        if second_desired < second_token_amount_min {
            return Err(PairError::SecondAmountBelowMinimum);
        }
        let first_reserve = self.first_token_reserve;
        let second_reserve = self.second_token_reserve;
        let supply = self.lp_token_supply;
        let (first_amount, second_amount) = calculate_optimal_amounts(
            first_reserve,
            second_reserve,
            first_desired,
            second_desired,
            first_token_amount_min,
            second_token_amount_min,
        )?;
        let liquidity = calculate_liquidity(supply, first_reserve, second_reserve, first_amount, second_amount)?;
        let new_first = match first_reserve.checked_add(first_amount) {
            Some(v) => v,
            None => return Err(PairError::ArithmeticOverflow),
        };
        let new_second = match second_reserve.checked_add(second_amount) {
            Some(v) => v,
            None => return Err(PairError::ArithmeticOverflow),
        };
        let minted = if supply == 0 {
            liquidity.checked_add(MINIMUM_LIQUIDITY)
        } else {
            supply.checked_add(liquidity)
        };
        let new_supply = match minted {
            Some(v) => v,
            None => return Err(PairError::ArithmeticOverflow),
        };
        check_k(first_reserve, second_reserve, new_first, new_second, true)?;
        self.first_token_reserve = new_first;
        self.second_token_reserve = new_second;
        self.lp_token_supply = new_supply;
        Ok((
            FftTokenAmountPair::new(&lp_token_id, liquidity),
            FftTokenAmountPair::new(&self.first_token_id, first_amount),
            FftTokenAmountPair::new(&self.second_token_id, second_amount),
        ))
    }

    /// Amounts of the two tokens that `liquidity` LP tokens stand for; `None` where a
    /// product exceeds an amount.
    pub fn get_tokens_for_given_position(&self, liquidity: u128) -> (r: Option<(FftTokenAmountPair, FftTokenAmountPair)>)
        ensures
            r is Some <==> fits(liquidity * self.first_token_reserve) && fits(liquidity * self.second_token_reserve),
            r matches Some((first, second)) ==> {
                &&& first.token_id@ == self.first_token_id@
                &&& first.amount == position_spec(liquidity as int, self.first_token_reserve as int, self.lp_token_supply as int)
                &&& second.token_id@ == self.second_token_id@
                &&& second.amount == position_spec(liquidity as int, self.second_token_reserve as int, self.lp_token_supply as int)
            },
    {
        let first_product = match liquidity.checked_mul(self.first_token_reserve) {
            Some(v) => v,
            None => return None,
        };
        let second_product = match liquidity.checked_mul(self.second_token_reserve) {
            Some(v) => v,
            None => return None,
        };
        let supply = self.lp_token_supply;
        if supply == 0 {
            return Some((FftTokenAmountPair::new(&self.first_token_id, 0), FftTokenAmountPair::new(&self.second_token_id, 0)));
        }
        assert(0 <= first_product / supply <= first_product) by (nonlinear_arith)
            requires supply >= 1, first_product >= 0;
        assert(0 <= second_product / supply <= second_product) by (nonlinear_arith)
            requires supply >= 1, second_product >= 0;
        Some((
            FftTokenAmountPair::new(&self.first_token_id, first_product / supply),
            FftTokenAmountPair::new(&self.second_token_id, second_product / supply),
        ))
    }

    /// Burns `liquidity` LP tokens, paid as `token_id`, for the share of both reserves that
    /// they stand for. The locked minimum of LP tokens always stays in the pool. On an error
    /// the pool is left as it was.
    pub fn remove_liquidity(
        &mut self,
        token_id: &TokenIdentifier,
        liquidity: u128,
        first_token_amount_min: u128,
        second_token_amount_min: u128,
    ) -> (r: Result<(FftTokenAmountPair, FftTokenAmountPair), PairError>)
        requires
            old(self).wf(),
        ensures
            final(self).wf(),
            old(self).lp_token_id is None ==> (r matches Err(x) && x == PairError::LpTokenNotIssued),
            (old(self).lp_token_id matches Some(id) && id@ != token_id@) ==> (r matches Err(x) && x == PairError::WrongLiquidityToken),
            (old(self).lp_token_id matches Some(id) && id@ == token_id@) ==> match remove_liquidity_spec(
                old(self).first_token_reserve as int,
                old(self).second_token_reserve as int,
                old(self).lp_token_supply as int,
                liquidity as int,
                first_token_amount_min as int,
                second_token_amount_min as int,
            ) {
                Err(e) => r matches Err(x) && x == e,
                Ok((first_amount, second_amount)) => r matches Ok((first, second)) && {
                    &&& first.token_id@ == old(self).first_token_id@
                    &&& first.amount == first_amount
                    &&& second.token_id@ == old(self).second_token_id@
                    &&& second.amount == second_amount
                    &&& old(self).with_pool(
                        final(self),
                        old(self).first_token_reserve - first_amount,
                        old(self).second_token_reserve - second_amount,
                        old(self).lp_token_supply - liquidity,
                    )
                },
            },
            r is Err ==> old(self).with_pool(
                final(self),
                old(self).first_token_reserve as int,
                old(self).second_token_reserve as int,
                old(self).lp_token_supply as int,
            ),
    {
        match &self.lp_token_id {
            Some(id) => {
                if !id.same_as(token_id) {
                    return Err(PairError::WrongLiquidityToken);
                }
            },
            None => return Err(PairError::LpTokenNotIssued),
        }
        let first_reserve = self.first_token_reserve;
        let second_reserve = self.second_token_reserve;
        let supply = self.lp_token_supply;
        if supply < MINIMUM_LIQUIDITY || supply - MINIMUM_LIQUIDITY < liquidity {
            return Err(PairError::NotEnoughLpTokenSupply);
        }
        let first_product = match liquidity.checked_mul(first_reserve) {
            Some(v) => v,
            None => return Err(PairError::ArithmeticOverflow),
        };
        let second_product = match liquidity.checked_mul(second_reserve) {
            Some(v) => v,
            None => return Err(PairError::ArithmeticOverflow),
        };
        proof {
            lemma_share_below_whole(liquidity as int, first_reserve as int, supply as int);
            lemma_share_below_whole(liquidity as int, second_reserve as int, supply as int);
        }
        let first_amount = first_product / supply;
        let second_amount = second_product / supply;
        if first_amount < first_token_amount_min {
            return Err(PairError::FirstTokenSlippage);
        }
        if second_amount < second_token_amount_min {
            return Err(PairError::SecondTokenSlippage);
        }
        let new_first = first_reserve - first_amount;
        let new_second = second_reserve - second_amount;
        check_k(new_first, new_second, first_reserve, second_reserve, true)?;
        self.first_token_reserve = new_first;
        self.second_token_reserve = new_second;
        self.lp_token_supply = supply - liquidity;
        Ok((FftTokenAmountPair::new(&self.first_token_id, first_amount), FftTokenAmountPair::new(&self.second_token_id, second_amount)))
    }

    pub open spec fn reserve_of(&self, token: Seq<u8>) -> int {
        if token == self.first_token_id@ {
            self.first_token_reserve as int
        } else {
            self.second_token_reserve as int
        }
    }

    pub open spec fn is_pool_token(&self, token: Seq<u8>) -> bool {
        token == self.first_token_id@ || token == self.second_token_id@
    }

    /// Whether `other` is this pool after `token_in` reserve became `new_in` and the other
    /// reserve `new_out`.
    pub open spec fn swapped(&self, other: &Pair, token_in: Seq<u8>, new_in: int, new_out: int) -> bool {
        if token_in == self.first_token_id@ {
            self.with_pool(other, new_in, new_out, self.lp_token_supply as int)
        } else {
            self.with_pool(other, new_out, new_in, self.lp_token_supply as int)
        }
    }

    /// The first check that a swap between these tokens fails.
    pub open spec fn swap_error(&self, token_in: Seq<u8>, amount_in: int, token_out: Seq<u8>) -> Option<PairError> {
        if !self.can_swap_spec() {
            Some(PairError::SwapNotEnabled)
        } else if amount_in == 0 {
            Some(PairError::ZeroInput)
        } else if token_in == token_out {
            Some(PairError::SameToken)
        } else if !self.is_pool_token(token_in) {
            Some(PairError::InvalidTokenIn)
        } else if !self.is_pool_token(token_out) {
            Some(PairError::InvalidTokenOut)
        } else {
            None
        }
    }

    fn check_swap(&self, token_in: &TokenIdentifier, amount_in: u128, token_out: &TokenIdentifier) -> (r: Result<
        (),
        PairError,
    >)
        ensures
            r == match self.swap_error(token_in@, amount_in as int, token_out@) {
                Some(e) => Err::<(), PairError>(e),
                None => Ok(()),
            },
    {
        if !self.can_swap() {
            return Err(PairError::SwapNotEnabled);
        }
        if amount_in == 0 {
            return Err(PairError::ZeroInput);
        }
        if token_in.same_as(token_out) {
            return Err(PairError::SameToken);
        }
        if !(token_in.same_as(&self.first_token_id) || token_in.same_as(&self.second_token_id)) {
            return Err(PairError::InvalidTokenIn);
        }
        if !(token_out.same_as(&self.first_token_id) || token_out.same_as(&self.second_token_id)) {
            return Err(PairError::InvalidTokenOut);
        }
        Ok(())
    }

    /// Reserves as (reserve of `token_in`, reserve of the other token).
    fn oriented_reserves(&self, token_in: &TokenIdentifier) -> (r: (u128, u128))
        requires
            self.is_pool_token(token_in@),
            self.first_token_id@ != self.second_token_id@,
        ensures
            r.0 == self.reserve_of(token_in@),
            token_in@ == self.first_token_id@ ==> r.1 == self.second_token_reserve,
            token_in@ != self.first_token_id@ ==> r.1 == self.first_token_reserve,
    {
        if token_in.same_as(&self.first_token_id) {
            (self.first_token_reserve, self.second_token_reserve)
        } else {
            (self.second_token_reserve, self.first_token_reserve)
        }
    }

    fn set_oriented_reserves(&mut self, token_in: &TokenIdentifier, new_in: u128, new_out: u128)
        requires
            old(self).is_pool_token(token_in@),
        ensures
            old(self).swapped(final(self), token_in@, new_in as int, new_out as int),
    {
        if token_in.same_as(&self.first_token_id) {
            self.first_token_reserve = new_in;
            self.second_token_reserve = new_out;
        } else {
            self.first_token_reserve = new_out;
            self.second_token_reserve = new_in;
        }
    }

    fn settle_swap(
        &self,
        reserve_in: u128,
        reserve_out: u128,
        amount_in: u128,
        amount_out: u128,
    ) -> (r: Result<(u128, u128), PairError>)
        requires
            reserve_out >= amount_out,
            self.special_fee_percent <= MAX_PERCENT,
            self.fee.wf(),
        ensures
            match swap_settle_spec(
                reserve_in as int,
                reserve_out as int,
                amount_in as int,
                amount_out as int,
                self.special_fee_percent as int,
                self.fee.dests().len() > 0,
                crate::fee::percent_sum(self.fee.dests()),
            ) {
                Ok((_, fee)) => r matches Ok((new_in, fee_amount)) && fee_amount == fee && new_in == reserve_in + amount_in - fee,
                Err(e) => r matches Err(x) && x == e,
            },
            r matches Ok((new_in, fee_amount)) ==> fee_amount <= amount_in && new_in >= reserve_in,
            r matches Ok((new_in, fee_amount)) ==> (self.fee.dests().len() == 0 ==> fee_amount == 0) && (self.fee.dests().len()
                > 0 ==> reserve_in + amount_in <= u128::MAX && fits(fee_amount * crate::fee::percent_sum(self.fee.dests()))),
    {
        let fee_amount = if self.fee.is_fee_enabled() {
            match get_special_fee_from_input(amount_in, self.special_fee_percent) {
                Some(f) => f,
                None => return Err(PairError::ArithmeticOverflow),
            }
        } else {
            0
        };
        let new_in = match reserve_in.checked_add(amount_in - fee_amount) {
            Some(v) => v,
            None => return Err(PairError::ArithmeticOverflow),
        };
        if self.fee.is_fee_enabled() {
            if reserve_in.checked_add(amount_in).is_none() {
                return Err(PairError::ArithmeticOverflow);
            }
            if fee_amount.checked_mul(self.fee.percent_total() as u128).is_none() {
                return Err(PairError::ArithmeticOverflow);
            }
        }
        check_k(reserve_in, reserve_out, new_in, reserve_out - amount_out, false)?;
        Ok((new_in, fee_amount))
    }

    /// Swaps exactly `amount_in` of `token_in` for as much `token_out` as the pool pays after
    /// its total fee, at least `amount_out_min`. The special part of the fee leaves the pool
    /// and is returned for distribution. Returns the amount paid out and that fee. On an
    /// error the pool is left as it was.
    #[verifier::spinoff_prover]
    pub fn swap_tokens_fixed_input(
        &mut self,
        token_in: &TokenIdentifier,
        amount_in: u128,
        token_out: &TokenIdentifier,
        amount_out_min: u128,
    ) -> (r: Result<(FftTokenAmountPair, u128, Vec<FeeAction>), PairError>)
        requires
            old(self).wf(),
        ensures
            final(self).wf(),
            match old(self).swap_error(token_in@, amount_in as int, token_out@) {
                Some(e) => r matches Err(x) && x == e,
                None => match swap_fixed_input_spec(
                    old(self).reserve_of(token_in@),
                    old(self).reserve_of(token_out@),
                    amount_in as int,
                    amount_out_min as int,
                    old(self).total_fee_percent as int,
                    old(self).special_fee_percent as int,
                    old(self).fee.dests().len() > 0,
                    crate::fee::percent_sum(old(self).fee.dests()),
                ) {
                    Err(e) => r matches Err(x) && x == e,
                    Ok((amount_out, fee)) => r matches Ok((out, fee_amount, actions)) && {
                        &&& out.token_id@ == token_out@
                        &&& out.amount == amount_out
                        &&& fee_amount == fee
                        &&& old(self).swap_settled(
                            final(self),
                            token_in@,
                            old(self).reserve_of(token_in@) + amount_in - fee,
                            old(self).reserve_of(token_out@) - amount_out,
                            fee,
                            actions@,
                        )
                    },
                },
            },
            r is Err ==> old(self).with_pool(
                final(self),
                old(self).first_token_reserve as int,
                old(self).second_token_reserve as int,
                old(self).lp_token_supply as int,
            ),
    {
        self.check_swap(token_in, amount_in, token_out)?;
        let (reserve_in, reserve_out) = self.oriented_reserves(token_in);
        assert(reserve_out == self.reserve_of(token_out@));
        if reserve_out <= amount_out_min {
            return Err(PairError::InsufficientReserveForTokenOut);
        }
        let amount_out = match get_amount_out(amount_in, reserve_in, reserve_out, self.total_fee_percent) {
            Some(v) => v,
            None => return Err(PairError::ArithmeticOverflow),
        };
        if amount_out < amount_out_min {
            return Err(PairError::AmountOutBelowMinimum);
        }
        if reserve_out <= amount_out {
            return Err(PairError::InsufficientAmountOutReserve);
        }
        if amount_out == 0 {
            return Err(PairError::ZeroOptimalOutput);
        }
        let (new_in, fee_amount) = self.settle_swap(reserve_in, reserve_out, amount_in, amount_out)?;
        assert(reserve_in > 0);
        self.set_oriented_reserves(token_in, new_in, reserve_out - amount_out);
        let ghost swapped = *self;
        proof {
            crate::fee::lemma_percent_sum_positive(self.fee.dests());
            let total = crate::fee::percent_sum(self.fee.dests());
            assert forall|i: int| 0 <= i < self.fee.dests().len() implies fits(
                fee_amount * #[trigger] self.fee.dests()[i].2,
            ) by {
                if self.fee.dests().len() > 0 {
                    let p = self.fee.dests()[i].2 as int;
                    assert(fee_amount * p <= fee_amount * total) by (nonlinear_arith)
                        requires
                            p <= total,
                            fee_amount >= 0,
                            p >= 0,
                    ;
                }
            }
        }
        let actions = match self.send_fee(token_in, fee_amount) {
            Ok(v) => v,
            Err(e) => {
                assert(false);
                return Err(e);
            },
        };
        assert(swapped.fee_sent(
            self,
            actions@,
            token_in@,
            slices_spec(swapped.fee.dests(), fee_amount as int, crate::fee::percent_sum(swapped.fee.dests())),
        ));
        assert(swapped.fee.dests() == old(self).fee.dests());
        assert(old(self).swapped(
            &swapped,
            token_in@,
            old(self).reserve_of(token_in@) + amount_in - fee_amount,
            old(self).reserve_of(token_out@) - amount_out,
        ));
        assert(old(self).swap_settled(
            self,
            token_in@,
            old(self).reserve_of(token_in@) + amount_in - fee_amount,
            old(self).reserve_of(token_out@) - amount_out,
            fee_amount as int,
            actions@,
        ));
        Ok((FftTokenAmountPair::new(token_out, amount_out), fee_amount, actions))
    }

    /// Buys exactly `amount_out` of `token_out` for the least `token_in` the pool asks after
    /// its total fee, at most `amount_in_max`. Returns the amount taken, the part of
    /// `amount_in_max` left over and the special fee, which leaves the pool. On an error the
    /// pool is left as it was.
    #[verifier::spinoff_prover]
    pub fn swap_tokens_fixed_output(
        &mut self,
        token_in: &TokenIdentifier,
        amount_in_max: u128,
        token_out: &TokenIdentifier,
        amount_out: u128,
    ) -> (r: Result<(FftTokenAmountPair, FftTokenAmountPair, u128, Vec<FeeAction>), PairError>)
        requires
            old(self).wf(),
        ensures
            final(self).wf(),
            old(self).swap_error(token_in@, amount_in_max as int, token_out@) matches Some(e) ==> (r matches Err(x) && x == e),
            old(self).swap_error(token_in@, amount_in_max as int, token_out@) is None && amount_out == 0 ==> (r matches Err(x)
                && x == PairError::ZeroDesiredOutput),
            old(self).swap_error(token_in@, amount_in_max as int, token_out@) is None && amount_out != 0 ==> match swap_fixed_output_spec(
                old(self).reserve_of(token_in@),
                old(self).reserve_of(token_out@),
                amount_out as int,
                amount_in_max as int,
                old(self).total_fee_percent as int,
                old(self).special_fee_percent as int,
                old(self).fee.dests().len() > 0,
                crate::fee::percent_sum(old(self).fee.dests()),
            ) {
                Err(e) => r matches Err(x) && x == e,
                Ok((amount_in, fee)) => r matches Ok((used, residuum, fee_amount, actions)) && {
                    &&& used.token_id@ == token_in@
                    &&& used.amount == amount_in
                    &&& residuum.token_id@ == token_in@
                    &&& residuum.amount == amount_in_max - amount_in
                    &&& fee_amount == fee
                    &&& old(self).swap_settled(
                        final(self),
                        token_in@,
                        old(self).reserve_of(token_in@) + amount_in - fee,
                        old(self).reserve_of(token_out@) - amount_out,
                        fee,
                        actions@,
                    )
                },
            },
            r is Err ==> old(self).with_pool(
                final(self),
                old(self).first_token_reserve as int,
                old(self).second_token_reserve as int,
                old(self).lp_token_supply as int,
            ),
    {
        self.check_swap(token_in, amount_in_max, token_out)?;
        if amount_out == 0 {
            return Err(PairError::ZeroDesiredOutput);
        }
        let (reserve_in, reserve_out) = self.oriented_reserves(token_in);
        assert(reserve_out == self.reserve_of(token_out@));
        if reserve_out <= amount_out {
            return Err(PairError::InsufficientReserveForTokenOut);
        }
        let amount_in = match get_amount_in(amount_out, reserve_in, reserve_out, self.total_fee_percent) {
            Some(v) => v,
            None => return Err(PairError::ArithmeticOverflow),
        };
        if amount_in > amount_in_max {
            return Err(PairError::AmountInAboveMaximum);
        }
        let (new_in, fee_amount) = self.settle_swap(reserve_in, reserve_out, amount_in, amount_out)?;
        assert(reserve_in > 0);
        self.set_oriented_reserves(token_in, new_in, reserve_out - amount_out);
        let ghost swapped = *self;
        proof {
            crate::fee::lemma_percent_sum_positive(self.fee.dests());
            let total = crate::fee::percent_sum(self.fee.dests());
            assert forall|i: int| 0 <= i < self.fee.dests().len() implies fits(
                fee_amount * #[trigger] self.fee.dests()[i].2,
            ) by {
                if self.fee.dests().len() > 0 {
                    let p = self.fee.dests()[i].2 as int;
                    assert(fee_amount * p <= fee_amount * total) by (nonlinear_arith)
                        requires
                            p <= total,
                            fee_amount >= 0,
                            p >= 0,
                    ;
                }
            }
        }
        let actions = match self.send_fee(token_in, fee_amount) {
            Ok(v) => v,
            Err(e) => {
                assert(false);
                return Err(e);
            },
        };
        assert(swapped.fee_sent(
            self,
            actions@,
            token_in@,
            slices_spec(swapped.fee.dests(), fee_amount as int, crate::fee::percent_sum(swapped.fee.dests())),
        ));
        assert(swapped.fee.dests() == old(self).fee.dests());
        assert(old(self).swapped(
            &swapped,
            token_in@,
            old(self).reserve_of(token_in@) + amount_in - fee_amount,
            old(self).reserve_of(token_out@) - amount_out,
        ));
        assert(old(self).swap_settled(
            self,
            token_in@,
            old(self).reserve_of(token_in@) + amount_in - fee_amount,
            old(self).reserve_of(token_out@) - amount_out,
            fee_amount as int,
            actions@,
        ));
        Ok((
            FftTokenAmountPair::new(token_in, amount_in),
            FftTokenAmountPair::new(token_in, amount_in_max - amount_in),
            fee_amount,
            actions,
        ))
    }

    /// Whether `after` is this pool once a swap left `new_in` and `new_out` in the reserves
    /// and the special fee `fee` was split among the destinations and resolved, giving
    /// `actions`.
    pub open spec fn swap_settled(
        &self,
        after: &Pair,
        token_in: Seq<u8>,
        new_in: int,
        new_out: int,
        fee: int,
        actions: Seq<FeeAction>,
    ) -> bool {
        exists|swapped: Pair|
            {
                &&& #[trigger] self.swapped(&swapped, token_in, new_in, new_out)
                &&& swapped.fee_sent(
                    after,
                    actions,
                    token_in,
                    slices_spec(self.fee.dests(), fee, crate::fee::percent_sum(self.fee.dests())),
                )
            }
    }

    /// Whether `after` is this pool once each of `slices` was resolved in turn, giving
    /// `actions`.
    pub open spec fn fee_sent(
        &self,
        after: &Pair,
        actions: Seq<FeeAction>,
        fee_token: Seq<u8>,
        slices: Seq<(Seq<u8>, Seq<u8>, int)>,
    ) -> bool {
        exists|states: Seq<Pair>|
            {
                &&& #[trigger] states.len() == actions.len() + 1
                &&& actions.len() == slices.len()
                &&& states[0] == *self
                &&& states[actions.len() as int] == *after
                &&& forall|j: int|
                    0 <= j < actions.len() ==> #[trigger] states[j].fee_slice_resolved(
                        &states[j + 1],
                        actions[j],
                        fee_token,
                        slices[j].2,
                        slices[j].0,
                        slices[j].1,
                    )
            }
    }

    /// What resolving a fee slice did to the pool, and the action it returned.
    pub open spec fn fee_slice_resolved(
        &self,
        after: &Pair,
        action: FeeAction,
        fee_token: Seq<u8>,
        fee_slice: int,
        fee_address: Seq<u8>,
        requested: Seq<u8>,
    ) -> bool {
        let other = self.other_token(fee_token);
        let local_out = no_fee_output_spec(self.reserve_of(fee_token), self.reserve_of(other), fee_slice);
        let direct = trusted_address(self.fee.trusted(), fee_token, requested);
        let after_local = trusted_address(self.fee.trusted(), other, requested);
        if fee_token == requested {
            transfer_action(action, fee_token, fee_slice, fee_address) && self.unchanged(after)
        } else if requested == other {
            if local_out > 0 {
                transfer_action(action, requested, local_out, fee_address) && self.swapped(
                    after,
                    fee_token,
                    self.reserve_of(fee_token) + fee_slice,
                    self.reserve_of(other) - local_out,
                )
            } else {
                action is Reinjected && self.reinjected(after, fee_token, fee_slice)
            }
        } else if direct is Some && direct->0 != zero_address() {
            self.unchanged(after) && (action matches FeeAction::ExternSwap {
                pair_address: p,
                token_id: t,
                amount: x,
                requested_token_id: q,
                destination: d,
                fee_token_id: ft,
                fee_amount: fa,
                restore_reserves: rr,
            } && p@ == direct->0 && t@ == fee_token && x == fee_slice && q@ == requested && d@ == fee_address && ft@ == fee_token
                && fa == fee_slice && rr is None)
        } else if after_local is Some && after_local->0 != zero_address() {
            if local_out > 0 {
                self.swapped(after, fee_token, self.reserve_of(fee_token) + fee_slice, self.reserve_of(other) - local_out)
                    && (action matches FeeAction::ExternSwap {
                    pair_address: p,
                    token_id: t,
                    amount: x,
                    requested_token_id: q,
                    destination: d,
                    fee_token_id: ft,
                    fee_amount: fa,
                    restore_reserves: rr,
                } && p@ == after_local->0 && t@ == other && x == local_out && q@ == requested && d@ == fee_address && ft@ == fee_token
                    && fa == fee_slice && rr == Some((self.first_token_reserve, self.second_token_reserve)))
            } else {
                action is Reinjected && self.reinjected(after, fee_token, fee_slice)
            }
        } else {
            action is Reinjected && self.reinjected(after, fee_token, fee_slice)
        }
    }

    pub open spec fn other_token(&self, token: Seq<u8>) -> Seq<u8> {
        if token == self.first_token_id@ {
            self.second_token_id@
        } else {
            self.first_token_id@
        }
    }

    /// Whether `other` is this pool with `amount` more of `token` in its reserve.
    pub open spec fn reinjected(&self, other: &Pair, token: Seq<u8>, amount: int) -> bool {
        if token == self.first_token_id@ {
            self.with_pool(other, self.first_token_reserve + amount, self.second_token_reserve as int, self.lp_token_supply as int)
        } else {
            self.with_pool(other, self.first_token_reserve as int, self.second_token_reserve + amount, self.lp_token_supply as int)
        }
    }

    pub open spec fn unchanged(&self, other: &Pair) -> bool {
        self.with_pool(other, self.first_token_reserve as int, self.second_token_reserve as int, self.lp_token_supply as int)
    }

    /// Swaps `amount_in` of a pool token for the other without fee, where the pool can pay
    /// it out; returns the output, zero where it cannot, and then leaves the pool as it was.
    pub fn swap_safe_no_fee(&mut self, token_in: &TokenIdentifier, amount_in: u128) -> (out: u128)
        requires
            old(self).wf(),
            old(self).is_pool_token(token_in@),
            amount_in > 0,
        ensures
            final(self).wf(),
            out == no_fee_output_spec(
                old(self).reserve_of(token_in@),
                old(self).reserve_of(old(self).other_token(token_in@)),
                amount_in as int,
            ),
            out == 0 ==> old(self).unchanged(final(self)),
            out > 0 ==> old(self).swapped(
                final(self),
                token_in@,
                old(self).reserve_of(token_in@) + amount_in,
                old(self).reserve_of(old(self).other_token(token_in@)) - out,
            ),
    {
        let (reserve_in, reserve_out) = self.oriented_reserves(token_in);
        let amount_out = no_fee_output(reserve_in, reserve_out, amount_in);
        if amount_out == 0 {
            return 0;
        }
        let new_in = reserve_in + amount_in;
        assert(reserve_in > 0);
        self.set_oriented_reserves(token_in, new_in, reserve_out - amount_out);
        amount_out
    }

    /// Takes a fee slice back into the reserve of its token.
    pub fn reinject(&mut self, token_id: &TokenIdentifier, amount: u128)
        requires
            old(self).wf(),
            old(self).is_pool_token(token_id@),
            old(self).first_token_reserve > 0,
            old(self).reserve_of(token_id@) + amount <= u128::MAX,
        ensures
            final(self).wf(),
            old(self).reinjected(final(self), token_id@, amount as int),
    {
        if token_id.same_as(&self.first_token_id) {
            self.first_token_reserve = self.first_token_reserve + amount;
        } else {
            self.second_token_reserve = self.second_token_reserve + amount;
        }
    }

    /// Resolves one slice of a fee taken in `fee_token`, owed to `fee_address` in
    /// `requested_fee_token`: paid as it is, swapped in this pool, handed to a trusted pair
    /// (after a swap in this pool where needed), or else taken back into the reserve.
    /// `None`, with the pool as it was, where a reserve would exceed an amount.
    pub fn resolve_fee_slice(
        &mut self,
        fee_token: &TokenIdentifier,
        fee_slice: u128,
        fee_address: &Address,
        requested_fee_token: &TokenIdentifier,
    ) -> (r: Option<FeeAction>)
        requires
            old(self).wf(),
            old(self).is_pool_token(fee_token@),
            old(self).first_token_reserve > 0,
            fee_slice > 0,
        ensures
            final(self).wf(),
            r is None <==> old(self).reserve_of(fee_token@) + fee_slice > u128::MAX,
            r is None ==> old(self).unchanged(final(self)),
            final(self).first_token_id@ == old(self).first_token_id@,
            final(self).second_token_id@ == old(self).second_token_id@,
            final(self).lp_token_supply == old(self).lp_token_supply,
            final(self).fee.dests() == old(self).fee.dests(),
            final(self).reserve_of(fee_token@) <= old(self).reserve_of(fee_token@) + fee_slice,
            final(self).reserve_of(old(self).other_token(fee_token@)) <= old(self).reserve_of(old(self).other_token(fee_token@)),
            r matches Some(action) ==> old(self).fee_slice_resolved(
                final(self),
                action,
                fee_token@,
                fee_slice as int,
                fee_address@,
                requested_fee_token@,
            ),
    {
        if self.reserve_of_exec(fee_token) > u128::MAX - fee_slice {
            return None;
        }
        if fee_token.same_as(requested_fee_token) {
            return Some(send_fee_or_burn_on_zero_address(fee_token, fee_slice, fee_address));
        }
        let other = if fee_token.same_as(&self.first_token_id) {
            self.second_token_id.copy()
        } else {
            self.first_token_id.copy()
        };
        if requested_fee_token.same_as(&other) {
            let to_send = self.swap_safe_no_fee(fee_token, fee_slice);
            if to_send > 0 {
                return Some(send_fee_or_burn_on_zero_address(requested_fee_token, to_send, fee_address));
            }
            self.reinject(fee_token, fee_slice);
            return Some(FeeAction::Reinjected);
        }
        match self.fee.get_extern_swap_pair_address(fee_token, requested_fee_token) {
            Some(a) => {
                if !a.is_zero() {
                    return Some(FeeAction::ExternSwap {
                        pair_address: a,
                        token_id: fee_token.copy(),
                        amount: fee_slice,
                        requested_token_id: requested_fee_token.copy(),
                        destination: fee_address.copy(),
                        fee_token_id: fee_token.copy(),
                        fee_amount: fee_slice,
                        restore_reserves: None,
                    });
                }
            },
            None => {},
        }
        match self.fee.get_extern_swap_pair_address(&other, requested_fee_token) {
            Some(a) => {
                if !a.is_zero() {
                    let saved = (self.first_token_reserve, self.second_token_reserve);
                    let to_send = self.swap_safe_no_fee(fee_token, fee_slice);
                    if to_send > 0 {
                        return Some(FeeAction::ExternSwap {
                            pair_address: a,
                            token_id: other,
                            amount: to_send,
                            requested_token_id: requested_fee_token.copy(),
                            destination: fee_address.copy(),
                            fee_token_id: fee_token.copy(),
                            fee_amount: fee_slice,
                            restore_reserves: Some(saved),
                        });
                    }
                    self.reinject(fee_token, fee_slice);
                    return Some(FeeAction::Reinjected);
                }
            },
            None => {},
        }
        self.reinject(fee_token, fee_slice);
        Some(FeeAction::Reinjected)
    }

    fn reserve_of_exec(&self, token_id: &TokenIdentifier) -> (r: u128)
        ensures
            r == self.reserve_of(token_id@),
    {
        if token_id.same_as(&self.first_token_id) {
            self.first_token_reserve
        } else {
            self.second_token_reserve
        }
    }

    /// Undoes what the pool did for a fee slice whose swap by a trusted pair failed: the
    /// reserves go back to `restore_reserves` where given, then the slice of `fee_token`
    /// re-enters its reserve. `false`, with the pool as it was, where that reserve would
    /// exceed an amount.
    pub fn revert_fee_slice(
        &mut self,
        fee_token: &TokenIdentifier,
        fee_amount: u128,
        restore_reserves: Option<(u128, u128)>,
    ) -> (r: bool)
        requires
            old(self).wf(),
            old(self).is_pool_token(fee_token@),
            old(self).first_token_reserve > 0,
            restore_reserves matches Some((a, b)) ==> a > 0 && b > 0,
        ensures
            final(self).wf(),
            !r ==> old(self).unchanged(final(self)),
            r == {
                let restored = match restore_reserves {
                    Some((a, b)) => if fee_token@ == old(self).first_token_id@ { a } else { b },
                    None => old(self).reserve_of(fee_token@) as u128,
                };
                restored + fee_amount <= u128::MAX
            },
            r && restore_reserves is None ==> old(self).reinjected(final(self), fee_token@, fee_amount as int),
            r && restore_reserves is Some ==> {
                let (a, b) = restore_reserves->0;
                let first = if fee_token@ == old(self).first_token_id@ { a + fee_amount } else { a as int };
                let second = if fee_token@ == old(self).first_token_id@ { b as int } else { b + fee_amount };
                old(self).with_pool(final(self), first, second, old(self).lp_token_supply as int)
            },
    {
        let (first, second) = match restore_reserves {
            Some((a, b)) => (a, b),
            None => (self.first_token_reserve, self.second_token_reserve),
        };
        let is_first = fee_token.same_as(&self.first_token_id);
        let current = if is_first { first } else { second };
        if current > u128::MAX - fee_amount {
            return false;
        }
        if is_first {
            self.first_token_reserve = first + fee_amount;
            self.second_token_reserve = second;
        } else {
            self.first_token_reserve = first;
            self.second_token_reserve = second + fee_amount;
        }
        true
    }

    /// Splits a fee taken in `fee_token` among the destinations and resolves each slice in
    /// turn. `Err` where a reserve would exceed an amount.
    pub fn send_fee(&mut self, fee_token: &TokenIdentifier, fee_amount: u128) -> (r: Result<Vec<FeeAction>, PairError>)
        requires
            old(self).wf(),
            old(self).is_pool_token(fee_token@),
            old(self).first_token_reserve > 0,
        ensures
            final(self).wf(),
            fee_amount == 0 || old(self).fee.dests().len() == 0 ==> (r matches Ok(v) && v@.len() == 0)
                && old(self).unchanged(final(self)),
            r matches Ok(v) ==> v@.len() == slices_spec(
                old(self).fee.dests(),
                fee_amount as int,
                crate::fee::percent_sum(old(self).fee.dests()),
            ).len(),
            (forall|i: int| 0 <= i < old(self).fee.dests().len() ==> fits(fee_amount * #[trigger] old(self).fee.dests()[i].2))
                && old(self).reserve_of(fee_token@) + fee_amount <= u128::MAX ==> r is Ok,
            r matches Ok(v) ==> old(self).fee_sent(
                final(self),
                v@,
                fee_token@,
                slices_spec(old(self).fee.dests(), fee_amount as int, crate::fee::percent_sum(old(self).fee.dests())),
            ),
    {
        let mut actions: Vec<FeeAction> = Vec::new();
        if fee_amount == 0 || !self.fee.is_fee_enabled() {
            proof {
                if self.fee.dests().len() > 0 {
                    crate::fee::lemma_percent_sum_positive(self.fee.dests());
                    crate::fee::lemma_slices_of_zero_fee(self.fee.dests(), crate::fee::percent_sum(self.fee.dests()));
                }
                let states = seq![*self];
                assert(states[0] == *self);
                assert(states.len() == actions@.len() + 1);
                assert(slices_spec(old(self).fee.dests(), fee_amount as int, crate::fee::percent_sum(old(self).fee.dests())).len() == 0);
                assert(old(self).fee_sent(
                    self,
                    actions@,
                    fee_token@,
                    slices_spec(old(self).fee.dests(), fee_amount as int, crate::fee::percent_sum(old(self).fee.dests())),
                ));
            }
            return Ok(actions);
        }
        let slices = match self.fee.fee_slices(fee_amount) {
            Ok(v) => v,
            Err(_) => return Err(PairError::ArithmeticOverflow),
        };
        let ghost expected = slices@.map_values(|f: FeeSlice| slice_view(f));
        let ghost mut states: Seq<Pair> = seq![*self];
        let ghost room: bool = old(self).reserve_of(fee_token@) + fee_amount <= u128::MAX;
        proof {
            let d = self.fee.dests();
            let total = crate::fee::percent_sum(d);
            crate::fee::lemma_percent_sum_positive(d);
            crate::fee::lemma_slices_within_fee(d, fee_amount as int, total);
            assert(fee_amount * total / total == fee_amount) by (nonlinear_arith)
                requires
                    total > 0,
            ;
            assert(expected.take(0) =~= Seq::<(Seq<u8>, Seq<u8>, int)>::empty());
            assert forall|j: int| 0 <= j < expected.len() implies #[trigger] expected[j].2 >= 0 by {
                assert(expected[j] == slice_view(slices@[j]));
            }
        }
        let mut i: usize = 0;
        while i < slices.len()
            invariant
                states.len() == i + 1,
                expected.len() == slices@.len(),
                forall|j: int| 0 <= j < expected.len() ==> #[trigger] expected[j].2 >= 0,
                self.reserve_of(fee_token@) <= old(self).reserve_of(fee_token@) + crate::fee::slices_total(
                    expected.take(i as int),
                ),
                room ==> old(self).reserve_of(fee_token@) + crate::fee::slices_total(expected) <= u128::MAX,
                room == (old(self).reserve_of(fee_token@) + fee_amount <= u128::MAX),
                states[0] == *old(self),
                states[i as int] == *self,
                forall|j: int|
                    0 <= j < i ==> #[trigger] states[j].fee_slice_resolved(
                        &states[j + 1],
                        actions@[j],
                        fee_token@,
                        expected[j].2,
                        expected[j].0,
                        expected[j].1,
                    ),
                self.wf(),
                self.is_pool_token(fee_token@),
                self.first_token_reserve > 0,
                fee_amount > 0,
                old(self).fee.dests().len() > 0,
                self.first_token_id@ == old(self).first_token_id@,
                self.second_token_id@ == old(self).second_token_id@,
                0 <= i <= slices@.len(),
                actions@.len() == i,
                expected == slices@.map_values(|f: FeeSlice| slice_view(f)),
                forall|j: int| 0 <= j < slices@.len() ==> #[trigger] slices@[j].amount > 0,
            decreases slices@.len() - i,
        {
            let slice = &slices[i];
            assert(expected[i as int] == slice_view(*slice));
            proof {
                assert(expected.take(i + 1).drop_last() =~= expected.take(i as int));
                assert(expected.take(i + 1).last() == expected[i as int]);
                assert(crate::fee::slices_total(expected.take(i + 1)) == crate::fee::slices_total(expected.take(i as int))
                    + expected[i as int].2);
                crate::fee::lemma_slices_prefix(expected, i + 1);
                if room {
                    assert(self.reserve_of(fee_token@) + slice.amount <= u128::MAX);
                }
            }
            match self.resolve_fee_slice(fee_token, slice.amount, &slice.address, &slice.requested_token_id) {
                Some(action) => {
                    actions.push(action);
                    proof {
                        states = states.push(*self);
                    }
                },
                None => {
                    assert(!room);
                    return Err(PairError::ArithmeticOverflow);
                },
            }
            i = i + 1;
        }
        assert(old(self).fee_sent(self, actions@, fee_token@, expected)) by {
            assert(states[0] == *old(self));
        }
        Ok(actions)
    }

    /// `other` is this pair with, at most, other fee settings.
    pub open spec fn unchanged_but_fee(&self, other: &Pair) -> bool {
        &&& other.first_token_id@ == self.first_token_id@
        &&& other.second_token_id@ == self.second_token_id@
        &&& opt_id(other.lp_token_id) == opt_id(self.lp_token_id)
        &&& other.router_address@ == self.router_address@
        &&& other.router_owner_address@ == self.router_owner_address@
        &&& other.state == self.state
        &&& other.total_fee_percent == self.total_fee_percent
        &&& other.special_fee_percent == self.special_fee_percent
        &&& other.first_token_reserve == self.first_token_reserve
        &&& other.second_token_reserve == self.second_token_reserve
        &&& other.lp_token_supply == self.lp_token_supply
    }

    pub open spec fn permitted(&self, caller: Seq<u8>) -> bool {
        caller == self.router_address@ || caller == self.router_owner_address@
    }

    /// For the router or its owner: allows a caller to swap without fee.
    pub fn whitelist_endpoint(&mut self, caller: &Address, address: Address) -> (r: Result<(), FeeError>)
        requires
            old(self).wf(),
        ensures
            final(self).wf(),
            old(self).unchanged_but_fee(final(self)),
            !old(self).permitted(caller@) ==> r == Err::<(), FeeError>(FeeError::PermissionDenied) && old(self).unchanged(
                final(self),
            ),
            old(self).permitted(caller@) ==> old(self).fee.whitelist_done(&final(self).fee, r, address),
    {
        if self.require_permissions(caller).is_err() {
            return Err(FeeError::PermissionDenied);
        }
        self.fee.whitelist_endpoint(address)
    }

    /// For the router or its owner: takes a caller off the whitelist.
    pub fn remove_whitelist(&mut self, caller: &Address, address: &Address) -> (r: Result<(), FeeError>)
        requires
            old(self).wf(),
        ensures
            final(self).wf(),
            old(self).unchanged_but_fee(final(self)),
            !old(self).permitted(caller@) ==> r == Err::<(), FeeError>(FeeError::PermissionDenied) && old(self).unchanged(
                final(self),
            ),
            old(self).permitted(caller@) ==> old(self).fee.unwhitelist_done(&final(self).fee, r, *address),
    {
        if self.require_permissions(caller).is_err() {
            return Err(FeeError::PermissionDenied);
        }
        self.fee.remove_whitelist(address)
    }

    /// For the router or its owner: trusts a pair contract to swap between two tokens.
    pub fn add_trusted_swap_pair(
        &mut self,
        caller: &Address,
        pair_address: Address,
        first_token: TokenIdentifier,
        second_token: TokenIdentifier,
    ) -> (r: Result<(), FeeError>)
        requires
            old(self).wf(),
        ensures
            final(self).wf(),
            old(self).unchanged_but_fee(final(self)),
            !old(self).permitted(caller@) ==> r == Err::<(), FeeError>(FeeError::PermissionDenied) && old(self).unchanged(
                final(self),
            ),
            old(self).permitted(caller@) ==> old(self).fee.trust_done(&final(self).fee, r, pair_address, first_token, second_token),
    {
        if self.require_permissions(caller).is_err() {
            return Err(FeeError::PermissionDenied);
        }
        self.fee.add_trusted_swap_pair(pair_address, first_token, second_token)
    }

    /// For the router or its owner: stops trusting the pair of two tokens.
    pub fn remove_trusted_swap_pair(&mut self, caller: &Address, first_token: &TokenIdentifier, second_token: &TokenIdentifier) -> (r:
        Result<(), FeeError>)
        requires
            old(self).wf(),
        ensures
            final(self).wf(),
            old(self).unchanged_but_fee(final(self)),
            !old(self).permitted(caller@) ==> r == Err::<(), FeeError>(FeeError::PermissionDenied) && old(self).unchanged(
                final(self),
            ),
            old(self).permitted(caller@) ==> old(self).fee.untrust_done(&final(self).fee, r, *first_token, *second_token),
    {
        if self.require_permissions(caller).is_err() {
            return Err(FeeError::PermissionDenied);
        }
        self.fee.remove_trusted_swap_pair(first_token, second_token)
    }

    /// For the router or its owner: adds or takes off a part of the special fee for a
    /// destination; the parts together stay within the pair's special fee.
    pub fn set_fee_on(
        &mut self,
        caller: &Address,
        enabled: bool,
        fee_to_address: Address,
        fee_token: TokenIdentifier,
        fee_percent: u64,
    ) -> (r: Result<(), FeeError>)
        requires
            old(self).wf(),
        ensures
            final(self).wf(),
            old(self).unchanged_but_fee(final(self)),
            !old(self).permitted(caller@) ==> r == Err::<(), FeeError>(FeeError::PermissionDenied) && old(self).unchanged(
                final(self),
            ),
            old(self).permitted(caller@) ==> old(self).fee.fee_set_done(
                &final(self).fee,
                r,
                enabled,
                fee_to_address,
                fee_token,
                fee_percent,
                old(self).special_fee_percent,
            ),
    {
        if self.require_permissions(caller).is_err() {
            return Err(FeeError::PermissionDenied);
        }
        let special_fee_percent = self.special_fee_percent;
        self.fee.set_fee_on(enabled, fee_to_address, fee_token, fee_percent, special_fee_percent)
    }

    /// Swaps without fee for a whitelisted caller and forwards the output to `destination`
    /// (burned at the zero address). Returns the output and the transfer to make. On an
    /// error the pool is left as it was.
    pub fn swap_no_fee(
        &mut self,
        caller: &Address,
        token_in: &TokenIdentifier,
        amount_in: u128,
        token_out: &TokenIdentifier,
        destination: &Address,
    ) -> (r: Result<(FftTokenAmountPair, FeeAction), PairError>)
        requires
            old(self).wf(),
        ensures
            final(self).wf(),
            r is Err ==> old(self).unchanged(final(self)),
            !old(self).fee.whitelisted().contains(caller@) ==> (r matches Err(x) && x == PairError::NotWhitelisted),
            old(self).fee.whitelisted().contains(caller@) ==> match old(self).swap_error(token_in@, amount_in as int, token_out@) {
                Some(e) => r matches Err(x) && x == e,
                None => {
                    let out = no_fee_output_spec(old(self).reserve_of(token_in@), old(self).reserve_of(token_out@), amount_in as int);
                    let new_in = old(self).reserve_of(token_in@) + amount_in;
                    let new_out = old(self).reserve_of(token_out@) - out;
                    if out == 0 {
                        r matches Err(x) && x == PairError::ZeroOutput
                    } else {
                        match k_check(old(self).reserve_of(token_in@), old(self).reserve_of(token_out@), new_in, new_out, false) {
                            Some(e) => r matches Err(x) && x == e,
                            None => r matches Ok((o, action)) && o.token_id@ == token_out@ && o.amount == out
                                && transfer_action(action, token_out@, out, destination@)
                                && old(self).swapped(final(self), token_in@, new_in, new_out),
                        }
                    }
                },
            },
    {
        if !self.fee.is_whitelisted(caller) {
            return Err(PairError::NotWhitelisted);
        }
        self.check_swap(token_in, amount_in, token_out)?;
        let (reserve_in, reserve_out) = self.oriented_reserves(token_in);
        assert(reserve_out == self.reserve_of(token_out@));
        let amount_out = no_fee_output(reserve_in, reserve_out, amount_in);
        if amount_out == 0 {
            return Err(PairError::ZeroOutput);
        }
        let new_in = reserve_in + amount_in;
        check_k(reserve_in, reserve_out, new_in, reserve_out - amount_out, false)?;
        assert(reserve_in > 0);
        self.set_oriented_reserves(token_in, new_in, reserve_out - amount_out);
        let action = send_fee_or_burn_on_zero_address(token_out, amount_out, destination);
        Ok((FftTokenAmountPair::new(token_out, amount_out), action))
    }

    /// For a whitelisted caller: burns `amount_in` LP tokens, taking at least one of each
    /// token out of the pool, and sends both amounts to the zero address in
    /// `token_to_buyback_and_burn`, which burns them once swapped. Returns the amounts taken
    /// out and the actions for them.
    pub fn remove_liquidity_and_burn_token(
        &mut self,
        caller: &Address,
        token_in: &TokenIdentifier,
        amount_in: u128,
        token_to_buyback_and_burn: &TokenIdentifier,
    ) -> (r: Result<(u128, u128, Vec<FeeAction>), PairError>)
        requires
            old(self).wf(),
        ensures
            final(self).wf(),
            !old(self).fee.whitelisted().contains(caller@) ==> (r matches Err(x) && x == PairError::NotWhitelisted),
            old(self).fee.whitelisted().contains(caller@) && old(self).lp_token_id is None ==> (r matches Err(x) && x
                == PairError::LpTokenNotIssued),
            old(self).fee.whitelisted().contains(caller@) && old(self).lp_token_id is Some && old(self).lp_token_id->0@
                != token_in@ ==> (r matches Err(x) && x == PairError::WrongLiquidityToken),
            old(self).fee.whitelisted().contains(caller@) && old(self).lp_token_id is Some && old(self).lp_token_id->0@
                == token_in@ ==> match remove_liquidity_spec(
                old(self).first_token_reserve as int,
                old(self).second_token_reserve as int,
                old(self).lp_token_supply as int,
                amount_in as int,
                1,
                1,
            ) {
                Err(e) => r matches Err(x) && x == e && old(self).unchanged(final(self)),
                Ok((first_amount, second_amount)) => (r matches Ok((a, b, actions)) && a == first_amount && b == second_amount && actions@.len() == 2 && exists|removed: Pair, between: Pair|
                    {
                        &&& old(self).with_pool(
                            &removed,
                            old(self).first_token_reserve - first_amount,
                            old(self).second_token_reserve - second_amount,
                            old(self).lp_token_supply - amount_in,
                        )
                        &&& #[trigger] removed.fee_slice_resolved(
                            &between,
                            actions@[0],
                            old(self).first_token_id@,
                            first_amount,
                            zero_address(),
                            token_to_buyback_and_burn@,
                        )
                        &&& between.fee_slice_resolved(
                            final(self),
                            actions@[1],
                            old(self).second_token_id@,
                            second_amount,
                            zero_address(),
                            token_to_buyback_and_burn@,
                        )
                    }),
            },
    {
        if !self.fee.is_whitelisted(caller) {
            return Err(PairError::NotWhitelisted);
        }
        let (first, second) = self.remove_liquidity(token_in, amount_in, 1, 1)?;
        let ghost removed = *self;
        let zero = Address::zero();
        let first_id = self.first_token_id.copy();
        let second_id = self.second_token_id.copy();
        let mut actions: Vec<FeeAction> = Vec::new();
        match self.resolve_fee_slice(&first_id, first.amount, &zero, token_to_buyback_and_burn) {
            Some(a) => actions.push(a),
            None => return Err(PairError::ArithmeticOverflow),
        }
        let ghost between = *self;
        match self.resolve_fee_slice(&second_id, second.amount, &zero, token_to_buyback_and_burn) {
            Some(a) => actions.push(a),
            None => return Err(PairError::ArithmeticOverflow),
        }
        assert(removed.fee_slice_resolved(
            &between,
            actions@[0],
            old(self).first_token_id@,
            first.amount as int,
            zero_address(),
            token_to_buyback_and_burn@,
        ));
        Ok((first.amount, second.amount, actions))
    }

    pub open spec fn set_lp_token_error(&self, caller: Seq<u8>, token: Seq<u8>) -> Option<PairError> {
        if !(caller == self.router_address@ || caller == self.router_owner_address@) {
            Some(PairError::PermissionDenied)
        } else if self.lp_token_id is Some {
            Some(PairError::LpTokenAlreadySet)
        } else if token == self.first_token_id@ || token == self.second_token_id@ {
            Some(PairError::LpTokenSameAsExchangeToken)
        } else if !valid_esdt_identifier(token) {
            Some(PairError::InvalidLpTokenId)
        } else {
            None
        }
    }

    /// `other` is this pair with, at most, another LP token.
    pub open spec fn unchanged_but_lp(&self, other: &Pair) -> bool {
        &&& other.first_token_id@ == self.first_token_id@
        &&& other.second_token_id@ == self.second_token_id@
        &&& other.router_address@ == self.router_address@
        &&& other.router_owner_address@ == self.router_owner_address@
        &&& other.state == self.state
        &&& other.total_fee_percent == self.total_fee_percent
        &&& other.special_fee_percent == self.special_fee_percent
        &&& other.first_token_reserve == self.first_token_reserve
        &&& other.second_token_reserve == self.second_token_reserve
        &&& other.lp_token_supply == self.lp_token_supply
        &&& other.fee.dests() == self.fee.dests()
        &&& other.fee.trusted() == self.fee.trusted()
        &&& other.fee.whitelisted() == self.fee.whitelisted()
    }

    /// Sets the LP token once, for a permitted caller: a valid identifier other than the
    /// two pool tokens.
    pub fn set_lp_token_identifier(&mut self, caller: &Address, token_identifier: TokenIdentifier) -> (r: Result<
        (),
        PairError,
    >)
        requires
            old(self).wf(),
        ensures
            final(self).wf(),
            r == match old(self).set_lp_token_error(caller@, token_identifier@) {
                Some(e) => Err::<(), PairError>(e),
                None => Ok(()),
            },
            r is Err ==> old(self).unchanged(final(self)) && opt_id(final(self).lp_token_id) == opt_id(old(self).lp_token_id),
            r is Ok ==> old(self).unchanged_but_lp(final(self)) && opt_id(final(self).lp_token_id) == Some(token_identifier@),
    {
        self.require_permissions(caller)?;
        if self.lp_token_id.is_some() {
            return Err(PairError::LpTokenAlreadySet);
        }
        if token_identifier.same_as(&self.first_token_id) || token_identifier.same_as(&self.second_token_id) {
            return Err(PairError::LpTokenSameAsExchangeToken);
        }
        if !token_identifier.is_valid_esdt_identifier() {
            return Err(PairError::InvalidLpTokenId);
        }
        self.lp_token_id = Some(token_identifier);
        Ok(())
    }

    /// Output for `amount_in` of a pool token at the current reserves, the total fee kept.
    pub fn get_amount_out_view(&self, token_in: &TokenIdentifier, amount_in: u128) -> (r: Result<u128, PairError>)
        requires
            self.wf(),
        ensures
            amount_in == 0 ==> r == Err::<u128, PairError>(PairError::ZeroInput),
            amount_in > 0 && !self.is_pool_token(token_in@) ==> r == Err::<u128, PairError>(PairError::UnknownToken),
            amount_in > 0 && self.is_pool_token(token_in@) ==> {
                let reserve_in = self.reserve_of(token_in@);
                let reserve_out = self.reserve_of(self.other_token(token_in@));
                let fee = self.total_fee_percent as int;
                if reserve_out == 0 {
                    r == Err::<u128, PairError>(PairError::ZeroReserves)
                } else if !amount_out_fits(amount_in as int, reserve_in, reserve_out, fee) {
                    r == Err::<u128, PairError>(PairError::ArithmeticOverflow)
                } else if reserve_out <= amount_out_spec(amount_in as int, reserve_in, reserve_out, fee) {
                    r == Err::<u128, PairError>(PairError::NotEnoughReserves)
                } else {
                    r == Ok::<u128, PairError>(amount_out_spec(amount_in as int, reserve_in, reserve_out, fee) as u128)
                }
            },
    {
        if amount_in == 0 {
            return Err(PairError::ZeroInput);
        }
        if !(token_in.same_as(&self.first_token_id) || token_in.same_as(&self.second_token_id)) {
            return Err(PairError::UnknownToken);
        }
        let (reserve_in, reserve_out) = self.oriented_reserves(token_in);
        if reserve_out == 0 {
            return Err(PairError::ZeroReserves);
        }
        let amount_out = match get_amount_out(amount_in, reserve_in, reserve_out, self.total_fee_percent) {
            Some(v) => v,
            None => return Err(PairError::ArithmeticOverflow),
        };
        if reserve_out <= amount_out {
            return Err(PairError::NotEnoughReserves);
        }
        Ok(amount_out)
    }

    /// Input of the other pool token that buys `amount_wanted` of `token_wanted`.
    pub fn get_amount_in_view(&self, token_wanted: &TokenIdentifier, amount_wanted: u128) -> (r: Result<u128, PairError>)
        requires
            self.wf(),
        ensures
            amount_wanted == 0 ==> r == Err::<u128, PairError>(PairError::ZeroInput),
            amount_wanted > 0 && !self.is_pool_token(token_wanted@) ==> r == Err::<u128, PairError>(PairError::UnknownToken),
            amount_wanted > 0 && self.is_pool_token(token_wanted@) ==> {
                let reserve_out = self.reserve_of(token_wanted@);
                let reserve_in = self.reserve_of(self.other_token(token_wanted@));
                let fee = self.total_fee_percent as int;
                if reserve_out <= amount_wanted {
                    r == Err::<u128, PairError>(PairError::NotEnoughReserves)
                } else if !amount_in_fits(amount_wanted as int, reserve_in, reserve_out, fee) {
                    r == Err::<u128, PairError>(PairError::ArithmeticOverflow)
                } else {
                    r == Ok::<u128, PairError>(amount_in_spec(amount_wanted as int, reserve_in, reserve_out, fee) as u128)
                }
            },
    {
        if amount_wanted == 0 {
            return Err(PairError::ZeroInput);
        }
        if !(token_wanted.same_as(&self.first_token_id) || token_wanted.same_as(&self.second_token_id)) {
            return Err(PairError::UnknownToken);
        }
        let (reserve_out, reserve_in) = self.oriented_reserves(token_wanted);
        if reserve_out <= amount_wanted {
            return Err(PairError::NotEnoughReserves);
        }
        match get_amount_in(amount_wanted, reserve_in, reserve_out, self.total_fee_percent) {
            Some(v) => Ok(v),
            None => Err(PairError::ArithmeticOverflow),
        }
    }

    /// Amount of the other pool token worth `amount_in` at the current reserve ratio; zero
    /// for an empty pool.
    pub fn get_equivalent(&self, token_in: &TokenIdentifier, amount_in: u128) -> (r: Result<u128, PairError>)
        requires
            self.wf(),
        ensures
            amount_in == 0 ==> r == Err::<u128, PairError>(PairError::ZeroInput),
            amount_in > 0 && (self.first_token_reserve == 0 || self.second_token_reserve == 0) ==> r == Ok::<
                u128,
                PairError,
            >(0),
            amount_in > 0 && self.first_token_reserve > 0 && self.second_token_reserve > 0 ==> {
                if !self.is_pool_token(token_in@) {
                    r == Err::<u128, PairError>(PairError::UnknownToken)
                } else {
                    let reserve_in = self.reserve_of(token_in@);
                    let reserve_out = self.reserve_of(self.other_token(token_in@));
                    if !fits(amount_in * reserve_out) {
                        r == Err::<u128, PairError>(PairError::ArithmeticOverflow)
                    } else {
                        r == Ok::<u128, PairError>(quote_spec(amount_in as int, reserve_in, reserve_out) as u128)
                    }
                }
            },
    {
        if amount_in == 0 {
            return Err(PairError::ZeroInput);
        }
        if self.first_token_reserve == 0 || self.second_token_reserve == 0 {
            return Ok(0);
        }
        if !(token_in.same_as(&self.first_token_id) || token_in.same_as(&self.second_token_id)) {
            return Err(PairError::UnknownToken);
        }
        let (reserve_in, reserve_out) = self.oriented_reserves(token_in);
        match quote(amount_in, reserve_in, reserve_out) {
            Some(v) => Ok(v),
            None => Err(PairError::ArithmeticOverflow),
        }
    }
}


/// A deposit that the pool accepts raises the product of its reserves.
pub proof fn lemma_add_liquidity_raises_k(
    first_reserve: int,
    second_reserve: int,
    supply: int,
    first_desired: int,
    second_desired: int,
    first_min: int,
    second_min: int,
)
    ensures
        match add_liquidity_spec(first_reserve, second_reserve, supply, first_desired, second_desired, first_min, second_min) {
            Ok((_, first_amount, second_amount)) => k_of(first_reserve, second_reserve) < k_of(
                first_reserve + first_amount,
                second_reserve + second_amount,
            ),
            Err(_) => true,
        },
{
}

/// A withdrawal that the pool accepts lowers the product of its reserves.
pub proof fn lemma_remove_liquidity_lowers_k(
    first_reserve: int,
    second_reserve: int,
    supply: int,
    liquidity: int,
    first_min: int,
    second_min: int,
)
    ensures
        match remove_liquidity_spec(first_reserve, second_reserve, supply, liquidity, first_min, second_min) {
            Ok((first_amount, second_amount)) => k_of(first_reserve - first_amount, second_reserve - second_amount) < k_of(
                first_reserve,
                second_reserve,
            ),
            Err(_) => true,
        },
{
}

/// A swap that the pool accepts, of a fixed input or for a fixed output, never lowers the
/// product of its reserves, though the special fee leaves the pool.
pub proof fn lemma_swaps_keep_k(
    reserve_in: int,
    reserve_out: int,
    amount: int,
    limit: int,
    total_fee_percent: int,
    special_fee_percent: int,
    fee_enabled: bool,
    fee_percent_total: int,
)
    ensures
        match swap_fixed_input_spec(
            reserve_in,
            reserve_out,
            amount,
            limit,
            total_fee_percent,
            special_fee_percent,
            fee_enabled,
            fee_percent_total,
        ) {
            Ok((amount_out, fee)) => k_of(reserve_in, reserve_out) <= k_of(reserve_in + amount - fee, reserve_out - amount_out),
            Err(_) => true,
        },
        match swap_fixed_output_spec(
            reserve_in,
            reserve_out,
            amount,
            limit,
            total_fee_percent,
            special_fee_percent,
            fee_enabled,
            fee_percent_total,
        ) {
            Ok((amount_in, fee)) => k_of(reserve_in, reserve_out) <= k_of(reserve_in + amount_in - fee, reserve_out - amount),
            Err(_) => true,
        },
{
}

} // verus!
