use vstd::prelude::*;

use crate::amm::fits;
use crate::common::{
    opt_id, valid_esdt_identifier, Address, Epoch, FarmTokenAttributes, GenericTokenAmountPair, Nonce, State,
    TokenIdentifier,
};

verus! {

/// Penalty percents are whole percents of the amount, at most all of it.
pub const MAX_PENALTY_PERCENT: u64 = 100;

pub const DEFAULT_PENALTY_PERCENT: u64 = 10;

pub const DEFAULT_MINUMUM_FARMING_EPOCHS: u8 = 3;

pub const DEFAULT_LOCKED_REWARDS_LIQUIDITY_MUTIPLIER: u8 = 2;

pub const DEFAULT_TRANSFER_EXEC_GAS_LIMIT: u64 = 35000000;

/// Why a farm refused an operation.
#[derive(Clone, Copy, Debug, PartialEq, Eq, Structural)]
pub enum FarmError {
    InvalidRewardTokenId,
    InvalidFarmingTokenId,
    ZeroDivisionConstant,
    PermissionDenied,
    PercentTooLarge,
    ZeroMultiplier,
    NotActive,
    NoFarmToken,
    FarmTokenAlreadyIssued,
    BadInputToken,
    ZeroAmount,
    BadFeeToken,
    ExitTooEarly,
    NotEnoughRewardReserve,
    NotEnoughSupply,
    ZeroFarmingAmount,
    NotEnoughFarmingReserve,
    ArithmeticOverflow,
}

/// A farm: stakes of the farming token earn a share of per-block rewards and of the fees
/// handed to it, tracked by a global reward-per-share that each position records on entry.
pub struct Farm {
    pub owner: Address,
    pub router_address: Address,
    pub locked_asset_factory_address: Address,
    pub reward_token_id: TokenIdentifier,
    pub farming_token_id: TokenIdentifier,
    pub farm_token_id: Option<TokenIdentifier>,
    pub state: State,
    pub penalty_percent: u64,
    pub minimum_farming_epochs: u8,
    pub locked_rewards_apr_multiplier: u8,
    pub transfer_exec_gas_limit: u64,
    pub division_safety_constant: u128,
    pub reward_per_share: u128,
    pub reward_reserve: u128,
    pub farming_token_reserve: u128,
    pub farm_token_supply: u128,
    pub farm_token_nonce: Nonce,
    pub per_block_reward_amount: u128,
    pub last_reward_block_nonce: u64,
    pub undistributed_fee: u128,
    pub current_block_fee: Option<(u64, u128)>,
}

/// Rewards minted for the blocks after `last_block` up to `block`.
pub open spec fn per_block_rewards_spec(per_block: int, last_block: int, block: int) -> int {
    if block > last_block && per_block > 0 {
        per_block * (block - last_block)
    } else {
        0
    }
}

/// Growth of reward-per-share when `increase` is shared among `supply` farm tokens.
pub open spec fn rps_increase_spec(increase: int, division_safety_constant: int, supply: int) -> int {
    if supply == 0 {
        0
    } else {
        increase * division_safety_constant / supply
    }
}

/// Reward earned by `amount` farm tokens since reward-per-share was `initial_rps`.
pub open spec fn reward_spec(amount: int, current_rps: int, initial_rps: int, division_safety_constant: int) -> int {
    if current_rps > initial_rps {
        amount * (current_rps - initial_rps) / division_safety_constant
    } else {
        0
    }
}

pub open spec fn penalty_spec(amount: int, penalty_percent: int) -> int {
    amount * penalty_percent / (MAX_PENALTY_PERCENT as int)
}

pub open spec fn init_farm_error(reward_token_id: Seq<u8>, farming_token_id: Seq<u8>, division_safety_constant: u128) -> Option<
    FarmError,
> {
    if !valid_esdt_identifier(reward_token_id) {
        Some(FarmError::InvalidRewardTokenId)
    } else if !valid_esdt_identifier(farming_token_id) {
        Some(FarmError::InvalidFarmingTokenId)
    } else if division_safety_constant == 0 {
        Some(FarmError::ZeroDivisionConstant)
    } else {
        None
    }
}

/// Fees that the farm may distribute at `block`: those left undistributed, and those of an
/// earlier block than `block`.
pub open spec fn fees_due_spec(undistributed: int, current_block_fee: Option<(u64, u128)>, block: int) -> int {
    undistributed + match current_block_fee {
        Some((b, f)) => if block > b {
            f as int
        } else {
            0
        },
        None => 0,
    }
}

/// What leaving a farm with `amount` farm tokens of a position pays: the farming tokens
/// sent back and the reward, each less the early-exit penalty, with the two penalties, or
/// why it is refused.
pub open spec fn exit_amounts_spec(
    amount: int,
    reward: int,
    penalized: bool,
    penalty_percent: int,
    with_locked_rewards: bool,
    apr_multiplier: int,
) -> Result<(int, int, int, int), FarmError> {
    let reward_penalty = if penalized { penalty_spec(reward, penalty_percent) } else { 0 };
    let farming_penalty = if penalized { penalty_spec(amount, penalty_percent) } else { 0 };
    let farming = amount - farming_penalty;
    if with_locked_rewards && apr_multiplier == 0 {
        Err(FarmError::ZeroMultiplier)
    } else if with_locked_rewards && farming / apr_multiplier == 0 {
        Err(FarmError::ZeroFarmingAmount)
    } else {
        Ok((
            if with_locked_rewards { farming / apr_multiplier } else { farming },
            reward - reward_penalty,
            farming_penalty,
            reward_penalty,
        ))
    }
}

/// What a farm pays out on exit.
#[derive(Clone, Copy, Debug, PartialEq, Eq, Structural)]
pub struct ExitFarmOutcome {
    /// Farming tokens sent back.
    pub farming_token_amount: u128,
    /// Reward tokens paid, or, for a position with locked rewards, to lock.
    pub reward_amount: u128,
    /// Farming tokens burned as the early-exit penalty.
    pub farming_penalty: u128,
    /// Reward tokens burned as the early-exit penalty.
    pub reward_penalty: u128,
}

/// Reward of a liquidity position valued against all reward reserves: the position is worth
/// `liquidity * (virtual + actual reserves + pending reward) / total_supply`, and earns what
/// it is worth above its entry amount.
pub open spec fn reward_for_liquidity_spec(
    liquidity: int,
    enter_amount: int,
    total_supply: int,
    total_reserves: int,
) -> int {
    let worth = liquidity * total_reserves / total_supply;
    if worth > enter_amount {
        worth - enter_amount
    } else {
        0
    }
}

pub fn calculate_reward_for_given_liquidity(
    liquidity: u128,
    enter_amount: u128,
    total_supply: u128,
    virtual_reserves: u128,
    actual_reserves: u128,
    pending_reward: u128,
) -> (r: Option<u128>)
    requires
        total_supply > 0,
    ensures
        r == if fits(virtual_reserves + actual_reserves + pending_reward) && fits(
            liquidity * (virtual_reserves + actual_reserves + pending_reward),
        ) {
            Some(
                reward_for_liquidity_spec(
                    liquidity as int,
                    enter_amount as int,
                    total_supply as int,
                    virtual_reserves + actual_reserves + pending_reward,
                ) as u128,
            )
        } else {
            None::<u128>
        },
{
    let partial = match virtual_reserves.checked_add(actual_reserves) {
        Some(v) => v,
        None => return None,
    };
    let total_reserves = match partial.checked_add(pending_reward) {
        Some(v) => v,
        None => return None,
    };
    let product = match liquidity.checked_mul(total_reserves) {
        Some(v) => v,
        None => return None,
    };
    assert(0 <= product / total_supply <= product) by (nonlinear_arith)
        requires total_supply >= 1, product >= 0;
    let worth = product / total_supply;
    if worth > enter_amount {
        Some(worth - enter_amount)
    } else {
        Some(0)
    }
}

impl Farm {
    pub open spec fn wf(&self) -> bool {
        &&& self.division_safety_constant > 0
        &&& self.penalty_percent <= MAX_PENALTY_PERCENT
        &&& self.locked_rewards_apr_multiplier > 0
    }

    /// `other` has the same configuration: identities, state and parameters.
    pub open spec fn same_config(&self, other: &Farm) -> bool {
        &&& other.owner@ == self.owner@
        &&& other.router_address@ == self.router_address@
        &&& other.locked_asset_factory_address@ == self.locked_asset_factory_address@
        &&& other.reward_token_id@ == self.reward_token_id@
        &&& other.farming_token_id@ == self.farming_token_id@
        &&& opt_id(other.farm_token_id) == opt_id(self.farm_token_id)
        &&& other.state == self.state
        &&& other.penalty_percent == self.penalty_percent
        &&& other.minimum_farming_epochs == self.minimum_farming_epochs
        &&& other.locked_rewards_apr_multiplier == self.locked_rewards_apr_multiplier
        &&& other.transfer_exec_gas_limit == self.transfer_exec_gas_limit
        &&& other.division_safety_constant == self.division_safety_constant
        &&& other.per_block_reward_amount == self.per_block_reward_amount
    }

    /// `other` has the same accounting: reserves, supply, rewards and fees.
    pub open spec fn same_accounting(&self, other: &Farm) -> bool {
        &&& other.reward_per_share == self.reward_per_share
        &&& other.reward_reserve == self.reward_reserve
        &&& other.farming_token_reserve == self.farming_token_reserve
        &&& other.farm_token_supply == self.farm_token_supply
        &&& other.farm_token_nonce == self.farm_token_nonce
        &&& other.last_reward_block_nonce == self.last_reward_block_nonce
        &&& other.undistributed_fee == self.undistributed_fee
        &&& other.current_block_fee == self.current_block_fee
    }

    pub open spec fn unchanged(&self, other: &Farm) -> bool {
        self.same_config(other) && self.same_accounting(other)
    }

    /// Deploys a farm of two valid tokens, owned by `caller`, active, with default parameters.
    pub fn init(
        caller: Address,
        router_address: Address,
        reward_token_id: TokenIdentifier,
        farming_token_id: TokenIdentifier,
        locked_asset_factory_address: Address,
        division_safety_constant: u128,
    ) -> (r: Result<Farm, FarmError>)
        ensures
            match init_farm_error(reward_token_id@, farming_token_id@, division_safety_constant) {
                Some(e) => r matches Err(x) && x == e,
                None => r matches Ok(f) && {
                    &&& f.wf()
                    &&& f.owner@ == caller@
                    &&& f.router_address@ == router_address@
                    &&& f.locked_asset_factory_address@ == locked_asset_factory_address@
                    &&& f.reward_token_id@ == reward_token_id@
                    &&& f.farming_token_id@ == farming_token_id@
                    &&& f.farm_token_id is None
                    &&& f.state == State::Active
                    &&& f.penalty_percent == DEFAULT_PENALTY_PERCENT
                    &&& f.minimum_farming_epochs == DEFAULT_MINUMUM_FARMING_EPOCHS
                    &&& f.locked_rewards_apr_multiplier == DEFAULT_LOCKED_REWARDS_LIQUIDITY_MUTIPLIER
                    &&& f.transfer_exec_gas_limit == DEFAULT_TRANSFER_EXEC_GAS_LIMIT
                    &&& f.division_safety_constant == division_safety_constant
                    &&& f.reward_per_share == 0
                    &&& f.reward_reserve == 0
                    &&& f.farming_token_reserve == 0
                    &&& f.farm_token_supply == 0
                    &&& f.farm_token_nonce == 0
                    &&& f.per_block_reward_amount == 0
                    &&& f.last_reward_block_nonce == 0
                    &&& f.undistributed_fee == 0
                    &&& f.current_block_fee is None
                },
            },
    {
        if !reward_token_id.is_valid_esdt_identifier() {
            return Err(FarmError::InvalidRewardTokenId);
        }
        if !farming_token_id.is_valid_esdt_identifier() {
            return Err(FarmError::InvalidFarmingTokenId);
        }
        if division_safety_constant == 0 {
            return Err(FarmError::ZeroDivisionConstant);
        }
        Ok(Farm {
            owner: caller,
            router_address,
            locked_asset_factory_address,
            reward_token_id,
            farming_token_id,
            farm_token_id: None,
            state: State::Active,
            penalty_percent: DEFAULT_PENALTY_PERCENT,
            minimum_farming_epochs: DEFAULT_MINUMUM_FARMING_EPOCHS,
            locked_rewards_apr_multiplier: DEFAULT_LOCKED_REWARDS_LIQUIDITY_MUTIPLIER,
            transfer_exec_gas_limit: DEFAULT_TRANSFER_EXEC_GAS_LIMIT,
            division_safety_constant,
            reward_per_share: 0,
            reward_reserve: 0,
            farming_token_reserve: 0,
            farm_token_supply: 0,
            farm_token_nonce: 0,
            per_block_reward_amount: 0,
            last_reward_block_nonce: 0,
            undistributed_fee: 0,
            current_block_fee: None,
        })
    }

    pub fn is_active(&self) -> (r: bool)
        ensures
            r == (self.state == State::Active),
    {
        self.state == State::Active
    }

    /// Only the owner and the router may configure the farm.
    pub fn require_permissions(&self, caller: &Address) -> (r: Result<(), FarmError>)
        ensures
            r == if caller@ == self.owner@ || caller@ == self.router_address@ {
                Ok(())
            } else {
                Err::<(), FarmError>(FarmError::PermissionDenied)
            },
    {
        if caller.same_as(&self.owner) || caller.same_as(&self.router_address) {
            Ok(())
        } else {
            Err(FarmError::PermissionDenied)
        }
    }

    /// Farm tokens minted for `amount` farming tokens and the multiplier they carry: a
    /// position whose rewards are locked counts `locked_rewards_apr_multiplier` times.
    pub fn get_farm_contribution(&self, amount: u128, with_locked_rewards: bool) -> (r: Option<(u128, u8)>)
        ensures
            !with_locked_rewards ==> r == Some((amount, 1u8)),
            with_locked_rewards ==> r == if fits(amount * self.locked_rewards_apr_multiplier) {
                Some(((amount * self.locked_rewards_apr_multiplier) as u128, self.locked_rewards_apr_multiplier))
            } else {
                None::<(u128, u8)>
            },
    {
        if with_locked_rewards {
            let multiplier = self.locked_rewards_apr_multiplier;
            match amount.checked_mul(multiplier as u128) {
                Some(v) => Some((v, multiplier)),
                None => None,
            }
        } else {
            Some((amount, 1u8))
        }
    }

    /// A position entered at `entering_epoch` pays the penalty until it has stayed the
    /// minimum number of epochs.
    pub fn should_apply_penalty(&self, entering_epoch: Epoch, current_epoch: Epoch) -> (r: bool)
        ensures
            r == (entering_epoch + self.minimum_farming_epochs > current_epoch),
    {
        (entering_epoch as u128) + (self.minimum_farming_epochs as u128) > (current_epoch as u128)
    }

    /// The part of `amount` taken as the early-exit penalty.
    pub fn get_penalty_amount(&self, amount: u128) -> (r: u128)
        requires
            self.wf(),
        ensures
            r == penalty_spec(amount as int, self.penalty_percent as int),
            r <= amount,
    {
        let q = amount / 100;
        let m = amount % 100;
        let p = self.penalty_percent as u128;
        assert(amount == q * 100 + m && 0 <= m < 100) by (nonlinear_arith)
            requires
                q == amount / 100,
                m == amount % 100,
        ;
        assert(q * p <= amount) by (nonlinear_arith)
            requires
                amount == q * 100 + m,
                0 <= m,
                p <= 100,
                q >= 0,
        ;
        assert(m * p / 100 <= m) by (nonlinear_arith)
            requires
                0 <= m < 100,
                0 <= p <= 100,
        ;
        assert(amount * p / 100 == q * p + m * p / 100) by (nonlinear_arith)
            requires
                amount == q * 100 + m,
                0 <= m < 100,
                0 <= p,
                q >= 0,
        ;
        assert(q * p + m * p / 100 <= amount) by (nonlinear_arith)
            requires
                amount == q * 100 + m,
                0 <= m < 100,
                0 <= p <= 100,
                q >= 0,
                m * p / 100 <= m,
        ;
        q * p + (m * p) / 100
    }

    /// Rewards that the farm has to mint for the blocks since the last reward, up to `block`.
    pub fn calculate_per_block_rewards(&self, block: u64) -> (r: Option<u128>)
        ensures
            r == if fits(per_block_rewards_spec(self.per_block_reward_amount as int, self.last_reward_block_nonce as int, block as int)) {
                Some(per_block_rewards_spec(self.per_block_reward_amount as int, self.last_reward_block_nonce as int, block as int) as u128)
            } else {
                None::<u128>
            },
    {
        if block > self.last_reward_block_nonce && self.per_block_reward_amount > 0 {
            self.per_block_reward_amount.checked_mul((block - self.last_reward_block_nonce) as u128)
        } else {
            Some(0)
        }
    }

    /// Growth of reward-per-share when `reward_increase` is shared among all farm tokens.
    pub fn calculate_reward_per_share_increase(&self, reward_increase: u128) -> (r: Option<u128>)
        ensures
            r == if self.farm_token_supply == 0 || fits(reward_increase * self.division_safety_constant) {
                Some(rps_increase_spec(reward_increase as int, self.division_safety_constant as int, self.farm_token_supply as int) as u128)
            } else {
                None::<u128>
            },
    {
        if self.farm_token_supply == 0 {
            return Some(0);
        }
        match reward_increase.checked_mul(self.division_safety_constant) {
            Some(p) => {
                assert(0 <= p / self.farm_token_supply <= p) by (nonlinear_arith)
                    requires self.farm_token_supply >= 1, p >= 0;
                Some(p / self.farm_token_supply)
            },
            None => None,
        }
    }

    /// Reward of `amount` farm tokens whose position recorded `initial_reward_per_share`.
    pub fn calculate_reward(&self, amount: u128, current_reward_per_share: u128, initial_reward_per_share: u128) -> (r:
        Option<u128>)
        requires
            self.wf(),
        ensures
            r == if current_reward_per_share <= initial_reward_per_share || fits(
                amount * (current_reward_per_share - initial_reward_per_share),
            ) {
                Some(reward_spec(amount as int, current_reward_per_share as int, initial_reward_per_share as int, self.division_safety_constant as int) as u128)
            } else {
                None::<u128>
            },
    {
        if current_reward_per_share <= initial_reward_per_share {
            return Some(0);
        }
        match amount.checked_mul(current_reward_per_share - initial_reward_per_share) {
            Some(p) => {
                assert(0 <= p / self.division_safety_constant <= p) by (nonlinear_arith)
                    requires self.division_safety_constant >= 1, p >= 0;
                Some(p / self.division_safety_constant)
            },
            None => None,
        }
    }

    /// Rewards that become due at `block`: minted per block and fees of earlier blocks.
    pub open spec fn due_rewards(&self, block: int) -> int {
        per_block_rewards_spec(self.per_block_reward_amount as int, self.last_reward_block_nonce as int, block)
            + fees_due_spec(self.undistributed_fee as int, self.current_block_fee, block)
    }

    /// Reward-per-share once the rewards due at `block` are distributed.
    pub open spec fn rps_at(&self, block: int) -> int {
        self.reward_per_share + rps_increase_spec(
            self.due_rewards(block),
            self.division_safety_constant as int,
            self.farm_token_supply as int,
        )
    }

    /// The reward fields of `other` are those of this farm once the rewards due at `block`
    /// are distributed, its reward reserve less `paid`.
    pub open spec fn rewards_moved(&self, other: &Farm, block: int, paid: int) -> bool {
        &&& self.same_config(other)
        &&& other.reward_per_share == self.rps_at(block)
        &&& other.reward_reserve == self.reward_reserve + self.due_rewards(block) - paid
        &&& other.last_reward_block_nonce == if block > self.last_reward_block_nonce {
            block
        } else {
            self.last_reward_block_nonce as int
        }
        &&& other.undistributed_fee == 0
        &&& other.current_block_fee == match self.current_block_fee {
            Some((b, f)) => if block > b {
                None
            } else {
                Some((b, f))
            },
            None => None,
        }
    }

    /// Whether `other` is this farm after the rewards due at `block` were distributed.
    pub open spec fn rewards_generated(&self, other: &Farm, block: int) -> bool {
        &&& self.rewards_moved(other, block, 0)
        &&& other.farming_token_reserve == self.farming_token_reserve
        &&& other.farm_token_supply == self.farm_token_supply
        &&& other.farm_token_nonce == self.farm_token_nonce
    }

    /// Whether distributing the rewards due at `block` fits in amounts.
    pub open spec fn rewards_fit(&self, block: int) -> bool {
        let minted = per_block_rewards_spec(self.per_block_reward_amount as int, self.last_reward_block_nonce as int, block);
        let increase = minted + fees_due_spec(self.undistributed_fee as int, self.current_block_fee, block);
        &&& fits(minted)
        &&& fits(fees_due_spec(self.undistributed_fee as int, self.current_block_fee, block))
        &&& fits(increase)
        &&& (self.farm_token_supply == 0 || fits(increase * self.division_safety_constant))
        &&& fits(self.reward_per_share + rps_increase_spec(increase, self.division_safety_constant as int, self.farm_token_supply as int))
        &&& fits(self.reward_reserve + increase)
    }

    /// Distributes the rewards due at `block`: those minted per block since the last reward
    /// and the fees of earlier blocks, raising reward-per-share by their share per farm token.
    /// `Err`, with the farm as it was, where an amount would overflow.
    pub fn generate_aggregated_rewards(&mut self, block: u64) -> (r: Result<(), FarmError>)
        requires
            old(self).wf(),
        ensures
            final(self).wf(),
            r is Ok <==> old(self).rewards_fit(block as int),
            r is Ok ==> old(self).rewards_generated(final(self), block as int),
            r is Ok ==> final(self).reward_per_share == old(self).rps_at(block as int),
            r is Err ==> r == Err::<(), FarmError>(FarmError::ArithmeticOverflow) && old(self).unchanged(final(self)),
    {
        let minted = match self.calculate_per_block_rewards(block) {
            Some(v) => v,
            None => return Err(FarmError::ArithmeticOverflow),
        };
        let (due_fee, keep_current) = match self.current_block_fee {
            Some((b, f)) => if block > b {
                (f, false)
            } else {
                (0, true)
            },
            None => (0, true),
        };
        let fees = match self.undistributed_fee.checked_add(due_fee) {
            Some(v) => v,
            None => return Err(FarmError::ArithmeticOverflow),
        };
        let increase = match minted.checked_add(fees) {
            Some(v) => v,
            None => return Err(FarmError::ArithmeticOverflow),
        };
        let rps_increase = match self.calculate_reward_per_share_increase(increase) {
            Some(v) => v,
            None => return Err(FarmError::ArithmeticOverflow),
        };
        let new_rps = match self.reward_per_share.checked_add(rps_increase) {
            Some(v) => v,
            None => return Err(FarmError::ArithmeticOverflow),
        };
        let new_reserve = match self.reward_reserve.checked_add(increase) {
            Some(v) => v,
            None => return Err(FarmError::ArithmeticOverflow),
        };
        self.reward_per_share = new_rps;
        self.reward_reserve = new_reserve;
        if block > self.last_reward_block_nonce {
            self.last_reward_block_nonce = block;
        }
        self.undistributed_fee = 0;
        if !keep_current {
            self.current_block_fee = None;
        }
        Ok(())
    }

    /// Takes a fee in the reward token, paid at `block`; it is distributed from the next
    /// block on.
    pub fn accept_fee(&mut self, token_in: &TokenIdentifier, amount: u128, block: u64) -> (r: Result<(), FarmError>)
        requires
            old(self).wf(),
        ensures
            final(self).wf(),
            token_in@ != old(self).reward_token_id@ ==> r == Err::<(), FarmError>(FarmError::BadFeeToken),
            token_in@ == old(self).reward_token_id@ && amount == 0 ==> r == Err::<(), FarmError>(FarmError::ZeroAmount),
            r is Err ==> old(self).unchanged(final(self)),
            r is Ok <==> token_in@ == old(self).reward_token_id@ && amount > 0 && match old(self).current_block_fee {
                Some((b, f)) => if b == block {
                    fits(f + amount)
                } else {
                    fits(old(self).undistributed_fee + f)
                },
                None => true,
            },
            r is Ok ==> token_in@ == old(self).reward_token_id@ && amount > 0 && old(self).same_config(final(self))
                && final(self).reward_per_share == old(self).reward_per_share
                && final(self).reward_reserve == old(self).reward_reserve
                && final(self).farm_token_supply == old(self).farm_token_supply
                && final(self).farming_token_reserve == old(self).farming_token_reserve
                && final(self).farm_token_nonce == old(self).farm_token_nonce
                && final(self).last_reward_block_nonce == old(self).last_reward_block_nonce
                && final(self).undistributed_fee + (final(self).current_block_fee->0).1 == old(self).undistributed_fee
                + amount + match old(self).current_block_fee {
                Some((_, f)) => f as int,
                None => 0,
            } && (final(self).current_block_fee->0).0 == block,
    {
        if !token_in.same_as(&self.reward_token_id) {
            return Err(FarmError::BadFeeToken);
        }
        if amount == 0 {
            return Err(FarmError::ZeroAmount);
        }
        match self.current_block_fee {
            Some((b, f)) => {
                if b == block {
                    match f.checked_add(amount) {
                        Some(v) => {
                            self.current_block_fee = Some((b, v));
                        },
                        None => return Err(FarmError::ArithmeticOverflow),
                    }
                } else {
                    match self.undistributed_fee.checked_add(f) {
                        Some(v) => {
                            self.undistributed_fee = v;
                            self.current_block_fee = Some((block, amount));
                        },
                        None => return Err(FarmError::ArithmeticOverflow),
                    }
                }
            },
            None => {
                self.current_block_fee = Some((block, amount));
            },
        }
        Ok(())
    }

    fn exit_amounts(&self, amount: u128, reward: u128, penalized: bool, with_locked_rewards: bool, apr_multiplier: u8) -> (r:
        Result<(u128, u128, u128, u128), FarmError>)
        requires
            self.wf(),
        ensures
            match exit_amounts_spec(
                amount as int,
                reward as int,
                penalized,
                self.penalty_percent as int,
                with_locked_rewards,
                apr_multiplier as int,
            ) {
                Ok((a, b, c, d)) => r matches Ok((w, x, y, z)) && w == a && x == b && y == c && z == d,
                Err(e) => r matches Err(x) && x == e,
            },
    {
        let reward_penalty = if penalized { self.get_penalty_amount(reward) } else { 0 };
        let farming_penalty = if penalized { self.get_penalty_amount(amount) } else { 0 };
        let farming = amount - farming_penalty;
        if with_locked_rewards {
            if apr_multiplier == 0 {
                return Err(FarmError::ZeroMultiplier);
            }
            let sent = farming / (apr_multiplier as u128);
            if sent == 0 {
                return Err(FarmError::ZeroFarmingAmount);
            }
            Ok((sent, reward - reward_penalty, farming_penalty, reward_penalty))
        } else {
            Ok((farming, reward - reward_penalty, farming_penalty, reward_penalty))
        }
    }

    pub open spec fn enter_farm_error(&self, token_in: Seq<u8>, enter_amount: int) -> Option<FarmError> {
        if self.state != State::Active {
            Some(FarmError::NotActive)
        } else if self.farm_token_id is None {
            Some(FarmError::NoFarmToken)
        } else if token_in != self.farming_token_id@ {
            Some(FarmError::BadInputToken)
        } else if enter_amount == 0 {
            Some(FarmError::ZeroAmount)
        } else {
            None
        }
    }

    /// Stakes `enter_amount` farming tokens at `block` and `epoch`. Mints farm tokens of a new
    /// nonce for the position, recording the reward-per-share of the moment. Returns them and
    /// the position's attributes. On an error the farm is left as it was.
    pub fn enter_farm(
        &mut self,
        token_in: &TokenIdentifier,
        enter_amount: u128,
        with_locked_rewards: bool,
        block: u64,
        epoch: Epoch,
    ) -> (r: Result<(GenericTokenAmountPair, FarmTokenAttributes), FarmError>)
        requires
            old(self).wf(),
        ensures
            final(self).wf(),
            r is Err ==> old(self).unchanged(final(self)),
            old(self).enter_farm_error(token_in@, enter_amount as int) matches Some(e) ==> (r matches Err(x) && x == e),
            r matches Ok((token, attributes)) ==> {
                let multiplier = if with_locked_rewards { old(self).locked_rewards_apr_multiplier } else { 1u8 };
                &&& old(self).enter_farm_error(token_in@, enter_amount as int) is None
                &&& old(self).rewards_moved(final(self), block as int, 0)
                &&& final(self).farming_token_reserve == old(self).farming_token_reserve + enter_amount
                &&& final(self).farm_token_supply == old(self).farm_token_supply + enter_amount * multiplier
                &&& final(self).farm_token_nonce == old(self).farm_token_nonce + 1
                &&& opt_id(old(self).farm_token_id) == Some(token.token_id@)
                &&& token.token_nonce == final(self).farm_token_nonce
                &&& token.amount == enter_amount * multiplier
                &&& attributes.reward_per_share == old(self).rps_at(block as int)
                &&& attributes.original_entering_epoch == epoch
                &&& attributes.entering_epoch == epoch
                &&& attributes.apr_multiplier == multiplier
                &&& attributes.with_locked_rewards == with_locked_rewards
                &&& attributes.initial_farming_amount == enter_amount
                &&& attributes.compounded_reward == 0
                &&& attributes.current_farm_amount == token.amount
            },
            old(self).enter_farm_error(token_in@, enter_amount as int) is None ==> (r is Err <==> {
                let multiplier = if with_locked_rewards { old(self).locked_rewards_apr_multiplier } else { 1u8 };
                ||| !fits(old(self).farming_token_reserve + enter_amount)
                ||| !fits(enter_amount * multiplier)
                ||| !old(self).rewards_fit(block as int)
                ||| !fits(old(self).farm_token_supply + enter_amount * multiplier)
                ||| old(self).farm_token_nonce == u64::MAX
            }),
    {
        if !self.is_active() {
            return Err(FarmError::NotActive);
        }
        let farm_token_id = match &self.farm_token_id {
            Some(id) => id.copy(),
            None => return Err(FarmError::NoFarmToken),
        };
        if !token_in.same_as(&self.farming_token_id) {
            return Err(FarmError::BadInputToken);
        }
        if enter_amount == 0 {
            return Err(FarmError::ZeroAmount);
        }
        let new_reserve = match self.farming_token_reserve.checked_add(enter_amount) {
            Some(v) => v,
            None => return Err(FarmError::ArithmeticOverflow),
        };
        let (contribution, multiplier) = match self.get_farm_contribution(enter_amount, with_locked_rewards) {
            Some(c) => c,
            None => return Err(FarmError::ArithmeticOverflow),
        };
        if !self.rewards_fit_exec(block) {
            return Err(FarmError::ArithmeticOverflow);
        }
        let new_supply = match self.farm_token_supply.checked_add(contribution) {
            Some(v) => v,
            None => return Err(FarmError::ArithmeticOverflow),
        };
        if self.farm_token_nonce == u64::MAX {
            return Err(FarmError::ArithmeticOverflow);
        }
        let generated = self.generate_aggregated_rewards(block);
        assert(generated is Ok);
        self.farming_token_reserve = new_reserve;
        self.farm_token_supply = new_supply;
        self.farm_token_nonce = self.farm_token_nonce + 1;
        let attributes = FarmTokenAttributes {
            reward_per_share: self.reward_per_share,
            original_entering_epoch: epoch,
            entering_epoch: epoch,
            apr_multiplier: multiplier,
            with_locked_rewards,
            initial_farming_amount: enter_amount,
            compounded_reward: 0,
            current_farm_amount: contribution,
        };
        Ok((GenericTokenAmountPair::new(&farm_token_id, self.farm_token_nonce, contribution), attributes))
    }

    /// Whether the rewards due at `block` can be distributed without overflow.
    pub fn rewards_fit_exec(&self, block: u64) -> (r: bool)
        ensures
            r == self.rewards_fit(block as int),
    {
        let minted = match self.calculate_per_block_rewards(block) {
            Some(v) => v,
            None => return false,
        };
        let due_fee = match self.current_block_fee {
            Some((b, f)) => if block > b {
                f
            } else {
                0
            },
            None => 0,
        };
        let fees = match self.undistributed_fee.checked_add(due_fee) {
            Some(v) => v,
            None => return false,
        };
        let increase = match minted.checked_add(fees) {
            Some(v) => v,
            None => return false,
        };
        let rps_increase = match self.calculate_reward_per_share_increase(increase) {
            Some(v) => v,
            None => return false,
        };
        self.reward_per_share.checked_add(rps_increase).is_some() && self.reward_reserve.checked_add(increase).is_some()
    }

    pub open spec fn exit_farm_error(&self, payment_token_id: Seq<u8>, amount: int, attributes: FarmTokenAttributes, epoch: int) -> Option<
        FarmError,
    > {
        if self.farm_token_id is None {
            Some(FarmError::NoFarmToken)
        } else if payment_token_id != self.farm_token_id->0@ {
            Some(FarmError::BadInputToken)
        } else if amount == 0 {
            Some(FarmError::ZeroAmount)
        } else if attributes.with_locked_rewards && attributes.entering_epoch + self.minimum_farming_epochs > epoch {
            Some(FarmError::ExitTooEarly)
        } else {
            None
        }
    }

    /// Leaves a position with `amount` of its farm tokens, whose attributes are given, at
    /// `block` and `epoch`. Pays its reward since entry and sends back the farming tokens,
    /// both less the penalty while the position is younger than the minimum farming epochs;
    /// a position with locked rewards gets back its farming tokens divided by its
    /// multiplier, and may not leave early. On an error the farm is left as it was.
    pub fn exit_farm(
        &mut self,
        payment_token_id: &TokenIdentifier,
        amount: u128,
        attributes: &FarmTokenAttributes,
        block: u64,
        epoch: Epoch,
    ) -> (r: Result<ExitFarmOutcome, FarmError>)
        requires
            old(self).wf(),
        ensures
            final(self).wf(),
            r is Err ==> old(self).unchanged(final(self)),
            old(self).exit_farm_error(payment_token_id@, amount as int, *attributes, epoch as int) matches Some(e) ==> (r matches Err(
                x,
            ) && x == e),
            old(self).exit_farm_error(payment_token_id@, amount as int, *attributes, epoch as int) is None ==> (r is Ok
                <==> old(self).exit_farm_fits(amount as int, *attributes, block as int, epoch as int)),
            r matches Ok(out) ==> {
                let reward = reward_spec(
                    amount as int,
                    old(self).rps_at(block as int),
                    attributes.reward_per_share as int,
                    old(self).division_safety_constant as int,
                );
                let penalized = attributes.entering_epoch + old(self).minimum_farming_epochs > epoch;
                &&& old(self).exit_farm_error(payment_token_id@, amount as int, *attributes, epoch as int) is None
                &&& exit_amounts_spec(
                    amount as int,
                    reward,
                    penalized,
                    old(self).penalty_percent as int,
                    attributes.with_locked_rewards,
                    attributes.apr_multiplier as int,
                ) == Ok::<(int, int, int, int), FarmError>(
                    (
                        out.farming_token_amount as int,
                        out.reward_amount as int,
                        out.farming_penalty as int,
                        out.reward_penalty as int,
                    ),
                )
                &&& old(self).rewards_moved(final(self), block as int, reward)
                &&& final(self).farm_token_supply == old(self).farm_token_supply - amount
                &&& final(self).farming_token_reserve == old(self).farming_token_reserve - out.farming_token_amount
                &&& final(self).farm_token_nonce == old(self).farm_token_nonce
            },
    {
        let farm_token_id = match &self.farm_token_id {
            Some(id) => id.copy(),
            None => return Err(FarmError::NoFarmToken),
        };
        if !payment_token_id.same_as(&farm_token_id) {
            return Err(FarmError::BadInputToken);
        }
        if amount == 0 {
            return Err(FarmError::ZeroAmount);
        }
        let penalized = self.should_apply_penalty(attributes.entering_epoch, epoch);
        if attributes.with_locked_rewards && penalized {
            return Err(FarmError::ExitTooEarly);
        }
        if !self.rewards_fit_exec(block) {
            return Err(FarmError::ArithmeticOverflow);
        }
        let rps = self.future_reward_per_share(block);
        let reward = match self.calculate_reward(amount, rps, attributes.reward_per_share) {
            Some(v) => v,
            None => return Err(FarmError::ArithmeticOverflow),
        };
        let reserve_after = self.future_reward_reserve(block);
        if reserve_after < reward {
            return Err(FarmError::NotEnoughRewardReserve);
        }
        if self.farm_token_supply < amount {
            return Err(FarmError::NotEnoughSupply);
        }
        let (farming, reward_paid, farming_penalty, reward_penalty) = self.exit_amounts(
            amount,
            reward,
            penalized,
            attributes.with_locked_rewards,
            attributes.apr_multiplier,
        )?;
        if self.farming_token_reserve < farming {
            return Err(FarmError::NotEnoughFarmingReserve);
        }
        let generated = self.generate_aggregated_rewards(block);
        assert(generated is Ok);
        self.reward_reserve = self.reward_reserve - reward;
        self.farm_token_supply = self.farm_token_supply - amount;
        self.farming_token_reserve = self.farming_token_reserve - farming;
        Ok(ExitFarmOutcome { farming_token_amount: farming, reward_amount: reward_paid, farming_penalty, reward_penalty })
    }

    /// Whether an exit that passed its checks can be paid: amounts fit, the reward reserve,
    /// the farm token supply and the farming reserve cover it, and a position with locked
    /// rewards gets back a non-zero amount.
    pub open spec fn exit_farm_fits(&self, amount: int, attributes: FarmTokenAttributes, block: int, epoch: int) -> bool {
        let rps = self.rps_at(block);
        let reward = reward_spec(amount, rps, attributes.reward_per_share as int, self.division_safety_constant as int);
        let penalized = attributes.entering_epoch + self.minimum_farming_epochs > epoch;
        &&& self.rewards_fit(block)
        &&& (rps <= attributes.reward_per_share || fits(amount * (rps - attributes.reward_per_share)))
        &&& self.reward_reserve + self.due_rewards(block) >= reward
        &&& self.farm_token_supply >= amount
        &&& match exit_amounts_spec(
            amount,
            reward,
            penalized,
            self.penalty_percent as int,
            attributes.with_locked_rewards,
            attributes.apr_multiplier as int,
        ) {
            Ok((farming, _, _, _)) => self.farming_token_reserve >= farming,
            Err(_) => false,
        }
    }

    /// Reward-per-share once the rewards due at `block` are distributed.
    pub fn future_reward_per_share(&self, block: u64) -> (r: u128)
        requires
            self.rewards_fit(block as int),
        ensures
            r == self.rps_at(block as int),
    {
        let minted = self.calculate_per_block_rewards(block).unwrap();
        let due_fee = match self.current_block_fee {
            Some((b, f)) => if block > b {
                f
            } else {
                0
            },
            None => 0,
        };
        let increase = minted + self.undistributed_fee + due_fee;
        self.reward_per_share + self.calculate_reward_per_share_increase(increase).unwrap()
    }

    fn future_reward_reserve(&self, block: u64) -> (r: u128)
        requires
            self.rewards_fit(block as int),
        ensures
            r == self.reward_reserve + self.due_rewards(block as int),
    {
        let minted = self.calculate_per_block_rewards(block).unwrap();
        let due_fee = match self.current_block_fee {
            Some((b, f)) => if block > b {
                f
            } else {
                0
            },
            None => 0,
        };
        self.reward_reserve + minted + self.undistributed_fee + due_fee
    }

    pub open spec fn claim_rewards_error(&self, payment_token_id: Seq<u8>, amount: int) -> Option<FarmError> {
        if self.state != State::Active {
            Some(FarmError::NotActive)
        } else if self.farm_token_id is None {
            Some(FarmError::NoFarmToken)
        } else if amount == 0 {
            Some(FarmError::ZeroAmount)
        } else if payment_token_id != self.farm_token_id->0@ {
            Some(FarmError::BadInputToken)
        } else {
            None
        }
    }

    /// Pays the reward of `amount` farm tokens of a position at `block` and replaces them by
    /// as many farm tokens of a new nonce, which record the current reward-per-share and keep
    /// the rest of the attributes. Returns the new tokens, their attributes and the reward.
    /// On an error the farm is left as it was.
    pub fn claim_rewards(
        &mut self,
        payment_token_id: &TokenIdentifier,
        amount: u128,
        attributes: &FarmTokenAttributes,
        block: u64,
    ) -> (r: Result<(GenericTokenAmountPair, FarmTokenAttributes, u128), FarmError>)
        requires
            old(self).wf(),
        ensures
            final(self).wf(),
            r is Err ==> old(self).unchanged(final(self)),
            old(self).claim_rewards_error(payment_token_id@, amount as int) matches Some(e) ==> (r matches Err(x) && x == e),
            old(self).claim_rewards_error(payment_token_id@, amount as int) is None ==> (r is Ok <==> {
                let rps = old(self).rps_at(block as int);
                &&& old(self).rewards_fit(block as int)
                &&& (rps <= attributes.reward_per_share || fits(amount * (rps - attributes.reward_per_share)))
                &&& old(self).reward_reserve + old(self).due_rewards(block as int) >= reward_spec(
                    amount as int,
                    rps,
                    attributes.reward_per_share as int,
                    old(self).division_safety_constant as int,
                )
                &&& old(self).farm_token_supply >= amount
                &&& old(self).farm_token_nonce < u64::MAX
            }),
            r matches Ok((token, new_attributes, reward)) ==> {
                &&& old(self).claim_rewards_error(payment_token_id@, amount as int) is None
                &&& reward == reward_spec(
                    amount as int,
                    old(self).rps_at(block as int),
                    attributes.reward_per_share as int,
                    old(self).division_safety_constant as int,
                )
                &&& old(self).rewards_moved(final(self), block as int, reward as int)
                &&& final(self).farm_token_supply == old(self).farm_token_supply
                &&& final(self).farming_token_reserve == old(self).farming_token_reserve
                &&& final(self).farm_token_nonce == old(self).farm_token_nonce + 1
                &&& token.token_id@ == payment_token_id@
                &&& token.token_nonce == final(self).farm_token_nonce
                &&& token.amount == amount
                &&& new_attributes == FarmTokenAttributes {
                    reward_per_share: old(self).rps_at(block as int) as u128,
                    ..*attributes
                }
            },
    {
        if !self.is_active() {
            return Err(FarmError::NotActive);
        }
        let farm_token_id = match &self.farm_token_id {
            Some(id) => id.copy(),
            None => return Err(FarmError::NoFarmToken),
        };
        if amount == 0 {
            return Err(FarmError::ZeroAmount);
        }
        if !payment_token_id.same_as(&farm_token_id) {
            return Err(FarmError::BadInputToken);
        }
        if !self.rewards_fit_exec(block) {
            return Err(FarmError::ArithmeticOverflow);
        }
        let rps = self.future_reward_per_share(block);
        let reward = match self.calculate_reward(amount, rps, attributes.reward_per_share) {
            Some(v) => v,
            None => return Err(FarmError::ArithmeticOverflow),
        };
        if self.future_reward_reserve(block) < reward {
            return Err(FarmError::NotEnoughRewardReserve);
        }
        if self.farm_token_supply < amount {
            return Err(FarmError::NotEnoughSupply);
        }
        if self.farm_token_nonce == u64::MAX {
            return Err(FarmError::ArithmeticOverflow);
        }
        let generated = self.generate_aggregated_rewards(block);
        assert(generated is Ok);
        self.reward_reserve = self.reward_reserve - reward;
        self.farm_token_nonce = self.farm_token_nonce + 1;
        let new_attributes = FarmTokenAttributes { reward_per_share: self.reward_per_share, ..*attributes };
        Ok((GenericTokenAmountPair::new(&farm_token_id, self.farm_token_nonce, amount), new_attributes, reward))
    }

    /// Reward that `amount` farm tokens of a position would get on exit at `block` and
    /// `epoch`, less the penalty where it applies.
    pub fn calculate_rewards_for_given_position(
        &self,
        amount: u128,
        attributes: &FarmTokenAttributes,
        block: u64,
        epoch: Epoch,
    ) -> (r: Result<u128, FarmError>)
        requires
            self.wf(),
        ensures
            amount == 0 ==> r == Err::<u128, FarmError>(FarmError::ZeroAmount),
            amount > 0 && self.farm_token_supply < amount ==> r == Err::<u128, FarmError>(FarmError::NotEnoughSupply),
            amount > 0 && self.farm_token_supply >= amount ==> {
                let rps = self.rps_at(block as int);
                let reward = reward_spec(
                    amount as int,
                    rps,
                    attributes.reward_per_share as int,
                    self.division_safety_constant as int,
                );
                if !self.rewards_fit(block as int) || !(rps <= attributes.reward_per_share || fits(
                    amount * (rps - attributes.reward_per_share),
                )) {
                    r == Err::<u128, FarmError>(FarmError::ArithmeticOverflow)
                } else if attributes.entering_epoch + self.minimum_farming_epochs > epoch {
                    r == Ok::<u128, FarmError>((reward - penalty_spec(reward, self.penalty_percent as int)) as u128)
                } else {
                    r == Ok::<u128, FarmError>(reward as u128)
                }
            },
    {
        if amount == 0 {
            return Err(FarmError::ZeroAmount);
        }
        if self.farm_token_supply < amount {
            return Err(FarmError::NotEnoughSupply);
        }
        if !self.rewards_fit_exec(block) {
            return Err(FarmError::ArithmeticOverflow);
        }
        let rps = self.future_reward_per_share(block);
        let reward = match self.calculate_reward(amount, rps, attributes.reward_per_share) {
            Some(v) => v,
            None => return Err(FarmError::ArithmeticOverflow),
        };
        if self.should_apply_penalty(attributes.entering_epoch, epoch) {
            Ok(reward - self.get_penalty_amount(reward))
        } else {
            Ok(reward)
        }
    }

    /// Records the farm token once it is issued; a later issue does not replace it.
    pub fn set_farm_token_id(&mut self, token_id: TokenIdentifier)
        ensures
            old(self).farm_token_id is None ==> opt_id(final(self).farm_token_id) == Some(token_id@),
            old(self).farm_token_id is Some ==> opt_id(final(self).farm_token_id) == opt_id(old(self).farm_token_id),
            final(self).wf() == old(self).wf(),
            old(self).same_accounting(final(self)),
    {
        if self.farm_token_id.is_none() {
            self.farm_token_id = Some(token_id);
        }
    }

    /// Sets the penalty percent, at most the whole amount.
    pub fn set_penalty_percent(&mut self, caller: &Address, percent: u64) -> (r: Result<(), FarmError>)
        requires
            old(self).wf(),
        ensures
            final(self).wf(),
            old(self).same_accounting(final(self)),
            !(caller@ == old(self).owner@ || caller@ == old(self).router_address@) ==> r == Err::<(), FarmError>(FarmError::PermissionDenied),
            (caller@ == old(self).owner@ || caller@ == old(self).router_address@) && percent > MAX_PENALTY_PERCENT ==> r == Err::<(), FarmError>(FarmError::PercentTooLarge),
            r is Err ==> old(self).unchanged(final(self)),
            r is Ok ==> *final(self) == (Farm { penalty_percent: percent, ..*old(self) }),
    {
        self.require_permissions(caller)?;
        if percent > MAX_PENALTY_PERCENT {
            return Err(FarmError::PercentTooLarge);
        }
        self.penalty_percent = percent;
        Ok(())
    }

    /// Sets the multiplier of positions with locked rewards, which may not be zero.
    pub fn set_locked_rewards_apr_multiplier(&mut self, caller: &Address, multiplier: u8) -> (r: Result<(), FarmError>)
        requires
            old(self).wf(),
        ensures
            final(self).wf(),
            !(caller@ == old(self).owner@ || caller@ == old(self).router_address@) ==> r == Err::<(), FarmError>(FarmError::PermissionDenied),
            (caller@ == old(self).owner@ || caller@ == old(self).router_address@) && multiplier == 0 ==> r == Err::<(), FarmError>(FarmError::ZeroMultiplier),
            r is Err ==> *final(self) == *old(self),
            r is Ok ==> *final(self) == (Farm { locked_rewards_apr_multiplier: multiplier, ..*old(self) }),
    {
        self.require_permissions(caller)?;
        if multiplier == 0 {
            return Err(FarmError::ZeroMultiplier);
        }
        self.locked_rewards_apr_multiplier = multiplier;
        Ok(())
    }

    pub fn set_minimum_farming_epochs(&mut self, caller: &Address, epochs: u8) -> (r: Result<(), FarmError>)
        requires
            old(self).wf(),
        ensures
            final(self).wf(),
            r == old(self).require_permissions_spec(caller@),
            r is Err ==> *final(self) == *old(self),
            r is Ok ==> *final(self) == (Farm { minimum_farming_epochs: epochs, ..*old(self) }),
    {
        self.require_permissions(caller)?;
        self.minimum_farming_epochs = epochs;
        Ok(())
    }

    pub fn set_transfer_exec_gas_limit(&mut self, caller: &Address, gas_limit: u64) -> (r: Result<(), FarmError>)
        requires
            old(self).wf(),
        ensures
            final(self).wf(),
            r == old(self).require_permissions_spec(caller@),
            r is Err ==> *final(self) == *old(self),
            r is Ok ==> *final(self) == (Farm { transfer_exec_gas_limit: gas_limit, ..*old(self) }),
    {
        self.require_permissions(caller)?;
        self.transfer_exec_gas_limit = gas_limit;
        Ok(())
    }

    /// Stops entries and claims; exits stay open.
    pub fn pause(&mut self, caller: &Address) -> (r: Result<(), FarmError>)
        requires
            old(self).wf(),
        ensures
            final(self).wf(),
            r == old(self).require_permissions_spec(caller@),
            r is Err ==> *final(self) == *old(self),
            r is Ok ==> *final(self) == (Farm { state: State::Inactive, ..*old(self) }),
    {
        self.require_permissions(caller)?;
        self.state = State::Inactive;
        Ok(())
    }

    pub fn resume(&mut self, caller: &Address) -> (r: Result<(), FarmError>)
        requires
            old(self).wf(),
        ensures
            final(self).wf(),
            r == old(self).require_permissions_spec(caller@),
            r is Err ==> *final(self) == *old(self),
            r is Ok ==> *final(self) == (Farm { state: State::Active, ..*old(self) }),
    {
        self.require_permissions(caller)?;
        self.state = State::Active;
        Ok(())
    }

    /// For the owner: sets the reward minted per block, counted from `block` on.
    pub fn start_produce_per_block_rewards(&mut self, caller: &Address, per_block_amount: u128, block: u64) -> (r: Result<
        (),
        FarmError,
    >)
        requires
            old(self).wf(),
        ensures
            final(self).wf(),
            r is Err <==> caller@ != old(self).owner@,
            r is Err ==> r == Err::<(), FarmError>(FarmError::PermissionDenied) && *final(self) == *old(self),
            r is Ok ==> *final(self) == (Farm {
                per_block_reward_amount: per_block_amount,
                last_reward_block_nonce: block,
                ..*old(self)
            }),
    {
        if !caller.same_as(&self.owner) {
            return Err(FarmError::PermissionDenied);
        }
        self.per_block_reward_amount = per_block_amount;
        self.last_reward_block_nonce = block;
        Ok(())
    }

    pub open spec fn require_permissions_spec(&self, caller: Seq<u8>) -> Result<(), FarmError> {
        if caller == self.owner@ || caller == self.router_address@ {
            Ok(())
        } else {
            Err(FarmError::PermissionDenied)
        }
    }
}

} // verus!
