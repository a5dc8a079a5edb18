use vstd::prelude::*;

use crate::common::{
    Address, FftTokenAmountPair, GenericTokenAmountPair, UnlockMilestone, WrappedFarmTokenAttributes,
    WrappedLpTokenAttributes,
};

verus! {

/// A swap of a pair, with the fee it took and the reserves after it.
pub struct SwapEvent {
    pub caller: Address,
    pub token_amount_in: FftTokenAmountPair,
    pub token_amount_out: FftTokenAmountPair,
    pub fee_amount: u128,
    pub pair_reserves: Vec<FftTokenAmountPair>,
    pub block: u64,
    pub epoch: u64,
    pub timestamp: u64,
}

/// A swap without fee whose output was forwarded.
pub struct SwapNoFeeAndForwardEvent {
    pub caller: Address,
    pub swap_out_token_amount: FftTokenAmountPair,
    pub destination: Address,
    pub block: u64,
    pub epoch: u64,
    pub timestamp: u64,
}

/// A deposit into a pair.
pub struct AddLiquidityEvent {
    pub caller: Address,
    pub first_token_amount: FftTokenAmountPair,
    pub second_token_amount: FftTokenAmountPair,
    pub lp_token_amount: FftTokenAmountPair,
    pub lp_supply: u128,
    pub pair_reserves: Vec<FftTokenAmountPair>,
    pub block: u64,
    pub epoch: u64,
    pub timestamp: u64,
}

/// A withdrawal from a pair.
pub struct RemoveLiquidityEvent {
    pub caller: Address,
    pub first_token_amount: FftTokenAmountPair,
    pub second_token_amount: FftTokenAmountPair,
    pub lp_token_amount: FftTokenAmountPair,
    pub lp_supply: u128,
    pub pair_reserves: Vec<FftTokenAmountPair>,
    pub block: u64,
    pub epoch: u64,
    pub timestamp: u64,
}

/// A pair deployed by the router.
pub struct CreatePairEvent {
    pub caller: Address,
    pub first_token_id: crate::common::TokenIdentifier,
    pub second_token_id: crate::common::TokenIdentifier,
    pub total_fee_percent: u64,
    pub special_fee_percent: u64,
    pub pair_address: Address,
    pub block: u64,
    pub epoch: u64,
    pub timestamp: u64,
}

/// A deposit into a pair through the proxy.
pub struct AddLiquidityProxyEvent {
    pub caller: Address,
    pub pair_address: Address,
    pub first_token_amount: GenericTokenAmountPair,
    pub second_token_amount: GenericTokenAmountPair,
    pub wrapped_lp_token_amount: GenericTokenAmountPair,
    pub wrapped_lp_attributes: WrappedLpTokenAttributes,
    pub created_with_merge: bool,
    pub block: u64,
    pub epoch: u64,
    pub timestamp: u64,
}

/// A withdrawal from a pair through the proxy.
pub struct RemoveLiquidityProxyEvent {
    pub caller: Address,
    pub pair_address: Address,
    pub wrapped_lp_token_amount: GenericTokenAmountPair,
    pub wrapped_lp_attributes: WrappedLpTokenAttributes,
    pub first_token_amount: GenericTokenAmountPair,
    pub second_token_amount: GenericTokenAmountPair,
    pub block: u64,
    pub epoch: u64,
    pub timestamp: u64,
}

/// A farm entered through the proxy.
pub struct EnterFarmProxyEvent {
    pub caller: Address,
    pub farm_address: Address,
    pub farming_token_amount: GenericTokenAmountPair,
    pub wrapped_farm_token_amount: GenericTokenAmountPair,
    pub wrapped_farm_attributes: WrappedFarmTokenAttributes,
    pub created_with_merge: bool,
    pub block: u64,
    pub epoch: u64,
    pub timestamp: u64,
}

/// A farm left through the proxy.
pub struct ExitFarmProxyEvent {
    pub caller: Address,
    pub farm_address: Address,
    pub wrapped_farm_token_amount: GenericTokenAmountPair,
    pub wrapped_farm_attributes: WrappedFarmTokenAttributes,
    pub farming_token_amount: GenericTokenAmountPair,
    pub reward_token_amount: GenericTokenAmountPair,
    pub block: u64,
    pub epoch: u64,
    pub timestamp: u64,
}

/// Rewards claimed through the proxy.
pub struct ClaimRewardsProxyEvent {
    pub caller: Address,
    pub farm_address: Address,
    pub old_wrapped_farm_token_amount: GenericTokenAmountPair,
    pub new_wrapped_farm_token_amount: GenericTokenAmountPair,
    pub reward_token_amount: GenericTokenAmountPair,
    pub old_wrapped_farm_attributes: WrappedFarmTokenAttributes,
    pub new_wrapped_farm_attributes: WrappedFarmTokenAttributes,
    pub created_with_merge: bool,
    pub block: u64,
    pub epoch: u64,
    pub timestamp: u64,
}

/// Rewards compounded through the proxy.
pub struct CompoundRewardsProxyEvent {
    pub caller: Address,
    pub farm_address: Address,
    pub old_wrapped_farm_token_amount: GenericTokenAmountPair,
    pub new_wrapped_farm_token_amount: GenericTokenAmountPair,
    pub old_wrapped_farm_attributes: WrappedFarmTokenAttributes,
    pub new_wrapped_farm_attributes: WrappedFarmTokenAttributes,
    pub created_with_merge: bool,
    pub block: u64,
    pub epoch: u64,
    pub timestamp: u64,
}

/// The unlock schedule of a locked asset token batch.
pub struct LockedAssetTokenAttributes {
    pub unlock_milestones: Vec<UnlockMilestone>,
    pub is_merged: bool,
}

/// Locked assets created and sent on by the locked asset factory.
pub struct CreateAndForwardEvent {
    pub caller: Address,
    pub destination: Address,
    pub locked_assets_token_amount: GenericTokenAmountPair,
    pub locked_assets_attributes: LockedAssetTokenAttributes,
    pub start_epoch: u64,
    pub block: u64,
    pub epoch: u64,
    pub timestamp: u64,
}

/// Locked assets unlocked by the locked asset factory.
pub struct UnlockAssetsEvent {
    pub caller: Address,
    pub input_locked_assets_token_amount: GenericTokenAmountPair,
    pub output_locked_assets_token_amount: GenericTokenAmountPair,
    pub assets_token_amount: FftTokenAmountPair,
    pub input_assets_attributes: LockedAssetTokenAttributes,
    pub output_assets_attributes: LockedAssetTokenAttributes,
    pub block: u64,
    pub epoch: u64,
    pub timestamp: u64,
}

} // verus!
