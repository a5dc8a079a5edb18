use vstd::prelude::*;

use crate::amm::fits;
use crate::common::{
    valid_esdt_identifier, Address, opt_id,
    FftTokenAmountPair, GenericTokenAmountPair, Nonce, TokenIdentifier, WrappedFarmTokenAttributes,
    WrappedLpTokenAttributes,
};

verus! {

/// Why the proxy refused an operation.
#[derive(Clone, Copy, Debug, PartialEq, Eq, Structural)]
pub enum ProxyError {
    InvalidAssetTokenId,
    InvalidLockedAssetTokenId,
    SameAssetTokens,
    PermissionDenied,
    NotIntermediatedPair,
    EmptyTokenId,
    EmptyDeposit,
    NotWrappedLpToken,
    NotWrappedFarmToken,
    LpTokenIdDiffers,
    FarmTokenIdDiffers,
    ZeroTotal,
    ZeroResult,
    BadPaymentsLen,
    IdenticalTokens,
    NotOneFungibleOneSemiFungible,
    ZeroAmount,
    SemiFungibleNotLockedAsset,
    ZeroLpReceived,
    BadTokenOrder,
    UsedMoreThanProvided,
    NoAssetTokenReturned,
    SftRequired,
    WrongInputToken,
    BadInputAddress,
    BadTokensReceived,
    AlreadyIssued,
    ArithmeticOverflow,
}

/// A wrapped LP token held by a user, with what it stands for.
#[derive(Clone, Debug)]
pub struct WrappedLpToken {
    pub token_amount: GenericTokenAmountPair,
    pub attributes: WrappedLpTokenAttributes,
}

/// A wrapped farm token held by a user, with what it stands for.
#[derive(Clone, Debug)]
pub struct WrappedFarmToken {
    pub token_amount: GenericTokenAmountPair,
    pub attributes: WrappedFarmTokenAttributes,
}

/// The part of `value` that `part` out of `total` stands for: `part * value / total`.
pub open spec fn rule_of_three_spec(part: int, total: int, value: int) -> int {
    part * value / total
}

/// Computes `part * value / total`; `None` where `total` is zero or the product exceeds an amount.
pub fn rule_of_three(part: u128, total: u128, value: u128) -> (r: Option<u128>)
    ensures
        r == if total > 0 && fits(part * value) {
            Some(rule_of_three_spec(part as int, total as int, value as int) as u128)
        } else {
            None::<u128>
        },
{
    if total == 0 {
        return None;
    }
    match part.checked_mul(value) {
        Some(p) => {
            assert(0 <= p / total <= p) by (nonlinear_arith)
                requires total >= 1, p >= 0;
            Some(p / total)
        },
        None => None,
    }
}

/// The rule of three where a zero result is an error: a part too small to stand for any
/// of the value.
pub fn rule_of_three_non_zero_result(part: u128, total: u128, value: u128) -> (r: Result<u128, ProxyError>)
    ensures
        total == 0 ==> r == Err::<u128, ProxyError>(ProxyError::ZeroTotal),
        total > 0 && !fits(part * value) ==> r == Err::<u128, ProxyError>(ProxyError::ArithmeticOverflow),
        total > 0 && fits(part * value) ==> r == if rule_of_three_spec(part as int, total as int, value as int) == 0 {
            Err::<u128, ProxyError>(ProxyError::ZeroResult)
        } else {
            Ok(rule_of_three_spec(part as int, total as int, value as int) as u128)
        },
{
    if total == 0 {
        return Err(ProxyError::ZeroTotal);
    }
    match rule_of_three(part, total, value) {
        Some(0) => Err(ProxyError::ZeroResult),
        Some(v) => Ok(v),
        None => Err(ProxyError::ArithmeticOverflow),
    }
}

/// Locked assets that a wrapped LP token stands for: its share of the assets invested.
pub open spec fn lp_locked_part(t: WrappedLpToken) -> int {
    rule_of_three_spec(
        t.token_amount.amount as int,
        t.attributes.lp_token_total_amount as int,
        t.attributes.locked_assets_invested as int,
    )
}

/// Whether the locked-asset part of a wrapped LP token can be computed and is not zero.
pub open spec fn lp_part_ok(t: WrappedLpToken) -> bool {
    &&& t.attributes.lp_token_total_amount > 0
    &&& fits(t.token_amount.amount * t.attributes.locked_assets_invested)
    &&& lp_locked_part(t) > 0
}

/// Farming tokens that a wrapped farm token stands for: its share of those entered.
pub open spec fn farm_farming_part(t: WrappedFarmToken) -> int {
    rule_of_three_spec(
        t.token_amount.amount as int,
        t.attributes.farm_token_amount as int,
        t.attributes.farming_token_amount as int,
    )
}

pub open spec fn farm_part_ok(t: WrappedFarmToken) -> bool {
    &&& t.attributes.farm_token_amount > 0
    &&& fits(t.token_amount.amount * t.attributes.farming_token_amount)
    &&& farm_farming_part(t) > 0
}

/// Sum of the amounts of a list of tokens.
pub open spec fn lp_amount_sum(s: Seq<WrappedLpToken>) -> int
    decreases s.len(),
{
    if s.len() == 0 {
        0
    } else {
        lp_amount_sum(s.drop_last()) + s.last().token_amount.amount
    }
}

/// Sum of the farming tokens that a list of wrapped farm tokens stands for.
pub open spec fn farm_parts_sum(s: Seq<WrappedFarmToken>) -> int
    decreases s.len(),
{
    if s.len() == 0 {
        0
    } else {
        farm_parts_sum(s.drop_last()) + farm_farming_part(s.last())
    }
}

/// Whether the locked-asset part of the wrapped LP tokens behind a wrapped farm token,
/// with the wrapped LP token's attributes, can be computed and is not zero.
pub open spec fn lp_of_farm_ok(t: WrappedFarmToken, a: WrappedLpTokenAttributes) -> bool {
    &&& a.lp_token_total_amount > 0
    &&& fits(farm_farming_part(t) * a.locked_assets_invested)
    &&& rule_of_three_spec(farm_farming_part(t), a.lp_token_total_amount as int, a.locked_assets_invested as int) > 0
}

proof fn lemma_farm_parts_sum(w: Seq<WrappedLpToken>, t: Seq<WrappedFarmToken>)
    requires
        w.len() == t.len(),
        forall|i: int| 0 <= i < w.len() ==> #[trigger] w[i].token_amount.amount == farm_farming_part(t[i]),
    ensures
        lp_amount_sum(w) == farm_parts_sum(t),
    decreases w.len(),
{
    if w.len() > 0 {
        lemma_farm_parts_sum(w.drop_last(), t.drop_last());
        assert(w.last().token_amount.amount == farm_farming_part(t.last()));
    }
}

/// Every token of a deposit is a wrapped LP token.
pub fn require_all_tokens_are_wrapped_lp_tokens(tokens: &Vec<GenericTokenAmountPair>, wrapped_lp_token_id: &TokenIdentifier) -> (r:
    Result<(), ProxyError>)
    ensures
        r is Ok <==> forall|i: int| 0 <= i < tokens@.len() ==> #[trigger] tokens@[i].token_id@ == wrapped_lp_token_id@,
        r is Err ==> r == Err::<(), ProxyError>(ProxyError::NotWrappedLpToken),
{
    let mut i: usize = 0;
    while i < tokens.len()
        invariant
            0 <= i <= tokens@.len(),
            forall|j: int| 0 <= j < i ==> #[trigger] tokens@[j].token_id@ == wrapped_lp_token_id@,
        decreases tokens@.len() - i,
    {
        if !tokens[i].token_id.same_as(wrapped_lp_token_id) {
            return Err(ProxyError::NotWrappedLpToken);
        }
        i = i + 1;
    }
    Ok(())
}

/// Every token of a deposit is a wrapped farm token.
pub fn require_all_tokens_are_wrapped_farm_tokens(tokens: &Vec<GenericTokenAmountPair>, wrapped_farm_token_id: &TokenIdentifier) -> (r:
    Result<(), ProxyError>)
    ensures
        r is Ok <==> forall|i: int| 0 <= i < tokens@.len() ==> #[trigger] tokens@[i].token_id@ == wrapped_farm_token_id@,
        r is Err ==> r == Err::<(), ProxyError>(ProxyError::NotWrappedFarmToken),
{
    let mut i: usize = 0;
    while i < tokens.len()
        invariant
            0 <= i <= tokens@.len(),
            forall|j: int| 0 <= j < i ==> #[trigger] tokens@[j].token_id@ == wrapped_farm_token_id@,
        decreases tokens@.len() - i,
    {
        if !tokens[i].token_id.same_as(wrapped_farm_token_id) {
            return Err(ProxyError::NotWrappedFarmToken);
        }
        i = i + 1;
    }
    Ok(())
}

/// All wrapped LP tokens stand for the LP token of one pair.
pub fn require_wrapped_lp_tokens_from_same_pair(tokens: &Vec<WrappedLpToken>) -> (r: Result<(), ProxyError>)
    requires
        tokens@.len() > 0,
    ensures
        r is Ok <==> forall|i: int|
            0 <= i < tokens@.len() ==> #[trigger] tokens@[i].attributes.lp_token_id@ == tokens@[0].attributes.lp_token_id@,
        r is Err ==> r == Err::<(), ProxyError>(ProxyError::LpTokenIdDiffers),
{
    let mut i: usize = 0;
    while i < tokens.len()
        invariant
            tokens@.len() > 0,
            0 <= i <= tokens@.len(),
            forall|j: int|
                0 <= j < i ==> #[trigger] tokens@[j].attributes.lp_token_id@ == tokens@[0].attributes.lp_token_id@,
        decreases tokens@.len() - i,
    {
        if !tokens[i].attributes.lp_token_id.same_as(&tokens[0].attributes.lp_token_id) {
            return Err(ProxyError::LpTokenIdDiffers);
        }
        i = i + 1;
    }
    Ok(())
}

/// All wrapped farm tokens stand for farm tokens of one farm.
pub fn require_wrapped_farm_tokens_from_same_farm(tokens: &Vec<WrappedFarmToken>) -> (r: Result<(), ProxyError>)
    requires
        tokens@.len() > 0,
    ensures
        r is Ok <==> forall|i: int|
            0 <= i < tokens@.len() ==> #[trigger] tokens@[i].attributes.farm_token_id@ == tokens@[0].attributes.farm_token_id@,
        r is Err ==> r == Err::<(), ProxyError>(ProxyError::FarmTokenIdDiffers),
{
    let mut i: usize = 0;
    while i < tokens.len()
        invariant
            tokens@.len() > 0,
            0 <= i <= tokens@.len(),
            forall|j: int|
                0 <= j < i ==> #[trigger] tokens@[j].attributes.farm_token_id@ == tokens@[0].attributes.farm_token_id@,
        decreases tokens@.len() - i,
    {
        if !tokens[i].attributes.farm_token_id.same_as(&tokens[0].attributes.farm_token_id) {
            return Err(ProxyError::FarmTokenIdDiffers);
        }
        i = i + 1;
    }
    Ok(())
}

/// Total amount of a list of wrapped LP tokens; `None` where it exceeds an amount.
pub fn get_merged_wrapped_lp_tokens_amount(tokens: &Vec<WrappedLpToken>) -> (r: Option<u128>)
    ensures
        r == if fits(lp_amount_sum(tokens@)) {
            Some(lp_amount_sum(tokens@) as u128)
        } else {
            None::<u128>
        },
{
    let mut total: u128 = 0;
    let mut i: usize = 0;
    proof {
        assert(tokens@.take(0) =~= Seq::<WrappedLpToken>::empty());
    }
    while i < tokens.len()
        invariant
            0 <= i <= tokens@.len(),
            total == lp_amount_sum(tokens@.take(i as int)),
        decreases tokens@.len() - i,
    {
        proof {
            assert(tokens@.take(i + 1).drop_last() =~= tokens@.take(i as int));
        }
        match total.checked_add(tokens[i].token_amount.amount) {
            Some(v) => total = v,
            None => {
                proof {
                    lemma_lp_sum_prefix(tokens@, i + 1);
                }
                return None;
            },
        }
        i = i + 1;
    }
    assert(tokens@.take(i as int) =~= tokens@);
    Some(total)
}

proof fn lemma_lp_sum_prefix(s: Seq<WrappedLpToken>, k: int)
    requires
        0 <= k <= s.len(),
    ensures
        lp_amount_sum(s.take(k)) <= lp_amount_sum(s),
    decreases s.len(),
{
    if k == s.len() {
        assert(s.take(k) =~= s);
    } else {
        assert(s.take(k) =~= s.drop_last().take(k));
        lemma_lp_sum_prefix(s.drop_last(), k);
    }
}

/// Attributes of the wrapped LP token made by a merge: the LP tokens it stands for and the
/// locked assets they were bought with.
pub fn get_merged_wrapped_lp_token_attributes(
    lp_token_amount: &FftTokenAmountPair,
    merged_locked_asset_token_amount: &GenericTokenAmountPair,
) -> (r: WrappedLpTokenAttributes)
    ensures
        r.lp_token_id@ == lp_token_amount.token_id@,
        r.lp_token_total_amount == lp_token_amount.amount,
        r.locked_assets_invested == merged_locked_asset_token_amount.amount,
        r.locked_assets_nonce == merged_locked_asset_token_amount.token_nonce,
{
    WrappedLpTokenAttributes {
        lp_token_id: lp_token_amount.token_id.copy(),
        lp_token_total_amount: lp_token_amount.amount,
        locked_assets_invested: merged_locked_asset_token_amount.amount,
        locked_assets_nonce: merged_locked_asset_token_amount.token_nonce,
    }
}

/// The locked assets that each wrapped LP token stands for, as amounts of the locked asset
/// token with the nonce it was invested with. A single part is the merge itself; several
/// are merged by the locked asset factory.
pub fn merge_locked_asset_tokens_from_wrapped_lp(tokens: &Vec<WrappedLpToken>, locked_asset_token_id: &TokenIdentifier) -> (r:
    Result<Vec<GenericTokenAmountPair>, ProxyError>)
    ensures
        r is Ok <==> forall|i: int| 0 <= i < tokens@.len() ==> #[trigger] lp_part_ok(tokens@[i]),
        r matches Ok(parts) ==> parts@.len() == tokens@.len() && forall|i: int|
            0 <= i < parts@.len() ==> {
                &&& #[trigger] parts@[i].token_id@ == locked_asset_token_id@
                &&& parts@[i].token_nonce == tokens@[i].attributes.locked_assets_nonce
                &&& parts@[i].amount == lp_locked_part(tokens@[i])
            },
{
    let mut parts: Vec<GenericTokenAmountPair> = Vec::new();
    let mut i: usize = 0;
    while i < tokens.len()
        invariant
            0 <= i <= tokens@.len(),
            parts@.len() == i,
            forall|j: int| 0 <= j < i ==> #[trigger] lp_part_ok(tokens@[j]),
            forall|j: int|
                0 <= j < i ==> {
                    &&& #[trigger] parts@[j].token_id@ == locked_asset_token_id@
                    &&& parts@[j].token_nonce == tokens@[j].attributes.locked_assets_nonce
                    &&& parts@[j].amount == lp_locked_part(tokens@[j])
                },
        decreases tokens@.len() - i,
    {
        let t = &tokens[i];
        let amount = match rule_of_three_non_zero_result(
            t.token_amount.amount,
            t.attributes.lp_token_total_amount,
            t.attributes.locked_assets_invested,
        ) {
            Ok(v) => v,
            Err(e) => {
                assert(!lp_part_ok(tokens@[i as int]));
                return Err(e);
            },
        };
        parts.push(GenericTokenAmountPair::new(locked_asset_token_id, t.attributes.locked_assets_nonce, amount));
        i = i + 1;
    }
    Ok(parts)
}

/// The farming tokens that each wrapped farm token stands for, with the farming token's
/// nonce, in the token given (the locked asset token or the wrapped LP token).
pub fn merge_farming_parts(tokens: &Vec<WrappedFarmToken>, token_id: &TokenIdentifier) -> (r: Result<
    Vec<GenericTokenAmountPair>,
    ProxyError,
>)
    ensures
        r is Ok <==> forall|i: int| 0 <= i < tokens@.len() ==> #[trigger] farm_part_ok(tokens@[i]),
        r matches Ok(parts) ==> parts@.len() == tokens@.len() && forall|i: int|
            0 <= i < parts@.len() ==> {
                &&& #[trigger] parts@[i].token_id@ == token_id@
                &&& parts@[i].token_nonce == tokens@[i].attributes.farming_token_nonce
                &&& parts@[i].amount == farm_farming_part(tokens@[i])
            },
{
    let mut parts: Vec<GenericTokenAmountPair> = Vec::new();
    let mut i: usize = 0;
    while i < tokens.len()
        invariant
            0 <= i <= tokens@.len(),
            parts@.len() == i,
            forall|j: int| 0 <= j < i ==> #[trigger] farm_part_ok(tokens@[j]),
            forall|j: int|
                0 <= j < i ==> {
                    &&& #[trigger] parts@[j].token_id@ == token_id@
                    &&& parts@[j].token_nonce == tokens@[j].attributes.farming_token_nonce
                    &&& parts@[j].amount == farm_farming_part(tokens@[j])
                },
        decreases tokens@.len() - i,
    {
        let t = &tokens[i];
        let amount = match rule_of_three_non_zero_result(
            t.token_amount.amount,
            t.attributes.farm_token_amount,
            t.attributes.farming_token_amount,
        ) {
            Ok(v) => v,
            Err(e) => {
                assert(!farm_part_ok(tokens@[i as int]));
                return Err(e);
            },
        };
        parts.push(GenericTokenAmountPair::new(token_id, t.attributes.farming_token_nonce, amount));
        i = i + 1;
    }
    Ok(parts)
}

/// The farm tokens that a list of wrapped farm tokens holds, to be merged by the farm.
pub fn merge_farm_tokens(tokens: &Vec<WrappedFarmToken>) -> (r: Vec<GenericTokenAmountPair>)
    ensures
        r@.len() == tokens@.len(),
        forall|i: int|
            0 <= i < r@.len() ==> {
                &&& #[trigger] r@[i].token_id@ == tokens@[i].attributes.farm_token_id@
                &&& r@[i].token_nonce == tokens@[i].attributes.farm_token_nonce
                &&& r@[i].amount == tokens@[i].token_amount.amount
            },
{
    let mut r: Vec<GenericTokenAmountPair> = Vec::new();
    let mut i: usize = 0;
    while i < tokens.len()
        invariant
            0 <= i <= tokens@.len(),
            r@.len() == i,
            forall|j: int|
                0 <= j < i ==> {
                    &&& #[trigger] r@[j].token_id@ == tokens@[j].attributes.farm_token_id@
                    &&& r@[j].token_nonce == tokens@[j].attributes.farm_token_nonce
                    &&& r@[j].amount == tokens@[j].token_amount.amount
                },
        decreases tokens@.len() - i,
    {
        let t = &tokens[i];
        r.push(GenericTokenAmountPair::new(&t.attributes.farm_token_id, t.attributes.farm_token_nonce, t.token_amount.amount));
        i = i + 1;
    }
    r
}


/// What a proxy does with its issue requests.
#[derive(Clone, Copy, Debug, PartialEq, Eq, Structural)]
pub enum IssueRequestType {
    ProxyFarm,
    ProxyPair,
}

/// The pair contracts through which the proxy adds liquidity; each appears once.
pub struct ProxyPairModule {
    pub intermediated_pairs: Vec<Address>,
}

impl ProxyPairModule {
    pub open spec fn pairs(&self) -> Seq<Seq<u8>> {
        self.intermediated_pairs@.map_values(|a: Address| a@)
    }

    pub open spec fn wf(&self) -> bool {
        self.pairs().no_duplicates()
    }

    pub fn new() -> (r: ProxyPairModule)
        ensures
            r.pairs().len() == 0,
            r.wf(),
    {
        let r = ProxyPairModule { intermediated_pairs: Vec::new() };
        assert(r.pairs() =~= Seq::<Seq<u8>>::empty());
        r
    }

    pub fn is_intermediated_pair(&self, address: &Address) -> (r: bool)
        ensures
            r == self.pairs().contains(address@),
    {
        let mut i: usize = 0;
        while i < self.intermediated_pairs.len()
            invariant
                0 <= i <= self.pairs().len(),
                forall|j: int| 0 <= j < i ==> self.pairs()[j] != address@,
            decreases self.pairs().len() - i,
        {
            if self.intermediated_pairs[i].same_as(address) {
                assert(self.pairs()[i as int] == address@);
                return true;
            }
            i = i + 1;
        }
        false
    }

    pub fn require_is_intermediated_pair(&self, address: &Address) -> (r: Result<(), ProxyError>)
        ensures
            r == if self.pairs().contains(address@) {
                Ok(())
            } else {
                Err::<(), ProxyError>(ProxyError::NotIntermediatedPair)
            },
    {
        if self.is_intermediated_pair(address) {
            Ok(())
        } else {
            Err(ProxyError::NotIntermediatedPair)
        }
    }

    /// Adds a pair contract; adding one twice keeps it once.
    pub(crate) fn add_pair_to_intermediate(&mut self, pair_address: Address)
        requires
            old(self).wf(),
        ensures
            final(self).wf(),
            old(self).pairs().contains(pair_address@) ==> final(self).pairs() == old(self).pairs(),
            !old(self).pairs().contains(pair_address@) ==> final(self).pairs() == old(self).pairs().push(pair_address@),
    {
        if !self.is_intermediated_pair(&pair_address) {
            let ghost before = self.pairs();
            self.intermediated_pairs.push(pair_address);
            assert(self.pairs() =~= before.push(pair_address@));
        }
    }

    /// Removes a pair contract, which must be there.
    pub(crate) fn remove_intermediated_pair(&mut self, pair_address: &Address) -> (r: Result<(), ProxyError>)
        requires
            old(self).wf(),
        ensures
            final(self).wf(),
            r is Err <==> !old(self).pairs().contains(pair_address@),
            r is Err ==> r == Err::<(), ProxyError>(ProxyError::NotIntermediatedPair) && final(self).pairs() == old(self).pairs(),
            r is Ok ==> exists|i: int|
                0 <= i < old(self).pairs().len() && old(self).pairs()[i] == pair_address@ && final(self).pairs()
                    == old(self).pairs().remove(i),
    {
        let mut i: usize = 0;
        while i < self.intermediated_pairs.len()
            invariant
                self.intermediated_pairs@ == old(self).intermediated_pairs@,
                old(self).wf(),
                0 <= i <= self.pairs().len(),
                forall|j: int| 0 <= j < i ==> self.pairs()[j] != pair_address@,
            decreases self.pairs().len() - i,
        {
            if self.intermediated_pairs[i].same_as(pair_address) {
                let ghost before = self.pairs();
                self.intermediated_pairs.remove(i);
                proof {
                    assert(self.pairs() =~= before.remove(i as int));
                    assert(before[i as int] == pair_address@);
                    assert(before.contains(pair_address@));
                    assert forall|x: int, y: int| 0 <= x < y < self.pairs().len() implies self.pairs()[x] != self.pairs()[y] by {
                        let ox = if x < i { x } else { x + 1 };
                        let oy = if y < i { y } else { y + 1 };
                        assert(before[ox] != before[oy]);
                    }
                }
                return Ok(());
            }
            i = i + 1;
        }
        assert(!old(self).pairs().contains(pair_address@)) by {
            if old(self).pairs().contains(pair_address@) {
                let k = choose|k: int| 0 <= k < old(self).pairs().len() && old(self).pairs()[k] == pair_address@;
                assert(self.pairs()[k] != pair_address@);
            }
        }
        assert(self.pairs() =~= old(self).pairs());
        Err(ProxyError::NotIntermediatedPair)
    }
}


/// The proxy: it adds liquidity with locked assets in their unlocked form and hands out
/// wrapped tokens that remember the locked assets behind them.
pub struct ProxyDexImpl {
    pub owner: Address,
    pub asset_token_id: TokenIdentifier,
    pub locked_asset_token_id: TokenIdentifier,
    pub wrapped_lp_token_id: Option<TokenIdentifier>,
    pub wrapped_farm_token_id: Option<TokenIdentifier>,
    pub wrapped_lp_token_nonce: Nonce,
    pub wrapped_farm_token_nonce: Nonce,
    pub pairs: ProxyPairModule,
}

/// What the proxy does after a pair added liquidity for it.
#[derive(Clone, Copy, Debug, PartialEq, Eq, Structural)]
pub struct AddLiquidityProxySettlement {
    /// Locked assets that went into the pool, as their unlocked asset.
    pub consumed_locked_tokens: u128,
    /// Nonce of the locked asset token that was paid.
    pub locked_asset_token_nonce: Nonce,
    /// Minted assets the pool did not take, to burn.
    pub unused_minted_assets: u128,
    /// Unused parts of the two payments, to send back.
    pub first_token_unused: u128,
    pub second_token_unused: u128,
}

/// What the proxy pays out after a pair removed liquidity for a wrapped LP token.
#[derive(Clone, Debug)]
pub struct RemoveLiquidityProxySettlement {
    /// The fungible token received from the pair, sent back as it is.
    pub fungible_token: FftTokenAmountPair,
    /// Locked assets sent back: the assets received, at most those invested.
    pub locked_assets_to_send: u128,
    /// Assets received above those invested, sent back unlocked.
    pub assets_surplus: u128,
    /// Locked assets invested above the assets received, burned.
    pub locked_assets_to_burn: u128,
}

pub open spec fn init_proxy_error(asset_token_id: Seq<u8>, locked_asset_token_id: Seq<u8>) -> Option<ProxyError> {
    if !valid_esdt_identifier(asset_token_id) {
        Some(ProxyError::InvalidAssetTokenId)
    } else if !valid_esdt_identifier(locked_asset_token_id) {
        Some(ProxyError::InvalidLockedAssetTokenId)
    } else if asset_token_id == locked_asset_token_id {
        Some(ProxyError::SameAssetTokens)
    } else {
        None
    }
}

/// The first check on the two payments of a liquidity deposit through the proxy that fails:
/// one fungible token and one locked asset token, both distinct and non-zero.
pub open spec fn add_liquidity_proxy_payments_error(payments: Seq<GenericTokenAmountPair>, locked_asset_token_id: Seq<u8>) -> Option<
    ProxyError,
> {
    if payments.len() != 2 {
        Some(ProxyError::BadPaymentsLen)
    } else if payments[0].token_id@ == payments[1].token_id@ {
        Some(ProxyError::IdenticalTokens)
    } else if !((payments[0].token_nonce == 0 && payments[1].token_nonce != 0) || (payments[0].token_nonce != 0
        && payments[1].token_nonce == 0)) {
        Some(ProxyError::NotOneFungibleOneSemiFungible)
    } else if payments[0].amount == 0 || payments[1].amount == 0 {
        Some(ProxyError::ZeroAmount)
    } else if !((payments[0].token_nonce != 0 && payments[0].token_id@ == locked_asset_token_id) || (payments[1].token_nonce
        != 0 && payments[1].token_id@ == locked_asset_token_id)) {
        Some(ProxyError::SemiFungibleNotLockedAsset)
    } else {
        None
    }
}

impl ProxyDexImpl {
    pub open spec fn wf(&self) -> bool {
        self.pairs.wf()
    }

    /// Deploys a proxy for an asset and its locked form, two distinct valid tokens.
    pub fn init(owner: Address, asset_token_id: TokenIdentifier, locked_asset_token_id: TokenIdentifier) -> (r: Result<
        ProxyDexImpl,
        ProxyError,
    >)
        ensures
            match init_proxy_error(asset_token_id@, locked_asset_token_id@) {
                Some(e) => r matches Err(x) && x == e,
                None => r matches Ok(p) && {
                    &&& p.wf()
                    &&& p.owner@ == owner@
                    &&& p.asset_token_id@ == asset_token_id@
                    &&& p.locked_asset_token_id@ == locked_asset_token_id@
                    &&& p.wrapped_lp_token_id is None
                    &&& p.wrapped_farm_token_id is None
                    &&& p.wrapped_lp_token_nonce == 0
                    &&& p.wrapped_farm_token_nonce == 0
                    &&& p.pairs.pairs().len() == 0
                },
            },
    {
        if !asset_token_id.is_valid_esdt_identifier() {
            return Err(ProxyError::InvalidAssetTokenId);
        }
        if !locked_asset_token_id.is_valid_esdt_identifier() {
            return Err(ProxyError::InvalidLockedAssetTokenId);
        }
        if asset_token_id.same_as(&locked_asset_token_id) {
            return Err(ProxyError::SameAssetTokens);
        }
        Ok(ProxyDexImpl {
            owner,
            asset_token_id,
            locked_asset_token_id,
            wrapped_lp_token_id: None,
            wrapped_farm_token_id: None,
            wrapped_lp_token_nonce: 0,
            wrapped_farm_token_nonce: 0,
            pairs: ProxyPairModule::new(),
        })
    }

    /// For the owner: checks that the wrapped token of this kind is not issued yet.
    pub fn issue_sft(&self, caller: &Address, request_type: IssueRequestType) -> (r: Result<(), ProxyError>)
        ensures
            caller@ != self.owner@ ==> r == Err::<(), ProxyError>(ProxyError::PermissionDenied),
            caller@ == self.owner@ ==> r == if (request_type == IssueRequestType::ProxyPair && self.wrapped_lp_token_id is Some)
                || (request_type == IssueRequestType::ProxyFarm && self.wrapped_farm_token_id is Some) {
                Err::<(), ProxyError>(ProxyError::AlreadyIssued)
            } else {
                Ok(())
            },
    {
        if !caller.same_as(&self.owner) {
            return Err(ProxyError::PermissionDenied);
        }
        let issued = match request_type {
            IssueRequestType::ProxyPair => self.wrapped_lp_token_id.is_some(),
            IssueRequestType::ProxyFarm => self.wrapped_farm_token_id.is_some(),
        };
        if issued {
            Err(ProxyError::AlreadyIssued)
        } else {
            Ok(())
        }
    }

    /// Records a wrapped token once its issue succeeded.
    pub fn issue_nft_callback(&mut self, request_type: IssueRequestType, token_id: TokenIdentifier)
        requires
            old(self).wf(),
        ensures
            final(self).wf(),
            request_type == IssueRequestType::ProxyPair ==> opt_id(final(self).wrapped_lp_token_id) == Some(token_id@)
                && opt_id(final(self).wrapped_farm_token_id) == opt_id(old(self).wrapped_farm_token_id),
            request_type == IssueRequestType::ProxyFarm ==> opt_id(final(self).wrapped_farm_token_id) == Some(token_id@)
                && opt_id(final(self).wrapped_lp_token_id) == opt_id(old(self).wrapped_lp_token_id),
            final(self).pairs.pairs() == old(self).pairs.pairs(),
    {
        match request_type {
            IssueRequestType::ProxyPair => self.wrapped_lp_token_id = Some(token_id),
            IssueRequestType::ProxyFarm => self.wrapped_farm_token_id = Some(token_id),
        }
    }

    /// Checks a liquidity deposit through the proxy before the pair is called: a known pair,
    /// an issued wrapped LP token, a deposit of wrapped LP tokens only, and two payments of
    /// one fungible token and one locked asset token.
    pub fn check_add_liquidity_proxy(
        &self,
        pair_address: &Address,
        deposit: &Vec<GenericTokenAmountPair>,
        payments: &Vec<GenericTokenAmountPair>,
    ) -> (r: Result<(), ProxyError>)
        ensures
            !self.pairs.pairs().contains(pair_address@) ==> r == Err::<(), ProxyError>(ProxyError::NotIntermediatedPair),
            self.pairs.pairs().contains(pair_address@) && self.wrapped_lp_token_id is None ==> r == Err::<(), ProxyError>(
                ProxyError::EmptyTokenId,
            ),
            self.pairs.pairs().contains(pair_address@) && self.wrapped_lp_token_id is Some ==> {
                if !(forall|i: int| 0 <= i < deposit@.len() ==> #[trigger] deposit@[i].token_id@ == self.wrapped_lp_token_id->0@) {
                    r == Err::<(), ProxyError>(ProxyError::NotWrappedLpToken)
                } else {
                    r == match add_liquidity_proxy_payments_error(payments@, self.locked_asset_token_id@) {
                        Some(e) => Err::<(), ProxyError>(e),
                        None => Ok(()),
                    }
                }
            },
    {
        self.pairs.require_is_intermediated_pair(pair_address)?;
        let wrapped_lp_token_id = match &self.wrapped_lp_token_id {
            Some(id) => id,
            None => return Err(ProxyError::EmptyTokenId),
        };
        require_all_tokens_are_wrapped_lp_tokens(deposit, wrapped_lp_token_id)?;
        if payments.len() != 2 {
            return Err(ProxyError::BadPaymentsLen);
        }
        let first = &payments[0];
        let second = &payments[1];
        if first.token_id.same_as(&second.token_id) {
            return Err(ProxyError::IdenticalTokens);
        }
        if !((first.token_nonce == 0 && second.token_nonce != 0) || (first.token_nonce != 0 && second.token_nonce == 0)) {
            return Err(ProxyError::NotOneFungibleOneSemiFungible);
        }
        if first.amount == 0 || second.amount == 0 {
            return Err(ProxyError::ZeroAmount);
        }
        if !((first.token_nonce != 0 && first.token_id.same_as(&self.locked_asset_token_id)) || (second.token_nonce != 0
            && second.token_id.same_as(&self.locked_asset_token_id))) {
            return Err(ProxyError::SemiFungibleNotLockedAsset);
        }
        Ok(())
    }

    /// What the proxy pays into the pair: the fungible payment as it is, and in place of the
    /// locked asset the same amount of the asset, which the proxy mints.
    pub fn add_liquidity_payments(&self, payments: &Vec<GenericTokenAmountPair>) -> (r: (FftTokenAmountPair, FftTokenAmountPair))
        requires
            payments@.len() == 2,
        ensures
            r.0.amount == payments@[0].amount,
            r.1.amount == payments@[1].amount,
            payments@[0].token_nonce == 0 ==> r.0.token_id@ == payments@[0].token_id@ && r.1.token_id@ == self.asset_token_id@,
            payments@[0].token_nonce != 0 ==> r.0.token_id@ == self.asset_token_id@ && r.1.token_id@ == payments@[1].token_id@,
    {
        if payments[0].token_nonce == 0 {
            (
                FftTokenAmountPair::new(&payments[0].token_id, payments[0].amount),
                FftTokenAmountPair::new(&self.asset_token_id, payments[1].amount),
            )
        } else {
            (
                FftTokenAmountPair::new(&self.asset_token_id, payments[0].amount),
                FftTokenAmountPair::new(&payments[1].token_id, payments[1].amount),
            )
        }
    }

    /// Settles a deposit once the pair has answered with the LP tokens and the amounts it
    /// used: which locked assets went in, which minted assets to burn and what to send back.
    pub fn settle_add_liquidity_proxy(
        &self,
        payments: &Vec<GenericTokenAmountPair>,
        lp_received: &FftTokenAmountPair,
        first_token_used: &FftTokenAmountPair,
        second_token_used: &FftTokenAmountPair,
    ) -> (r: Result<AddLiquidityProxySettlement, ProxyError>)
        requires
            payments@.len() == 2,
        ensures
            lp_received.amount == 0 ==> r == Err::<AddLiquidityProxySettlement, ProxyError>(ProxyError::ZeroLpReceived),
            lp_received.amount > 0 && !(first_token_used.token_id@ == payments@[0].token_id@ || second_token_used.token_id@
                == payments@[1].token_id@) ==> r == Err::<AddLiquidityProxySettlement, ProxyError>(ProxyError::BadTokenOrder),
            r matches Ok(s) ==> {
                &&& lp_received.amount > 0
                &&& first_token_used.amount <= payments@[0].amount
                &&& second_token_used.amount <= payments@[1].amount
                &&& s.first_token_unused == payments@[0].amount - first_token_used.amount
                &&& s.second_token_unused == payments@[1].amount - second_token_used.amount
                &&& if first_token_used.token_id@ == self.asset_token_id@ {
                    &&& s.consumed_locked_tokens == first_token_used.amount
                    &&& s.unused_minted_assets == payments@[0].amount - first_token_used.amount
                    &&& s.locked_asset_token_nonce == payments@[0].token_nonce
                } else {
                    &&& second_token_used.token_id@ == self.asset_token_id@
                    &&& s.consumed_locked_tokens == second_token_used.amount
                    &&& s.unused_minted_assets == payments@[1].amount - second_token_used.amount
                    &&& s.locked_asset_token_nonce == payments@[1].token_nonce
                }
            },
            lp_received.amount > 0 && (first_token_used.token_id@ == payments@[0].token_id@ || second_token_used.token_id@
                == payments@[1].token_id@) && first_token_used.amount <= payments@[0].amount && second_token_used.amount
                <= payments@[1].amount && (first_token_used.token_id@ == self.asset_token_id@
                || second_token_used.token_id@ == self.asset_token_id@) ==> r is Ok,
    {
        if lp_received.amount == 0 {
            return Err(ProxyError::ZeroLpReceived);
        }
        if !(first_token_used.token_id.same_as(&payments[0].token_id) || second_token_used.token_id.same_as(&payments[1].token_id)) {
            return Err(ProxyError::BadTokenOrder);
        }
        if !(first_token_used.amount <= payments[0].amount && second_token_used.amount <= payments[1].amount) {
            return Err(ProxyError::UsedMoreThanProvided);
        }
        let first_token_unused = payments[0].amount - first_token_used.amount;
        let second_token_unused = payments[1].amount - second_token_used.amount;
        if first_token_used.token_id.same_as(&self.asset_token_id) {
            Ok(AddLiquidityProxySettlement {
                consumed_locked_tokens: first_token_used.amount,
                locked_asset_token_nonce: payments[0].token_nonce,
                unused_minted_assets: first_token_unused,
                first_token_unused,
                second_token_unused,
            })
        } else if second_token_used.token_id.same_as(&self.asset_token_id) {
            Ok(AddLiquidityProxySettlement {
                consumed_locked_tokens: second_token_used.amount,
                locked_asset_token_nonce: payments[1].token_nonce,
                unused_minted_assets: second_token_unused,
                first_token_unused,
                second_token_unused,
            })
        } else {
            Err(ProxyError::NoAssetTokenReturned)
        }
    }

    /// Settles the removal of `amount` wrapped LP tokens once the pair has paid out its two
    /// tokens: the locked assets they stand for go back locked as far as the assets received
    /// cover them; assets received beyond go back unlocked, and locked assets not covered
    /// are burned.
    pub fn settle_remove_liquidity_proxy(
        &self,
        amount: u128,
        attributes: &WrappedLpTokenAttributes,
        first_received: &FftTokenAmountPair,
        second_received: &FftTokenAmountPair,
    ) -> (r: Result<RemoveLiquidityProxySettlement, ProxyError>)
        ensures
            match rule_of_three_non_zero_result_spec(amount as int, attributes.lp_token_total_amount as int, attributes.locked_assets_invested as int) {
                Err(e) => r matches Err(x) && x == e,
                Ok(invested) => {
                    if first_received.token_id@ == self.asset_token_id@ {
                        r matches Ok(s) && s.fungible_token.token_id@ == second_received.token_id@ && s.fungible_token.amount
                            == second_received.amount && self.remove_split(s, first_received.amount as int, invested)
                    } else if second_received.token_id@ == self.asset_token_id@ {
                        r matches Ok(s) && s.fungible_token.token_id@ == first_received.token_id@ && s.fungible_token.amount
                            == first_received.amount && self.remove_split(s, second_received.amount as int, invested)
                    } else {
                        r matches Err(x) && x == ProxyError::BadTokensReceived
                    }
                },
            },
    {
        let invested = rule_of_three_non_zero_result(amount, attributes.lp_token_total_amount, attributes.locked_assets_invested)?;
        let (assets_received, fungible_token) = if first_received.token_id.same_as(&self.asset_token_id) {
            (first_received.amount, FftTokenAmountPair::new(&second_received.token_id, second_received.amount))
        } else if second_received.token_id.same_as(&self.asset_token_id) {
            (second_received.amount, FftTokenAmountPair::new(&first_received.token_id, first_received.amount))
        } else {
            return Err(ProxyError::BadTokensReceived);
        };
        let locked_assets_to_send = if assets_received < invested { assets_received } else { invested };
        let assets_surplus = if assets_received > invested { assets_received - invested } else { 0 };
        let locked_assets_to_burn = if assets_received < invested { invested - assets_received } else { 0 };
        Ok(RemoveLiquidityProxySettlement { fungible_token, locked_assets_to_send, assets_surplus, locked_assets_to_burn })
    }

    pub open spec fn remove_split(&self, s: RemoveLiquidityProxySettlement, received: int, invested: int) -> bool {
        &&& s.locked_assets_to_send == if received < invested { received } else { invested }
        &&& s.assets_surplus == if received > invested { received - invested } else { 0 }
        &&& s.locked_assets_to_burn == if received < invested { invested - received } else { 0 }
    }
}

/// The rule of three with its errors, as `rule_of_three_non_zero_result` computes it.
pub open spec fn rule_of_three_non_zero_result_spec(part: int, total: int, value: int) -> Result<int, ProxyError> {
    if total == 0 {
        Err(ProxyError::ZeroTotal)
    } else if !fits(part * value) {
        Err(ProxyError::ArithmeticOverflow)
    } else if rule_of_three_spec(part, total, value) == 0 {
        Err(ProxyError::ZeroResult)
    } else {
        Ok(rule_of_three_spec(part, total, value))
    }
}


/// The tokens a merge works on: those of the deposit, then the one being created, if any.
pub open spec fn with_replic<T>(deposit: Seq<T>, replic: Option<T>) -> Seq<T> {
    match replic {
        Some(t) => deposit.push(t),
        None => deposit,
    }
}

/// What merging wrapped LP tokens yields, before the locked asset factory merges the locked
/// parts (a single part needs no merge).
#[derive(Clone, Debug)]
pub struct WrappedLpMerge {
    pub lp_token_id: TokenIdentifier,
    pub merged_amount: u128,
    pub locked_parts: Vec<GenericTokenAmountPair>,
    /// Whether tokens of the deposit took part.
    pub is_merged: bool,
}

/// What merging wrapped farm tokens yields, before the farm merges the farm parts and the
/// factory or the proxy merges the farming parts (a single part needs no merge).
#[derive(Clone, Debug)]
pub struct WrappedFarmMerge {
    pub farm_parts: Vec<GenericTokenAmountPair>,
    pub farming_parts: Vec<GenericTokenAmountPair>,
    /// Whether the farming token is the locked asset token, else a wrapped LP token.
    pub farming_is_locked_asset: bool,
    pub is_merged: bool,
}

impl ProxyDexImpl {
    /// Merges the wrapped LP tokens of a deposit, with `replic` when one is being created:
    /// all must be wrapped LP tokens of one pair. The merged token stands for all their LP
    /// tokens and for the sum of the locked assets each stands for.
    pub fn merge_wrapped_lp_tokens(&self, deposit: Vec<WrappedLpToken>, replic: Option<WrappedLpToken>) -> (r: Result<
        WrappedLpMerge,
        ProxyError,
    >)
        ensures
            deposit@.len() == 0 && replic is None ==> (r matches Err(x) && x == ProxyError::EmptyDeposit),
            r is Ok <==> {
                let tokens = with_replic(deposit@, replic);
                &&& tokens.len() > 0
                &&& self.wrapped_lp_token_id is Some
                &&& forall|i: int|
                    0 <= i < deposit@.len() ==> #[trigger] deposit@[i].token_amount.token_id@ == self.wrapped_lp_token_id->0@
                &&& forall|i: int|
                    0 <= i < tokens.len() ==> #[trigger] tokens[i].attributes.lp_token_id@ == tokens[0].attributes.lp_token_id@
                &&& forall|i: int| 0 <= i < tokens.len() ==> #[trigger] lp_part_ok(tokens[i])
                &&& fits(lp_amount_sum(tokens))
            },
            r matches Ok(m) ==> {
                let tokens = with_replic(deposit@, replic);
                &&& tokens.len() > 0
                &&& self.wrapped_lp_token_id is Some
                &&& forall|i: int|
                    0 <= i < deposit@.len() ==> #[trigger] deposit@[i].token_amount.token_id@ == self.wrapped_lp_token_id->0@
                &&& forall|i: int|
                    0 <= i < tokens.len() ==> #[trigger] tokens[i].attributes.lp_token_id@ == tokens[0].attributes.lp_token_id@
                &&& m.lp_token_id@ == tokens[0].attributes.lp_token_id@
                &&& m.merged_amount == lp_amount_sum(tokens)
                &&& m.locked_parts@.len() == tokens.len()
                &&& forall|i: int|
                    0 <= i < tokens.len() ==> {
                        &&& #[trigger] m.locked_parts@[i].token_id@ == self.locked_asset_token_id@
                        &&& m.locked_parts@[i].token_nonce == tokens[i].attributes.locked_assets_nonce
                        &&& m.locked_parts@[i].amount == lp_locked_part(tokens[i])
                    }
                &&& m.is_merged == (deposit@.len() != 0)
            },
    {
        if deposit.len() == 0 && replic.is_none() {
            return Err(ProxyError::EmptyDeposit);
        }
        let wrapped_lp_token_id = match &self.wrapped_lp_token_id {
            Some(id) => id,
            None => return Err(ProxyError::EmptyTokenId),
        };
        let mut i: usize = 0;
        while i < deposit.len()
            invariant
                0 <= i <= deposit@.len(),
                forall|j: int| 0 <= j < i ==> #[trigger] deposit@[j].token_amount.token_id@ == wrapped_lp_token_id@,
                self.wrapped_lp_token_id is Some && wrapped_lp_token_id@ == self.wrapped_lp_token_id->0@,
            decreases deposit@.len() - i,
        {
            if !deposit[i].token_amount.token_id.same_as(wrapped_lp_token_id) {
                assert(deposit@[i as int].token_amount.token_id@ != self.wrapped_lp_token_id->0@);
                return Err(ProxyError::NotWrappedLpToken);
            }
            i = i + 1;
        }
        let deposit_len = deposit.len();
        let mut tokens = deposit;
        match replic {
            Some(t) => tokens.push(t),
            None => {},
        }
        assert(tokens@ =~= with_replic(deposit@, replic));
        require_wrapped_lp_tokens_from_same_pair(&tokens)?;
        let locked_parts = merge_locked_asset_tokens_from_wrapped_lp(&tokens, &self.locked_asset_token_id)?;
        let merged_amount = match get_merged_wrapped_lp_tokens_amount(&tokens) {
            Some(v) => v,
            None => return Err(ProxyError::ArithmeticOverflow),
        };
        Ok(WrappedLpMerge {
            lp_token_id: tokens[0].attributes.lp_token_id.copy(),
            merged_amount,
            locked_parts,
            is_merged: deposit_len != 0,
        })
    }
}


impl ProxyDexImpl {
    /// Merges the wrapped farm tokens of a deposit, with `replic` when one is being created:
    /// all must be wrapped farm tokens of one farm. Yields the farm tokens to merge and the
    /// farming tokens each stands for.
    pub fn merge_wrapped_farm_tokens(&self, deposit: Vec<WrappedFarmToken>, replic: Option<WrappedFarmToken>) -> (r:
        Result<WrappedFarmMerge, ProxyError>)
        ensures
            deposit@.len() == 0 && replic is None ==> (r matches Err(x) && x == ProxyError::EmptyDeposit),
            r is Ok <==> {
                let tokens = with_replic(deposit@, replic);
                &&& tokens.len() > 0
                &&& self.wrapped_farm_token_id is Some
                &&& forall|i: int|
                    0 <= i < deposit@.len() ==> #[trigger] deposit@[i].token_amount.token_id@ == self.wrapped_farm_token_id->0@
                &&& forall|i: int|
                    0 <= i < tokens.len() ==> #[trigger] tokens[i].attributes.farm_token_id@ == tokens[0].attributes.farm_token_id@
                &&& forall|i: int| 0 <= i < tokens.len() ==> #[trigger] farm_part_ok(tokens[i])
            },
            r matches Ok(m) ==> {
                let tokens = with_replic(deposit@, replic);
                &&& tokens.len() > 0
                &&& self.wrapped_farm_token_id is Some
                &&& forall|i: int|
                    0 <= i < deposit@.len() ==> #[trigger] deposit@[i].token_amount.token_id@ == self.wrapped_farm_token_id->0@
                &&& forall|i: int|
                    0 <= i < tokens.len() ==> #[trigger] tokens[i].attributes.farm_token_id@ == tokens[0].attributes.farm_token_id@
                &&& m.farm_parts@.len() == tokens.len()
                &&& m.farming_parts@.len() == tokens.len()
                &&& forall|i: int|
                    0 <= i < tokens.len() ==> {
                        &&& #[trigger] m.farm_parts@[i].token_id@ == tokens[i].attributes.farm_token_id@
                        &&& m.farm_parts@[i].token_nonce == tokens[i].attributes.farm_token_nonce
                        &&& m.farm_parts@[i].amount == tokens[i].token_amount.amount
                        &&& m.farming_parts@[i].token_id@ == tokens[0].attributes.farming_token_id@
                        &&& m.farming_parts@[i].token_nonce == tokens[i].attributes.farming_token_nonce
                        &&& m.farming_parts@[i].amount == farm_farming_part(tokens[i])
                    }
                &&& m.farming_is_locked_asset == (tokens[0].attributes.farming_token_id@ == self.locked_asset_token_id@)
                &&& m.is_merged == (deposit@.len() != 0)
            },
    {
        if deposit.len() == 0 && replic.is_none() {
            return Err(ProxyError::EmptyDeposit);
        }
        let wrapped_farm_token_id = match &self.wrapped_farm_token_id {
            Some(id) => id,
            None => return Err(ProxyError::EmptyTokenId),
        };
        let mut i: usize = 0;
        while i < deposit.len()
            invariant
                0 <= i <= deposit@.len(),
                forall|j: int| 0 <= j < i ==> #[trigger] deposit@[j].token_amount.token_id@ == wrapped_farm_token_id@,
                self.wrapped_farm_token_id is Some && wrapped_farm_token_id@ == self.wrapped_farm_token_id->0@,
            decreases deposit@.len() - i,
        {
            if !deposit[i].token_amount.token_id.same_as(wrapped_farm_token_id) {
                assert(deposit@[i as int].token_amount.token_id@ != self.wrapped_farm_token_id->0@);
                return Err(ProxyError::NotWrappedFarmToken);
            }
            i = i + 1;
        }
        let deposit_len = deposit.len();
        let mut tokens = deposit;
        match replic {
            Some(t) => tokens.push(t),
            None => {},
        }
        assert(tokens@ =~= with_replic(deposit@, replic));
        require_wrapped_farm_tokens_from_same_farm(&tokens)?;
        let farm_parts = merge_farm_tokens(&tokens);
        let farming_token_id = tokens[0].attributes.farming_token_id.copy();
        let farming_parts = merge_farming_parts(&tokens, &farming_token_id)?;
        let farming_is_locked_asset = farming_token_id.same_as(&self.locked_asset_token_id);
        Ok(WrappedFarmMerge { farm_parts, farming_parts, farming_is_locked_asset, is_merged: deposit_len != 0 })
    }
}

/// The wrapped LP tokens that a list of wrapped farm tokens stands for, each with the
/// attributes of its wrapped LP token (given in the same order).
#[verifier::spinoff_prover]
pub fn wrapped_lp_tokens_from_farm(tokens: &Vec<WrappedFarmToken>, lp_attributes: Vec<WrappedLpTokenAttributes>) -> (r:
    Result<Vec<WrappedLpToken>, ProxyError>)
    requires
        lp_attributes@.len() == tokens@.len(),
    ensures
        r is Ok <==> forall|i: int| 0 <= i < tokens@.len() ==> #[trigger] farm_part_ok(tokens@[i]),
        r matches Ok(v) ==> v@.len() == tokens@.len() && forall|i: int|
            0 <= i < v@.len() ==> {
                &&& #[trigger] v@[i].token_amount.token_id@ == tokens@[i].attributes.farming_token_id@
                &&& v@[i].token_amount.token_nonce == tokens@[i].attributes.farming_token_nonce
                &&& v@[i].token_amount.amount == farm_farming_part(tokens@[i])
                &&& v@[i].attributes == lp_attributes@[i]
            },
{
    let mut result: Vec<WrappedLpToken> = Vec::new();
    let mut attributes = lp_attributes;
    let ghost all_attributes = attributes@;
    let mut i: usize = tokens.len();
    while i > 0
        invariant
            0 <= i <= tokens@.len(),
            tokens@.len() == all_attributes.len(),
            attributes@ == all_attributes.take(i as int),
            result@.len() == tokens@.len() - i,
            forall|j: int| i <= j < tokens@.len() ==> #[trigger] farm_part_ok(tokens@[j]),
            forall|j: int|
                0 <= j < result@.len() ==> {
                    let k = tokens@.len() - 1 - j;
                    &&& #[trigger] result@[j].token_amount.token_id@ == tokens@[k].attributes.farming_token_id@
                    &&& result@[j].token_amount.token_nonce == tokens@[k].attributes.farming_token_nonce
                    &&& result@[j].token_amount.amount == farm_farming_part(tokens@[k])
                    &&& result@[j].attributes == all_attributes[k]
                },
        decreases i,
    {
        i = i - 1;
        let t = &tokens[i];
        let amount = match rule_of_three_non_zero_result(
            t.token_amount.amount,
            t.attributes.farm_token_amount,
            t.attributes.farming_token_amount,
        ) {
            Ok(v) => v,
            Err(e) => {
                assert(!farm_part_ok(tokens@[i as int]));
                return Err(e);
            },
        };
        let a = attributes.pop().unwrap();
        assert(a == all_attributes[i as int]);
        assert(attributes@ =~= all_attributes.take(i as int));
        result.push(WrappedLpToken {
            token_amount: GenericTokenAmountPair::new(&t.attributes.farming_token_id, t.attributes.farming_token_nonce, amount),
            attributes: a,
        });
    }
    let mut ordered: Vec<WrappedLpToken> = Vec::new();
    let n = result.len();
    while result.len() > 0
        invariant
            n == tokens@.len(),
            result@.len() + ordered@.len() == n,
            forall|j: int|
                0 <= j < result@.len() ==> {
                    let k = n - 1 - j;
                    &&& #[trigger] result@[j].token_amount.token_id@ == tokens@[k].attributes.farming_token_id@
                    &&& result@[j].token_amount.token_nonce == tokens@[k].attributes.farming_token_nonce
                    &&& result@[j].token_amount.amount == farm_farming_part(tokens@[k])
                    &&& result@[j].attributes == all_attributes[k]
                },
            forall|j: int|
                0 <= j < ordered@.len() ==> {
                    &&& #[trigger] ordered@[j].token_amount.token_id@ == tokens@[j].attributes.farming_token_id@
                    &&& ordered@[j].token_amount.token_nonce == tokens@[j].attributes.farming_token_nonce
                    &&& ordered@[j].token_amount.amount == farm_farming_part(tokens@[j])
                    &&& ordered@[j].attributes == all_attributes[j]
                },
        decreases result@.len(),
    {
        let t = result.pop().unwrap();
        ordered.push(t);
    }
    assert(all_attributes == lp_attributes@);
    assert(ordered@.len() == tokens@.len());
    assert forall|i: int| 0 <= i < ordered@.len() implies {
        &&& #[trigger] ordered@[i].token_amount.token_id@ == tokens@[i].attributes.farming_token_id@
        &&& ordered@[i].token_amount.token_nonce == tokens@[i].attributes.farming_token_nonce
        &&& ordered@[i].token_amount.amount == farm_farming_part(tokens@[i])
        &&& ordered@[i].attributes == lp_attributes@[i]
    } by {
        assert(ordered@[i].token_amount.token_id@ == tokens@[i].attributes.farming_token_id@);
    }
    Ok(ordered)
}

/// Attributes of the wrapped farm token made by a merge: the merged farm tokens and the
/// merged farming tokens behind them.
pub fn merged_wrapped_farm_token_attributes(
    merged_farm_token: &GenericTokenAmountPair,
    merged_farming_token: &GenericTokenAmountPair,
) -> (r: WrappedFarmTokenAttributes)
    ensures
        r.farm_token_id@ == merged_farm_token.token_id@,
        r.farm_token_nonce == merged_farm_token.token_nonce,
        r.farm_token_amount == merged_farm_token.amount,
        r.farming_token_id@ == merged_farming_token.token_id@,
        r.farming_token_nonce == merged_farming_token.token_nonce,
        r.farming_token_amount == merged_farming_token.amount,
{
    WrappedFarmTokenAttributes {
        farm_token_id: merged_farm_token.token_id.copy(),
        farm_token_nonce: merged_farm_token.token_nonce,
        farm_token_amount: merged_farm_token.amount,
        farming_token_id: merged_farming_token.token_id.copy(),
        farming_token_nonce: merged_farming_token.token_nonce,
        farming_token_amount: merged_farming_token.amount,
    }
}


impl ProxyDexImpl {
    /// Merges the wrapped LP tokens that wrapped farm tokens stand for, each with the
    /// attributes of its wrapped LP token (in the same order): they must come from one pair.
    pub fn merge_wrapped_lp_tokens_from_farm(
        &self,
        tokens: &Vec<WrappedFarmToken>,
        lp_attributes: Vec<WrappedLpTokenAttributes>,
    ) -> (r: Result<WrappedLpMerge, ProxyError>)
        requires
            lp_attributes@.len() == tokens@.len(),
            tokens@.len() > 0,
        ensures
            r is Ok <==> {
                &&& forall|i: int| 0 <= i < tokens@.len() ==> #[trigger] farm_part_ok(tokens@[i])
                &&& forall|i: int|
                    0 <= i < tokens@.len() ==> #[trigger] lp_attributes@[i].lp_token_id@ == lp_attributes@[0].lp_token_id@
                &&& forall|i: int| 0 <= i < tokens@.len() ==> #[trigger] lp_of_farm_ok(tokens@[i], lp_attributes@[i])
                &&& fits(farm_parts_sum(tokens@))
            },
            r matches Ok(m) ==> {
                &&& m.merged_amount == farm_parts_sum(tokens@)
                &&& forall|i: int| 0 <= i < tokens@.len() ==> #[trigger] farm_part_ok(tokens@[i])
                &&& forall|i: int|
                    0 <= i < tokens@.len() ==> #[trigger] lp_attributes@[i].lp_token_id@ == lp_attributes@[0].lp_token_id@
                &&& m.lp_token_id@ == lp_attributes@[0].lp_token_id@
                &&& m.locked_parts@.len() == tokens@.len()
                &&& forall|i: int|
                    0 <= i < tokens@.len() ==> {
                        &&& #[trigger] m.locked_parts@[i].token_id@ == self.locked_asset_token_id@
                        &&& m.locked_parts@[i].token_nonce == lp_attributes@[i].locked_assets_nonce
                        &&& m.locked_parts@[i].amount == rule_of_three_spec(
                            farm_farming_part(tokens@[i]),
                            lp_attributes@[i].lp_token_total_amount as int,
                            lp_attributes@[i].locked_assets_invested as int,
                        )
                    }
                &&& m.is_merged
            },
            !(forall|i: int| 0 <= i < tokens@.len() ==> #[trigger] farm_part_ok(tokens@[i])) ==> r is Err,
    {
        let ghost attrs = lp_attributes@;
        let wrapped = wrapped_lp_tokens_from_farm(tokens, lp_attributes)?;
        proof {
            assert forall|i: int| 0 <= i < tokens@.len() implies #[trigger] wrapped@[i].token_amount.amount == farm_farming_part(
                tokens@[i],
            ) && wrapped@[i].attributes == attrs[i] by {
                assert(wrapped@[i].token_amount.token_id@ == tokens@[i].attributes.farming_token_id@);
            }
            assert forall|i: int| 0 <= i < tokens@.len() implies #[trigger] lp_part_ok(wrapped@[i]) == lp_of_farm_ok(
                tokens@[i],
                attrs[i],
            ) by {
                assert(wrapped@[i].token_amount.amount == farm_farming_part(tokens@[i]));
            }
            lemma_farm_parts_sum(wrapped@, tokens@);
        }
        match require_wrapped_lp_tokens_from_same_pair(&wrapped) {
            Ok(()) => {},
            Err(e) => {
                proof {
                    let k = choose|k: int|
                        0 <= k < wrapped@.len() && !(#[trigger] wrapped@[k].attributes.lp_token_id@
                            == wrapped@[0].attributes.lp_token_id@);
                    assert(wrapped@[k].token_amount.amount == farm_farming_part(tokens@[k]));
                    assert(wrapped@[0].token_amount.amount == farm_farming_part(tokens@[0]));
                    assert(wrapped@[k].attributes == attrs[k]);
                    assert(wrapped@[0].attributes == attrs[0]);
                    assert(!(attrs[k].lp_token_id@ == attrs[0].lp_token_id@));
                }
                return Err(e);
            },
        }
        proof {
            assert(wrapped@[0].token_amount.token_id@ == tokens@[0].attributes.farming_token_id@);
            assert forall|i: int| 0 <= i < tokens@.len() implies #[trigger] attrs[i].lp_token_id@ == attrs[0].lp_token_id@ by {
                assert(wrapped@[i].token_amount.token_id@ == tokens@[i].attributes.farming_token_id@);
                assert(wrapped@[i].attributes.lp_token_id@ == wrapped@[0].attributes.lp_token_id@);
            }
        }
        let locked_parts = match merge_locked_asset_tokens_from_wrapped_lp(&wrapped, &self.locked_asset_token_id) {
            Ok(v) => v,
            Err(e) => {
                proof {
                    let k = choose|k: int| 0 <= k < wrapped@.len() && !#[trigger] lp_part_ok(wrapped@[k]);
                    assert(!lp_of_farm_ok(tokens@[k], attrs[k]));
                }
                return Err(e);
            },
        };
        let merged_amount = match get_merged_wrapped_lp_tokens_amount(&wrapped) {
            Some(v) => v,
            None => return Err(ProxyError::ArithmeticOverflow),
        };
        proof {
            assert forall|i: int| 0 <= i < tokens@.len() implies #[trigger] lp_of_farm_ok(tokens@[i], attrs[i]) by {
                assert(lp_part_ok(wrapped@[i]));
            }
            assert forall|i: int| 0 <= i < tokens@.len() implies {
                &&& #[trigger] locked_parts@[i].token_id@ == self.locked_asset_token_id@
                &&& locked_parts@[i].token_nonce == attrs[i].locked_assets_nonce
                &&& locked_parts@[i].amount == rule_of_three_spec(
                    farm_farming_part(tokens@[i]),
                    attrs[i].lp_token_total_amount as int,
                    attrs[i].locked_assets_invested as int,
                )
            } by {
                assert(wrapped@[i].token_amount.token_id@ == tokens@[i].attributes.farming_token_id@);
                assert(locked_parts@[i].token_id@ == self.locked_asset_token_id@);
            }
        }
        Ok(WrappedLpMerge {
            lp_token_id: wrapped[0].attributes.lp_token_id.copy(),
            merged_amount,
            locked_parts,
            is_merged: true,
        })
    }

    /// Checks a removal of liquidity through the proxy: a known pair, an issued wrapped LP
    /// token, a non-zero amount of a wrapped LP token batch, whose LP token is the pair's.
    pub fn check_remove_liquidity_proxy(
        &self,
        pair_address: &Address,
        token_id: &TokenIdentifier,
        token_nonce: Nonce,
        amount: u128,
        attributes: &WrappedLpTokenAttributes,
        pair_lp_token_id: &TokenIdentifier,
    ) -> (r: Result<(), ProxyError>)
        ensures
            r == if !self.pairs.pairs().contains(pair_address@) {
                Err::<(), ProxyError>(ProxyError::NotIntermediatedPair)
            } else if self.wrapped_lp_token_id is None {
                Err(ProxyError::EmptyTokenId)
            } else if token_nonce == 0 {
                Err(ProxyError::SftRequired)
            } else if amount == 0 {
                Err(ProxyError::ZeroAmount)
            } else if token_id@ != self.wrapped_lp_token_id->0@ {
                Err(ProxyError::WrongInputToken)
            } else if pair_lp_token_id@ != attributes.lp_token_id@ {
                Err(ProxyError::BadInputAddress)
            } else {
                Ok(())
            },
    {
        self.pairs.require_is_intermediated_pair(pair_address)?;
        let wrapped_lp_token_id = match &self.wrapped_lp_token_id {
            Some(id) => id,
            None => return Err(ProxyError::EmptyTokenId),
        };
        if token_nonce == 0 {
            return Err(ProxyError::SftRequired);
        }
        if amount == 0 {
            return Err(ProxyError::ZeroAmount);
        }
        if !token_id.same_as(wrapped_lp_token_id) {
            return Err(ProxyError::WrongInputToken);
        }
        if !pair_lp_token_id.same_as(&attributes.lp_token_id) {
            return Err(ProxyError::BadInputAddress);
        }
        Ok(())
    }
}


/// What a proxy deposit hands back: the new wrapped LP token and its attributes.
#[derive(Clone, Debug)]
pub struct WrappedLpTokenCreated {
    pub token: GenericTokenAmountPair,
    pub attributes: WrappedLpTokenAttributes,
}

impl ProxyDexImpl {
    /// For the owner: lets the proxy add liquidity to a pair contract.
    pub fn add_pair_to_intermediate(&mut self, caller: &Address, pair_address: Address) -> (r: Result<(), ProxyError>)
        requires
            old(self).wf(),
        ensures
            final(self).wf(),
            r is Err <==> caller@ != old(self).owner@,
            r is Err ==> r == Err::<(), ProxyError>(ProxyError::PermissionDenied) && final(self).pairs.pairs() == old(
                self,
            ).pairs.pairs(),
            r is Ok && old(self).pairs.pairs().contains(pair_address@) ==> final(self).pairs.pairs() == old(self).pairs.pairs(),
            r is Ok && !old(self).pairs.pairs().contains(pair_address@) ==> final(self).pairs.pairs() == old(
                self,
            ).pairs.pairs().push(pair_address@),
            final(self).wrapped_lp_token_nonce == old(self).wrapped_lp_token_nonce,
            final(self).wrapped_farm_token_nonce == old(self).wrapped_farm_token_nonce,
    {
        if !caller.same_as(&self.owner) {
            return Err(ProxyError::PermissionDenied);
        }
        self.pairs.add_pair_to_intermediate(pair_address);
        Ok(())
    }

    /// For the owner: stops adding liquidity to a pair contract, which must be known.
    pub fn remove_intermediated_pair(&mut self, caller: &Address, pair_address: &Address) -> (r: Result<(), ProxyError>)
        requires
            old(self).wf(),
        ensures
            final(self).wf(),
            caller@ != old(self).owner@ ==> r == Err::<(), ProxyError>(ProxyError::PermissionDenied),
            caller@ == old(self).owner@ && !old(self).pairs.pairs().contains(pair_address@) ==> r == Err::<(), ProxyError>(
                ProxyError::NotIntermediatedPair,
            ),
            r is Err ==> final(self).pairs.pairs() == old(self).pairs.pairs(),
            r is Ok ==> caller@ == old(self).owner@ && exists|i: int|
                0 <= i < old(self).pairs.pairs().len() && old(self).pairs.pairs()[i] == pair_address@
                    && final(self).pairs.pairs() == old(self).pairs.pairs().remove(i),
            caller@ == old(self).owner@ && old(self).pairs.pairs().contains(pair_address@) ==> r is Ok,
    {
        if !caller.same_as(&self.owner) {
            return Err(ProxyError::PermissionDenied);
        }
        self.pairs.remove_intermediated_pair(pair_address)
    }

    /// The wrapped LP token that a deposit through the proxy creates before merging: as many
    /// as the LP tokens received, standing for those LP tokens and for the locked assets
    /// consumed, with the nonce they were paid with.
    pub fn new_wrapped_lp_token(&self, lp_received: &FftTokenAmountPair, settlement: &AddLiquidityProxySettlement) -> (r:
        Result<WrappedLpToken, ProxyError>)
        ensures
            self.wrapped_lp_token_id is None ==> r == Err::<WrappedLpToken, ProxyError>(ProxyError::EmptyTokenId),
            self.wrapped_lp_token_id is Some ==> (r matches Ok(t) && {
                &&& t.token_amount.token_id@ == self.wrapped_lp_token_id->0@
                &&& t.token_amount.token_nonce == 0
                &&& t.token_amount.amount == lp_received.amount
                &&& t.attributes.lp_token_id@ == lp_received.token_id@
                &&& t.attributes.lp_token_total_amount == lp_received.amount
                &&& t.attributes.locked_assets_invested == settlement.consumed_locked_tokens
                &&& t.attributes.locked_assets_nonce == settlement.locked_asset_token_nonce
            }),
    {
        let wrapped_lp_token_id = match &self.wrapped_lp_token_id {
            Some(id) => id,
            None => return Err(ProxyError::EmptyTokenId),
        };
        Ok(WrappedLpToken {
            token_amount: GenericTokenAmountPair::new(wrapped_lp_token_id, 0, lp_received.amount),
            attributes: WrappedLpTokenAttributes {
                lp_token_id: lp_received.token_id.copy(),
                lp_token_total_amount: lp_received.amount,
                locked_assets_invested: settlement.consumed_locked_tokens,
                locked_assets_nonce: settlement.locked_asset_token_nonce,
            },
        })
    }

    /// Creates the wrapped LP token of a merge under the next nonce: it stands for all the
    /// LP tokens merged and for the merged locked assets.
    pub fn create_merged_wrapped_lp_token(&mut self, merge: &WrappedLpMerge, merged_locked_assets: &GenericTokenAmountPair) -> (r:
        Result<WrappedLpTokenCreated, ProxyError>)
        requires
            old(self).wf(),
        ensures
            final(self).wf(),
            final(self).pairs.pairs() == old(self).pairs.pairs(),
            final(self).wrapped_farm_token_nonce == old(self).wrapped_farm_token_nonce,
            old(self).wrapped_lp_token_id is None ==> r == Err::<WrappedLpTokenCreated, ProxyError>(ProxyError::EmptyTokenId),
            old(self).wrapped_lp_token_id is Some && old(self).wrapped_lp_token_nonce == u64::MAX ==> r == Err::<
                WrappedLpTokenCreated,
                ProxyError,
            >(ProxyError::ArithmeticOverflow),
            r is Err ==> final(self).wrapped_lp_token_nonce == old(self).wrapped_lp_token_nonce,
            old(self).wrapped_lp_token_id is Some && old(self).wrapped_lp_token_nonce < u64::MAX ==> (r matches Ok(c) && {
                &&& final(self).wrapped_lp_token_nonce == old(self).wrapped_lp_token_nonce + 1
                &&& c.token.token_id@ == old(self).wrapped_lp_token_id->0@
                &&& c.token.token_nonce == final(self).wrapped_lp_token_nonce
                &&& c.token.amount == merge.merged_amount
                &&& c.attributes.lp_token_id@ == merge.lp_token_id@
                &&& c.attributes.lp_token_total_amount == merge.merged_amount
                &&& c.attributes.locked_assets_invested == merged_locked_assets.amount
                &&& c.attributes.locked_assets_nonce == merged_locked_assets.token_nonce
            }),
    {
        let wrapped_lp_token_id = match &self.wrapped_lp_token_id {
            Some(id) => id.copy(),
            None => return Err(ProxyError::EmptyTokenId),
        };
        if self.wrapped_lp_token_nonce == u64::MAX {
            return Err(ProxyError::ArithmeticOverflow);
        }
        self.wrapped_lp_token_nonce = self.wrapped_lp_token_nonce + 1;
        let lp_token_amount = FftTokenAmountPair::new(&merge.lp_token_id, merge.merged_amount);
        let attributes = get_merged_wrapped_lp_token_attributes(&lp_token_amount, merged_locked_assets);
        Ok(WrappedLpTokenCreated {
            token: GenericTokenAmountPair::new(&wrapped_lp_token_id, self.wrapped_lp_token_nonce, merge.merged_amount),
            attributes,
        })
    }

    /// Creates the wrapped farm token of a merge under the next nonce: as many as the merged
    /// farm tokens, standing for them and for the merged farming tokens.
    pub fn create_merged_wrapped_farm_token(
        &mut self,
        merged_farm_token: &GenericTokenAmountPair,
        merged_farming_token: &GenericTokenAmountPair,
    ) -> (r: Result<(GenericTokenAmountPair, WrappedFarmTokenAttributes), ProxyError>)
        requires
            old(self).wf(),
        ensures
            final(self).wf(),
            final(self).pairs.pairs() == old(self).pairs.pairs(),
            final(self).wrapped_lp_token_nonce == old(self).wrapped_lp_token_nonce,
            old(self).wrapped_farm_token_id is None ==> r == Err::<(GenericTokenAmountPair, WrappedFarmTokenAttributes), ProxyError>(
                ProxyError::EmptyTokenId,
            ),
            old(self).wrapped_farm_token_id is Some && old(self).wrapped_farm_token_nonce == u64::MAX ==> r == Err::<
                (GenericTokenAmountPair, WrappedFarmTokenAttributes),
                ProxyError,
            >(ProxyError::ArithmeticOverflow),
            r is Err ==> final(self).wrapped_farm_token_nonce == old(self).wrapped_farm_token_nonce,
            old(self).wrapped_farm_token_id is Some && old(self).wrapped_farm_token_nonce < u64::MAX ==> (r matches Ok(
                (token, attributes),
            ) && {
                &&& final(self).wrapped_farm_token_nonce == old(self).wrapped_farm_token_nonce + 1
                &&& token.token_id@ == old(self).wrapped_farm_token_id->0@
                &&& token.token_nonce == final(self).wrapped_farm_token_nonce
                &&& token.amount == merged_farm_token.amount
                &&& attributes.farm_token_id@ == merged_farm_token.token_id@
                &&& attributes.farm_token_nonce == merged_farm_token.token_nonce
                &&& attributes.farm_token_amount == merged_farm_token.amount
                &&& attributes.farming_token_id@ == merged_farming_token.token_id@
                &&& attributes.farming_token_nonce == merged_farming_token.token_nonce
                &&& attributes.farming_token_amount == merged_farming_token.amount
            }),
    {
        let wrapped_farm_token_id = match &self.wrapped_farm_token_id {
            Some(id) => id.copy(),
            None => return Err(ProxyError::EmptyTokenId),
        };
        if self.wrapped_farm_token_nonce == u64::MAX {
            return Err(ProxyError::ArithmeticOverflow);
        }
        self.wrapped_farm_token_nonce = self.wrapped_farm_token_nonce + 1;
        let attributes = merged_wrapped_farm_token_attributes(merged_farm_token, merged_farming_token);
        Ok((
            GenericTokenAmountPair::new(&wrapped_farm_token_id, self.wrapped_farm_token_nonce, merged_farm_token.amount),
            attributes,
        ))
    }
}

} // verus!
