use vstd::prelude::*;

use crate::amm::{fits, valid_fee_percents, MAX_PERCENT};
use crate::common::{zero_address, valid_esdt_identifier, Address, TokenIdentifier, TokenPair};

verus! {

/// Why the fee settings refused a change.
#[derive(Clone, Copy, Debug, PartialEq, Eq, Structural)]
pub enum FeeError {
    PermissionDenied,
    AlreadyWhitelisted,
    NotWhitelisted,
    SameTokens,
    PairAlreadyTrusted,
    PairNotTrusted,
    ZeroPercent,
    InvalidTokenId,
    PercentSumExceeded,
    DestinationNotFound,
    PercentAboveCurrent,
    ArithmeticOverflow,
}

/// A receiver of a part of the special fee, in the token it asked for.
#[derive(Clone, Debug)]
pub struct FeeDestination {
    pub address: Address,
    pub token_id: TokenIdentifier,
    pub percent: u64,
}

/// A pair contract that may swap one token of a fee into another.
#[derive(Clone, Debug)]
pub struct TrustedSwapPair {
    pub token_pair: TokenPair,
    pub pair_address: Address,
}

/// What becomes of a fee slice once the pair has resolved it.
#[derive(Clone, Debug)]
pub enum FeeAction {
    /// Nothing is owed.
    Nothing,
    /// Burn the amount: its destination is the zero address.
    Burn { token_id: TokenIdentifier, amount: u128 },
    /// Pay the amount as a fee to the farm contract at `destination`.
    Send { token_id: TokenIdentifier, amount: u128, destination: Address },
    /// Send the amount to the trusted pair at `pair_address`, to swap it without fee into
    /// `requested_token_id` and forward it to `destination`. Should that call fail, the pair
    /// restores `restore_reserves` (where a local swap came first) and takes the slice
    /// `fee_amount` of `fee_token_id` back into its reserve.
    ExternSwap {
        pair_address: Address,
        token_id: TokenIdentifier,
        amount: u128,
        requested_token_id: TokenIdentifier,
        destination: Address,
        fee_token_id: TokenIdentifier,
        fee_amount: u128,
        restore_reserves: Option<(u128, u128)>,
    },
    /// The slice went back into the pool's reserve.
    Reinjected,
}

/// The action that pays `amount` of `token_id` to `destination`: a burn for the zero address.
pub open spec fn transfer_action(a: FeeAction, token_id: Seq<u8>, amount: int, destination: Seq<u8>) -> bool {
    if amount == 0 {
        a is Nothing
    } else if destination == zero_address() {
        a matches FeeAction::Burn { token_id: t, amount: x } && t@ == token_id && x == amount
    } else {
        a matches FeeAction::Send { token_id: t, amount: x, destination: d } && t@ == token_id && x == amount && d@
            == destination
    }
}

/// Pays a fee to its destination, or burns it where the destination is the zero address.
pub fn send_fee_or_burn_on_zero_address(token_id: &TokenIdentifier, amount: u128, destination: &Address) -> (r: FeeAction)
    ensures
        transfer_action(r, token_id@, amount as int, destination@),
{
    if amount == 0 {
        FeeAction::Nothing
    } else if destination.is_zero() {
        FeeAction::Burn { token_id: token_id.copy(), amount }
    } else {
        FeeAction::Send { token_id: token_id.copy(), amount, destination: destination.copy() }
    }
}

/// A part of a fee owed to one destination.
#[derive(Clone, Debug)]
pub struct FeeSlice {
    pub address: Address,
    pub requested_token_id: TokenIdentifier,
    pub amount: u128,
}

pub open spec fn dest_view(d: FeeDestination) -> (Seq<u8>, Seq<u8>, u64) {
    (d.address@, d.token_id@, d.percent)
}

pub open spec fn trusted_view(t: TrustedSwapPair) -> (Seq<u8>, Seq<u8>, Seq<u8>) {
    (t.token_pair.first_token@, t.token_pair.second_token@, t.pair_address@)
}

/// Sum of the percents of a list of destinations.
pub open spec fn percent_sum(s: Seq<(Seq<u8>, Seq<u8>, u64)>) -> int
    decreases s.len(),
{
    if s.len() == 0 {
        0
    } else {
        percent_sum(s.drop_last()) + s.last().2
    }
}

/// The slice of `fee` owed to a destination with `percent` out of `total`.
pub open spec fn slice_spec(fee: int, percent: int, total: int) -> int {
    fee * percent / total
}

/// Fee destinations, trusted swap pairs and whitelisted callers of a pair. Each list keeps
/// the order in which its entries were added, and no key appears twice.
pub struct FeeModule {
    pub destinations: Vec<FeeDestination>,
    pub trusted_swap_pairs: Vec<TrustedSwapPair>,
    pub whitelist: Vec<Address>,
}

/// Whether the trusted pairs hold `first` and `second` in this order.
pub open spec fn has_trusted(t: Seq<(Seq<u8>, Seq<u8>, Seq<u8>)>, first: Seq<u8>, second: Seq<u8>) -> bool {
    exists|i: int| 0 <= i < t.len() && #[trigger] t[i].0 == first && t[i].1 == second
}

/// Whether the trusted pairs hold `first` and `second`, in this order, at address `a`.
pub open spec fn trusted_entry(t: Seq<(Seq<u8>, Seq<u8>, Seq<u8>)>, first: Seq<u8>, second: Seq<u8>, a: Seq<u8>) -> bool {
    exists|i: int| 0 <= i < t.len() && #[trigger] t[i] == (first, second, a)
}

/// Address of the trusted pair for two tokens, looked up in the given order first.
pub open spec fn trusted_address(t: Seq<(Seq<u8>, Seq<u8>, Seq<u8>)>, first: Seq<u8>, second: Seq<u8>) -> Option<Seq<u8>> {
    if has_trusted(t, first, second) {
        Some(choose|a: Seq<u8>| #[trigger] trusted_entry(t, first, second, a))
    } else if has_trusted(t, second, first) {
        Some(choose|a: Seq<u8>| #[trigger] trusted_entry(t, second, first, a))
    } else {
        None
    }
}

/// The non-zero slices of `fee` owed to each destination, in the order of the destinations.
pub open spec fn slices_spec(d: Seq<(Seq<u8>, Seq<u8>, u64)>, fee: int, total: int) -> Seq<(Seq<u8>, Seq<u8>, int)>
    decreases d.len(),
{
    if d.len() == 0 {
        Seq::empty()
    } else if slice_spec(fee, d.last().2 as int, total) == 0 {
        slices_spec(d.drop_last(), fee, total)
    } else {
        slices_spec(d.drop_last(), fee, total).push((d.last().0, d.last().1, slice_spec(fee, d.last().2 as int, total)))
    }
}

pub open spec fn slice_view(f: FeeSlice) -> (Seq<u8>, Seq<u8>, int) {
    (f.address@, f.requested_token_id@, f.amount as int)
}

/// Sum of the amounts of a list of slices.
pub open spec fn slices_total(s: Seq<(Seq<u8>, Seq<u8>, int)>) -> int
    decreases s.len(),
{
    if s.len() == 0 {
        0
    } else {
        slices_total(s.drop_last()) + s.last().2
    }
}

/// The slices of a fee never add up to more than the fee.
pub proof fn lemma_slices_within_fee(d: Seq<(Seq<u8>, Seq<u8>, u64)>, fee: int, total: int)
    requires
        fee >= 0,
        total > 0,
    ensures
        0 <= slices_total(slices_spec(d, fee, total)) <= fee * percent_sum(d) / total,
    decreases d.len(),
{
    if d.len() > 0 {
        let p = d.last().2 as int;
        lemma_slices_within_fee(d.drop_last(), fee, total);
        let rest = percent_sum(d.drop_last());
        lemma_percent_sum_nonneg(d.drop_last());
        assert(fee * rest / total + fee * p / total <= (fee * rest + fee * p) / total) by (nonlinear_arith)
            requires
                fee >= 0,
                rest >= 0,
                p >= 0,
                total > 0,
        ;
        assert(fee * rest + fee * p == fee * (rest + p)) by (nonlinear_arith);
        assert(fee * p / total >= 0) by (nonlinear_arith)
            requires
                fee >= 0,
                p >= 0,
                total > 0,
        ;
        let c = slices_spec(d.drop_last(), fee, total);
        if slice_spec(fee, p, total) != 0 {
            assert(c.push((d.last().0, d.last().1, slice_spec(fee, p, total))).drop_last() =~= c);
        }
    }
}

proof fn lemma_percent_sum_nonneg(d: Seq<(Seq<u8>, Seq<u8>, u64)>)
    ensures
        percent_sum(d) >= 0,
    decreases d.len(),
{
    if d.len() > 0 {
        lemma_percent_sum_nonneg(d.drop_last());
    }
}

/// Each prefix of a list of slices adds up to no more than the whole list.
pub proof fn lemma_slices_prefix(s: Seq<(Seq<u8>, Seq<u8>, int)>, k: int)
    requires
        0 <= k <= s.len(),
        forall|i: int| 0 <= i < s.len() ==> #[trigger] s[i].2 >= 0,
    ensures
        slices_total(s.take(k)) <= slices_total(s),
    decreases s.len(),
{
    if k == s.len() {
        assert(s.take(k) =~= s);
    } else {
        assert(s.take(k) =~= s.drop_last().take(k));
        lemma_slices_prefix(s.drop_last(), k);
    }
}

pub(crate) proof fn lemma_slices_of_zero_fee(d: Seq<(Seq<u8>, Seq<u8>, u64)>, total: int)
    requires
        total > 0,
    ensures
        slices_spec(d, 0, total).len() == 0,
    decreases d.len(),
{
    if d.len() > 0 {
        assert(slice_spec(0, d.last().2 as int, total) == 0) by (nonlinear_arith)
            requires total > 0;
        lemma_slices_of_zero_fee(d.drop_last(), total);
    }
}

proof fn lemma_percent_sum_update(s: Seq<(Seq<u8>, Seq<u8>, u64)>, i: int, v: (Seq<u8>, Seq<u8>, u64))
    requires
        0 <= i < s.len(),
    ensures
        percent_sum(s.update(i, v)) == percent_sum(s) - s[i].2 + v.2,
    decreases s.len(),
{
    if i < s.len() - 1 {
        assert(s.update(i, v).drop_last() =~= s.drop_last().update(i, v));
        lemma_percent_sum_update(s.drop_last(), i, v);
    } else {
        assert(s.update(i, v).drop_last() =~= s.drop_last());
    }
}

proof fn lemma_percent_sum_remove(s: Seq<(Seq<u8>, Seq<u8>, u64)>, i: int)
    requires
        0 <= i < s.len(),
    ensures
        percent_sum(s.remove(i)) == percent_sum(s) - s[i].2,
    decreases s.len(),
{
    if i < s.len() - 1 {
        assert(s.remove(i).drop_last() =~= s.drop_last().remove(i));
        lemma_percent_sum_remove(s.drop_last(), i);
    } else {
        assert(s.remove(i) =~= s.drop_last());
    }
}

proof fn lemma_percent_sum_prefix(s: Seq<(Seq<u8>, Seq<u8>, u64)>, k: int)
    requires
        0 <= k <= s.len(),
    ensures
        0 <= percent_sum(s.take(k)) <= percent_sum(s),
    decreases s.len(),
{
    if k == s.len() {
        assert(s.take(k) =~= s);
        if s.len() > 0 {
            lemma_percent_sum_prefix(s.drop_last(), 0);
        }
    } else {
        assert(s.take(k) =~= s.drop_last().take(k));
        lemma_percent_sum_prefix(s.drop_last(), k);
    }
}

pub(crate) proof fn lemma_percent_sum_positive(s: Seq<(Seq<u8>, Seq<u8>, u64)>)
    requires
        forall|i: int| 0 <= i < s.len() ==> #[trigger] s[i].2 > 0,
    ensures
        percent_sum(s) >= s.len(),
        forall|i: int| 0 <= i < s.len() ==> #[trigger] s[i].2 <= percent_sum(s),
    decreases s.len(),
{
    if s.len() > 0 {
        lemma_percent_sum_positive(s.drop_last());
        assert forall|i: int| 0 <= i < s.len() implies #[trigger] s[i].2 <= percent_sum(s) by {
            if i < s.len() - 1 {
                assert(s.drop_last()[i] == s[i]);
            }
        }
    }
}

impl FeeModule {
    /// What `whitelist_endpoint` guarantees of the settings `after` it left and its result `r`.
    pub open spec fn whitelist_done(&self, after: &FeeModule, r: Result<(), FeeError>, address: Address) -> bool {
        &&& (after.dests() == self.dests())
        &&& (after.trusted() == self.trusted())
        &&& (self.whitelisted().contains(address@) ==> r == Err::<(), FeeError>(FeeError::AlreadyWhitelisted)
                    && after.whitelisted() == self.whitelisted())
        &&& (!self.whitelisted().contains(address@) ==> r is Ok && after.whitelisted()
                    == self.whitelisted().push(address@))
    }

    /// What `remove_whitelist` guarantees of the settings `after` it left and its result `r`.
    pub open spec fn unwhitelist_done(&self, after: &FeeModule, r: Result<(), FeeError>, address: Address) -> bool {
        &&& (after.dests() == self.dests())
        &&& (after.trusted() == self.trusted())
        &&& (!self.whitelisted().contains(address@) ==> r == Err::<(), FeeError>(FeeError::NotWhitelisted)
                    && after.whitelisted() == self.whitelisted())
        &&& (self.whitelisted().contains(address@) ==> r is Ok && exists|i: int|
                    0 <= i < self.whitelisted().len() && self.whitelisted()[i] == address@
                        && after.whitelisted() == self.whitelisted().remove(i))
    }

    /// What `add_trusted_swap_pair` guarantees of the settings `after` it left and its result `r`.
    pub open spec fn trust_done(&self, after: &FeeModule, r: Result<(), FeeError>, pair_address: Address, first_token: TokenIdentifier, second_token: TokenIdentifier) -> bool {
        &&& (after.dests() == self.dests())
        &&& (after.whitelisted() == self.whitelisted())
        &&& (first_token@ == second_token@ ==> r == Err::<(), FeeError>(FeeError::SameTokens))
        &&& (first_token@ != second_token@ && has_trusted(self.trusted(), first_token@, second_token@) ==> r == Err::<(), FeeError>(FeeError::PairAlreadyTrusted))
        &&& (r is Err ==> after.trusted() == self.trusted())
        &&& (first_token@ != second_token@ && !has_trusted(self.trusted(), first_token@, second_token@) ==> r is Ok
                    && after.trusted() == self.trusted().push((first_token@, second_token@, pair_address@)))
    }

    /// What `remove_trusted_swap_pair` guarantees of the settings `after` it left and its result `r`.
    pub open spec fn untrust_done(&self, after: &FeeModule, r: Result<(), FeeError>, first_token: TokenIdentifier, second_token: TokenIdentifier) -> bool {
        &&& (after.dests() == self.dests())
        &&& (after.whitelisted() == self.whitelisted())
        &&& (r is Err <==> !has_trusted(self.trusted(), first_token@, second_token@) && !has_trusted(
                    self.trusted(),
                    second_token@,
                    first_token@,
                ))
        &&& (r is Err ==> r == Err::<(), FeeError>(FeeError::PairNotTrusted) && after.trusted() == self.trusted())
        &&& (has_trusted(self.trusted(), first_token@, second_token@) ==> exists|i: int|
                    0 <= i < self.trusted().len() && self.trusted()[i].0 == first_token@
                        && self.trusted()[i].1 == second_token@ && after.trusted() == self.trusted().remove(i))
        &&& (!has_trusted(self.trusted(), first_token@, second_token@) && has_trusted(
                    self.trusted(),
                    second_token@,
                    first_token@,
                ) ==> exists|i: int|
                    0 <= i < self.trusted().len() && self.trusted()[i].0 == second_token@
                        && self.trusted()[i].1 == first_token@ && after.trusted() == self.trusted().remove(i))
    }

    /// What `set_fee_on` guarantees of the settings `after` it left and its result `r`.
    pub open spec fn fee_set_done(&self, after: &FeeModule, r: Result<(), FeeError>, enabled: bool, fee_to_address: Address, fee_token: TokenIdentifier, fee_percent: u64, special_fee_percent: u64) -> bool {
        &&& (after.trusted() == self.trusted())
        &&& (after.whitelisted() == self.whitelisted())
        &&& (r is Err ==> after.dests() == self.dests())
        &&& (fee_percent == 0 ==> r == Err::<(), FeeError>(FeeError::ZeroPercent))
        &&& (fee_percent != 0 && !valid_esdt_identifier(fee_token@) ==> r == Err::<(), FeeError>(FeeError::InvalidTokenId))
        &&& (fee_percent != 0 && valid_esdt_identifier(fee_token@) && enabled ==> {
                    if percent_sum(self.dests()) + fee_percent > special_fee_percent {
                        r == Err::<(), FeeError>(FeeError::PercentSumExceeded)
                    } else {
                        r is Ok && (forall|i: int|
                            0 <= i < self.dests().len() && self.dests()[i].0 == fee_to_address@
                                && self.dests()[i].1 == fee_token@ ==> after.dests() == self.dests().update(
                                i,
                                (fee_to_address@, fee_token@, (self.dests()[i].2 + fee_percent) as u64),
                            )) && ((forall|j: int|
                            0 <= j < self.dests().len() ==> !(#[trigger] self.dests()[j].0 == fee_to_address@
                                && self.dests()[j].1 == fee_token@)) ==> after.dests() == self.dests().push(
                            (fee_to_address@, fee_token@, fee_percent),
                        ))
                    }
                })
        &&& (fee_percent != 0 && valid_esdt_identifier(fee_token@) && !enabled ==> {
                    &&& (forall|j: int|
                        0 <= j < self.dests().len() ==> !(#[trigger] self.dests()[j].0 == fee_to_address@
                            && self.dests()[j].1 == fee_token@)) ==> r == Err::<(), FeeError>(FeeError::DestinationNotFound)
                    &&& forall|i: int|
                        0 <= i < self.dests().len() && self.dests()[i].0 == fee_to_address@ && self.dests()[i].1
                            == fee_token@ ==> {
                            if self.dests()[i].2 < fee_percent {
                                r == Err::<(), FeeError>(FeeError::PercentAboveCurrent)
                            } else if self.dests()[i].2 > fee_percent {
                                r is Ok && after.dests() == self.dests().update(
                                    i,
                                    (fee_to_address@, fee_token@, (self.dests()[i].2 - fee_percent) as u64),
                                )
                            } else {
                                r is Ok && after.dests() == self.dests().remove(i)
                            }
                        }
                })
    }

    pub open spec fn dests(&self) -> Seq<(Seq<u8>, Seq<u8>, u64)> {
        self.destinations@.map_values(|d: FeeDestination| dest_view(d))
    }

    pub open spec fn trusted(&self) -> Seq<(Seq<u8>, Seq<u8>, Seq<u8>)> {
        self.trusted_swap_pairs@.map_values(|t: TrustedSwapPair| trusted_view(t))
    }

    pub open spec fn whitelisted(&self) -> Seq<Seq<u8>> {
        self.whitelist@.map_values(|a: Address| a@)
    }

    pub open spec fn wf(&self) -> bool {
        &&& forall|i: int, j: int|
            0 <= i < j < self.dests().len() ==> (#[trigger] self.dests()[i].0, self.dests()[i].1) != (
            #[trigger] self.dests()[j].0, self.dests()[j].1)
        &&& forall|i: int| 0 <= i < self.dests().len() ==> #[trigger] self.dests()[i].2 > 0
        &&& self.whitelisted().no_duplicates()
        &&& percent_sum(self.dests()) <= MAX_PERCENT
        &&& forall|i: int, j: int|
            0 <= i < j < self.trusted().len() ==> (#[trigger] self.trusted()[i].0, self.trusted()[i].1) != (
            #[trigger] self.trusted()[j].0, self.trusted()[j].1)
    }

    pub fn new() -> (r: FeeModule)
        ensures
            r.dests().len() == 0,
            r.trusted().len() == 0,
            r.whitelisted().len() == 0,
            r.wf(),
    {
        let r = FeeModule { destinations: Vec::new(), trusted_swap_pairs: Vec::new(), whitelist: Vec::new() };
        assert(r.whitelisted() =~= Seq::<Seq<u8>>::empty());
        assert(r.dests() =~= Seq::<(Seq<u8>, Seq<u8>, u64)>::empty());
        r
    }

    /// The fee is on while at least one destination is set.
    pub fn is_fee_enabled(&self) -> (r: bool)
        ensures
            r == (self.dests().len() > 0),
    {
        self.destinations.len() > 0
    }

    pub fn is_whitelisted(&self, address: &Address) -> (r: bool)
        ensures
            r == self.whitelisted().contains(address@),
    {
        let mut i: usize = 0;
        while i < self.whitelist.len()
            invariant
                0 <= i <= self.whitelist@.len(),
                forall|j: int| 0 <= j < i ==> self.whitelisted()[j] != address@,
            decreases self.whitelist@.len() - i,
        {
            if self.whitelist[i].same_as(address) {
                assert(self.whitelisted()[i as int] == address@);
                return true;
            }
            i = i + 1;
        }
        false
    }

    /// Adds a caller allowed to swap without fee; it must not be on the list yet.
    pub(crate) fn whitelist_endpoint(&mut self, address: Address) -> (r: Result<(), FeeError>)
        requires
            old(self).wf(),
        ensures
            final(self).wf(),
            old(self).whitelist_done(final(self), r, address),
    {
        if self.is_whitelisted(&address) {
            return Err(FeeError::AlreadyWhitelisted);
        }
        let ghost old_list = self.whitelisted();
        self.whitelist.push(address);
        assert(self.whitelisted() =~= old_list.push(address@));
        assert(self.dests() =~= old(self).dests());
        assert(self.trusted() =~= old(self).trusted());
        Ok(())
    }

    /// Takes a caller off the whitelist; it must be on it.
    pub(crate) fn remove_whitelist(&mut self, address: &Address) -> (r: Result<(), FeeError>)
        requires
            old(self).wf(),
        ensures
            final(self).wf(),
            old(self).unwhitelist_done(final(self), r, *address),
    {
        let mut i: usize = 0;
        while i < self.whitelist.len()
            invariant
                self.whitelist@ == old(self).whitelist@,
                old(self).wf(),
                self.destinations@ == old(self).destinations@,
                self.trusted_swap_pairs@ == old(self).trusted_swap_pairs@,
                0 <= i <= self.whitelist@.len(),
                forall|j: int| 0 <= j < i ==> self.whitelisted()[j] != address@,
            decreases self.whitelist@.len() - i,
        {
            if self.whitelist[i].same_as(address) {
                let ghost old_list = self.whitelisted();
                self.whitelist.remove(i);
                proof {
                    assert(self.whitelisted() =~= old_list.remove(i as int));
                    assert(old_list[i as int] == address@);
                    assert(old_list.contains(address@));
                    assert(self.whitelisted().no_duplicates()) by {
                        assert forall|x: int, y: int| 0 <= x < y < self.whitelisted().len() implies
                            self.whitelisted()[x] != self.whitelisted()[y] by {
                            let ox = if x < i { x } else { x + 1 };
                            let oy = if y < i { y } else { y + 1 };
                            assert(old_list[ox] != old_list[oy]);
                        }
                    }
                    assert(self.dests() =~= old(self).dests());
                    assert(self.trusted() =~= old(self).trusted());
                }
                return Ok(());
            }
            i = i + 1;
        }
        assert(!old(self).whitelisted().contains(address@)) by {
            if old(self).whitelisted().contains(address@) {
                let k = choose|k: int| 0 <= k < old(self).whitelisted().len() && old(self).whitelisted()[k] == address@;
                assert(self.whitelisted()[k] != address@);
            }
        }
        assert(self.whitelisted() =~= old(self).whitelisted());
        assert(self.dests() =~= old(self).dests());
        assert(self.trusted() =~= old(self).trusted());
        Err(FeeError::NotWhitelisted)
    }

    /// Index of the trusted pair that holds the two tokens in this order.
    pub fn find_trusted_swap_pair(&self, first_token: &TokenIdentifier, second_token: &TokenIdentifier) -> (r: Option<
        usize,
    >)
        ensures
            r is None <==> !has_trusted(self.trusted(), first_token@, second_token@),
            r matches Some(i) ==> i < self.trusted().len() && self.trusted()[i as int].0 == first_token@
                && self.trusted()[i as int].1 == second_token@,
    {
        let mut i: usize = 0;
        while i < self.trusted_swap_pairs.len()
            invariant
                0 <= i <= self.trusted().len(),
                forall|j: int| 0 <= j < i ==> !(#[trigger] self.trusted()[j].0 == first_token@ && self.trusted()[j].1 == second_token@),
            decreases self.trusted().len() - i,
        {
            if self.trusted_swap_pairs[i].token_pair.is(first_token, second_token) {
                assert(self.trusted()[i as int].0 == first_token@ && self.trusted()[i as int].1 == second_token@);
                return Some(i);
            }
            i = i + 1;
        }
        None
    }

    /// Address of the trusted pair for the two tokens, in either order, the given order first.
    pub fn get_extern_swap_pair_address(&self, first_token: &TokenIdentifier, second_token: &TokenIdentifier) -> (r:
        Option<Address>)
        requires
            self.wf(),
        ensures
            r is None <==> !has_trusted(self.trusted(), first_token@, second_token@) && !has_trusted(
                self.trusted(),
                second_token@,
                first_token@,
            ),
            r matches Some(a) ==> trusted_address(self.trusted(), first_token@, second_token@) == Some(a@),
            has_trusted(self.trusted(), first_token@, second_token@) ==> (r matches Some(a) && exists|i: int|
                0 <= i < self.trusted().len() && #[trigger] self.trusted()[i] == (first_token@, second_token@, a@)),
            !has_trusted(self.trusted(), first_token@, second_token@) && has_trusted(
                self.trusted(),
                second_token@,
                first_token@,
            ) ==> (r matches Some(a) && exists|i: int|
                0 <= i < self.trusted().len() && #[trigger] self.trusted()[i] == (second_token@, first_token@, a@)),
    {
        match self.find_trusted_swap_pair(first_token, second_token) {
            Some(i) => {
                let a = self.trusted_swap_pairs[i].pair_address.copy();
                assert(self.trusted()[i as int] == (first_token@, second_token@, a@));
                proof {
                    let t = self.trusted();
                    assert(trusted_entry(t, first_token@, second_token@, a@));
                    let c = choose|c: Seq<u8>| #[trigger] trusted_entry(t, first_token@, second_token@, c);
                    let j = choose|j: int| 0 <= j < t.len() && #[trigger] t[j] == (first_token@, second_token@, c);
                    if j != i as int {
                        let (x, y) = if j < i { (j, i as int) } else { (i as int, j) };
                        assert((t[x].0, t[x].1) != (t[y].0, t[y].1));
                    }
                }
                Some(a)
            },
            None => match self.find_trusted_swap_pair(second_token, first_token) {
                Some(i) => {
                    let a = self.trusted_swap_pairs[i].pair_address.copy();
                    assert(self.trusted()[i as int] == (second_token@, first_token@, a@));
                    proof {
                        let t = self.trusted();
                        assert(trusted_entry(t, second_token@, first_token@, a@));
                        let c = choose|c: Seq<u8>| #[trigger] trusted_entry(t, second_token@, first_token@, c);
                        let j = choose|j: int| 0 <= j < t.len() && #[trigger] t[j] == (second_token@, first_token@, c);
                        if j != i as int {
                            let (x, y) = if j < i { (j, i as int) } else { (i as int, j) };
                            assert((t[x].0, t[x].1) != (t[y].0, t[y].1));
                        }
                    }
                    Some(a)
                },
                None => None,
            },
        }
    }

    /// Trusts a pair contract to swap between two distinct tokens, in this order.
    pub(crate) fn add_trusted_swap_pair(&mut self, pair_address: Address, first_token: TokenIdentifier, second_token: TokenIdentifier) -> (r:
        Result<(), FeeError>)
        requires
            old(self).wf(),
        ensures
            final(self).wf(),
            old(self).trust_done(final(self), r, pair_address, first_token, second_token),
    {
        if first_token.same_as(&second_token) {
            return Err(FeeError::SameTokens);
        }
        if self.find_trusted_swap_pair(&first_token, &second_token).is_some() {
            return Err(FeeError::PairAlreadyTrusted);
        }
        let ghost old_trusted = self.trusted();
        let entry = TrustedSwapPair { token_pair: TokenPair { first_token, second_token }, pair_address };
        self.trusted_swap_pairs.push(entry);
        proof {
            assert(self.trusted() =~= old_trusted.push(trusted_view(entry)));
            assert(self.dests() =~= old(self).dests());
            assert(self.whitelisted() =~= old(self).whitelisted());
            assert forall|i: int, j: int| 0 <= i < j < self.trusted().len() implies (
            #[trigger] self.trusted()[i].0, self.trusted()[i].1) != (#[trigger] self.trusted()[j].0, self.trusted()[j].1) by {
                if j == self.trusted().len() - 1 {
                    assert(self.trusted()[i] == old_trusted[i]);
                }
            }
        }
        Ok(())
    }

    /// Stops trusting the pair of the two tokens, looked up in the given order first.
    pub(crate) fn remove_trusted_swap_pair(&mut self, first_token: &TokenIdentifier, second_token: &TokenIdentifier) -> (r:
        Result<(), FeeError>)
        requires
            old(self).wf(),
        ensures
            final(self).wf(),
            old(self).untrust_done(final(self), r, *first_token, *second_token),
    {
        let index = match self.find_trusted_swap_pair(first_token, second_token) {
            Some(i) => i,
            None => match self.find_trusted_swap_pair(second_token, first_token) {
                Some(i) => i,
                None => return Err(FeeError::PairNotTrusted),
            },
        };
        let ghost old_trusted = self.trusted();
        self.trusted_swap_pairs.remove(index);
        proof {
            assert(self.trusted() =~= old_trusted.remove(index as int));
            assert(self.dests() =~= old(self).dests());
            assert(self.whitelisted() =~= old(self).whitelisted());
            assert forall|i: int, j: int| 0 <= i < j < self.trusted().len() implies (
            #[trigger] self.trusted()[i].0, self.trusted()[i].1) != (#[trigger] self.trusted()[j].0, self.trusted()[j].1) by {
                let oi = if i < index { i } else { i + 1 };
                let oj = if j < index { j } else { j + 1 };
                assert(self.trusted()[i] == old_trusted[oi]);
                assert(self.trusted()[j] == old_trusted[oj]);
            }
        }
        Ok(())
    }

    /// Index of the destination of this address and token.
    pub fn find_destination(&self, address: &Address, token_id: &TokenIdentifier) -> (r: Option<usize>)
        ensures
            r is None <==> forall|j: int|
                0 <= j < self.dests().len() ==> !(#[trigger] self.dests()[j].0 == address@ && self.dests()[j].1 == token_id@),
            r matches Some(i) ==> i < self.dests().len() && self.dests()[i as int].0 == address@
                && self.dests()[i as int].1 == token_id@,
    {
        let mut i: usize = 0;
        while i < self.destinations.len()
            invariant
                0 <= i <= self.dests().len(),
                forall|j: int| 0 <= j < i ==> !(#[trigger] self.dests()[j].0 == address@ && self.dests()[j].1 == token_id@),
            decreases self.dests().len() - i,
        {
            if self.destinations[i].address.same_as(address) && self.destinations[i].token_id.same_as(token_id) {
                assert(self.dests()[i as int].0 == address@ && self.dests()[i as int].1 == token_id@);
                return Some(i);
            }
            i = i + 1;
        }
        None
    }

    /// Sum of the percents of all destinations.
    pub fn percent_total(&self) -> (r: u64)
        requires
            self.wf(),
        ensures
            r == percent_sum(self.dests()),
    {
        let mut total: u64 = 0;
        let mut i: usize = 0;
        proof {
            assert forall|k: int| 0 <= k <= self.dests().len() implies #[trigger] percent_sum(self.dests().take(k))
                <= percent_sum(self.dests()) by {
                lemma_percent_sum_prefix(self.dests(), k);
            }
            assert(self.dests().take(0) =~= Seq::<(Seq<u8>, Seq<u8>, u64)>::empty());
        }
        while i < self.destinations.len()
            invariant
                self.wf(),
                0 <= i <= self.dests().len(),
                total == percent_sum(self.dests().take(i as int)),
                forall|k: int| 0 <= k <= self.dests().len() ==> #[trigger] percent_sum(self.dests().take(k)) <= percent_sum(self.dests()),
            decreases self.dests().len() - i,
        {
            proof {
                assert(self.dests().take(i + 1).drop_last() =~= self.dests().take(i as int));
                assert(self.dests()[i as int] == dest_view(self.destinations@[i as int]));
                assert(percent_sum(self.dests().take(i + 1)) <= percent_sum(self.dests()));
            }
            total = total + self.destinations[i].percent;
            i = i + 1;
        }
        assert(self.dests().take(i as int) =~= self.dests());
        total
    }

    /// Adds `fee_percent` to the destination of this address and token (`enabled`), or takes it
    /// off; a destination whose percent falls to zero is removed. The percents of all
    /// destinations may not exceed `special_fee_percent` together.
    pub(crate) fn set_fee_on(
        &mut self,
        enabled: bool,
        fee_to_address: Address,
        fee_token: TokenIdentifier,
        fee_percent: u64,
        special_fee_percent: u64,
    ) -> (r: Result<(), FeeError>)
        requires
            old(self).wf(),
            special_fee_percent <= MAX_PERCENT,
        ensures
            final(self).wf(),
            old(self).fee_set_done(final(self), r, enabled, fee_to_address, fee_token, fee_percent, special_fee_percent),
    {
        if fee_percent == 0 {
            return Err(FeeError::ZeroPercent);
        }
        if !fee_token.is_valid_esdt_identifier() {
            return Err(FeeError::InvalidTokenId);
        }
        let percent_sum_now = self.percent_total();
        let found = self.find_destination(&fee_to_address, &fee_token);
        let ghost old_dests = self.dests();
        proof {
            lemma_percent_sum_positive(old_dests);
        }
        if enabled {
            if (percent_sum_now as u128) + (fee_percent as u128) > (special_fee_percent as u128) {
                return Err(FeeError::PercentSumExceeded);
            }
            match found {
                Some(i) => {
                    assert(old_dests[i as int].2 <= percent_sum(old_dests));
                    let new_percent = self.destinations[i].percent + fee_percent;
                    let entry = FeeDestination { address: fee_to_address, token_id: fee_token, percent: new_percent };
                    self.destinations.set(i, entry);
                    proof {
                        assert(self.dests() =~= old_dests.update(i as int, dest_view(entry)));
                        lemma_percent_sum_update(old_dests, i as int, dest_view(entry));
                        self.lemma_keys_kept_on_update(old_dests, i as int);
                    }
                },
                None => {
                    let entry = FeeDestination { address: fee_to_address, token_id: fee_token, percent: fee_percent };
                    self.destinations.push(entry);
                    proof {
                        assert(self.dests() =~= old_dests.push(dest_view(entry)));
                        assert(self.dests().drop_last() =~= old_dests);
                        assert forall|i: int, j: int| 0 <= i < j < self.dests().len() implies (
                        #[trigger] self.dests()[i].0, self.dests()[i].1) != (#[trigger] self.dests()[j].0, self.dests()[j].1) by {
                            if j == self.dests().len() - 1 {
                                assert(self.dests()[i] == old_dests[i]);
                            }
                        }
                    }
                },
            }
        } else {
            let i = match found {
                Some(i) => i,
                None => return Err(FeeError::DestinationNotFound),
            };
            let old_percent = self.destinations[i].percent;
            if old_percent < fee_percent {
                return Err(FeeError::PercentAboveCurrent);
            }
            if old_percent > fee_percent {
                let entry = FeeDestination { address: fee_to_address, token_id: fee_token, percent: old_percent - fee_percent };
                self.destinations.set(i, entry);
                proof {
                    assert(self.dests() =~= old_dests.update(i as int, dest_view(entry)));
                    lemma_percent_sum_update(old_dests, i as int, dest_view(entry));
                    self.lemma_keys_kept_on_update(old_dests, i as int);
                }
            } else {
                self.destinations.remove(i);
                proof {
                    assert(self.dests() =~= old_dests.remove(i as int));
                    lemma_percent_sum_remove(old_dests, i as int);
                    assert forall|x: int, y: int| 0 <= x < y < self.dests().len() implies (
                    #[trigger] self.dests()[x].0, self.dests()[x].1) != (#[trigger] self.dests()[y].0, self.dests()[y].1) by {
                        let ox = if x < i { x } else { x + 1 };
                        let oy = if y < i { y } else { y + 1 };
                        assert(self.dests()[x] == old_dests[ox]);
                        assert(self.dests()[y] == old_dests[oy]);
                    }
                }
            }
        }
        proof {
            assert(self.trusted() =~= old(self).trusted());
            assert(self.whitelisted() =~= old(self).whitelisted());
        }
        Ok(())
    }

    proof fn lemma_keys_kept_on_update(&self, old_dests: Seq<(Seq<u8>, Seq<u8>, u64)>, i: int)
        requires
            0 <= i < old_dests.len(),
            self.dests().len() == old_dests.len(),
            forall|j: int| 0 <= j < old_dests.len() && j != i ==> self.dests()[j] == old_dests[j],
            self.dests()[i].0 == old_dests[i].0,
            self.dests()[i].1 == old_dests[i].1,
            forall|x: int, y: int|
                0 <= x < y < old_dests.len() ==> (#[trigger] old_dests[x].0, old_dests[x].1) != (
                #[trigger] old_dests[y].0, old_dests[y].1),
        ensures
            forall|x: int, y: int|
                0 <= x < y < self.dests().len() ==> (#[trigger] self.dests()[x].0, self.dests()[x].1) != (
                #[trigger] self.dests()[y].0, self.dests()[y].1),
    {
        assert forall|x: int, y: int| 0 <= x < y < self.dests().len() implies (#[trigger] self.dests()[x].0, self.dests()[x].1)
            != (#[trigger] self.dests()[y].0, self.dests()[y].1) by {
            assert(old_dests[x].0 == self.dests()[x].0 && old_dests[x].1 == self.dests()[x].1);
            assert(old_dests[y].0 == self.dests()[y].0 && old_dests[y].1 == self.dests()[y].1);
        }
    }

    /// Splits a collected fee among the destinations in proportion to their percents,
    /// leaving out slices that round down to zero.
    pub fn fee_slices(&self, fee_amount: u128) -> (r: Result<Vec<FeeSlice>, FeeError>)
        requires
            self.wf(),
        ensures
            fee_amount == 0 || self.dests().len() == 0 ==> (r matches Ok(v) && v@.len() == 0),
            r matches Ok(v) ==> forall|j: int| 0 <= j < v@.len() ==> #[trigger] v@[j].amount > 0,
            fee_amount > 0 && self.dests().len() > 0 ==> {
                &&& (exists|i: int| 0 <= i < self.dests().len() && !fits(fee_amount * #[trigger] self.dests()[i].2))
                    ==> r == Err::<Vec<FeeSlice>, FeeError>(FeeError::ArithmeticOverflow)
                &&& (forall|i: int| 0 <= i < self.dests().len() ==> fits(fee_amount * #[trigger] self.dests()[i].2))
                    ==> (r matches Ok(v) && v@.map_values(|f: FeeSlice| slice_view(f)) == slices_spec(
                    self.dests(),
                    fee_amount as int,
                    percent_sum(self.dests()),
                ))
            },
    {
        let mut result: Vec<FeeSlice> = Vec::new();
        if fee_amount == 0 || self.destinations.len() == 0 {
            return Ok(result);
        }
        let total = self.percent_total();
        proof {
            lemma_percent_sum_positive(self.dests());
        }
        let mut i: usize = 0;
        while i < self.destinations.len()
            invariant
                self.wf(),
                total == percent_sum(self.dests()),
                total > 0,
                fee_amount > 0,
                self.dests().len() > 0,
                forall|j: int| 0 <= j < result@.len() ==> #[trigger] result@[j].amount > 0,
                0 <= i <= self.dests().len(),
                forall|j: int| 0 <= j < i ==> fits(fee_amount * #[trigger] self.dests()[j].2),
                result@.map_values(|f: FeeSlice| slice_view(f)) == slices_spec(
                    self.dests().take(i as int),
                    fee_amount as int,
                    total as int,
                ),
            decreases self.dests().len() - i,
        {
            let d = &self.destinations[i];
            assert(self.dests()[i as int] == dest_view(*d));
            let product = match fee_amount.checked_mul(d.percent as u128) {
                Some(v) => v,
                None => {
                    assert(!fits(fee_amount * self.dests()[i as int].2));
                    return Err(FeeError::ArithmeticOverflow);
                },
            };
            assert(0 <= product / (total as u128) <= product) by (nonlinear_arith)
                requires total > 0, product >= 0;
            let slice = product / (total as u128);
            let ghost before = result@.map_values(|f: FeeSlice| slice_view(f));
            proof {
                assert(self.dests().take(i + 1).drop_last() =~= self.dests().take(i as int));
                assert(self.dests().take(i + 1).last() == self.dests()[i as int]);
            }
            if slice != 0 {
                let f = FeeSlice { address: d.address.copy(), requested_token_id: d.token_id.copy(), amount: slice };
                result.push(f);
                assert(result@.map_values(|f: FeeSlice| slice_view(f)) =~= before.push(slice_view(f)));
            }
            i = i + 1;
        }
        assert(self.dests().take(i as int) =~= self.dests());
        Ok(result)
    }

    /// The destinations in the order they were added: address, token and percent.
    pub fn get_fee_destinations(&self) -> (r: Vec<(Address, TokenIdentifier, u64)>)
        ensures
            r@.len() == self.dests().len(),
            forall|i: int|
                0 <= i < r@.len() ==> (#[trigger] r@[i].0@, r@[i].1@, r@[i].2) == self.dests()[i],
    {
        let mut r: Vec<(Address, TokenIdentifier, u64)> = Vec::new();
        let mut i: usize = 0;
        while i < self.destinations.len()
            invariant
                0 <= i <= self.dests().len(),
                r@.len() == i,
                forall|j: int| 0 <= j < i ==> (#[trigger] r@[j].0@, r@[j].1@, r@[j].2) == self.dests()[j],
            decreases self.dests().len() - i,
        {
            let d = &self.destinations[i];
            r.push((d.address.copy(), d.token_id.copy(), d.percent));
            i = i + 1;
        }
        r
    }

    /// The trusted pairs in the order they were added.
    pub fn get_trusted_swap_pairs(&self) -> (r: Vec<(TokenPair, Address)>)
        ensures
            r@.len() == self.trusted().len(),
            forall|i: int|
                0 <= i < r@.len() ==> (#[trigger] r@[i].0.first_token@, r@[i].0.second_token@, r@[i].1@)
                    == self.trusted()[i],
    {
        let mut r: Vec<(TokenPair, Address)> = Vec::new();
        let mut i: usize = 0;
        while i < self.trusted_swap_pairs.len()
            invariant
                0 <= i <= self.trusted().len(),
                r@.len() == i,
                forall|j: int|
                    0 <= j < i ==> (#[trigger] r@[j].0.first_token@, r@[j].0.second_token@, r@[j].1@) == self.trusted()[j],
            decreases self.trusted().len() - i,
        {
            let t = &self.trusted_swap_pairs[i];
            r.push((TokenPair::new(&t.token_pair.first_token, &t.token_pair.second_token), t.pair_address.copy()));
            i = i + 1;
        }
        r
    }
}

} // verus!
