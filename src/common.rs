use vstd::prelude::*;

verus! {

/// Nonce of a semi-fungible token batch (0 for a fungible token).
pub type Nonce = u64;

/// Epoch number of the chain.
pub type Epoch = u64;

/// ASCII `-`, the separator between a token's ticker and its random suffix.
pub const DASH: u8 = 45;

/// Length of the random suffix that follows the dash in a token identifier.
pub const RANDOM_SUFFIX_LEN: usize = 6;

/// Shortest and longest identifier: a ticker of 3 to 10 characters, a dash, a suffix.
pub const IDENTIFIER_MIN_LEN: usize = 10;

pub const IDENTIFIER_MAX_LEN: usize = 17;

/// Length of an account address in bytes.
pub const ADDRESS_LEN: usize = 32;

pub open spec fn is_upper_alnum(c: u8) -> bool {
    (65 <= c && c <= 90) || (48 <= c && c <= 57)
}

pub open spec fn is_lower_alnum(c: u8) -> bool {
    (97 <= c && c <= 122) || (48 <= c && c <= 57)
}

/// A token identifier has the shape `TICKER-abcdef`: an upper-case alphanumeric ticker of
/// 3 to 10 characters, a dash, and 6 lower-case alphanumeric characters.
pub open spec fn valid_esdt_identifier(s: Seq<u8>) -> bool {
    let dash = s.len() - RANDOM_SUFFIX_LEN - 1;
    &&& IDENTIFIER_MIN_LEN <= s.len() <= IDENTIFIER_MAX_LEN
    &&& s[dash] == DASH
    &&& forall|i: int| 0 <= i < dash ==> #[trigger] is_upper_alnum(s[i])
    &&& forall|i: int| dash < i < s.len() ==> #[trigger] is_lower_alnum(s[i])
}

/// Byte-wise equality of two buffers.
pub fn bytes_eq(a: &Vec<u8>, b: &Vec<u8>) -> (r: bool)
    ensures
        r == (a@ == b@),
{
    if a.len() != b.len() {
        return false;
    }
    let mut i: usize = 0;
    while i < a.len()
        invariant
            a.len() == b.len(),
            0 <= i <= a.len(),
            forall|j: int| 0 <= j < i ==> a@[j] == b@[j],
        decreases a.len() - i,
    {
        if a[i] != b[i] {
            return false;
        }
        i = i + 1;
    }
    assert(a@ =~= b@);
    true
}

/// Identifier of a fungible or semi-fungible token.
#[derive(Clone, Debug)]
pub struct TokenIdentifier {
    pub bytes: Vec<u8>,
}

impl View for TokenIdentifier {
    type V = Seq<u8>;

    open spec fn view(&self) -> Seq<u8> {
        self.bytes@
    }
}

impl TokenIdentifier {
    pub fn from_bytes(bytes: Vec<u8>) -> (r: TokenIdentifier)
        ensures
            r@ == bytes@,
    {
        TokenIdentifier { bytes }
    }

    pub fn copy(&self) -> (r: TokenIdentifier)
        ensures
            r@ == self@,
    {
        TokenIdentifier { bytes: self.bytes.clone() }
    }

    pub fn same_as(&self, other: &TokenIdentifier) -> (r: bool)
        ensures
            r == (self@ == other@),
    {
        bytes_eq(&self.bytes, &other.bytes)
    }

    /// Whether the identifier has the shape of an issued token: `TICKER-abcdef`.
    pub fn is_valid_esdt_identifier(&self) -> (r: bool)
        ensures
            r == valid_esdt_identifier(self@),
    {
        let s = &self.bytes;
        let len = s.len();
        if len < IDENTIFIER_MIN_LEN || len > IDENTIFIER_MAX_LEN {
            return false;
        }
        let dash = len - RANDOM_SUFFIX_LEN - 1;
        if s[dash] != DASH {
            return false;
        }
        let mut i: usize = 0;
        while i < dash
            invariant
                s@ == self@,
                len == s@.len(),
                dash == len - RANDOM_SUFFIX_LEN - 1,
                IDENTIFIER_MIN_LEN <= len <= IDENTIFIER_MAX_LEN,
                0 <= i <= dash,
                forall|j: int| 0 <= j < i ==> #[trigger] is_upper_alnum(s@[j]),
            decreases dash - i,
        {
            let c = s[i];
            if !((65 <= c && c <= 90) || (48 <= c && c <= 57)) {
                assert(!is_upper_alnum(s@[i as int]));
                return false;
            }
            i = i + 1;
        }
        let mut k: usize = dash + 1;
        while k < len
            invariant
                s@ == self@,
                len == s@.len(),
                dash == len - RANDOM_SUFFIX_LEN - 1,
                dash + 1 <= k <= len,
                forall|j: int| dash < j < k ==> #[trigger] is_lower_alnum(s@[j]),
            decreases len - k,
        {
            let c = s[k];
            if !((97 <= c && c <= 122) || (48 <= c && c <= 57)) {
                assert(!is_lower_alnum(s@[k as int]));
                return false;
            }
            k = k + 1;
        }
        true
    }
}

/// The bytes of an optional identifier.
pub open spec fn opt_id(o: Option<TokenIdentifier>) -> Option<Seq<u8>> {
    match o {
        Some(t) => Some(t@),
        None => None,
    }
}

impl PartialEq for TokenIdentifier {
    fn eq(&self, other: &TokenIdentifier) -> (r: bool) {
        bytes_eq(&self.bytes, &other.bytes)
    }
}

impl vstd::std_specs::cmp::PartialEqSpecImpl for TokenIdentifier {
    open spec fn obeys_eq_spec() -> bool {
        true
    }

    open spec fn eq_spec(&self, other: &TokenIdentifier) -> bool {
        self@ == other@
    }
}

/// An account or contract address.
#[derive(Clone, Debug)]
pub struct Address {
    pub bytes: Vec<u8>,
}

impl View for Address {
    type V = Seq<u8>;

    open spec fn view(&self) -> Seq<u8> {
        self.bytes@
    }
}

/// The all-zero address, which stands for "nobody": fees sent there are burned.
pub open spec fn zero_address() -> Seq<u8> {
    Seq::new(ADDRESS_LEN as nat, |i: int| 0u8)
}

impl Address {
    pub fn from_bytes(bytes: Vec<u8>) -> (r: Address)
        ensures
            r@ == bytes@,
    {
        Address { bytes }
    }

    pub fn zero() -> (r: Address)
        ensures
            r@ == zero_address(),
    {
        let mut bytes: Vec<u8> = Vec::new();
        let mut i: usize = 0;
        while i < ADDRESS_LEN
            invariant
                0 <= i <= ADDRESS_LEN,
                bytes@.len() == i,
                forall|j: int| 0 <= j < i ==> bytes@[j] == 0u8,
            decreases ADDRESS_LEN - i,
        {
            bytes.push(0u8);
            i = i + 1;
        }
        assert(bytes@ =~= zero_address());
        Address { bytes }
    }

    pub fn copy(&self) -> (r: Address)
        ensures
            r@ == self@,
    {
        Address { bytes: self.bytes.clone() }
    }

    pub fn same_as(&self, other: &Address) -> (r: bool)
        ensures
            r == (self@ == other@),
    {
        bytes_eq(&self.bytes, &other.bytes)
    }

    pub fn is_zero(&self) -> (r: bool)
        ensures
            r == (self@ == zero_address()),
    {
        let z = Address::zero();
        bytes_eq(&self.bytes, &z.bytes)
    }
}

impl PartialEq for Address {
    fn eq(&self, other: &Address) -> (r: bool) {
        bytes_eq(&self.bytes, &other.bytes)
    }
}

impl vstd::std_specs::cmp::PartialEqSpecImpl for Address {
    open spec fn obeys_eq_spec() -> bool {
        true
    }

    open spec fn eq_spec(&self, other: &Address) -> bool {
        self@ == other@
    }
}

/// Lifecycle state of a contract.
#[derive(Clone, Copy, Debug, PartialEq, Eq, Structural)]
pub enum State {
    Inactive,
    Active,
    ActiveNoSwaps,
}

/// An amount of a fungible token.
#[derive(Clone, Debug)]
pub struct FftTokenAmountPair {
    pub token_id: TokenIdentifier,
    pub amount: u128,
}

impl FftTokenAmountPair {
    pub fn new(token_id: &TokenIdentifier, amount: u128) -> (r: FftTokenAmountPair)
        ensures
            r.token_id@ == token_id@,
            r.amount == amount,
    {
        FftTokenAmountPair { token_id: token_id.copy(), amount }
    }
}

/// An amount of a token batch, fungible (nonce 0) or semi-fungible.
#[derive(Clone, Debug)]
pub struct GenericTokenAmountPair {
    pub token_id: TokenIdentifier,
    pub token_nonce: Nonce,
    pub amount: u128,
}

impl GenericTokenAmountPair {
    pub fn new(token_id: &TokenIdentifier, token_nonce: Nonce, amount: u128) -> (r: GenericTokenAmountPair)
        ensures
            r.token_id@ == token_id@,
            r.token_nonce == token_nonce,
            r.amount == amount,
    {
        GenericTokenAmountPair { token_id: token_id.copy(), token_nonce, amount }
    }

    pub fn copy(&self) -> (r: GenericTokenAmountPair)
        ensures
            r.token_id@ == self.token_id@,
            r.token_nonce == self.token_nonce,
            r.amount == self.amount,
    {
        GenericTokenAmountPair { token_id: self.token_id.copy(), token_nonce: self.token_nonce, amount: self.amount }
    }
}

/// An ordered pair of tokens.
#[derive(Clone, Debug)]
pub struct TokenPair {
    pub first_token: TokenIdentifier,
    pub second_token: TokenIdentifier,
}

impl TokenPair {
    pub fn new(first_token: &TokenIdentifier, second_token: &TokenIdentifier) -> (r: TokenPair)
        ensures
            r.first_token@ == first_token@,
            r.second_token@ == second_token@,
    {
        TokenPair { first_token: first_token.copy(), second_token: second_token.copy() }
    }

    /// Whether this pair holds the two tokens in this order.
    pub fn is(&self, first_token: &TokenIdentifier, second_token: &TokenIdentifier) -> (r: bool)
        ensures
            r == (self.first_token@ == first_token@ && self.second_token@ == second_token@),
    {
        self.first_token.same_as(first_token) && self.second_token.same_as(second_token)
    }
}

/// A point of a locked asset's unlock schedule.
#[derive(Clone, Copy, Debug, PartialEq, Eq, Structural)]
pub struct UnlockMilestone {
    pub unlock_epoch: u64,
    pub unlock_percent: u8,
}

/// What a wrapped LP token stands for: a part of an LP position bought with locked assets.
#[derive(Clone, Debug)]
pub struct WrappedLpTokenAttributes {
    pub lp_token_id: TokenIdentifier,
    pub lp_token_total_amount: u128,
    pub locked_assets_invested: u128,
    pub locked_assets_nonce: Nonce,
}

impl WrappedLpTokenAttributes {
    pub fn copy(&self) -> (r: WrappedLpTokenAttributes)
        ensures
            r.lp_token_id@ == self.lp_token_id@,
            r.lp_token_total_amount == self.lp_token_total_amount,
            r.locked_assets_invested == self.locked_assets_invested,
            r.locked_assets_nonce == self.locked_assets_nonce,
    {
        WrappedLpTokenAttributes {
            lp_token_id: self.lp_token_id.copy(),
            lp_token_total_amount: self.lp_token_total_amount,
            locked_assets_invested: self.locked_assets_invested,
            locked_assets_nonce: self.locked_assets_nonce,
        }
    }
}

/// What a wrapped farm token stands for: a farm position entered with a proxied token.
#[derive(Clone, Debug)]
pub struct WrappedFarmTokenAttributes {
    pub farm_token_id: TokenIdentifier,
    pub farm_token_nonce: Nonce,
    pub farm_token_amount: u128,
    pub farming_token_id: TokenIdentifier,
    pub farming_token_nonce: Nonce,
    pub farming_token_amount: u128,
}

/// What a farm position token records of the position.
#[derive(Clone, Copy, Debug, PartialEq, Eq, Structural)]
pub struct FarmTokenAttributes {
    pub reward_per_share: u128,
    pub original_entering_epoch: Epoch,
    pub entering_epoch: Epoch,
    pub apr_multiplier: u8,
    pub with_locked_rewards: bool,
    pub initial_farming_amount: u128,
    pub compounded_reward: u128,
    pub current_farm_amount: u128,
}

} // verus!
