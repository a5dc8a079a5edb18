use vstd::prelude::*;

use crate::common::TokenIdentifier;

verus! {

/// Why a supply query failed.
#[derive(Clone, Copy, Debug, PartialEq, Eq, Structural)]
pub enum SupplyError {
    NegativeTotalSupply,
    ArithmeticOverflow,
}

/// The amount recorded for a token, zero where none is.
pub open spec fn amount_of(s: Seq<(Seq<u8>, u128)>, token: Seq<u8>) -> int {
    if exists|i: int| 0 <= i < s.len() && #[trigger] s[i].0 == token {
        s[choose|i: int| 0 <= i < s.len() && #[trigger] s[i].0 == token].1 as int
    } else {
        0
    }
}

/// Amounts per token, one entry per token, in the order the tokens first appeared.
pub struct TokenAmounts {
    pub entries: Vec<(TokenIdentifier, u128)>,
}

impl TokenAmounts {
    pub open spec fn view_entries(&self) -> Seq<(Seq<u8>, u128)> {
        self.entries@.map_values(|e: (TokenIdentifier, u128)| (e.0@, e.1))
    }

    pub open spec fn wf(&self) -> bool {
        forall|i: int, j: int|
            0 <= i < j < self.view_entries().len() ==> #[trigger] self.view_entries()[i].0 != #[trigger] self.view_entries()[j].0
    }

    pub fn new() -> (r: TokenAmounts)
        ensures
            r.wf(),
            forall|t: Seq<u8>| amount_of(r.view_entries(), t) == 0,
    {
        let r = TokenAmounts { entries: Vec::new() };
        assert(r.view_entries() =~= Seq::<(Seq<u8>, u128)>::empty());
        r
    }

    fn find(&self, token_id: &TokenIdentifier) -> (r: Option<usize>)
        ensures
            r is None <==> forall|j: int| 0 <= j < self.view_entries().len() ==> #[trigger] self.view_entries()[j].0 != token_id@,
            r matches Some(k) ==> k < self.view_entries().len() && self.view_entries()[k as int].0 == token_id@,
    {
        let mut k: usize = 0;
        while k < self.entries.len()
            invariant
                0 <= k <= self.view_entries().len(),
                forall|j: int| 0 <= j < k ==> #[trigger] self.view_entries()[j].0 != token_id@,
            decreases self.view_entries().len() - k,
        {
            if self.entries[k].0.same_as(token_id) {
                assert(self.view_entries()[k as int].0 == token_id@);
                return Some(k);
            }
            k = k + 1;
        }
        None
    }

    proof fn lemma_amount_at(&self, k: int)
        requires
            self.wf(),
            0 <= k < self.view_entries().len(),
        ensures
            amount_of(self.view_entries(), self.view_entries()[k].0) == self.view_entries()[k].1,
    {
        let s = self.view_entries();
        let t = s[k].0;
        let c = choose|i: int| 0 <= i < s.len() && #[trigger] s[i].0 == t;
        if c != k {
            let (x, y) = if c < k { (c, k) } else { (k, c) };
            assert(s[x].0 != s[y].0);
        }
    }

    /// The amount recorded for a token, zero where none is.
    pub fn get(&self, token_id: &TokenIdentifier) -> (r: u128)
        requires
            self.wf(),
        ensures
            r == amount_of(self.view_entries(), token_id@),
    {
        match self.find(token_id) {
            Some(k) => {
                proof {
                    self.lemma_amount_at(k as int);
                }
                self.entries[k].1
            },
            None => 0,
        }
    }

    /// Adds `amount` to the amount of a token; `false`, with nothing changed, where the sum
    /// exceeds an amount.
    pub fn increase(&mut self, token_id: &TokenIdentifier, amount: u128) -> (r: bool)
        requires
            old(self).wf(),
        ensures
            final(self).wf(),
            r == (amount_of(old(self).view_entries(), token_id@) + amount <= u128::MAX),
            r ==> amount_of(final(self).view_entries(), token_id@) == amount_of(old(self).view_entries(), token_id@) + amount,
            forall|t: Seq<u8>| t != token_id@ ==> amount_of(final(self).view_entries(), t) == amount_of(old(self).view_entries(), t),
            !r ==> final(self).view_entries() == old(self).view_entries(),
    {
        let ghost before = self.view_entries();
        match self.find(token_id) {
            Some(k) => {
                proof {
                    self.lemma_amount_at(k as int);
                }
                let current = self.entries[k].1;
                if current > u128::MAX - amount {
                    return false;
                }
                self.entries.set(k, (token_id.copy(), current + amount));
                proof {
                    assert(self.view_entries() =~= before.update(k as int, (token_id@, (current + amount) as u128)));
                    assert forall|x: int, y: int| 0 <= x < y < self.view_entries().len() implies #[trigger] self.view_entries()[x].0
                        != #[trigger] self.view_entries()[y].0 by {
                        assert(before[x].0 == self.view_entries()[x].0 && before[y].0 == self.view_entries()[y].0);
                    }
                    self.lemma_amount_at(k as int);
                    assert forall|t: Seq<u8>| t != token_id@ implies amount_of(self.view_entries(), t) == amount_of(before, t) by {
                        let s = self.view_entries();
                        if exists|i: int| 0 <= i < s.len() && #[trigger] s[i].0 == t {
                            let c = choose|i: int| 0 <= i < s.len() && #[trigger] s[i].0 == t;
                            assert(before[c].0 == t);
                            let d = choose|i: int| 0 <= i < before.len() && #[trigger] before[i].0 == t;
                            if c != d {
                                let (x, y) = if c < d { (c, d) } else { (d, c) };
                                assert(before[x].0 != before[y].0);
                            }
                        } else {
                            if exists|i: int| 0 <= i < before.len() && #[trigger] before[i].0 == t {
                                let d = choose|i: int| 0 <= i < before.len() && #[trigger] before[i].0 == t;
                                assert(s[d].0 == t);
                            }
                        }
                    }
                }
                true
            },
            None => {
                self.entries.push((token_id.copy(), amount));
                proof {
                    let n = before.len() as int;
                    assert(self.view_entries() =~= before.push((token_id@, amount)));
                    assert forall|x: int, y: int| 0 <= x < y < self.view_entries().len() implies #[trigger] self.view_entries()[x].0
                        != #[trigger] self.view_entries()[y].0 by {
                        assert(self.view_entries()[x] == before[x]);
                        if y < n {
                            assert(self.view_entries()[y] == before[y]);
                        }
                    }
                    self.lemma_amount_at(n);
                    assert forall|t: Seq<u8>| t != token_id@ implies amount_of(self.view_entries(), t) == amount_of(before, t) by {
                        let s = self.view_entries();
                        if exists|i: int| 0 <= i < s.len() && #[trigger] s[i].0 == t {
                            let c = choose|i: int| 0 <= i < s.len() && #[trigger] s[i].0 == t;
                            assert(c < n);
                            assert(before[c].0 == t);
                            let d = choose|i: int| 0 <= i < before.len() && #[trigger] before[i].0 == t;
                            if c != d {
                                let (x, y) = if c < d { (c, d) } else { (d, c) };
                                assert(before[x].0 != before[y].0);
                            }
                        } else {
                            if exists|i: int| 0 <= i < before.len() && #[trigger] before[i].0 == t {
                                let d = choose|i: int| 0 <= i < before.len() && #[trigger] before[i].0 == t;
                                assert(s[d].0 == t);
                            }
                        }
                    }
                }
                true
            },
        }
    }
}

/// Amounts of each token that a contract minted and burned.
pub struct TokenSupplyModule {
    pub generated_tokens: TokenAmounts,
    pub burned_tokens: TokenAmounts,
}

impl TokenSupplyModule {
    pub open spec fn wf(&self) -> bool {
        self.generated_tokens.wf() && self.burned_tokens.wf()
    }

    pub fn new() -> (r: TokenSupplyModule)
        ensures
            r.wf(),
            forall|t: Seq<u8>| amount_of(r.generated_tokens.view_entries(), t) == 0,
            forall|t: Seq<u8>| amount_of(r.burned_tokens.view_entries(), t) == 0,
    {
        TokenSupplyModule { generated_tokens: TokenAmounts::new(), burned_tokens: TokenAmounts::new() }
    }

    pub fn get_generated_token_amount(&self, token_id: &TokenIdentifier) -> (r: u128)
        requires
            self.wf(),
        ensures
            r == amount_of(self.generated_tokens.view_entries(), token_id@),
    {
        self.generated_tokens.get(token_id)
    }

    pub fn get_burned_token_amount(&self, token_id: &TokenIdentifier) -> (r: u128)
        requires
            self.wf(),
        ensures
            r == amount_of(self.burned_tokens.view_entries(), token_id@),
    {
        self.burned_tokens.get(token_id)
    }

    /// Records a mint of `amount`.
    pub fn increase_generated_amount(&mut self, token_id: &TokenIdentifier, amount: u128) -> (r: Result<(), SupplyError>)
        requires
            old(self).wf(),
        ensures
            final(self).wf(),
            final(self).burned_tokens.view_entries() == old(self).burned_tokens.view_entries(),
            r is Ok <==> amount_of(old(self).generated_tokens.view_entries(), token_id@) + amount <= u128::MAX,
            r is Ok ==> amount_of(final(self).generated_tokens.view_entries(), token_id@) == amount_of(
                old(self).generated_tokens.view_entries(),
                token_id@,
            ) + amount,
            r is Err ==> r == Err::<(), SupplyError>(SupplyError::ArithmeticOverflow),
            forall|t: Seq<u8>|
                t != token_id@ ==> amount_of(final(self).generated_tokens.view_entries(), t) == amount_of(
                    old(self).generated_tokens.view_entries(),
                    t,
                ),
    {
        if self.generated_tokens.increase(token_id, amount) {
            Ok(())
        } else {
            Err(SupplyError::ArithmeticOverflow)
        }
    }

    /// Records a burn of `amount`.
    pub fn increase_burned_amount(&mut self, token_id: &TokenIdentifier, amount: u128) -> (r: Result<(), SupplyError>)
        requires
            old(self).wf(),
        ensures
            final(self).wf(),
            final(self).generated_tokens.view_entries() == old(self).generated_tokens.view_entries(),
            r is Ok <==> amount_of(old(self).burned_tokens.view_entries(), token_id@) + amount <= u128::MAX,
            r is Ok ==> amount_of(final(self).burned_tokens.view_entries(), token_id@) == amount_of(
                old(self).burned_tokens.view_entries(),
                token_id@,
            ) + amount,
            r is Err ==> r == Err::<(), SupplyError>(SupplyError::ArithmeticOverflow),
            forall|t: Seq<u8>|
                t != token_id@ ==> amount_of(final(self).burned_tokens.view_entries(), t) == amount_of(
                    old(self).burned_tokens.view_entries(),
                    t,
                ),
    {
        if self.burned_tokens.increase(token_id, amount) {
            Ok(())
        } else {
            Err(SupplyError::ArithmeticOverflow)
        }
    }

    /// Minted less burned amount of a token.
    pub fn get_total_supply(&self, token_id: &TokenIdentifier) -> (r: Result<u128, SupplyError>)
        requires
            self.wf(),
        ensures
            ({
                let generated = amount_of(self.generated_tokens.view_entries(), token_id@);
                let burned = amount_of(self.burned_tokens.view_entries(), token_id@);
                r == if generated >= burned {
                    Ok::<u128, SupplyError>((generated - burned) as u128)
                } else {
                    Err::<u128, SupplyError>(SupplyError::NegativeTotalSupply)
                }
            }),
    {
        let generated = self.get_generated_token_amount(token_id);
        let burned = self.get_burned_token_amount(token_id);
        if generated >= burned {
            Ok(generated - burned)
        } else {
            Err(SupplyError::NegativeTotalSupply)
        }
    }
}

} // verus!
