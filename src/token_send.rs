use vstd::prelude::*;

use crate::amm::fits;
use crate::common::{GenericTokenAmountPair, Nonce, TokenIdentifier};

verus! {

pub type PaymentView = (Seq<u8>, Nonce, int);

pub open spec fn payment_view(p: GenericTokenAmountPair) -> PaymentView {
    (p.token_id@, p.token_nonce, p.amount as int)
}

/// Whether a list of payments holds a payment of this token and nonce.
pub open spec fn has_key(c: Seq<PaymentView>, token: Seq<u8>, nonce: Nonce) -> bool {
    exists|j: int| 0 <= j < c.len() && #[trigger] c[j].0 == token && c[j].1 == nonce
}

/// Where a payment of this token and nonce stands in a list that holds one.
pub open spec fn key_index(c: Seq<PaymentView>, token: Seq<u8>, nonce: Nonce) -> int {
    choose|j: int| 0 <= j < c.len() && #[trigger] c[j].0 == token && c[j].1 == nonce
}

/// Payments merged per token and nonce, in the order each first appears; zero payments
/// are left out.
pub open spec fn compact_spec(s: Seq<PaymentView>) -> Seq<PaymentView>
    decreases s.len(),
{
    if s.len() == 0 {
        Seq::empty()
    } else {
        let c = compact_spec(s.drop_last());
        let p = s.last();
        if p.2 == 0 {
            c
        } else if has_key(c, p.0, p.1) {
            let j = key_index(c, p.0, p.1);
            c.update(j, (p.0, p.1, c[j].2 + p.2))
        } else {
            c.push(p)
        }
    }
}

pub open spec fn amount_sum(s: Seq<PaymentView>) -> int
    decreases s.len(),
{
    if s.len() == 0 {
        0
    } else {
        amount_sum(s.drop_last()) + s.last().2
    }
}

pub open spec fn keys_unique(c: Seq<PaymentView>) -> bool {
    forall|i: int, j: int| 0 <= i < j < c.len() ==> (#[trigger] c[i].0, c[i].1) != (#[trigger] c[j].0, c[j].1)
}

proof fn lemma_amount_sum_prefix(s: Seq<PaymentView>, k: int)
    requires
        0 <= k <= s.len(),
        forall|i: int| 0 <= i < s.len() ==> #[trigger] s[i].2 >= 0,
    ensures
        amount_sum(s.take(k)) <= amount_sum(s),
    decreases s.len(),
{
    if k == s.len() {
        assert(s.take(k) =~= s);
    } else {
        assert(s.take(k) =~= s.drop_last().take(k));
        lemma_amount_sum_prefix(s.drop_last(), k);
    }
}

/// How a list of payments leaves the contract.
#[derive(Clone, Debug)]
pub enum TransferPlan {
    /// Nothing to send.
    Nothing,
    /// One transfer of a fungible token.
    Fungible { token_id: TokenIdentifier, amount: u128 },
    /// One transfer of a semi-fungible token batch.
    NonFungible { token_id: TokenIdentifier, nonce: Nonce, amount: u128 },
    /// One transfer of several tokens.
    Multiple { payments: Vec<GenericTokenAmountPair> },
}

/// Merges payments of the same token and nonce, leaves out zero payments and keeps the
/// order in which each token first appears. `None` where a merged amount exceeds an amount.
pub fn compact_payments(payments: &Vec<GenericTokenAmountPair>) -> (r: Option<Vec<GenericTokenAmountPair>>)
    ensures
        r matches Some(v) ==> v@.map_values(|p: GenericTokenAmountPair| payment_view(p)) == compact_spec(
            payments@.map_values(|p: GenericTokenAmountPair| payment_view(p)),
        ),
        r is None ==> !fits(amount_sum(payments@.map_values(|p: GenericTokenAmountPair| payment_view(p)))),
{
    let ghost all = payments@.map_values(|p: GenericTokenAmountPair| payment_view(p));
    let mut compact: Vec<GenericTokenAmountPair> = Vec::new();
    let mut i: usize = 0;
    proof {
        assert(all.take(0) =~= Seq::<PaymentView>::empty());
        assert(compact@.map_values(|p: GenericTokenAmountPair| payment_view(p)) =~= Seq::<PaymentView>::empty());
    }
    while i < payments.len()
        invariant
            all == payments@.map_values(|p: GenericTokenAmountPair| payment_view(p)),
            0 <= i <= payments@.len(),
            compact@.map_values(|p: GenericTokenAmountPair| payment_view(p)) == compact_spec(all.take(i as int)),
            keys_unique(compact_spec(all.take(i as int))),
            forall|j: int| 0 <= j < compact@.len() ==> #[trigger] compact@[j].amount <= amount_sum(all.take(i as int)),
        decreases payments@.len() - i,
    {
        let ghost c = compact_spec(all.take(i as int));
        let ghost cv = compact@.map_values(|p: GenericTokenAmountPair| payment_view(p));
        let ghost before = compact@;
        proof {
            assert(all.take(i as int) =~= payments@.take(i as int).map_values(|q: GenericTokenAmountPair| payment_view(q)));
            lemma_amount_sum_nonneg(all.take(i as int), payments@.take(i as int));
        }
        proof {
            assert(all.take(i + 1).drop_last() =~= all.take(i as int));
            assert(all.take(i + 1).last() == all[i as int]);
            assert(amount_sum(all.take(i + 1)) == amount_sum(all.take(i as int)) + payments@[i as int].amount);
        }
        let p = &payments[i];
        if p.amount != 0 {
            let found_at = find_payment(&compact, &p.token_id, p.token_nonce);
            assert(cv == compact@.map_values(|q: GenericTokenAmountPair| payment_view(q)));
            if found_at.is_some() {
                let k = found_at.unwrap();
                assert(cv[k as int].0 == p.token_id@ && cv[k as int].1 == p.token_nonce);
                proof {
                    assert(has_key(c, p.token_id@, p.token_nonce));
                    let j = key_index(c, p.token_id@, p.token_nonce);
                    if j != k {
                        let (x, y) = if j < k { (j, k as int) } else { (k as int, j) };
                        assert((c[x].0, c[x].1) != (c[y].0, c[y].1));
                    }
                }
                let merged = match compact[k].amount.checked_add(p.amount) {
                    Some(v) => v,
                    None => {
                        proof {
                            assert forall|x: int| 0 <= x < all.len() implies #[trigger] all[x].2 >= 0 by {
                                assert(all[x] == payment_view(payments@[x]));
                            }
                            lemma_amount_sum_prefix(all, i + 1);
                            assert(all.take(payments@.len() as int) =~= all);
                        }
                        return None;
                    },
                };
                let entry = GenericTokenAmountPair::new(&p.token_id, p.token_nonce, merged);
                compact.set(k, entry);
                proof {
                    assert(compact@.map_values(|q: GenericTokenAmountPair| payment_view(q)) =~= cv.update(
                        k as int,
                        payment_view(entry),
                    ));
                    let n = compact_spec(all.take(i + 1));
                    assert forall|x: int, y: int| 0 <= x < y < n.len() implies (#[trigger] n[x].0, n[x].1) != (
                    #[trigger] n[y].0, n[y].1) by {
                        assert(c[x].0 == n[x].0 && c[x].1 == n[x].1);
                        assert(c[y].0 == n[y].0 && c[y].1 == n[y].1);
                    }
                }
            } else {
                proof {
                    assert(!has_key(c, p.token_id@, p.token_nonce)) by {
                        if has_key(c, p.token_id@, p.token_nonce) {
                            let j = choose|j: int| 0 <= j < c.len() && #[trigger] c[j].0 == p.token_id@ && c[j].1 == p.token_nonce;
                            assert(cv[j] == payment_view(compact@[j]));
                        }
                    }
                }
                let entry = GenericTokenAmountPair::new(&p.token_id, p.token_nonce, p.amount);
                compact.push(entry);
                proof {
                    assert(compact@.map_values(|q: GenericTokenAmountPair| payment_view(q)) =~= cv.push(payment_view(entry)));
                    let n = compact_spec(all.take(i + 1));
                    assert forall|x: int, y: int| 0 <= x < y < n.len() implies (#[trigger] n[x].0, n[x].1) != (
                    #[trigger] n[y].0, n[y].1) by {
                        if y == c.len() {
                            assert(n[x] == c[x]);
                            assert(!(c[x].0 == p.token_id@ && c[x].1 == p.token_nonce));
                        }
                    }
                }
            }
        }
        proof {
            assert forall|j: int| 0 <= j < compact@.len() implies #[trigger] compact@[j].amount <= amount_sum(all.take(i + 1)) by {
                if j < before.len() && compact@[j] == before[j] {
                    assert(before[j].amount <= amount_sum(all.take(i as int)));
                }
            }
        }
        i = i + 1;
    }
    assert(all.take(i as int) =~= all);
    Some(compact)
}

proof fn lemma_amount_sum_nonneg(s: Seq<PaymentView>, p: Seq<GenericTokenAmountPair>)
    requires
        s == p.map_values(|q: GenericTokenAmountPair| payment_view(q)),
    ensures
        amount_sum(s) >= 0,
    decreases s.len(),
{
    if s.len() > 0 {
        assert(s.drop_last() =~= p.drop_last().map_values(|q: GenericTokenAmountPair| payment_view(q)));
        lemma_amount_sum_nonneg(s.drop_last(), p.drop_last());
        assert(s.last() == payment_view(p.last()));
    }
}

/// Where a payment of this token and nonce stands in a list.
fn find_payment(c: &Vec<GenericTokenAmountPair>, token_id: &TokenIdentifier, nonce: Nonce) -> (r: Option<usize>)
    ensures
        r is None ==> forall|j: int|
            0 <= j < c@.len() ==> !(#[trigger] payment_view(c@[j]).0 == token_id@ && payment_view(c@[j]).1 == nonce),
        r matches Some(k) ==> k < c@.len() && c@[k as int].token_id@ == token_id@ && c@[k as int].token_nonce == nonce,
{
    let mut k: usize = 0;
    while k < c.len()
        invariant
            0 <= k <= c@.len(),
            forall|j: int| 0 <= j < k ==> !(#[trigger] payment_view(c@[j]).0 == token_id@ && payment_view(c@[j]).1 == nonce),
        decreases c@.len() - k,
    {
        if c[k].token_id.same_as(token_id) && c[k].token_nonce == nonce {
            return Some(k);
        }
        k = k + 1;
    }
    None
}

/// The transfer settings of a contract that sends tokens.
pub struct TokenSendModule {
    pub transfer_exec_gas_limit: u64,
}

impl TokenSendModule {
    /// Function and gas for a transfer: the receiver's function with the configured gas
    /// limit, or a plain transfer.
    pub fn transfer_call(&self, opt_accept_funds_func: &Option<Vec<u8>>) -> (r: (Vec<u8>, u64))
        ensures
            opt_accept_funds_func matches Some(f) ==> r.0@ == f@ && r.1 == self.transfer_exec_gas_limit,
            opt_accept_funds_func is None ==> r.0@.len() == 0 && r.1 == 0,
    {
        match opt_accept_funds_func {
            Some(f) => (f.clone(), self.transfer_exec_gas_limit),
            None => (Vec::new(), 0),
        }
    }

    /// How to send a list of payments: merged by token and nonce, zero payments left out,
    /// as one transfer of one token or of several. `None` where a merged amount overflows.
    pub fn send_multiple_tokens_compact(&self, payments: &Vec<GenericTokenAmountPair>) -> (r: Option<TransferPlan>)
        ensures
            r is None ==> !fits(amount_sum(payments@.map_values(|p: GenericTokenAmountPair| payment_view(p)))),
            r matches Some(plan) ==> {
                let c = compact_spec(payments@.map_values(|p: GenericTokenAmountPair| payment_view(p)));
                &&& c.len() == 0 ==> plan is Nothing
                &&& c.len() == 1 && c[0].1 == 0 ==> (plan matches TransferPlan::Fungible { token_id, amount } && token_id@ == c[0].0
                    && amount == c[0].2)
                &&& c.len() == 1 && c[0].1 != 0 ==> (plan matches TransferPlan::NonFungible { token_id, nonce, amount } && token_id@
                    == c[0].0 && nonce == c[0].1 && amount == c[0].2)
                &&& c.len() > 1 ==> (plan matches TransferPlan::Multiple { payments: v } && v@.map_values(
                    |p: GenericTokenAmountPair| payment_view(p),
                ) == c)
            },
    {
        let compact = match compact_payments(payments) {
            Some(v) => v,
            None => return None,
        };
        let ghost c = compact@.map_values(|p: GenericTokenAmountPair| payment_view(p));
        if compact.len() == 0 {
            Some(TransferPlan::Nothing)
        } else if compact.len() == 1 {
            let p = &compact[0];
            assert(c[0] == payment_view(*p));
            if p.token_nonce == 0 {
                Some(TransferPlan::Fungible { token_id: p.token_id.copy(), amount: p.amount })
            } else {
                Some(TransferPlan::NonFungible { token_id: p.token_id.copy(), nonce: p.token_nonce, amount: p.amount })
            }
        } else {
            Some(TransferPlan::Multiple { payments: compact })
        }
    }
}

} // verus!
