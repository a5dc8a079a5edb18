use vstd::prelude::*;

use crate::common::{Address, State, TokenIdentifier};

verus! {

/// Blocks during which the deployer of a pair keeps a temporary ownership of it.
pub const TEMPORARY_OWNER_PERIOD_BLOCKS: u64 = 50;

/// Why the router refused an operation.
#[derive(Clone, Copy, Debug, PartialEq, Eq, Structural)]
pub enum FactoryError {
    NotActive,
    PermissionDenied,
    PairCodeNotReady,
    PairConstructionNotStarted,
    NotAPair,
}

/// The two tokens of a deployed pair, in the order it was created with.
#[derive(Clone, Debug)]
pub struct PairTokens {
    pub first_token_id: TokenIdentifier,
    pub second_token_id: TokenIdentifier,
}

/// A deployed pair: its tokens and its address.
#[derive(Clone, Debug)]
pub struct PairContractMetadata {
    pub first_token_id: TokenIdentifier,
    pub second_token_id: TokenIdentifier,
    pub address: Address,
}

/// A registry entry: the tokens of a pair and its address.
#[derive(Clone, Debug)]
pub struct PairEntry {
    pub tokens: PairTokens,
    pub address: Address,
}

/// Who deployed a pair, and at which block.
#[derive(Clone, Debug)]
pub struct TemporaryOwner {
    pub pair_address: Address,
    pub owner: Address,
    pub creation_block: u64,
}

pub open spec fn entry_view(e: PairEntry) -> (Seq<u8>, Seq<u8>, Seq<u8>) {
    (e.tokens.first_token_id@, e.tokens.second_token_id@, e.address@)
}

pub open spec fn owner_view(o: TemporaryOwner) -> (Seq<u8>, Seq<u8>, u64) {
    (o.pair_address@, o.owner@, o.creation_block)
}

/// Whether the registry holds a pair of these tokens in this order.
pub open spec fn has_pair(m: Seq<(Seq<u8>, Seq<u8>, Seq<u8>)>, first: Seq<u8>, second: Seq<u8>) -> bool {
    exists|i: int| 0 <= i < m.len() && #[trigger] m[i].0 == first && m[i].1 == second
}

/// The router's registry of pairs, the pair code it deploys, and the temporary owners of
/// fresh pairs. Each pair of tokens and each pair address has at most one entry.
pub struct FactoryModule {
    pub owner: Address,
    pub state: State,
    pub pair_code_ready: bool,
    pub pair_code: Vec<u8>,
    pub temporary_owner_period: u64,
    pub pair_map: Vec<PairEntry>,
    pub pair_temporary_owner: Vec<TemporaryOwner>,
}

impl FactoryModule {
    pub open spec fn pairs(&self) -> Seq<(Seq<u8>, Seq<u8>, Seq<u8>)> {
        self.pair_map@.map_values(|e: PairEntry| entry_view(e))
    }

    pub open spec fn owners(&self) -> Seq<(Seq<u8>, Seq<u8>, u64)> {
        self.pair_temporary_owner@.map_values(|o: TemporaryOwner| owner_view(o))
    }

    pub open spec fn wf(&self) -> bool {
        &&& forall|i: int, j: int|
            0 <= i < j < self.pairs().len() ==> (#[trigger] self.pairs()[i].0, self.pairs()[i].1) != (
            #[trigger] self.pairs()[j].0, self.pairs()[j].1)
        &&& forall|i: int, j: int|
            0 <= i < j < self.owners().len() ==> #[trigger] self.owners()[i].0 != #[trigger] self.owners()[j].0
    }

    /// A router with no pair code yet, an empty registry and the default ownership period.
    pub fn init_factory(owner: Address) -> (r: FactoryModule)
        ensures
            r.wf(),
            r.owner@ == owner@,
            r.state == State::Active,
            !r.pair_code_ready,
            r.pair_code@.len() == 0,
            r.temporary_owner_period == TEMPORARY_OWNER_PERIOD_BLOCKS,
            r.pairs().len() == 0,
            r.owners().len() == 0,
    {
        let r = FactoryModule {
            owner,
            state: State::Active,
            pair_code_ready: false,
            pair_code: Vec::new(),
            temporary_owner_period: TEMPORARY_OWNER_PERIOD_BLOCKS,
            pair_map: Vec::new(),
            pair_temporary_owner: Vec::new(),
        };
        assert(r.pairs() =~= Seq::<(Seq<u8>, Seq<u8>, Seq<u8>)>::empty());
        assert(r.owners() =~= Seq::<(Seq<u8>, Seq<u8>, u64)>::empty());
        r
    }

    pub open spec fn owner_and_active(&self, caller: Seq<u8>) -> Result<(), FactoryError> {
        if caller != self.owner@ {
            Err(FactoryError::PermissionDenied)
        } else if self.state != State::Active {
            Err(FactoryError::NotActive)
        } else {
            Ok(())
        }
    }

    fn require_owner_and_active(&self, caller: &Address) -> (r: Result<(), FactoryError>)
        ensures
            r == self.owner_and_active(caller@),
    {
        if !caller.same_as(&self.owner) {
            return Err(FactoryError::PermissionDenied);
        }
        if self.state != State::Active {
            return Err(FactoryError::NotActive);
        }
        Ok(())
    }

    /// Starts uploading new pair code: the code is emptied and not ready.
    pub fn start_pair_code_construction(&mut self, caller: &Address) -> (r: Result<(), FactoryError>)
        requires
            old(self).wf(),
        ensures
            final(self).wf(),
            r == old(self).owner_and_active(caller@),
            r is Ok ==> !final(self).pair_code_ready && final(self).pair_code@.len() == 0,
            r is Err ==> final(self).pair_code_ready == old(self).pair_code_ready && final(self).pair_code@ == old(self).pair_code@,
            final(self).pairs() == old(self).pairs(),
            final(self).owners() == old(self).owners(),
    {
        self.require_owner_and_active(caller)?;
        self.pair_code_ready = false;
        self.pair_code = Vec::new();
        assert(self.pairs() =~= old(self).pairs());
        assert(self.owners() =~= old(self).owners());
        Ok(())
    }

    /// Ends uploading pair code: pairs can be deployed from it.
    pub fn end_pair_code_construction(&mut self, caller: &Address) -> (r: Result<(), FactoryError>)
        requires
            old(self).wf(),
        ensures
            final(self).wf(),
            r == old(self).owner_and_active(caller@),
            r is Ok ==> final(self).pair_code_ready && final(self).pair_code@ == old(self).pair_code@,
            r is Err ==> final(self).pair_code_ready == old(self).pair_code_ready && final(self).pair_code@ == old(self).pair_code@,
            final(self).pairs() == old(self).pairs(),
            final(self).owners() == old(self).owners(),
    {
        self.require_owner_and_active(caller)?;
        self.pair_code_ready = true;
        assert(self.pairs() =~= old(self).pairs());
        assert(self.owners() =~= old(self).owners());
        Ok(())
    }

    /// Appends a part to the pair code being uploaded.
    pub fn apppend_pair_code(&mut self, caller: &Address, part: &Vec<u8>) -> (r: Result<(), FactoryError>)
        requires
            old(self).wf(),
        ensures
            final(self).wf(),
            old(self).owner_and_active(caller@) matches Err(e) ==> r == Err::<(), FactoryError>(e),
            old(self).owner_and_active(caller@) is Ok && old(self).pair_code_ready ==> r == Err::<(), FactoryError>(
                FactoryError::PairConstructionNotStarted,
            ),
            r is Ok ==> final(self).pair_code@ == old(self).pair_code@ + part@,
            r is Err ==> final(self).pair_code@ == old(self).pair_code@,
            r is Ok <==> old(self).owner_and_active(caller@) is Ok && !old(self).pair_code_ready,
            final(self).pair_code_ready == old(self).pair_code_ready,
            final(self).pairs() == old(self).pairs(),
            final(self).owners() == old(self).owners(),
    {
        self.require_owner_and_active(caller)?;
        if self.pair_code_ready {
            return Err(FactoryError::PairConstructionNotStarted);
        }
        let mut i: usize = 0;
        let ghost start = self.pair_code@;
        while i < part.len()
            invariant
                0 <= i <= part@.len(),
                self.pair_code@ == start + part@.take(i as int),
                self.pairs() == old(self).pairs(),
                self.owners() == old(self).owners(),
                self.pair_code_ready == old(self).pair_code_ready,
                start == old(self).pair_code@,
            decreases part@.len() - i,
        {
            self.pair_code.push(part[i]);
            assert(self.pair_code@ =~= start + part@.take(i + 1));
            i = i + 1;
        }
        assert(part@.take(i as int) =~= part@);
        Ok(())
    }

    /// Checks that a pair can be deployed or upgraded: the pair code is ready.
    pub fn require_pair_code_ready(&self) -> (r: Result<(), FactoryError>)
        ensures
            r == if self.pair_code_ready {
                Ok(())
            } else {
                Err::<(), FactoryError>(FactoryError::PairCodeNotReady)
            },
    {
        if self.pair_code_ready {
            Ok(())
        } else {
            Err(FactoryError::PairCodeNotReady)
        }
    }

    fn find_pair(&self, first_token_id: &TokenIdentifier, second_token_id: &TokenIdentifier) -> (r: Option<usize>)
        ensures
            r is None <==> !has_pair(self.pairs(), first_token_id@, second_token_id@),
            r matches Some(i) ==> i < self.pairs().len() && self.pairs()[i as int].0 == first_token_id@
                && self.pairs()[i as int].1 == second_token_id@,
    {
        let mut i: usize = 0;
        while i < self.pair_map.len()
            invariant
                0 <= i <= self.pairs().len(),
                forall|j: int|
                    0 <= j < i ==> !(#[trigger] self.pairs()[j].0 == first_token_id@ && self.pairs()[j].1 == second_token_id@),
            decreases self.pairs().len() - i,
        {
            let e = &self.pair_map[i];
            if e.tokens.first_token_id.same_as(first_token_id) && e.tokens.second_token_id.same_as(second_token_id) {
                assert(self.pairs()[i as int].0 == first_token_id@ && self.pairs()[i as int].1 == second_token_id@);
                return Some(i);
            }
            i = i + 1;
        }
        None
    }

    fn find_temporary_owner(&self, pair_address: &Address) -> (r: Option<usize>)
        ensures
            r is None <==> forall|j: int| 0 <= j < self.owners().len() ==> #[trigger] self.owners()[j].0 != pair_address@,
            r matches Some(i) ==> i < self.owners().len() && self.owners()[i as int].0 == pair_address@,
    {
        let mut i: usize = 0;
        while i < self.pair_temporary_owner.len()
            invariant
                0 <= i <= self.owners().len(),
                forall|j: int| 0 <= j < i ==> #[trigger] self.owners()[j].0 != pair_address@,
            decreases self.owners().len() - i,
        {
            if self.pair_temporary_owner[i].pair_address.same_as(pair_address) {
                assert(self.owners()[i as int].0 == pair_address@);
                return Some(i);
            }
            i = i + 1;
        }
        None
    }

    /// Address of the pair of two tokens, looked up in the given order, then reversed.
    pub fn get_pair(&self, first_token_id: &TokenIdentifier, second_token_id: &TokenIdentifier) -> (r: Option<Address>)
        ensures
            r is None <==> !has_pair(self.pairs(), first_token_id@, second_token_id@) && !has_pair(
                self.pairs(),
                second_token_id@,
                first_token_id@,
            ),
            has_pair(self.pairs(), first_token_id@, second_token_id@) ==> (r matches Some(a) && exists|i: int|
                0 <= i < self.pairs().len() && #[trigger] self.pairs()[i] == (first_token_id@, second_token_id@, a@)),
            !has_pair(self.pairs(), first_token_id@, second_token_id@) && has_pair(self.pairs(), second_token_id@, first_token_id@)
                ==> (r matches Some(a) && exists|i: int|
                0 <= i < self.pairs().len() && #[trigger] self.pairs()[i] == (second_token_id@, first_token_id@, a@)),
    {
        match self.find_pair(first_token_id, second_token_id) {
            Some(i) => {
                let a = self.pair_map[i].address.copy();
                assert(self.pairs()[i as int] == (first_token_id@, second_token_id@, a@));
                Some(a)
            },
            None => match self.find_pair(second_token_id, first_token_id) {
                Some(i) => {
                    let a = self.pair_map[i].address.copy();
                    assert(self.pairs()[i as int] == (second_token_id@, first_token_id@, a@));
                    Some(a)
                },
                None => None,
            },
        }
    }

    /// Records a pair deployed at `pair_address` for two tokens by `caller` at `block`: the
    /// registry maps the tokens to it, replacing an earlier pair of theirs, and the caller
    /// becomes its temporary owner.
    pub fn register_pair(
        &mut self,
        first_token_id: &TokenIdentifier,
        second_token_id: &TokenIdentifier,
        pair_address: &Address,
        caller: &Address,
        block: u64,
    )
        requires
            old(self).wf(),
        ensures
            final(self).wf(),
            has_pair(final(self).pairs(), first_token_id@, second_token_id@),
            forall|i: int|
                0 <= i < final(self).pairs().len() && final(self).pairs()[i].0 == first_token_id@ && final(self).pairs()[i].1
                    == second_token_id@ ==> #[trigger] final(self).pairs()[i].2 == pair_address@,
            !has_pair(old(self).pairs(), first_token_id@, second_token_id@) ==> final(self).pairs() == old(self).pairs().push(
                (first_token_id@, second_token_id@, pair_address@),
            ),
            exists|i: int|
                0 <= i < final(self).owners().len() && #[trigger] final(self).owners()[i] == (pair_address@, caller@, block),
            final(self).pair_code_ready == old(self).pair_code_ready,
            final(self).pair_code@ == old(self).pair_code@,
    {
        let entry = PairEntry {
            tokens: PairTokens { first_token_id: first_token_id.copy(), second_token_id: second_token_id.copy() },
            address: pair_address.copy(),
        };
        let ghost old_pairs = self.pairs();
        match self.find_pair(first_token_id, second_token_id) {
            Some(i) => {
                self.pair_map.set(i, entry);
                proof {
                    assert(self.pairs() =~= old_pairs.update(i as int, entry_view(entry)));
                    assert forall|x: int, y: int| 0 <= x < y < self.pairs().len() implies (#[trigger] self.pairs()[x].0,
                        self.pairs()[x].1) != (#[trigger] self.pairs()[y].0, self.pairs()[y].1) by {
                        assert(old_pairs[x].0 == self.pairs()[x].0 && old_pairs[x].1 == self.pairs()[x].1);
                        assert(old_pairs[y].0 == self.pairs()[y].0 && old_pairs[y].1 == self.pairs()[y].1);
                    }
                    assert forall|j: int|
                        0 <= j < self.pairs().len() && self.pairs()[j].0 == first_token_id@ && self.pairs()[j].1 == second_token_id@
                        implies #[trigger] self.pairs()[j].2 == pair_address@ by {
                        if j != i {
                            let (x, y) = if j < i { (j, i as int) } else { (i as int, j) };
                            assert((self.pairs()[x].0, self.pairs()[x].1) != (self.pairs()[y].0, self.pairs()[y].1));
                        }
                    }
                    assert(self.pairs()[i as int].0 == first_token_id@);
                }
            },
            None => {
                self.pair_map.push(entry);
                proof {
                    assert(self.pairs() =~= old_pairs.push(entry_view(entry)));
                    let n = old_pairs.len() as int;
                    assert forall|x: int, y: int| 0 <= x < y < self.pairs().len() implies (#[trigger] self.pairs()[x].0,
                        self.pairs()[x].1) != (#[trigger] self.pairs()[y].0, self.pairs()[y].1) by {
                        if y == n {
                            assert(self.pairs()[x] == old_pairs[x]);
                        }
                    }
                    assert forall|j: int|
                        0 <= j < self.pairs().len() && self.pairs()[j].0 == first_token_id@ && self.pairs()[j].1 == second_token_id@
                        implies #[trigger] self.pairs()[j].2 == pair_address@ by {
                        if j < n {
                            assert(self.pairs()[j] == old_pairs[j]);
                        }
                    }
                    assert(self.pairs()[n].0 == first_token_id@);
                }
            },
        }
        let owner = TemporaryOwner { pair_address: pair_address.copy(), owner: caller.copy(), creation_block: block };
        let ghost old_owners = self.owners();
        match self.find_temporary_owner(pair_address) {
            Some(i) => {
                self.pair_temporary_owner.set(i, owner);
                proof {
                    assert(old_owners =~= old(self).owners());
                    assert(self.owners() =~= old_owners.update(i as int, owner_view(owner)));
                    assert(self.owners()[i as int] == (pair_address@, caller@, block));
                    assert forall|x: int, y: int| 0 <= x < y < self.owners().len() implies #[trigger] self.owners()[x].0
                        != #[trigger] self.owners()[y].0 by {
                        assert(old_owners[x].0 == self.owners()[x].0);
                        assert(old_owners[y].0 == self.owners()[y].0);
                        assert(old(self).owners()[x].0 != old(self).owners()[y].0);
                    }
                }
            },
            None => {
                self.pair_temporary_owner.push(owner);
                proof {
                    assert(old_owners =~= old(self).owners());
                    assert(self.owners() =~= old_owners.push(owner_view(owner)));
                    let n = old_owners.len() as int;
                    assert(self.owners()[n] == (pair_address@, caller@, block));
                    assert forall|x: int, y: int| 0 <= x < y < self.owners().len() implies #[trigger] self.owners()[x].0
                        != #[trigger] self.owners()[y].0 by {
                        assert(self.owners()[x] == old_owners[x]);
                        if y < n {
                            assert(self.owners()[y] == old_owners[y]);
                            assert(old(self).owners()[x].0 != old(self).owners()[y].0);
                        }
                    }
                }
            },
        }
    }

    /// The temporary owner of a pair at `block`, while its period lasts; an expired entry
    /// is removed.
    pub fn get_pair_temporary_owner(&mut self, pair_address: &Address, block: u64) -> (r: Option<Address>)
        requires
            old(self).wf(),
        ensures
            final(self).wf(),
            final(self).pairs() == old(self).pairs(),
            (forall|j: int| 0 <= j < old(self).owners().len() ==> #[trigger] old(self).owners()[j].0 != pair_address@) ==> r is None
                && final(self).owners() == old(self).owners(),
            forall|i: int|
                0 <= i < old(self).owners().len() && #[trigger] old(self).owners()[i].0 == pair_address@ ==> {
                    if old(self).owners()[i].2 + old(self).temporary_owner_period < block {
                        r is None && final(self).owners() == old(self).owners().remove(i)
                    } else {
                        r matches Some(a) && a@ == old(self).owners()[i].1 && final(self).owners() == old(self).owners()
                    }
                },
    {
        let i = match self.find_temporary_owner(pair_address) {
            Some(i) => i,
            None => return None,
        };
        let entry = &self.pair_temporary_owner[i];
        let expire_block = (entry.creation_block as u128) + (self.temporary_owner_period as u128);
        proof {
            assert forall|k: int| 0 <= k < old(self).owners().len() && #[trigger] old(self).owners()[k].0 == pair_address@ implies k == i by {
                if k != i {
                    let (x, y) = if k < i { (k, i as int) } else { (i as int, k) };
                    assert(old(self).owners()[x].0 != old(self).owners()[y].0);
                }
            }
        }
        if expire_block < block as u128 {
            let ghost before = self.owners();
            self.pair_temporary_owner.remove(i);
            proof {
                assert(self.owners() =~= before.remove(i as int));
                assert forall|x: int, y: int| 0 <= x < y < self.owners().len() implies #[trigger] self.owners()[x].0
                    != #[trigger] self.owners()[y].0 by {
                    let ox = if x < i { x } else { x + 1 };
                    let oy = if y < i { y } else { y + 1 };
                    assert(before[ox].0 != before[oy].0);
                }
                assert(self.pairs() =~= old(self).pairs());
            }
            None
        } else {
            Some(entry.owner.copy())
        }
    }

    /// For the owner: forgets all temporary owners; returns how many there were.
    pub fn clear_pair_temporary_owner_storage(&mut self, caller: &Address) -> (r: Result<usize, FactoryError>)
        requires
            old(self).wf(),
        ensures
            final(self).wf(),
            final(self).pairs() == old(self).pairs(),
            caller@ != old(self).owner@ ==> r == Err::<usize, FactoryError>(FactoryError::PermissionDenied)
                && final(self).owners() == old(self).owners(),
            caller@ == old(self).owner@ ==> r == Ok::<usize, FactoryError>(old(self).owners().len() as usize)
                && final(self).owners().len() == 0,
    {
        if !caller.same_as(&self.owner) {
            return Err(FactoryError::PermissionDenied);
        }
        let size = self.pair_temporary_owner.len();
        self.pair_temporary_owner = Vec::new();
        assert(self.owners() =~= Seq::<(Seq<u8>, Seq<u8>, u64)>::empty());
        assert(self.pairs() =~= old(self).pairs());
        Ok(size)
    }

    /// For the owner: sets how many blocks a deployer stays temporary owner.
    pub fn set_temporary_owner_period(&mut self, caller: &Address, period_blocks: u64) -> (r: Result<(), FactoryError>)
        requires
            old(self).wf(),
        ensures
            final(self).wf(),
            final(self).pairs() == old(self).pairs(),
            final(self).owners() == old(self).owners(),
            caller@ != old(self).owner@ ==> r == Err::<(), FactoryError>(FactoryError::PermissionDenied)
                && final(self).temporary_owner_period == old(self).temporary_owner_period,
            caller@ == old(self).owner@ ==> r is Ok && final(self).temporary_owner_period == period_blocks,
    {
        if !caller.same_as(&self.owner) {
            return Err(FactoryError::PermissionDenied);
        }
        self.temporary_owner_period = period_blocks;
        assert(self.pairs() =~= old(self).pairs());
        assert(self.owners() =~= old(self).owners());
        Ok(())
    }

    /// Checks that an address is one of the deployed pairs.
    pub fn check_is_pair_sc(&self, pair_address: &Address) -> (r: Result<(), FactoryError>)
        ensures
            r is Ok <==> exists|i: int| 0 <= i < self.pairs().len() && #[trigger] self.pairs()[i].2 == pair_address@,
            r is Err ==> r == Err::<(), FactoryError>(FactoryError::NotAPair),
    {
        let mut i: usize = 0;
        while i < self.pair_map.len()
            invariant
                0 <= i <= self.pairs().len(),
                forall|j: int| 0 <= j < i ==> #[trigger] self.pairs()[j].2 != pair_address@,
            decreases self.pairs().len() - i,
        {
            if self.pair_map[i].address.same_as(pair_address) {
                assert(self.pairs()[i as int].2 == pair_address@);
                return Ok(());
            }
            i = i + 1;
        }
        Err(FactoryError::NotAPair)
    }

    /// Addresses of all deployed pairs, in the order of deployment.
    pub fn get_all_pairs_addresses(&self) -> (r: Vec<Address>)
        ensures
            r@.len() == self.pairs().len(),
            forall|i: int| 0 <= i < r@.len() ==> #[trigger] r@[i]@ == self.pairs()[i].2,
    {
        let mut r: Vec<Address> = Vec::new();
        let mut i: usize = 0;
        while i < self.pair_map.len()
            invariant
                0 <= i <= self.pairs().len(),
                r@.len() == i,
                forall|j: int| 0 <= j < i ==> #[trigger] r@[j]@ == self.pairs()[j].2,
            decreases self.pairs().len() - i,
        {
            r.push(self.pair_map[i].address.copy());
            i = i + 1;
        }
        r
    }

    /// Tokens of all deployed pairs, in the order of deployment.
    pub fn get_all_token_pairs(&self) -> (r: Vec<PairTokens>)
        ensures
            r@.len() == self.pairs().len(),
            forall|i: int|
                0 <= i < r@.len() ==> #[trigger] r@[i].first_token_id@ == self.pairs()[i].0 && r@[i].second_token_id@
                    == self.pairs()[i].1,
    {
        let mut r: Vec<PairTokens> = Vec::new();
        let mut i: usize = 0;
        while i < self.pair_map.len()
            invariant
                0 <= i <= self.pairs().len(),
                r@.len() == i,
                forall|j: int|
                    0 <= j < i ==> #[trigger] r@[j].first_token_id@ == self.pairs()[j].0 && r@[j].second_token_id@
                        == self.pairs()[j].1,
            decreases self.pairs().len() - i,
        {
            let e = &self.pair_map[i];
            r.push(PairTokens { first_token_id: e.tokens.first_token_id.copy(), second_token_id: e.tokens.second_token_id.copy() });
            i = i + 1;
        }
        r
    }

    /// Tokens and address of all deployed pairs, in the order of deployment.
    pub fn get_all_pair_contract_metadata(&self) -> (r: Vec<PairContractMetadata>)
        ensures
            r@.len() == self.pairs().len(),
            forall|i: int|
                0 <= i < r@.len() ==> (#[trigger] r@[i].first_token_id@, r@[i].second_token_id@, r@[i].address@)
                    == self.pairs()[i],
    {
        let mut r: Vec<PairContractMetadata> = Vec::new();
        let mut i: usize = 0;
        while i < self.pair_map.len()
            invariant
                0 <= i <= self.pairs().len(),
                r@.len() == i,
                forall|j: int|
                    0 <= j < i ==> (#[trigger] r@[j].first_token_id@, r@[j].second_token_id@, r@[j].address@) == self.pairs()[j],
            decreases self.pairs().len() - i,
        {
            let e = &self.pair_map[i];
            r.push(PairContractMetadata {
                first_token_id: e.tokens.first_token_id.copy(),
                second_token_id: e.tokens.second_token_id.copy(),
                address: e.address.copy(),
            });
            i = i + 1;
        }
        r
    }
}

} // verus!
