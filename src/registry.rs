use vstd::prelude::*;

use crate::pubkey::Pubkey;
use crate::switch::DeadManSwitch;

verus! {

/// The slot a switch lives in: the owner who created it and an id of the
/// owner's choosing. One owner and id address at most one live switch.
#[derive(Clone, Copy, Debug)]
pub struct SwitchAddress {
    pub owner: Pubkey,
    pub id: u64,
}

impl SwitchAddress {
    pub open spec fn view(&self) -> (Seq<u8>, u64) {
        (self.owner@, self.id)
    }
}

impl PartialEq for SwitchAddress {
    fn eq(&self, other: &SwitchAddress) -> (r: bool) {
        self.id == other.id && self.owner == other.owner
    }
}

impl vstd::std_specs::cmp::PartialEqSpecImpl for SwitchAddress {
    open spec fn obeys_eq_spec() -> bool {
        true
    }

    open spec fn eq_spec(&self, other: &SwitchAddress) -> bool {
        self@ == other@
    }
}

impl Eq for SwitchAddress {
}

/// A stored switch with its address and the deposit paid to store it.
#[derive(Debug)]
pub struct SwitchAccount {
    pub address: SwitchAddress,
    pub lamports: u64,
    pub switch: DeadManSwitch,
}

/// `a` after a check-in at `now`.
pub open spec fn pinged(a: SwitchAccount, now: i64) -> SwitchAccount {
    SwitchAccount { switch: DeadManSwitch { last_ping: now, ..a.switch }, ..a }
}

/// `a` after it was disarmed.
pub open spec fn disarmed(a: SwitchAccount) -> SwitchAccount {
    SwitchAccount { switch: DeadManSwitch { active: false, ..a.switch }, ..a }
}

/// Key of a slot in the registry's view.
pub type SlotKey = (Seq<u8>, u64);

/// All live switches, each in its own slot.
#[derive(Debug)]
pub struct SwitchRegistry {
    accounts: Vec<SwitchAccount>,
}

impl SwitchRegistry {
    /// Each stored account is well formed and owned by the owner in its
    /// address, and no two accounts share an address.
    pub closed spec fn wf(&self) -> bool {
        &&& forall|i: int|
            0 <= i < self.accounts@.len() ==> {
                &&& #[trigger] self.accounts@[i].switch.wf()
                &&& self.accounts@[i].switch.owner@ == self.accounts@[i].address.owner@
            }
        &&& forall|i: int, j: int|
            0 <= i < self.accounts@.len() && 0 <= j < self.accounts@.len() && i != j
                ==> #[trigger] self.accounts@[i].address@ != #[trigger] self.accounts@[j].address@
    }

    spec fn holds_at(&self, i: int, k: SlotKey) -> bool {
        0 <= i < self.accounts@.len() && self.accounts@[i].address@ == k
    }

    /// The live switches, by slot.
    pub closed spec fn view(&self) -> Map<SlotKey, SwitchAccount> {
        Map::new(
            |k: SlotKey| exists|i: int| self.holds_at(i, k),
            |k: SlotKey| self.accounts@[choose|i: int| self.holds_at(i, k)],
        )
    }

    proof fn lemma_view_at(&self, i: int)
        requires
            self.wf(),
            0 <= i < self.accounts@.len(),
        ensures
            self@.contains_key(self.accounts@[i].address@),
            self@[self.accounts@[i].address@] == self.accounts@[i],
    {
        let k = self.accounts@[i].address@;
        assert(self.holds_at(i, k));
        let j = choose|j: int| self.holds_at(j, k);
        assert(self.holds_at(j, k));
    }

    /// Every stored account is well formed and lies in the slot of its own address.
    pub proof fn lemma_wf_view(&self)
        requires
            self.wf(),
        ensures
            forall|k: SlotKey| #[trigger] self@.contains_key(k) ==> {
                &&& self@[k].switch.wf()
                &&& self@[k].address@ == k
                &&& self@[k].switch.owner@ == k.0
            },
    {
        assert forall|k: SlotKey| #[trigger] self@.contains_key(k) implies {
            &&& self@[k].switch.wf()
            &&& self@[k].address@ == k
            &&& self@[k].switch.owner@ == k.0
        } by {
            let i = choose|i: int| self.holds_at(i, k);
            self.lemma_view_at(i);
        }
    }

    /// An empty registry.
    pub fn new() -> (r: SwitchRegistry)
        ensures
            r.wf(),
            r@ == Map::<SlotKey, SwitchAccount>::empty(),
    {
        let r = SwitchRegistry { accounts: Vec::new() };
        assert(r@ =~= Map::<SlotKey, SwitchAccount>::empty());
        r
    }


    proof fn lemma_not_held(&self, k: SlotKey)
        requires
            !self@.contains_key(k),
        ensures
            forall|j: int| 0 <= j < self.accounts@.len() ==> self.accounts@[j].address@ != k,
    {
        assert forall|j: int| 0 <= j < self.accounts@.len() implies self.accounts@[j].address@ != k by {
            if self.accounts@[j].address@ == k {
                assert(self.holds_at(j, k));
            }
        }
    }

    /// Replacing the account at `i` by one with the same address replaces its slot.
    proof fn lemma_view_update(old: &Self, new: &Self, i: int, a: SwitchAccount)
        requires
            old.wf(),
            0 <= i < old.accounts@.len(),
            a.address@ == old.accounts@[i].address@,
            a.switch.wf(),
            a.switch.owner@ == a.address.owner@,
            new.accounts@ == old.accounts@.update(i, a),
        ensures
            new.wf(),
            new@ == old@.insert(a.address@, a),
    {
        let k = a.address@;
        assert forall|j: int, l: int|
            0 <= j < new.accounts@.len() && 0 <= l < new.accounts@.len() && j != l
                implies #[trigger] new.accounts@[j].address@ != #[trigger] new.accounts@[l].address@ by {
            assert(old.accounts@[j].address@ != old.accounts@[l].address@);
        }
        old.lemma_view_at(i);
        new.lemma_view_at(i);
        assert forall|k2: SlotKey| #[trigger] new@.contains_key(k2) <==> old@.insert(k, a).contains_key(k2) by {
            if new@.contains_key(k2) {
                let j = choose|j: int| new.holds_at(j, k2);
                if j != i {
                    assert(old.holds_at(j, k2));
                }
            }
            if old@.contains_key(k2) {
                let j = choose|j: int| old.holds_at(j, k2);
                if j != i {
                    assert(new.holds_at(j, k2));
                }
            }
        }
        assert forall|k2: SlotKey| #[trigger] new@.contains_key(k2) implies new@[k2] == old@.insert(k, a)[k2] by {
            let j = choose|j: int| new.holds_at(j, k2);
            new.lemma_view_at(j);
            if j != i {
                old.lemma_view_at(j);
            }
        }
        assert(new@ =~= old@.insert(k, a));
    }

    /// Appending an account whose slot is free fills that slot.
    proof fn lemma_view_push(old: &Self, new: &Self, a: SwitchAccount)
        requires
            old.wf(),
            new.wf(),
            new.accounts@ == old.accounts@.push(a),
        ensures
            new@ == old@.insert(a.address@, a),
    {
        let k = a.address@;
        let n = old.accounts@.len() as int;
        new.lemma_view_at(n);
        assert forall|k2: SlotKey| #[trigger] new@.contains_key(k2) <==> old@.insert(k, a).contains_key(k2) by {
            if new@.contains_key(k2) {
                let j = choose|j: int| new.holds_at(j, k2);
                if j != n {
                    assert(old.holds_at(j, k2));
                }
            }
            if old@.contains_key(k2) {
                let j = choose|j: int| old.holds_at(j, k2);
                assert(new.holds_at(j, k2));
            }
        }
        assert forall|k2: SlotKey| #[trigger] new@.contains_key(k2) implies new@[k2] == old@.insert(k, a)[k2] by {
            let j = choose|j: int| new.holds_at(j, k2);
            new.lemma_view_at(j);
            if j != n {
                old.lemma_view_at(j);
            }
        }
        assert(new@ =~= old@.insert(k, a));
    }

    /// Stores `account` in its own slot, which must be free.
    pub(crate) fn insert(&mut self, account: SwitchAccount)
        requires
            old(self).wf(),
            !old(self)@.contains_key(account.address@),
            account.switch.wf(),
            account.switch.owner@ == account.address.owner@,
        ensures
            final(self).wf(),
            final(self)@ == old(self)@.insert(account.address@, account),
    {
        let ghost a = account;
        let ghost before = *self;
        proof { self.lemma_not_held(a.address@); }
        self.accounts.push(account);
        proof {
            assert(self.accounts@ == before.accounts@.push(a));
            Self::lemma_view_push(&before, self, a);
        }
    }

    /// Removes the account at position `i` and returns it.
    fn remove_at(&mut self, i: usize) -> (r: SwitchAccount)
        requires
            old(self).wf(),
            i < old(self).accounts@.len(),
        ensures
            final(self).wf(),
            r == old(self).accounts@[i as int],
            old(self)@.contains_key(r.address@),
            r == old(self)@[r.address@],
            final(self)@ == old(self)@.remove(r.address@),
    {
        let ghost before = *self;
        proof { before.lemma_view_at(i as int); }
        let r = self.accounts.remove(i);
        proof {
            let k = r.address@;
            assert(self.accounts@ == before.accounts@.remove(i as int));
            assert forall|j: int| 0 <= j < self.accounts@.len() implies #[trigger] self.accounts@[j].address@ != k by {
                if j < i {
                    assert(self.accounts@[j] == before.accounts@[j]);
                } else {
                    assert(self.accounts@[j] == before.accounts@[j + 1]);
                }
            }
            assert forall|k2: SlotKey| #[trigger] self@.contains_key(k2) <==> before@.remove(k).contains_key(k2) by {
                if self@.contains_key(k2) {
                    let j = choose|j: int| self.holds_at(j, k2);
                    if j < i {
                        assert(before.holds_at(j, k2));
                    } else {
                        assert(before.holds_at(j + 1, k2));
                    }
                }
                if before@.contains_key(k2) && k2 != k {
                    let j = choose|j: int| before.holds_at(j, k2);
                    if j < i {
                        assert(self.holds_at(j, k2));
                    } else {
                        assert(j != i);
                        assert(self.holds_at(j - 1, k2));
                    }
                }
            }
            assert forall|k2: SlotKey| #[trigger] self@.contains_key(k2) implies self@[k2] == before@.remove(k)[k2] by {
                let j = choose|j: int| self.holds_at(j, k2);
                self.lemma_view_at(j);
                if j < i {
                    before.lemma_view_at(j);
                } else {
                    before.lemma_view_at(j + 1);
                }
            }
            assert(self@ =~= before@.remove(k));
        }
        r
    }

    /// The position of the account in slot `address`, if any.
    fn find(&self, address: &SwitchAddress) -> (r: Option<usize>)
        requires
            self.wf(),
        ensures
            match r {
                Some(i) => i < self.accounts@.len() && self.accounts@[i as int].address@ == address@,
                None => !self@.contains_key(address@),
            },
    {
        let mut i: usize = 0;
        while i < self.accounts.len()
            invariant
                i <= self.accounts@.len(),
                forall|j: int| 0 <= j < i ==> self.accounts@[j].address@ != address@,
            decreases self.accounts@.len() - i,
        {
            if self.accounts[i].address == *address {
                return Some(i);
            }
            i = i + 1;
        }
        None
    }

    /// Empties slot `address`, returning the account that was in it.
    pub(crate) fn remove(&mut self, address: &SwitchAddress) -> (r: Option<SwitchAccount>)
        requires
            old(self).wf(),
        ensures
            final(self).wf(),
            match r {
                Some(a) => {
                    &&& old(self)@.contains_key(address@)
                    &&& a == old(self)@[address@]
                    &&& final(self)@ == old(self)@.remove(address@)
                },
                None => !old(self)@.contains_key(address@) && final(self)@ == old(self)@,
            },
    {
        match self.find(address) {
            Some(i) => Some(self.remove_at(i)),
            None => None,
        }
    }

    /// Records a check-in at `now` for the switch in slot `address`.
    pub(crate) fn set_last_ping(&mut self, address: &SwitchAddress, now: i64)
        requires
            old(self).wf(),
            old(self)@.contains_key(address@),
            old(self)@[address@].switch.created_at <= now,
            crate::switch::fits_i64(now + old(self)@[address@].switch.ping_interval),
        ensures
            final(self).wf(),
            final(self)@ == old(self)@.insert(address@, pinged(old(self)@[address@], now)),
    {
        let ghost before = *self;
        let i = self.find(address).unwrap();
        proof {
            before.lemma_view_at(i as int);
            assert(before.accounts@[i as int].switch.wf());
        }
        self.accounts[i].switch.last_ping = now;
        proof {
            let a = pinged(before.accounts@[i as int], now);
            assert(self.accounts@ =~= before.accounts@.update(i as int, a));
            Self::lemma_view_update(&before, self, i as int, a);
        }
    }

    /// Disarms the switch in slot `address`.
    pub(crate) fn set_inactive(&mut self, address: &SwitchAddress)
        requires
            old(self).wf(),
            old(self)@.contains_key(address@),
        ensures
            final(self).wf(),
            final(self)@ == old(self)@.insert(address@, disarmed(old(self)@[address@])),
    {
        let ghost before = *self;
        let i = self.find(address).unwrap();
        proof {
            before.lemma_view_at(i as int);
            assert(before.accounts@[i as int].switch.wf());
        }
        self.accounts[i].switch.active = false;
        proof {
            let a = disarmed(before.accounts@[i as int]);
            assert(self.accounts@ =~= before.accounts@.update(i as int, a));
            Self::lemma_view_update(&before, self, i as int, a);
        }
    }

    /// The switch in slot `address`, if any.
    pub fn get(&self, address: &SwitchAddress) -> (r: Option<&DeadManSwitch>)
        requires
            self.wf(),
        ensures
            match r {
                Some(s) => self@.contains_key(address@) && *s == self@[address@].switch,
                None => !self@.contains_key(address@),
            },
    {
        match self.find(address) {
            Some(i) => {
                proof { self.lemma_view_at(i as int); }
                Some(&self.accounts[i].switch)
            },
            None => None,
        }
    }
}

} // verus!
