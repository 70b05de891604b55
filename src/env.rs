//! The ledger context of one unit of work: the clock, the identities that
//! authenticated, the token balances, and the event log.
use vstd::prelude::*;
use std::collections::HashMap;
use crate::types::Address;
use crate::events::{ContractEvent, Event};

verus! {

broadcast use vstd::std_specs::hash::group_hash_axioms;

/// One more than the largest `u64`: token and holder share one map key.
pub const HOLDER_SPAN: u128 = 0x1_0000_0000_0000_0000;

/// The map key under which `holder`'s balance of `token` is kept.
pub open spec fn account_key(token: Address, holder: Address) -> u128 {
    (token.0 as int * HOLDER_SPAN as int + holder.0 as int) as u128
}

/// How a transfer of `amount` of `token` from `from` to `to` moves the
/// balance of `holder` in `t`.
pub open spec fn transfer_delta(
    token: Address,
    from: Address,
    to: Address,
    amount: int,
    t: Address,
    holder: Address,
) -> int {
    if t != token || from == to {
        0
    } else if holder == from {
        -amount
    } else if holder == to {
        amount
    } else {
        0
    }
}

/// The ledger context.
pub struct Env {
    timestamp: u64,
    all_auths: bool,
    signers: Vec<Address>,
    balances: HashMap<u128, i128>,
    events: Vec<ContractEvent>,
}

proof fn lemma_account_key_injective(t1: Address, h1: Address, t2: Address, h2: Address)
    ensures
        account_key(t1, h1) == account_key(t2, h2) ==> t1 == t2 && h1 == h2,
{
    assert(t1.0 as int * HOLDER_SPAN as int + h1.0 as int <= u128::MAX) by (nonlinear_arith)
        requires
            t1.0 <= u64::MAX,
            h1.0 <= u64::MAX,
    ;
    assert(t2.0 as int * HOLDER_SPAN as int + h2.0 as int <= u128::MAX) by (nonlinear_arith)
        requires
            t2.0 <= u64::MAX,
            h2.0 <= u64::MAX,
    ;
    if account_key(t1, h1) == account_key(t2, h2) {
        assert(t1.0 == t2.0 && h1.0 == h2.0) by (nonlinear_arith)
            requires
                t1.0 as int * HOLDER_SPAN as int + h1.0 as int == t2.0 as int * HOLDER_SPAN as int
                    + h2.0 as int,
                h1.0 <= u64::MAX,
                h2.0 <= u64::MAX,
                HOLDER_SPAN == u64::MAX + 1,
        ;
    }
}

fn key_of(token: Address, holder: Address) -> (k: u128)
    ensures
        k == account_key(token, holder),
{
    assert(token.0 as int * HOLDER_SPAN as int + holder.0 as int <= u128::MAX) by (nonlinear_arith)
        requires
            token.0 <= u64::MAX,
            holder.0 <= u64::MAX,
    ;
    token.0 as u128 * HOLDER_SPAN + holder.0 as u128
}

impl Env {
    /// The clock reading, whether every identity counts as authenticated,
    /// and the identities that authenticated.
    pub closed spec fn frame(self) -> (u64, bool, Seq<Address>) {
        (self.timestamp, self.all_auths, self.signers@)
    }

    /// The ledger timestamp of this unit of work.
    pub open spec fn now(self) -> u64 {
        self.frame().0
    }

    /// Did `who` authenticate in this unit of work?
    pub open spec fn authorizes(self, who: Address) -> bool {
        self.frame().1 || self.frame().2.contains(who)
    }

    /// What `holder` owns of `token`.
    pub closed spec fn balance(self, token: Address, holder: Address) -> int {
        let k = account_key(token, holder);
        if self.balances@.contains_key(k) {
            self.balances@[k] as int
        } else {
            0
        }
    }

    /// Every record published so far, oldest first.
    pub closed spec fn log(self) -> Seq<ContractEvent> {
        self.events@
    }

    /// Would the token accept this transfer?
    pub open spec fn can_transfer(self, token: Address, from: Address, to: Address, amount: int) -> bool {
        &&& 0 <= amount
        &&& amount <= self.balance(token, from)
        &&& (from == to || self.balance(token, to) + amount <= i128::MAX)
    }

    /// `self` is `before` after a transfer, with nothing else changed.
    pub open spec fn is_transfer_of(
        self,
        before: Env,
        token: Address,
        from: Address,
        to: Address,
        amount: int,
    ) -> bool {
        &&& self.frame() == before.frame()
        &&& self.log() == before.log()
        &&& forall|t: Address, h: Address| #[trigger]
            self.balance(t, h) == before.balance(t, h) + transfer_delta(token, from, to, amount, t, h)
    }

    /// `self` is `before` with one record published by `contract`.
    pub open spec fn is_publish_of(self, before: Env, contract: Address, event: Event) -> bool {
        &&& self.frame() == before.frame()
        &&& self.log() == before.log().push(ContractEvent { contract, event })
        &&& forall|t: Address, h: Address| #[trigger]
            self.balance(t, h) == before.balance(t, h)
    }

    /// `self` is `before` after a transfer and then one record published by
    /// `contract`.
    pub open spec fn is_transfer_then_publish_of(
        self,
        before: Env,
        token: Address,
        from: Address,
        to: Address,
        amount: int,
        contract: Address,
        event: Event,
    ) -> bool {
        &&& self.frame() == before.frame()
        &&& self.log() == before.log().push(ContractEvent { contract, event })
        &&& forall|t: Address, h: Address| #[trigger]
            self.balance(t, h) == before.balance(t, h) + transfer_delta(token, from, to, amount, t, h)
    }

    /// Would the token accept a transfer of `first` from `from` to `to1`,
    /// and then one of `second` from `from` to `to2`?
    pub open spec fn can_transfer_twice(
        self,
        token: Address,
        from: Address,
        to1: Address,
        first: int,
        to2: Address,
        second: int,
    ) -> bool {
        let after_from = self.balance(token, from) + transfer_delta(token, from, to1, first, token, from);
        let after_to2 = self.balance(token, to2) + transfer_delta(token, from, to1, first, token, to2);
        &&& self.can_transfer(token, from, to1, first)
        &&& 0 <= second
        &&& second <= after_from
        &&& (from == to2 || after_to2 + second <= i128::MAX)
    }

    /// `self` is `before` after two transfers out of `from` and then one
    /// record published by `contract`.
    pub open spec fn is_transfer_twice_then_publish_of(
        self,
        before: Env,
        token: Address,
        from: Address,
        to1: Address,
        first: int,
        to2: Address,
        second: int,
        contract: Address,
        event: Event,
    ) -> bool {
        &&& self.frame() == before.frame()
        &&& self.log() == before.log().push(ContractEvent { contract, event })
        &&& forall|t: Address, h: Address| #[trigger]
            self.balance(t, h) == before.balance(t, h) + transfer_delta(token, from, to1, first, t, h)
                + transfer_delta(token, from, to2, second, t, h)
    }

    /// An empty ledger at time zero where nobody has authenticated.
    pub fn new() -> (r: Env)
        ensures
            r.frame() == (0u64, false, Seq::<Address>::empty()),
            forall|who: Address| !r.authorizes(who),
            forall|t: Address, h: Address| r.balance(t, h) == 0,
            r.log() == Seq::<ContractEvent>::empty(),
    {
        Env {
            timestamp: 0,
            all_auths: false,
            signers: Vec::new(),
            balances: HashMap::new(),
            events: Vec::new(),
        }
    }

    /// From now on every identity counts as authenticated.
    pub fn mock_all_auths(&mut self)
        ensures
            final(self).frame() == (old(self).now(), true, old(self).frame().2),
            forall|who: Address| final(self).authorizes(who),
            forall|t: Address, h: Address| final(self).balance(t, h) == old(self).balance(t, h),
            final(self).log() == old(self).log(),
    {
        self.all_auths = true;
    }

    /// Records that `who` authenticated.
    pub fn sign(&mut self, who: Address)
        ensures
            final(self).frame() == (old(self).now(), old(self).frame().1, old(self).frame().2.push(who)),
            final(self).frame().2.contains(who),
            forall|a: Address| final(self).authorizes(a) == (old(self).authorizes(a) || a == who),
            forall|t: Address, h: Address| final(self).balance(t, h) == old(self).balance(t, h),
            final(self).log() == old(self).log(),
    {
        self.signers.push(who);
        proof {
            assert(self.signers@[self.signers@.len() - 1] == who);
            assert forall|a: Address| final(self).authorizes(a) == (old(self).authorizes(a) || a == who) by {
                if a != who && self.signers@.contains(a) {
                    let i = choose|i: int| 0 <= i < self.signers@.len() && self.signers@[i] == a;
                    assert(old(self).signers@[i] == a);
                }
                if a == who {
                    assert(self.signers@[self.signers@.len() - 1] == a);
                }
                if old(self).signers@.contains(a) {
                    let i = choose|i: int| 0 <= i < old(self).signers@.len() && old(self).signers@[i] == a;
                    assert(self.signers@[i] == a);
                }
            }
        }
    }

    /// Moves the clock.
    pub fn set_timestamp(&mut self, timestamp: u64)
        ensures
            final(self).frame() == (timestamp, old(self).frame().1, old(self).frame().2),
            forall|a: Address| final(self).authorizes(a) == old(self).authorizes(a),
            forall|t: Address, h: Address| final(self).balance(t, h) == old(self).balance(t, h),
            final(self).log() == old(self).log(),
    {
        self.timestamp = timestamp;
    }

    pub fn timestamp(&self) -> (r: u64)
        ensures
            r == self.now(),
    {
        self.timestamp
    }

    /// Checks that `who` authenticated.
    pub fn require_auth(&self, who: Address) -> (r: bool)
        ensures
            r == self.authorizes(who),
    {
        if self.all_auths {
            return true;
        }
        let mut i: usize = 0;
        while i < self.signers.len()
            invariant
                i <= self.signers@.len(),
                forall|j: int| 0 <= j < i ==> self.signers@[j] != who,
            decreases self.signers@.len() - i,
        {
            if self.signers[i] == who {
                return true;
            }
            i = i + 1;
        }
        false
    }

    /// What `holder` owns of `token`.
    pub fn balance_of(&self, token: Address, holder: Address) -> (r: i128)
        ensures
            r as int == self.balance(token, holder),
    {
        let k = key_of(token, holder);
        match self.balances.get(&k) {
            Some(b) => *b,
            None => 0,
        }
    }

    /// Issues `amount` new units of `token` to `to`; refused when negative or
    /// when the balance would overflow.
    pub fn mint(&mut self, token: Address, to: Address, amount: i128) -> (ok: bool)
        ensures
            ok == (0 <= amount && old(self).balance(token, to) + amount <= i128::MAX),
            final(self).frame() == old(self).frame(),
            final(self).log() == old(self).log(),
            forall|t: Address, h: Address| #[trigger]
                final(self).balance(t, h) == old(self).balance(t, h) + if ok && t == token && h == to {
                    amount as int
                } else {
                    0
                },
    {
        let b = self.balance_of(token, to);
        if amount < 0 || b > i128::MAX - amount {
            return false;
        }
        let k = key_of(token, to);
        self.balances.insert(k, b + amount);
        proof {
            assert forall|t: Address, h: Address| #[trigger]
                final(self).balance(t, h) == old(self).balance(t, h) + if t == token && h == to {
                    amount as int
                } else {
                    0
                } by {
                lemma_account_key_injective(t, h, token, to);
            }
        }
        true
    }

    /// Moves `amount` of `token` from `from` to `to`, or changes nothing and
    /// returns `false` where the token refuses: a negative amount, an
    /// insufficient balance, or a receiving balance that would overflow.
    pub fn transfer(&mut self, token: Address, from: Address, to: Address, amount: i128) -> (ok: bool)
        ensures
            ok == old(self).can_transfer(token, from, to, amount as int),
            ok ==> final(self).is_transfer_of(*old(self), token, from, to, amount as int),
            !ok ==> *final(self) == *old(self),
    {
        let bf = self.balance_of(token, from);
        if amount < 0 || bf < amount {
            return false;
        }
        if from == to {
            return true;
        }
        let bt = self.balance_of(token, to);
        if bt > i128::MAX - amount {
            return false;
        }
        let kf = key_of(token, from);
        let kt = key_of(token, to);
        proof {
            lemma_account_key_injective(token, from, token, to);
        }
        self.balances.insert(kf, bf - amount);
        self.balances.insert(kt, bt + amount);
        proof {
            assert forall|t: Address, h: Address| #[trigger]
                final(self).balance(t, h) == old(self).balance(t, h) + transfer_delta(
                    token,
                    from,
                    to,
                    amount as int,
                    t,
                    h,
                ) by {
                lemma_account_key_injective(t, h, token, from);
                lemma_account_key_injective(t, h, token, to);
            }
        }
        true
    }

    /// Moves `first` of `token` from `from` to `to1` and then `second` from
    /// `from` to `to2`, both or neither; returns `false` where the token
    /// would refuse either, and then no balance has changed.
    pub fn transfer_twice(
        &mut self,
        token: Address,
        from: Address,
        to1: Address,
        first: i128,
        to2: Address,
        second: i128,
    ) -> (ok: bool)
        ensures
            ok == old(self).can_transfer_twice(token, from, to1, first as int, to2, second as int),
            ok ==> final(self).frame() == old(self).frame() && final(self).log() == old(self).log()
                && forall|t: Address, h: Address| #[trigger]
                final(self).balance(t, h) == old(self).balance(t, h) + transfer_delta(
                    token,
                    from,
                    to1,
                    first as int,
                    t,
                    h,
                ) + transfer_delta(token, from, to2, second as int, t, h),
            !ok ==> *final(self) == *old(self),
    {
        let bf = self.balance_of(token, from);
        let b2 = self.balance_of(token, to2);
        if first < 0 || bf < first {
            return false;
        }
        if from != to1 {
            let b1 = self.balance_of(token, to1);
            if b1 > i128::MAX - first {
                return false;
            }
        }
        let after_from: i128 = if from == to1 { bf } else { bf - first };
        let after_to2: i128 = if from == to1 {
            b2
        } else if to2 == from {
            b2 - first
        } else if to2 == to1 {
            b2 + first
        } else {
            b2
        };
        if second < 0 || second > after_from || (from != to2 && after_to2 > i128::MAX - second) {
            return false;
        }
        let ghost before = *self;
        let ok1 = self.transfer(token, from, to1, first);
        let ghost mid = *self;
        assert(mid.balance(token, from) == before.balance(token, from) + transfer_delta(token, from, to1, first as int, token, from));
        assert(mid.balance(token, to2) == before.balance(token, to2) + transfer_delta(token, from, to1, first as int, token, to2));
        let ok2 = self.transfer(token, from, to2, second);
        proof {
            assert(ok1 && ok2);
            assert forall|t: Address, h: Address| #[trigger] self.balance(t, h) == before.balance(t, h)
                + transfer_delta(token, from, to1, first as int, t, h)
                + transfer_delta(token, from, to2, second as int, t, h) by {
                assert(mid.balance(t, h) == before.balance(t, h) + transfer_delta(token, from, to1, first as int, t, h));
            }
        }
        true
    }

    /// Appends `event`, published by `contract`, to the log.
    pub fn publish(&mut self, contract: Address, event: Event)
        ensures
            final(self).is_publish_of(*old(self), contract, event),
    {
        self.events.push(ContractEvent { contract, event });
    }

    /// Every record published so far, oldest first.
    pub fn events(&self) -> (r: &Vec<ContractEvent>)
        ensures
            r@ == self.log(),
    {
        &self.events
    }
}

} // verus!
