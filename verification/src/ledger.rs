//! A verified model of the platform's fungible-asset transfer service.
//!
//! The host ledger moves value between principals and reports failure
//! atomically. This module models that service as a balance table keyed by
//! principal identifier: a transfer either succeeds and moves exactly the
//! requested amount, or fails and leaves every balance unchanged.

use vstd::prelude::*;

verus! {

broadcast use vstd::std_specs::hash::group_hash_axioms;

/// Balance table of the payment asset, keyed by principal identifier.
/// Absent principals hold a zero balance.
pub struct TokenLedger {
    balances: vstd::hash_map::HashMapWithView<u64, i128>,
}

impl TokenLedger {
    /// The balance held by a principal; zero when the principal is unknown.
    pub closed spec fn balance_of(self, who: u64) -> i128 {
        if self.balances@.contains_key(who) {
            self.balances@[who]
        } else {
            0
        }
    }

    /// Whether a transfer of `amount` from `from` to `to` can succeed:
    /// the amount is non-negative, the sender holds it, and crediting the
    /// recipient stays within the asset's representable range.
    pub open spec fn can_transfer(self, from: u64, to: u64, amount: i128) -> bool {
        &&& 0 <= amount <= self.balance_of(from)
        &&& (from != to ==> self.balance_of(to) + amount <= i128::MAX)
    }

    pub fn new() -> (r: Self)
        ensures
            forall|a: u64| r.balance_of(a) == 0,
    {
        TokenLedger { balances: vstd::hash_map::HashMapWithView::new() }
    }

    fn read_balance(&self, who: u64) -> (r: i128)
        ensures
            r == self.balance_of(who),
    {
        match self.balances.get(&who) {
            Some(b) => *b,
            None => 0,
        }
    }

    /// The balance held by a principal.
    pub fn balance(&self, who: u64) -> (r: i128)
        ensures
            r == self.balance_of(who),
    {
        self.read_balance(who)
    }

    /// Creates `amount` units out of thin air and credits them to `to`.
    /// Fails on a negative amount or when the credit would overflow.
    pub fn mint(&mut self, to: u64, amount: i128) -> (ok: bool)
        ensures
            ok == (0 <= amount && old(self).balance_of(to) + amount <= i128::MAX),
            ok ==> final(self).balance_of(to) == old(self).balance_of(to) + amount,
            ok ==> forall|a: u64| a != to ==> final(self).balance_of(a) == old(self).balance_of(a),
            !ok ==> *final(self) == *old(self),
    {
        if amount < 0 {
            return false;
        }
        let bal = self.read_balance(to);
        match bal.checked_add(amount) {
            Some(new_bal) => {
                self.balances.insert(to, new_bal);
                true
            },
            None => false,
        }
    }

    /// Moves `amount` from `from` to `to`; a transfer to oneself is a no-op.
    /// Fails, changing nothing, exactly when `can_transfer` does not hold.
    pub fn transfer(&mut self, from: u64, to: u64, amount: i128) -> (ok: bool)
        ensures
            ok == old(self).can_transfer(from, to, amount),
            ok ==> transferred(*old(self), *final(self), from, to, amount),
            !ok ==> *final(self) == *old(self),
    {
        if amount < 0 {
            return false;
        }
        let from_bal = self.read_balance(from);
        if from_bal < amount {
            return false;
        }
        if from == to {
            return true;
        }
        let to_bal = self.read_balance(to);
        match to_bal.checked_add(amount) {
            Some(new_to) => {
                self.balances.insert(from, from_bal - amount);
                self.balances.insert(to, new_to);
                true
            },
            None => false,
        }
    }
}

/// Relates the balance tables before and after a successful transfer:
/// the sender is debited, the recipient credited, everyone else untouched,
/// and a self-transfer moves nothing.
pub open spec fn transferred(
    pre: TokenLedger,
    post: TokenLedger,
    from: u64,
    to: u64,
    amount: i128,
) -> bool {
    &&& post.balance_of(from) == if from == to {
        pre.balance_of(from) as int
    } else {
        pre.balance_of(from) - amount
    }
    &&& post.balance_of(to) == if from == to {
        pre.balance_of(to) as int
    } else {
        pre.balance_of(to) + amount
    }
    &&& forall|a: u64| a != from && a != to ==> post.balance_of(a) == pre.balance_of(a)
}

} // verus!
