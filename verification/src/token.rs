//! Model of the external collaborators at their interface: one fungible-asset
//! account of the asset ledger, and the native payment channel.
//!
//! Balances and delegation state are owned by the external ledger; the
//! platform merely references them. The ledger keeps at most one active
//! delegate per asset account: an approval overwrites any prior delegation
//! rather than stacking, and a revocation is idempotent.

use vstd::prelude::*;

use crate::errors::ErrorCode;
use crate::state::keys_eq;

verus! {

/// One asset account of the external ledger: its owner, its balance in
/// smallest asset units, and its delegation state.
#[derive(Clone, Copy, Debug)]
pub struct TokenAccount {
    /// Identity that owns the account.
    pub owner: [u8; 32],
    /// Balance, in smallest asset units.
    pub balance: u64,
    /// The at most one active delegate.
    pub delegate: Option<[u8; 32]>,
    /// Amount the delegate may still move; meaningful only while a delegate
    /// is set.
    pub delegated_amount: u64,
}

impl TokenAccount {
    /// Grants `delegate` permission to move up to `amount` units, overwriting
    /// any prior delegation.
    pub fn approve(&mut self, delegate: [u8; 32], amount: u64)
        ensures
            final(self).owner == old(self).owner,
            final(self).balance == old(self).balance,
            final(self).delegate == Some(delegate),
            final(self).delegated_amount == amount,
    {
        self.delegate = Some(delegate);
        self.delegated_amount = amount;
    }

    /// Clears any delegation; idempotent, it succeeds even when no delegation
    /// exists.
    pub fn revoke(&mut self)
        ensures
            final(self).owner == old(self).owner,
            final(self).balance == old(self).balance,
            final(self).delegate is None,
            final(self).delegated_amount == 0,
    {
        self.delegate = None;
        self.delegated_amount = 0;
    }

    /// Credits freshly minted units. Fails exactly when the ledger cannot
    /// represent the new balance; a failure changes nothing.
    pub fn mint_to(&mut self, amount: u64) -> (r: Result<(), ErrorCode>)
        ensures
            old(self).balance + amount <= u64::MAX ==> r is Ok && final(self).balance == old(
                self,
            ).balance + amount,
            old(self).balance + amount > u64::MAX ==> r == Err::<(), ErrorCode>(
                ErrorCode::ExternalLedgerError,
            ) && *final(self) == *old(self),
            final(self).owner == old(self).owner,
            final(self).delegate == old(self).delegate,
            final(self).delegated_amount == old(self).delegated_amount,
    {
        match self.balance.checked_add(amount) {
            Some(b) => {
                self.balance = b;
                Ok(())
            },
            None => Err(ErrorCode::ExternalLedgerError),
        }
    }
}

/// Holds when a delegated transfer of `amount` units out of `from` into `to`,
/// signed by `authority`, is accepted by the ledger.
pub open spec fn delegated_transfer_ok(
    from: TokenAccount,
    to: TokenAccount,
    authority: Seq<u8>,
    amount: u64,
) -> bool {
    &&& from.delegate matches Some(d) && d@ == authority
    &&& from.delegated_amount >= amount
    &&& from.balance >= amount
    &&& to.balance + amount <= u64::MAX
}

/// Moves `amount` units from `from` to `to` on the strength of a delegation to
/// `authority`, debiting the delegated allowance. Fails exactly when the
/// delegation is absent or insufficient, the balance is insufficient, or the
/// receiving balance cannot be represented; a failure changes nothing.
pub fn transfer_delegated(
    from: &mut TokenAccount,
    to: &mut TokenAccount,
    authority: &[u8; 32],
    amount: u64,
) -> (r: Result<(), ErrorCode>)
    ensures
        r is Ok <==> delegated_transfer_ok(*old(from), *old(to), authority@, amount),
        r is Ok ==> {
            &&& final(from).balance == old(from).balance - amount
            &&& final(from).delegated_amount == old(from).delegated_amount - amount
            &&& final(from).delegate == old(from).delegate
            &&& final(from).owner == old(from).owner
            &&& final(to).balance == old(to).balance + amount
            &&& final(to).delegate == old(to).delegate
            &&& final(to).delegated_amount == old(to).delegated_amount
            &&& final(to).owner == old(to).owner
        },
        r is Err ==> *final(from) == *old(from) && *final(to) == *old(to) && r == Err::<
            (),
            ErrorCode,
        >(ErrorCode::ExternalLedgerError),
{
    let delegated = match &from.delegate {
        Some(d) => keys_eq(d, authority),
        None => false,
    };
    if !delegated || from.delegated_amount < amount || from.balance < amount {
        return Err(ErrorCode::ExternalLedgerError);
    }
    match to.balance.checked_add(amount) {
        Some(b) => {
            from.balance = from.balance - amount;
            from.delegated_amount = from.delegated_amount - amount;
            to.balance = b;
            Ok(())
        },
        None => Err(ErrorCode::ExternalLedgerError),
    }
}

/// Pays `amount` of native currency from one balance to another; irreversible
/// once settled, no escrow. Fails exactly when the payer's balance is
/// insufficient or the payee's balance cannot be represented; a failure
/// changes nothing.
pub fn transfer_native(from: &mut u64, to: &mut u64, amount: u64) -> (r: Result<(), ErrorCode>)
    ensures
        r is Ok <==> *old(from) >= amount && *old(to) + amount <= u64::MAX,
        r is Ok ==> *final(from) == *old(from) - amount && *final(to) == *old(to) + amount,
        r is Err ==> *final(from) == *old(from) && *final(to) == *old(to) && r == Err::<
            (),
            ErrorCode,
        >(ErrorCode::ExternalLedgerError),
{
    if *from < amount {
        return Err(ErrorCode::ExternalLedgerError);
    }
    match to.checked_add(amount) {
        Some(t) => {
            *from = *from - amount;
            *to = t;
            Ok(())
        },
        None => Err(ErrorCode::ExternalLedgerError),
    }
}

} // verus!
