//! The fee account record.

use vstd::prelude::*;
use crate::identity::Identity;

verus! {

/// What a fee account records: where it lives, who owns it, which mint's
/// tokens it holds, and how many of them.
pub struct FeeAccountView {
    pub address: Seq<u8>,
    pub owner: Seq<u8>,
    pub mint: Seq<u8>,
    pub balance: nat,
}

/// A token-holding account that collects fees for its owner.
///
/// The owner is fixed when the record is made. Nothing in this library
/// changes it afterwards: the only change a record ever sees is the debit
/// of a withdrawal that the token service has carried out.
#[derive(Clone, Copy, Debug, PartialEq, Eq)]
pub struct FeeAccount {
    address: Identity,
    owner: Identity,
    mint: Identity,
    balance: u64,
}

impl View for FeeAccount {
    type V = FeeAccountView;

    closed spec fn view(&self) -> FeeAccountView {
        FeeAccountView {
            address: self.address@,
            owner: self.owner@,
            mint: self.mint@,
            balance: self.balance as nat,
        }
    }
}

/// The account `account` with `amount` tokens taken out of it. Only the
/// balance differs.
pub open spec fn debited(account: FeeAccountView, amount: nat) -> FeeAccountView
    recommends
        account.balance >= amount,
{
    FeeAccountView { balance: (account.balance - amount) as nat, ..account }
}

impl FeeAccount {
    /// The record of the account at `address`, owned by `owner`, holding
    /// `balance` tokens of `mint`.
    pub fn new(address: Identity, owner: Identity, mint: Identity, balance: u64) -> (account:
        FeeAccount)
        ensures
            account@ == (FeeAccountView {
                address: address@,
                owner: owner@,
                mint: mint@,
                balance: balance as nat,
            }),
    {
        FeeAccount { address, owner, mint, balance }
    }

    /// Where the account lives.
    pub fn address(&self) -> (address: Identity)
        ensures
            address@ == self@.address,
    {
        self.address
    }

    /// Who owns the account.
    pub fn owner(&self) -> (owner: Identity)
        ensures
            owner@ == self@.owner,
    {
        self.owner
    }

    /// The mint whose tokens the account holds.
    pub fn mint(&self) -> (mint: Identity)
        ensures
            mint@ == self@.mint,
    {
        self.mint
    }

    /// How many tokens the account holds.
    pub fn balance(&self) -> (balance: u64)
        ensures
            balance == self@.balance,
    {
        self.balance
    }

    /// Whether `who` is the recorded owner, byte for byte.
    pub fn is_owned_by(&self, who: &Identity) -> (owned: bool)
        ensures
            owned == (self@.owner == who@),
    {
        self.owner == *who
    }

    /// Takes `amount` tokens out of the record.
    pub(crate) fn debit(&mut self, amount: u64)
        requires
            old(self)@.balance >= amount,
        ensures
            final(self)@ == debited(old(self)@, amount as nat),
    {
        self.balance = self.balance - amount;
    }
}

} // verus!
