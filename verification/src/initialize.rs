//! Creation of the fee account.
//!
//! Like a withdrawal, an initialization takes two steps. [`initialize`]
//! issues the order for the host's account services; the host carries it out
//! and hands the reply to [`Initialize::conclude`]. Whether the account can
//! be created (it may exist already, or the payer may lack the funds) is for
//! the host to say: nothing is checked here, and a failure is handed on as
//! it came.

use vstd::prelude::*;
use crate::account::{FeeAccount, FeeAccountView};
use crate::identity::Identity;

verus! {

/// What an initialization request brings with it.
#[derive(Clone, Copy, Debug, PartialEq, Eq)]
pub struct Initialize {
    /// The signer of the request. It pays for the new account and becomes
    /// its owner.
    pub authority: Identity,
    /// Where the new account is to live: the address that belongs to the
    /// authority and the mint together.
    pub fee_account: Identity,
    /// The mint whose tokens the account is to hold.
    pub mint: Identity,
    /// The service that creates and funds accounts.
    pub system_program: Identity,
    /// The token service.
    pub token_program: Identity,
    /// The service that sets up the account of an owner and a mint.
    pub associated_token_program: Identity,
}

/// An initialization request, with every identity as its bytes.
pub struct InitializeView {
    pub authority: Seq<u8>,
    pub fee_account: Seq<u8>,
    pub mint: Seq<u8>,
    pub system_program: Seq<u8>,
    pub token_program: Seq<u8>,
    pub associated_token_program: Seq<u8>,
}

impl View for Initialize {
    type V = InitializeView;

    open spec fn view(&self) -> InitializeView {
        InitializeView {
            authority: self.authority@,
            fee_account: self.fee_account@,
            mint: self.mint@,
            system_program: self.system_program@,
            token_program: self.token_program@,
            associated_token_program: self.associated_token_program@,
        }
    }
}

/// An order for the host: create the token account of `owner` and `mint` at
/// `account`, at the expense of `payer`.
#[derive(Clone, Copy, Debug, PartialEq, Eq)]
pub struct CreateAccount {
    /// The service the order is addressed to.
    pub program: Identity,
    /// Who pays for the new account.
    pub payer: Identity,
    /// Where the new account is to live.
    pub account: Identity,
    /// Who is to own the new account.
    pub owner: Identity,
    /// The mint whose tokens the new account is to hold.
    pub mint: Identity,
    /// The service that creates and funds accounts.
    pub system_program: Identity,
    /// The token service.
    pub token_program: Identity,
}

/// A creation order, with every identity as its bytes.
pub struct CreateAccountView {
    pub program: Seq<u8>,
    pub payer: Seq<u8>,
    pub account: Seq<u8>,
    pub owner: Seq<u8>,
    pub mint: Seq<u8>,
    pub system_program: Seq<u8>,
    pub token_program: Seq<u8>,
}

impl View for CreateAccount {
    type V = CreateAccountView;

    open spec fn view(&self) -> CreateAccountView {
        CreateAccountView {
            program: self.program@,
            payer: self.payer@,
            account: self.account@,
            owner: self.owner@,
            mint: self.mint@,
            system_program: self.system_program@,
            token_program: self.token_program@,
        }
    }
}

/// What a completed initialization yields.
#[derive(Clone, Copy, Debug, PartialEq, Eq)]
pub struct Initialized {
    /// The record of the new fee account.
    pub fee_account: FeeAccount,
    /// The authority that the host's diagnostic record is to name.
    pub initialized_by: Identity,
}

/// The yield of a completed initialization, with every identity as its
/// bytes.
pub struct InitializedView {
    pub fee_account: FeeAccountView,
    pub initialized_by: Seq<u8>,
}

impl View for Initialized {
    type V = InitializedView;

    open spec fn view(&self) -> InitializedView {
        InitializedView {
            fee_account: self.fee_account@,
            initialized_by: self.initialized_by@,
        }
    }
}

/// The order that a request gives rise to: the authority pays for the
/// account and owns it.
pub open spec fn creation_order(ctx: InitializeView) -> CreateAccountView {
    CreateAccountView {
        program: ctx.associated_token_program,
        payer: ctx.authority,
        account: ctx.fee_account,
        owner: ctx.authority,
        mint: ctx.mint,
        system_program: ctx.system_program,
        token_program: ctx.token_program,
    }
}

/// The fee account as it is right after its creation: owned by the
/// authority, of the given mint, and empty.
pub open spec fn new_fee_account(ctx: InitializeView) -> FeeAccountView {
    FeeAccountView { address: ctx.fee_account, owner: ctx.authority, mint: ctx.mint, balance: 0 }
}

/// How an initialization ends, given the host's reply to the order: with the
/// new account and the authority to name in the log, or with the host's
/// failure as it came.
pub open spec fn initialization_result<E>(ctx: InitializeView, reply: Result<(), E>) -> Result<
    InitializedView,
    E,
> {
    match reply {
        Ok(_) => Ok(
            InitializedView { fee_account: new_fee_account(ctx), initialized_by: ctx.authority },
        ),
        Err(e) => Err(e),
    }
}

/// Issues the order that creates the fee account of the authority and the
/// mint.
pub fn initialize(ctx: &Initialize) -> (order: CreateAccount)
    ensures
        order@ == creation_order(ctx@),
{
    CreateAccount {
        program: ctx.associated_token_program,
        payer: ctx.authority,
        account: ctx.fee_account,
        owner: ctx.authority,
        mint: ctx.mint,
        system_program: ctx.system_program,
        token_program: ctx.token_program,
    }
}

impl Initialize {
    /// Ends the initialization with the reply that the host gave to the
    /// order.
    ///
    /// After a completed order the fee account exists, empty, and the
    /// authority is to be named in the host's log. A failed order yields no
    /// account, and its failure is returned unchanged.
    pub fn conclude<E>(&self, reply: Result<(), E>) -> (outcome: Result<Initialized, E>)
        ensures
            outcome is Ok <==> reply is Ok,
            match outcome {
                Ok(done) => initialization_result(self@, reply) == Ok::<InitializedView, E>(done@),
                Err(e) => initialization_result(self@, reply) == Err::<InitializedView, E>(e),
            },
    {
        match reply {
            Ok(_) => Ok(
                Initialized {
                    fee_account: FeeAccount::new(self.fee_account, self.authority, self.mint, 0),
                    initialized_by: self.authority,
                },
            ),
            Err(e) => Err(e),
        }
    }
}

} // verus!
