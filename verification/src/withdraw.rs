//! Withdrawal of collected fees by the owner of the fee account.
//!
//! A withdrawal takes two steps. [`withdraw_fees`] checks that the signer
//! owns the fee account and, if so, issues the order for the token service.
//! The host carries the order out and hands the service's reply to
//! [`WithdrawFees::conclude`], which records the outcome. A refused request
//! gets no order, so nothing is asked of the service on its behalf.

use vstd::prelude::*;
use crate::account::{debited, FeeAccount, FeeAccountView};
use crate::error::{CustomError, WithdrawError};
use crate::identity::Identity;

verus! {

/// The quantity that every withdrawal moves, in base units of the mint.
pub const WITHDRAWAL_AMOUNT: u64 = 1_000_000;

/// What a withdrawal request brings with it.
#[derive(Clone, Copy, Debug, PartialEq, Eq)]
pub struct WithdrawFees {
    /// The signer of the request.
    pub authority: Identity,
    /// The account to withdraw from.
    pub fee_account: FeeAccount,
    /// The token service that is to move the tokens.
    pub token_program: Identity,
}

/// A withdrawal request, with every identity as its bytes.
pub struct WithdrawFeesView {
    pub authority: Seq<u8>,
    pub fee_account: FeeAccountView,
    pub token_program: Seq<u8>,
}

impl View for WithdrawFees {
    type V = WithdrawFeesView;

    open spec fn view(&self) -> WithdrawFeesView {
        WithdrawFeesView {
            authority: self.authority@,
            fee_account: self.fee_account@,
            token_program: self.token_program@,
        }
    }
}

/// An order for the token service: move `amount` tokens out of `from` into
/// `to`, on the word of `authority`.
#[derive(Clone, Copy, Debug, PartialEq, Eq)]
pub struct Transfer {
    /// The service the order is addressed to.
    pub program: Identity,
    /// The account that is debited.
    pub from: Identity,
    /// The account that is credited.
    pub to: Identity,
    /// The signer that authorizes the debit.
    pub authority: Identity,
    /// How many tokens are moved.
    pub amount: u64,
}

/// A transfer order, with every identity as its bytes.
pub struct TransferView {
    pub program: Seq<u8>,
    pub from: Seq<u8>,
    pub to: Seq<u8>,
    pub authority: Seq<u8>,
    pub amount: nat,
}

impl View for Transfer {
    type V = TransferView;

    open spec fn view(&self) -> TransferView {
        TransferView {
            program: self.program@,
            from: self.from@,
            to: self.to@,
            authority: self.authority@,
            amount: self.amount as nat,
        }
    }
}

/// The signer of the request is the recorded owner of the fee account.
pub open spec fn authorized(ctx: WithdrawFeesView) -> bool {
    ctx.authority == ctx.fee_account.owner
}

/// The order that an authorized request gives rise to: the fixed quantity,
/// whatever the account holds, out of the fee account and into the signer's
/// hands, authorized by the signer.
pub open spec fn transfer_order(ctx: WithdrawFeesView) -> TransferView {
    TransferView {
        program: ctx.token_program,
        from: ctx.fee_account.address,
        to: ctx.authority,
        authority: ctx.authority,
        amount: WITHDRAWAL_AMOUNT as nat,
    }
}

/// What a request leads to before the service is involved: the order, or the
/// refusal.
pub open spec fn withdrawal_request(ctx: WithdrawFeesView) -> Result<TransferView, CustomError> {
    if authorized(ctx) {
        Ok(transfer_order(ctx))
    } else {
        Err(CustomError::Unauthorized)
    }
}

/// How a withdrawal ends, given the service's reply to the order. The reply
/// of the service counts only for an authorized request; its failure is
/// passed on as it came.
pub open spec fn withdrawal_result<E>(ctx: WithdrawFeesView, reply: Result<(), E>) -> Result<
    (),
    WithdrawError<E>,
> {
    if !authorized(ctx) {
        Err(WithdrawError::Rejected(CustomError::Unauthorized))
    } else {
        match reply {
            Ok(_) => Ok(()),
            Err(e) => Err(WithdrawError::Service(e)),
        }
    }
}

/// The fee account after a withdrawal: debited by the fixed quantity if the
/// request was authorized and the service completed the order, untouched
/// otherwise.
pub open spec fn after_withdrawal(ctx: WithdrawFeesView, completed: bool) -> FeeAccountView {
    if authorized(ctx) && completed {
        debited(ctx.fee_account, WITHDRAWAL_AMOUNT as nat)
    } else {
        ctx.fee_account
    }
}

/// Checks the request and issues the order for the token service.
///
/// The signer must be the recorded owner of the fee account, byte for byte;
/// any other signer is refused with `Unauthorized` and no order is issued.
/// The order does not depend on the balance: whether the account can cover
/// it is for the service to say.
pub fn withdraw_fees(ctx: &WithdrawFees) -> (request: Result<Transfer, CustomError>)
    ensures
        request is Ok <==> authorized(ctx@),
        match request {
            Ok(order) => withdrawal_request(ctx@) == Ok::<TransferView, CustomError>(order@),
            Err(refusal) => withdrawal_request(ctx@) == Err::<TransferView, CustomError>(refusal),
        },
{
    if !ctx.fee_account.is_owned_by(&ctx.authority) {
        return Err(CustomError::Unauthorized);
    }
    Ok(
        Transfer {
            program: ctx.token_program,
            from: ctx.fee_account.address(),
            to: ctx.authority,
            authority: ctx.authority,
            amount: WITHDRAWAL_AMOUNT,
        },
    )
}

impl WithdrawFees {
    /// Ends the withdrawal with the reply that the token service gave to the
    /// order.
    ///
    /// A completed order is recorded as a debit of the fixed quantity; a
    /// failed one leaves the record as it was and its failure is returned
    /// unchanged. The ownership check is made again first, so that a request
    /// that was refused records nothing, whatever reply is handed in.
    ///
    /// The service completes no order that the account cannot cover, so a
    /// reply of success to an authorized request implies a sufficient balance.
    pub fn conclude<E>(&mut self, reply: Result<(), E>) -> (outcome: Result<(), WithdrawError<E>>)
        requires
            authorized(old(self)@) && reply is Ok ==> old(self)@.fee_account.balance
                >= WITHDRAWAL_AMOUNT,
        ensures
            outcome is Ok <==> authorized(old(self)@) && reply is Ok,
            outcome == withdrawal_result(old(self)@, reply),
            final(self)@ == (WithdrawFeesView {
                fee_account: after_withdrawal(old(self)@, reply is Ok),
                ..old(self)@
            }),
    {
        if !self.fee_account.is_owned_by(&self.authority) {
            return Err(WithdrawError::Rejected(CustomError::Unauthorized));
        }
        match reply {
            Ok(_) => {
                self.fee_account.debit(WITHDRAWAL_AMOUNT);
                Ok(())
            },
            Err(e) => Err(WithdrawError::Service(e)),
        }
    }
}

} // verus!
