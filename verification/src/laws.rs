//! What holds of every initialization and every withdrawal, stated over the
//! models that the contracts of the two operations use.

use vstd::prelude::*;
use crate::account::FeeAccountView;
use crate::error::{CustomError, WithdrawError};
use crate::initialize::{creation_order, initialization_result, Initialize, InitializedView};
use crate::withdraw::{
    after_withdrawal, authorized, transfer_order, withdrawal_request, withdrawal_result,
    TransferView, WithdrawFees, WithdrawFeesView, WITHDRAWAL_AMOUNT,
};

verus! {

/// The fee account after `count` withdrawals in a row, each requested by the
/// signer of `ctx` and each completed by the service.
pub open spec fn after_withdrawals(ctx: WithdrawFeesView, count: nat) -> FeeAccountView
    decreases count,
{
    if count == 0 {
        ctx.fee_account
    } else {
        after_withdrawal(
            WithdrawFeesView { fee_account: after_withdrawals(ctx, (count - 1) as nat), ..ctx },
            true,
        )
    }
}

/// Initialization overwrites nothing. The order always asks the host to
/// create the account of the authority and the mint, with the authority as
/// payer and owner; when the host refuses, as it does for an account that
/// exists already, its failure is the failure of the initialization and no
/// account record is made.
pub proof fn law_refused_creation_is_reported<E>(ctx: Initialize, failure: E)
    ensures
        creation_order(ctx@).owner == ctx@.authority,
        creation_order(ctx@).payer == ctx@.authority,
        creation_order(ctx@).mint == ctx@.mint,
        creation_order(ctx@).account == ctx@.fee_account,
        initialization_result(ctx@, Err::<(), E>(failure)) == Err::<InitializedView, E>(failure),
{
}

/// A signer other than the owner is refused as unauthorized. No order is
/// issued, and the fee account stays exactly as it was, whatever reply is
/// handed in.
pub proof fn law_stranger_is_refused<E>(ctx: WithdrawFees, reply: Result<(), E>)
    requires
        ctx@.authority != ctx@.fee_account.owner,
    ensures
        withdrawal_request(ctx@) == Err::<TransferView, CustomError>(CustomError::Unauthorized),
        withdrawal_result(ctx@, reply) == Err::<(), WithdrawError<E>>(
            WithdrawError::Rejected(CustomError::Unauthorized),
        ),
        after_withdrawal(ctx@, reply is Ok) == ctx@.fee_account,
{
}

/// When the owner signs and the service completes the order, the withdrawal
/// succeeds. The order names the fee account as the source, the owner as
/// the destination and as the authority, and the fixed quantity as the
/// amount; afterwards the fee account holds that much less than before.
pub proof fn law_owner_withdraws<E>(ctx: WithdrawFees, reply: Result<(), E>)
    requires
        authorized(ctx@),
        ctx@.fee_account.balance >= WITHDRAWAL_AMOUNT,
        reply is Ok,
    ensures
        withdrawal_request(ctx@) == Ok::<TransferView, CustomError>(transfer_order(ctx@)),
        transfer_order(ctx@).from == ctx@.fee_account.address,
        transfer_order(ctx@).to == ctx@.fee_account.owner,
        transfer_order(ctx@).authority == ctx@.fee_account.owner,
        transfer_order(ctx@).amount == 1_000_000,
        withdrawal_result(ctx@, reply) == Ok::<(), WithdrawError<E>>(()),
        after_withdrawal(ctx@, reply is Ok).balance == ctx@.fee_account.balance - 1_000_000,
{
}

/// When the owner signs but the fee account holds less than the fixed
/// quantity, the order still asks for the whole quantity: nothing is
/// trimmed to fit. The failure with which the service answers is the
/// failure of the withdrawal, and the fee account stays exactly as it was.
pub proof fn law_shortfall_is_reported<E>(ctx: WithdrawFees, failure: E)
    requires
        authorized(ctx@),
        ctx@.fee_account.balance < WITHDRAWAL_AMOUNT,
    ensures
        withdrawal_request(ctx@) == Ok::<TransferView, CustomError>(transfer_order(ctx@)),
        transfer_order(ctx@).amount == 1_000_000,
        withdrawal_result(ctx@, Err::<(), E>(failure)) == Err::<(), WithdrawError<E>>(
            WithdrawError::Service(failure),
        ),
        after_withdrawal(ctx@, false) == ctx@.fee_account,
{
}

/// Every completed withdrawal by the owner lowers the balance by exactly the
/// fixed quantity: after `count` of them the fee account holds `count` times
/// that quantity less, and strictly less than after one fewer.
pub proof fn law_repeated_withdrawals(ctx: WithdrawFees, count: nat)
    requires
        authorized(ctx@),
        ctx@.fee_account.balance >= count * WITHDRAWAL_AMOUNT,
    ensures
        after_withdrawals(ctx@, count).balance == ctx@.fee_account.balance - count * 1_000_000,
        count > 0 ==> after_withdrawals(ctx@, count).balance < after_withdrawals(
            ctx@,
            (count - 1) as nat,
        ).balance,
    decreases count,
{
    if count > 0 {
        let fewer = (count - 1) as nat;
        assert(count * WITHDRAWAL_AMOUNT == fewer * WITHDRAWAL_AMOUNT + WITHDRAWAL_AMOUNT)
            by (nonlinear_arith)
            requires
                count == fewer + 1,
        ;
        law_repeated_withdrawals(ctx, fewer);
    }
}

/// No withdrawal, however it ends, changes who owns the fee account, where
/// it lives or which mint it holds.
pub proof fn law_owner_is_kept(ctx: WithdrawFees, completed: bool)
    ensures
        after_withdrawal(ctx@, completed).owner == ctx@.fee_account.owner,
        after_withdrawal(ctx@, completed).address == ctx@.fee_account.address,
        after_withdrawal(ctx@, completed).mint == ctx@.fee_account.mint,
{
}

} // verus!
