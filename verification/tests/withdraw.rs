use fee_vault::{
    withdraw_fees, CustomError, FeeAccount, Identity, Transfer, WithdrawError, WithdrawFees,
    WITHDRAWAL_AMOUNT,
};

/// What the token service reports when it fails.
#[derive(Debug, Clone, Copy, PartialEq, Eq)]
enum ServiceFailure {
    InsufficientFunds,
    AccountFrozen,
}

/// A stand-in for the token service: it refuses an order that the source
/// cannot cover and completes every other one.
fn service_reply(source_balance: u64, order: &Transfer) -> Result<(), ServiceFailure> {
    if source_balance < order.amount {
        Err(ServiceFailure::InsufficientFunds)
    } else {
        Ok(())
    }
}

fn key(fill: u8) -> Identity {
    Identity::new([fill; 32])
}

const VAULT: u8 = 10;
const OWNER: u8 = 1;
const STRANGER: u8 = 2;
const MINT: u8 = 20;
const TOKEN_SERVICE: u8 = 30;

fn request(signer: u8, balance: u64) -> WithdrawFees {
    WithdrawFees {
        authority: key(signer),
        fee_account: FeeAccount::new(key(VAULT), key(OWNER), key(MINT), balance),
        token_program: key(TOKEN_SERVICE),
    }
}

/// One whole withdrawal against the stand-in service.
fn withdraw(ctx: &mut WithdrawFees) -> Result<(), WithdrawError<ServiceFailure>> {
    let order = match withdraw_fees(ctx) {
        Ok(order) => order,
        Err(refusal) => return Err(WithdrawError::Rejected(refusal)),
    };
    let reply = service_reply(ctx.fee_account.balance(), &order);
    ctx.conclude(reply)
}

#[test]
fn the_fixed_quantity_is_one_million() {
    assert_eq!(WITHDRAWAL_AMOUNT, 1_000_000);
}

#[test]
fn owner_gets_the_order_for_the_fixed_quantity() {
    let ctx = request(OWNER, 3_000_000);
    assert_eq!(
        withdraw_fees(&ctx),
        Ok(Transfer {
            program: key(TOKEN_SERVICE),
            from: key(VAULT),
            to: key(OWNER),
            authority: key(OWNER),
            amount: 1_000_000,
        })
    );
}

#[test]
fn order_does_not_depend_on_the_balance() {
    for balance in [0u64, 1, 999_999, 1_000_000, 1_000_001, u64::MAX] {
        let order = withdraw_fees(&request(OWNER, balance)).unwrap();
        assert_eq!(order.amount, 1_000_000);
        assert_eq!(order.from, key(VAULT));
        assert_eq!(order.to, key(OWNER));
    }
}

#[test]
fn stranger_is_refused_and_gets_no_order() {
    for balance in [0u64, 999_999, 1_000_000, 3_000_000, u64::MAX] {
        let ctx = request(STRANGER, balance);
        assert_eq!(withdraw_fees(&ctx), Err(CustomError::Unauthorized));
        assert_eq!(ctx.fee_account.balance(), balance);
    }
}

#[test]
fn stranger_with_a_nearly_equal_key_is_refused() {
    let mut near = [OWNER; 32];
    near[31] ^= 1;
    let mut ctx = request(OWNER, 3_000_000);
    ctx.authority = Identity::new(near);
    assert_eq!(withdraw_fees(&ctx), Err(CustomError::Unauthorized));
    let mut near = [OWNER; 32];
    near[0] ^= 0x80;
    ctx.authority = Identity::new(near);
    assert_eq!(withdraw_fees(&ctx), Err(CustomError::Unauthorized));
}

#[test]
fn holding_the_account_address_or_the_mint_does_not_authorize() {
    let mut ctx = request(VAULT, 3_000_000);
    assert_eq!(withdraw_fees(&ctx), Err(CustomError::Unauthorized));
    ctx.authority = key(MINT);
    assert_eq!(withdraw_fees(&ctx), Err(CustomError::Unauthorized));
    ctx.authority = key(TOKEN_SERVICE);
    assert_eq!(withdraw_fees(&ctx), Err(CustomError::Unauthorized));
}

#[test]
fn refused_request_records_nothing_whatever_the_reply() {
    let before = request(STRANGER, 3_000_000);

    let mut ctx = before;
    assert_eq!(
        ctx.conclude::<ServiceFailure>(Ok(())),
        Err(WithdrawError::Rejected(CustomError::Unauthorized))
    );
    assert_eq!(ctx, before);

    let mut ctx = before;
    assert_eq!(
        ctx.conclude(Err(ServiceFailure::AccountFrozen)),
        Err(WithdrawError::Rejected(CustomError::Unauthorized))
    );
    assert_eq!(ctx, before);
}

#[test]
fn completed_withdrawal_debits_the_fixed_quantity() {
    let mut ctx = request(OWNER, 3_000_000);
    assert_eq!(ctx.conclude::<ServiceFailure>(Ok(())), Ok(()));
    assert_eq!(ctx.fee_account.balance(), 2_000_000);
    assert_eq!(ctx.fee_account.owner(), key(OWNER));
    assert_eq!(ctx.fee_account.address(), key(VAULT));
    assert_eq!(ctx.fee_account.mint(), key(MINT));
    assert_eq!(ctx.authority, key(OWNER));
    assert_eq!(ctx.token_program, key(TOKEN_SERVICE));
}

#[test]
fn withdrawal_of_the_exact_balance_empties_the_account() {
    let mut ctx = request(OWNER, 1_000_000);
    assert_eq!(withdraw(&mut ctx), Ok(()));
    assert_eq!(ctx.fee_account.balance(), 0);
}

#[test]
fn withdrawal_from_the_largest_balance() {
    let mut ctx = request(OWNER, u64::MAX);
    assert_eq!(withdraw(&mut ctx), Ok(()));
    assert_eq!(ctx.fee_account.balance(), u64::MAX - 1_000_000);
}

#[test]
fn failed_transfer_is_handed_on_and_changes_nothing() {
    let before = request(OWNER, 3_000_000);
    let mut ctx = before;
    assert_eq!(
        ctx.conclude(Err(ServiceFailure::AccountFrozen)),
        Err(WithdrawError::Service(ServiceFailure::AccountFrozen))
    );
    assert_eq!(ctx, before);

    let mut ctx = before;
    assert_eq!(ctx.conclude(Err(77u32)), Err(WithdrawError::Service(77u32)));
    assert_eq!(ctx, before);
}

#[test]
fn shortfall_fails_with_the_service_failure_and_changes_nothing() {
    for balance in [0u64, 1, 500_000, 999_999] {
        let mut ctx = request(OWNER, balance);
        assert_eq!(
            withdraw(&mut ctx),
            Err(WithdrawError::Service(ServiceFailure::InsufficientFunds))
        );
        assert_eq!(ctx.fee_account.balance(), balance);
        assert_eq!(ctx.fee_account.owner(), key(OWNER));
    }
}

#[test]
fn repeated_withdrawals_lower_the_balance_step_by_step() {
    let mut ctx = request(OWNER, 5_500_000);
    let mut expected = 5_500_000u64;
    for _ in 0..5 {
        assert_eq!(withdraw(&mut ctx), Ok(()));
        expected -= 1_000_000;
        assert_eq!(ctx.fee_account.balance(), expected);
    }
    assert_eq!(ctx.fee_account.balance(), 500_000);
    assert_eq!(
        withdraw(&mut ctx),
        Err(WithdrawError::Service(ServiceFailure::InsufficientFunds))
    );
    assert_eq!(ctx.fee_account.balance(), 500_000);
}

#[test]
fn owner_stranger_owner_scenario() {
    let mut ctx = request(OWNER, 3_000_000);

    assert_eq!(withdraw(&mut ctx), Ok(()));
    assert_eq!(ctx.fee_account.balance(), 2_000_000);

    ctx.authority = key(STRANGER);
    assert_eq!(
        withdraw(&mut ctx),
        Err(WithdrawError::Rejected(CustomError::Unauthorized))
    );
    assert_eq!(ctx.fee_account.balance(), 2_000_000);

    ctx.authority = key(OWNER);
    assert_eq!(withdraw(&mut ctx), Ok(()));
    assert_eq!(ctx.fee_account.balance(), 1_000_000);
}
