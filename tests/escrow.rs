use hermes_escrow::{
    cancel_task, complete_task, create_task, dispute_has_expired, dispute_task, escrow_address,
    fee_split, open_escrow, resolve_dispute, Address, CancelTask, CompleteTask, CreateTask,
    DisputeTask, EscrowBook, EscrowError, ResolveDispute, TaskStatus, Transfer,
    DISPUTE_TIMEOUT_SECONDS, PLATFORM_FEE_BPS,
};

fn addr(n: u8) -> Address {
    Address::new([n; 32])
}

fn program() -> Address {
    Address::new([0; 32])
}

const HIRER: u8 = 1;
const AGENT: u8 = 2;
const AUTHORITY: u8 = 3;
const FEE_WALLET: u8 = 4;
const STRANGER: u8 = 9;

fn record_address(task_id: &str) -> Address {
    escrow_address(&program(), task_id).expect("derivable").0
}

fn create_ctx(task_id: &str) -> CreateTask {
    CreateTask {
        hirer: addr(HIRER),
        agent: addr(AGENT),
        authority: addr(AUTHORITY),
        fee_wallet: addr(FEE_WALLET),
        escrow: record_address(task_id),
    }
}

fn book_with(task_id: &str, amount: u64, now: i64) -> EscrowBook {
    let mut book = EscrowBook::new(program());
    create_task(&mut book, &create_ctx(task_id), task_id.to_string(), amount, now).unwrap();
    book
}

fn complete_ctx(task_id: &str, authority: u8) -> CompleteTask {
    CompleteTask {
        authority: addr(authority),
        escrow: record_address(task_id),
        agent: addr(AGENT),
        fee_wallet: addr(FEE_WALLET),
    }
}

fn resolve_ctx(task_id: &str) -> ResolveDispute {
    ResolveDispute {
        caller: addr(STRANGER),
        escrow: record_address(task_id),
        agent: addr(AGENT),
        fee_wallet: addr(FEE_WALLET),
    }
}

fn status_of(book: &EscrowBook, task_id: &str) -> (TaskStatus, u64) {
    let acct = book.get(&record_address(task_id)).unwrap();
    (acct.escrow.status, acct.held)
}

#[test]
fn dispute_resolves_only_after_timeout() {
    let mut book = book_with("task-1", 1000, 10);
    let ev = dispute_task(
        &mut book,
        &DisputeTask { caller: addr(AGENT), escrow: record_address("task-1") },
        50,
    )
    .unwrap();
    assert_eq!(ev.disputed_by, addr(AGENT));
    assert_eq!(book.get(&record_address("task-1")).unwrap().escrow.disputed_at, 50);

    let early = resolve_dispute(&mut book, &resolve_ctx("task-1"), 50 + 100000);
    assert_eq!(early.unwrap_err(), EscrowError::DisputeNotExpired);
    assert_eq!(status_of(&book, "task-1"), (TaskStatus::Disputed, 1000));

    let (ev, transfers) = resolve_dispute(&mut book, &resolve_ctx("task-1"), 50 + 259200).unwrap();
    assert_eq!(ev.platform_fee, 100);
    assert_eq!(ev.agent_payout, 900);
    assert_eq!(ev.task_id, "task-1");
    let from = record_address("task-1");
    assert_eq!(
        transfers,
        vec![
            Transfer { from, to: addr(AGENT), amount: 900 },
            Transfer { from, to: addr(FEE_WALLET), amount: 100 },
        ]
    );
    assert_eq!(status_of(&book, "task-1"), (TaskStatus::Resolved, 0));
}

#[test]
fn cancel_refunds_hirer_then_complete_fails() {
    let mut book = book_with("task-2", 500, 0);
    let (ev, transfers) =
        cancel_task(&mut book, &CancelTask { hirer: addr(HIRER), escrow: record_address("task-2") })
            .unwrap();
    assert_eq!(ev.refund, 500);
    assert_eq!(
        transfers,
        vec![Transfer { from: record_address("task-2"), to: addr(HIRER), amount: 500 }]
    );
    assert_eq!(status_of(&book, "task-2"), (TaskStatus::Cancelled, 0));

    let again = complete_task(&mut book, &complete_ctx("task-2", AUTHORITY));
    assert_eq!(again.unwrap_err(), EscrowError::InvalidStatus);
    assert_eq!(status_of(&book, "task-2"), (TaskStatus::Cancelled, 0));
}

#[test]
fn complete_by_authority_splits_fee() {
    let mut book = book_with("task-3", 10000, 0);
    let (ev, transfers) = complete_task(&mut book, &complete_ctx("task-3", AUTHORITY)).unwrap();
    assert_eq!(ev.platform_fee, 1000);
    assert_eq!(ev.agent_payout, 9000);
    let from = record_address("task-3");
    assert_eq!(
        transfers,
        vec![
            Transfer { from, to: addr(AGENT), amount: 9000 },
            Transfer { from, to: addr(FEE_WALLET), amount: 1000 },
        ]
    );
    assert_eq!(status_of(&book, "task-3"), (TaskStatus::Completed, 0));
}

#[test]
fn create_funds_record_and_rejects_duplicate() {
    let mut book = EscrowBook::new(program());
    let (ev, transfers) =
        create_task(&mut book, &create_ctx("job"), "job".to_string(), 777, 42).unwrap();
    assert_eq!(ev.amount, 777);
    assert_eq!(ev.hirer, addr(HIRER));
    assert_eq!(ev.agent, addr(AGENT));
    assert_eq!(transfers, vec![Transfer { from: addr(HIRER), to: record_address("job"), amount: 777 }]);
    let acct = book.get(&record_address("job")).unwrap();
    assert_eq!(acct.held, 777);
    assert_eq!(acct.escrow.status, TaskStatus::Created);
    assert_eq!(acct.escrow.created_at, 42);
    assert_eq!(acct.escrow.platform_fee_bps, PLATFORM_FEE_BPS);
    assert_eq!(acct.escrow.task_id, "job");

    let second = create_task(&mut book, &create_ctx("job"), "job".to_string(), 5, 43);
    assert_eq!(second.unwrap_err(), EscrowError::AlreadyInUse);
    assert_eq!(book.len(), 1);
    assert_eq!(book.get(&record_address("job")).unwrap().held, 777);
}

#[test]
fn create_rejects_bad_inputs() {
    let mut book = EscrowBook::new(program());
    let zero = create_task(&mut book, &create_ctx("t"), "t".to_string(), 0, 0);
    assert_eq!(zero.unwrap_err(), EscrowError::ZeroAmount);

    let long_id = "x".repeat(65);
    let mut ctx = create_ctx("t");
    let too_long = create_task(&mut book, &ctx, long_id, 10, 0);
    assert_eq!(too_long.unwrap_err(), EscrowError::TaskIdTooLong);

    let seed_id = "y".repeat(40);
    let no_address = create_task(&mut book, &ctx, seed_id, 10, 0);
    assert_eq!(no_address.unwrap_err(), EscrowError::AddressUnavailable);

    ctx.escrow = addr(STRANGER);
    let wrong = create_task(&mut book, &ctx, "t".to_string(), 10, 0);
    assert_eq!(wrong.unwrap_err(), EscrowError::WrongEscrowAccount);
    assert_eq!(book.len(), 0);
}

#[test]
fn open_escrow_uses_given_derivation() {
    let mut book = EscrowBook::new(program());
    let ctx = CreateTask { escrow: addr(7), ..create_ctx("t") };
    let none = open_escrow(&mut book, &ctx, "t".to_string(), 10, 0, None);
    assert_eq!(none.unwrap_err(), EscrowError::AddressUnavailable);
    let other = open_escrow(&mut book, &ctx, "t".to_string(), 10, 0, Some((addr(8), 200)));
    assert_eq!(other.unwrap_err(), EscrowError::WrongEscrowAccount);
    open_escrow(&mut book, &ctx, "t".to_string(), 10, 0, Some((addr(7), 200))).unwrap();
    assert_eq!(book.get(&addr(7)).unwrap().escrow.bump, 200);
    let dup = open_escrow(&mut book, &ctx, "u".to_string(), 10, 0, Some((addr(7), 199)));
    assert_eq!(dup.unwrap_err(), EscrowError::AlreadyInUse);
}

#[test]
fn escrow_address_is_derived_and_deterministic() {
    let (a, bump) = escrow_address(&program(), "task-1").unwrap();
    assert_ne!(a, program());
    assert_eq!(escrow_address(&program(), "task-1"), Some((a, bump)));
    let (b, _) = escrow_address(&program(), "task-2").unwrap();
    assert_ne!(a, b);
    let (c, _) = escrow_address(&addr(5), "task-1").unwrap();
    assert_ne!(a, c);
    assert_eq!(escrow_address(&program(), &"z".repeat(33)), None);
}

#[test]
fn fee_split_sums_to_amount() {
    for amount in [1u64, 9, 10, 11, 999, 1000, 10000, 123457, u64::MAX] {
        let (fee, payout) = fee_split(amount, PLATFORM_FEE_BPS).unwrap();
        assert_eq!(fee, ((amount as u128) * 1000 / 10000) as u64);
        assert_eq!(fee + payout, amount);
    }
    assert_eq!(fee_split(u64::MAX, PLATFORM_FEE_BPS), Some((1844674407370955161, 16602069666338596454)));
    assert_eq!(fee_split(10, 20000), None);
    assert_eq!(fee_split(10, 10000), Some((10, 0)));
}

#[test]
fn complete_requires_authority() {
    let mut book = book_with("c", 100, 0);
    let r = complete_task(&mut book, &complete_ctx("c", HIRER));
    assert_eq!(r.unwrap_err(), EscrowError::Unauthorized);
    assert_eq!(status_of(&book, "c"), (TaskStatus::Created, 100));

    let wrong_agent = CompleteTask { agent: addr(STRANGER), ..complete_ctx("c", AUTHORITY) };
    assert_eq!(complete_task(&mut book, &wrong_agent).unwrap_err(), EscrowError::WrongAgent);
    let wrong_fee = CompleteTask { fee_wallet: addr(STRANGER), ..complete_ctx("c", AUTHORITY) };
    assert_eq!(complete_task(&mut book, &wrong_fee).unwrap_err(), EscrowError::WrongFeeWallet);
    assert_eq!(status_of(&book, "c"), (TaskStatus::Created, 100));
}

#[test]
fn complete_from_dispute() {
    let mut book = book_with("d", 55, 0);
    dispute_task(&mut book, &DisputeTask { caller: addr(HIRER), escrow: record_address("d") }, 1)
        .unwrap();
    let (ev, _) = complete_task(&mut book, &complete_ctx("d", AUTHORITY)).unwrap();
    assert_eq!((ev.platform_fee, ev.agent_payout), (5, 50));
    assert_eq!(status_of(&book, "d"), (TaskStatus::Completed, 0));
}

#[test]
fn cancel_only_by_hirer_from_created() {
    let mut book = book_with("e", 300, 0);
    let by_agent =
        cancel_task(&mut book, &CancelTask { hirer: addr(AGENT), escrow: record_address("e") });
    assert_eq!(by_agent.unwrap_err(), EscrowError::Unauthorized);
    dispute_task(&mut book, &DisputeTask { caller: addr(AGENT), escrow: record_address("e") }, 1)
        .unwrap();
    let disputed =
        cancel_task(&mut book, &CancelTask { hirer: addr(HIRER), escrow: record_address("e") });
    assert_eq!(disputed.unwrap_err(), EscrowError::InvalidStatus);
    assert_eq!(status_of(&book, "e"), (TaskStatus::Disputed, 300));
}

#[test]
fn dispute_rejects_third_party() {
    let mut book = book_with("f", 300, 0);
    let r = dispute_task(&mut book, &DisputeTask { caller: addr(STRANGER), escrow: record_address("f") }, 1);
    assert_eq!(r.unwrap_err(), EscrowError::Unauthorized);
    let r = dispute_task(&mut book, &DisputeTask { caller: addr(AUTHORITY), escrow: record_address("f") }, 1);
    assert_eq!(r.unwrap_err(), EscrowError::Unauthorized);
    assert_eq!(status_of(&book, "f"), (TaskStatus::Created, 300));
}

#[test]
fn resolve_boundary_and_mismatches() {
    let mut book = book_with("g", 1000, 0);
    let not_disputed = resolve_dispute(&mut book, &resolve_ctx("g"), 1_000_000);
    assert_eq!(not_disputed.unwrap_err(), EscrowError::InvalidStatus);
    dispute_task(&mut book, &DisputeTask { caller: addr(HIRER), escrow: record_address("g") }, 1000)
        .unwrap();
    let wrong_agent = ResolveDispute { agent: addr(STRANGER), ..resolve_ctx("g") };
    assert_eq!(resolve_dispute(&mut book, &wrong_agent, 1_000_000).unwrap_err(), EscrowError::WrongAgent);
    let wrong_fee = ResolveDispute { fee_wallet: addr(STRANGER), ..resolve_ctx("g") };
    assert_eq!(resolve_dispute(&mut book, &wrong_fee, 1_000_000).unwrap_err(), EscrowError::WrongFeeWallet);
    let just_before = resolve_dispute(&mut book, &resolve_ctx("g"), 1000 + DISPUTE_TIMEOUT_SECONDS - 1);
    assert_eq!(just_before.unwrap_err(), EscrowError::DisputeNotExpired);
    let (ev, _) = resolve_dispute(&mut book, &resolve_ctx("g"), 1000 + DISPUTE_TIMEOUT_SECONDS).unwrap();
    assert_eq!((ev.platform_fee, ev.agent_payout), (100, 900));
}

#[test]
fn terminal_records_reject_everything() {
    let mut book = book_with("h", 400, 0);
    complete_task(&mut book, &complete_ctx("h", AUTHORITY)).unwrap();
    let esc = record_address("h");
    for caller in [HIRER, AGENT, AUTHORITY, STRANGER] {
        assert_eq!(
            complete_task(&mut book, &complete_ctx("h", caller)).unwrap_err(),
            EscrowError::InvalidStatus
        );
        assert_eq!(
            cancel_task(&mut book, &CancelTask { hirer: addr(caller), escrow: esc }).unwrap_err(),
            EscrowError::InvalidStatus
        );
        assert_eq!(
            dispute_task(&mut book, &DisputeTask { caller: addr(caller), escrow: esc }, 5).unwrap_err(),
            EscrowError::InvalidStatus
        );
        assert_eq!(
            resolve_dispute(&mut book, &resolve_ctx("h"), i64::MAX).unwrap_err(),
            EscrowError::InvalidStatus
        );
    }
    assert_eq!(status_of(&book, "h"), (TaskStatus::Completed, 0));
}

#[test]
fn unknown_record_is_not_found() {
    let mut book = EscrowBook::new(program());
    let r = complete_task(&mut book, &complete_ctx("nothing", AUTHORITY));
    assert_eq!(r.unwrap_err(), EscrowError::AccountNotFound);
    let r = cancel_task(&mut book, &CancelTask { hirer: addr(HIRER), escrow: addr(STRANGER) });
    assert_eq!(r.unwrap_err(), EscrowError::AccountNotFound);
}

#[test]
fn timeout_check_has_no_overflow() {
    assert!(!dispute_has_expired(i64::MAX, i64::MAX));
    assert!(!dispute_has_expired(i64::MAX - DISPUTE_TIMEOUT_SECONDS + 1, i64::MAX));
    assert!(dispute_has_expired(i64::MAX - DISPUTE_TIMEOUT_SECONDS, i64::MAX));
    assert!(dispute_has_expired(i64::MIN, i64::MIN + DISPUTE_TIMEOUT_SECONDS));
    assert!(!dispute_has_expired(i64::MIN, i64::MIN));
}

#[test]
fn error_messages() {
    assert_eq!(EscrowError::ZeroAmount.message(), "Amount must be greater than zero");
    assert_eq!(EscrowError::DisputeNotExpired.message(), "Dispute timeout has not expired yet");
}

#[test]
fn well_formed_accounts() {
    let book = book_with("w", 10, 0);
    let mut acct = book.get(&record_address("w")).unwrap().clone();
    assert!(acct.is_well_formed());
    acct.held = 9;
    assert!(!acct.is_well_formed());
    acct.held = 10;
    acct.escrow.platform_fee_bps = 20000;
    assert!(!acct.is_well_formed());
}
