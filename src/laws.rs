use crate::address::{program_address_of, Address, ESCROW_SEED};
use crate::book::{
    accounts_wf, cancel_in, complete_in, create_in, dispute_in, has_address, index_of,
    resolve_in, CancelTask, CompleteTask, CreateTask, DisputeTask, ResolveDispute,
};
use crate::escrow::{
    dispute_expired, fee_of, split_of, EscrowAccount, EscrowError, TaskCompleted, TaskResolved,
    TaskStatus, Transfer, PLATFORM_FEE_BPS,
};
use vstd::prelude::*;

verus! {

/// At the platform rate the split of any amount exists: the fee is
/// `floor(amount / 10)` and the fee and the payout add up to the amount.
pub proof fn lemma_fixed_rate_split(amount: u64)
    ensures
        split_of(amount, PLATFORM_FEE_BPS) is Some,
        ({
            let (fee, payout) = split_of(amount, PLATFORM_FEE_BPS)->0;
            &&& fee as int == amount as int * 1000 / 10000
            &&& fee as int + payout as int == amount as int
        }),
{
    assert(fee_of(amount, PLATFORM_FEE_BPS) <= amount) by (nonlinear_arith)
        requires
            fee_of(amount, PLATFORM_FEE_BPS) == (amount as int * 1000) / 10000,
            amount >= 0,
    ;
}

/// A successful creation opens a record that holds the full amount, in
/// status `Created`, and the hirer's deposit is the one transfer.
pub proof fn lemma_create_opens_funded_record(
    accts: Seq<EscrowAccount>,
    ctx: CreateTask,
    task_id: String,
    amount: u64,
    now: i64,
    derived: Option<(Seq<u8>, u8)>,
)
    requires
        create_in(accts, ctx, task_id, amount, now, derived) is Ok,
    ensures
        ({
            let (n, ev, ts) = create_in(accts, ctx, task_id, amount, now, derived)->Ok_0;
            &&& n.len() == accts.len() + 1
            &&& n.last().held == amount
            &&& n.last().escrow.amount == amount
            &&& n.last().escrow.status == TaskStatus::Created
            &&& n.last().address == ctx.escrow
            &&& ts == seq![Transfer { from: ctx.hirer, to: ctx.escrow, amount }]
        }),
{
}

/// Once a task identifier has been used, creating it again fails, whatever
/// the accounts, amount and time given the second time.
pub proof fn lemma_create_twice_fails(
    accts: Seq<EscrowAccount>,
    program: Address,
    task_id: String,
    first: CreateTask,
    amount: u64,
    now: i64,
    again_id: String,
    second: CreateTask,
    again_amount: u64,
    again_now: i64,
)
    requires
        again_id@ == task_id@,
        create_in(
            accts,
            first,
            task_id,
            amount,
            now,
            program_address_of(ESCROW_SEED@, task_id@, program@),
        ) is Ok,
    ensures
        ({
            let after = create_in(
                accts,
                first,
                task_id,
                amount,
                now,
                program_address_of(ESCROW_SEED@, task_id@, program@),
            )->Ok_0;
            create_in(
                after.0,
                second,
                again_id,
                again_amount,
                again_now,
                program_address_of(ESCROW_SEED@, again_id@, program@),
            ) is Err
        }),
{
    let derived = program_address_of(ESCROW_SEED@, task_id@, program@);
    let after = (create_in(accts, first, task_id, amount, now, derived)->Ok_0).0;
    let a = (derived->0).0;
    assert(after.last().address@ == a);
    assert(after[after.len() - 1].address@ == a);
    assert(has_address(after, a));
}

/// Completion pays out exactly the amount held: the fee and the agent's
/// payout add up to the amount, and so do the two transfers.
pub proof fn lemma_complete_pays_whole_amount(
    a: EscrowAccount,
    authority: Address,
    agent: Address,
    fee_wallet: Address,
)
    requires
        a.complete_spec(authority, agent, fee_wallet) is Ok,
    ensures
        ({
            let (n, ev, ts) = a.complete_spec(authority, agent, fee_wallet)->Ok_0;
            &&& ev.platform_fee as int + ev.agent_payout as int == a.escrow.amount as int
            &&& ev.platform_fee as int == fee_of(a.escrow.amount, a.escrow.platform_fee_bps)
            &&& ts.len() == 2
            &&& ts[0].amount as int + ts[1].amount as int == a.escrow.amount as int
            &&& n.held == 0
        }),
{
}

/// Release after a dispute pays out exactly the amount held, split as on
/// completion.
pub proof fn lemma_resolve_pays_whole_amount(a: EscrowAccount, agent: Address, fee_wallet: Address, now: i64)
    requires
        a.resolve_spec(agent, fee_wallet, now) is Ok,
    ensures
        ({
            let (n, ev, ts) = a.resolve_spec(agent, fee_wallet, now)->Ok_0;
            &&& ev.platform_fee as int + ev.agent_payout as int == a.escrow.amount as int
            &&& ev.platform_fee as int == fee_of(a.escrow.amount, a.escrow.platform_fee_bps)
            &&& ts.len() == 2
            &&& ts[0].amount as int + ts[1].amount as int == a.escrow.amount as int
            &&& n.held == 0
        }),
{
}

/// Completion succeeds exactly when the task is open or disputed and the
/// caller is the authority (with the agent and fee wallet of the record);
/// otherwise the status is checked first, then the caller.
pub proof fn lemma_complete_rules(a: EscrowAccount, authority: Address, agent: Address, fee_wallet: Address)
    requires
        a.wf(),
    ensures
        a.complete_spec(authority, agent, fee_wallet) is Ok ==> (a.escrow.status is Created
            || a.escrow.status is Disputed) && authority@ == a.escrow.authority@,
        !(a.escrow.status is Created || a.escrow.status is Disputed) ==> a.complete_spec(
            authority,
            agent,
            fee_wallet,
        ) == Err::<(EscrowAccount, TaskCompleted, Seq<Transfer>), EscrowError>(
            EscrowError::InvalidStatus,
        ),
        (a.escrow.status is Created || a.escrow.status is Disputed) && authority@
            != a.escrow.authority@ ==> a.complete_spec(authority, agent, fee_wallet) == Err::<
            (EscrowAccount, TaskCompleted, Seq<Transfer>),
            EscrowError,
        >(EscrowError::Unauthorized),
        (a.escrow.status is Created || a.escrow.status is Disputed) && authority@
            == a.escrow.authority@ && agent@ == a.escrow.agent@ && fee_wallet@ == a.escrow.fee_wallet@
            ==> a.complete_spec(authority, agent, fee_wallet) is Ok,
{
    lemma_fixed_rate_split(a.escrow.amount);
}

/// Cancellation succeeds exactly from `Created` and for the hirer, and then
/// refunds the full amount to the hirer.
pub proof fn lemma_cancel_rules(a: EscrowAccount, hirer: Address)
    requires
        a.wf(),
    ensures
        a.cancel_spec(hirer) is Ok <==> a.escrow.status is Created && hirer@ == a.escrow.hirer@,
        a.cancel_spec(hirer) is Ok ==> ({
            let (n, ev, ts) = a.cancel_spec(hirer)->Ok_0;
            &&& ev.refund == a.escrow.amount
            &&& ev.refund == a.held
            &&& ts == seq![
                Transfer { from: a.address, to: a.escrow.hirer, amount: a.escrow.amount },
            ]
            &&& n.held == 0
            &&& n.escrow.status is Cancelled
        }),
{
}

/// A dispute opens only from `Created`, and only by the hirer or the agent;
/// anyone else is rejected.
pub proof fn lemma_dispute_rules(a: EscrowAccount, caller: Address, now: i64)
    ensures
        a.dispute_spec(caller, now) is Ok <==> a.escrow.status is Created && (caller@
            == a.escrow.hirer@ || caller@ == a.escrow.agent@),
        caller@ != a.escrow.hirer@ && caller@ != a.escrow.agent@ ==> a.dispute_spec(caller, now) is Err,
        a.dispute_spec(caller, now) is Ok ==> ({
            let (n, ev) = a.dispute_spec(caller, now)->Ok_0;
            &&& n.escrow.status is Disputed
            &&& n.escrow.disputed_at == now
            &&& n.held == a.held
        }),
{
}

/// Release of a disputed record with the record's own agent and fee wallet
/// fails with `DisputeNotExpired` before the timeout has run out, and
/// succeeds with the platform split from that moment on.
pub proof fn lemma_resolve_timeout(a: EscrowAccount, agent: Address, fee_wallet: Address, now: i64)
    requires
        a.wf(),
        a.escrow.status is Disputed,
        agent@ == a.escrow.agent@,
        fee_wallet@ == a.escrow.fee_wallet@,
    ensures
        !dispute_expired(a.escrow.disputed_at, now) ==> a.resolve_spec(agent, fee_wallet, now)
            == Err::<
            (EscrowAccount, TaskResolved, Seq<Transfer>),
            EscrowError,
        >(EscrowError::DisputeNotExpired),
        dispute_expired(a.escrow.disputed_at, now) ==> a.resolve_spec(agent, fee_wallet, now) is Ok
            && (a.resolve_spec(agent, fee_wallet, now)->Ok_0).1.platform_fee as int
            == a.escrow.amount as int * 1000 / 10000
            && (a.resolve_spec(agent, fee_wallet, now)->Ok_0).1.agent_payout as int
            == a.escrow.amount as int - a.escrow.amount as int * 1000 / 10000,
{
    lemma_fixed_rate_split(a.escrow.amount);
}

/// A record in a terminal status turns every operation away with
/// `InvalidStatus`, whoever calls and whenever.
pub proof fn lemma_terminal_rejects_all(
    accts: Seq<EscrowAccount>,
    complete: CompleteTask,
    cancel: CancelTask,
    dispute: DisputeTask,
    resolve: ResolveDispute,
    now: i64,
)
    requires
        accounts_wf(accts),
        has_address(accts, complete.escrow@),
        accts[index_of(accts, complete.escrow@)].escrow.status.is_terminal(),
        cancel.escrow@ == complete.escrow@,
        dispute.escrow@ == complete.escrow@,
        resolve.escrow@ == complete.escrow@,
    ensures
        complete_in(accts, complete) is Err && complete_in(accts, complete)->Err_0
            == EscrowError::InvalidStatus,
        cancel_in(accts, cancel) is Err && cancel_in(accts, cancel)->Err_0 == EscrowError::InvalidStatus,
        dispute_in(accts, dispute, now) is Err && dispute_in(accts, dispute, now)->Err_0
            == EscrowError::InvalidStatus,
        resolve_in(accts, resolve, now) is Err && resolve_in(accts, resolve, now)->Err_0
            == EscrowError::InvalidStatus,
{
}

/// The fields fixed at creation never change, and `disputed_at` is written
/// only by the dispute that moves a record from `Created` to `Disputed`.
pub open spec fn keeps_terms(before: EscrowAccount, after: EscrowAccount) -> bool {
    &&& after.address == before.address
    &&& after.escrow.hirer == before.escrow.hirer
    &&& after.escrow.agent == before.escrow.agent
    &&& after.escrow.authority == before.escrow.authority
    &&& after.escrow.fee_wallet == before.escrow.fee_wallet
    &&& after.escrow.task_id == before.escrow.task_id
    &&& after.escrow.amount == before.escrow.amount
    &&& after.escrow.platform_fee_bps == before.escrow.platform_fee_bps
    &&& after.escrow.created_at == before.escrow.created_at
    &&& after.escrow.bump == before.escrow.bump
}

/// Every transition keeps the record's terms; only a dispute, taken from
/// `Created`, sets `disputed_at`, and a release reads it without change.
pub proof fn lemma_terms_are_immutable(
    a: EscrowAccount,
    caller: Address,
    agent: Address,
    fee_wallet: Address,
    now: i64,
)
    ensures
        a.complete_spec(caller, agent, fee_wallet) is Ok ==> keeps_terms(
            a,
            (a.complete_spec(caller, agent, fee_wallet)->Ok_0).0,
        ) && (a.complete_spec(caller, agent, fee_wallet)->Ok_0).0.escrow.disputed_at
            == a.escrow.disputed_at,
        a.cancel_spec(caller) is Ok ==> keeps_terms(a, (a.cancel_spec(caller)->Ok_0).0) && (
        a.cancel_spec(caller)->Ok_0).0.escrow.disputed_at == a.escrow.disputed_at,
        a.resolve_spec(agent, fee_wallet, now) is Ok ==> keeps_terms(
            a,
            (a.resolve_spec(agent, fee_wallet, now)->Ok_0).0,
        ) && (a.resolve_spec(agent, fee_wallet, now)->Ok_0).0.escrow.disputed_at
            == a.escrow.disputed_at,
        a.dispute_spec(caller, now) is Ok ==> keeps_terms(a, (a.dispute_spec(caller, now)->Ok_0).0)
            && a.escrow.status is Created,
{
}

} // verus!
