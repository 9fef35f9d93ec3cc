use crate::address::{find_program_address, program_address_of, Address, ESCROW_SEED};
use crate::escrow::{
    byte_len, Escrow, EscrowAccount, EscrowError, TaskCancelled, TaskCompleted, TaskCreated,
    TaskDisputed, TaskResolved, TaskStatus, Transfer, MAX_TASK_ID_LEN, PLATFORM_FEE_BPS,
};
use vstd::prelude::*;

verus! {

/// Accounts that take part in creating a task.
#[derive(Clone, Copy, Debug)]
pub struct CreateTask {
    /// Funds the task; signs the deposit.
    pub hirer: Address,
    /// Receives the payout on completion.
    pub agent: Address,
    /// May mark the task complete.
    pub authority: Address,
    /// Receives the platform fee.
    pub fee_wallet: Address,
    /// The record's account, which must be the one derived for the task.
    pub escrow: Address,
}

/// Accounts that take part in completing a task.
#[derive(Clone, Copy, Debug)]
pub struct CompleteTask {
    /// Signer; must be the record's authority.
    pub authority: Address,
    pub escrow: Address,
    /// Must be the record's agent.
    pub agent: Address,
    /// Must be the record's fee wallet.
    pub fee_wallet: Address,
}

/// Accounts that take part in cancelling a task.
#[derive(Clone, Copy, Debug)]
pub struct CancelTask {
    /// Signer; must be the record's hirer.
    pub hirer: Address,
    pub escrow: Address,
}

/// Accounts that take part in opening a dispute.
#[derive(Clone, Copy, Debug)]
pub struct DisputeTask {
    /// Signer; must be the record's hirer or agent.
    pub caller: Address,
    pub escrow: Address,
}

/// Accounts that take part in releasing a disputed task after the timeout.
#[derive(Clone, Copy, Debug)]
pub struct ResolveDispute {
    /// Signer; anyone.
    pub caller: Address,
    pub escrow: Address,
    /// Must be the record's agent.
    pub agent: Address,
    /// Must be the record's fee wallet.
    pub fee_wallet: Address,
}

/// The escrow records of one program, each at its own address.
pub struct EscrowBook {
    program_id: Address,
    accounts: Vec<EscrowAccount>,
}

impl View for EscrowBook {
    type V = Seq<EscrowAccount>;

    closed spec fn view(&self) -> Seq<EscrowAccount> {
        self.accounts@
    }
}

/// Some account in `accts` lives at `a`.
pub open spec fn has_address(accts: Seq<EscrowAccount>, a: Seq<u8>) -> bool {
    exists|i: int| 0 <= i < accts.len() && #[trigger] accts[i].address@ == a
}

/// Position of the account at `a`.
pub open spec fn index_of(accts: Seq<EscrowAccount>, a: Seq<u8>) -> int
    recommends
        has_address(accts, a),
{
    choose|i: int| 0 <= i < accts.len() && #[trigger] accts[i].address@ == a
}

/// Every account is well formed, and no two share an address.
pub open spec fn accounts_wf(accts: Seq<EscrowAccount>) -> bool {
    &&& forall|i: int| 0 <= i < accts.len() ==> #[trigger] accts[i].wf()
    &&& forall|i: int, j: int|
        #![trigger accts[i], accts[j]]
        0 <= i < accts.len() && 0 <= j < accts.len() && i != j ==> accts[i].address@
            != accts[j].address@
}

pub open spec fn derived_view(derived: Option<(Address, u8)>) -> Option<(Seq<u8>, u8)> {
    match derived {
        Some((a, bump)) => Some((a@, bump)),
        None => None,
    }
}

/// The account that a successful creation opens.
pub open spec fn opened(ctx: CreateTask, task_id: String, amount: u64, now: i64, bump: u8) -> EscrowAccount {
    EscrowAccount {
        address: ctx.escrow,
        escrow: Escrow {
            hirer: ctx.hirer,
            agent: ctx.agent,
            authority: ctx.authority,
            fee_wallet: ctx.fee_wallet,
            task_id,
            amount,
            platform_fee_bps: PLATFORM_FEE_BPS,
            status: TaskStatus::Created,
            created_at: now,
            disputed_at: 0,
            bump,
        },
        held: amount,
    }
}

/// Outcome of creating a task, given the address derived for it.
pub open spec fn create_in(
    accts: Seq<EscrowAccount>,
    ctx: CreateTask,
    task_id: String,
    amount: u64,
    now: i64,
    derived: Option<(Seq<u8>, u8)>,
) -> Result<(Seq<EscrowAccount>, TaskCreated, Seq<Transfer>), EscrowError> {
    if amount == 0 {
        Err(EscrowError::ZeroAmount)
    } else if byte_len(task_id@) > MAX_TASK_ID_LEN {
        Err(EscrowError::TaskIdTooLong)
    } else {
        match derived {
            None => Err(EscrowError::AddressUnavailable),
            Some((a, bump)) => if a != ctx.escrow@ {
                Err(EscrowError::WrongEscrowAccount)
            } else if has_address(accts, a) {
                Err(EscrowError::AlreadyInUse)
            } else {
                Ok((
                    accts.push(opened(ctx, task_id, amount, now, bump)),
                    TaskCreated { task_id, hirer: ctx.hirer, agent: ctx.agent, amount },
                    seq![Transfer { from: ctx.hirer, to: ctx.escrow, amount }],
                ))
            },
        }
    }
}

/// Outcome of completing the task at `ctx.escrow`.
pub open spec fn complete_in(accts: Seq<EscrowAccount>, ctx: CompleteTask) -> Result<
    (Seq<EscrowAccount>, TaskCompleted, Seq<Transfer>),
    EscrowError,
> {
    if !has_address(accts, ctx.escrow@) {
        Err(EscrowError::AccountNotFound)
    } else {
        let i = index_of(accts, ctx.escrow@);
        match accts[i].complete_spec(ctx.authority, ctx.agent, ctx.fee_wallet) {
            Ok((n, ev, ts)) => Ok((accts.update(i, n), ev, ts)),
            Err(e) => Err(e),
        }
    }
}

/// Outcome of cancelling the task at `ctx.escrow`.
pub open spec fn cancel_in(accts: Seq<EscrowAccount>, ctx: CancelTask) -> Result<
    (Seq<EscrowAccount>, TaskCancelled, Seq<Transfer>),
    EscrowError,
> {
    if !has_address(accts, ctx.escrow@) {
        Err(EscrowError::AccountNotFound)
    } else {
        let i = index_of(accts, ctx.escrow@);
        match accts[i].cancel_spec(ctx.hirer) {
            Ok((n, ev, ts)) => Ok((accts.update(i, n), ev, ts)),
            Err(e) => Err(e),
        }
    }
}

/// Outcome of disputing the task at `ctx.escrow` at time `now`.
pub open spec fn dispute_in(accts: Seq<EscrowAccount>, ctx: DisputeTask, now: i64) -> Result<
    (Seq<EscrowAccount>, TaskDisputed),
    EscrowError,
> {
    if !has_address(accts, ctx.escrow@) {
        Err(EscrowError::AccountNotFound)
    } else {
        let i = index_of(accts, ctx.escrow@);
        match accts[i].dispute_spec(ctx.caller, now) {
            Ok((n, ev)) => Ok((accts.update(i, n), ev)),
            Err(e) => Err(e),
        }
    }
}

/// Outcome of releasing the disputed task at `ctx.escrow` at time `now`.
pub open spec fn resolve_in(accts: Seq<EscrowAccount>, ctx: ResolveDispute, now: i64) -> Result<
    (Seq<EscrowAccount>, TaskResolved, Seq<Transfer>),
    EscrowError,
> {
    if !has_address(accts, ctx.escrow@) {
        Err(EscrowError::AccountNotFound)
    } else {
        let i = index_of(accts, ctx.escrow@);
        match accts[i].resolve_spec(ctx.agent, ctx.fee_wallet, now) {
            Ok((n, ev, ts)) => Ok((accts.update(i, n), ev, ts)),
            Err(e) => Err(e),
        }
    }
}

impl EscrowBook {
    pub open spec fn wf(self) -> bool {
        accounts_wf(self@)
    }

    /// The program whose records the book keeps.
    pub closed spec fn program(self) -> Address {
        self.program_id
    }

    pub fn program_id(&self) -> (r: Address)
        ensures
            r == self.program(),
    {
        self.program_id
    }

    /// An empty book for the program `program_id`.
    pub fn new(program_id: Address) -> (r: EscrowBook)
        ensures
            r.wf(),
            r@ == Seq::<EscrowAccount>::empty(),
            r.program() == program_id,
    {
        let r = EscrowBook { program_id, accounts: Vec::new() };
        assert(r@ =~= Seq::<EscrowAccount>::empty());
        r
    }

    /// Number of records.
    pub fn len(&self) -> (r: usize)
        ensures
            r == self@.len(),
    {
        self.accounts.len()
    }

    /// Position of the account at `address`, if any.
    fn find(&self, address: &Address) -> (r: Option<usize>)
        requires
            self.wf(),
        ensures
            match r {
                Some(i) => i < self@.len() && index_of(self@, address@) == i && has_address(
                    self@,
                    address@,
                ),
                None => !has_address(self@, address@),
            },
    {
        let mut i: usize = 0;
        while i < self.accounts.len()
            invariant
                0 <= i <= self@.len(),
                self@ == self.accounts@,
                self.wf(),
                forall|j: int| 0 <= j < i ==> self@[j].address@ != address@,
            decreases self@.len() - i,
        {
            if self.accounts[i].address.same(address) {
                proof {
                    assert(self@[i as int].address@ == address@);
                    assert(has_address(self@, address@));
                    let k = index_of(self@, address@);
                    assert(0 <= k < self@.len() && self@[k].address@ == address@);
                    assert(accounts_wf(self@));
                    if k != i as int {
                        assert(self@[k].address@ != self@[i as int].address@);
                    }
                }
                return Some(i);
            }
            i = i + 1;
        }
        None
    }

    /// Replacing one well-formed account by another at the same address keeps
    /// the book well formed.
    proof fn lemma_update_keeps_wf(self, before: Seq<EscrowAccount>, i: int)
        requires
            accounts_wf(before),
            0 <= i < before.len(),
            self@ == before.update(i, self@[i]),
            self@[i].wf(),
            self@[i].address == before[i].address,
        ensures
            self.wf(),
    {
        assert forall|j: int, k: int|
            #![trigger self@[j], self@[k]]
            0 <= j < self@.len() && 0 <= k < self@.len() && j != k implies self@[j].address@
                != self@[k].address@ by {
            assert(before[j].address@ != before[k].address@);
        }
    }

    /// The account at `address`, if any.
    pub fn get(&self, address: &Address) -> (r: Option<&EscrowAccount>)
        requires
            self.wf(),
        ensures
            r is Some <==> has_address(self@, address@),
            r is Some ==> *r->0 == self@[index_of(self@, address@)],
    {
        match self.find(address) {
            Some(i) => Some(&self.accounts[i]),
            None => None,
        }
    }
}

/// The address and bump seed of the record for `task_id` under the program
/// `program_id`.
pub fn escrow_address(program_id: &Address, task_id: &str) -> (r: Option<(Address, u8)>)
    ensures
        derived_view(r) == program_address_of(ESCROW_SEED@, task_id@, program_id@),
{
    find_program_address(ESCROW_SEED, task_id, program_id)
}

/// Opens a record for `task_id` at the address `derived` for it, funded with
/// `amount` by the hirer.
pub fn open_escrow(
    book: &mut EscrowBook,
    ctx: &CreateTask,
    task_id: String,
    amount: u64,
    now: i64,
    derived: Option<(Address, u8)>,
) -> (r: Result<(TaskCreated, Vec<Transfer>), EscrowError>)
    requires
        old(book).wf(),
    ensures
        final(book).wf(),
        final(book).program() == old(book).program(),
        match r {
            Ok((ev, ts)) => create_in(old(book)@, *ctx, task_id, amount, now, derived_view(derived))
                == Ok::<_, EscrowError>((final(book)@, ev, ts@)),
            Err(e) => create_in(old(book)@, *ctx, task_id, amount, now, derived_view(derived)) is Err
                && create_in(old(book)@, *ctx, task_id, amount, now, derived_view(derived))->Err_0
                == e && final(book)@ == old(book)@,
        },
{
    if amount == 0 {
        return Err(EscrowError::ZeroAmount);
    }
    if task_id.as_str().as_bytes().len() > MAX_TASK_ID_LEN {
        return Err(EscrowError::TaskIdTooLong);
    }
    let (address, bump) = match derived {
        Some(d) => d,
        None => return Err(EscrowError::AddressUnavailable),
    };
    if !address.same(&ctx.escrow) {
        return Err(EscrowError::WrongEscrowAccount);
    }
    if book.find(&address).is_some() {
        return Err(EscrowError::AlreadyInUse);
    }
    let event = TaskCreated { task_id: task_id.clone(), hirer: ctx.hirer, agent: ctx.agent, amount };
    let account = EscrowAccount {
        address: ctx.escrow,
        escrow: Escrow {
            hirer: ctx.hirer,
            agent: ctx.agent,
            authority: ctx.authority,
            fee_wallet: ctx.fee_wallet,
            task_id,
            amount,
            platform_fee_bps: PLATFORM_FEE_BPS,
            status: TaskStatus::Created,
            created_at: now,
            disputed_at: 0,
            bump,
        },
        held: amount,
    };
    let ghost before = book@;
    book.accounts.push(account);
    proof {
        assert(book@ =~= before.push(account));
        assert forall|i: int, j: int|
            #![trigger book@[i], book@[j]]
            0 <= i < book@.len() && 0 <= j < book@.len() && i != j implies book@[i].address@
                != book@[j].address@ by {
            if i < before.len() && j < before.len() {
                assert(before[i] == book@[i] && before[j] == book@[j]);
            } else if i < before.len() {
                assert(before[i] == book@[i]);
                assert(before[i].address@ != address@);
            } else {
                assert(before[j] == book@[j]);
                assert(before[j].address@ != address@);
            }
        }
        assert(forall|i: int| 0 <= i < before.len() ==> before[i] == book@[i]);
    }
    let transfers = vec![Transfer { from: ctx.hirer, to: ctx.escrow, amount }];
    assert(transfers@ =~= seq![Transfer { from: ctx.hirer, to: ctx.escrow, amount }]);
    Ok((event, transfers))
}

/// Creates the escrow for `task_id`: the hirer deposits `amount` into a new
/// record at the address derived from the namespace and the task identifier.
pub fn create_task(book: &mut EscrowBook, ctx: &CreateTask, task_id: String, amount: u64, now: i64) -> (r:
    Result<(TaskCreated, Vec<Transfer>), EscrowError>)
    requires
        old(book).wf(),
    ensures
        final(book).wf(),
        final(book).program() == old(book).program(),
        match r {
            Ok((ev, ts)) => create_in(
                old(book)@,
                *ctx,
                task_id,
                amount,
                now,
                program_address_of(ESCROW_SEED@, task_id@, old(book).program()@),
            ) == Ok::<_, EscrowError>((final(book)@, ev, ts@)),
            Err(e) => create_in(
                old(book)@,
                *ctx,
                task_id,
                amount,
                now,
                program_address_of(ESCROW_SEED@, task_id@, old(book).program()@),
            ) is Err && create_in(
                old(book)@,
                *ctx,
                task_id,
                amount,
                now,
                program_address_of(ESCROW_SEED@, task_id@, old(book).program()@),
            )->Err_0 == e && final(book)@ == old(book)@,
        },
{
    let program_id = book.program_id();
    let derived = escrow_address(&program_id, task_id.as_str());
    open_escrow(book, ctx, task_id, amount, now, derived)
}

/// The authority marks the task complete; the agent is paid the amount less
/// the platform fee, which goes to the fee wallet.
pub fn complete_task(book: &mut EscrowBook, ctx: &CompleteTask) -> (r: Result<
    (TaskCompleted, Vec<Transfer>),
    EscrowError,
>)
    requires
        old(book).wf(),
    ensures
        final(book).wf(),
        final(book).program() == old(book).program(),
        match r {
            Ok((ev, ts)) => complete_in(old(book)@, *ctx) == Ok::<_, EscrowError>(
                (final(book)@, ev, ts@),
            ),
            Err(e) => complete_in(old(book)@, *ctx) is Err && complete_in(old(book)@, *ctx)->Err_0
                == e && final(book)@ == old(book)@,
        },
{
    let i = match book.find(&ctx.escrow) {
        Some(i) => i,
        None => return Err(EscrowError::AccountNotFound),
    };
    let ghost before = book@;
    let r = book.accounts[i].complete(&ctx.authority, &ctx.agent, &ctx.fee_wallet);
    proof { book.lemma_update_keeps_wf(before, i as int); }
    if r.is_err() {
        assert(book@ =~= before);
    }
    r
}

/// The hirer cancels the task and gets the full amount back.
pub fn cancel_task(book: &mut EscrowBook, ctx: &CancelTask) -> (r: Result<
    (TaskCancelled, Vec<Transfer>),
    EscrowError,
>)
    requires
        old(book).wf(),
    ensures
        final(book).wf(),
        final(book).program() == old(book).program(),
        match r {
            Ok((ev, ts)) => cancel_in(old(book)@, *ctx) == Ok::<_, EscrowError>(
                (final(book)@, ev, ts@),
            ),
            Err(e) => cancel_in(old(book)@, *ctx) is Err && cancel_in(old(book)@, *ctx)->Err_0 == e
                && final(book)@ == old(book)@,
        },
{
    let i = match book.find(&ctx.escrow) {
        Some(i) => i,
        None => return Err(EscrowError::AccountNotFound),
    };
    let ghost before = book@;
    let r = book.accounts[i].cancel(&ctx.hirer);
    proof { book.lemma_update_keeps_wf(before, i as int); }
    if r.is_err() {
        assert(book@ =~= before);
    }
    r
}

/// The hirer or the agent opens a dispute at time `now`.
pub fn dispute_task(book: &mut EscrowBook, ctx: &DisputeTask, now: i64) -> (r: Result<
    TaskDisputed,
    EscrowError,
>)
    requires
        old(book).wf(),
    ensures
        final(book).wf(),
        final(book).program() == old(book).program(),
        match r {
            Ok(ev) => dispute_in(old(book)@, *ctx, now) == Ok::<_, EscrowError>((final(book)@, ev)),
            Err(e) => dispute_in(old(book)@, *ctx, now) is Err && dispute_in(old(book)@, *ctx, now)->Err_0
                == e && final(book)@ == old(book)@,
        },
{
    let i = match book.find(&ctx.escrow) {
        Some(i) => i,
        None => return Err(EscrowError::AccountNotFound),
    };
    let ghost before = book@;
    let r = book.accounts[i].dispute(&ctx.caller, now);
    proof { book.lemma_update_keeps_wf(before, i as int); }
    if r.is_err() {
        assert(book@ =~= before);
    }
    r
}

/// Anyone releases a disputed task to the agent once the dispute timeout
/// has run out at time `now`.
pub fn resolve_dispute(book: &mut EscrowBook, ctx: &ResolveDispute, now: i64) -> (r: Result<
    (TaskResolved, Vec<Transfer>),
    EscrowError,
>)
    requires
        old(book).wf(),
    ensures
        final(book).wf(),
        final(book).program() == old(book).program(),
        match r {
            Ok((ev, ts)) => resolve_in(old(book)@, *ctx, now) == Ok::<_, EscrowError>(
                (final(book)@, ev, ts@),
            ),
            Err(e) => resolve_in(old(book)@, *ctx, now) is Err && resolve_in(old(book)@, *ctx, now)->Err_0
                == e && final(book)@ == old(book)@,
        },
{
    let i = match book.find(&ctx.escrow) {
        Some(i) => i,
        None => return Err(EscrowError::AccountNotFound),
    };
    let ghost before = book@;
    let r = book.accounts[i].resolve(&ctx.agent, &ctx.fee_wallet, now);
    proof { book.lemma_update_keeps_wf(before, i as int); }
    if r.is_err() {
        assert(book@ =~= before);
    }
    r
}

} // verus!
