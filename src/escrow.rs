use crate::address::Address;
use vstd::prelude::*;
use vstd::utf8::encode_utf8;

verus! {

/// Platform fee in basis points (1/10000): ten percent.
pub const PLATFORM_FEE_BPS: u64 = 1000;

/// Basis points in a whole.
pub const BPS_DENOMINATOR: u64 = 10000;

/// Time after a dispute opens before anyone may release the funds: 72 hours.
pub const DISPUTE_TIMEOUT_SECONDS: i64 = 72 * 3600;

/// Longest task identifier, in bytes.
pub const MAX_TASK_ID_LEN: usize = 64;

/// Lifecycle of an escrow record.
#[derive(Clone, Copy, Debug, PartialEq, Eq, Structural)]
pub enum TaskStatus {
    Created,
    Completed,
    Cancelled,
    Disputed,
    Resolved,
}

impl TaskStatus {
    /// No operation moves a record out of a terminal status.
    pub open spec fn is_terminal(self) -> bool {
        self is Completed || self is Cancelled || self is Resolved
    }
}

/// Why an operation was rejected.
#[derive(Clone, Copy, Debug, PartialEq, Eq, Structural)]
pub enum EscrowError {
    ZeroAmount,
    TaskIdTooLong,
    InvalidStatus,
    Unauthorized,
    WrongAgent,
    WrongFeeWallet,
    DisputeNotExpired,
    /// The fee split does not fit the amount.
    ArithmeticOverflow,
    /// No program address can be derived for the task identifier.
    AddressUnavailable,
    /// The escrow account given is not the one derived for the task identifier.
    WrongEscrowAccount,
    /// A record already lives at the derived address.
    AlreadyInUse,
    /// No record lives at the given address.
    AccountNotFound,
}

impl EscrowError {
    /// Human-readable description of the error.
    pub fn message(&self) -> &'static str {
        match self {
            EscrowError::ZeroAmount => "Amount must be greater than zero",
            EscrowError::TaskIdTooLong => "Task ID too long (max 64 chars)",
            EscrowError::InvalidStatus => "Invalid task status for this operation",
            EscrowError::Unauthorized => "Unauthorized",
            EscrowError::WrongAgent => "Wrong agent account",
            EscrowError::WrongFeeWallet => "Wrong fee wallet",
            EscrowError::DisputeNotExpired => "Dispute timeout has not expired yet",
            EscrowError::ArithmeticOverflow => "Arithmetic overflow in fee split",
            EscrowError::AddressUnavailable => "No program address derives from the given task ID",
            EscrowError::WrongEscrowAccount => "Escrow account does not match the task ID",
            EscrowError::AlreadyInUse => "An escrow already exists under the given task ID",
            EscrowError::AccountNotFound => "No escrow at this address",
        }
    }
}

/// The persistent record of one task.
#[derive(Clone, Debug)]
pub struct Escrow {
    pub hirer: Address,
    pub agent: Address,
    pub authority: Address,
    pub fee_wallet: Address,
    pub task_id: String,
    pub amount: u64,
    pub platform_fee_bps: u64,
    pub status: TaskStatus,
    pub created_at: i64,
    pub disputed_at: i64,
    /// Bump seed that, with the namespace and the task identifier, re-derives
    /// the record's address.
    pub bump: u8,
}

/// A movement of `amount` from one address to another.
#[derive(Clone, Copy, Debug, PartialEq, Eq)]
pub struct Transfer {
    pub from: Address,
    pub to: Address,
    pub amount: u64,
}

#[derive(Clone, Debug, PartialEq, Eq)]
pub struct TaskCreated {
    pub task_id: String,
    pub hirer: Address,
    pub agent: Address,
    pub amount: u64,
}

#[derive(Clone, Debug, PartialEq, Eq)]
pub struct TaskCompleted {
    pub task_id: String,
    pub agent_payout: u64,
    pub platform_fee: u64,
}

#[derive(Clone, Debug, PartialEq, Eq)]
pub struct TaskCancelled {
    pub task_id: String,
    pub refund: u64,
}

#[derive(Clone, Debug, PartialEq, Eq)]
pub struct TaskDisputed {
    pub task_id: String,
    pub disputed_by: Address,
}

#[derive(Clone, Debug, PartialEq, Eq)]
pub struct TaskResolved {
    pub task_id: String,
    pub agent_payout: u64,
    pub platform_fee: u64,
}

/// A record together with the address it lives at and the balance it holds.
#[derive(Clone, Debug)]
pub struct EscrowAccount {
    pub address: Address,
    pub escrow: Escrow,
    pub held: u64,
}

/// Length of a text in bytes.
pub open spec fn byte_len(s: Seq<char>) -> nat {
    encode_utf8(s).len()
}

/// `floor(amount * bps / 10000)`.
pub open spec fn fee_of(amount: u64, bps: u64) -> int {
    (amount as int * bps as int) / (BPS_DENOMINATOR as int)
}

/// The fee and the agent's payout for `amount`, or `None` where the fee
/// would exceed the amount.
pub open spec fn split_of(amount: u64, bps: u64) -> Option<(u64, u64)> {
    if fee_of(amount, bps) <= amount {
        Some((fee_of(amount, bps) as u64, (amount - fee_of(amount, bps)) as u64))
    } else {
        None
    }
}

/// Whether `now` is at or after the end of a dispute opened at `disputed_at`.
pub open spec fn dispute_expired(disputed_at: i64, now: i64) -> bool {
    now as int >= disputed_at as int + DISPUTE_TIMEOUT_SECONDS as int
}

impl EscrowAccount {
    /// The funds held match the status: the full amount while the task is
    /// open, nothing once it has ended.
    pub open spec fn wf(self) -> bool {
        &&& self.escrow.amount > 0
        &&& self.escrow.platform_fee_bps == PLATFORM_FEE_BPS
        &&& byte_len(self.escrow.task_id@) <= MAX_TASK_ID_LEN
        &&& if self.escrow.status.is_terminal() {
            self.held == 0
        } else {
            self.held == self.escrow.amount
        }
    }

    /// The account after it has paid out everything, now in `status`.
    pub open spec fn closed(self, status: TaskStatus) -> EscrowAccount {
        EscrowAccount { escrow: Escrow { status, ..self.escrow }, held: 0, ..self }
    }

    /// Outcome of the authority completing the task.
    pub open spec fn complete_spec(self, authority: Address, agent: Address, fee_wallet: Address)
        -> Result<(EscrowAccount, TaskCompleted, Seq<Transfer>), EscrowError> {
        let e = self.escrow;
        if !(e.status is Created || e.status is Disputed) {
            Err(EscrowError::InvalidStatus)
        } else if authority@ != e.authority@ {
            Err(EscrowError::Unauthorized)
        } else if agent@ != e.agent@ {
            Err(EscrowError::WrongAgent)
        } else if fee_wallet@ != e.fee_wallet@ {
            Err(EscrowError::WrongFeeWallet)
        } else {
            match split_of(e.amount, e.platform_fee_bps) {
                None => Err(EscrowError::ArithmeticOverflow),
                Some((fee, payout)) => Ok((
                    self.closed(TaskStatus::Completed),
                    TaskCompleted { task_id: e.task_id, agent_payout: payout, platform_fee: fee },
                    self.payout_transfers(fee, payout),
                )),
            }
        }
    }

    /// Payout to the agent, then the fee to the fee wallet.
    pub open spec fn payout_transfers(self, fee: u64, payout: u64) -> Seq<Transfer> {
        seq![
            Transfer { from: self.address, to: self.escrow.agent, amount: payout },
            Transfer { from: self.address, to: self.escrow.fee_wallet, amount: fee },
        ]
    }

    /// Outcome of the hirer cancelling the task.
    pub open spec fn cancel_spec(self, hirer: Address)
        -> Result<(EscrowAccount, TaskCancelled, Seq<Transfer>), EscrowError> {
        let e = self.escrow;
        if !(e.status is Created) {
            Err(EscrowError::InvalidStatus)
        } else if hirer@ != e.hirer@ {
            Err(EscrowError::Unauthorized)
        } else {
            Ok((
                self.closed(TaskStatus::Cancelled),
                TaskCancelled { task_id: e.task_id, refund: e.amount },
                seq![Transfer { from: self.address, to: e.hirer, amount: e.amount }],
            ))
        }
    }

    /// Outcome of `caller` opening a dispute at time `now`.
    pub open spec fn dispute_spec(self, caller: Address, now: i64)
        -> Result<(EscrowAccount, TaskDisputed), EscrowError> {
        let e = self.escrow;
        if !(e.status is Created) {
            Err(EscrowError::InvalidStatus)
        } else if caller@ != e.hirer@ && caller@ != e.agent@ {
            Err(EscrowError::Unauthorized)
        } else {
            Ok((
                EscrowAccount {
                    escrow: Escrow { status: TaskStatus::Disputed, disputed_at: now, ..e },
                    ..self
                },
                TaskDisputed { task_id: e.task_id, disputed_by: caller },
            ))
        }
    }

    /// Outcome of anyone releasing a disputed task at time `now`.
    pub open spec fn resolve_spec(self, agent: Address, fee_wallet: Address, now: i64)
        -> Result<(EscrowAccount, TaskResolved, Seq<Transfer>), EscrowError> {
        let e = self.escrow;
        if !(e.status is Disputed) {
            Err(EscrowError::InvalidStatus)
        } else if agent@ != e.agent@ {
            Err(EscrowError::WrongAgent)
        } else if fee_wallet@ != e.fee_wallet@ {
            Err(EscrowError::WrongFeeWallet)
        } else if !dispute_expired(e.disputed_at, now) {
            Err(EscrowError::DisputeNotExpired)
        } else {
            match split_of(e.amount, e.platform_fee_bps) {
                None => Err(EscrowError::ArithmeticOverflow),
                Some((fee, payout)) => Ok((
                    self.closed(TaskStatus::Resolved),
                    TaskResolved { task_id: e.task_id, agent_payout: payout, platform_fee: fee },
                    self.payout_transfers(fee, payout),
                )),
            }
        }
    }
}

impl EscrowAccount {
    /// Whether the account satisfies `wf`, which every operation on it asks for.
    pub fn is_well_formed(&self) -> (r: bool)
        ensures
            r == self.wf(),
    {
        let e = &self.escrow;
        let held_matches = if e.status == TaskStatus::Completed || e.status == TaskStatus::Cancelled
            || e.status == TaskStatus::Resolved {
            self.held == 0
        } else {
            self.held == e.amount
        };
        e.amount > 0 && e.platform_fee_bps == PLATFORM_FEE_BPS && e.task_id.as_str().as_bytes().len()
            <= MAX_TASK_ID_LEN && held_matches
    }

    /// The authority marks the task done: the agent is paid the amount less
    /// the fee, and the fee wallet the fee.
    pub fn complete(&mut self, authority: &Address, agent: &Address, fee_wallet: &Address) -> (r:
        Result<(TaskCompleted, Vec<Transfer>), EscrowError>)
        requires
            old(self).wf(),
        ensures
            final(self).wf(),
            match r {
                Ok((ev, ts)) => old(self).complete_spec(*authority, *agent, *fee_wallet) == Ok::<_, EscrowError>(
                    (*final(self), ev, ts@),
                ),
                Err(e) => old(self).complete_spec(*authority, *agent, *fee_wallet) is Err && old(self).complete_spec(*authority, *agent, *fee_wallet)->Err_0 == e
                    && *final(self) == *old(self),
            },
    {
        let status = self.escrow.status;
        if !(status == TaskStatus::Created || status == TaskStatus::Disputed) {
            return Err(EscrowError::InvalidStatus);
        }
        if !authority.same(&self.escrow.authority) {
            return Err(EscrowError::Unauthorized);
        }
        if !agent.same(&self.escrow.agent) {
            return Err(EscrowError::WrongAgent);
        }
        if !fee_wallet.same(&self.escrow.fee_wallet) {
            return Err(EscrowError::WrongFeeWallet);
        }
        let (fee, payout) = match fee_split(self.escrow.amount, self.escrow.platform_fee_bps) {
            Some(split) => split,
            None => return Err(EscrowError::ArithmeticOverflow),
        };
        self.held = self.held - payout - fee;
        self.escrow.status = TaskStatus::Completed;
        let transfers = vec![
            Transfer { from: self.address, to: self.escrow.agent, amount: payout },
            Transfer { from: self.address, to: self.escrow.fee_wallet, amount: fee },
        ];
        assert(transfers@ =~= self.payout_transfers(fee, payout));
        let event = TaskCompleted {
            task_id: self.escrow.task_id.clone(),
            agent_payout: payout,
            platform_fee: fee,
        };
        Ok((event, transfers))
    }

    /// The hirer withdraws the task and gets the full amount back.
    pub fn cancel(&mut self, hirer: &Address) -> (r: Result<(TaskCancelled, Vec<Transfer>), EscrowError>)
        requires
            old(self).wf(),
        ensures
            final(self).wf(),
            match r {
                Ok((ev, ts)) => old(self).cancel_spec(*hirer) == Ok::<_, EscrowError>((*final(self), ev, ts@)),
                Err(e) => old(self).cancel_spec(*hirer) is Err && old(self).cancel_spec(*hirer)->Err_0 == e && *final(self) == *old(self),
            },
    {
        if self.escrow.status != TaskStatus::Created {
            return Err(EscrowError::InvalidStatus);
        }
        if !hirer.same(&self.escrow.hirer) {
            return Err(EscrowError::Unauthorized);
        }
        let refund = self.escrow.amount;
        self.held = self.held - refund;
        self.escrow.status = TaskStatus::Cancelled;
        let transfers = vec![Transfer { from: self.address, to: self.escrow.hirer, amount: refund }];
        assert(transfers@ =~= seq![
            Transfer { from: self.address, to: self.escrow.hirer, amount: refund },
        ]);
        Ok((TaskCancelled { task_id: self.escrow.task_id.clone(), refund }, transfers))
    }

    /// The hirer or the agent opens a dispute at time `now`.
    pub fn dispute(&mut self, caller: &Address, now: i64) -> (r: Result<TaskDisputed, EscrowError>)
        requires
            old(self).wf(),
        ensures
            final(self).wf(),
            match r {
                Ok(ev) => old(self).dispute_spec(*caller, now) == Ok::<_, EscrowError>((*final(self), ev)),
                Err(e) => old(self).dispute_spec(*caller, now) is Err && old(self).dispute_spec(*caller, now)->Err_0 == e && *final(self) == *old(self),
            },
    {
        if self.escrow.status != TaskStatus::Created {
            return Err(EscrowError::InvalidStatus);
        }
        if !caller.same(&self.escrow.hirer) && !caller.same(&self.escrow.agent) {
            return Err(EscrowError::Unauthorized);
        }
        self.escrow.status = TaskStatus::Disputed;
        self.escrow.disputed_at = now;
        Ok(TaskDisputed { task_id: self.escrow.task_id.clone(), disputed_by: *caller })
    }

    /// Anyone releases a disputed task to the agent once the timeout has run
    /// out, with the same split as completion.
    pub fn resolve(&mut self, agent: &Address, fee_wallet: &Address, now: i64) -> (r: Result<
        (TaskResolved, Vec<Transfer>),
        EscrowError,
    >)
        requires
            old(self).wf(),
        ensures
            final(self).wf(),
            match r {
                Ok((ev, ts)) => old(self).resolve_spec(*agent, *fee_wallet, now) == Ok::<_, EscrowError>(
                    (*final(self), ev, ts@),
                ),
                Err(e) => old(self).resolve_spec(*agent, *fee_wallet, now) is Err && old(self).resolve_spec(*agent, *fee_wallet, now)->Err_0 == e && *final(self)
                    == *old(self),
            },
    {
        if self.escrow.status != TaskStatus::Disputed {
            return Err(EscrowError::InvalidStatus);
        }
        if !agent.same(&self.escrow.agent) {
            return Err(EscrowError::WrongAgent);
        }
        if !fee_wallet.same(&self.escrow.fee_wallet) {
            return Err(EscrowError::WrongFeeWallet);
        }
        if !dispute_has_expired(self.escrow.disputed_at, now) {
            return Err(EscrowError::DisputeNotExpired);
        }
        let (fee, payout) = match fee_split(self.escrow.amount, self.escrow.platform_fee_bps) {
            Some(split) => split,
            None => return Err(EscrowError::ArithmeticOverflow),
        };
        self.held = self.held - payout - fee;
        self.escrow.status = TaskStatus::Resolved;
        let transfers = vec![
            Transfer { from: self.address, to: self.escrow.agent, amount: payout },
            Transfer { from: self.address, to: self.escrow.fee_wallet, amount: fee },
        ];
        assert(transfers@ =~= self.payout_transfers(fee, payout));
        let event = TaskResolved {
            task_id: self.escrow.task_id.clone(),
            agent_payout: payout,
            platform_fee: fee,
        };
        Ok((event, transfers))
    }
}

/// Splits `amount` into the platform fee and the agent's payout, or `None`
/// where the fee would exceed the amount.
pub fn fee_split(amount: u64, bps: u64) -> (r: Option<(u64, u64)>)
    ensures
        r == split_of(amount, bps),
{
    assert(amount as int * bps as int <= u64::MAX as int * u64::MAX as int) by (nonlinear_arith);
    let product = match (amount as u128).checked_mul(bps as u128) {
        Some(p) => p,
        None => return None,
    };
    let fee = product / (BPS_DENOMINATOR as u128);
    if fee > amount as u128 {
        return None;
    }
    let fee = fee as u64;
    Some((fee, amount - fee))
}

/// Whether the dispute timeout has run out at `now`.
pub fn dispute_has_expired(disputed_at: i64, now: i64) -> (r: bool)
    ensures
        r == dispute_expired(disputed_at, now),
{
    disputed_at <= i64::MAX - DISPUTE_TIMEOUT_SECONDS && now >= disputed_at + DISPUTE_TIMEOUT_SECONDS
}

} // verus!
