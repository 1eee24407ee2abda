//! The treasuries: the known balance of a treasury is what the engine has
//! added to it, and what the ledger holds in it is that, less what the
//! engine has paid out of it.
//!
//! The engine adds to the platform treasury and pays nothing out of it, so
//! its known balance is what the ledger holds. Out of an organization's
//! treasury it pays the rewards and the interest without taking them off
//! the known balance: the ledger holds less than is known by what was paid
//! out.

use crate::instructions::{ClaimRewards, CreateDao, InitializeDaoverse, UpdateDao, UpdateDaoverse};
use crate::limits::DAO_CREATION_FEE;
use crate::state::{
    DaoConfig, DaoverseConfig, GovernanceModel, RewardModel, VotingModel, VotingThreshold,
};
use crate::token::TokenAccount;
use vstd::prelude::*;

verus! {

/// The platform with its treasury as the ledger holds it.
pub struct PlatformBook {
    pub daoverse: DaoverseConfig,
    pub treasury: TokenAccount,
}

impl PlatformBook {
    /// The known balance of the treasury is what the ledger holds in it.
    pub open spec fn agrees(self) -> bool {
        self.daoverse.daoverse_treasury_balance == self.treasury.amount
    }
}

/// An accepted operation on the platform's record, with what it was given.
pub enum PlatformStep {
    /// The admin deposits.
    Deposit { setup: InitializeDaoverse, amount: u64 },
    /// The creator of an organization pays the fee.
    Fee { creation: CreateDao },
    /// The admin updates the record.
    Update {
        update: UpdateDaoverse,
        dao_creation_fee: Option<u64>,
        admin_name: Option<String>,
        daoverse_description: Option<String>,
    },
}

/// What the step adds to the treasury.
pub open spec fn platform_credit(step: PlatformStep) -> nat {
    match step {
        PlatformStep::Deposit { amount, .. } => amount as nat,
        PlatformStep::Fee { .. } => DAO_CREATION_FEE as nat,
        PlatformStep::Update { .. } => 0,
    }
}

/// What the steps add to the treasury, all together.
pub open spec fn platform_credits(steps: Seq<PlatformStep>) -> nat
    decreases steps.len(),
{
    if steps.len() == 0 {
        0
    } else {
        platform_credits(steps.drop_last()) + platform_credit(steps.last())
    }
}

/// The step leads from one book of the platform to the next: the operation
/// was given the record and the treasury as the book has them, it was
/// accepted, and the next book has what it left.
pub open spec fn platform_step(
    before: PlatformBook,
    step: PlatformStep,
    after: PlatformBook,
) -> bool {
    match step {
        PlatformStep::Deposit { setup: ctx, amount } => {
            &&& ctx.daoverse == Some(before.daoverse)
            &&& ctx.daoverse_treasury == before.treasury
            &&& ctx.deposit_rejection(amount) is None
            &&& after == (PlatformBook {
                daoverse: ctx.after_deposit(amount).daoverse->0,
                treasury: ctx.after_deposit(amount).daoverse_treasury,
            })
        },
        PlatformStep::Fee { creation: ctx } => {
            &&& ctx.daoverse == before.daoverse
            &&& ctx.daoverse_treasury == before.treasury
            &&& ctx.fee_rejection() is None
            &&& after == (PlatformBook {
                daoverse: ctx.after_fee().daoverse,
                treasury: ctx.after_fee().daoverse_treasury,
            })
        },
        PlatformStep::Update {
            update: ctx,
            dao_creation_fee,
            admin_name,
            daoverse_description,
        } => {
            &&& ctx.daoverse == before.daoverse
            &&& ctx.daoverse_treasury == before.treasury
            &&& ctx.update_rejection(admin_name, daoverse_description) is None
            &&& after == (PlatformBook {
                daoverse: ctx.after_update(
                    dao_creation_fee,
                    admin_name,
                    daoverse_description,
                ).daoverse,
                treasury: ctx.after_update(
                    dao_creation_fee,
                    admin_name,
                    daoverse_description,
                ).daoverse_treasury,
            })
        },
    }
}

/// The books of the platform in the course of the steps: each step leads
/// from one book to the next.
pub open spec fn platform_history(books: Seq<PlatformBook>, steps: Seq<PlatformStep>) -> bool {
    &&& books.len() == steps.len() + 1
    &&& forall|i: int|
        0 <= i < steps.len() ==> platform_step(books[i], #[trigger] steps[i], books[i + 1])
}

/// A step adds its credit to what the ledger holds in the treasury; and
/// where the known balance was what the ledger held, it adds its credit to
/// the known balance too, which is again what the ledger holds. An update
/// makes the known balance what the ledger holds in any case. A record
/// that was well formed stays so.
pub proof fn lemma_platform_step_agrees(
    before: PlatformBook,
    step: PlatformStep,
    after: PlatformBook,
)
    requires
        platform_step(before, step, after),
    ensures
        after.treasury.amount == before.treasury.amount + platform_credit(step),
        before.agrees() ==> after.agrees() && after.daoverse.daoverse_treasury_balance
            == before.daoverse.daoverse_treasury_balance + platform_credit(step),
        step is Update ==> after.agrees(),
        before.daoverse.well_formed() ==> after.daoverse.well_formed(),
{
}

/// After any number of steps from a well-formed platform whose known
/// treasury balance is what the ledger holds, the record is well formed,
/// the known balance is what it was at first and what the steps have
/// added, and it is what the ledger holds.
pub proof fn lemma_platform_history_agrees(
    books: Seq<PlatformBook>,
    steps: Seq<PlatformStep>,
    n: int,
)
    requires
        platform_history(books, steps),
        books[0].agrees(),
        books[0].daoverse.well_formed(),
        0 <= n < books.len(),
    ensures
        books[n].agrees(),
        books[n].daoverse.well_formed(),
        books[n].daoverse.daoverse_treasury_balance == books[0].daoverse.daoverse_treasury_balance
            + platform_credits(steps.take(n)),
    decreases n,
{
    if n > 0 {
        lemma_platform_history_agrees(books, steps, n - 1);
        lemma_platform_step_agrees(books[n - 1], steps[n - 1], books[n]);
        assert(steps.take(n).drop_last() =~= steps.take(n - 1));
    }
}

/// An organization with its treasury as the ledger holds it, and what the
/// engine has paid out of the treasury so far.
pub struct DaoBook {
    pub dao: DaoConfig,
    pub treasury: TokenAccount,
    pub paid_out: nat,
}

impl DaoBook {
    /// What the ledger holds in the treasury is the known balance, less
    /// what was paid out.
    pub open spec fn accounted(self) -> bool {
        self.dao.dao_treasury_balance == self.treasury.amount + self.paid_out
    }

    /// The known balance of the treasury is what the ledger holds in it.
    pub open spec fn agrees(self) -> bool {
        self.dao.dao_treasury_balance == self.treasury.amount
    }
}

/// An accepted operation on an organization or its treasury, with what it
/// was given.
pub enum DaoStep {
    /// The creator deposits.
    Deposit { creation: CreateDao, amount: u64 },
    /// The creator updates the organization.
    Update {
        update: UpdateDao,
        dao_name: Option<String>,
        dao_description: Option<String>,
        governance_model: Option<GovernanceModel>,
        voting_model: Option<VotingModel>,
        reward_model: Option<RewardModel>,
        voting_threshold: Option<VotingThreshold>,
    },
    /// A proposal of the organization is finalized.
    Finalize { settling: ClaimRewards },
    /// A vote on a proposal of the organization is settled.
    Settle { settling: ClaimRewards },
}

/// What the step adds to the treasury.
pub open spec fn dao_credit(step: DaoStep) -> nat {
    match step {
        DaoStep::Deposit { amount, .. } => amount as nat,
        _ => 0,
    }
}

/// What the step pays out of the treasury: the reward that finalizing
/// deposits in the pool, the interest on a vote that is settled.
pub open spec fn dao_payment(step: DaoStep) -> nat {
    match step {
        DaoStep::Finalize { settling } => settling.pool_reward() as nat,
        DaoStep::Settle { settling } => settling.interest() as nat,
        _ => 0,
    }
}

/// What the steps add to the treasury, all together.
pub open spec fn dao_credits(steps: Seq<DaoStep>) -> nat
    decreases steps.len(),
{
    if steps.len() == 0 {
        0
    } else {
        dao_credits(steps.drop_last()) + dao_credit(steps.last())
    }
}

/// What the steps pay out of the treasury, all together.
pub open spec fn dao_payments(steps: Seq<DaoStep>) -> nat
    decreases steps.len(),
{
    if steps.len() == 0 {
        0
    } else {
        dao_payments(steps.drop_last()) + dao_payment(steps.last())
    }
}

/// The step leads from one book of the organization to the next: the
/// operation was given the organization and the treasury as the book has
/// them, it was accepted, and the next book has what it left.
pub open spec fn dao_step(before: DaoBook, step: DaoStep, after: DaoBook) -> bool {
    match step {
        DaoStep::Deposit { creation: ctx, amount } => {
            &&& ctx.dao == Some(before.dao)
            &&& ctx.dao_treasury == before.treasury
            &&& ctx.deposit_rejection(amount) is None
            &&& after == (DaoBook {
                dao: ctx.after_deposit(amount).dao->0,
                treasury: ctx.after_deposit(amount).dao_treasury,
                paid_out: before.paid_out,
            })
        },
        DaoStep::Update {
            update: ctx,
            dao_name,
            dao_description,
            governance_model,
            voting_model,
            reward_model,
            voting_threshold,
        } => {
            &&& ctx.dao == before.dao
            &&& ctx.update_rejection(dao_name, dao_description, voting_threshold) is None
            &&& after == (DaoBook {
                dao: ctx.after_update(
                    dao_name,
                    dao_description,
                    governance_model,
                    voting_model,
                    reward_model,
                    voting_threshold,
                ).dao,
                treasury: before.treasury,
                paid_out: before.paid_out,
            })
        },
        DaoStep::Finalize { settling: ctx } => {
            &&& ctx.dao == before.dao
            &&& ctx.dao_treasury == before.treasury
            &&& ctx.finalize_rejection() is None
            &&& after == (DaoBook {
                dao: ctx.after_finalize().dao,
                treasury: ctx.after_finalize().dao_treasury,
                paid_out: before.paid_out + ctx.pool_reward() as nat,
            })
        },
        DaoStep::Settle { settling: ctx } => {
            &&& ctx.dao == before.dao
            &&& ctx.dao_treasury == before.treasury
            &&& ctx.proposal.finalized()
            &&& ctx.claim_rejection() is None
            &&& after == (DaoBook {
                dao: ctx.after_claim().dao,
                treasury: ctx.after_claim().dao_treasury,
                paid_out: before.paid_out + ctx.interest() as nat,
            })
        },
    }
}

/// The books of an organization in the course of the steps: each step
/// leads from one book to the next.
pub open spec fn dao_history(books: Seq<DaoBook>, steps: Seq<DaoStep>) -> bool {
    &&& books.len() == steps.len() + 1
    &&& forall|i: int|
        0 <= i < steps.len() ==> dao_step(books[i], #[trigger] steps[i], books[i + 1])
}

/// A step adds its credit to the known balance, and to what the ledger
/// holds its credit less its payment. So it keeps the treasury accounted
/// for; and where it pays nothing out, it keeps the known balance what the
/// ledger holds. An organization that was well formed stays so.
pub proof fn lemma_dao_step_accounted(before: DaoBook, step: DaoStep, after: DaoBook)
    requires
        dao_step(before, step, after),
    ensures
        after.dao.dao_treasury_balance == before.dao.dao_treasury_balance + dao_credit(step),
        after.treasury.amount + dao_payment(step) == before.treasury.amount + dao_credit(step),
        after.paid_out == before.paid_out + dao_payment(step),
        before.accounted() ==> after.accounted(),
        before.agrees() && dao_payment(step) == 0 ==> after.agrees(),
        before.dao.well_formed() ==> after.dao.well_formed(),
{
}

/// After any number of steps from a well-formed organization whose
/// treasury is accounted for, the organization is well formed, the known
/// balance is what it was at first and what the steps have added, and the
/// treasury is accounted for: the ledger holds the known balance less what
/// the steps have paid out. Where they have paid out nothing, the known
/// balance is what the ledger holds.
pub proof fn lemma_dao_history_accounted(books: Seq<DaoBook>, steps: Seq<DaoStep>, n: int)
    requires
        dao_history(books, steps),
        books[0].accounted(),
        books[0].dao.well_formed(),
        0 <= n < books.len(),
    ensures
        books[n].accounted(),
        books[n].dao.well_formed(),
        books[n].dao.dao_treasury_balance == books[0].dao.dao_treasury_balance + dao_credits(
            steps.take(n),
        ),
        books[n].paid_out == books[0].paid_out + dao_payments(steps.take(n)),
        books[0].agrees() && dao_payments(steps.take(n)) == 0 ==> books[n].agrees(),
    decreases n,
{
    if n > 0 {
        lemma_dao_history_accounted(books, steps, n - 1);
        lemma_dao_step_accounted(books[n - 1], steps[n - 1], books[n]);
        assert(steps.take(n).drop_last() =~= steps.take(n - 1));
    }
}

/// A new organization's treasury is known to hold the first deposit and
/// nothing else; where the ledger held nothing in it before, that is what
/// the ledger holds.
pub proof fn lemma_new_dao_accounted(
    ctx: CreateDao,
    bumps: crate::instructions::CreateDaoBumps,
    dao_seed: u64,
    amount: u64,
    dao_name: String,
    dao_description: String,
    governance_model: GovernanceModel,
    voting_model: VotingModel,
    reward_model: RewardModel,
    voting_threshold: VotingThreshold,
)
    requires
        crate::processor::initialize_dao_rejection(
            ctx,
            amount,
            dao_name,
            dao_description,
            voting_threshold,
        ) is None,
        ctx.dao_treasury.amount == 0,
    ensures
        ({
            let after = crate::processor::after_initialize_dao(
                ctx,
                bumps,
                dao_seed,
                amount,
                dao_name,
                dao_description,
                governance_model,
                voting_model,
                reward_model,
                voting_threshold,
            );
            &&& after.dao->0.dao_treasury_balance == amount
            &&& (DaoBook { dao: after.dao->0, treasury: after.dao_treasury, paid_out: 0 }).agrees()
        }),
{
}

/// A new platform's treasury is known to hold the first deposit and nothing
/// else; where the ledger held nothing in it before, that is what the
/// ledger holds.
pub proof fn lemma_new_platform_agrees(
    ctx: InitializeDaoverse,
    bumps: crate::instructions::InitializeDaoverseBumps,
    dao_creation_fee: u64,
    admin_name: String,
    daoverse_description: String,
    amount: u64,
)
    requires
        crate::processor::initialize_daoverse_rejection(
            ctx,
            admin_name,
            daoverse_description,
            amount,
        ) is None,
        ctx.daoverse_treasury.amount == 0,
    ensures
        ({
            let after = ctx.after_initialize(
                bumps,
                dao_creation_fee,
                admin_name,
                daoverse_description,
            ).after_deposit(amount);
            &&& after.daoverse->0.daoverse_treasury_balance == amount
            &&& (PlatformBook {
                daoverse: after.daoverse->0,
                treasury: after.daoverse_treasury,
            }).agrees()
        }),
{
}

} // verus!
