//! What the engine knows of the token ledger: the sub-accounts an operation
//! touches, as they were read, and the instructions it hands to the ledger.
//!
//! The engine moves no tokens itself. An operation checks a transfer against
//! the balances it was given, books it on them, and returns the instruction.
//! Whoever runs the operation performs the instructions in order. The
//! engine turns down a transfer for want of funds, for another asset or for
//! a balance that would overflow, as the ledger does; the ledger may have
//! reasons of its own, such as a signature that is missing. If it refuses an
//! instruction, the whole operation is to be discarded.

use crate::errors::TokenError;
use crate::pubkey::Pubkey;
use vstd::prelude::*;

verus! {

/// A sub-account of the ledger: `amount` tokens of the asset type `mint`,
/// held for `owner` at the address `key`.
#[derive(Clone, Copy, Debug, PartialEq, Eq, Hash)]
pub struct TokenAccount {
    pub key: Pubkey,
    pub mint: Pubkey,
    pub owner: Pubkey,
    pub amount: u64,
}

/// An instruction to the ledger.
#[derive(Clone, Copy, Debug, PartialEq, Eq, Hash)]
pub enum TokenInstruction {
    /// Move `amount` tokens of `mint` from the sub-account `from` to the
    /// sub-account `to`, on the word of `authority`.
    TransferChecked { from: Pubkey, mint: Pubkey, to: Pubkey, authority: Pubkey, amount: u64 },
    /// Close the empty sub-account `account`, on the word of `authority`;
    /// what is left of its rent goes to `destination`.
    CloseAccount { account: Pubkey, destination: Pubkey, authority: Pubkey },
}

/// Why the ledger refuses to move `amount` tokens of `mint` from `from` to
/// `to`, if it does: the source holds too little, or one of the two holds
/// another asset, or the destination would overflow.
pub open spec fn transfer_refusal(
    from: TokenAccount,
    to: TokenAccount,
    mint: Pubkey,
    amount: u64,
) -> Option<TokenError> {
    if from.amount < amount {
        Some(TokenError::InsufficientFunds)
    } else if from.mint != to.mint || from.mint != mint {
        Some(TokenError::MintMismatch)
    } else if to.amount + amount > u64::MAX {
        Some(TokenError::Overflow)
    } else {
        None
    }
}

/// The sub-account after `amount` tokens have left it.
pub open spec fn debited(account: TokenAccount, amount: u64) -> TokenAccount
    recommends
        amount <= account.amount,
{
    TokenAccount { amount: (account.amount - amount) as u64, ..account }
}

/// The sub-account after `amount` tokens have reached it.
pub open spec fn credited(account: TokenAccount, amount: u64) -> TokenAccount
    recommends
        account.amount + amount <= u64::MAX,
{
    TokenAccount { amount: (account.amount + amount) as u64, ..account }
}

/// The instruction that moves `amount` tokens of `mint` from `from` to `to`.
pub open spec fn transfer_instruction(
    from: TokenAccount,
    to: TokenAccount,
    mint: Pubkey,
    authority: Pubkey,
    amount: u64,
) -> TokenInstruction {
    TokenInstruction::TransferChecked { from: from.key, mint, to: to.key, authority, amount }
}

/// Books a transfer of `amount` tokens of `mint` from `from` to `to` and
/// returns the instruction for it, or says why the ledger would refuse it
/// and leaves both sub-accounts as they were.
pub fn transfer(
    from: &mut TokenAccount,
    to: &mut TokenAccount,
    mint: &Pubkey,
    authority: &Pubkey,
    amount: u64,
) -> (res: Result<TokenInstruction, TokenError>)
    ensures
        match transfer_refusal(*old(from), *old(to), *mint, amount) {
            Some(e) => res == Err::<TokenInstruction, TokenError>(e) && *final(from) == *old(from)
                && *final(to) == *old(to),
            None => res == Ok::<TokenInstruction, TokenError>(
                transfer_instruction(*old(from), *old(to), *mint, *authority, amount),
            ) && *final(from) == debited(*old(from), amount) && *final(to) == credited(
                *old(to),
                amount,
            ),
        },
{
    if from.amount < amount {
        return Err(TokenError::InsufficientFunds);
    }
    if from.mint != to.mint || from.mint != *mint {
        return Err(TokenError::MintMismatch);
    }
    match to.amount.checked_add(amount) {
        None => Err(TokenError::Overflow),
        Some(sum) => {
            from.amount = from.amount - amount;
            to.amount = sum;
            Ok(
                TokenInstruction::TransferChecked {
                    from: from.key,
                    mint: *mint,
                    to: to.key,
                    authority: *authority,
                    amount,
                },
            )
        },
    }
}

/// What the ledger holds after it has performed an instruction, where
/// `balances` is what it held before: the balance of each sub-account, by
/// its address. A transfer takes the amount from one balance and adds it
/// to the other; closing a sub-account removes its balance.
pub open spec fn performed(balances: Map<Pubkey, nat>, instruction: TokenInstruction) -> Map<
    Pubkey,
    nat,
> {
    match instruction {
        TokenInstruction::TransferChecked { from, to, amount, .. } => {
            let debit = balances.insert(from, (balances[from] - amount) as nat);
            debit.insert(to, debit[to] + amount as nat)
        },
        TokenInstruction::CloseAccount { account, .. } => balances.remove(account),
    }
}

/// What the ledger holds after it has performed the instructions in order.
pub open spec fn performed_all(
    balances: Map<Pubkey, nat>,
    instructions: Seq<TokenInstruction>,
) -> Map<Pubkey, nat>
    decreases instructions.len(),
{
    if instructions.len() == 0 {
        balances
    } else {
        performed(performed_all(balances, instructions.drop_last()), instructions.last())
    }
}

/// The ledger holds the sub-account with the balance that is booked on it.
pub open spec fn held(balances: Map<Pubkey, nat>, account: TokenAccount) -> bool {
    balances.contains_key(account.key) && balances[account.key] == account.amount
}

/// A transfer that was booked on two different sub-accounts is what the
/// ledger does when it performs the instruction: it then holds both as
/// they are booked, and every other sub-account as before.
pub proof fn lemma_transfer_performed(
    balances: Map<Pubkey, nat>,
    from: TokenAccount,
    to: TokenAccount,
    mint: Pubkey,
    authority: Pubkey,
    amount: u64,
)
    requires
        transfer_refusal(from, to, mint, amount) is None,
        from.key != to.key,
        held(balances, from),
        held(balances, to),
    ensures
        ({
            let after = performed(
                balances,
                transfer_instruction(from, to, mint, authority, amount),
            );
            &&& held(after, debited(from, amount))
            &&& held(after, credited(to, amount))
            &&& after.dom() == balances.dom()
            &&& forall|other: Pubkey|
                other != from.key && other != to.key ==> after[other] == balances[other]
        }),
{
}

/// Performing one instruction, and performing two in order.
pub proof fn lemma_performed_all(
    balances: Map<Pubkey, nat>,
    first: TokenInstruction,
    second: TokenInstruction,
)
    ensures
        performed_all(balances, seq![first]) == performed(balances, first),
        performed_all(balances, seq![first, second]) == performed(
            performed(balances, first),
            second,
        ),
{
    reveal_with_fuel(performed_all, 3);
}

/// Performing instructions in order, and then one more.
pub proof fn lemma_performed_all_push(
    balances: Map<Pubkey, nat>,
    instructions: Seq<TokenInstruction>,
    last: TokenInstruction,
)
    ensures
        performed_all(balances, instructions.push(last)) == performed(
            performed_all(balances, instructions),
            last,
        ),
{
    assert(instructions.push(last).drop_last() =~= instructions);
}

/// Performing instructions in order, after one that was performed first.
pub proof fn lemma_performed_all_after(
    balances: Map<Pubkey, nat>,
    first: TokenInstruction,
    rest: Seq<TokenInstruction>,
)
    ensures
        performed_all(balances, seq![first] + rest) == performed_all(
            performed(balances, first),
            rest,
        ),
    decreases rest.len(),
{
    if rest.len() == 0 {
        reveal_with_fuel(performed_all, 3);
    } else {
        lemma_performed_all_after(balances, first, rest.drop_last());
        assert((seq![first] + rest).drop_last() =~= seq![first] + rest.drop_last());
    }
}

} // verus!
