use vstd::prelude::*;
use vstd::string::StrSliceExecFns;

verus! {

/// The most characters a name or a title may have.
pub const MAX_NAME_LEN: usize = 32;

/// The most characters a description may have.
pub const MAX_DESCRIPTION_LEN: usize = 200;

/// What the creator of an organization pays into the platform treasury.
pub const DAO_CREATION_FEE: u64 = 500;

/// The platform tokens someone must hold to create an organization.
pub const MIN_CREATOR_BALANCE: u64 = 1000;

/// The organization tokens someone must hold to join it.
pub const MIN_MEMBER_BALANCE: u64 = 100;

/// The organization tokens someone must hold to make a proposal.
pub const MIN_PROPOSER_BALANCE: u64 = 200;

/// The organization tokens someone must hold to vote, whatever the stake.
pub const MIN_VOTER_BALANCE: u64 = 150;

/// The share of a staked amount, in percent, that is paid on top of it.
pub const REWARD_PERCENT: u64 = 20;

/// Whether a text has at most `max` characters.
pub open spec fn fits(text: Seq<char>, max: usize) -> bool {
    text.len() <= max
}

/// Tests whether a string has at most `max` characters.
pub fn string_fits(text: &String, max: usize) -> (ok: bool)
    ensures
        ok == fits(text@, max),
{
    text.as_str().unicode_len() <= max
}

} // verus!
