use vstd::prelude::*;

use crate::key::Key;

verus! {

/// Price of one utility token, in base units of the currency.
pub const ROCK_PRICE: u64 = 94000000;

/// Fee charged per utility token and sent to the buyer's spending wallet.
pub const FEE: u64 = 4000000;

/// Base units in one whole reward token (the reward mint has nine decimals).
pub const LAMPORT: u64 = 1000000000;

/// The registry: one per authority.
#[derive(Clone, Debug, PartialEq, Eq)]
pub struct Moai {
    pub authority: Key,
    /// The entry currently leading; absent until the first entry exists.
    pub current_top_vote: Option<Key>,
    pub epoch: u64,
    pub escrow_account: Key,
    pub moai_mint_account: Key,
    pub rock_mint_account: Key,
    pub nonce: u8,
    pub authority_valid: bool,
}

/// A named entry that collects votes.
#[derive(Clone, Debug, PartialEq, Eq)]
pub struct Meme {
    pub name: String,
    pub uri: String,
    pub creator: Key,
    pub vote: u64,
}

/// How many times one voter has voted for one entry.
#[derive(Clone, Debug, PartialEq, Eq)]
pub struct VoteStatus {
    pub meme: Key,
    pub user_spending: Key,
    pub count: u64,
}

#[derive(Clone, Copy, Debug, PartialEq, Eq, Structural)]
pub enum MoaiError {
    /// The caller holds less than one utility token.
    NotEnoughRock,
    /// A leading entry exists and the caller did not present it.
    TopVoteNotProvided,
    /// A count or a price does not fit in 64 bits.
    ArithmeticOverflow,
}

impl MoaiError {
    /// The message shown for this error.
    pub fn message(&self) -> (r: &'static str) {
        match self {
            MoaiError::NotEnoughRock => "Not enough $ROCK",
            MoaiError::TopVoteNotProvided => "Top Vote not provided",
            MoaiError::ArithmeticOverflow => "Arithmetic overflow",
        }
    }
}

} // verus!
