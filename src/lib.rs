//! A token-weighted voting economy: a registry per authority, named entries
//! that collect votes, per-voter vote receipts, and the pointer to the entry
//! currently leading.
//!
//! Every operation is a pure decision on plain values: it either fails with
//! no effect or returns the new records together with the exact list of
//! token-ledger operations the host has to carry out.

pub mod amount;
pub mod instructions;
pub mod key;
pub mod ledger;
pub mod state;
pub mod top_vote;

pub use amount::amount_to_ui_amount_string;
pub use instructions::{
    create_meme, initialize_moai, mint_rock, vote, CreateMeme, InitializeMoai, MintRock, Vote,
};
pub use key::Key;
pub use ledger::{LedgerOp, TokenAccount};
pub use state::{Meme, Moai, MoaiError, VoteStatus, FEE, LAMPORT, ROCK_PRICE};
pub use top_vote::{next_top_vote, MemeRef};
