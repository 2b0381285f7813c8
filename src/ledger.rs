use vstd::prelude::*;

use crate::key::Key;

verus! {

/// A token account as the logic reads it: its address and its balance.
#[derive(Clone, Copy, Debug, PartialEq, Eq)]
pub struct TokenAccount {
    pub key: Key,
    pub amount: u64,
}

/// One effect on the token ledger that an operation asks the host to carry
/// out. The host performs the operations of a plan in order, all or none.
#[derive(Clone, Copy, Debug, PartialEq, Eq)]
pub enum LedgerOp {
    /// Move native currency between two wallets.
    TransferCurrency { from: Key, to: Key, amount: u64 },
    /// Bring a wrapped-currency account's token balance in line with the
    /// currency it holds.
    SyncWrapped { account: Key },
    /// Move tokens of `mint`, signed by `authority` (the owner or its delegate).
    TransferToken { mint: Key, from: Key, to: Key, authority: Key, amount: u64, decimals: u8 },
    /// Create new tokens of `mint`, signed by the mint's `authority`.
    MintTo { mint: Key, to: Key, authority: Key, amount: u64 },
    /// Let `delegate` spend up to `amount` tokens of `account`, signed by its `owner`.
    Approve { mint: Key, account: Key, owner: Key, delegate: Key, amount: u64, decimals: u8 },
}

/// What one operation adds to the balance of `account` in tokens of `mint`.
pub open spec fn op_token_delta(op: LedgerOp, mint: Key, account: Key) -> int {
    match op {
        LedgerOp::TransferToken { mint: m, from, to, amount, .. } => if m == mint {
            (if to == account {
                amount as int
            } else {
                0
            }) - (if from == account {
                amount as int
            } else {
                0
            })
        } else {
            0
        },
        LedgerOp::MintTo { mint: m, to, amount, .. } => if m == mint && to == account {
            amount as int
        } else {
            0
        },
        _ => 0,
    }
}

/// What a whole plan adds to the balance of `account` in tokens of `mint`.
pub open spec fn token_delta(ops: Seq<LedgerOp>, mint: Key, account: Key) -> int
    decreases ops.len(),
{
    if ops.len() == 0 {
        0
    } else {
        token_delta(ops.drop_last(), mint, account) + op_token_delta(ops.last(), mint, account)
    }
}

/// What one operation adds to the currency balance of `wallet`.
pub open spec fn op_currency_delta(op: LedgerOp, wallet: Key) -> int {
    match op {
        LedgerOp::TransferCurrency { from, to, amount } => (if to == wallet {
            amount as int
        } else {
            0
        }) - (if from == wallet {
            amount as int
        } else {
            0
        }),
        _ => 0,
    }
}

/// What a whole plan adds to the currency balance of `wallet`.
pub open spec fn currency_delta(ops: Seq<LedgerOp>, wallet: Key) -> int
    decreases ops.len(),
{
    if ops.len() == 0 {
        0
    } else {
        currency_delta(ops.drop_last(), wallet) + op_currency_delta(ops.last(), wallet)
    }
}

} // verus!
