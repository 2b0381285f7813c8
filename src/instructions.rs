use vstd::prelude::*;

use crate::key::Key;
use crate::ledger::{currency_delta, token_delta, LedgerOp, TokenAccount};
use crate::state::{Meme, Moai, MoaiError, VoteStatus, FEE, LAMPORT, ROCK_PRICE};
use crate::top_vote::{next_top_vote, top_vote_outcome, MemeRef};

verus! {

/// The accounts of a registry's creation.
#[derive(Clone, Copy, Debug, PartialEq, Eq)]
pub struct InitializeMoai {
    pub authority: Key,
    /// The bump found when the registry's address was derived.
    pub moai_bump: u8,
    pub escrow_account: Key,
    pub moai_mint: Key,
    pub rock_mint: Key,
}

/// The accounts of an entry's creation, read before the call.
#[derive(Clone, Debug, PartialEq, Eq)]
pub struct CreateMeme {
    pub user_spending: Key,
    pub meme_key: Key,
    pub meme: Meme,
    pub moai_key: Key,
    pub moai: Moai,
    pub user_rock_account: TokenAccount,
    pub user_moai_account: Key,
    pub user_spending_vote: VoteStatus,
    pub meme_rock_account: Key,
}

/// The accounts of a purchase of utility tokens.
#[derive(Clone, Debug, PartialEq, Eq)]
pub struct MintRock {
    pub user: Key,
    pub user_spending: Key,
    pub moai_key: Key,
    pub moai: Moai,
    pub user_rock_account: Key,
}

/// The accounts of a vote, read before the call.
#[derive(Clone, Debug, PartialEq, Eq)]
pub struct Vote {
    pub user_spending: Key,
    pub meme_key: Key,
    pub meme: Meme,
    pub moai_key: Key,
    pub moai: Moai,
    pub user_rock_account: TokenAccount,
    pub user_moai_account: Key,
    pub meme_rock_account: Key,
    pub user_spending_vote: VoteStatus,
}

/// A fresh registry for the given accounts.
pub open spec fn initial_moai(ctx: InitializeMoai) -> Moai {
    Moai {
        authority: ctx.authority,
        current_top_vote: None,
        epoch: 0,
        escrow_account: ctx.escrow_account,
        moai_mint_account: ctx.moai_mint,
        rock_mint_account: ctx.rock_mint,
        nonce: ctx.moai_bump,
        authority_valid: true,
    }
}

/// Creates the registry record: no leader, epoch zero, still mutable.
pub fn initialize_moai(ctx: &InitializeMoai) -> (r: Moai)
    ensures
        r == initial_moai(*ctx),
{
    Moai {
        authority: ctx.authority,
        current_top_vote: None,
        epoch: 0,
        escrow_account: ctx.escrow_account,
        moai_mint_account: ctx.moai_mint,
        rock_mint_account: ctx.rock_mint,
        nonce: ctx.moai_bump,
        authority_valid: true,
    }
}

/// The ledger effects of creating or voting for an entry: one utility token
/// from the caller to the entry's escrow, one whole reward token to the caller.
pub open spec fn spend_and_reward_plan(
    moai: Moai,
    moai_key: Key,
    user_spending: Key,
    user_rock_account: Key,
    user_moai_account: Key,
    meme_rock_account: Key,
) -> Seq<LedgerOp> {
    seq![
        LedgerOp::TransferToken {
            mint: moai.rock_mint_account,
            from: user_rock_account,
            to: meme_rock_account,
            authority: user_spending,
            amount: 1,
            decimals: 0,
        },
        LedgerOp::MintTo {
            mint: moai.moai_mint_account,
            to: user_moai_account,
            authority: moai_key,
            amount: LAMPORT,
        },
    ]
}

fn spend_and_reward(
    moai: &Moai,
    moai_key: Key,
    user_spending: Key,
    user_rock_account: Key,
    user_moai_account: Key,
    meme_rock_account: Key,
) -> (r: Vec<LedgerOp>)
    ensures
        r@ == spend_and_reward_plan(
            *moai,
            moai_key,
            user_spending,
            user_rock_account,
            user_moai_account,
            meme_rock_account,
        ),
{
    let mut ops: Vec<LedgerOp> = Vec::new();
    ops.push(
        LedgerOp::TransferToken {
            mint: moai.rock_mint_account,
            from: user_rock_account,
            to: meme_rock_account,
            authority: user_spending,
            amount: 1,
            decimals: 0,
        },
    );
    ops.push(
        LedgerOp::MintTo {
            mint: moai.moai_mint_account,
            to: user_moai_account,
            authority: moai_key,
            amount: LAMPORT,
        },
    );
    assert(ops@ =~= spend_and_reward_plan(
        *moai,
        moai_key,
        user_spending,
        user_rock_account,
        user_moai_account,
        meme_rock_account,
    ));
    ops
}

/// The ledger effects of a successful creation.
pub open spec fn create_meme_plan(ctx: CreateMeme) -> Seq<LedgerOp> {
    spend_and_reward_plan(
        ctx.moai,
        ctx.moai_key,
        ctx.user_spending,
        ctx.user_rock_account.key,
        ctx.user_moai_account,
        ctx.meme_rock_account,
    )
}

/// The accounts after a successful creation that left `leader` leading.
pub open spec fn created(ctx: CreateMeme, name: String, uri: String, leader: Key) -> CreateMeme {
    CreateMeme {
        meme: Meme { name, uri, creator: ctx.user_spending, vote: 1 },
        moai: Moai { current_top_vote: Some(leader), ..ctx.moai },
        user_spending_vote: VoteStatus {
            meme: ctx.meme_key,
            user_spending: ctx.user_spending,
            count: (ctx.user_spending_vote.count + 1) as u64,
        },
        ..ctx
    }
}

/// Registers a new entry; creating it counts as its creator's first vote.
///
/// Fails with `NotEnoughRock` when the caller holds no utility token, with
/// `ArithmeticOverflow` when the caller's receipt cannot count one more vote,
/// and with `TopVoteNotProvided` when a leader exists and `top_vote` does not
/// present it. On failure nothing changes and no ledger effect is asked for.
pub fn create_meme(
    ctx: &mut CreateMeme,
    name: String,
    uri: String,
    top_vote: Option<MemeRef>,
) -> (r: Result<Vec<LedgerOp>, MoaiError>)
    ensures
        old(ctx).user_rock_account.amount < 1 ==> r == Err::<Vec<LedgerOp>, MoaiError>(
            MoaiError::NotEnoughRock,
        ),
        old(ctx).user_rock_account.amount >= 1 && old(ctx).user_spending_vote.count == u64::MAX
            ==> r == Err::<Vec<LedgerOp>, MoaiError>(MoaiError::ArithmeticOverflow),
        old(ctx).user_rock_account.amount >= 1 && old(ctx).user_spending_vote.count < u64::MAX
            ==> match top_vote_outcome(
            old(ctx).moai.current_top_vote,
            old(ctx).meme_key,
            1,
            top_vote,
        ) {
            Err(e) => r == Err::<Vec<LedgerOp>, MoaiError>(e),
            Ok(leader) => r is Ok && r->Ok_0@ == create_meme_plan(*old(ctx)) && *final(ctx)
                == created(*old(ctx), name, uri, leader),
        },
        r is Err ==> *final(ctx) == *old(ctx),
{
    if ctx.user_rock_account.amount < 1 {
        return Err(MoaiError::NotEnoughRock);
    }
    if ctx.user_spending_vote.count == u64::MAX {
        return Err(MoaiError::ArithmeticOverflow);
    }
    let leader = match next_top_vote(ctx.moai.current_top_vote, ctx.meme_key, 1, top_vote) {
        Ok(leader) => leader,
        Err(e) => {
            return Err(e);
        },
    };
    let ops = spend_and_reward(
        &ctx.moai,
        ctx.moai_key,
        ctx.user_spending,
        ctx.user_rock_account.key,
        ctx.user_moai_account,
        ctx.meme_rock_account,
    );
    ctx.meme = Meme { name, uri, creator: ctx.user_spending, vote: 1 };
    ctx.moai.current_top_vote = Some(leader);
    ctx.user_spending_vote.count = ctx.user_spending_vote.count + 1;
    ctx.user_spending_vote.meme = ctx.meme_key;
    ctx.user_spending_vote.user_spending = ctx.user_spending;
    Ok(ops)
}

/// The ledger effects of a successful vote.
pub open spec fn vote_plan(ctx: Vote) -> Seq<LedgerOp> {
    spend_and_reward_plan(
        ctx.moai,
        ctx.moai_key,
        ctx.user_spending,
        ctx.user_rock_account.key,
        ctx.user_moai_account,
        ctx.meme_rock_account,
    )
}

/// The accounts after a successful vote that left `leader` leading.
pub open spec fn voted(ctx: Vote, leader: Key) -> Vote {
    Vote {
        meme: Meme { vote: (ctx.meme.vote + 1) as u64, ..ctx.meme },
        moai: Moai { current_top_vote: Some(leader), ..ctx.moai },
        user_spending_vote: VoteStatus {
            meme: ctx.meme_key,
            user_spending: ctx.user_spending,
            count: (ctx.user_spending_vote.count + 1) as u64,
        },
        ..ctx
    }
}

/// Casts one vote for an existing entry. A voter may vote for the same entry
/// any number of times; each vote costs one utility token.
///
/// Fails with `NotEnoughRock` when the caller holds no utility token, with
/// `ArithmeticOverflow` when the entry's count or the caller's receipt cannot
/// count one more vote, and with `TopVoteNotProvided` when a leader exists
/// and `top_vote` does not present it. On failure nothing changes and no
/// ledger effect is asked for.
pub fn vote(ctx: &mut Vote, top_vote: Option<MemeRef>) -> (r: Result<Vec<LedgerOp>, MoaiError>)
    ensures
        old(ctx).user_rock_account.amount < 1 ==> r == Err::<Vec<LedgerOp>, MoaiError>(
            MoaiError::NotEnoughRock,
        ),
        old(ctx).user_rock_account.amount >= 1 && (old(ctx).meme.vote == u64::MAX
            || old(ctx).user_spending_vote.count == u64::MAX) ==> r == Err::<
            Vec<LedgerOp>,
            MoaiError,
        >(MoaiError::ArithmeticOverflow),
        old(ctx).user_rock_account.amount >= 1 && old(ctx).meme.vote < u64::MAX
            && old(ctx).user_spending_vote.count < u64::MAX ==> match top_vote_outcome(
            old(ctx).moai.current_top_vote,
            old(ctx).meme_key,
            (old(ctx).meme.vote + 1) as u64,
            top_vote,
        ) {
            Err(e) => r == Err::<Vec<LedgerOp>, MoaiError>(e),
            Ok(leader) => r is Ok && r->Ok_0@ == vote_plan(*old(ctx)) && *final(ctx) == voted(
                *old(ctx),
                leader,
            ),
        },
        r is Err ==> *final(ctx) == *old(ctx),
        meme_vote_step(old(ctx).meme, final(ctx).meme, r is Ok),
{
    if ctx.user_rock_account.amount < 1 {
        return Err(MoaiError::NotEnoughRock);
    }
    if ctx.meme.vote == u64::MAX || ctx.user_spending_vote.count == u64::MAX {
        return Err(MoaiError::ArithmeticOverflow);
    }
    let candidate_vote = ctx.meme.vote + 1;
    let leader = match next_top_vote(
        ctx.moai.current_top_vote,
        ctx.meme_key,
        candidate_vote,
        top_vote,
    ) {
        Ok(leader) => leader,
        Err(e) => {
            return Err(e);
        },
    };
    let ops = spend_and_reward(
        &ctx.moai,
        ctx.moai_key,
        ctx.user_spending,
        ctx.user_rock_account.key,
        ctx.user_moai_account,
        ctx.meme_rock_account,
    );
    ctx.meme.vote = candidate_vote;
    ctx.moai.current_top_vote = Some(leader);
    ctx.user_spending_vote.count = ctx.user_spending_vote.count + 1;
    ctx.user_spending_vote.meme = ctx.meme_key;
    ctx.user_spending_vote.user_spending = ctx.user_spending;
    Ok(ops)
}

/// How a vote call leaves the entry it names: one more vote when it
/// succeeds, untouched when it fails.
pub open spec fn meme_vote_step(before: Meme, after: Meme, succeeded: bool) -> bool {
    if succeeded {
        after == (Meme { vote: (before.vote + 1) as u64, ..before }) && before.vote < u64::MAX
    } else {
        after == before
    }
}

/// The number of `true` in `s`.
pub open spec fn successes(s: Seq<bool>) -> nat
    decreases s.len(),
{
    if s.len() == 0 {
        0
    } else {
        successes(s.drop_last()) + if s.last() {
            1nat
        } else {
            0nat
        }
    }
}

/// An entry's vote count never decreases, and after its creation and any
/// run of vote calls naming it, it equals the number of those calls that
/// succeeded (creation included). `memes[0]` is the entry as created and
/// `memes[i + 1]` the entry after the i-th vote call, whose success is
/// `succeeded[i]`.
pub proof fn lemma_vote_count_counts_successes(memes: Seq<Meme>, succeeded: Seq<bool>)
    requires
        memes.len() == succeeded.len() + 1,
        memes[0].vote == 1,
        forall|i: int|
            0 <= i < succeeded.len() ==> #[trigger] meme_vote_step(
                memes[i],
                memes[i + 1],
                succeeded[i],
            ),
    ensures
        memes.last().vote == 1 + successes(succeeded),
        forall|i: int, j: int| 0 <= i <= j < memes.len() ==> memes[i].vote <= memes[j].vote,
    decreases succeeded.len(),
{
    if succeeded.len() > 0 {
        let n = succeeded.len() - 1;
        let prefix = memes.drop_last();
        assert(succeeded.drop_last().len() == n);
        assert forall|i: int| 0 <= i < n implies #[trigger] meme_vote_step(
            prefix[i],
            prefix[i + 1],
            succeeded.drop_last()[i],
        ) by {
            assert(meme_vote_step(memes[i], memes[i + 1], succeeded[i]));
        }
        lemma_vote_count_counts_successes(prefix, succeeded.drop_last());
        assert(meme_vote_step(memes[n], memes[n + 1], succeeded[n]));
        assert forall|i: int, j: int| 0 <= i <= j < memes.len() implies memes[i].vote
            <= memes[j].vote by {
            if j < memes.len() - 1 {
                assert(prefix[i].vote <= prefix[j].vote);
            } else if i < j {
                assert(prefix[i].vote <= prefix[n].vote);
                assert(memes[n].vote <= memes[n + 1].vote);
            }
        }
    }
}

/// The ledger effects of buying `amount` utility tokens: the price to the
/// registry's escrow, which is then synchronised, the fee to the buyer's
/// spending wallet, the tokens minted to the buyer, and an allowance of
/// `amount` for the spending wallet over the buyer's token account.
pub open spec fn mint_rock_plan(ctx: MintRock, amount: u64) -> Seq<LedgerOp> {
    seq![
        LedgerOp::TransferCurrency {
            from: ctx.user,
            to: ctx.moai.escrow_account,
            amount: (amount * ROCK_PRICE) as u64,
        },
        LedgerOp::SyncWrapped { account: ctx.moai.escrow_account },
        LedgerOp::TransferCurrency {
            from: ctx.user,
            to: ctx.user_spending,
            amount: (amount * FEE) as u64,
        },
        LedgerOp::MintTo {
            mint: ctx.moai.rock_mint_account,
            to: ctx.user_rock_account,
            authority: ctx.moai_key,
            amount,
        },
        LedgerOp::Approve {
            mint: ctx.moai.rock_mint_account,
            account: ctx.user_rock_account,
            owner: ctx.user,
            delegate: ctx.user_spending,
            amount,
            decimals: 0,
        },
    ]
}

/// Plans the purchase of `amount` utility tokens.
///
/// A purchase of zero tokens does nothing and asks for no ledger effect.
/// Fails with `ArithmeticOverflow` when the price does not fit in 64 bits.
/// Currency goes to the escrow and tokens come from the mint that the
/// registry records.
pub fn mint_rock(ctx: &MintRock, amount: u64) -> (r: Result<Vec<LedgerOp>, MoaiError>)
    ensures
        amount == 0 ==> r is Ok && r->Ok_0@.len() == 0,
        amount > 0 && amount * ROCK_PRICE > u64::MAX ==> r == Err::<Vec<LedgerOp>, MoaiError>(
            MoaiError::ArithmeticOverflow,
        ),
        amount > 0 && amount * ROCK_PRICE <= u64::MAX ==> r is Ok && r->Ok_0@ == mint_rock_plan(
            *ctx,
            amount,
        ),
{
    let mut ops: Vec<LedgerOp> = Vec::new();
    if amount == 0 {
        return Ok(ops);
    }
    let price = match amount.checked_mul(ROCK_PRICE) {
        Some(price) => price,
        None => {
            return Err(MoaiError::ArithmeticOverflow);
        },
    };
    let fee = match amount.checked_mul(FEE) {
        Some(fee) => fee,
        None => {
            return Err(MoaiError::ArithmeticOverflow);
        },
    };
    ops.push(LedgerOp::TransferCurrency { from: ctx.user, to: ctx.moai.escrow_account, amount: price });
    ops.push(LedgerOp::SyncWrapped { account: ctx.moai.escrow_account });
    ops.push(LedgerOp::TransferCurrency { from: ctx.user, to: ctx.user_spending, amount: fee });
    ops.push(
        LedgerOp::MintTo {
            mint: ctx.moai.rock_mint_account,
            to: ctx.user_rock_account,
            authority: ctx.moai_key,
            amount,
        },
    );
    ops.push(
        LedgerOp::Approve {
            mint: ctx.moai.rock_mint_account,
            account: ctx.user_rock_account,
            owner: ctx.user,
            delegate: ctx.user_spending,
            amount,
            decimals: 0,
        },
    );
    assert(ops@ =~= mint_rock_plan(*ctx, amount));
    Ok(ops)
}

/// A successful creation or vote takes exactly one utility token from the
/// caller and gives the caller exactly one whole reward token, provided the
/// two mints and the two token accounts involved are distinct accounts.
pub proof fn lemma_spend_and_reward_balances(
    moai: Moai,
    moai_key: Key,
    user_spending: Key,
    user_rock_account: Key,
    user_moai_account: Key,
    meme_rock_account: Key,
)
    requires
        moai.rock_mint_account != moai.moai_mint_account,
        user_rock_account != meme_rock_account,
    ensures
        ({
            let ops = spend_and_reward_plan(
                moai,
                moai_key,
                user_spending,
                user_rock_account,
                user_moai_account,
                meme_rock_account,
            );
            &&& token_delta(ops, moai.rock_mint_account, user_rock_account) == -1
            &&& token_delta(ops, moai.moai_mint_account, user_moai_account) == LAMPORT
            &&& token_delta(ops, moai.rock_mint_account, meme_rock_account) == 1
        }),
{
    let ops = spend_and_reward_plan(
        moai,
        moai_key,
        user_spending,
        user_rock_account,
        user_moai_account,
        meme_rock_account,
    );
    assert(ops.drop_last().drop_last() =~= Seq::<LedgerOp>::empty());
    reveal_with_fuel(token_delta, 3);
}

/// A successful creation moves one utility token and one reward token as
/// `lemma_spend_and_reward_balances` states.
pub proof fn lemma_create_meme_balances(ctx: CreateMeme)
    requires
        ctx.moai.rock_mint_account != ctx.moai.moai_mint_account,
        ctx.user_rock_account.key != ctx.meme_rock_account,
    ensures
        token_delta(create_meme_plan(ctx), ctx.moai.rock_mint_account, ctx.user_rock_account.key)
            == -1,
        token_delta(create_meme_plan(ctx), ctx.moai.moai_mint_account, ctx.user_moai_account)
            == LAMPORT,
{
    lemma_spend_and_reward_balances(
        ctx.moai,
        ctx.moai_key,
        ctx.user_spending,
        ctx.user_rock_account.key,
        ctx.user_moai_account,
        ctx.meme_rock_account,
    );
}

/// A successful vote moves one utility token and one reward token as
/// `lemma_spend_and_reward_balances` states.
pub proof fn lemma_vote_balances(ctx: Vote)
    requires
        ctx.moai.rock_mint_account != ctx.moai.moai_mint_account,
        ctx.user_rock_account.key != ctx.meme_rock_account,
    ensures
        token_delta(vote_plan(ctx), ctx.moai.rock_mint_account, ctx.user_rock_account.key) == -1,
        token_delta(vote_plan(ctx), ctx.moai.moai_mint_account, ctx.user_moai_account) == LAMPORT,
{
    lemma_spend_and_reward_balances(
        ctx.moai,
        ctx.moai_key,
        ctx.user_spending,
        ctx.user_rock_account.key,
        ctx.user_moai_account,
        ctx.meme_rock_account,
    );
}

/// A successful purchase of `amount` tokens gives the buyer exactly `amount`
/// utility tokens and takes exactly `amount * (ROCK_PRICE + FEE)` currency,
/// provided the buyer's wallet is neither the escrow nor the spending wallet.
pub proof fn lemma_mint_rock_balances(ctx: MintRock, amount: u64)
    requires
        amount * ROCK_PRICE <= u64::MAX,
        ctx.user != ctx.moai.escrow_account,
        ctx.user != ctx.user_spending,
    ensures
        token_delta(mint_rock_plan(ctx, amount), ctx.moai.rock_mint_account, ctx.user_rock_account)
            == amount,
        currency_delta(mint_rock_plan(ctx, amount), ctx.user) == -(amount * (ROCK_PRICE + FEE)),
{
    let ops = mint_rock_plan(ctx, amount);
    assert(ops.drop_last().drop_last().drop_last().drop_last().drop_last() =~= Seq::<
        LedgerOp,
    >::empty());
    reveal_with_fuel(token_delta, 6);
    reveal_with_fuel(currency_delta, 6);
    assert(amount * FEE <= amount * ROCK_PRICE) by (nonlinear_arith)
        requires
            FEE <= ROCK_PRICE,
    ;
    assert(amount * (ROCK_PRICE + FEE) == amount * ROCK_PRICE + amount * FEE) by (nonlinear_arith);
}

} // verus!
