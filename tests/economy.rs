use moai::{
    create_meme, initialize_moai, mint_rock, next_top_vote, vote, CreateMeme, InitializeMoai,
    Key, LedgerOp, Meme, MemeRef, MintRock, Moai, MoaiError, TokenAccount, Vote, VoteStatus, FEE,
    LAMPORT, ROCK_PRICE,
};

fn key(b: u8) -> Key {
    Key::new([b; 32])
}

const AUTHORITY: u8 = 1;
const ESCROW: u8 = 2;
const MOAI_MINT: u8 = 3;
const ROCK_MINT: u8 = 4;
const REGISTRY: u8 = 5;
const USER: u8 = 10;
const SPENDING: u8 = 11;
const USER_ROCK: u8 = 12;
const USER_MOAI: u8 = 13;
const CAT: u8 = 20;
const CAT_ESCROW: u8 = 21;
const DOG: u8 = 30;
const DOG_ESCROW: u8 = 31;

fn registry() -> Moai {
    initialize_moai(&InitializeMoai {
        authority: key(AUTHORITY),
        moai_bump: 254,
        escrow_account: key(ESCROW),
        moai_mint: key(MOAI_MINT),
        rock_mint: key(ROCK_MINT),
    })
}

fn blank_meme() -> Meme {
    Meme { name: String::new(), uri: String::new(), creator: key(0), vote: 0 }
}

fn blank_receipt() -> VoteStatus {
    VoteStatus { meme: key(0), user_spending: key(0), count: 0 }
}

fn create_ctx(moai: &Moai, meme: u8, meme_escrow: u8, rock: u64) -> CreateMeme {
    CreateMeme {
        user_spending: key(SPENDING),
        meme_key: key(meme),
        meme: blank_meme(),
        moai_key: key(REGISTRY),
        moai: moai.clone(),
        user_rock_account: TokenAccount { key: key(USER_ROCK), amount: rock },
        user_moai_account: key(USER_MOAI),
        user_spending_vote: blank_receipt(),
        meme_rock_account: key(meme_escrow),
    }
}

fn vote_ctx(moai: &Moai, meme_key: u8, meme: &Meme, meme_escrow: u8, rock: u64) -> Vote {
    Vote {
        user_spending: key(SPENDING),
        meme_key: key(meme_key),
        meme: meme.clone(),
        moai_key: key(REGISTRY),
        moai: moai.clone(),
        user_rock_account: TokenAccount { key: key(USER_ROCK), amount: rock },
        user_moai_account: key(USER_MOAI),
        meme_rock_account: key(meme_escrow),
        user_spending_vote: blank_receipt(),
    }
}

fn token_delta(ops: &[LedgerOp], mint: Key, account: Key) -> i128 {
    let mut d: i128 = 0;
    for op in ops {
        match *op {
            LedgerOp::TransferToken { mint: m, from, to, amount, .. } if m == mint => {
                if to == account {
                    d += amount as i128;
                }
                if from == account {
                    d -= amount as i128;
                }
            }
            LedgerOp::MintTo { mint: m, to, amount, .. } if m == mint && to == account => {
                d += amount as i128;
            }
            _ => {}
        }
    }
    d
}

fn currency_delta(ops: &[LedgerOp], wallet: Key) -> i128 {
    let mut d: i128 = 0;
    for op in ops {
        if let LedgerOp::TransferCurrency { from, to, amount } = *op {
            if to == wallet {
                d += amount as i128;
            }
            if from == wallet {
                d -= amount as i128;
            }
        }
    }
    d
}

#[test]
fn initialize_sets_up_an_empty_registry() {
    let m = registry();
    assert_eq!(m.authority, key(AUTHORITY));
    assert_eq!(m.current_top_vote, None);
    assert_eq!(m.epoch, 0);
    assert_eq!(m.escrow_account, key(ESCROW));
    assert_eq!(m.moai_mint_account, key(MOAI_MINT));
    assert_eq!(m.rock_mint_account, key(ROCK_MINT));
    assert_eq!(m.nonce, 254);
    assert!(m.authority_valid);
}

#[test]
fn keys_compare_by_every_byte() {
    let mut b = [7u8; 32];
    assert_eq!(Key::new(b), Key::new([7u8; 32]));
    b[31] = 8;
    assert_ne!(Key::new(b), Key::new([7u8; 32]));
    assert!(!Key::new(b).same(&key(7)));
    assert!(key(9).same(&key(9)));
}

#[test]
fn first_entry_becomes_leader() {
    let moai = registry();
    let mut ctx = create_ctx(&moai, CAT, CAT_ESCROW, 3);
    let ops = create_meme(&mut ctx, "cat".to_string(), "https://cat".to_string(), None).unwrap();
    assert_eq!(ctx.meme.name, "cat");
    assert_eq!(ctx.meme.uri, "https://cat");
    assert_eq!(ctx.meme.creator, key(SPENDING));
    assert_eq!(ctx.meme.vote, 1);
    assert_eq!(ctx.moai.current_top_vote, Some(key(CAT)));
    assert_eq!(ctx.user_spending_vote.count, 1);
    assert_eq!(ctx.user_spending_vote.meme, key(CAT));
    assert_eq!(ctx.user_spending_vote.user_spending, key(SPENDING));
    assert_eq!(
        ops,
        vec![
            LedgerOp::TransferToken {
                mint: key(ROCK_MINT),
                from: key(USER_ROCK),
                to: key(CAT_ESCROW),
                authority: key(SPENDING),
                amount: 1,
                decimals: 0,
            },
            LedgerOp::MintTo {
                mint: key(MOAI_MINT),
                to: key(USER_MOAI),
                authority: key(REGISTRY),
                amount: LAMPORT,
            },
        ]
    );
}

#[test]
fn create_and_vote_scenario() {
    let moai = registry();
    let mut cat = create_ctx(&moai, CAT, CAT_ESCROW, 10);
    create_meme(&mut cat, "cat".to_string(), "u".to_string(), None).unwrap();
    assert_eq!(cat.meme.vote, 1);
    assert_eq!(cat.moai.current_top_vote, Some(key(CAT)));

    let mut dog = create_ctx(&cat.moai, DOG, DOG_ESCROW, 9);
    let incumbent = MemeRef { key: key(CAT), vote: cat.meme.vote };
    create_meme(&mut dog, "dog".to_string(), "u".to_string(), Some(incumbent)).unwrap();
    assert_eq!(dog.meme.vote, 1);
    assert_eq!(dog.moai.current_top_vote, Some(key(DOG)));

    let mut v1 = vote_ctx(&dog.moai, CAT, &cat.meme, CAT_ESCROW, 8);
    vote(&mut v1, Some(MemeRef { key: key(DOG), vote: dog.meme.vote })).unwrap();
    assert_eq!(v1.meme.vote, 2);
    assert_eq!(v1.moai.current_top_vote, Some(key(CAT)));

    let mut v2 = vote_ctx(&v1.moai, CAT, &v1.meme, CAT_ESCROW, 7);
    v2.user_spending_vote = v1.user_spending_vote.clone();
    vote(&mut v2, Some(MemeRef { key: key(CAT), vote: v1.meme.vote })).unwrap();
    assert_eq!(v2.meme.vote, 3);
    assert_eq!(v2.moai.current_top_vote, Some(key(CAT)));
    assert_eq!(v2.user_spending_vote.count, 2);
}

#[test]
fn stale_incumbent_is_refused() {
    let moai = Moai { current_top_vote: Some(key(CAT)), ..registry() };
    let dog = Meme { name: "dog".to_string(), uri: "u".to_string(), creator: key(SPENDING), vote: 1 };
    let mut ctx = vote_ctx(&moai, DOG, &dog, DOG_ESCROW, 5);
    let before = ctx.clone();
    let r = vote(&mut ctx, Some(MemeRef { key: key(DOG), vote: 1 }));
    assert_eq!(r, Err(MoaiError::TopVoteNotProvided));
    assert_eq!(ctx.meme.vote, 1);
    assert_eq!(ctx, before);
}

#[test]
fn missing_incumbent_is_refused() {
    let moai = Moai { current_top_vote: Some(key(CAT)), ..registry() };
    let mut ctx = create_ctx(&moai, DOG, DOG_ESCROW, 5);
    let before = ctx.clone();
    let r = create_meme(&mut ctx, "dog".to_string(), "u".to_string(), None);
    assert_eq!(r, Err(MoaiError::TopVoteNotProvided));
    assert_eq!(ctx, before);
}

#[test]
fn create_without_rock_is_refused() {
    let moai = registry();
    let mut ctx = create_ctx(&moai, CAT, CAT_ESCROW, 0);
    let before = ctx.clone();
    let r = create_meme(&mut ctx, "cat".to_string(), "u".to_string(), None);
    assert_eq!(r, Err(MoaiError::NotEnoughRock));
    assert_eq!(ctx, before);
}

#[test]
fn vote_without_rock_is_refused() {
    let moai = Moai { current_top_vote: Some(key(CAT)), ..registry() };
    let cat = Meme { name: "cat".to_string(), uri: "u".to_string(), creator: key(SPENDING), vote: 4 };
    let mut ctx = vote_ctx(&moai, CAT, &cat, CAT_ESCROW, 0);
    let before = ctx.clone();
    let r = vote(&mut ctx, Some(MemeRef { key: key(CAT), vote: 4 }));
    assert_eq!(r, Err(MoaiError::NotEnoughRock));
    assert_eq!(ctx, before);
}

#[test]
fn vote_count_overflow_is_refused() {
    let moai = Moai { current_top_vote: Some(key(CAT)), ..registry() };
    let cat = Meme { name: "cat".to_string(), uri: "u".to_string(), creator: key(SPENDING), vote: u64::MAX };
    let mut ctx = vote_ctx(&moai, CAT, &cat, CAT_ESCROW, 1);
    let before = ctx.clone();
    let r = vote(&mut ctx, Some(MemeRef { key: key(CAT), vote: u64::MAX }));
    assert_eq!(r, Err(MoaiError::ArithmeticOverflow));
    assert_eq!(ctx, before);
}

#[test]
fn receipt_overflow_is_refused() {
    let moai = registry();
    let mut ctx = create_ctx(&moai, CAT, CAT_ESCROW, 1);
    ctx.user_spending_vote.count = u64::MAX;
    let r = create_meme(&mut ctx, "cat".to_string(), "u".to_string(), None);
    assert_eq!(r, Err(MoaiError::ArithmeticOverflow));
    assert_eq!(ctx.meme.vote, 0);
}

#[test]
fn leader_with_more_votes_stays() {
    let moai = Moai { current_top_vote: Some(key(CAT)), ..registry() };
    let dog = Meme { name: "dog".to_string(), uri: "u".to_string(), creator: key(SPENDING), vote: 1 };
    let mut ctx = vote_ctx(&moai, DOG, &dog, DOG_ESCROW, 1);
    vote(&mut ctx, Some(MemeRef { key: key(CAT), vote: 3 })).unwrap();
    assert_eq!(ctx.meme.vote, 2);
    assert_eq!(ctx.moai.current_top_vote, Some(key(CAT)));
}

#[test]
fn tie_goes_to_the_candidate() {
    assert_eq!(next_top_vote(Some(key(CAT)), key(DOG), 2, Some(MemeRef { key: key(CAT), vote: 2 })), Ok(key(DOG)));
    assert_eq!(next_top_vote(Some(key(CAT)), key(DOG), 1, Some(MemeRef { key: key(CAT), vote: 2 })), Ok(key(CAT)));
    assert_eq!(next_top_vote(None, key(DOG), 1, None), Ok(key(DOG)));
    assert_eq!(next_top_vote(None, key(DOG), 1, Some(MemeRef { key: key(CAT), vote: 9 })), Ok(key(DOG)));
    assert_eq!(
        next_top_vote(Some(key(CAT)), key(DOG), 5, Some(MemeRef { key: key(DOG), vote: 0 })),
        Err(MoaiError::TopVoteNotProvided)
    );
}

#[test]
fn repeat_votes_are_not_capped() {
    let mut moai = Moai { current_top_vote: Some(key(CAT)), ..registry() };
    let mut cat = Meme { name: "cat".to_string(), uri: "u".to_string(), creator: key(SPENDING), vote: 1 };
    let mut receipt = blank_receipt();
    for n in 2..=6u64 {
        let mut ctx = vote_ctx(&moai, CAT, &cat, CAT_ESCROW, 10);
        ctx.user_spending_vote = receipt.clone();
        vote(&mut ctx, Some(MemeRef { key: key(CAT), vote: cat.vote })).unwrap();
        assert_eq!(ctx.meme.vote, n);
        moai = ctx.moai;
        cat = ctx.meme;
        receipt = ctx.user_spending_vote;
    }
    assert_eq!(receipt.count, 5);
    assert_eq!(cat.vote, 6);
}

#[test]
fn vote_and_create_move_one_token_each_way() {
    let moai = Moai { current_top_vote: Some(key(CAT)), ..registry() };
    let cat = Meme { name: "cat".to_string(), uri: "u".to_string(), creator: key(SPENDING), vote: 1 };
    let mut v = vote_ctx(&moai, CAT, &cat, CAT_ESCROW, 2);
    let ops = vote(&mut v, Some(MemeRef { key: key(CAT), vote: 1 })).unwrap();
    assert_eq!(token_delta(&ops, key(ROCK_MINT), key(USER_ROCK)), -1);
    assert_eq!(token_delta(&ops, key(ROCK_MINT), key(CAT_ESCROW)), 1);
    assert_eq!(token_delta(&ops, key(MOAI_MINT), key(USER_MOAI)), LAMPORT as i128);

    let mut c = create_ctx(&v.moai, DOG, DOG_ESCROW, 1);
    let ops = create_meme(&mut c, "dog".to_string(), "u".to_string(), Some(MemeRef { key: key(CAT), vote: 2 })).unwrap();
    assert_eq!(token_delta(&ops, key(ROCK_MINT), key(USER_ROCK)), -1);
    assert_eq!(token_delta(&ops, key(MOAI_MINT), key(USER_MOAI)), LAMPORT as i128);
    assert_eq!(c.moai.current_top_vote, Some(key(CAT)));
}

fn mint_ctx() -> MintRock {
    MintRock {
        user: key(USER),
        user_spending: key(SPENDING),
        moai_key: key(REGISTRY),
        moai: registry(),
        user_rock_account: key(USER_ROCK),
    }
}

#[test]
fn purchase_plan() {
    let ops = mint_rock(&mint_ctx(), 3).unwrap();
    assert_eq!(
        ops,
        vec![
            LedgerOp::TransferCurrency { from: key(USER), to: key(ESCROW), amount: 282000000 },
            LedgerOp::SyncWrapped { account: key(ESCROW) },
            LedgerOp::TransferCurrency { from: key(USER), to: key(SPENDING), amount: 12000000 },
            LedgerOp::MintTo { mint: key(ROCK_MINT), to: key(USER_ROCK), authority: key(REGISTRY), amount: 3 },
            LedgerOp::Approve {
                mint: key(ROCK_MINT),
                account: key(USER_ROCK),
                owner: key(USER),
                delegate: key(SPENDING),
                amount: 3,
                decimals: 0,
            },
        ]
    );
    assert_eq!(currency_delta(&ops, key(USER)), -((3 * (ROCK_PRICE + FEE)) as i128));
    assert_eq!(token_delta(&ops, key(ROCK_MINT), key(USER_ROCK)), 3);
}

#[test]
fn purchase_of_zero_does_nothing() {
    assert_eq!(mint_rock(&mint_ctx(), 0), Ok(vec![]));
}

#[test]
fn purchase_too_large_is_refused() {
    assert_eq!(mint_rock(&mint_ctx(), u64::MAX), Err(MoaiError::ArithmeticOverflow));
    let largest = u64::MAX / ROCK_PRICE;
    assert_eq!(mint_rock(&mint_ctx(), largest + 1), Err(MoaiError::ArithmeticOverflow));
    let ops = mint_rock(&mint_ctx(), largest).unwrap();
    assert_eq!(currency_delta(&ops, key(USER)), -((largest as i128) * ((ROCK_PRICE + FEE) as i128)));
}

#[test]
fn error_messages() {
    assert_eq!(MoaiError::NotEnoughRock.message(), "Not enough $ROCK");
    assert_eq!(MoaiError::TopVoteNotProvided.message(), "Top Vote not provided");
    assert_eq!(MoaiError::ArithmeticOverflow.message(), "Arithmetic overflow");
}
