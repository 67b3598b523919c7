use anchor_lang::prelude::Pubkey;
use escrow::shared::verify_authority;
use escrow::state::{offer_seeds_of, offer_signer_seeds_of};
use escrow::{
    close_token_account, make_offer, take_offer, transfer_tokens, Authority, ErrorCode, Escrow,
    Key, MakeOffer, TakeOffer, TokenAccount, TokenError, Wallet,
};

fn key(b: u8) -> Key {
    Key::new([b; 32])
}

const PROGRAM: u8 = 9;
const MAKER: u8 = 1;
const TAKER: u8 = 2;
const MINT_A: u8 = 10;
const MINT_B: u8 = 11;

fn account(mint: u8, owner: u8, amount: u64) -> TokenAccount {
    TokenAccount { mint: key(mint), owner: key(owner), amount, lamports: 2_000 }
}

fn make_ctx(balance: u64) -> MakeOffer {
    MakeOffer {
        maker: Wallet { key: key(MAKER), lamports: 1_000_000 },
        token_mint_a: key(MINT_A),
        token_mint_b: key(MINT_B),
        maker_token_account_a: account(MINT_A, MAKER, balance),
        offer_deposit: 1_500,
        vault_deposit: 2_000,
    }
}

fn take_ctx(taker_b: u64) -> TakeOffer {
    TakeOffer {
        taker: Wallet { key: key(TAKER), lamports: 500_000 },
        maker: Wallet { key: key(MAKER), lamports: 996_500 },
        token_mint_a: key(MINT_A),
        token_mint_b: key(MINT_B),
        taker_token_account_a: account(MINT_A, TAKER, 0),
        taker_token_account_b: account(MINT_B, TAKER, taker_b),
        maker_token_account_b: account(MINT_B, MAKER, 7),
    }
}

fn same(a: &Key, b: &Key) -> bool {
    a.bytes == b.bytes
}

#[test]
fn make_offer_funds_vault_and_records_inputs() {
    let mut escrow = Escrow::new(key(PROGRAM));
    let mut ctx = make_ctx(300);
    assert_eq!(make_offer(&mut escrow, &mut ctx, 1, 100, 50), Ok(()));
    let open = escrow.offer(1).unwrap();
    assert_eq!(open.vault.amount, 100);
    assert!(same(&open.vault.mint, &key(MINT_A)));
    assert!(same(&open.vault.owner, &open.address));
    assert_eq!(ctx.maker_token_account_a.amount, 200);
    assert_eq!(ctx.maker.lamports, 1_000_000 - 3_500);
    assert_eq!(open.offer.id, 1);
    assert!(same(&open.offer.maker, &key(MAKER)));
    assert!(same(&open.offer.token_mint_a, &key(MINT_A)));
    assert!(same(&open.offer.token_mint_b, &key(MINT_B)));
    assert_eq!(open.offer.token_b_wanted_amount, 50);
    assert_eq!(open.lamports, 1_500);
    assert_eq!(open.vault.lamports, 2_000);
}

#[test]
fn offer_address_is_the_derived_program_address() {
    let mut escrow = Escrow::new(key(PROGRAM));
    let mut ctx = make_ctx(300);
    assert_eq!(make_offer(&mut escrow, &mut ctx, 42, 100, 50), Ok(()));
    let open = escrow.offer(42).unwrap();
    let program_id = Pubkey::new_from_array([PROGRAM; 32]);
    let (expected, bump) = Pubkey::find_program_address(&[b"offer", &42u64.to_le_bytes()], &program_id);
    assert_eq!(open.address.bytes, expected.to_bytes());
    assert_eq!(open.offer.bump, bump);
    assert_ne!(open.address.bytes, [PROGRAM; 32]);
}

#[test]
fn offer_seeds_are_tag_and_little_endian_id() {
    let seeds = offer_seeds_of(0x0102030405060708);
    assert_eq!(seeds, vec![b"offer".to_vec(), vec![8, 7, 6, 5, 4, 3, 2, 1]]);
    let signer = offer_signer_seeds_of(5, 254);
    assert_eq!(signer, vec![b"offer".to_vec(), vec![5, 0, 0, 0, 0, 0, 0, 0], vec![254]]);
}

#[test]
fn make_offer_rejects_zero_amounts() {
    let mut escrow = Escrow::new(key(PROGRAM));
    let mut ctx = make_ctx(300);
    assert_eq!(make_offer(&mut escrow, &mut ctx, 1, 0, 50), Err(ErrorCode::InvalidAmount));
    assert_eq!(make_offer(&mut escrow, &mut ctx, 1, 100, 0), Err(ErrorCode::InvalidAmount));
    assert!(escrow.offer(1).is_none());
    assert_eq!(ctx.maker_token_account_a.amount, 300);
}

#[test]
fn make_offer_rejects_same_asset() {
    let mut escrow = Escrow::new(key(PROGRAM));
    let mut ctx = make_ctx(300);
    ctx.token_mint_b = key(MINT_A);
    assert_eq!(make_offer(&mut escrow, &mut ctx, 1, 100, 50), Err(ErrorCode::InvalidTokenMint));
    assert!(escrow.offer(1).is_none());
}

#[test]
fn make_offer_rejects_short_maker_balance() {
    let mut escrow = Escrow::new(key(PROGRAM));
    let mut ctx = make_ctx(99);
    assert_eq!(make_offer(&mut escrow, &mut ctx, 1, 100, 50), Err(ErrorCode::InsufficientMakerBalance));
    assert!(escrow.offer(1).is_none());
    assert_eq!(ctx.maker_token_account_a.amount, 99);
    assert_eq!(ctx.maker.lamports, 1_000_000);
}

#[test]
fn make_offer_rejects_unpayable_deposits() {
    let mut escrow = Escrow::new(key(PROGRAM));
    let mut ctx = make_ctx(300);
    ctx.maker.lamports = 3_499;
    assert_eq!(make_offer(&mut escrow, &mut ctx, 1, 100, 50), Err(ErrorCode::InsufficientDepositFunds));
    assert!(escrow.offer(1).is_none());
}

#[test]
fn make_offer_rejects_duplicate_id() {
    let mut escrow = Escrow::new(key(PROGRAM));
    let mut ctx = make_ctx(300);
    assert_eq!(make_offer(&mut escrow, &mut ctx, 1, 100, 50), Ok(()));
    assert_eq!(make_offer(&mut escrow, &mut ctx, 1, 10, 5), Err(ErrorCode::OfferAlreadyExists));
    assert_eq!(escrow.offer(1).unwrap().vault.amount, 100);
    assert_eq!(ctx.maker_token_account_a.amount, 200);
    assert_eq!(make_offer(&mut escrow, &mut ctx, 2, 10, 5), Ok(()));
    assert_eq!(ctx.maker_token_account_a.amount, 190);
}

#[test]
fn take_offer_settles_both_legs() {
    let mut escrow = Escrow::new(key(PROGRAM));
    let mut mk = make_ctx(300);
    assert_eq!(make_offer(&mut escrow, &mut mk, 1, 100, 50), Ok(()));
    let mut tk = take_ctx(80);
    assert_eq!(take_offer(&mut escrow, &mut tk, 1), Ok(()));
    assert!(escrow.offer(1).is_none());
    assert_eq!(tk.taker_token_account_a.amount, 100);
    assert_eq!(tk.taker_token_account_b.amount, 30);
    assert_eq!(tk.maker_token_account_b.amount, 57);
    assert_eq!(tk.maker.lamports, 996_500 + 1_500);
    assert_eq!(tk.taker.lamports, 500_000 + 2_000);
}

#[test]
fn take_offer_rejects_short_taker_balance() {
    let mut escrow = Escrow::new(key(PROGRAM));
    let mut mk = make_ctx(300);
    assert_eq!(make_offer(&mut escrow, &mut mk, 1, 100, 50), Ok(()));
    let mut tk = take_ctx(49);
    assert_eq!(take_offer(&mut escrow, &mut tk, 1), Err(ErrorCode::InsufficientTakerBalance));
    let open = escrow.offer(1).unwrap();
    assert_eq!(open.vault.amount, 100);
    assert_eq!(tk.taker_token_account_a.amount, 0);
    assert_eq!(tk.taker_token_account_b.amount, 49);
    assert_eq!(tk.maker_token_account_b.amount, 7);
    assert_eq!(tk.taker.lamports, 500_000);
    assert_eq!(tk.maker.lamports, 996_500);
}

#[test]
fn take_offer_rejects_wrong_maker() {
    let mut escrow = Escrow::new(key(PROGRAM));
    let mut mk = make_ctx(300);
    assert_eq!(make_offer(&mut escrow, &mut mk, 1, 100, 50), Ok(()));
    let mut tk = take_ctx(80);
    tk.maker.key = key(3);
    tk.maker_token_account_b.owner = key(3);
    assert_eq!(take_offer(&mut escrow, &mut tk, 1), Err(ErrorCode::AccountMismatch));
    assert!(escrow.offer(1).is_some());
}

#[test]
fn take_offer_rejects_vault_withdrawal_overflow() {
    let mut escrow = Escrow::new(key(PROGRAM));
    let mut mk = make_ctx(300);
    assert_eq!(make_offer(&mut escrow, &mut mk, 1, 100, 50), Ok(()));
    let mut tk = take_ctx(80);
    tk.taker_token_account_a.amount = u64::MAX - 99;
    assert_eq!(take_offer(&mut escrow, &mut tk, 1), Err(ErrorCode::FailedVaultWithdrawal));
    assert_eq!(tk.taker_token_account_a.amount, u64::MAX - 99);
}

#[test]
fn take_offer_rejects_vault_closure_overflow() {
    let mut escrow = Escrow::new(key(PROGRAM));
    let mut mk = make_ctx(300);
    assert_eq!(make_offer(&mut escrow, &mut mk, 1, 100, 50), Ok(()));
    let mut tk = take_ctx(80);
    tk.taker.lamports = u64::MAX - 1_999;
    assert_eq!(take_offer(&mut escrow, &mut tk, 1), Err(ErrorCode::FailedVaultClosure));
    assert_eq!(tk.taker_token_account_a.amount, 0);
}

#[test]
fn take_offer_rejects_record_refund_overflow() {
    let mut escrow = Escrow::new(key(PROGRAM));
    let mut mk = make_ctx(300);
    assert_eq!(make_offer(&mut escrow, &mut mk, 1, 100, 50), Ok(()));
    let mut tk = take_ctx(80);
    tk.maker.lamports = u64::MAX - 1_499;
    assert_eq!(take_offer(&mut escrow, &mut tk, 1), Err(ErrorCode::LamportOverflow));
    assert_eq!(tk.taker_token_account_b.amount, 80);
    assert!(escrow.offer(1).is_some());
}

#[test]
fn second_take_finds_no_offer() {
    let mut escrow = Escrow::new(key(PROGRAM));
    let mut mk = make_ctx(300);
    assert_eq!(make_offer(&mut escrow, &mut mk, 1, 100, 50), Ok(()));
    let mut first = take_ctx(80);
    let mut second = take_ctx(80);
    assert_eq!(take_offer(&mut escrow, &mut first, 1), Ok(()));
    assert_eq!(take_offer(&mut escrow, &mut second, 1), Err(ErrorCode::OfferNotFound));
    assert_eq!(second.taker_token_account_b.amount, 80);
}

#[test]
fn make_then_take_conserves_supply() {
    let mut escrow = Escrow::new(key(PROGRAM));
    let mut mk = make_ctx(300);
    let mut tk = take_ctx(80);
    let a_before = mk.maker_token_account_a.amount + tk.taker_token_account_a.amount;
    let b_before = tk.taker_token_account_b.amount + tk.maker_token_account_b.amount;
    assert_eq!(make_offer(&mut escrow, &mut mk, 1, 100, 50), Ok(()));
    let vault = escrow.offer(1).unwrap().vault.amount;
    assert_eq!(mk.maker_token_account_a.amount + vault + tk.taker_token_account_a.amount, a_before);
    assert_eq!(take_offer(&mut escrow, &mut tk, 1), Ok(()));
    assert_eq!(mk.maker_token_account_a.amount + tk.taker_token_account_a.amount, a_before);
    assert_eq!(tk.taker_token_account_b.amount + tk.maker_token_account_b.amount, b_before);
}

#[test]
fn transfer_tokens_moves_exact_amount() {
    let program = key(PROGRAM);
    let mut from = account(MINT_A, MAKER, 10);
    let mut to = account(MINT_A, TAKER, 5);
    assert_eq!(transfer_tokens(&mut from, &mut to, 4, &key(MINT_A), &Authority::Signer(key(MAKER)), &program), Ok(()));
    assert_eq!((from.amount, to.amount), (6, 9));
    assert_eq!(
        transfer_tokens(&mut from, &mut to, 7, &key(MINT_A), &Authority::Signer(key(MAKER)), &program),
        Err(TokenError::InsufficientFunds)
    );
    assert_eq!(
        transfer_tokens(&mut from, &mut to, 1, &key(MINT_A), &Authority::Signer(key(TAKER)), &program),
        Err(TokenError::OwnerMismatch)
    );
    assert_eq!(
        transfer_tokens(&mut from, &mut to, 1, &key(MINT_B), &Authority::Signer(key(MAKER)), &program),
        Err(TokenError::MintMismatch)
    );
    to.amount = u64::MAX;
    assert_eq!(
        transfer_tokens(&mut from, &mut to, 1, &key(MINT_A), &Authority::Signer(key(MAKER)), &program),
        Err(TokenError::Overflow)
    );
    assert_eq!((from.amount, to.amount), (6, u64::MAX));
}

#[test]
fn derived_authority_acts_for_its_address_only() {
    let program = key(PROGRAM);
    let program_id = Pubkey::new_from_array([PROGRAM; 32]);
    let (address, bump) = Pubkey::find_program_address(&[b"offer", &3u64.to_le_bytes()], &program_id);
    let authority = Authority::Derived(offer_signer_seeds_of(3, bump));
    let owner = Key::new(address.to_bytes());
    assert!(verify_authority(&authority, &owner, &program));
    assert!(!verify_authority(&authority, &key(MAKER), &program));
    let mut vault = TokenAccount { mint: key(MINT_A), owner, amount: 10, lamports: 2_000 };
    let mut dest = account(MINT_A, TAKER, 0);
    assert_eq!(transfer_tokens(&mut vault, &mut dest, 10, &key(MINT_A), &authority, &program), Ok(()));
    let mut taker = Wallet { key: key(TAKER), lamports: 1 };
    assert_eq!(close_token_account(&vault, &mut taker, &authority, &program), Ok(()));
    assert_eq!(taker.lamports, 2_001);
}

#[test]
fn close_token_account_refuses_non_empty_or_foreign() {
    let program = key(PROGRAM);
    let acct = account(MINT_A, MAKER, 1);
    let mut dest = Wallet { key: key(TAKER), lamports: 5 };
    assert_eq!(
        close_token_account(&acct, &mut dest, &Authority::Signer(key(MAKER)), &program),
        Err(TokenError::NonZeroBalance)
    );
    let empty = account(MINT_A, MAKER, 0);
    assert_eq!(
        close_token_account(&empty, &mut dest, &Authority::Signer(key(TAKER)), &program),
        Err(TokenError::OwnerMismatch)
    );
    assert_eq!(dest.lamports, 5);
    assert_eq!(close_token_account(&empty, &mut dest, &Authority::Signer(key(MAKER)), &program), Ok(()));
    assert_eq!(dest.lamports, 2_005);
}

#[test]
fn load_offer_accepts_only_well_formed_records() {
    let mut source = Escrow::new(key(PROGRAM));
    let mut ctx = make_ctx(300);
    assert_eq!(make_offer(&mut source, &mut ctx, 4, 100, 50), Ok(()));
    let open = source.offer(4).unwrap();

    let mut escrow = Escrow::new(key(PROGRAM));
    let mut forged = open;
    forged.address = key(MAKER);
    forged.vault.owner = key(MAKER);
    assert!(!escrow.load_offer(forged));
    let mut empty = open;
    empty.vault.amount = 0;
    assert!(!escrow.load_offer(empty));
    assert!(escrow.offer(4).is_none());
    assert!(escrow.load_offer(open));
    assert!(!escrow.load_offer(open));
    assert_eq!(escrow.offer(4).unwrap().vault.amount, 100);
}
