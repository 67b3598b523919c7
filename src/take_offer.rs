use crate::error::ErrorCode;
use crate::key::Key;
use crate::shared::{close_token_account, transfer_tokens, with_amount, Authority, TokenAccount, Wallet};
use crate::state::{offer_signer_seeds_of, Escrow, EscrowView, OpenOffer};
use vstd::prelude::*;

verus! {

/// The accounts a taker supplies to settle an offer.
#[derive(Clone, Copy, Debug)]
pub struct TakeOffer {
    pub taker: Wallet,
    pub maker: Wallet,
    pub token_mint_a: Key,
    pub token_mint_b: Key,
    pub taker_token_account_a: TokenAccount,
    pub taker_token_account_b: TokenAccount,
    pub maker_token_account_b: TokenAccount,
}

/// Whether the supplied accounts are the ones that open offer `o` binds: its
/// maker and assets, and holding accounts of the right asset and owner.
pub open spec fn accounts_match(o: OpenOffer, c: TakeOffer) -> bool {
    &&& o.offer.maker == c.maker.key
    &&& o.offer.token_mint_a == c.token_mint_a
    &&& o.offer.token_mint_b == c.token_mint_b
    &&& c.taker_token_account_a.mint == c.token_mint_a
    &&& c.taker_token_account_a.owner == c.taker.key
    &&& c.taker_token_account_b.mint == c.token_mint_b
    &&& c.taker_token_account_b.owner == c.taker.key
    &&& c.maker_token_account_b.mint == c.token_mint_b
    &&& c.maker_token_account_b.owner == c.maker.key
}

/// The refusal, if any, of `take_offer(id)` with accounts `c` on state `e`.
pub open spec fn take_offer_error(e: EscrowView, c: TakeOffer, id: u64) -> Option<ErrorCode> {
    if !e.offers.contains_key(id) {
        Some(ErrorCode::OfferNotFound)
    } else {
        let o = e.offers[id];
        if !accounts_match(o, c) {
            Some(ErrorCode::AccountMismatch)
        } else if c.taker_token_account_a.amount + o.vault.amount > u64::MAX {
            Some(ErrorCode::FailedVaultWithdrawal)
        } else if c.taker.lamports + o.vault.lamports > u64::MAX {
            Some(ErrorCode::FailedVaultClosure)
        } else if c.taker_token_account_b.amount < o.offer.token_b_wanted_amount
            || c.maker_token_account_b.amount + o.offer.token_b_wanted_amount > u64::MAX {
            Some(ErrorCode::InsufficientTakerBalance)
        } else if c.maker.lamports + o.lamports > u64::MAX {
            Some(ErrorCode::LamportOverflow)
        } else {
            None
        }
    }
}

/// The state after offer `id` was settled: the offer and its vault are gone.
pub open spec fn settled_escrow(e: EscrowView, id: u64) -> EscrowView {
    EscrowView { program_id: e.program_id, offers: e.offers.remove(id) }
}

/// The accounts after open offer `o` was settled with accounts `c`: the
/// taker received the vault's content and its deposit and paid the wanted
/// amount to the maker, who received the record's deposit.
pub open spec fn settled_accounts(o: OpenOffer, c: TakeOffer) -> TakeOffer {
    let wanted = o.offer.token_b_wanted_amount;
    TakeOffer {
        taker: Wallet { key: c.taker.key, lamports: (c.taker.lamports + o.vault.lamports) as u64 },
        maker: Wallet { key: c.maker.key, lamports: (c.maker.lamports + o.lamports) as u64 },
        taker_token_account_a: with_amount(c.taker_token_account_a, c.taker_token_account_a.amount + o.vault.amount),
        taker_token_account_b: with_amount(c.taker_token_account_b, c.taker_token_account_b.amount - wanted),
        maker_token_account_b: with_amount(c.maker_token_account_b, c.maker_token_account_b.amount + wanted),
        ..c
    }
}

/// Settles offer `id`: the vault's asset A goes to the taker, the vault is
/// closed with its deposit refunded to the taker, the wanted amount of asset
/// B goes from the taker to the maker, and the record is deleted with its
/// deposit refunded to the maker. On refusal nothing changes.
pub fn take_offer(escrow: &mut Escrow, ctx: &mut TakeOffer, id: u64) -> (r: Result<(), ErrorCode>)
    requires
        old(escrow)@.wf(),
    ensures
        final(escrow)@.wf(),
        match take_offer_error(old(escrow)@, *old(ctx), id) {
            Some(err) => {
                &&& r == Err::<(), ErrorCode>(err)
                &&& final(escrow)@ == old(escrow)@
                &&& *final(ctx) == *old(ctx)
            },
            None => {
                &&& r is Ok
                &&& final(escrow)@ == settled_escrow(old(escrow)@, id)
                &&& *final(ctx) == settled_accounts(old(escrow)@.offers[id], *old(ctx))
            },
        },
        r is Ok ==> {
            let o = old(escrow)@.offers[id];
            &&& !final(escrow)@.offers.contains_key(id)
            &&& final(ctx).taker_token_account_a.amount == old(ctx).taker_token_account_a.amount + o.vault.amount
            &&& final(ctx).maker_token_account_b.amount == old(ctx).maker_token_account_b.amount
                + o.offer.token_b_wanted_amount
            &&& final(ctx).taker_token_account_b.amount == old(ctx).taker_token_account_b.amount
                - o.offer.token_b_wanted_amount
            &&& final(ctx).maker.lamports == old(ctx).maker.lamports + o.lamports
            &&& final(ctx).taker.lamports == old(ctx).taker.lamports + o.vault.lamports
        },
        ({
            let o = old(escrow)@.offers[id];
            &&& old(escrow)@.offers.contains_key(id)
            &&& accounts_match(o, *old(ctx))
            &&& old(ctx).taker_token_account_a.amount + o.vault.amount <= u64::MAX
            &&& old(ctx).taker.lamports + o.vault.lamports <= u64::MAX
            &&& old(ctx).taker_token_account_b.amount < o.offer.token_b_wanted_amount
        }) ==> {
            &&& r == Err::<(), ErrorCode>(ErrorCode::InsufficientTakerBalance)
            &&& final(escrow)@ == old(escrow)@
            &&& *final(ctx) == *old(ctx)
        },
{
    broadcast use vstd::std_specs::hash::group_hash_axioms;

    let o = match escrow.offers.get(&id) {
        Some(o) => *o,
        None => return Err(ErrorCode::OfferNotFound),
    };
    assert(o == old(escrow)@.offers[id]);
    if !o.offer.maker.same_as(&ctx.maker.key) || !o.offer.token_mint_a.same_as(&ctx.token_mint_a)
        || !o.offer.token_mint_b.same_as(&ctx.token_mint_b)
        || !ctx.taker_token_account_a.mint.same_as(&ctx.token_mint_a)
        || !ctx.taker_token_account_a.owner.same_as(&ctx.taker.key)
        || !ctx.taker_token_account_b.mint.same_as(&ctx.token_mint_b)
        || !ctx.taker_token_account_b.owner.same_as(&ctx.taker.key)
        || !ctx.maker_token_account_b.mint.same_as(&ctx.token_mint_b)
        || !ctx.maker_token_account_b.owner.same_as(&ctx.maker.key) {
        return Err(ErrorCode::AccountMismatch);
    }
    let offer_authority = Authority::Derived(offer_signer_seeds_of(id, o.offer.bump));
    let mut vault = o.vault;
    let mut taker_a = ctx.taker_token_account_a;
    match transfer_tokens(&mut vault, &mut taker_a, o.vault.amount, &ctx.token_mint_a, &offer_authority, &escrow.program_id) {
        Ok(()) => {},
        Err(_) => return Err(ErrorCode::FailedVaultWithdrawal),
    }
    let mut taker = ctx.taker;
    match close_token_account(&vault, &mut taker, &offer_authority, &escrow.program_id) {
        Ok(()) => {},
        Err(_) => return Err(ErrorCode::FailedVaultClosure),
    }
    let mut taker_b = ctx.taker_token_account_b;
    let mut maker_b = ctx.maker_token_account_b;
    let taker_authority = Authority::Signer(ctx.taker.key);
    match transfer_tokens(
        &mut taker_b,
        &mut maker_b,
        o.offer.token_b_wanted_amount,
        &ctx.token_mint_b,
        &taker_authority,
        &escrow.program_id,
    ) {
        Ok(()) => {},
        Err(_) => return Err(ErrorCode::InsufficientTakerBalance),
    }
    if ctx.maker.lamports > u64::MAX - o.lamports {
        return Err(ErrorCode::LamportOverflow);
    }
    escrow.offers.remove(&id);
    ctx.taker = taker;
    ctx.maker.lamports = ctx.maker.lamports + o.lamports;
    ctx.taker_token_account_a = taker_a;
    ctx.taker_token_account_b = taker_b;
    ctx.maker_token_account_b = maker_b;
    assert(escrow@.offers =~= old(escrow)@.offers.remove(id));
    Ok(())
}

} // verus!
