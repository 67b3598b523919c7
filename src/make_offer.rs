use crate::error::ErrorCode;
use crate::key::Key;
use crate::shared::{
    find_program_address, found_program_address_of, transfer_tokens, with_amount, Authority,
    TokenAccount, Wallet,
};
use crate::state::{offer_seeds, offer_seeds_of, Escrow, EscrowView, Offer, OpenOffer};
use vstd::prelude::*;

verus! {

/// The accounts a maker supplies to open an offer, with the storage deposits
/// that the ledger charges for the offer record and for its vault.
#[derive(Clone, Copy, Debug)]
pub struct MakeOffer {
    pub maker: Wallet,
    pub token_mint_a: Key,
    pub token_mint_b: Key,
    pub maker_token_account_a: TokenAccount,
    pub offer_deposit: u64,
    pub vault_deposit: u64,
}

/// The refusal, if any, of `make_offer(id, a, b)` with accounts `c` on state `e`.
pub open spec fn make_offer_error(e: EscrowView, c: MakeOffer, id: u64, a: u64, b: u64) -> Option<ErrorCode> {
    if a == 0 || b == 0 {
        Some(ErrorCode::InvalidAmount)
    } else if c.token_mint_a == c.token_mint_b {
        Some(ErrorCode::InvalidTokenMint)
    } else if e.offers.contains_key(id) {
        Some(ErrorCode::OfferAlreadyExists)
    } else if found_program_address_of(offer_seeds(id), e.program_id@) is None {
        Some(ErrorCode::AddressDerivationFailed)
    } else if c.maker.lamports < c.offer_deposit + c.vault_deposit {
        Some(ErrorCode::InsufficientDepositFunds)
    } else if c.maker_token_account_a.mint != c.token_mint_a || c.maker_token_account_a.owner != c.maker.key
        || c.maker_token_account_a.amount < a {
        Some(ErrorCode::InsufficientMakerBalance)
    } else {
        None
    }
}

/// `e2` and `c2` are the state and accounts after `make_offer(id, a, b)`
/// succeeded with accounts `c` on state `e`: a funded vault and a record
/// that holds the inputs are stored under `id`, and the maker paid the
/// offered amount and both deposits.
pub open spec fn made_offer(
    e: EscrowView,
    c: MakeOffer,
    id: u64,
    a: u64,
    b: u64,
    e2: EscrowView,
    c2: MakeOffer,
) -> bool {
    let (address, bump) = found_program_address_of(offer_seeds(id), e.program_id@).unwrap();
    let o = e2.offers[id];
    &&& e2.program_id == e.program_id
    &&& e2.offers == e.offers.insert(id, o)
    &&& o.offer == Offer {
        id,
        maker: c.maker.key,
        token_mint_a: c.token_mint_a,
        token_mint_b: c.token_mint_b,
        token_b_wanted_amount: b,
        bump,
    }
    &&& o.address@ == address
    &&& o.lamports == c.offer_deposit
    &&& o.vault == (TokenAccount { mint: c.token_mint_a, owner: o.address, amount: a, lamports: c.vault_deposit })
    &&& c2 == (MakeOffer {
        maker: Wallet { key: c.maker.key, lamports: (c.maker.lamports - c.offer_deposit - c.vault_deposit) as u64 },
        maker_token_account_a: with_amount(c.maker_token_account_a, c.maker_token_account_a.amount - a),
        ..c
    })
}

/// Opens offer `id`: moves `token_a_offered_amount` of asset A from the
/// maker's account into a new vault owned by the offer's derived address,
/// and stores the record of the trade. On refusal nothing changes.
pub fn make_offer(
    escrow: &mut Escrow,
    ctx: &mut MakeOffer,
    id: u64,
    token_a_offered_amount: u64,
    token_b_wanted_amount: u64,
) -> (r: Result<(), ErrorCode>)
    requires
        old(escrow)@.wf(),
    ensures
        final(escrow)@.wf(),
        match make_offer_error(old(escrow)@, *old(ctx), id, token_a_offered_amount, token_b_wanted_amount) {
            Some(err) => {
                &&& r == Err::<(), ErrorCode>(err)
                &&& final(escrow)@ == old(escrow)@
                &&& *final(ctx) == *old(ctx)
            },
            None => {
                &&& r is Ok
                &&& made_offer(old(escrow)@, *old(ctx), id, token_a_offered_amount, token_b_wanted_amount,
                    final(escrow)@, *final(ctx))
            },
        },
        r is Ok ==> {
            let o = final(escrow)@.offers[id];
            &&& final(escrow)@.offers.contains_key(id)
            &&& o.vault.amount == token_a_offered_amount
            &&& final(ctx).maker_token_account_a.amount == old(ctx).maker_token_account_a.amount
                - token_a_offered_amount
            &&& o.offer.id == id
            &&& o.offer.maker == old(ctx).maker.key
            &&& o.offer.token_mint_a == old(ctx).token_mint_a
            &&& o.offer.token_mint_b == old(ctx).token_mint_b
            &&& o.offer.token_b_wanted_amount == token_b_wanted_amount
        },
        token_a_offered_amount == 0 || token_b_wanted_amount == 0 ==> r == Err::<(), ErrorCode>(ErrorCode::InvalidAmount),
        token_a_offered_amount > 0 && token_b_wanted_amount > 0 && old(ctx).token_mint_a == old(ctx).token_mint_b
            ==> r == Err::<(), ErrorCode>(ErrorCode::InvalidTokenMint),
        old(ctx).maker_token_account_a.amount < token_a_offered_amount && make_offer_error(
            old(escrow)@, *old(ctx), id, token_a_offered_amount, token_b_wanted_amount,
        ) != Some(ErrorCode::InvalidAmount) && make_offer_error(
            old(escrow)@, *old(ctx), id, token_a_offered_amount, token_b_wanted_amount,
        ) != Some(ErrorCode::InvalidTokenMint) && !old(escrow)@.offers.contains_key(id)
            && found_program_address_of(offer_seeds(id), old(escrow)@.program_id@) is Some
            && old(ctx).maker.lamports >= old(ctx).offer_deposit + old(ctx).vault_deposit
            ==> r == Err::<(), ErrorCode>(ErrorCode::InsufficientMakerBalance),
{
    broadcast use vstd::std_specs::hash::group_hash_axioms;

    if token_a_offered_amount == 0 || token_b_wanted_amount == 0 {
        return Err(ErrorCode::InvalidAmount);
    }
    if ctx.token_mint_a.same_as(&ctx.token_mint_b) {
        return Err(ErrorCode::InvalidTokenMint);
    }
    if escrow.offers.contains_key(&id) {
        return Err(ErrorCode::OfferAlreadyExists);
    }
    let seeds = offer_seeds_of(id);
    let (address, bump) = match find_program_address(&seeds, &escrow.program_id) {
        Some(found) => found,
        None => return Err(ErrorCode::AddressDerivationFailed),
    };
    if ctx.maker.lamports < ctx.offer_deposit || ctx.maker.lamports - ctx.offer_deposit < ctx.vault_deposit {
        return Err(ErrorCode::InsufficientDepositFunds);
    }
    let mut vault = TokenAccount { mint: ctx.token_mint_a, owner: address, amount: 0, lamports: ctx.vault_deposit };
    let mut source = ctx.maker_token_account_a;
    let authority = Authority::Signer(ctx.maker.key);
    match transfer_tokens(&mut source, &mut vault, token_a_offered_amount, &ctx.token_mint_a, &authority, &escrow.program_id) {
        Ok(()) => {},
        Err(_) => return Err(ErrorCode::InsufficientMakerBalance),
    }
    let offer = Offer {
        id,
        maker: ctx.maker.key,
        token_mint_a: ctx.token_mint_a,
        token_mint_b: ctx.token_mint_b,
        token_b_wanted_amount,
        bump,
    };
    let open = OpenOffer { offer, address, lamports: ctx.offer_deposit, vault };
    escrow.offers.insert(id, open);
    assert(escrow@.offers[id] == open);
    assert(escrow@.offers == old(escrow)@.offers.insert(id, open));
    ctx.maker.lamports = ctx.maker.lamports - ctx.offer_deposit - ctx.vault_deposit;
    ctx.maker_token_account_a = source;
    Ok(())
}

} // verus!
