use crate::error::ErrorCode;
use crate::make_offer::{make_offer_error, made_offer, MakeOffer};
use crate::state::EscrowView;
use crate::take_offer::{settled_accounts, settled_escrow, take_offer_error, TakeOffer};
use vstd::prelude::*;

verus! {

/// While offer `id` is open, a second `make_offer` with the same id is
/// refused, whatever its accounts and amounts; with valid amounts and two
/// distinct assets it is refused as a duplicate.
pub proof fn lemma_duplicate_id_refused(
    e: EscrowView,
    c: MakeOffer,
    id: u64,
    a: u64,
    b: u64,
    e1: EscrowView,
    c1: MakeOffer,
    c2: MakeOffer,
    a2: u64,
    b2: u64,
)
    requires
        make_offer_error(e, c, id, a, b) is None,
        made_offer(e, c, id, a, b, e1, c1),
    ensures
        make_offer_error(e1, c2, id, a2, b2) is Some,
        a2 > 0 && b2 > 0 && c2.token_mint_a != c2.token_mint_b ==> make_offer_error(e1, c2, id, a2, b2) == Some(
            ErrorCode::OfferAlreadyExists,
        ),
{
    assert(e1.offers.contains_key(id));
}

/// Of two settlements of offer `id`, once the first has succeeded the second
/// finds no offer, whatever accounts it supplies.
pub proof fn lemma_second_take_refused(e: EscrowView, c: TakeOffer, id: u64, c2: TakeOffer)
    requires
        take_offer_error(e, c, id) is None,
    ensures
        take_offer_error(settled_escrow(e, id), c2, id) == Some(ErrorCode::OfferNotFound),
{
}

/// Opening an offer and then settling it moves asset A from the maker's
/// account through the vault to the taker's, and asset B from the taker's
/// account to the maker's: the total of each asset over the accounts
/// involved is the same before, in between and after.
pub proof fn lemma_swap_conserves_supply(
    e: EscrowView,
    mk: MakeOffer,
    id: u64,
    a: u64,
    b: u64,
    e1: EscrowView,
    mk1: MakeOffer,
    tk: TakeOffer,
)
    requires
        make_offer_error(e, mk, id, a, b) is None,
        made_offer(e, mk, id, a, b, e1, mk1),
        take_offer_error(e1, tk, id) is None,
    ensures
        ({
            let vault = e1.offers[id].vault;
            let tk2 = settled_accounts(e1.offers[id], tk);
            &&& mk.maker_token_account_a.amount + tk.taker_token_account_a.amount
                == mk1.maker_token_account_a.amount + vault.amount + tk.taker_token_account_a.amount
            &&& mk.maker_token_account_a.amount + tk.taker_token_account_a.amount
                == mk1.maker_token_account_a.amount + tk2.taker_token_account_a.amount
            &&& tk.taker_token_account_b.amount + tk.maker_token_account_b.amount
                == tk2.taker_token_account_b.amount + tk2.maker_token_account_b.amount
            &&& !settled_escrow(e1, id).offers.contains_key(id)
        }),
{
    assert(e1.offers.contains_key(id));
}

} // verus!
