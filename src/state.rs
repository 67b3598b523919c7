use crate::key::Key;
use crate::shared::{program_address_of, seeds_view, verify_authority, Authority, TokenAccount};
use std::collections::HashMap;
use vstd::prelude::*;

verus! {

/// The persistent record of one pending trade.
#[derive(Clone, Copy, Debug)]
pub struct Offer {
    /// Chosen by the maker; unique among open offers.
    pub id: u64,
    /// Who created the offer.
    pub maker: Key,
    /// The asset the maker offers.
    pub token_mint_a: Key,
    /// The asset the maker wants.
    pub token_mint_b: Key,
    /// The exact amount of asset B that settles the offer.
    pub token_b_wanted_amount: u64,
    /// Bump seed that, after the offer's seeds, derives the offer's address.
    pub bump: u8,
}

/// An open offer as the ledger holds it: the record, its derived address,
/// the record's storage deposit, and the vault owned by that address.
#[derive(Clone, Copy, Debug)]
pub struct OpenOffer {
    pub offer: Offer,
    pub address: Key,
    pub lamports: u64,
    pub vault: TokenAccount,
}

/// The program's state on the ledger: its id, and the open offers by id. One
/// id derives one address, so the map stands for the ledger's refusal to
/// create two records at the same address.
pub struct Escrow {
    pub program_id: Key,
    pub offers: HashMap<u64, OpenOffer>,
}

pub struct EscrowView {
    pub program_id: Key,
    pub offers: Map<u64, OpenOffer>,
}

impl View for Escrow {
    type V = EscrowView;

    open spec fn view(&self) -> EscrowView {
        EscrowView { program_id: self.program_id, offers: self.offers@ }
    }
}

/// The tag that starts the seeds of every offer address.
pub open spec fn offer_tag() -> Seq<u8> {
    seq![111u8, 102u8, 102u8, 101u8, 114u8]
}

/// Byte `j` of `v` in little-endian order.
pub open spec fn le_byte(v: u64, j: int) -> u8 {
    ((v >> ((8 * j) as u64)) & 0xffu64) as u8
}

pub open spec fn le_bytes(v: u64) -> Seq<u8> {
    Seq::new(8, |j: int| le_byte(v, j))
}

/// The seeds, before the bump seed, of the address of offer `id`.
pub open spec fn offer_seeds(id: u64) -> Seq<Seq<u8>> {
    seq![offer_tag(), le_bytes(id)]
}

/// The seeds, bump seed included, that let the program act for offer `id`.
pub open spec fn offer_signer_seeds(id: u64, bump: u8) -> Seq<Seq<u8>> {
    offer_seeds(id).push(seq![bump])
}

/// What holds of an open offer stored under `id`.
pub open spec fn open_offer_wf(program_id: Key, id: u64, o: OpenOffer) -> bool {
    &&& o.offer.id == id
    &&& o.offer.token_mint_a != o.offer.token_mint_b
    &&& o.offer.token_b_wanted_amount > 0
    &&& o.vault.mint == o.offer.token_mint_a
    &&& o.vault.owner == o.address
    &&& o.vault.amount > 0
    &&& program_address_of(offer_signer_seeds(id, o.offer.bump), program_id@) == Some(o.address@)
}

impl EscrowView {
    pub open spec fn wf(self) -> bool {
        forall|id: u64| #[trigger] self.offers.contains_key(id) ==> open_offer_wf(self.program_id, id, self.offers[id])
    }
}

/// Builds the seeds of the address of offer `id`.
pub fn offer_seeds_of(id: u64) -> (r: Vec<Vec<u8>>)
    ensures
        seeds_view(r@) == offer_seeds(id),
{
    let tag: Vec<u8> = vec![111u8, 102u8, 102u8, 101u8, 114u8];
    let mut bytes: Vec<u8> = Vec::new();
    let mut i: u64 = 0;
    while i < 8
        invariant
            i <= 8,
            bytes@.len() == i,
            forall|j: int| 0 <= j < i ==> bytes@[j] == le_byte(id, j),
        decreases 8 - i,
    {
        bytes.push(((id >> (8 * i)) & 0xffu64) as u8);
        i = i + 1;
    }
    assert(bytes@ =~= le_bytes(id));
    let mut r: Vec<Vec<u8>> = Vec::new();
    r.push(tag);
    r.push(bytes);
    assert(seeds_view(r@) =~= offer_seeds(id));
    r
}

/// Builds the seeds, bump seed included, that let the program act for
/// offer `id`.
pub fn offer_signer_seeds_of(id: u64, bump: u8) -> (r: Vec<Vec<u8>>)
    ensures
        seeds_view(r@) == offer_signer_seeds(id, bump),
{
    let mut r = offer_seeds_of(id);
    let ghost prefix = r@;
    let b: Vec<u8> = vec![bump];
    assert(b@ =~= seq![bump]);
    r.push(b);
    assert(r@ == prefix.push(b));
    assert(seeds_view(prefix).len() == 2);
    assert(seeds_view(r@) =~= offer_signer_seeds(id, bump));
    r
}

impl Escrow {
    /// The state of a program with no open offer.
    pub fn new(program_id: Key) -> (r: Escrow)
        ensures
            r@.program_id == program_id,
            r@.offers == Map::<u64, OpenOffer>::empty(),
            r@.wf(),
    {
        Escrow { program_id, offers: HashMap::new() }
    }

    /// The open offer stored under `id`, if any.
    pub fn offer(&self, id: u64) -> (r: Option<OpenOffer>)
        ensures
            r == (if self@.offers.contains_key(id) { Some(self@.offers[id]) } else { None::<OpenOffer> }),
    {
        broadcast use vstd::std_specs::hash::group_hash_axioms;

        match self.offers.get(&id) {
            Some(o) => Some(*o),
            None => None,
        }
    }

    /// Adds an offer record read back from the ledger, if no open offer holds
    /// its id and it is well formed: distinct assets, a positive wanted
    /// amount, a funded vault of asset A owned by the record's address, and
    /// that address derived from the offer's seeds and bump seed.
    pub fn load_offer(&mut self, o: OpenOffer) -> (r: bool)
        requires
            old(self)@.wf(),
        ensures
            final(self)@.wf(),
            r == (!old(self)@.offers.contains_key(o.offer.id) && open_offer_wf(old(self)@.program_id, o.offer.id, o)),
            r ==> final(self)@ == (EscrowView {
                program_id: old(self)@.program_id,
                offers: old(self)@.offers.insert(o.offer.id, o),
            }),
            !r ==> final(self)@ == old(self)@,
    {
        broadcast use vstd::std_specs::hash::group_hash_axioms;

        let id = o.offer.id;
        if self.offers.contains_key(&id) {
            return false;
        }
        if o.offer.token_mint_a.same_as(&o.offer.token_mint_b) || o.offer.token_b_wanted_amount == 0
            || !o.vault.mint.same_as(&o.offer.token_mint_a) || !o.vault.owner.same_as(&o.address)
            || o.vault.amount == 0 {
            return false;
        }
        let authority = Authority::Derived(offer_signer_seeds_of(id, o.offer.bump));
        if !verify_authority(&authority, &o.address, &self.program_id) {
            return false;
        }
        self.offers.insert(id, o);
        true
    }
}

} // verus!
