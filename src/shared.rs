use anchor_lang::prelude::Pubkey;
use crate::key::Key;
use vstd::prelude::*;

verus! {

/// A holding account of one asset type: its asset, its owner, its asset
/// balance and the storage deposit (in lamports) that closing it refunds.
#[derive(Clone, Copy, Debug)]
pub struct TokenAccount {
    pub mint: Key,
    pub owner: Key,
    pub amount: u64,
    pub lamports: u64,
}

/// A system account: an identity and its lamport balance.
#[derive(Clone, Copy, Debug)]
pub struct Wallet {
    pub key: Key,
    pub lamports: u64,
}

/// How a movement out of a holding account is authorised: by the signature
/// of a keyed identity, or on behalf of a program-derived address given by
/// its seeds (bump seed included).
#[derive(Debug)]
pub enum Authority {
    Signer(Key),
    Derived(Vec<Vec<u8>>),
}

/// Why the asset-transfer subsystem refused a transfer or a closure.
#[derive(Clone, Copy, Debug, PartialEq, Eq, Structural)]
pub enum TokenError {
    /// An account holds another asset than the one described.
    MintMismatch,
    /// The authority presented is not the source account's owner.
    OwnerMismatch,
    /// The source balance is below the amount.
    InsufficientFunds,
    /// A balance would exceed the largest representable value.
    Overflow,
    /// A holding account to close still holds assets.
    NonZeroBalance,
}

/// The address that `create_program_address` derives from `seeds` under
/// `program_id`, or `None` where the seeds are refused or the hash lies on
/// the curve.
pub uninterp spec fn program_address_of(seeds: Seq<Seq<u8>>, program_id: Seq<u8>) -> Option<Seq<u8>>;

/// The address and bump seed that `try_find_program_address` finds for
/// `seeds` under `program_id`.
pub uninterp spec fn found_program_address_of(seeds: Seq<Seq<u8>>, program_id: Seq<u8>) -> Option<(Seq<u8>, u8)>;

pub open spec fn seeds_view(seeds: Seq<Vec<u8>>) -> Seq<Seq<u8>> {
    seeds.map_values(|s: Vec<u8>| s@)
}

/// Relies on `Pubkey::create_program_address`: the derived address is a
/// function of the seeds and the program id alone.
#[verifier::external_body]
fn create_program_address(seeds: &Vec<Vec<u8>>, program_id: &Key) -> (r: Option<Key>)
    ensures
        match r {
            Some(k) => program_address_of(seeds_view(seeds@), program_id@) == Some(k@),
            None => program_address_of(seeds_view(seeds@), program_id@) is None,
        },
{
    let slices: Vec<&[u8]> = seeds.iter().map(|s| s.as_slice()).collect();
    Pubkey::create_program_address(&slices, &Pubkey::new_from_array(program_id.bytes))
        .ok()
        .map(|p| Key::new(p.to_bytes()))
}

/// Relies on `Pubkey::try_find_program_address`: the result is a function of
/// the seeds and the program id, and a found address is the one that
/// `create_program_address` derives from the seeds followed by the bump seed.
#[verifier::external_body]
pub(crate) fn find_program_address(seeds: &Vec<Vec<u8>>, program_id: &Key) -> (r: Option<(Key, u8)>)
    ensures
        match r {
            Some((k, bump)) => {
                &&& found_program_address_of(seeds_view(seeds@), program_id@) == Some((k@, bump))
                &&& program_address_of(seeds_view(seeds@).push(seq![bump]), program_id@) == Some(k@)
            },
            None => found_program_address_of(seeds_view(seeds@), program_id@) is None,
        },
{
    let slices: Vec<&[u8]> = seeds.iter().map(|s| s.as_slice()).collect();
    Pubkey::try_find_program_address(&slices, &Pubkey::new_from_array(program_id.bytes))
        .map(|(p, bump)| (Key::new(p.to_bytes()), bump))
}

/// Whether `authority` may act for `owner` under `program_id`.
pub open spec fn authorizes(authority: Authority, owner: Key, program_id: Key) -> bool {
    match authority {
        Authority::Signer(k) => k == owner,
        Authority::Derived(seeds) => program_address_of(seeds_view(seeds@), program_id@) == Some(owner@),
    }
}

/// Checks that `authority` may act for `owner` under `program_id`.
pub fn verify_authority(authority: &Authority, owner: &Key, program_id: &Key) -> (r: bool)
    ensures
        r == authorizes(*authority, *owner, *program_id),
{
    match authority {
        Authority::Signer(k) => k.same_as(owner),
        Authority::Derived(seeds) => match create_program_address(seeds, program_id) {
            Some(address) => {
                let r = address.same_as(owner);
                proof {
                    if r != (address@ == owner@) {
                        assert(address.bytes =~= owner.bytes) by {
                            broadcast use vstd::array::group_array_axioms;
                        }
                    }
                }
                r
            },
            None => false,
        },
    }
}

/// The refusal, if any, of a transfer of `amount` of asset `mint` from `from`
/// to `to`, where `authorized` tells whether the authority presented may act
/// for `from`'s owner.
pub open spec fn transfer_error(
    from: TokenAccount,
    to: TokenAccount,
    amount: u64,
    mint: Key,
    authorized: bool,
) -> Option<TokenError> {
    if from.mint != mint || to.mint != mint {
        Some(TokenError::MintMismatch)
    } else if !authorized {
        Some(TokenError::OwnerMismatch)
    } else if from.amount < amount {
        Some(TokenError::InsufficientFunds)
    } else if to.amount + amount > u64::MAX {
        Some(TokenError::Overflow)
    } else {
        None
    }
}

/// `account` with its asset balance set to `amount`.
pub open spec fn with_amount(account: TokenAccount, amount: int) -> TokenAccount {
    TokenAccount { mint: account.mint, owner: account.owner, amount: amount as u64, lamports: account.lamports }
}

/// Moves exactly `amount` of asset `mint` from `from` to `to`, authorised by
/// `authority`; on refusal neither account changes.
pub fn transfer_tokens(
    from: &mut TokenAccount,
    to: &mut TokenAccount,
    amount: u64,
    mint: &Key,
    authority: &Authority,
    program_id: &Key,
) -> (r: Result<(), TokenError>)
    ensures
        match transfer_error(*old(from), *old(to), amount, *mint, authorizes(*authority, old(from).owner, *program_id)) {
            Some(e) => r == Err::<(), TokenError>(e) && *final(from) == *old(from) && *final(to) == *old(to),
            None => {
                &&& r is Ok
                &&& *final(from) == with_amount(*old(from), old(from).amount - amount)
                &&& *final(to) == with_amount(*old(to), old(to).amount + amount)
            },
        },
{
    if !from.mint.same_as(mint) || !to.mint.same_as(mint) {
        return Err(TokenError::MintMismatch);
    }
    if !verify_authority(authority, &from.owner, program_id) {
        return Err(TokenError::OwnerMismatch);
    }
    if from.amount < amount {
        return Err(TokenError::InsufficientFunds);
    }
    if to.amount > u64::MAX - amount {
        return Err(TokenError::Overflow);
    }
    from.amount = from.amount - amount;
    to.amount = to.amount + amount;
    Ok(())
}

/// The refusal, if any, of closing `account` with its deposit refunded to
/// `destination`, where `authorized` tells whether the authority presented
/// may act for the account's owner.
pub open spec fn close_error(account: TokenAccount, destination: Wallet, authorized: bool) -> Option<TokenError> {
    if !authorized {
        Some(TokenError::OwnerMismatch)
    } else if account.amount != 0 {
        Some(TokenError::NonZeroBalance)
    } else if destination.lamports + account.lamports > u64::MAX {
        Some(TokenError::Overflow)
    } else {
        None
    }
}

/// Closes the empty holding account `account`, authorised by `authority`,
/// and refunds its storage deposit to `destination`. The account ceases to
/// exist on success; the caller drops it.
pub fn close_token_account(
    account: &TokenAccount,
    destination: &mut Wallet,
    authority: &Authority,
    program_id: &Key,
) -> (r: Result<(), TokenError>)
    ensures
        match close_error(*account, *old(destination), authorizes(*authority, account.owner, *program_id)) {
            Some(e) => r == Err::<(), TokenError>(e) && *final(destination) == *old(destination),
            None => {
                &&& r is Ok
                &&& final(destination).key == old(destination).key
                &&& final(destination).lamports == old(destination).lamports + account.lamports
            },
        },
{
    if !verify_authority(authority, &account.owner, program_id) {
        return Err(TokenError::OwnerMismatch);
    }
    if account.amount != 0 {
        return Err(TokenError::NonZeroBalance);
    }
    if destination.lamports > u64::MAX - account.lamports {
        return Err(TokenError::Overflow);
    }
    destination.lamports = destination.lamports + account.lamports;
    Ok(())
}

} // verus!
