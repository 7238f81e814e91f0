use crate::address::{find_metadata_address, metadata_address};
use crate::error::CommitError;
use crate::pubkey::Pubkey;
use crate::registry::{entry_view, MetadataAccount, MetadataEntry, TokenAccount};
use crate::state::Bank;
use vstd::prelude::*;

verus! {

/// The caller is the current holder of the collectible: the holding account
/// is owned by `user`, holds the collectible `mint`, and holds exactly one
/// unit of it.
pub open spec fn context_valid(user: Seq<u8>, mint: Seq<u8>, token: TokenAccount) -> bool {
    &&& token.owner@ == user
    &&& token.mint@ == mint
    &&& token.amount == 1
}

/// The registry entry handed in is the one that belongs to the collectible:
/// its address is the one derived for the collectible under the registry
/// program.
pub open spec fn metadata_valid(
    token: TokenAccount,
    metadata_key: Seq<u8>,
    metadata_program: Seq<u8>,
) -> bool {
    address_matches(derived(metadata_address(metadata_program, token.mint@)), metadata_key)
}

/// The address of a derivation, without its bump seed.
pub open spec fn derived(found: Option<(Seq<u8>, u8)>) -> Option<Seq<u8>> {
    match found {
        Some((address, _)) => Some(address),
        None => None,
    }
}

/// An address that may have been derived, as a mathematical value.
pub open spec fn address_view(address: Option<Pubkey>) -> Option<Seq<u8>> {
    match address {
        Some(address) => Some(address@),
        None => None,
    }
}

/// The derivation gave an address, and it is `key`.
pub open spec fn address_matches(derived: Option<Seq<u8>>, key: Seq<u8>) -> bool {
    derived == Some(key)
}

/// The decoded registry entry lists at least one creator, and the first one
/// listed is `creator_key`.
pub open spec fn creator_valid(entry: Option<Option<Seq<Seq<u8>>>>, creator_key: Seq<u8>) -> bool {
    entry matches Some(Some(creators)) && creators.len() > 0 && creators[0] == creator_key
}

/// Checks that `user` holds exactly one unit of the collectible
/// `nft_mint_account` in `nft_token_account`.
pub fn check_context_validity(
    user: &Pubkey,
    nft_mint_account: &Pubkey,
    nft_token_account: &TokenAccount,
) -> (checked: Result<(), CommitError>)
    ensures
        checked is Ok <==> context_valid(user@, nft_mint_account@, *nft_token_account),
        checked is Err ==> checked == Err::<(), CommitError>(CommitError::AuthorizationFailure),
{
    if nft_token_account.owner != *user {
        return Err(CommitError::AuthorizationFailure);
    }
    if nft_token_account.mint != *nft_mint_account {
        return Err(CommitError::AuthorizationFailure);
    }
    if nft_token_account.amount != 1 {
        return Err(CommitError::AuthorizationFailure);
    }
    Ok(())
}

/// Drops the bump seed of a derivation.
pub fn derived_address(found: Option<(Pubkey, u8)>) -> (address: Option<Pubkey>)
    ensures
        address_view(address) == derived(
            match found {
                Some((address, bump)) => Some((address@, bump)),
                None => None,
            },
        ),
{
    match found {
        Some((address, _)) => Some(address),
        None => None,
    }
}

/// Checks that the address that was derived for an account is the address
/// of the account handed in. A derivation that gave no address fails the
/// check.
pub fn check_derived_address(derived: &Option<Pubkey>, account: &Pubkey) -> (checked: Result<
    (),
    CommitError,
>)
    ensures
        checked is Ok <==> address_matches(address_view(*derived), account@),
        checked is Err ==> checked == Err::<(), CommitError>(CommitError::AuthorizationFailure),
{
    match derived {
        Some(address) => {
            if *address == *account {
                Ok(())
            } else {
                Err(CommitError::AuthorizationFailure)
            }
        },
        None => Err(CommitError::AuthorizationFailure),
    }
}

/// Checks that `nft_metadata_account` sits at the address derived for the
/// collectible of `nft_token_account` under the registry program
/// `mpl_metadata_program`.
pub fn check_metadata_validity(
    nft_token_account: &TokenAccount,
    nft_metadata_account: &MetadataAccount,
    mpl_metadata_program: &Pubkey,
) -> (checked: Result<(), CommitError>)
    ensures
        checked is Ok <==> metadata_valid(
            *nft_token_account,
            nft_metadata_account.key@,
            mpl_metadata_program@,
        ),
        checked is Err ==> checked == Err::<(), CommitError>(CommitError::AuthorizationFailure),
{
    let metadata_key = derived_address(
        find_metadata_address(mpl_metadata_program, &nft_token_account.mint),
    );
    check_derived_address(&metadata_key, &nft_metadata_account.key)
}

/// Checks that the first creator listed in the decoded registry entry is the
/// creator that `bank` trusts. An entry that could not be decoded, or that
/// lists no creator, fails the check.
pub fn check_creator_validity(entry: &Option<MetadataEntry>, bank: &Bank) -> (checked: Result<
    (),
    CommitError,
>)
    ensures
        checked is Ok <==> creator_valid(entry_view(*entry), bank.creator_key@),
        checked is Err ==> checked == Err::<(), CommitError>(CommitError::AuthorizationFailure),
{
    match entry {
        Some(metadata) => match &metadata.creators {
            Some(creators) => {
                if creators.len() > 0 && creators[0] == bank.creator_key {
                    Ok(())
                } else {
                    Err(CommitError::AuthorizationFailure)
                }
            },
            None => Err(CommitError::AuthorizationFailure),
        },
        None => Err(CommitError::AuthorizationFailure),
    }
}

} // verus!
