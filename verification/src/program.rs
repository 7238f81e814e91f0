use crate::address::{
    bank_address, commit_address, find_bank_address, find_commit_address, find_metadata_address,
    metadata_address,
};
use crate::error::CommitError;
use crate::ledger::{Ledger, LedgerView};
use crate::pubkey::Pubkey;
use crate::registry::{
    entry_view, metadata_creators, safe_deserialize, MetadataAccount, MetadataEntry, TokenAccount,
};
use crate::state::{Bank, CommitState, Record, Traits};
use crate::validate::{
    address_matches, address_view, check_context_validity, check_creator_validity,
    check_derived_address, context_valid, creator_valid, derived, derived_address,
};
use vstd::prelude::*;

verus! {

/// The service fee, in minimal value units, that the bank pays to the caller
/// who opens a record.
pub const SERVICE_FEE: u64 = 100_000_000;

/// The accounts named by a request to open the bank record.
#[derive(Clone, Copy, Debug, PartialEq, Eq)]
pub struct InitializeBank {
    /// The caller, who pays for the record's storage.
    pub user: Pubkey,
}

/// The accounts named by a request to open the record of a collectible.
#[derive(Clone, Debug, PartialEq, Eq)]
pub struct InitializeCommit {
    /// The identity of the collectible.
    pub nft_mint_account: Pubkey,
    /// The account in which the caller holds the collectible.
    pub nft_token_account: TokenAccount,
    /// The registry entry of the collectible.
    pub nft_metadata_account: MetadataAccount,
    /// The caller.
    pub user: Pubkey,
    /// The registry program under which the entry's address is derived.
    pub mpl_metadata_program: Pubkey,
}

/// The accounts named by a request to overwrite the record of a collectible.
#[derive(Clone, Copy, Debug, PartialEq, Eq)]
pub struct Commit {
    /// The caller.
    pub user: Pubkey,
    /// The identity of the collectible.
    pub nft_mint_account: Pubkey,
    /// The account in which the caller holds the collectible.
    pub nft_token_account: TokenAccount,
}

/// The address of the bank record of the ledger's program. It is arbitrary
/// where the program derives none.
pub open spec fn bank_of(ledger: LedgerView) -> Seq<u8> {
    derived(bank_address(ledger.program_id)).unwrap()
}

/// The address of the record of the collectible `mint` under the ledger's
/// program. It is arbitrary where the program derives none.
pub open spec fn commit_of(ledger: LedgerView, mint: Seq<u8>) -> Seq<u8> {
    derived(commit_address(ledger.program_id, mint)).unwrap()
}

/// Why a request to open the bank record at the address `bank` is rejected,
/// if it is: no address was derived, or it already holds a record.
pub open spec fn initialize_bank_error_at(ledger: LedgerView, bank: Option<Seq<u8>>) -> Option<
    CommitError,
> {
    match bank {
        None => Some(CommitError::InvalidSeeds),
        Some(bank) => if ledger.record(bank) is Empty {
            None
        } else {
            Some(CommitError::AlreadyExists)
        },
    }
}

/// The ledger after the bank record has been opened at the address `bank`.
pub open spec fn initialize_bank_effect_at(
    ledger: LedgerView,
    bank: Seq<u8>,
    bump: u8,
    creator_key: Pubkey,
) -> LedgerView {
    ledger.with_record(bank, Record::Bank(Bank { bump, creator_key }))
}

/// Why a request to open the record of a collectible is rejected, if it is,
/// given the address derived for its registry entry, the addresses derived
/// for the bank and for the record, and the decoded registry entry.
///
/// The checks are made in this order, and the first that fails decides: the
/// caller holds the collectible; the registry program is the trusted one and
/// the registry entry sits at its derived address; the bank record exists;
/// the entry's first creator is the bank's trusted creator; the bank holds
/// the fee; the collectible has no record yet.
pub open spec fn initialize_commit_error_at(
    ledger: LedgerView,
    ctx: InitializeCommit,
    metadata: Option<Seq<u8>>,
    bank: Option<Seq<u8>>,
    commit: Option<Seq<u8>>,
    entry: Option<Option<Seq<Seq<u8>>>>,
) -> Option<CommitError> {
    if !context_valid(ctx.user@, ctx.nft_mint_account@, ctx.nft_token_account) {
        Some(CommitError::AuthorizationFailure)
    } else if ctx.mpl_metadata_program@ != ledger.metadata_program {
        Some(CommitError::AuthorizationFailure)
    } else if !address_matches(metadata, ctx.nft_metadata_account.key@) {
        Some(CommitError::AuthorizationFailure)
    } else {
        match bank {
            None => Some(CommitError::InvalidSeeds),
            Some(bank) => match ledger.record(bank) {
                Record::Bank(trusted) => if !creator_valid(entry, trusted.creator_key@) {
                    Some(CommitError::AuthorizationFailure)
                } else if ledger.balance(bank) < SERVICE_FEE {
                    Some(CommitError::InsufficientFunds)
                } else {
                    match commit {
                        None => Some(CommitError::InvalidSeeds),
                        Some(commit) => if ledger.record(commit) is Empty {
                            None
                        } else {
                            Some(CommitError::AlreadyExists)
                        },
                    }
                },
                _ => Some(CommitError::NotFound),
            },
        }
    }
}

/// The ledger after the record of a collectible has been opened at the
/// address `commit`: the fee has moved from the bank to the caller, and the
/// record holds the bump seed and the trait slots.
pub open spec fn initialize_commit_effect_at(
    ledger: LedgerView,
    user: Seq<u8>,
    bank: Seq<u8>,
    commit: Seq<u8>,
    bump: u8,
    traits: Traits,
) -> LedgerView {
    ledger.transfer(bank, user, SERVICE_FEE as nat).with_record(
        commit,
        Record::Commit(CommitState::with(bump, traits)),
    )
}

/// Why a request to overwrite the record of a collectible at the address
/// `commit` is rejected, if it is: the caller does not hold the collectible,
/// no address was derived, or the address holds no record of a collectible.
pub open spec fn commit_story_error_at(
    ledger: LedgerView,
    ctx: Commit,
    commit: Option<Seq<u8>>,
) -> Option<CommitError> {
    if !context_valid(ctx.user@, ctx.nft_mint_account@, ctx.nft_token_account) {
        Some(CommitError::AuthorizationFailure)
    } else {
        match commit {
            None => Some(CommitError::InvalidSeeds),
            Some(commit) => match ledger.record(commit) {
                Record::Commit(_) => None,
                _ => Some(CommitError::NotFound),
            },
        }
    }
}

/// The ledger after the record at the address `commit` has been overwritten:
/// the trait slots are the new ones, the bump seed is kept.
pub open spec fn commit_story_effect_at(
    ledger: LedgerView,
    commit: Seq<u8>,
    traits: Traits,
) -> LedgerView {
    ledger.with_record(
        commit,
        Record::Commit(CommitState::with(ledger.record(commit)->Commit_0.bump, traits)),
    )
}

/// The record of a collectible at the address `commit`, if there is one.
pub open spec fn commit_record_at(ledger: LedgerView, commit: Option<Seq<u8>>) -> Option<
    CommitState,
> {
    match commit {
        None => None,
        Some(commit) => match ledger.record(commit) {
            Record::Commit(state) => Some(state),
            _ => None,
        },
    }
}

/// Why a request to open the bank record is rejected, if it is.
pub open spec fn initialize_bank_error(ledger: LedgerView) -> Option<CommitError> {
    initialize_bank_error_at(ledger, derived(bank_address(ledger.program_id)))
}

/// The ledger after the bank record has been opened.
pub open spec fn initialize_bank_effect(
    ledger: LedgerView,
    bump: u8,
    creator_key: Pubkey,
) -> LedgerView {
    initialize_bank_effect_at(ledger, bank_of(ledger), bump, creator_key)
}

/// Why a request to open the record of a collectible is rejected, if it is:
/// the verdict on the addresses that the program and the registry program
/// derive and on the entry that the registry's decoder reads.
pub open spec fn initialize_commit_error(ledger: LedgerView, ctx: InitializeCommit) -> Option<
    CommitError,
> {
    initialize_commit_error_at(
        ledger,
        ctx,
        derived(metadata_address(ctx.mpl_metadata_program@, ctx.nft_token_account.mint@)),
        derived(bank_address(ledger.program_id)),
        derived(commit_address(ledger.program_id, ctx.nft_mint_account@)),
        metadata_creators(ctx.nft_metadata_account.data@),
    )
}

/// The ledger after the record of a collectible has been opened.
pub open spec fn initialize_commit_effect(
    ledger: LedgerView,
    ctx: InitializeCommit,
    bump: u8,
    traits: Traits,
) -> LedgerView {
    initialize_commit_effect_at(
        ledger,
        ctx.user@,
        bank_of(ledger),
        commit_of(ledger, ctx.nft_mint_account@),
        bump,
        traits,
    )
}

/// Why a request to overwrite the record of a collectible is rejected, if it
/// is.
pub open spec fn commit_story_error(ledger: LedgerView, ctx: Commit) -> Option<CommitError> {
    commit_story_error_at(
        ledger,
        ctx,
        derived(commit_address(ledger.program_id, ctx.nft_mint_account@)),
    )
}

/// The ledger after the record of a collectible has been overwritten.
pub open spec fn commit_story_effect(ledger: LedgerView, ctx: Commit, traits: Traits) -> LedgerView {
    commit_story_effect_at(ledger, commit_of(ledger, ctx.nft_mint_account@), traits)
}

/// The record of the collectible `mint`, if it has one.
pub open spec fn commit_record(ledger: LedgerView, mint: Seq<u8>) -> Option<CommitState> {
    commit_record_at(ledger, derived(commit_address(ledger.program_id, mint)))
}

/// Opens the bank record at the address derived for it, with the bump seed
/// and the trusted creator given.
pub fn initialize_bank_at(
    ledger: &mut Ledger,
    ctx: &InitializeBank,
    bank_account: &Option<Pubkey>,
    bump: u8,
    creator_key: Pubkey,
) -> (done: Result<(), CommitError>)
    requires
        old(ledger).wf(),
    ensures
        final(ledger).wf(),
        final(ledger).supply() == old(ledger).supply(),
        match done {
            Ok(()) => {
                &&& initialize_bank_error_at(old(ledger)@, address_view(*bank_account)) is None
                &&& final(ledger)@ == initialize_bank_effect_at(
                    old(ledger)@,
                    address_view(*bank_account).unwrap(),
                    bump,
                    creator_key,
                )
            },
            Err(error) => {
                &&& initialize_bank_error_at(old(ledger)@, address_view(*bank_account)) == Some(
                    error,
                )
                &&& final(ledger)@ == old(ledger)@
            },
        },
{
    match bank_account {
        None => Err(CommitError::InvalidSeeds),
        Some(bank_account) => ledger.create(
            bank_account,
            Record::Bank(Bank { bump, creator_key }),
        ),
    }
}

/// Opens the bank record of the ledger's program, with the bump seed and the
/// trusted creator given. It can be opened once.
pub fn initialize_bank(
    ledger: &mut Ledger,
    ctx: &InitializeBank,
    bump: u8,
    creator_key: Pubkey,
) -> (done: Result<(), CommitError>)
    requires
        old(ledger).wf(),
    ensures
        final(ledger).wf(),
        final(ledger).supply() == old(ledger).supply(),
        match done {
            Ok(()) => {
                &&& initialize_bank_error(old(ledger)@) is None
                &&& final(ledger)@ == initialize_bank_effect(old(ledger)@, bump, creator_key)
            },
            Err(error) => {
                &&& initialize_bank_error(old(ledger)@) == Some(error)
                &&& final(ledger)@ == old(ledger)@
            },
        },
{
    let program_id = ledger.program_id();
    let bank_account = derived_address(find_bank_address(&program_id));
    initialize_bank_at(ledger, ctx, &bank_account, bump, creator_key)
}

/// Opens the record of a collectible for its holder and pays the holder the
/// service fee from the bank, given the address derived for the registry
/// entry, the addresses derived for the bank and for the record, and the
/// decoded registry entry.
pub fn initialize_commit_at(
    ledger: &mut Ledger,
    ctx: &InitializeCommit,
    metadata_address: &Option<Pubkey>,
    bank_account: &Option<Pubkey>,
    commit_account: &Option<Pubkey>,
    metadata: &Option<MetadataEntry>,
    bump: u8,
    background: u8,
    body: u8,
    clothes: u8,
    head: u8,
    insidehead: u8,
    eyes: u8,
    mouths: u8,
    hats: u8,
) -> (done: Result<(), CommitError>)
    requires
        old(ledger).wf(),
    ensures
        final(ledger).wf(),
        final(ledger).supply() == old(ledger).supply(),
        match done {
            Ok(()) => {
                &&& initialize_commit_error_at(
                    old(ledger)@,
                    *ctx,
                    address_view(*metadata_address),
                    address_view(*bank_account),
                    address_view(*commit_account),
                    entry_view(*metadata),
                ) is None
                &&& final(ledger)@ == initialize_commit_effect_at(
                    old(ledger)@,
                    ctx.user@,
                    address_view(*bank_account).unwrap(),
                    address_view(*commit_account).unwrap(),
                    bump,
                    (Traits { background, body, clothes, head, insidehead, eyes, mouths, hats }),
                )
            },
            Err(error) => {
                &&& initialize_commit_error_at(
                    old(ledger)@,
                    *ctx,
                    address_view(*metadata_address),
                    address_view(*bank_account),
                    address_view(*commit_account),
                    entry_view(*metadata),
                ) == Some(error)
                &&& final(ledger)@ == old(ledger)@
            },
        },
{
    let user = &ctx.user;
    let nft_mint_account = &ctx.nft_mint_account;
    let nft_token_account = &ctx.nft_token_account;
    let nft_metadata_account = &ctx.nft_metadata_account;
    let mpl_metadata_program = &ctx.mpl_metadata_program;

    if let Err(error) = check_context_validity(user, nft_mint_account, nft_token_account) {
        return Err(error);
    }
    if *mpl_metadata_program != ledger.metadata_program() {
        return Err(CommitError::AuthorizationFailure);
    }
    if let Err(error) = check_derived_address(metadata_address, &nft_metadata_account.key) {
        return Err(error);
    }
    let bank_account = match bank_account {
        Some(address) => address,
        None => {
            return Err(CommitError::InvalidSeeds);
        },
    };
    let bank = match ledger.record(bank_account) {
        Record::Bank(bank) => bank,
        _ => {
            return Err(CommitError::NotFound);
        },
    };
    if let Err(error) = check_creator_validity(metadata, &bank) {
        return Err(error);
    }
    if ledger.balance(bank_account) < SERVICE_FEE {
        return Err(CommitError::InsufficientFunds);
    }
    let commit_account = match commit_account {
        Some(address) => address,
        None => {
            return Err(CommitError::InvalidSeeds);
        },
    };
    match ledger.record(commit_account) {
        Record::Empty => {},
        _ => {
            return Err(CommitError::AlreadyExists);
        },
    }
    // Every check has passed: from here on nothing fails, so the fee and the
    // record appear together.
    let traits = Traits { background, body, clothes, head, insidehead, eyes, mouths, hats };
    if let Err(error) = ledger.transfer_lamports(bank_account, user, SERVICE_FEE) {
        return Err(error);
    }
    ledger.create(commit_account, Record::Commit(CommitState::new(bump, traits)))
}

/// Opens the record of a collectible for its holder and pays the holder the
/// service fee from the bank. A collectible's record can be opened once.
pub fn initialize_commit(
    ledger: &mut Ledger,
    ctx: &InitializeCommit,
    bump: u8,
    background: u8,
    body: u8,
    clothes: u8,
    head: u8,
    insidehead: u8,
    eyes: u8,
    mouths: u8,
    hats: u8,
) -> (done: Result<(), CommitError>)
    requires
        old(ledger).wf(),
    ensures
        final(ledger).wf(),
        final(ledger).supply() == old(ledger).supply(),
        match done {
            Ok(()) => {
                &&& initialize_commit_error(old(ledger)@, *ctx) is None
                &&& final(ledger)@ == initialize_commit_effect(
                    old(ledger)@,
                    *ctx,
                    bump,
                    (Traits { background, body, clothes, head, insidehead, eyes, mouths, hats }),
                )
            },
            Err(error) => {
                &&& initialize_commit_error(old(ledger)@, *ctx) == Some(error)
                &&& final(ledger)@ == old(ledger)@
            },
        },
{
    let program_id = ledger.program_id();
    let metadata_address = derived_address(
        find_metadata_address(&ctx.mpl_metadata_program, &ctx.nft_token_account.mint),
    );
    let bank_account = derived_address(find_bank_address(&program_id));
    let commit_account = derived_address(find_commit_address(&program_id, &ctx.nft_mint_account));
    let metadata = safe_deserialize(&ctx.nft_metadata_account.data);
    initialize_commit_at(
        ledger,
        ctx,
        &metadata_address,
        &bank_account,
        &commit_account,
        &metadata,
        bump,
        background,
        body,
        clothes,
        head,
        insidehead,
        eyes,
        mouths,
        hats,
    )
}

/// Overwrites the trait slots in the record of a collectible for its holder,
/// given the address derived for the record. The bump seed of the record is
/// kept, and no fee is paid.
pub fn commit_story_at(
    ledger: &mut Ledger,
    ctx: &Commit,
    commit_account: &Option<Pubkey>,
    background: u8,
    body: u8,
    clothes: u8,
    head: u8,
    insidehead: u8,
    eyes: u8,
    mouths: u8,
    hats: u8,
) -> (done: Result<(), CommitError>)
    requires
        old(ledger).wf(),
    ensures
        final(ledger).wf(),
        final(ledger).supply() == old(ledger).supply(),
        match done {
            Ok(()) => {
                &&& commit_story_error_at(old(ledger)@, *ctx, address_view(*commit_account))
                    is None
                &&& final(ledger)@ == commit_story_effect_at(
                    old(ledger)@,
                    address_view(*commit_account).unwrap(),
                    (Traits { background, body, clothes, head, insidehead, eyes, mouths, hats }),
                )
            },
            Err(error) => {
                &&& commit_story_error_at(old(ledger)@, *ctx, address_view(*commit_account))
                    == Some(error)
                &&& final(ledger)@ == old(ledger)@
            },
        },
{
    let user = &ctx.user;
    let nft_mint_account = &ctx.nft_mint_account;
    let nft_token_account = &ctx.nft_token_account;
    if let Err(error) = check_context_validity(user, nft_mint_account, nft_token_account) {
        return Err(error);
    }
    let commit_address = match commit_account {
        Some(address) => address,
        None => {
            return Err(CommitError::InvalidSeeds);
        },
    };
    match ledger.record(commit_address) {
        Record::Commit(_) => {},
        _ => {
            return Err(CommitError::NotFound);
        },
    }
    let commit_account = match ledger.open_for_write(commit_address) {
        Ok(record) => record,
        Err(error) => {
            return Err(error);
        },
    };
    if let Record::Commit(state) = commit_account {
        state.background = background;
        state.body = body;
        state.clothes = clothes;
        state.head = head;
        state.insidehead = insidehead;
        state.eyes = eyes;
        state.mouths = mouths;
        state.hats = hats;
    }
    Ok(())
}

/// Overwrites the trait slots in the record of a collectible for its holder.
/// The bump seed of the record is kept, and no fee is paid.
pub fn commit_story(
    ledger: &mut Ledger,
    ctx: &Commit,
    background: u8,
    body: u8,
    clothes: u8,
    head: u8,
    insidehead: u8,
    eyes: u8,
    mouths: u8,
    hats: u8,
) -> (done: Result<(), CommitError>)
    requires
        old(ledger).wf(),
    ensures
        final(ledger).wf(),
        final(ledger).supply() == old(ledger).supply(),
        match done {
            Ok(()) => {
                &&& commit_story_error(old(ledger)@, *ctx) is None
                &&& final(ledger)@ == commit_story_effect(
                    old(ledger)@,
                    *ctx,
                    (Traits { background, body, clothes, head, insidehead, eyes, mouths, hats }),
                )
            },
            Err(error) => {
                &&& commit_story_error(old(ledger)@, *ctx) == Some(error)
                &&& final(ledger)@ == old(ledger)@
            },
        },
{
    let program_id = ledger.program_id();
    let commit_account = derived_address(find_commit_address(&program_id, &ctx.nft_mint_account));
    commit_story_at(
        ledger,
        ctx,
        &commit_account,
        background,
        body,
        clothes,
        head,
        insidehead,
        eyes,
        mouths,
        hats,
    )
}

/// Reads the record of a collectible at the address derived for it, if
/// there is one.
pub fn read_commit_at(ledger: &Ledger, commit_account: &Option<Pubkey>) -> (found: Option<
    CommitState,
>)
    requires
        ledger.wf(),
    ensures
        found == commit_record_at(ledger@, address_view(*commit_account)),
{
    match commit_account {
        None => None,
        Some(commit_account) => match ledger.record(commit_account) {
            Record::Commit(state) => Some(state),
            _ => None,
        },
    }
}

/// Reads the record of the collectible `mint`, if it has one.
pub fn read_commit(ledger: &Ledger, mint: &Pubkey) -> (found: Option<CommitState>)
    requires
        ledger.wf(),
    ensures
        found == commit_record(ledger@, mint@),
{
    let program_id = ledger.program_id();
    let commit_account = derived_address(find_commit_address(&program_id, mint));
    read_commit_at(ledger, &commit_account)
}

} // verus!
