use crate::address::{bank_address, commit_address};
use crate::error::CommitError;
use crate::ledger::LedgerView;
use crate::program::{
    bank_of, commit_of, commit_record, commit_story_effect, commit_story_error,
    initialize_bank_effect, initialize_bank_error, initialize_commit_effect,
    initialize_commit_error, Commit, InitializeCommit, SERVICE_FEE,
};
use crate::pubkey::Pubkey;
use crate::registry::metadata_creators;
use crate::state::{CommitState, Record, Traits};
use crate::validate::{context_valid, creator_valid, metadata_valid};
use vstd::prelude::*;

verus! {

/// A request to open the record of a collectible is accepted exactly when the
/// caller holds one unit of the collectible, the registry entry is the
/// collectible's own and names the bank's trusted creator first, the bank
/// holds the fee, and the collectible has no record yet.
pub proof fn lemma_initialize_accepted(ledger: LedgerView, ctx: InitializeCommit)
    ensures
        initialize_commit_error(ledger, ctx) is None <==> {
            &&& context_valid(ctx.user@, ctx.nft_mint_account@, ctx.nft_token_account)
            &&& ctx.mpl_metadata_program@ == ledger.metadata_program
            &&& metadata_valid(
                ctx.nft_token_account,
                ctx.nft_metadata_account.key@,
                ctx.mpl_metadata_program@,
            )
            &&& bank_address(ledger.program_id) matches Some((bank, _))
            &&& ledger.record(bank) matches Record::Bank(trusted)
            &&& creator_valid(
                metadata_creators(ctx.nft_metadata_account.data@),
                trusted.creator_key@,
            )
            &&& ledger.balance(bank) >= SERVICE_FEE
            &&& commit_address(ledger.program_id, ctx.nft_mint_account@) matches Some((commit, _))
            &&& ledger.record(commit) is Empty
        },
{
}

/// Once the record of a collectible has been opened, no request to open the
/// record of the same collectible is accepted again, whoever makes it and
/// whatever it carries.
pub proof fn lemma_initialize_at_most_once(
    ledger: LedgerView,
    first: InitializeCommit,
    bump: u8,
    traits: Traits,
    second: InitializeCommit,
)
    requires
        initialize_commit_error(ledger, first) is None,
        second.nft_mint_account@ == first.nft_mint_account@,
    ensures
        initialize_commit_error(initialize_commit_effect(ledger, first, bump, traits), second)
            is Some,
{
}

/// Once the record of a collectible has been opened, a second request that
/// passes every check of the first, while the bank still holds the fee, is
/// rejected because the record already exists.
pub proof fn lemma_second_initialize_already_exists(
    ledger: LedgerView,
    first: InitializeCommit,
    bump: u8,
    traits: Traits,
    second: InitializeCommit,
)
    requires
        initialize_commit_error(ledger, first) is None,
        second.nft_mint_account@ == first.nft_mint_account@,
        context_valid(second.user@, second.nft_mint_account@, second.nft_token_account),
        second.mpl_metadata_program@ == ledger.metadata_program,
        metadata_valid(
            second.nft_token_account,
            second.nft_metadata_account.key@,
            second.mpl_metadata_program@,
        ),
        creator_valid(
            metadata_creators(second.nft_metadata_account.data@),
            ledger.record(bank_of(ledger))->Bank_0.creator_key@,
        ),
        initialize_commit_effect(ledger, first, bump, traits).balance(
            bank_of(ledger),
        ) >= SERVICE_FEE,
    ensures
        initialize_commit_error(initialize_commit_effect(ledger, first, bump, traits), second)
            == Some(CommitError::AlreadyExists),
{
}

/// The bank record can be opened once: after it has been opened, every
/// request to open it is rejected because it already exists.
pub proof fn lemma_bank_at_most_once(ledger: LedgerView, bump: u8, creator_key: Pubkey)
    requires
        initialize_bank_error(ledger) is None,
    ensures
        initialize_bank_error(initialize_bank_effect(ledger, bump, creator_key)) == Some(
            CommitError::AlreadyExists,
        ),
{
}

/// After the trait slots of a collectible have been overwritten, reading its
/// record gives exactly the slots that were written, with the bump seed that
/// the record had before.
pub proof fn lemma_commit_round_trip(ledger: LedgerView, ctx: Commit, traits: Traits)
    requires
        commit_story_error(ledger, ctx) is None,
    ensures
        commit_record(commit_story_effect(ledger, ctx, traits), ctx.nft_mint_account@) matches Some(
            state,
        ) && state.traits() == traits && state.bump == commit_record(
            ledger,
            ctx.nft_mint_account@,
        ).unwrap().bump,
{
}

/// After the record of a collectible has been opened, reading it gives
/// exactly the bump seed and the slots that it was opened with, and the
/// record can be overwritten by its holder.
pub proof fn lemma_initialize_round_trip(
    ledger: LedgerView,
    ctx: InitializeCommit,
    bump: u8,
    traits: Traits,
)
    requires
        initialize_commit_error(ledger, ctx) is None,
    ensures
        commit_record(
            initialize_commit_effect(ledger, ctx, bump, traits),
            ctx.nft_mint_account@,
        ) == Some(CommitState::with(bump, traits)),
        commit_story_error(
            initialize_commit_effect(ledger, ctx, bump, traits),
            (Commit {
                user: ctx.user,
                nft_mint_account: ctx.nft_mint_account,
                nft_token_account: ctx.nft_token_account,
            }),
        ) is None,
{
}

/// Overwriting the record of a collectible changes that record alone: every
/// balance, and the record at every other address, stays as it was.
pub proof fn lemma_commit_changes_one_record(
    ledger: LedgerView,
    ctx: Commit,
    traits: Traits,
    address: Seq<u8>,
)
    requires
        commit_story_error(ledger, ctx) is None,
    ensures
        commit_story_effect(ledger, ctx, traits).balance(address) == ledger.balance(address),
        address != commit_of(ledger, ctx.nft_mint_account@)
            ==> commit_story_effect(ledger, ctx, traits).record(address) == ledger.record(
            address,
        ),
{
}

/// A caller who is not the owner of the holding account is rejected with an
/// authorization failure, by both operations and in every state of the
/// ledger. Neither verdict depends on the trait slots handed in.
pub proof fn lemma_not_owner_rejected(ledger: LedgerView, opening: InitializeCommit, writing: Commit)
    requires
        opening.nft_token_account.owner@ != opening.user@,
        writing.nft_token_account.owner@ != writing.user@,
    ensures
        initialize_commit_error(ledger, opening) == Some(CommitError::AuthorizationFailure),
        commit_story_error(ledger, writing) == Some(CommitError::AuthorizationFailure),
{
}

/// A holding account that holds any number of units but one is rejected with
/// an authorization failure, by both operations and in every state of the
/// ledger.
pub proof fn lemma_not_single_unit_rejected(
    ledger: LedgerView,
    opening: InitializeCommit,
    writing: Commit,
)
    requires
        opening.nft_token_account.amount != 1,
        writing.nft_token_account.amount != 1,
    ensures
        initialize_commit_error(ledger, opening) == Some(CommitError::AuthorizationFailure),
        commit_story_error(ledger, writing) == Some(CommitError::AuthorizationFailure),
{
}

/// A holding account of another collectible than the one named is rejected
/// with an authorization failure, by both operations.
pub proof fn lemma_other_collectible_rejected(
    ledger: LedgerView,
    opening: InitializeCommit,
    writing: Commit,
)
    requires
        opening.nft_token_account.mint@ != opening.nft_mint_account@,
        writing.nft_token_account.mint@ != writing.nft_mint_account@,
    ensures
        initialize_commit_error(ledger, opening) == Some(CommitError::AuthorizationFailure),
        commit_story_error(ledger, writing) == Some(CommitError::AuthorizationFailure),
{
}

/// A registry entry that does not sit at the address derived for the
/// collectible is rejected with an authorization failure, whatever the entry
/// holds and whatever the state of the ledger.
pub proof fn lemma_forged_entry_rejected(ledger: LedgerView, ctx: InitializeCommit)
    requires
        !metadata_valid(
            ctx.nft_token_account,
            ctx.nft_metadata_account.key@,
            ctx.mpl_metadata_program@,
        ),
    ensures
        initialize_commit_error(ledger, ctx) == Some(CommitError::AuthorizationFailure),
{
}

/// A registry entry derived under another registry program than the trusted
/// one is rejected with an authorization failure.
pub proof fn lemma_untrusted_registry_rejected(ledger: LedgerView, ctx: InitializeCommit)
    requires
        ctx.mpl_metadata_program@ != ledger.metadata_program,
    ensures
        initialize_commit_error(ledger, ctx) == Some(CommitError::AuthorizationFailure),
{
}

/// Opening the record of a collectible takes exactly the fee from the bank,
/// gives exactly the fee to the caller, and creates the record, all at once;
/// every other balance stays as it was. Stated for a caller who is not the
/// bank itself.
pub proof fn lemma_fee_moves_with_record(
    ledger: LedgerView,
    ctx: InitializeCommit,
    bump: u8,
    traits: Traits,
    other: Seq<u8>,
)
    requires
        initialize_commit_error(ledger, ctx) is None,
        ctx.user@ != bank_of(ledger),
        other != ctx.user@,
        other != bank_of(ledger),
    ensures
        ({
            let after = initialize_commit_effect(ledger, ctx, bump, traits);
            let bank = bank_of(ledger);
            let commit = commit_of(ledger, ctx.nft_mint_account@);
            &&& after.balance(ctx.user@) == ledger.balance(ctx.user@) + SERVICE_FEE
            &&& after.balance(bank) == ledger.balance(bank) - SERVICE_FEE
            &&& after.balance(other) == ledger.balance(other)
            &&& ledger.record(commit) is Empty
            &&& after.record(commit) == Record::Commit(CommitState::with(bump, traits))
            &&& after.record(bank) == ledger.record(bank)
        }),
{
}

/// Where the caller is the bank itself, opening a record leaves every
/// balance as it was: the fee leaves and arrives at the same address.
pub proof fn lemma_fee_to_bank_itself(
    ledger: LedgerView,
    ctx: InitializeCommit,
    bump: u8,
    traits: Traits,
    address: Seq<u8>,
)
    requires
        initialize_commit_error(ledger, ctx) is None,
        ctx.user@ == bank_of(ledger),
    ensures
        initialize_commit_effect(ledger, ctx, bump, traits).balance(address) == ledger.balance(
            address,
        ),
{
}

/// No operation deletes a record: an address that holds a record before an
/// accepted request holds one after it.
pub proof fn lemma_records_are_kept(
    ledger: LedgerView,
    opening: InitializeCommit,
    writing: Commit,
    bump: u8,
    creator_key: Pubkey,
    traits: Traits,
    address: Seq<u8>,
)
    requires
        !(ledger.record(address) is Empty),
    ensures
        initialize_bank_error(ledger) is None ==> !(initialize_bank_effect(
            ledger,
            bump,
            creator_key,
        ).record(address) is Empty),
        initialize_commit_error(ledger, opening) is None ==> !(initialize_commit_effect(
            ledger,
            opening,
            bump,
            traits,
        ).record(address) is Empty),
        commit_story_error(ledger, writing) is None ==> !(commit_story_effect(
            ledger,
            writing,
            traits,
        ).record(address) is Empty),
{
}

/// The bank record is written when it is opened and never again: opening or
/// overwriting the record of a collectible leaves it as it was.
pub proof fn lemma_bank_record_is_fixed(
    ledger: LedgerView,
    opening: InitializeCommit,
    writing: Commit,
    bump: u8,
    traits: Traits,
    address: Seq<u8>,
)
    requires
        ledger.record(address) is Bank,
    ensures
        initialize_commit_error(ledger, opening) is None ==> initialize_commit_effect(
            ledger,
            opening,
            bump,
            traits,
        ).record(address) == ledger.record(address),
        commit_story_error(ledger, writing) is None ==> commit_story_effect(
            ledger,
            writing,
            traits,
        ).record(address) == ledger.record(address),
{
}

/// Moving value between two addresses changes no record, and no balance but
/// those of the two addresses.
pub proof fn lemma_transfer_frame(
    ledger: LedgerView,
    from: Seq<u8>,
    to: Seq<u8>,
    amount: nat,
    address: Seq<u8>,
)
    requires
        ledger.balance(from) >= amount,
    ensures
        ledger.transfer(from, to, amount).record(address) == ledger.record(address),
        address != from && address != to ==> ledger.transfer(from, to, amount).balance(address)
            == ledger.balance(address),
        from != to ==> ledger.transfer(from, to, amount).balance(from) == ledger.balance(from)
            - amount && ledger.transfer(from, to, amount).balance(to) == ledger.balance(to)
            + amount,
        from == to ==> ledger.transfer(from, to, amount).balance(from) == ledger.balance(from),
{
}

} // verus!
