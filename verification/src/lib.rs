pub mod address;
pub mod error;
pub mod laws;
pub mod ledger;
pub mod program;
pub mod pubkey;
pub mod registry;
pub mod state;
pub mod validate;

pub use error::CommitError;
pub use ledger::Ledger;
pub use program::{
    commit_story, initialize_bank, initialize_commit, read_commit, Commit, InitializeBank,
    InitializeCommit, SERVICE_FEE,
};
pub use pubkey::Pubkey;
pub use registry::{MetadataAccount, TokenAccount};
pub use state::{Bank, CommitState, Record, Traits};
