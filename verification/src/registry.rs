use crate::pubkey::Pubkey;
use vstd::prelude::*;

verus! {

/// A holding account of the token registry: who owns it, which collectible it
/// holds, and how many units.
#[derive(Clone, Copy, Debug, PartialEq, Eq)]
pub struct TokenAccount {
    pub owner: Pubkey,
    pub mint: Pubkey,
    pub amount: u64,
}

/// An account of the metadata registry as it is handed in: its address and its
/// raw contents.
#[derive(Clone, Debug, PartialEq, Eq)]
pub struct MetadataAccount {
    pub key: Pubkey,
    pub data: Vec<u8>,
}

/// What is read from a registry entry: the addresses of the collectible's
/// declared creators, in the order listed, if it declares any.
#[derive(Clone, Debug, PartialEq, Eq)]
pub struct MetadataEntry {
    pub creators: Option<Vec<Pubkey>>,
}

/// The creators that the registry's decoder reads from an entry's raw
/// contents: `None` where the contents are no metadata entry, `Some(None)`
/// where the entry declares no creators, else their addresses in order.
///
/// The decoder checks the entry's leading type byte and then reads the
/// registry's binary layout. The result depends on the bytes alone.
pub uninterp spec fn metadata_creators(data: Seq<u8>) -> Option<Option<Seq<Seq<u8>>>>;

/// The addresses of a list of creators.
pub open spec fn creator_views(creators: Seq<Pubkey>) -> Seq<Seq<u8>> {
    creators.map_values(|creator: Pubkey| creator@)
}

/// A decoded entry, or the lack of one, as a mathematical value.
pub open spec fn entry_view(entry: Option<MetadataEntry>) -> Option<Option<Seq<Seq<u8>>>> {
    match entry {
        None => None,
        Some(entry) => Some(
            match entry.creators {
                None => None,
                Some(creators) => Some(creator_views(creators@)),
            },
        ),
    }
}

/// Calls the registry's `Metadata::safe_deserialize`.
///
/// Trusted: the call decodes the entry, or fails, as a function of the bytes
/// alone; of a decoded entry the creators' addresses are handed on.
#[verifier::external_body]
pub(crate) fn safe_deserialize(data: &Vec<u8>) -> (entry: Option<MetadataEntry>)
    ensures
        entry_view(entry) == metadata_creators(data@),
{
    match mpl_token_metadata::accounts::Metadata::safe_deserialize(data.as_slice()) {
        Ok(metadata) => Some(
            MetadataEntry {
                creators: metadata.creators.map(
                    |list| list.iter().map(|c| Pubkey { bytes: c.address.to_bytes() }).collect(),
                ),
            },
        ),
        Err(_) => None,
    }
}

} // verus!
