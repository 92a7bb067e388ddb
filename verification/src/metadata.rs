//! What the escrow reads of a certificate's metadata: who its creators are
//! and which of them the registry has verified.
//!
//! The layout of a metadata record is the registry's; its own crate parses
//! it. The library names the outcome and works on the plain values.

use vstd::prelude::*;
use mpl_token_metadata::state::TokenMetadataAccount;
use crate::address::Address;

verus! {

/// One creator attribution of a certificate.
#[derive(Clone, Copy, Debug, PartialEq, Eq)]
pub struct Creator {
    pub address: Address,
    /// Whether the creator has confirmed the attribution.
    pub verified: bool,
}

/// The part of a parsed metadata record that the escrow reads.
#[derive(Clone, Debug, PartialEq, Eq)]
pub struct Metadata {
    /// The creator attributions, in the order of the record, if it has any.
    pub creators: Option<Vec<Creator>>,
}

/// An account that is claimed to hold a certificate's metadata.
#[derive(Clone, Debug, PartialEq, Eq)]
pub struct MetadataAccount {
    pub key: Address,
    /// The program that owns the account.
    pub owner: Address,
    pub data: Vec<u8>,
}

/// A list of creators as plain values: each address with its flag.
pub open spec fn creators_view(creators: Seq<Creator>) -> Seq<(Seq<u8>, bool)> {
    Seq::new(creators.len(), |i: int| (creators[i].address@, creators[i].verified))
}

impl View for Metadata {
    type V = Option<Seq<(Seq<u8>, bool)>>;

    open spec fn view(&self) -> Option<Seq<(Seq<u8>, bool)>> {
        match self.creators {
            Some(list) => Some(creators_view(list@)),
            None => None,
        }
    }
}

/// A parse outcome as plain values.
pub open spec fn parsed_view(parsed: Option<Metadata>) -> Option<Option<Seq<(Seq<u8>, bool)>>> {
    match parsed {
        Some(metadata) => Some(metadata@),
        None => None,
    }
}

/// What `Metadata::from_account_info` of the registry's crate makes of an
/// account with these bytes and this owner: nothing where it refuses the
/// account, else the creators of the record, if it lists any.
pub uninterp spec fn metadata_creators(data: Seq<u8>, owner: Seq<u8>) -> Option<Option<Seq<(Seq<u8>, bool)>>>;

/// Calls `Metadata::from_account_info` of the registry's crate on an account
/// with the given address, owner and data. Trusted: that the outcome is a
/// function of the data and the owner alone, which is all that the name
/// `metadata_creators` claims.
#[verifier::external_body]
pub(crate) fn read_metadata(account: &MetadataAccount) -> (r: Option<Metadata>)
    ensures
        parsed_view(r) == metadata_creators(account.data@, account.owner@),
{
    let key = anchor_lang::prelude::Pubkey::new_from_array(account.key.bytes);
    let owner = anchor_lang::prelude::Pubkey::new_from_array(account.owner.bytes);
    let (mut lamports, mut data) = (0u64, account.data.clone());
    let info = anchor_lang::prelude::AccountInfo::new(&key, false, false, &mut lamports, &mut data, &owner, false, 0);
    let parsed = mpl_token_metadata::state::Metadata::from_account_info(&info).ok()?;
    let creator = |c: &mpl_token_metadata::state::Creator| Creator {
        address: Address { bytes: c.address.to_bytes() },
        verified: c.verified,
    };
    Some(Metadata { creators: parsed.data.creators.map(|list| list.iter().map(creator).collect()) })
}

} // verus!
