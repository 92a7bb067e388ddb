//! The accounts that the host hands to each operation, as the plain values
//! that the operation reads.

use vstd::prelude::*;
use crate::address::Address;
use crate::metadata::MetadataAccount;
use crate::state::{Clock, ProtectionConfig};

verus! {

/// An account of which only the identity matters, and whether its holder
/// signed the request.
#[derive(Clone, Copy, Debug, PartialEq, Eq)]
pub struct SignerInfo {
    pub key: Address,
    pub is_signer: bool,
}

/// An account together with what it holds.
#[derive(Clone, Copy, Debug, PartialEq, Eq)]
pub struct Account<T> {
    pub key: Address,
    /// The balance at the address, rent-exemption floor included.
    pub lamports: u64,
    pub data: T,
}

/// A token account of the certificate registry.
#[derive(Clone, Copy, Debug, PartialEq, Eq)]
pub struct TokenAccount {
    pub owner: Address,
    pub mint: Address,
    pub amount: u64,
}

/// The accounts of `initialize_config`.
#[derive(Clone, Copy, Debug, PartialEq, Eq)]
pub struct InitProtectionConfig {
    /// The account at the seller's record address; `None` while it holds no
    /// record.
    pub config_account: Account<Option<ProtectionConfig>>,
    /// The seller.
    pub creator: SignerInfo,
    pub clock: Clock,
    /// The address of this program, under which records are derived.
    pub program_id: Address,
}

/// The accounts of `release_funds`.
#[derive(Clone, Copy, Debug, PartialEq, Eq)]
pub struct ReleaseFunds {
    /// The caller, who must be the seller.
    pub creator_address: SignerInfo,
    pub config_account: Account<ProtectionConfig>,
    pub clock: Clock,
    /// The balance that the account store demands for an account of the
    /// record's size.
    pub rent_exempt_minimum: u64,
    pub program_id: Address,
}

/// The accounts of `provide_refund`.
#[derive(Clone, Debug, PartialEq, Eq)]
pub struct RequestRefund {
    /// The caller, who must own the certificate.
    pub user: SignerInfo,
    pub config_account: Account<ProtectionConfig>,
    /// The mint of the certificate.
    pub nft_mint: Address,
    /// The account in which the caller holds the certificate.
    pub nft_token_account: Account<TokenAccount>,
    pub nft_metadata_account: MetadataAccount,
    /// The certificate registry.
    pub token_metadata_program: Address,
    pub clock: Clock,
    /// The balance that the account store demands for an account of the
    /// record's size.
    pub rent_exempt_minimum: u64,
    pub program_id: Address,
}

} // verus!
