//! What an operation asks the host to do on its behalf.

use vstd::prelude::*;
use crate::address::Address;
use crate::derivation::{config_seed_bytes, signer_seeds};
use crate::state::ProtectionConfig;

verus! {

/// The right to sign for a record's address. Only the operations of this
/// library issue one, bound to the record they decided on.
#[derive(Clone, Copy, Debug, PartialEq, Eq)]
pub struct SignerSeeds {
    creator: Address,
    nonce: u8,
}

/// Move `lamports` out of a record's account, signed by the record itself.
#[derive(Clone, Copy, Debug, PartialEq, Eq)]
pub struct Transfer {
    pub from: Address,
    pub to: Address,
    pub lamports: u64,
    pub authority: SignerSeeds,
}

/// Destroy `amount` units of `mint` held in `account`, on the word of
/// `authority`, the holder.
#[derive(Clone, Copy, Debug, PartialEq, Eq)]
pub struct Burn {
    pub account: Address,
    pub mint: Address,
    pub authority: Address,
    pub amount: u64,
}

/// A refund: the certificate is burnt first, then the price is paid back.
/// The host carries out both or neither.
#[derive(Clone, Copy, Debug, PartialEq, Eq)]
pub struct Refund {
    pub burn: Burn,
    pub transfer: Transfer,
}

impl SignerSeeds {
    /// The seller whose record may be signed for.
    pub closed spec fn spec_creator(&self) -> Address {
        self.creator
    }

    /// The bump of the record's address.
    pub closed spec fn spec_nonce(&self) -> u8 {
        self.nonce
    }

    /// The right to sign for `config`.
    pub closed spec fn of(config: ProtectionConfig) -> SignerSeeds {
        SignerSeeds { creator: config.creator_address, nonce: config.derivation_nonce }
    }

    /// A right is determined by the seller and the bump it was issued for.
    pub proof fn lemma_of(config: ProtectionConfig)
        ensures
            Self::of(config).spec_creator() == config.creator_address,
            Self::of(config).spec_nonce() == config.derivation_nonce,
    {
    }

    /// Issues the right to sign for `config`.
    pub(crate) fn bind(config: &ProtectionConfig) -> (r: SignerSeeds)
        ensures
            r == Self::of(*config),
    {
        SignerSeeds { creator: config.creator_address, nonce: config.derivation_nonce }
    }

    #[verifier::when_used_as_spec(spec_creator)]
    pub fn creator(&self) -> (r: Address)
        ensures
            r == self.spec_creator(),
    {
        self.creator
    }

    #[verifier::when_used_as_spec(spec_nonce)]
    pub fn nonce(&self) -> (r: u8)
        ensures
            r == self.spec_nonce(),
    {
        self.nonce
    }

    /// The seeds to sign with: the tag, the seller, the bump.
    pub fn seeds(&self) -> (r: Vec<Vec<u8>>)
        ensures
            r.deep_view() == signer_seeds(self.spec_creator()@, self.spec_nonce()),
    {
        let mut seeds: Vec<Vec<u8>> = Vec::new();
        seeds.push(config_seed_bytes());
        seeds.push(self.creator.to_vec());
        let bump: Vec<u8> = vec![self.nonce];
        assert(bump@ =~= seq![self.nonce]);
        seeds.push(bump);
        assert(seeds.deep_view() =~~= signer_seeds(self.creator@, self.nonce));
        seeds
    }
}

} // verus!
