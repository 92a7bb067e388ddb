//! Is this certificate genuine, is it the caller's, and did the seller of
//! this escrow issue it?

use vstd::prelude::*;
use crate::accounts::RequestRefund;
use crate::address::Address;
use crate::derivation::{
    derived_view, is_derived_address, master_edition_address, metadata_address,
    registry_address, registry_id, spec_master_edition_address, spec_metadata_address,
};
use crate::error::ErrorCode;
use crate::metadata::{metadata_creators, parsed_view, read_metadata, Metadata};

verus! {

/// What the host's derivation and the registry's parser say of the
/// certificate in a refund request.
#[derive(Clone, Debug, PartialEq, Eq)]
pub struct CertificateEvidence {
    /// The master edition address derived for the mint that the token
    /// account names.
    pub master_edition: Option<(Address, u8)>,
    /// The metadata address derived for the mint supplied.
    pub metadata_address: Option<(Address, u8)>,
    /// The metadata account as parsed; `None` where it is no metadata
    /// record.
    pub metadata: Option<Metadata>,
}

/// The evidence as plain values.
pub struct EvidenceView {
    pub master_edition: Option<(Seq<u8>, u8)>,
    pub metadata_address: Option<(Seq<u8>, u8)>,
    pub metadata: Option<Option<Seq<(Seq<u8>, bool)>>>,
}

impl View for CertificateEvidence {
    type V = EvidenceView;

    open spec fn view(&self) -> EvidenceView {
        EvidenceView {
            master_edition: derived_view(self.master_edition),
            metadata_address: derived_view(self.metadata_address),
            metadata: parsed_view(self.metadata),
        }
    }
}

/// The evidence that belongs to a request.
pub open spec fn spec_certificate_evidence(ctx: RequestRefund) -> EvidenceView {
    EvidenceView {
        master_edition: spec_master_edition_address(
            ctx.token_metadata_program,
            ctx.nft_token_account.data.mint,
        ),
        metadata_address: spec_metadata_address(ctx.token_metadata_program, ctx.nft_mint),
        metadata: metadata_creators(
            ctx.nft_metadata_account.data@,
            ctx.nft_metadata_account.owner@,
        ),
    }
}

/// The second creator is listed, is `expected`, and is verified. The first
/// place belongs to the sale mechanism.
pub open spec fn creator_attested(creators: Option<Seq<(Seq<u8>, bool)>>, expected: Seq<u8>) -> bool {
    creators matches Some(list) && list.len() > 1 && list[1].0 == expected && list[1].1
}

/// A derivation that led to `key`.
pub open spec fn leads_to(derived: Option<(Seq<u8>, u8)>, key: Address) -> bool {
    derived matches Some((address, _)) && address == key@
}

/// The first check that the certificate fails, in the order in which they
/// are made; `None` where it passes all.
pub open spec fn certificate_rejection(ctx: RequestRefund, evidence: EvidenceView) -> Option<ErrorCode> {
    let token = ctx.nft_token_account.data;
    if !ctx.user.is_signer {
        Some(ErrorCode::MissingSignature)
    } else if token.owner != ctx.user.key {
        Some(ErrorCode::TokenOwnerMismatch)
    } else if token.mint != ctx.nft_mint {
        Some(ErrorCode::TokenMintMismatch)
    } else if token.amount != 1 {
        Some(ErrorCode::TokenAmountNotOne)
    } else if ctx.token_metadata_program@ != registry_id() {
        Some(ErrorCode::RegistryMismatch)
    } else if !leads_to(evidence.master_edition, ctx.nft_mint) {
        Some(ErrorCode::MasterEditionMismatch)
    } else if !leads_to(evidence.metadata_address, ctx.nft_metadata_account.key) {
        Some(ErrorCode::MetadataAddressMismatch)
    } else if ctx.nft_metadata_account.data@.len() == 0 {
        Some(ErrorCode::NFTMetadataEmpty)
    } else {
        match evidence.metadata {
            None => Some(ErrorCode::NFTMetadataInvalid),
            Some(creators) => if creator_attested(
                creators,
                ctx.config_account.data.creator_address@,
            ) {
                None
            } else {
                Some(ErrorCode::NFTMetadataCreatorNotVerified)
            },
        }
    }
}

impl Metadata {
    /// Whether the second creator is `expected` and verified.
    pub fn attests(&self, expected: &Address) -> (r: bool)
        ensures
            r == creator_attested(self@, expected@),
    {
        match &self.creators {
            Some(list) => {
                if list.len() > 1 {
                    proof {
                        Address::lemma_view_injective(list@[1].address, *expected);
                    }
                    list[1].address == *expected && list[1].verified
                } else {
                    false
                }
            },
            None => false,
        }
    }
}

/// Derives the two registry addresses of the request's certificate and
/// parses its metadata account.
pub fn certificate_evidence(ctx: &RequestRefund) -> (r: CertificateEvidence)
    ensures
        r@ == spec_certificate_evidence(*ctx),
{
    CertificateEvidence {
        master_edition: master_edition_address(
            &ctx.token_metadata_program,
            &ctx.nft_token_account.data.mint,
        ),
        metadata_address: metadata_address(&ctx.token_metadata_program, &ctx.nft_mint),
        metadata: read_metadata(&ctx.nft_metadata_account),
    }
}

/// Judges the certificate of a refund request against the evidence: the
/// caller signed and holds exactly one unit of the mint supplied, the
/// registry is the registry, the mint and the metadata account are where it
/// derives them, and the metadata names the escrow's seller as verified
/// second creator.
pub fn verify_certificate(ctx: &RequestRefund, evidence: &CertificateEvidence) -> (r: Result<(), ErrorCode>)
    ensures
        r == match certificate_rejection(*ctx, evidence@) {
            Some(e) => Err::<(), ErrorCode>(e),
            None => Ok::<(), ErrorCode>(()),
        },
{
    let token = &ctx.nft_token_account.data;
    if !ctx.user.is_signer {
        return Err(ErrorCode::MissingSignature);
    }
    if token.owner != ctx.user.key {
        return Err(ErrorCode::TokenOwnerMismatch);
    }
    if token.mint != ctx.nft_mint {
        return Err(ErrorCode::TokenMintMismatch);
    }
    if token.amount != 1 {
        return Err(ErrorCode::TokenAmountNotOne);
    }
    let registry = registry_address();
    proof {
        Address::lemma_view_injective(ctx.token_metadata_program, registry);
    }
    if ctx.token_metadata_program != registry {
        return Err(ErrorCode::RegistryMismatch);
    }
    if !is_derived_address(&evidence.master_edition, &ctx.nft_mint) {
        return Err(ErrorCode::MasterEditionMismatch);
    }
    if !is_derived_address(&evidence.metadata_address, &ctx.nft_metadata_account.key) {
        return Err(ErrorCode::MetadataAddressMismatch);
    }
    if ctx.nft_metadata_account.data.len() == 0 {
        return Err(ErrorCode::NFTMetadataEmpty);
    }
    match &evidence.metadata {
        None => Err(ErrorCode::NFTMetadataInvalid),
        Some(metadata) => {
            if metadata.attests(&ctx.config_account.data.creator_address) {
                Ok(())
            } else {
                Err(ErrorCode::NFTMetadataCreatorNotVerified)
            }
        },
    }
}

} // verus!
