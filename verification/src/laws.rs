//! What holds of the escrow whatever the request: the laws that the
//! operations' contracts add up to, each proved from the rejection rules.

use vstd::prelude::*;
use crate::accounts::{InitProtectionConfig, ReleaseFunds, RequestRefund};
use crate::certificate::{certificate_rejection, creator_attested, leads_to, EvidenceView};
use crate::derivation::registry_id;
use crate::error::ErrorCode;
use crate::instructions::SignerSeeds;
use crate::operations::{
    initialize_rejection, initialized, opened_record, record_at, refund_instructions,
    refund_rejection, release_rejection, release_transfer, released, terms_acceptable,
};
use crate::state::{spec_available_proceeds, ProtectionConfig};

verus! {

/// A record is opened only with terms whose threshold is within
/// `sale_price * max_quantity`; the record that is opened keeps that bound.
pub proof fn lemma_opened_record_is_well_formed(
    ctx: InitProtectionConfig,
    derived: Option<(Seq<u8>, u8)>,
    nonce: u8,
    threshold_level: u64,
    end_sales_time: i64,
    sale_price: u64,
    max_quantity: u64,
)
    ensures
        !terms_acceptable(threshold_level, sale_price, max_quantity) ==> initialize_rejection(
            ctx,
            derived,
            threshold_level,
            end_sales_time,
            sale_price,
            max_quantity,
        ) is Some,
        initialize_rejection(
            ctx,
            derived,
            threshold_level,
            end_sales_time,
            sale_price,
            max_quantity,
        ) is None ==> opened_record(
            ctx.creator.key,
            nonce,
            threshold_level,
            end_sales_time,
            sale_price,
            max_quantity,
        ).wf(),
{
}

/// The terms of a record are fixed when it is opened: whatever follows it
/// keeps its bound, and a threshold once met stays met.
pub proof fn lemma_terms_are_fixed(before: ProtectionConfig, after: ProtectionConfig)
    requires
        after.follows(before),
    ensures
        before.wf() ==> after.wf(),
        before.threshold_met ==> after.threshold_met,
        forall|available: u64|
            before.spec_threshold_reached(available) ==> after.spec_threshold_reached(available),
{
}

/// Once an account holds a record, no request opens another in it, whoever
/// asks, whenever, and with whatever terms.
pub proof fn lemma_initialize_once(
    first: InitProtectionConfig,
    record: ProtectionConfig,
    second: InitProtectionConfig,
    derived: Option<(Seq<u8>, u8)>,
    threshold_level: u64,
    end_sales_time: i64,
    sale_price: u64,
    max_quantity: u64,
)
    requires
        second.config_account == initialized(first, record).config_account,
    ensures
        initialize_rejection(
            second,
            derived,
            threshold_level,
            end_sales_time,
            sale_price,
            max_quantity,
        ) is Some,
{
}

/// Until the clock is past the end of the window, a release is refused with
/// `SaleNotOver`, whatever the balance and whoever asks.
pub proof fn lemma_release_waits_for_end(ctx: ReleaseFunds, derived: Option<(Seq<u8>, u8)>)
    requires
        ctx.clock.unix_timestamp <= ctx.config_account.data.end_sales_time,
    ensures
        release_rejection(ctx, derived) == Some(ErrorCode::SaleNotOver),
{
}

/// After the window, proceeds below a threshold that was never met refuse
/// the release with `ThresholdNotMet`.
pub proof fn lemma_release_needs_threshold(ctx: ReleaseFunds, derived: Option<(Seq<u8>, u8)>)
    requires
        ctx.config_account.data.end_sales_time < ctx.clock.unix_timestamp,
        !ctx.config_account.data.threshold_met,
        ctx.rent_exempt_minimum <= ctx.config_account.lamports,
        ctx.config_account.lamports - ctx.rent_exempt_minimum
            < ctx.config_account.data.threshold_level,
    ensures
        release_rejection(ctx, derived) == Some(ErrorCode::ThresholdNotMet),
{
}

/// After the window, with proceeds at or above the threshold, the signing
/// seller of a record at its derived address is paid exactly the proceeds:
/// the floor stays behind, and the record is marked.
pub proof fn lemma_release_pays_proceeds(ctx: ReleaseFunds, derived: Option<(Seq<u8>, u8)>)
    requires
        ctx.config_account.data.end_sales_time < ctx.clock.unix_timestamp,
        ctx.rent_exempt_minimum <= ctx.config_account.lamports,
        ctx.config_account.lamports - ctx.rent_exempt_minimum
            >= ctx.config_account.data.threshold_level,
        ctx.creator_address.is_signer,
        ctx.creator_address.key == ctx.config_account.data.creator_address,
        record_at(derived, ctx.config_account.key, ctx.config_account.data.derivation_nonce),
    ensures
        release_rejection(ctx, derived) is None,
        release_transfer(ctx).from == ctx.config_account.key,
        release_transfer(ctx).to == ctx.creator_address.key,
        spec_available_proceeds(ctx.config_account.lamports, ctx.rent_exempt_minimum) == Some(
            release_transfer(ctx).lamports,
        ),
        ctx.config_account.lamports - release_transfer(ctx).lamports == ctx.rent_exempt_minimum,
        release_transfer(ctx).authority.spec_creator() == ctx.config_account.data.creator_address,
        release_transfer(ctx).authority.spec_nonce() == ctx.config_account.data.derivation_nonce,
        released(ctx).config_account.data.threshold_met,
        released(ctx).config_account.data.follows(ctx.config_account.data),
{
    SignerSeeds::lemma_of(ctx.config_account.data);
}

/// A record whose threshold is marked as met never refuses a release with
/// `ThresholdNotMet`, however little lies at its address.
pub proof fn lemma_met_threshold_stays_met(ctx: ReleaseFunds, derived: Option<(Seq<u8>, u8)>)
    requires
        ctx.config_account.data.threshold_met,
    ensures
        release_rejection(ctx, derived) != Some(ErrorCode::ThresholdNotMet),
{
}

/// After a release has gone ahead, no later release of the record it left
/// behind is refused with `ThresholdNotMet`, whatever the balance, the
/// clock and the caller are by then.
pub proof fn lemma_release_opens_later_releases(
    ctx: ReleaseFunds,
    derived: Option<(Seq<u8>, u8)>,
    later: ReleaseFunds,
    later_derived: Option<(Seq<u8>, u8)>,
)
    requires
        release_rejection(ctx, derived) is None,
        later.config_account.data == released(ctx).config_account.data,
    ensures
        release_rejection(later, later_derived) != Some(ErrorCode::ThresholdNotMet),
{
}

/// A release that goes ahead on a balance exactly at the floor transfers
/// nothing: it can only go ahead because the threshold was met before, or
/// is zero.
pub proof fn lemma_release_at_floor_moves_nothing(ctx: ReleaseFunds, derived: Option<(Seq<u8>, u8)>)
    requires
        release_rejection(ctx, derived) is None,
        ctx.config_account.lamports == ctx.rent_exempt_minimum,
    ensures
        ctx.config_account.data.threshold_met || ctx.config_account.data.threshold_level == 0,
        release_transfer(ctx).lamports == 0,
{
}

/// A certificate that is not the caller's, does not hold exactly one unit,
/// or is of another mint than the one supplied is refused.
pub proof fn lemma_refund_needs_own_certificate(
    ctx: RequestRefund,
    evidence: EvidenceView,
    derived: Option<(Seq<u8>, u8)>,
)
    requires
        ctx.nft_token_account.data.owner != ctx.user.key || ctx.nft_token_account.data.amount != 1
            || ctx.nft_token_account.data.mint != ctx.nft_mint,
    ensures
        certificate_rejection(ctx, evidence) is Some,
        refund_rejection(ctx, evidence, derived) is Some,
{
}

/// A certificate whose metadata does not name the seller as verified
/// second creator is never refunded.
pub proof fn lemma_refund_needs_verified_creator(
    ctx: RequestRefund,
    evidence: EvidenceView,
    derived: Option<(Seq<u8>, u8)>,
)
    requires
        evidence.metadata matches Some(creators) && !creator_attested(
            creators,
            ctx.config_account.data.creator_address@,
        ),
    ensures
        certificate_rejection(ctx, evidence) is Some,
        refund_rejection(ctx, evidence, derived) is Some,
{
}

/// Where the window, the funds, the caller's hold on the certificate, the
/// registry and its two addresses are in order and the metadata account holds
/// a record, a second creator that is missing, is not the seller, or is not
/// verified refuses the refund with `NFTMetadataCreatorNotVerified`.
pub proof fn lemma_unverified_creator_is_reported(
    ctx: RequestRefund,
    evidence: EvidenceView,
    derived: Option<(Seq<u8>, u8)>,
)
    requires
        ctx.config_account.data.end_sales_time < ctx.clock.unix_timestamp,
        spec_available_proceeds(ctx.config_account.lamports, ctx.rent_exempt_minimum) matches Some(
            available,
        ) && ctx.config_account.data.spec_threshold_reached(available)
            && ctx.config_account.data.sale_price <= available,
        ctx.user.is_signer,
        ctx.nft_token_account.data.owner == ctx.user.key,
        ctx.nft_token_account.data.mint == ctx.nft_mint,
        ctx.nft_token_account.data.amount == 1,
        ctx.token_metadata_program@ == registry_id(),
        leads_to(evidence.master_edition, ctx.nft_mint),
        leads_to(evidence.metadata_address, ctx.nft_metadata_account.key),
        ctx.nft_metadata_account.data@.len() > 0,
        evidence.metadata matches Some(creators) && !creator_attested(
            creators,
            ctx.config_account.data.creator_address@,
        ),
    ensures
        certificate_rejection(ctx, evidence) == Some(ErrorCode::NFTMetadataCreatorNotVerified),
        refund_rejection(ctx, evidence, derived) == Some(ErrorCode::NFTMetadataCreatorNotVerified),
{
}

/// A refund that goes ahead burns exactly one unit of the caller's
/// certificate and pays exactly the sale price out of the record to the
/// caller; what stays behind is the balance less the price, and not less
/// than the floor.
pub proof fn lemma_refund_burns_one_and_pays_price(
    ctx: RequestRefund,
    evidence: EvidenceView,
    derived: Option<(Seq<u8>, u8)>,
)
    requires
        refund_rejection(ctx, evidence, derived) is None,
    ensures
        refund_instructions(ctx).burn.amount == 1,
        refund_instructions(ctx).burn.account == ctx.nft_token_account.key,
        refund_instructions(ctx).burn.mint == ctx.nft_token_account.data.mint,
        refund_instructions(ctx).burn.authority == ctx.nft_token_account.data.owner,
        ctx.nft_token_account.data.amount - refund_instructions(ctx).burn.amount == 0,
        refund_instructions(ctx).transfer.lamports == ctx.config_account.data.sale_price,
        refund_instructions(ctx).transfer.from == ctx.config_account.key,
        refund_instructions(ctx).transfer.to == ctx.user.key,
        ctx.config_account.lamports - refund_instructions(ctx).transfer.lamports
            >= ctx.rent_exempt_minimum,
        refund_instructions(ctx).transfer.authority.spec_creator()
            == ctx.config_account.data.creator_address,
        refund_instructions(ctx).transfer.authority.spec_nonce()
            == ctx.config_account.data.derivation_nonce,
{
    SignerSeeds::lemma_of(ctx.config_account.data);
}

/// Release and refund pass the same gate on time and funds: a request that
/// a release refuses for the window or the threshold, a refund refuses for
/// the same reason.
pub proof fn lemma_refund_shares_release_gate(
    release: ReleaseFunds,
    release_derived: Option<(Seq<u8>, u8)>,
    refund: RequestRefund,
    evidence: EvidenceView,
    refund_derived: Option<(Seq<u8>, u8)>,
)
    requires
        release.config_account == refund.config_account,
        release.clock == refund.clock,
        release.rent_exempt_minimum == refund.rent_exempt_minimum,
        release_rejection(release, release_derived) matches Some(e) && (e == ErrorCode::SaleNotOver
            || e == ErrorCode::BalanceBelowRentFloor || e == ErrorCode::ThresholdNotMet),
    ensures
        refund_rejection(refund, evidence, refund_derived) == release_rejection(
            release,
            release_derived,
        ),
{
}

} // verus!
