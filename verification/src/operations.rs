//! The three operations of the escrow: open a record, release the proceeds
//! to the seller, refund a buyer.
//!
//! Each operation makes its checks in a fixed order and reports the first
//! that fails. The sale window comes first, then the funds, then who is
//! asking and whether the accounts are the right ones.

use vstd::prelude::*;
use crate::accounts::{Account, InitProtectionConfig, ReleaseFunds, RequestRefund};
use crate::address::Address;
use crate::certificate::{
    certificate_evidence, certificate_rejection, spec_certificate_evidence, verify_certificate,
    CertificateEvidence, EvidenceView,
};
use crate::derivation::{config_address, derived_view, is_derived, spec_config_address};
use crate::error::ErrorCode;
use crate::instructions::{Burn, Refund, SignerSeeds, Transfer};
use crate::state::{
    available_proceeds, future_end_time, past_end_sales_time, spec_available_proceeds,
    ProtectionConfig,
};

verus! {

/// A derivation that led to `key` with the bump `nonce`.
pub open spec fn record_at(derived: Option<(Seq<u8>, u8)>, key: Address, nonce: u8) -> bool {
    derived == Some((key@, nonce))
}

/// Why a release is refused, given what the record's address derives to;
/// `None` where it goes ahead.
pub open spec fn release_rejection(ctx: ReleaseFunds, derived: Option<(Seq<u8>, u8)>) -> Option<ErrorCode> {
    let config = ctx.config_account.data;
    if !(config.end_sales_time < ctx.clock.unix_timestamp) {
        Some(ErrorCode::SaleNotOver)
    } else {
        match spec_available_proceeds(ctx.config_account.lamports, ctx.rent_exempt_minimum) {
            None => Some(ErrorCode::BalanceBelowRentFloor),
            Some(available) => if !config.spec_threshold_reached(available) {
                Some(ErrorCode::ThresholdNotMet)
            } else if !ctx.creator_address.is_signer {
                Some(ErrorCode::MissingSignature)
            } else if ctx.creator_address.key != config.creator_address {
                Some(ErrorCode::CreatorMismatch)
            } else if !record_at(derived, ctx.config_account.key, config.derivation_nonce) {
                Some(ErrorCode::ConfigAddressMismatch)
            } else {
                None
            },
        }
    }
}

/// The transfer of a release: all that lies above the floor goes to the
/// seller.
pub open spec fn release_transfer(ctx: ReleaseFunds) -> Transfer {
    Transfer {
        from: ctx.config_account.key,
        to: ctx.config_account.data.creator_address,
        lamports: (ctx.config_account.lamports - ctx.rent_exempt_minimum) as u64,
        authority: SignerSeeds::of(ctx.config_account.data),
    }
}

/// The accounts after a release: the threshold is marked as met, nothing
/// else has changed.
pub open spec fn released(ctx: ReleaseFunds) -> ReleaseFunds {
    ReleaseFunds {
        config_account: Account {
            data: ProtectionConfig { threshold_met: true, ..ctx.config_account.data },
            ..ctx.config_account
        },
        ..ctx
    }
}

/// Decides a release, given what the record's address derives to.
///
/// On success the record is marked and the transfer of the proceeds is
/// returned; the host commits the mark only together with the transfer. A
/// balance that sits exactly on the floor yields a transfer of nothing.
pub fn release_funds_with(ctx: &mut ReleaseFunds, derived: &Option<(Address, u8)>) -> (r: Result<Transfer, ErrorCode>)
    ensures
        match release_rejection(*old(ctx), derived_view(*derived)) {
            Some(e) => r == Err::<Transfer, ErrorCode>(e) && *final(ctx) == *old(ctx),
            None => r == Ok::<Transfer, ErrorCode>(release_transfer(*old(ctx))) && *final(ctx)
                == released(*old(ctx)),
        },
        final(ctx).config_account.data.follows(old(ctx).config_account.data),
        r matches Ok(transfer) ==> old(ctx).config_account.lamports - transfer.lamports == old(
            ctx,
        ).rent_exempt_minimum,
{
    let available = match past_end_sales_time(&ctx.config_account.data, &ctx.clock) {
        Err(e) => { return Err(e); },
        Ok(()) => match available_proceeds(ctx.config_account.lamports, ctx.rent_exempt_minimum) {
            None => { return Err(ErrorCode::BalanceBelowRentFloor); },
            Some(available) => available,
        },
    };
    if !ctx.config_account.data.threshold_reached(available) {
        return Err(ErrorCode::ThresholdNotMet);
    }
    if !ctx.creator_address.is_signer {
        return Err(ErrorCode::MissingSignature);
    }
    if ctx.creator_address.key != ctx.config_account.data.creator_address {
        return Err(ErrorCode::CreatorMismatch);
    }
    if !is_derived(derived, &ctx.config_account.key, ctx.config_account.data.derivation_nonce) {
        return Err(ErrorCode::ConfigAddressMismatch);
    }
    let transfer = Transfer {
        from: ctx.config_account.key,
        to: ctx.config_account.data.creator_address,
        lamports: available,
        authority: SignerSeeds::bind(&ctx.config_account.data),
    };
    ctx.config_account.data.threshold_met = true;
    Ok(transfer)
}

/// Releases the proceeds of a closed sale to the seller.
///
/// Refused with `SaleNotOver` unless the clock is past the end of the
/// window, with `ThresholdNotMet` unless the threshold was met before or the
/// proceeds reach it now, and unless the caller is the seller, has signed,
/// and the record lies at the address derived for the seller.
pub fn release_funds(ctx: &mut ReleaseFunds) -> (r: Result<Transfer, ErrorCode>)
    ensures
        match release_rejection(
            *old(ctx),
            spec_config_address(old(ctx).config_account.data.creator_address, old(ctx).program_id),
        ) {
            Some(e) => r == Err::<Transfer, ErrorCode>(e) && *final(ctx) == *old(ctx),
            None => r == Ok::<Transfer, ErrorCode>(release_transfer(*old(ctx))) && *final(ctx)
                == released(*old(ctx)),
        },
        final(ctx).config_account.data.follows(old(ctx).config_account.data),
        r matches Ok(transfer) ==> old(ctx).config_account.lamports - transfer.lamports == old(
            ctx,
        ).rent_exempt_minimum,
{
    let derived = config_address(&ctx.config_account.data.creator_address, &ctx.program_id);
    release_funds_with(ctx, &derived)
}

/// Why a refund is refused, given the evidence on the certificate and what
/// the record's address derives to; `None` where it goes ahead.
pub open spec fn refund_rejection(
    ctx: RequestRefund,
    evidence: EvidenceView,
    derived: Option<(Seq<u8>, u8)>,
) -> Option<ErrorCode> {
    let config = ctx.config_account.data;
    if !(config.end_sales_time < ctx.clock.unix_timestamp) {
        Some(ErrorCode::SaleNotOver)
    } else {
        match spec_available_proceeds(ctx.config_account.lamports, ctx.rent_exempt_minimum) {
            None => Some(ErrorCode::BalanceBelowRentFloor),
            Some(available) => if !config.spec_threshold_reached(available) {
                Some(ErrorCode::ThresholdNotMet)
            } else if !(config.sale_price <= available) {
                Some(ErrorCode::InsufficientFunds)
            } else {
                match certificate_rejection(ctx, evidence) {
                    Some(e) => Some(e),
                    None => if !record_at(derived, ctx.config_account.key, config.derivation_nonce) {
                        Some(ErrorCode::ConfigAddressMismatch)
                    } else {
                        None
                    },
                }
            },
        }
    }
}

/// The instructions of a refund: one unit of the certificate is burnt on the
/// caller's word, and the sale price goes from the record to the caller.
pub open spec fn refund_instructions(ctx: RequestRefund) -> Refund {
    Refund {
        burn: Burn {
            account: ctx.nft_token_account.key,
            mint: ctx.nft_mint,
            authority: ctx.user.key,
            amount: 1,
        },
        transfer: Transfer {
            from: ctx.config_account.key,
            to: ctx.user.key,
            lamports: ctx.config_account.data.sale_price,
            authority: SignerSeeds::of(ctx.config_account.data),
        },
    }
}

/// Decides a refund, given the evidence on the certificate and what the
/// record's address derives to.
///
/// The record is only read. On success the burn of the certificate and the
/// transfer of the sale price are returned, in the order in which the host
/// carries them out; it commits both or neither.
pub fn provide_refund_with(
    ctx: &RequestRefund,
    evidence: &CertificateEvidence,
    derived: &Option<(Address, u8)>,
) -> (r: Result<Refund, ErrorCode>)
    ensures
        r == match refund_rejection(*ctx, evidence@, derived_view(*derived)) {
            Some(e) => Err::<Refund, ErrorCode>(e),
            None => Ok::<Refund, ErrorCode>(refund_instructions(*ctx)),
        },
        r matches Ok(refund) ==> ctx.config_account.lamports - refund.transfer.lamports
            >= ctx.rent_exempt_minimum,
{
    let available = match past_end_sales_time(&ctx.config_account.data, &ctx.clock) {
        Err(e) => { return Err(e); },
        Ok(()) => match available_proceeds(ctx.config_account.lamports, ctx.rent_exempt_minimum) {
            None => { return Err(ErrorCode::BalanceBelowRentFloor); },
            Some(available) => available,
        },
    };
    if !ctx.config_account.data.threshold_reached(available) {
        return Err(ErrorCode::ThresholdNotMet);
    }
    if !(ctx.config_account.data.sale_price <= available) {
        return Err(ErrorCode::InsufficientFunds);
    }
    match verify_certificate(ctx, evidence) {
        Err(e) => { return Err(e); },
        Ok(()) => {},
    }
    if !is_derived(derived, &ctx.config_account.key, ctx.config_account.data.derivation_nonce) {
        return Err(ErrorCode::ConfigAddressMismatch);
    }
    Ok(
        Refund {
            burn: Burn {
                account: ctx.nft_token_account.key,
                mint: ctx.nft_mint,
                authority: ctx.user.key,
                amount: 1,
            },
            transfer: Transfer {
                from: ctx.config_account.key,
                to: ctx.user.key,
                lamports: ctx.config_account.data.sale_price,
                authority: SignerSeeds::bind(&ctx.config_account.data),
            },
        },
    )
}

/// Refunds the sale price to a buyer who hands in a certificate.
///
/// Refused with `SaleNotOver` unless the clock is past the end of the
/// window, with `ThresholdNotMet` or `InsufficientFunds` unless the funds
/// gate passes and covers the price, and unless the certificate is genuine,
/// is the caller's, and names the seller as verified second creator.
pub fn provide_refund(ctx: &RequestRefund) -> (r: Result<Refund, ErrorCode>)
    ensures
        r == match refund_rejection(
            *ctx,
            spec_certificate_evidence(*ctx),
            spec_config_address(ctx.config_account.data.creator_address, ctx.program_id),
        ) {
            Some(e) => Err::<Refund, ErrorCode>(e),
            None => Ok::<Refund, ErrorCode>(refund_instructions(*ctx)),
        },
        r matches Ok(refund) ==> ctx.config_account.lamports - refund.transfer.lamports
            >= ctx.rent_exempt_minimum,
{
    let evidence = certificate_evidence(ctx);
    let derived = config_address(&ctx.config_account.data.creator_address, &ctx.program_id);
    provide_refund_with(ctx, &evidence, &derived)
}

/// Sale terms that a record may be opened with: the threshold is within what
/// the sale can bring in at most, and that bound fits in 64 bits.
pub open spec fn terms_acceptable(threshold_level: u64, sale_price: u64, max_quantity: u64) -> bool {
    sale_price * max_quantity <= u64::MAX && threshold_level <= sale_price * max_quantity
}

/// Why a record is not opened, given what the seller's address derives to;
/// `None` where it is.
pub open spec fn initialize_rejection(
    ctx: InitProtectionConfig,
    derived: Option<(Seq<u8>, u8)>,
    threshold_level: u64,
    end_sales_time: i64,
    sale_price: u64,
    max_quantity: u64,
) -> Option<ErrorCode> {
    if !(ctx.clock.unix_timestamp < end_sales_time) {
        Some(ErrorCode::EndSalesFuture)
    } else if !terms_acceptable(threshold_level, sale_price, max_quantity) {
        Some(ErrorCode::ThresholdTooGreat)
    } else if !ctx.creator.is_signer {
        Some(ErrorCode::MissingSignature)
    } else if !(derived matches Some((address, _)) && address == ctx.config_account.key@) {
        Some(ErrorCode::ConfigAddressMismatch)
    } else if ctx.config_account.data is Some {
        Some(ErrorCode::ConfigAlreadyInitialized)
    } else {
        None
    }
}

/// The bump of a derivation that succeeded.
pub open spec fn derived_nonce(derived: Option<(Seq<u8>, u8)>) -> u8
    recommends
        derived is Some,
{
    match derived {
        Some((_, nonce)) => nonce,
        None => 0,
    }
}

/// The record that a seller opens with these terms at an address reached
/// with the bump `nonce`.
pub open spec fn opened_record(
    creator: Address,
    nonce: u8,
    threshold_level: u64,
    end_sales_time: i64,
    sale_price: u64,
    max_quantity: u64,
) -> ProtectionConfig {
    ProtectionConfig {
        creator_address: creator,
        sale_price,
        max_quantity,
        threshold_level,
        threshold_met: false,
        end_sales_time,
        derivation_nonce: nonce,
    }
}

/// The accounts after `record` has been opened.
pub open spec fn initialized(ctx: InitProtectionConfig, record: ProtectionConfig) -> InitProtectionConfig {
    InitProtectionConfig {
        config_account: Account { data: Some(record), ..ctx.config_account },
        ..ctx
    }
}

/// Opens a record, given what the seller's address derives to.
///
/// On success the account holds the new record, with the threshold not yet
/// met. No funds move.
pub fn initialize_config_with(
    ctx: &mut InitProtectionConfig,
    derived: &Option<(Address, u8)>,
    threshold_level: u64,
    end_sales_time: i64,
    sale_price: u64,
    max_quantity: u64,
) -> (r: Result<(), ErrorCode>)
    ensures
        match initialize_rejection(
            *old(ctx),
            derived_view(*derived),
            threshold_level,
            end_sales_time,
            sale_price,
            max_quantity,
        ) {
            Some(e) => r == Err::<(), ErrorCode>(e) && *final(ctx) == *old(ctx),
            None => r is Ok && *final(ctx) == initialized(
                *old(ctx),
                opened_record(
                    old(ctx).creator.key,
                    derived_nonce(derived_view(*derived)),
                    threshold_level,
                    end_sales_time,
                    sale_price,
                    max_quantity,
                ),
            ),
        },
        r is Ok ==> (final(ctx).config_account.data matches Some(record) && record.wf()),
        !terms_acceptable(threshold_level, sale_price, max_quantity) ==> r is Err,
{
    match future_end_time(&ctx.clock, end_sales_time) {
        Err(e) => { return Err(e); },
        Ok(()) => {},
    }
    match sale_price.checked_mul(max_quantity) {
        None => { return Err(ErrorCode::ThresholdTooGreat); },
        Some(ceiling) => {
            if threshold_level > ceiling {
                return Err(ErrorCode::ThresholdTooGreat);
            }
        },
    }
    if !ctx.creator.is_signer {
        return Err(ErrorCode::MissingSignature);
    }
    let nonce = match derived {
        Some((address, nonce)) => {
            proof {
                Address::lemma_view_injective(*address, ctx.config_account.key);
            }
            if *address != ctx.config_account.key {
                return Err(ErrorCode::ConfigAddressMismatch);
            }
            *nonce
        },
        None => { return Err(ErrorCode::ConfigAddressMismatch); },
    };
    if ctx.config_account.data.is_some() {
        return Err(ErrorCode::ConfigAlreadyInitialized);
    }
    ctx.config_account.data = Some(
        ProtectionConfig {
            creator_address: ctx.creator.key,
            sale_price,
            max_quantity,
            threshold_level,
            threshold_met: false,
            end_sales_time,
            derivation_nonce: nonce,
        },
    );
    Ok(())
}

/// Opens the escrow record of the signing seller.
///
/// Refused with `EndSalesFuture` unless the window ends strictly after the
/// clock, with `ThresholdTooGreat` unless the threshold is within
/// `sale_price * max_quantity` and that product fits in 64 bits, and unless
/// the seller signed and the account is the one derived for the seller and
/// holds no record yet.
pub fn initialize_config(
    ctx: &mut InitProtectionConfig,
    threshold_level: u64,
    end_sales_time: i64,
    sale_price: u64,
    max_quantity: u64,
) -> (r: Result<(), ErrorCode>)
    ensures
        match initialize_rejection(
            *old(ctx),
            spec_config_address(old(ctx).creator.key, old(ctx).program_id),
            threshold_level,
            end_sales_time,
            sale_price,
            max_quantity,
        ) {
            Some(e) => r == Err::<(), ErrorCode>(e) && *final(ctx) == *old(ctx),
            None => r is Ok && *final(ctx) == initialized(
                *old(ctx),
                opened_record(
                    old(ctx).creator.key,
                    derived_nonce(spec_config_address(old(ctx).creator.key, old(ctx).program_id)),
                    threshold_level,
                    end_sales_time,
                    sale_price,
                    max_quantity,
                ),
            ),
        },
        r is Ok ==> (final(ctx).config_account.data matches Some(record) && record.wf()),
        !terms_acceptable(threshold_level, sale_price, max_quantity) ==> r is Err,
{
    let derived = config_address(&ctx.creator.key, &ctx.program_id);
    initialize_config_with(ctx, &derived, threshold_level, end_sales_time, sale_price, max_quantity)
}

} // verus!
