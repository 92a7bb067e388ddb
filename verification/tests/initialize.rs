use protected_mint::{
    config_address, future_end_time, initialize_config, initialize_config_with, Account, Address,
    Clock, ErrorCode, InitProtectionConfig, SignerInfo,
};

fn address(tag: u8) -> Address {
    Address { bytes: [tag; 32] }
}

fn request(now: i64) -> InitProtectionConfig {
    InitProtectionConfig {
        config_account: Account { key: address(9), lamports: 0, data: None },
        creator: SignerInfo { key: address(1), is_signer: true },
        clock: Clock { unix_timestamp: now },
        program_id: address(7),
    }
}

fn derived_for(ctx: &InitProtectionConfig, nonce: u8) -> Option<(Address, u8)> {
    Some((ctx.config_account.key, nonce))
}

#[test]
fn initialize_stores_the_terms() {
    let mut ctx = request(1_000);
    let derived = derived_for(&ctx, 254);
    let r = initialize_config_with(&mut ctx, &derived, 500, 2_000, 100, 10);
    assert_eq!(r, Ok(()));
    let record = ctx.config_account.data.expect("a record");
    assert_eq!(record.creator_address, address(1));
    assert_eq!(record.sale_price, 100);
    assert_eq!(record.max_quantity, 10);
    assert_eq!(record.threshold_level, 500);
    assert!(!record.threshold_met);
    assert_eq!(record.end_sales_time, 2_000);
    assert_eq!(record.derivation_nonce, 254);
    assert_eq!(ctx.config_account.key, address(9));
    assert_eq!(ctx.config_account.lamports, 0);
}

#[test]
fn initialize_accepts_threshold_equal_to_ceiling() {
    let mut ctx = request(0);
    let derived = derived_for(&ctx, 255);
    assert_eq!(initialize_config_with(&mut ctx, &derived, 1_000, 1, 100, 10), Ok(()));
    assert_eq!(ctx.config_account.data.map(|c| c.threshold_level), Some(1_000));
}

#[test]
fn initialize_rejects_threshold_above_ceiling() {
    let mut ctx = request(0);
    let before = ctx;
    let derived = derived_for(&ctx, 255);
    let r = initialize_config_with(&mut ctx, &derived, 1_001, 1, 100, 10);
    assert_eq!(r, Err(ErrorCode::ThresholdTooGreat));
    assert_eq!(ctx, before);
}

#[test]
fn initialize_rejects_overflowing_ceiling() {
    let mut ctx = request(0);
    let before = ctx;
    let derived = derived_for(&ctx, 255);
    let r = initialize_config_with(&mut ctx, &derived, 5, 1, u64::MAX, 2);
    assert_eq!(r, Err(ErrorCode::ThresholdTooGreat));
    assert_eq!(ctx, before);
}

#[test]
fn initialize_rejects_end_not_in_future() {
    let mut ctx = request(2_000);
    let before = ctx;
    let derived = derived_for(&ctx, 255);
    assert_eq!(
        initialize_config_with(&mut ctx, &derived, 500, 2_000, 100, 10),
        Err(ErrorCode::EndSalesFuture)
    );
    assert_eq!(
        initialize_config_with(&mut ctx, &derived, 500, 1_999, 100, 10),
        Err(ErrorCode::EndSalesFuture)
    );
    assert_eq!(ctx, before);
    assert_eq!(initialize_config_with(&mut ctx, &derived, 500, 2_001, 100, 10), Ok(()));
}

#[test]
fn end_time_is_checked_before_terms() {
    let mut ctx = request(10);
    let derived = derived_for(&ctx, 255);
    assert_eq!(
        initialize_config_with(&mut ctx, &derived, 9_999, 10, 1, 1),
        Err(ErrorCode::EndSalesFuture)
    );
}

#[test]
fn initialize_twice_fails() {
    let mut ctx = request(0);
    let derived = derived_for(&ctx, 255);
    assert_eq!(initialize_config_with(&mut ctx, &derived, 500, 50, 100, 10), Ok(()));
    let after_first = ctx;
    assert_eq!(
        initialize_config_with(&mut ctx, &derived, 500, 50, 100, 10),
        Err(ErrorCode::ConfigAlreadyInitialized)
    );
    assert_eq!(
        initialize_config_with(&mut ctx, &derived, 1, 99, 7, 7),
        Err(ErrorCode::ConfigAlreadyInitialized)
    );
    assert_eq!(ctx, after_first);
}

#[test]
fn initialize_needs_signature() {
    let mut ctx = request(0);
    ctx.creator.is_signer = false;
    let derived = derived_for(&ctx, 255);
    assert_eq!(
        initialize_config_with(&mut ctx, &derived, 500, 50, 100, 10),
        Err(ErrorCode::MissingSignature)
    );
    assert_eq!(ctx.config_account.data, None);
}

#[test]
fn initialize_needs_derived_address() {
    let mut ctx = request(0);
    let elsewhere = Some((address(8), 255u8));
    assert_eq!(
        initialize_config_with(&mut ctx, &elsewhere, 500, 50, 100, 10),
        Err(ErrorCode::ConfigAddressMismatch)
    );
    assert_eq!(
        initialize_config_with(&mut ctx, &None, 500, 50, 100, 10),
        Err(ErrorCode::ConfigAddressMismatch)
    );
    assert_eq!(ctx.config_account.data, None);
}

#[test]
fn initialize_derives_the_address_itself() {
    let mut ctx = request(0);
    let (key, nonce) = config_address(&ctx.creator.key, &ctx.program_id).expect("an address");
    assert_ne!(key, ctx.creator.key);
    assert_eq!(
        initialize_config(&mut ctx, 500, 50, 100, 10),
        Err(ErrorCode::ConfigAddressMismatch)
    );
    ctx.config_account.key = key;
    assert_eq!(initialize_config(&mut ctx, 500, 50, 100, 10), Ok(()));
    assert_eq!(ctx.config_account.data.map(|c| c.derivation_nonce), Some(nonce));
    assert_eq!(
        initialize_config(&mut ctx, 500, 50, 100, 10),
        Err(ErrorCode::ConfigAlreadyInitialized)
    );
}

#[test]
fn future_end_time_is_strict() {
    let clock = Clock { unix_timestamp: 5 };
    assert_eq!(future_end_time(&clock, 6), Ok(()));
    assert_eq!(future_end_time(&clock, 5), Err(ErrorCode::EndSalesFuture));
    assert_eq!(future_end_time(&clock, i64::MIN), Err(ErrorCode::EndSalesFuture));
}
