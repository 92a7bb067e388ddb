use protected_mint::{
    available_proceeds, config_address, past_end_sales_time, release_funds, release_funds_with,
    Account, Address, Clock, ErrorCode, ProtectionConfig, ReleaseFunds, SignerInfo,
};

const FLOOR: u64 = 1_343_280;
const END: i64 = 1_700_000_000;

fn address(tag: u8) -> Address {
    Address { bytes: [tag; 32] }
}

fn record() -> ProtectionConfig {
    ProtectionConfig {
        creator_address: address(1),
        sale_price: 100,
        max_quantity: 10,
        threshold_level: 500,
        threshold_met: false,
        end_sales_time: END,
        derivation_nonce: 253,
    }
}

fn request(above_floor: u64, now: i64) -> ReleaseFunds {
    ReleaseFunds {
        creator_address: SignerInfo { key: address(1), is_signer: true },
        config_account: Account { key: address(9), lamports: FLOOR + above_floor, data: record() },
        clock: Clock { unix_timestamp: now },
        rent_exempt_minimum: FLOOR,
        program_id: address(7),
    }
}

fn derived() -> Option<(Address, u8)> {
    Some((address(9), 253))
}

#[test]
fn release_before_end_fails_whatever_the_balance() {
    for above in [0u64, 499, 500, 1_000_000] {
        for now in [END, END - 1, i64::MIN] {
            let mut ctx = request(above, now);
            let before = ctx;
            assert_eq!(release_funds_with(&mut ctx, &derived()), Err(ErrorCode::SaleNotOver));
            assert_eq!(ctx, before);
        }
    }
}

#[test]
fn release_before_end_fails_even_for_strangers() {
    let mut ctx = request(1_000, END);
    ctx.creator_address = SignerInfo { key: address(2), is_signer: false };
    assert_eq!(release_funds_with(&mut ctx, &None), Err(ErrorCode::SaleNotOver));
}

#[test]
fn release_below_threshold_fails_and_changes_nothing() {
    let mut ctx = request(499, END + 1);
    let before = ctx;
    assert_eq!(release_funds_with(&mut ctx, &derived()), Err(ErrorCode::ThresholdNotMet));
    assert_eq!(ctx, before);
    assert!(!ctx.config_account.data.threshold_met);
    assert_eq!(ctx.config_account.lamports, FLOOR + 499);
}

#[test]
fn release_at_threshold_pays_the_proceeds() {
    let mut ctx = request(500, END + 1);
    let transfer = release_funds_with(&mut ctx, &derived()).expect("a transfer");
    assert_eq!(transfer.lamports, 500);
    assert_eq!(transfer.from, address(9));
    assert_eq!(transfer.to, address(1));
    assert_eq!(transfer.authority.creator(), address(1));
    assert_eq!(transfer.authority.nonce(), 253);
    assert_eq!(ctx.config_account.lamports - transfer.lamports, FLOOR);
    assert!(ctx.config_account.data.threshold_met);
    let mut expected = record();
    expected.threshold_met = true;
    assert_eq!(ctx.config_account.data, expected);
}

#[test]
fn release_above_threshold_pays_everything_above_floor() {
    let mut ctx = request(987_654, END + 100);
    let transfer = release_funds_with(&mut ctx, &derived()).expect("a transfer");
    assert_eq!(transfer.lamports, 987_654);
    assert!(ctx.config_account.data.threshold_met);
}

#[test]
fn release_after_threshold_met_ignores_the_level() {
    let mut ctx = request(500, END + 1);
    let first = release_funds_with(&mut ctx, &derived()).expect("a transfer");
    ctx.config_account.lamports -= first.lamports;
    ctx.config_account.lamports += 30;
    let second = release_funds_with(&mut ctx, &derived()).expect("a transfer");
    assert_eq!(second.lamports, 30);
    assert!(ctx.config_account.data.threshold_met);
}

#[test]
fn release_at_floor_transfers_nothing() {
    let mut ctx = request(0, END + 1);
    ctx.config_account.data.threshold_met = true;
    let transfer = release_funds_with(&mut ctx, &derived()).expect("a transfer");
    assert_eq!(transfer.lamports, 0);
    assert!(ctx.config_account.data.threshold_met);
}

#[test]
fn release_below_floor_is_an_internal_error() {
    let mut ctx = request(0, END + 1);
    ctx.config_account.lamports = FLOOR - 1;
    ctx.config_account.data.threshold_met = true;
    let before = ctx;
    assert_eq!(release_funds_with(&mut ctx, &derived()), Err(ErrorCode::BalanceBelowRentFloor));
    assert_eq!(ctx, before);
}

#[test]
fn release_needs_the_signing_creator() {
    let mut ctx = request(600, END + 1);
    ctx.creator_address.is_signer = false;
    assert_eq!(release_funds_with(&mut ctx, &derived()), Err(ErrorCode::MissingSignature));
    let mut ctx = request(600, END + 1);
    ctx.creator_address.key = address(2);
    let before = ctx;
    assert_eq!(release_funds_with(&mut ctx, &derived()), Err(ErrorCode::CreatorMismatch));
    assert_eq!(ctx, before);
}

#[test]
fn release_needs_the_derived_record_address() {
    let mut ctx = request(600, END + 1);
    let before = ctx;
    assert_eq!(
        release_funds_with(&mut ctx, &Some((address(8), 253))),
        Err(ErrorCode::ConfigAddressMismatch)
    );
    assert_eq!(
        release_funds_with(&mut ctx, &Some((address(9), 252))),
        Err(ErrorCode::ConfigAddressMismatch)
    );
    assert_eq!(release_funds_with(&mut ctx, &None), Err(ErrorCode::ConfigAddressMismatch));
    assert_eq!(ctx, before);
}

#[test]
fn release_derives_the_address_itself() {
    let mut ctx = request(600, END + 1);
    assert_eq!(release_funds(&mut ctx), Err(ErrorCode::ConfigAddressMismatch));
    let (key, nonce) = config_address(&address(1), &address(7)).expect("an address");
    ctx.config_account.key = key;
    ctx.config_account.data.derivation_nonce = nonce;
    let transfer = release_funds(&mut ctx).expect("a transfer");
    assert_eq!(transfer.lamports, 600);
    assert_eq!(transfer.from, key);
    assert_eq!(transfer.authority.nonce(), nonce);
    assert!(ctx.config_account.data.threshold_met);
}

#[test]
fn available_proceeds_is_balance_less_floor() {
    assert_eq!(available_proceeds(1_000, 400), Some(600));
    assert_eq!(available_proceeds(400, 400), Some(0));
    assert_eq!(available_proceeds(399, 400), None);
    assert_eq!(available_proceeds(u64::MAX, 0), Some(u64::MAX));
    assert_eq!(available_proceeds(0, u64::MAX), None);
}

#[test]
fn threshold_reached_by_flag_or_by_funds() {
    let mut config = record();
    assert!(!config.threshold_reached(499));
    assert!(config.threshold_reached(500));
    assert!(config.threshold_reached(501));
    config.threshold_met = true;
    assert!(config.threshold_reached(0));
}

#[test]
fn past_end_sales_time_is_strict() {
    let config = record();
    assert_eq!(past_end_sales_time(&config, &Clock { unix_timestamp: END + 1 }), Ok(()));
    assert_eq!(
        past_end_sales_time(&config, &Clock { unix_timestamp: END }),
        Err(ErrorCode::SaleNotOver)
    );
    assert_eq!(
        past_end_sales_time(&config, &Clock { unix_timestamp: END - 1 }),
        Err(ErrorCode::SaleNotOver)
    );
}
