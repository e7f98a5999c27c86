use marginfi_health::fixed_point::I80F48;
use marginfi_health::layout::Pubkey;
use marginfi_health::marginfi::errors::{BalanceSide, HealthError, HealthErrorKind, MarginfiError};
use marginfi_health::marginfi::health::{evaluate, find_by_key, HealthReport, Keyed};
use marginfi_health::marginfi::types::bank::Bank;
use marginfi_health::marginfi::types::price::{
    FixedPriceFeed, OraclePriceFeedAdapter, Price, PythPushOraclePriceFeed,
};
use marginfi_health::marginfi::types::user_account::{Balance, MarginfiAccount};
use marginfi_health::marginfi::user::{BankAccount, MarginfiUserAccount};
use marginfi_health::utils::parse_account::parse_account;

const ONE: i128 = 1 << 48;
const W_095: i128 = 267_401_227_875_123;
const W_105: i128 = 295_548_725_546_189;
const P_09: i128 = 253_327_479_039_590;

fn fx(bits: i128) -> I80F48 {
    I80F48::from_bits(bits)
}

fn key(seed: u8) -> [u8; 32] {
    let mut bytes = [0u8; 32];
    for (i, byte) in bytes.iter_mut().enumerate() {
        *byte = seed.wrapping_add(i as u8);
    }
    bytes
}

fn pk(seed: u8) -> Pubkey {
    Pubkey { bytes: key(seed) }
}

struct BankSpec {
    decimals: u8,
    asset_share_value: i128,
    liability_share_value: i128,
    asset_weight_maint: i128,
    liability_weight_maint: i128,
    oracle_max_confidence: u32,
}

fn plain_bank(decimals: u8, asset_weight_maint: i128, liability_weight_maint: i128) -> Bank {
    bank(&BankSpec {
        decimals,
        asset_share_value: ONE,
        liability_share_value: ONE,
        asset_weight_maint,
        liability_weight_maint,
        oracle_max_confidence: 0,
    })
}

fn bank(spec: &BankSpec) -> Bank {
    let mut data = vec![0u8; 8 + 1856];
    let body = &mut data[8..];
    body[32] = spec.decimals;
    body[72..88].copy_from_slice(&spec.asset_share_value.to_le_bytes());
    body[88..104].copy_from_slice(&spec.liability_share_value.to_le_bytes());
    let config = &mut body[288..832];
    config[16..32].copy_from_slice(&spec.asset_weight_maint.to_le_bytes());
    config[48..64].copy_from_slice(&spec.liability_weight_maint.to_le_bytes());
    config[508..512].copy_from_slice(&spec.oracle_max_confidence.to_le_bytes());
    parse_account(&data).unwrap()
}

fn slot_bytes(active: u8, bank_seed: u8, asset_shares: i128, liability_shares: i128) -> [u8; 104] {
    let mut body = [0u8; 104];
    body[0] = active;
    body[1..33].copy_from_slice(&key(bank_seed));
    body[40..56].copy_from_slice(&asset_shares.to_le_bytes());
    body[56..72].copy_from_slice(&liability_shares.to_le_bytes());
    body
}

fn balance(bank_seed: u8, asset_shares: i128, liability_shares: i128) -> Balance {
    Balance::from_body(&slot_bytes(1, bank_seed, asset_shares, liability_shares))
}

fn account(slots: &[(usize, [u8; 104])]) -> MarginfiAccount {
    let mut data = vec![0u8; 8 + 2304];
    for (at, bytes) in slots {
        data[8 + 64 + 104 * at..8 + 64 + 104 * (at + 1)].copy_from_slice(bytes);
    }
    parse_account(&data).unwrap()
}

fn fixed(price: i128) -> OraclePriceFeedAdapter {
    OraclePriceFeedAdapter::Fixed(FixedPriceFeed { price: fx(price) })
}

fn pyth(price: i64, conf: u64, exponent: i32) -> OraclePriceFeedAdapter {
    let p = Price { price, conf, exponent, publish_time: 0 };
    OraclePriceFeedAdapter::PythPushOracle(PythPushOraclePriceFeed { price: p, ema_price: p })
}

fn error(kind: HealthErrorKind, position: usize, side: BalanceSide) -> HealthError {
    HealthError { kind, position, side }
}

fn susie(price_of_a: i128) -> (MarginfiAccount, Vec<Keyed<Bank>>, Vec<Keyed<OraclePriceFeedAdapter>>) {
    // 100 tokens of A deposited, 81.82 tokens of B borrowed; six decimals each
    let acc = account(&[
        (0, slot_bytes(1, 1, 100_000_000 * ONE, 0)),
        (1, slot_bytes(1, 2, 0, 81_820_000 * ONE)),
    ]);
    let banks = vec![
        Keyed { key: pk(1), value: plain_bank(6, W_095, ONE) },
        Keyed { key: pk(2), value: plain_bank(6, ONE, W_105) },
    ];
    let feeds = vec![
        Keyed { key: pk(1), value: fixed(price_of_a) },
        Keyed { key: pk(2), value: fixed(ONE) },
    ];
    (acc, banks, feeds)
}

#[test]
fn deposit_of_100_against_borrow_of_81_82_is_healthy() {
    let (acc, banks, feeds) = susie(ONE);
    let report = evaluate(&acc, &banks, &feeds).unwrap();
    assert_eq!(report.asset_value, fx(100 * ONE));
    assert_eq!(report.liability_value, fx(23_030_282_594_465_873));
    // 100 * 0.95 - 81.82 * 1.05 = 9.089
    assert_eq!(report.margin, fx(2_558_326_063_323_117));
    assert!(!report.liquidatable);
    let margin = report.margin.to_bits() as f64 / ONE as f64;
    assert!((margin - 9.089).abs() < 1e-9);
}

#[test]
fn a_price_drop_of_ten_percent_makes_it_liquidatable() {
    let (acc, banks, feeds) = susie(P_09);
    let report = evaluate(&acc, &banks, &feeds).unwrap();
    assert_eq!(report.asset_value, fx(25_332_747_903_959_000));
    assert_eq!(report.liability_value, fx(23_030_282_594_465_873));
    // 90 * 0.95 - 81.82 * 1.05 = -0.411
    assert_eq!(report.margin, fx(-115_686_215_428_151));
    assert!(report.liquidatable);
    let margin = report.margin.to_bits() as f64 / ONE as f64;
    assert!((margin + 0.411).abs() < 1e-9);
}

#[test]
fn an_account_without_shares_is_worth_nothing() {
    let zero = HealthReport {
        asset_value: I80F48::zero(),
        liability_value: I80F48::zero(),
        margin: I80F48::zero(),
        liquidatable: false,
    };
    let none_b: Vec<Keyed<Bank>> = vec![];
    let none_f: Vec<Keyed<OraclePriceFeedAdapter>> = vec![];
    assert_eq!(evaluate(&account(&[]), &none_b, &none_f), Ok(zero));
    // slots in use that hold no shares need no bank and no feed
    let idle = account(&[(0, slot_bytes(1, 1, 0, 0)), (7, slot_bytes(1, 2, 0, 0)), (15, slot_bytes(1, 3, 0, 0))]);
    assert_eq!(evaluate(&idle, &none_b, &none_f), Ok(zero));
    // and if banks are supplied, their prices are not asked
    let banks = vec![Keyed { key: pk(1), value: plain_bank(30, ONE, ONE) }];
    let feeds = vec![Keyed { key: pk(1), value: pyth(1, 0, 100) }];
    assert_eq!(evaluate(&idle, &banks, &feeds), Ok(zero));
    // shares in a slot that is not in use are no position
    let unused = account(&[(0, slot_bytes(0, 1, 5 * ONE, 5 * ONE))]);
    assert_eq!(evaluate(&unused, &none_b, &none_f), Ok(zero));
}

#[test]
fn positions_without_shares_add_nothing() {
    let entry = BankAccount {
        bank: plain_bank(30, W_095, W_105),
        price_feed: pyth(1, 0, 100),
        balance: balance(1, 0, 0),
    };
    assert_eq!(entry.asset_value(), Ok(I80F48::zero()));
    assert_eq!(entry.liability_value(), Ok(I80F48::zero()));
    let user = MarginfiUserAccount { account: account(&[]), bank_accounts: vec![entry, entry, entry] };
    assert_eq!(user.asset_value(), Ok(I80F48::zero()));
    assert_eq!(user.liability_value(), Ok(I80F48::zero()));
    assert_eq!(user.maintenance(), Ok(I80F48::zero()));
}

#[test]
fn a_missing_bank_is_a_lookup_error() {
    let (acc, banks, feeds) = susie(ONE);
    let only_b = vec![banks[1]];
    assert_eq!(
        evaluate(&acc, &only_b, &feeds),
        Err(error(HealthErrorKind::MissingBank, 0, BalanceSide::Assets))
    );
    let only_a = vec![banks[0]];
    assert_eq!(
        evaluate(&acc, &only_a, &feeds),
        Err(error(HealthErrorKind::MissingBank, 1, BalanceSide::Liabilities))
    );
    let none: Vec<Keyed<Bank>> = vec![];
    assert_eq!(
        evaluate(&acc, &none, &feeds),
        Err(error(HealthErrorKind::MissingBank, 0, BalanceSide::Assets))
    );
}

#[test]
fn a_missing_feed_is_a_lookup_error() {
    let (acc, banks, feeds) = susie(ONE);
    let only_a = vec![feeds[0]];
    assert_eq!(
        evaluate(&acc, &banks, &only_a),
        Err(error(HealthErrorKind::MissingFeed, 1, BalanceSide::Liabilities))
    );
    let none: Vec<Keyed<OraclePriceFeedAdapter>> = vec![];
    assert_eq!(
        evaluate(&acc, &banks, &none),
        Err(error(HealthErrorKind::MissingFeed, 0, BalanceSide::Assets))
    );
    // the bank is looked up before the feed
    let no_banks: Vec<Keyed<Bank>> = vec![];
    assert_eq!(
        evaluate(&acc, &no_banks, &none),
        Err(error(HealthErrorKind::MissingBank, 0, BalanceSide::Assets))
    );
}

#[test]
fn lookups_come_before_any_valuation() {
    // the first position's oracle fails, the second position's bank is missing
    let acc = account(&[(0, slot_bytes(1, 1, ONE, 0)), (1, slot_bytes(1, 2, ONE, 0))]);
    let banks = vec![Keyed { key: pk(1), value: plain_bank(6, ONE, ONE) }];
    let feeds = vec![Keyed { key: pk(1), value: pyth(1, 0, 100) }];
    assert_eq!(
        evaluate(&acc, &banks, &feeds),
        Err(error(HealthErrorKind::MissingBank, 1, BalanceSide::Assets))
    );
}

#[test]
fn the_first_entry_under_a_key_is_taken() {
    let entries = vec![
        Keyed { key: pk(1), value: 10u8 },
        Keyed { key: pk(2), value: 20 },
        Keyed { key: pk(1), value: 30 },
    ];
    assert_eq!(find_by_key(&entries, &pk(1)), Some(0));
    assert_eq!(find_by_key(&entries, &pk(2)), Some(1));
    assert_eq!(find_by_key(&entries, &pk(3)), None);
    let none: Vec<Keyed<u8>> = vec![];
    assert_eq!(find_by_key(&none, &pk(1)), None);

    let acc = account(&[(0, slot_bytes(1, 1, 100_000_000 * ONE, 0))]);
    let banks = vec![
        Keyed { key: pk(9), value: plain_bank(0, 0, 0) },
        Keyed { key: pk(1), value: plain_bank(6, W_095, ONE) },
        Keyed { key: pk(1), value: plain_bank(0, ONE, ONE) },
    ];
    let feeds = vec![
        Keyed { key: pk(1), value: fixed(ONE) },
        Keyed { key: pk(1), value: fixed(5 * ONE) },
    ];
    let report = evaluate(&acc, &banks, &feeds).unwrap();
    assert_eq!(report.asset_value, fx(100 * ONE));
    assert_eq!(report.margin, fx(26_740_122_787_512_300));
}

#[test]
fn deposits_are_priced_low_by_the_confidence_interval() {
    // 2.5 tokens of nine decimals at a share value of 1.1, priced at 100 +- 1.00000 * 2.12
    let spec = BankSpec {
        decimals: 9,
        asset_share_value: 309_622_474_381_722,
        liability_share_value: 337_769_972_052_787,
        asset_weight_maint: W_095,
        liability_weight_maint: W_105,
        oracle_max_confidence: 0,
    };
    let entry = BankAccount {
        bank: bank(&spec),
        price_feed: pyth(10_000_000, 100_000, -5),
        balance: balance(1, 2_500_000_000 * ONE, 1_000_000_000 * ONE),
    };
    assert_eq!(entry.asset_value(), Ok(fx(75_764_619_481_207_372)));
    assert_eq!(entry.side_value(BalanceSide::Assets), Ok(fx(75_764_619_481_207_372)));
    // the borrow is valued by the liability share value of 1.2, at the same low price
    assert_eq!(entry.liability_value(), Ok(fx(33_060_924_864_526_791)));
    assert_eq!(entry.weighted_value(BalanceSide::Assets), Ok(fx(71_976_388_507_146_949)));
    assert_eq!(entry.weighted_value(BalanceSide::Liabilities), Ok(fx(34_713_971_107_753_154)));
    let user = MarginfiUserAccount { account: account(&[]), bank_accounts: vec![entry, entry] };
    assert_eq!(user.asset_value(), Ok(fx(2 * 75_764_619_481_207_372)));
    assert_eq!(user.liability_value(), Ok(fx(2 * 33_060_924_864_526_791)));
    assert_eq!(
        user.maintenance(),
        Ok(fx(2 * 71_976_388_507_146_949 - 2 * 34_713_971_107_753_154))
    );
    let report = user.report().unwrap();
    assert_eq!(report.asset_value, fx(2 * 75_764_619_481_207_372));
    assert_eq!(report.liability_value, fx(2 * 33_060_924_864_526_791));
    assert_eq!(report.margin, fx(74_524_834_798_787_590));
    assert!(!report.liquidatable);
}

#[test]
fn the_bank_s_confidence_limit_is_used() {
    let mut spec = BankSpec {
        decimals: 0,
        asset_share_value: ONE,
        liability_share_value: ONE,
        asset_weight_maint: ONE,
        liability_weight_maint: ONE,
        oracle_max_confidence: 0,
    };
    let wide = pyth(10_000_000, 943_396, -5);
    let entry = BankAccount { bank: bank(&spec), price_feed: wide, balance: balance(1, ONE, 0) };
    assert_eq!(
        entry.asset_value(),
        Err(HealthErrorKind::Oracle(MarginfiError::OracleMaxConfidenceExceeded))
    );
    // the borrow side holds no shares and asks for no price
    assert_eq!(entry.liability_value(), Ok(I80F48::zero()));
    spec.oracle_max_confidence = u32::MAX;
    let entry = BankAccount { bank: bank(&spec), price_feed: wide, balance: balance(1, ONE, 0) };
    assert_eq!(entry.asset_value(), Ok(fx(26_740_122_787_512_300)));
}

#[test]
fn an_oracle_error_ends_the_valuation() {
    let good = BankAccount {
        bank: plain_bank(0, ONE, ONE),
        price_feed: fixed(ONE),
        balance: balance(1, ONE, 2 * ONE),
    };
    let bad = BankAccount {
        bank: plain_bank(0, ONE, ONE),
        price_feed: pyth(1, 0, 100),
        balance: balance(2, 0, ONE),
    };
    let user = MarginfiUserAccount {
        account: account(&[]),
        bank_accounts: vec![good, bad, good],
    };
    let oracle = HealthErrorKind::Oracle(MarginfiError::MathError);
    // the failing position has no deposit: the sum of deposits is not affected
    assert_eq!(user.asset_value(), Ok(fx(2 * ONE)));
    assert_eq!(user.liability_value(), Err(error(oracle, 1, BalanceSide::Liabilities)));
    assert_eq!(user.maintenance(), Err(error(oracle, 1, BalanceSide::Liabilities)));
    assert_eq!(user.report(), Err(error(oracle, 1, BalanceSide::Liabilities)));
}

#[test]
fn overflow_ends_the_valuation() {
    let arithmetic = HealthErrorKind::Arithmetic;
    let huge = BankAccount {
        bank: plain_bank(0, ONE, ONE),
        price_feed: fixed(ONE),
        balance: balance(1, i128::MAX, 0),
    };
    assert_eq!(huge.asset_value(), Ok(fx(i128::MAX)));
    let user = MarginfiUserAccount { account: account(&[]), bank_accounts: vec![huge, huge] };
    assert_eq!(user.asset_value(), Err(error(arithmetic, 1, BalanceSide::Assets)));
    assert_eq!(user.maintenance(), Err(error(arithmetic, 1, BalanceSide::Assets)));

    // a product with the price that overflows
    let priced = BankAccount { price_feed: fixed(2 * ONE), ..huge };
    assert_eq!(priced.asset_value(), Err(arithmetic));
    // a share value that overflows
    let spec = BankSpec {
        decimals: 0,
        asset_share_value: 2 * ONE,
        liability_share_value: ONE,
        asset_weight_maint: ONE,
        liability_weight_maint: ONE,
        oracle_max_confidence: 0,
    };
    let valued = BankAccount { bank: bank(&spec), ..huge };
    assert_eq!(valued.asset_value(), Err(arithmetic));
    // more decimals than a power of ten can have
    let fine = BankAccount { bank: plain_bank(24, ONE, ONE), ..huge };
    assert_eq!(fine.asset_value(), Err(arithmetic));
    // a weight that overflows
    let weighted = BankAccount { bank: plain_bank(0, 2 * ONE, ONE), ..huge };
    assert_eq!(weighted.asset_value(), Ok(fx(i128::MAX)));
    assert_eq!(weighted.weighted_value(BalanceSide::Assets), Err(arithmetic));
    let user = MarginfiUserAccount { account: account(&[]), bank_accounts: vec![weighted] };
    assert_eq!(user.asset_value(), Ok(fx(i128::MAX)));
    assert_eq!(user.maintenance(), Err(error(arithmetic, 0, BalanceSide::Assets)));
}

#[test]
fn a_margin_that_overflows_is_reported_behind_the_last_position() {
    let deposit = BankAccount {
        bank: plain_bank(0, ONE, ONE),
        price_feed: fixed(ONE),
        balance: balance(1, i128::MAX, 0),
    };
    let borrow = BankAccount {
        bank: plain_bank(0, ONE, ONE),
        price_feed: fixed(ONE),
        balance: balance(2, 0, i128::MIN),
    };
    let user = MarginfiUserAccount { account: account(&[]), bank_accounts: vec![deposit, borrow] };
    assert_eq!(user.asset_value(), Ok(fx(i128::MAX)));
    assert_eq!(user.liability_value(), Ok(fx(i128::MIN)));
    assert_eq!(
        user.maintenance(),
        Err(error(HealthErrorKind::Arithmetic, 2, BalanceSide::Liabilities))
    );
}

#[test]
fn a_position_with_both_sides_counts_on_both() {
    let acc = account(&[(5, slot_bytes(1, 1, 10 * ONE, 4 * ONE))]);
    let banks = vec![Keyed { key: pk(1), value: plain_bank(0, ONE / 2, 2 * ONE) }];
    let feeds = vec![Keyed { key: pk(1), value: fixed(3 * ONE) }];
    let report = evaluate(&acc, &banks, &feeds).unwrap();
    assert_eq!(report.asset_value, fx(30 * ONE));
    assert_eq!(report.liability_value, fx(12 * ONE));
    // 30 * 0.5 - 12 * 2
    assert_eq!(report.margin, fx(-9 * ONE));
    assert!(report.liquidatable);
}

#[test]
fn a_margin_of_zero_is_not_liquidatable() {
    let acc = account(&[(0, slot_bytes(1, 1, 10 * ONE, 10 * ONE))]);
    let banks = vec![Keyed { key: pk(1), value: plain_bank(0, ONE, ONE) }];
    let feeds = vec![Keyed { key: pk(1), value: fixed(ONE) }];
    let report = evaluate(&acc, &banks, &feeds).unwrap();
    assert_eq!(report.margin, I80F48::zero());
    assert!(!report.liquidatable);
    let acc = account(&[(0, slot_bytes(1, 1, 10 * ONE, 10 * ONE + 1))]);
    let report = evaluate(&acc, &banks, &feeds).unwrap();
    assert_eq!(report.margin, fx(-1));
    assert!(report.liquidatable);
}

#[test]
fn account_is_put_together_with_banks_and_feeds_in_order() {
    let acc = account(&[
        (2, slot_bytes(1, 1, ONE, 0)),
        (3, slot_bytes(0, 9, ONE, 0)),
        (9, slot_bytes(1, 2, 0, 0)),
    ]);
    let keys = MarginfiUserAccount::bank_keys(&acc);
    assert_eq!(keys.len(), 2);
    assert_eq!(keys[0].bytes, key(1));
    assert_eq!(keys[1].bytes, key(2));
    let banks = vec![plain_bank(1, ONE, ONE), plain_bank(2, ONE, ONE)];
    let feeds = vec![fixed(ONE), fixed(2 * ONE)];
    let user = MarginfiUserAccount::assemble(acc, &banks, &feeds).unwrap();
    assert_eq!(user.bank_accounts.len(), 2);
    assert_eq!(user.bank_accounts[0].bank.mint_decimals, 1);
    assert_eq!(user.bank_accounts[0].balance.bank_pk.bytes, key(1));
    assert_eq!(user.bank_accounts[1].bank.mint_decimals, 2);
    assert_eq!(user.bank_accounts[1].balance.bank_pk.bytes, key(2));
    assert!(matches!(
        user.bank_accounts[1].price_feed,
        OraclePriceFeedAdapter::Fixed(FixedPriceFeed { price }) if price == fx(2 * ONE)
    ));
    assert_eq!(user.account().lending_account.balances[2].bank_pk.bytes, key(1));
    assert!(MarginfiUserAccount::assemble(acc, &banks[..1].to_vec(), &feeds).is_none());
    assert!(MarginfiUserAccount::assemble(acc, &banks, &feeds[..1].to_vec()).is_none());
    let three = vec![banks[0], banks[1], banks[0]];
    let three_feeds = vec![feeds[0], feeds[1], feeds[0]];
    assert!(MarginfiUserAccount::assemble(acc, &three, &three_feeds).is_none());
}
