use anchor_lang::{AnchorSerialize, Discriminator};
use marginfi_health::fixed_point::I80F48;
use marginfi_health::marginfi::errors::MarginfiError;
use marginfi_health::marginfi::types::bank::Bank;
use marginfi_health::marginfi::types::bank_config::OracleSetup;
use marginfi_health::marginfi::types::kamino_mocks_state::{
    adjust_i128, adjust_i64, adjust_u64, ratio_of_reserve, reserve_ratio, MinimalReserve,
    ReserveSupplies, MINIMAL_RESERVE_SIZE,
};
use marginfi_health::marginfi::types::price::{
    scale_by_pool, OracleAccounts, OraclePriceFeedAdapter, OraclePriceFeedAdapterConfig,
    OraclePriceType, Price, PriceAdapter, PythPushOraclePriceFeed, StakeAccount,
    LAMPORTS_PER_SOL,
};
use marginfi_health::utils::parse_account::parse_account;
use pyth_solana_receiver_sdk::price_update::{
    PriceFeedMessage, PriceUpdateV2 as PythUpdate, VerificationLevel as PythLevel,
};
use solana_stake_interface::stake_flags::StakeFlags;
use solana_stake_interface::state::{Delegation, Meta, Stake, StakeStateV2};
use switchboard_on_demand::PullFeedAccountData;

const ONE: i128 = 1 << 48;
const NOW: i64 = 1_700_000_000;

fn fx(bits: i128) -> I80F48 {
    I80F48::from_bits(bits)
}

fn key(seed: u8) -> [u8; 32] {
    let mut bytes = [0u8; 32];
    for (i, byte) in bytes.iter_mut().enumerate() {
        *byte = seed.wrapping_add(i as u8);
    }
    bytes
}

fn bank(setup: u8, max_age: u16, fixed_price: i128) -> Bank {
    let mut data = vec![0u8; 8 + 1856];
    let config = &mut data[8 + 288..8 + 832];
    config[313] = setup;
    for i in 0..5 {
        config[314 + 32 * i..346 + 32 * i].copy_from_slice(&key(16 * i as u8 + 1));
    }
    config[504..506].copy_from_slice(&max_age.to_le_bytes());
    config[512..528].copy_from_slice(&fixed_price.to_le_bytes());
    parse_account(&data).unwrap()
}

fn pyth_account(level: PythLevel, publish_time: i64) -> Vec<u8> {
    let update = PythUpdate {
        write_authority: anchor_lang::prelude::Pubkey::default(),
        verification_level: level,
        price_message: PriceFeedMessage {
            feed_id: [7u8; 32],
            price: 10_000_000,
            conf: 100_000,
            exponent: -5,
            publish_time,
            prev_publish_time: publish_time - 1,
            ema_price: 9_950_000,
            ema_conf: 120_000,
        },
        posted_slot: 99,
    };
    let mut data = PythUpdate::DISCRIMINATOR.to_vec();
    update.serialize(&mut data).unwrap();
    data
}

fn swb_account(value: i128, std_dev: i128, last_update_timestamp: i64) -> Vec<u8> {
    let mut feed: PullFeedAccountData = bytemuck::Zeroable::zeroed();
    feed.result.value = value;
    feed.result.std_dev = std_dev;
    feed.result.mean = 17;
    feed.result.slot = 4;
    feed.feed_hash = [3u8; 32];
    feed.last_update_timestamp = last_update_timestamp;
    let mut data = <PullFeedAccountData as switchboard_on_demand::Discriminator>::DISCRIMINATOR.to_vec();
    data.extend_from_slice(bytemuck::bytes_of(&feed));
    data
}

fn stake_state(state: StakeStateV2) -> Vec<u8> {
    let mut data = Vec::new();
    state.serialize(&mut data).unwrap();
    data.resize(200, 0);
    data
}

fn delegated(stake: u64) -> Vec<u8> {
    let mut delegation = Delegation::default();
    delegation.stake = stake;
    stake_state(StakeStateV2::Stake(
        Meta::default(),
        Stake { delegation, credits_observed: 5 },
        StakeFlags::empty(),
    ))
}

fn config(bank: &Bank, accounts: OracleAccounts) -> OraclePriceFeedAdapterConfig {
    OraclePriceFeedAdapterConfig { bank: *bank, accounts, unix_timestamp: NOW, max_age: 60 }
}

fn pyth_of(adapter: OraclePriceFeedAdapter) -> PythPushOraclePriceFeed {
    match adapter {
        OraclePriceFeedAdapter::PythPushOracle(feed) => feed,
        _ => panic!("not a Pyth feed"),
    }
}

fn reserve(available: u64, borrowed_sf: u128, fees_sf: [u128; 3], supply: u64) -> Vec<u8> {
    let mut data = vec![0u8; 8 + 8616];
    let body = &mut data[8..];
    body[216..224].copy_from_slice(&available.to_le_bytes());
    body[224..240].copy_from_slice(&borrowed_sf.to_le_bytes());
    body[336..352].copy_from_slice(&fees_sf[0].to_le_bytes());
    body[352..368].copy_from_slice(&fees_sf[1].to_le_bytes());
    body[368..384].copy_from_slice(&fees_sf[2].to_le_bytes());
    body[2584..2592].copy_from_slice(&supply.to_le_bytes());
    data
}

fn plain_reserve(available: u64, supply: u64) -> Vec<u8> {
    reserve(available, 0, [0, 0, 0], supply)
}

fn supplies(liquidity: i128, collateral: i128) -> ReserveSupplies {
    ReserveSupplies { total_liquidity: fx(liquidity), total_collateral: fx(collateral) }
}

#[test]
fn keys_to_fetch_by_oracle_kind() {
    let counts = [(3u8, 1usize), (4, 1), (5, 3), (6, 2), (7, 2), (8, 0)];
    for (setup, count) in counts {
        let b = bank(setup, 0, 0);
        let keys = OraclePriceFeedAdapterConfig::required_oracle_keys(&b.config).unwrap();
        assert_eq!(keys.len(), count);
        for (i, k) in keys.iter().enumerate() {
            assert_eq!(k.bytes, key(16 * i as u8 + 1));
        }
    }
}

#[test]
fn kinds_without_an_oracle_are_refused() {
    let refused = [
        (0u8, MarginfiError::OracleNotSetup),
        (1, MarginfiError::Deprecated),
        (2, MarginfiError::Deprecated),
        (9, MarginfiError::Deprecated),
        (200, MarginfiError::Deprecated),
    ];
    for (setup, error) in refused {
        let b = bank(setup, 0, 0);
        assert_eq!(
            OraclePriceFeedAdapterConfig::required_oracle_keys(&b.config).err(),
            Some(error)
        );
        assert_eq!(
            OraclePriceFeedAdapterConfig::load_with_clock(&b, OracleAccounts::NoAccounts, NOW)
                .err(),
            Some(error)
        );
        assert_eq!(
            OraclePriceFeedAdapterConfig::load_with_clock_and_max_age(
                &b,
                OracleAccounts::PythPush { price: vec![] },
                NOW,
                5
            )
            .err(),
            Some(error)
        );
    }
}

#[test]
fn accounts_must_be_those_of_the_kind() {
    let fits = |setup: u8, accounts: OracleAccounts| {
        OraclePriceFeedAdapterConfig::load_with_clock(&bank(setup, 0, 0), accounts, NOW).is_ok()
    };
    let make = |which: usize| match which {
        0 => OracleAccounts::NoAccounts,
        1 => OracleAccounts::PythPush { price: vec![1] },
        2 => OracleAccounts::SwitchboardPull { oracle: vec![2] },
        3 => OracleAccounts::StakedWithPythPush {
            price: vec![3],
            lst_mint_supply: 1,
            stake_state: vec![4],
        },
        4 => OracleAccounts::KaminoPythPush { price: vec![5], reserve: vec![7] },
        _ => OracleAccounts::KaminoSwitchboardPull { oracle: vec![6], reserve: vec![8] },
    };
    let wanted = [(8u8, 0usize), (3, 1), (4, 2), (5, 3), (6, 4), (7, 5)];
    for (setup, right) in wanted {
        for which in 0..6 {
            assert_eq!(fits(setup, make(which)), which == right);
        }
    }
    assert_eq!(
        OraclePriceFeedAdapterConfig::load_with_clock(&bank(3, 0, 0), make(2), NOW).err(),
        Some(MarginfiError::MissingOracleAccount)
    );
    assert_eq!(
        OraclePriceFeedAdapterConfig::load_with_clock(&bank(8, 0, 0), make(1), NOW).err(),
        Some(MarginfiError::MissingOracleAccount)
    );
}

#[test]
fn configuration_keeps_what_it_was_given() {
    let b = bank(3, 45, 0);
    let c = OraclePriceFeedAdapterConfig::load_with_clock_and_max_age(
        &b,
        OracleAccounts::PythPush { price: vec![1, 2, 3] },
        NOW,
        77,
    )
    .unwrap();
    assert_eq!(c.unix_timestamp, NOW);
    assert_eq!(c.max_age, 77);
    assert_eq!(c.bank.config.oracle_setup, OracleSetup::PythPushOracle);
    assert!(matches!(c.accounts, OracleAccounts::PythPush { ref price } if price == &vec![1, 2, 3]));
    let c = OraclePriceFeedAdapterConfig::load_with_clock(
        &b,
        OracleAccounts::PythPush { price: vec![] },
        NOW,
    )
    .unwrap();
    assert_eq!(c.max_age, 45);
    let c = OraclePriceFeedAdapterConfig::load_with_clock(
        &bank(3, 0, 0),
        OracleAccounts::PythPush { price: vec![] },
        NOW,
    )
    .unwrap();
    assert_eq!(c.max_age, 60);
    let c = OraclePriceFeedAdapterConfig::load_with_clock(
        &bank(4, 0, 0),
        OracleAccounts::SwitchboardPull { oracle: vec![] },
        NOW,
    )
    .unwrap();
    assert_eq!(c.max_age, 0);
}

#[test]
fn fixed_price_must_not_be_negative() {
    let adapter = OraclePriceFeedAdapter::try_from_config(config(
        &bank(8, 0, 3 * ONE),
        OracleAccounts::NoAccounts,
    ))
    .unwrap();
    assert_eq!(
        adapter.get_price_of_type(OraclePriceType::RealTime, None, 0),
        Ok(fx(3 * ONE))
    );
    assert!(OraclePriceFeedAdapter::try_from_config(config(
        &bank(8, 0, 0),
        OracleAccounts::NoAccounts
    ))
    .is_ok());
    assert_eq!(
        OraclePriceFeedAdapter::try_from_config(config(&bank(8, 0, -1), OracleAccounts::NoAccounts))
            .err(),
        Some(MarginfiError::FixedOraclePriceNegative)
    );
}

#[test]
fn pyth_account_resolves_to_a_pyth_feed() {
    let b = bank(3, 0, 0);
    let accounts = OracleAccounts::PythPush { price: pyth_account(PythLevel::Full, NOW - 60) };
    let feed = pyth_of(OraclePriceFeedAdapter::try_from_config(config(&b, accounts)).unwrap());
    assert_eq!(
        feed.price,
        Price { price: 10_000_000, conf: 100_000, exponent: -5, publish_time: NOW - 60 }
    );
    assert_eq!(
        feed.ema_price,
        Price { price: 9_950_000, conf: 120_000, exponent: -5, publish_time: NOW - 60 }
    );
    let stale = OracleAccounts::PythPush { price: pyth_account(PythLevel::Full, NOW - 61) };
    assert_eq!(
        OraclePriceFeedAdapter::try_from_config(config(&b, stale)).err(),
        Some(MarginfiError::PythPushStalePrice)
    );
    let partial = OracleAccounts::PythPush {
        price: pyth_account(PythLevel::Partial { num_signatures: 12 }, NOW),
    };
    assert_eq!(
        OraclePriceFeedAdapter::try_from_config(config(&b, partial)).err(),
        Some(MarginfiError::PythPushInsufficientVerificationLevel)
    );
    let other = OracleAccounts::PythPush { price: swb_account(1, 1, NOW) };
    assert_eq!(
        OraclePriceFeedAdapter::try_from_config(config(&b, other)).err(),
        Some(MarginfiError::PythPushInvalidAccount)
    );
}

#[test]
fn switchboard_account_resolves_to_a_switchboard_feed() {
    let b = bank(4, 0, 0);
    let accounts = OracleAccounts::SwitchboardPull {
        oracle: swb_account(150_250_000_000_000_000_000, 500_000_000_000_000_000, NOW - 60),
    };
    let adapter = OraclePriceFeedAdapter::try_from_config(config(&b, accounts)).unwrap();
    assert!(matches!(adapter, OraclePriceFeedAdapter::SwitchboardPull(_)));
    assert_eq!(
        adapter.get_price_of_type(OraclePriceType::RealTime, None, 0),
        Ok(fx(42_291_615_250_776_064))
    );
    let stale = OracleAccounts::SwitchboardPull { oracle: swb_account(1, 1, NOW - 61) };
    assert_eq!(
        OraclePriceFeedAdapter::try_from_config(config(&b, stale)).err(),
        Some(MarginfiError::SwitchboardStalePrice)
    );
    let other = OracleAccounts::SwitchboardPull { oracle: pyth_account(PythLevel::Full, NOW) };
    assert_eq!(
        OraclePriceFeedAdapter::try_from_config(config(&b, other)).err(),
        Some(MarginfiError::SwitchboardInvalidAccount)
    );
}

#[test]
fn staked_asset_is_priced_by_the_pool_ratio() {
    let b = bank(5, 0, 0);
    let accounts = OracleAccounts::StakedWithPythPush {
        price: pyth_account(PythLevel::Full, NOW),
        lst_mint_supply: 1_400_000_000_000,
        stake_state: delegated(1_500_000_000_000),
    };
    let feed = pyth_of(OraclePriceFeedAdapter::try_from_config(config(&b, accounts)).unwrap());
    // 100.00000 * (1500 - 1) / 1400
    assert_eq!(feed.price.price, 10_707_142);
    assert_eq!(feed.ema_price.price, 10_653_607);
    assert_eq!(feed.price.conf, 100_000);
    assert_eq!(feed.ema_price.conf, 120_000);
    assert_eq!(feed.price.exponent, -5);
    assert_eq!(feed.price.publish_time, NOW);
}

#[test]
fn staked_asset_failures_in_their_order() {
    let b = bank(5, 0, 0);
    let resolve = |price: Vec<u8>, lst_mint_supply: u64, stake_state: Vec<u8>| {
        OraclePriceFeedAdapter::try_from_config(config(
            &b,
            OracleAccounts::StakedWithPythPush { price, lst_mint_supply, stake_state },
        ))
        .err()
    };
    let good = pyth_account(PythLevel::Full, NOW);
    let stale = pyth_account(PythLevel::Full, NOW - 61);
    // no stake account at all
    assert_eq!(resolve(stale.clone(), 0, vec![9, 0, 0, 0]), Some(MarginfiError::AccountDidNotDeserialize));
    assert_eq!(resolve(stale.clone(), 0, vec![]), Some(MarginfiError::AccountDidNotDeserialize));
    // a stake account that delegates nothing
    assert_eq!(
        resolve(stale.clone(), 0, stake_state(StakeStateV2::Uninitialized)),
        Some(MarginfiError::Deprecated)
    );
    assert_eq!(
        resolve(stale.clone(), 0, stake_state(StakeStateV2::Initialized(Meta::default()))),
        Some(MarginfiError::Deprecated)
    );
    assert_eq!(
        resolve(stale.clone(), 0, stake_state(StakeStateV2::RewardsPool)),
        Some(MarginfiError::Deprecated)
    );
    // less than the pool's own lamports
    assert_eq!(resolve(stale.clone(), 0, delegated(999_999_999)), Some(MarginfiError::MathError));
    // then the feed's checks
    assert_eq!(
        resolve(stale.clone(), 0, delegated(1_000_000_000)),
        Some(MarginfiError::PythPushStalePrice)
    );
    // then the supply
    assert_eq!(
        resolve(good.clone(), 0, delegated(1_000_000_000)),
        Some(MarginfiError::ZeroSupplyInStakePool)
    );
    // then the rescaled mantissa must fit
    assert_eq!(resolve(good.clone(), 1, delegated(u64::MAX)), Some(MarginfiError::MathError));
    assert_eq!(resolve(good.clone(), 1, delegated(1_000_000_000)), None);
}

#[test]
fn staked_asset_from_what_was_read_of_the_stake_account() {
    let good = pyth_account(PythLevel::Full, NOW);
    let feed = pyth_of(
        OraclePriceFeedAdapter::staked(
            StakeAccount::Delegated { stake: 3 * LAMPORTS_PER_SOL },
            &good,
            4 * LAMPORTS_PER_SOL,
            NOW,
            60,
        )
        .unwrap(),
    );
    assert_eq!(feed.price.price, 5_000_000);
    assert_eq!(feed.ema_price.price, 4_975_000);
    assert_eq!(
        OraclePriceFeedAdapter::staked(StakeAccount::Unreadable, &good, 1, NOW, 60).err(),
        Some(MarginfiError::AccountDidNotDeserialize)
    );
    assert_eq!(
        OraclePriceFeedAdapter::staked(StakeAccount::NotDelegated, &good, 1, NOW, 60).err(),
        Some(MarginfiError::Deprecated)
    );
}

#[test]
fn mantissa_rescaled_by_a_pool() {
    assert_eq!(scale_by_pool(10_000_000, 1_499_000_000_000, 1_400_000_000_000), Ok(10_707_142));
    assert_eq!(scale_by_pool(-7, 3, 2), Ok(-10));
    assert_eq!(scale_by_pool(7, 3, 2), Ok(10));
    assert_eq!(scale_by_pool(0, u64::MAX, 1), Ok(0));
    assert_eq!(scale_by_pool(i64::MAX, 1, 1), Ok(i64::MAX));
    assert_eq!(scale_by_pool(i64::MIN, 1, 1), Ok(i64::MIN));
    assert_eq!(scale_by_pool(i64::MAX, 2, 1), Err(MarginfiError::MathError));
    assert_eq!(scale_by_pool(i64::MIN, u64::MAX, u64::MAX), Ok(i64::MIN));
    // -2^63 - 1/2 rounds toward zero and fits; -2^63 - 1 does not
    assert_eq!(scale_by_pool(i64::MIN, u64::MAX, u64::MAX - 1), Ok(i64::MIN));
    assert_eq!(scale_by_pool(i64::MIN, 1 << 63, (1 << 63) - 1), Err(MarginfiError::MathError));
}

#[test]
fn integers_rescaled_by_a_ratio() {
    let ratio = fx(351_843_720_888_320); // 1.25
    assert_eq!(adjust_i64(10_000_000, ratio), Ok(12_500_000));
    assert_eq!(adjust_i64(-7, ratio), Ok(-9));
    assert_eq!(adjust_i64(7, ratio), Ok(8));
    assert_eq!(adjust_u64(120_000, ratio), Ok(150_000));
    assert_eq!(adjust_i128(150_250_000_000_000_000_000, ratio), Ok(187_812_500_000_000_000_000));
    let third = fx(93_824_992_236_885);
    assert_eq!(adjust_i64(10, third), Ok(3));
    assert_eq!(adjust_i64(-10, third), Ok(-4));
    assert_eq!(adjust_i64(i64::MAX, ratio), Err(MarginfiError::MathError));
    assert_eq!(adjust_u64(u64::MAX, ratio), Err(MarginfiError::MathError));
    assert_eq!(adjust_u64(5, fx(-ONE)), Err(MarginfiError::MathError));
    assert_eq!(adjust_u64(0, fx(-ONE)), Ok(0));
    assert_eq!(adjust_i128(1 << 79, ratio), Err(MarginfiError::MathError));
    assert_eq!(adjust_i128((1 << 79) - 1, fx(2 * ONE)), Err(MarginfiError::MathError));
    assert_eq!(adjust_i64(5, I80F48::zero()), Ok(0));
}

#[test]
fn reserve_ratio_needs_collateral() {
    assert_eq!(reserve_ratio(&supplies(125 * ONE, 100 * ONE)), Ok(Some(fx(351_843_720_888_320))));
    assert_eq!(reserve_ratio(&supplies(125 * ONE, 0)), Ok(None));
    assert_eq!(reserve_ratio(&supplies(125 * ONE, -ONE)), Ok(None));
    assert_eq!(reserve_ratio(&supplies(0, ONE)), Ok(Some(I80F48::zero())));
    assert_eq!(reserve_ratio(&supplies(i128::MAX, 1)), Err(MarginfiError::MathError));
}

#[test]
fn reserve_collateral_is_priced_by_the_reserve_ratio() {
    let b = bank(6, 0, 0);
    let accounts = OracleAccounts::KaminoPythPush {
        price: pyth_account(PythLevel::Full, NOW),
        reserve: plain_reserve(125, 100),
    };
    let feed = pyth_of(OraclePriceFeedAdapter::try_from_config(config(&b, accounts)).unwrap());
    assert_eq!(feed.price.price, 12_500_000);
    assert_eq!(feed.ema_price.price, 12_437_500);
    assert_eq!(feed.price.conf, 125_000);
    assert_eq!(feed.ema_price.conf, 150_000);
    assert_eq!(feed.price.exponent, -5);
    assert_eq!(feed.ema_price.publish_time, NOW);
}

#[test]
fn reserve_without_collateral_leaves_the_feed_as_it_is() {
    let b = bank(6, 0, 0);
    for available in [0u64, 125, u64::MAX] {
        let accounts = OracleAccounts::KaminoPythPush {
            price: pyth_account(PythLevel::Full, NOW),
            reserve: plain_reserve(available, 0),
        };
        let feed = pyth_of(OraclePriceFeedAdapter::try_from_config(config(&b, accounts)).unwrap());
        assert_eq!(feed.price.price, 10_000_000);
        assert_eq!(feed.ema_price.price, 9_950_000);
        assert_eq!(feed.price.conf, 100_000);
        assert_eq!(feed.ema_price.conf, 120_000);
    }
    let sb = bank(7, 0, 0);
    let accounts = OracleAccounts::KaminoSwitchboardPull {
        oracle: swb_account(150, 5, NOW),
        reserve: plain_reserve(125, 0),
    };
    match OraclePriceFeedAdapter::try_from_config(config(&sb, accounts)).unwrap() {
        OraclePriceFeedAdapter::SwitchboardPull(feed) => {
            assert_eq!(feed.feed.result.value, 150);
            assert_eq!(feed.feed.result.std_dev, 5);
        }
        _ => panic!("not a Switchboard feed"),
    }
}

#[test]
fn reserve_feed_failures() {
    let b = bank(6, 0, 0);
    // the feed is checked before the reserve is read
    let stale = OracleAccounts::KaminoPythPush {
        price: pyth_account(PythLevel::Full, NOW - 61),
        reserve: vec![],
    };
    assert_eq!(
        OraclePriceFeedAdapter::try_from_config(config(&b, stale)).err(),
        Some(MarginfiError::PythPushStalePrice)
    );
    for bad in [vec![], vec![0u8; 8 + 8615], vec![0u8; 8 + 8617]] {
        let no_reserve = OracleAccounts::KaminoPythPush {
            price: pyth_account(PythLevel::Full, NOW),
            reserve: bad,
        };
        assert_eq!(
            OraclePriceFeedAdapter::try_from_config(config(&b, no_reserve)).err(),
            Some(MarginfiError::AccountDidNotDeserialize)
        );
    }
    // fees beyond the liquidity
    let no_supplies = OracleAccounts::KaminoPythPush {
        price: pyth_account(PythLevel::Full, NOW),
        reserve: reserve(1, 0, [1 << 60, 1, 0], 5),
    };
    assert_eq!(
        OraclePriceFeedAdapter::try_from_config(config(&b, no_supplies)).err(),
        Some(MarginfiError::MathError)
    );
    let huge = OracleAccounts::KaminoPythPush {
        price: pyth_account(PythLevel::Full, NOW),
        reserve: plain_reserve(u64::MAX, 1),
    };
    assert_eq!(
        OraclePriceFeedAdapter::try_from_config(config(&b, huge)).err(),
        Some(MarginfiError::MathError)
    );
    let sb = bank(7, 0, 0);
    let stale = OracleAccounts::KaminoSwitchboardPull {
        oracle: swb_account(1, 1, NOW - 61),
        reserve: plain_reserve(1, 1),
    };
    assert_eq!(
        OraclePriceFeedAdapter::try_from_config(config(&sb, stale)).err(),
        Some(MarginfiError::SwitchboardStalePrice)
    );
}

#[test]
fn reserve_collateral_on_a_switchboard_feed() {
    let b = bank(7, 0, 0);
    let accounts = OracleAccounts::KaminoSwitchboardPull {
        oracle: swb_account(150_250_000_000_000_000_000, 500_000_000_000_000_000, NOW),
        reserve: plain_reserve(125, 100),
    };
    match OraclePriceFeedAdapter::try_from_config(config(&b, accounts)).unwrap() {
        OraclePriceFeedAdapter::SwitchboardPull(feed) => {
            assert_eq!(feed.feed.result.value, 187_812_500_000_000_000_000);
            assert_eq!(feed.feed.result.std_dev, 625_000_000_000_000_000);
            assert_eq!(feed.feed.result.mean, 17);
            assert_eq!(feed.feed.result.slot, 4);
            assert_eq!(feed.feed.feed_hash, [3u8; 32]);
            assert_eq!(feed.feed.last_update_timestamp, NOW);
        }
        _ => panic!("not a Switchboard feed"),
    }
}

#[test]
fn reserve_is_read_field_by_field() {
    assert_eq!(MINIMAL_RESERVE_SIZE, 8616);
    let data = reserve(11, 22, [33, 44, 55], 66);
    let r: MinimalReserve = parse_account(&data).unwrap();
    assert_eq!(
        r,
        MinimalReserve {
            available_amount: 11,
            borrowed_amount_sf: 22,
            accumulated_protocol_fees_sf: 33,
            accumulated_referrer_fees_sf: 44,
            pending_referrer_fees_sf: 55,
            mint_total_supply: 66,
        }
    );
    let short: Result<MinimalReserve, _> = parse_account(&data[..data.len() - 1]);
    assert!(short.is_err());
}

#[test]
fn reserve_totals() {
    let make = |available: u64, borrowed_sf: u128, fees_sf: [u128; 3], supply: u64| MinimalReserve {
        available_amount: available,
        borrowed_amount_sf: borrowed_sf,
        accumulated_protocol_fees_sf: fees_sf[0],
        accumulated_referrer_fees_sf: fees_sf[1],
        pending_referrer_fees_sf: fees_sf[2],
        mint_total_supply: supply,
    };
    // 100 in the vault, 30.5 lent out, fees of 0.25, 0.125 and 0.125
    let r = make(100, (61u128 << 60) / 2, [1 << 58, 1 << 57, 1 << 57], 40);
    assert_eq!(r.scaled_supplies(), Ok(supplies(130 * ONE, 40 * ONE)));
    // fractions below 2^-48 are dropped
    let r = make(0, (1 << 12) + 4095, [0, 0, 0], 0);
    assert_eq!(r.scaled_supplies(), Ok(supplies(1, 0)));
    let r = make(0, 4095, [0, 0, 0], 0);
    assert_eq!(r.scaled_supplies(), Ok(supplies(0, 0)));
    // fees may use up the liquidity, not more
    let r = make(1, 0, [1 << 60, 0, 0], 1);
    assert_eq!(r.scaled_supplies(), Ok(supplies(0, ONE)));
    let r = make(1, 0, [1 << 60, 0, 1], 1);
    assert_eq!(r.scaled_supplies(), Err(MarginfiError::MathError));
    let r = make(0, 5, [u128::MAX, u128::MAX, 0], 1);
    assert_eq!(r.scaled_supplies(), Err(MarginfiError::MathError));
    // a liquidity beyond 128 bits
    let r = make(1, u128::MAX, [0, 0, 0], 1);
    assert_eq!(r.scaled_supplies(), Err(MarginfiError::MathError));
    let r = make(u64::MAX, u128::MAX - ((u64::MAX as u128) << 60), [0, 0, 0], u64::MAX);
    assert_eq!(
        r.scaled_supplies(),
        Ok(supplies((u128::MAX >> 12) as i128, (u64::MAX as i128) << 48))
    );
}

#[test]
fn ratio_is_read_from_a_reserve_account() {
    assert_eq!(ratio_of_reserve(&plain_reserve(125, 100)), Ok(Some(fx(351_843_720_888_320))));
    assert_eq!(ratio_of_reserve(&plain_reserve(125, 0)), Ok(None));
    assert_eq!(ratio_of_reserve(&plain_reserve(0, 7)), Ok(Some(I80F48::zero())));
    assert_eq!(ratio_of_reserve(&[]), Err(MarginfiError::AccountDidNotDeserialize));
    assert_eq!(
        ratio_of_reserve(&reserve(0, 0, [0, 1, 0], 7)),
        Err(MarginfiError::MathError)
    );
}

#[test]
fn oracle_is_resolved_from_bank_accounts_and_clock() {
    // the bank sets no age: a Pyth price then counts for sixty seconds
    let b = bank(3, 0, 0);
    let fresh = OracleAccounts::PythPush { price: pyth_account(PythLevel::Full, NOW - 60) };
    let feed = pyth_of(OraclePriceFeedAdapter::resolve_oracle(&b, fresh, NOW).unwrap());
    assert_eq!(feed.price.price, 10_000_000);
    let stale = OracleAccounts::PythPush { price: pyth_account(PythLevel::Full, NOW - 61) };
    assert_eq!(
        OraclePriceFeedAdapter::resolve_oracle(&b, stale, NOW).err(),
        Some(MarginfiError::PythPushStalePrice)
    );
    // the bank's own age
    let b = bank(3, 10, 0);
    let old = OracleAccounts::PythPush { price: pyth_account(PythLevel::Full, NOW - 11) };
    assert_eq!(
        OraclePriceFeedAdapter::resolve_oracle(&b, old, NOW).err(),
        Some(MarginfiError::PythPushStalePrice)
    );
    // accounts of another kind
    let other = OracleAccounts::SwitchboardPull { oracle: swb_account(1, 1, NOW) };
    assert_eq!(
        OraclePriceFeedAdapter::resolve_oracle(&b, other, NOW).err(),
        Some(MarginfiError::MissingOracleAccount)
    );
    assert_eq!(
        OraclePriceFeedAdapter::resolve_oracle(&bank(0, 0, 0), OracleAccounts::NoAccounts, NOW).err(),
        Some(MarginfiError::OracleNotSetup)
    );
    let fixed = OraclePriceFeedAdapter::resolve_oracle(&bank(8, 0, 5 * ONE), OracleAccounts::NoAccounts, NOW)
        .unwrap();
    assert_eq!(fixed.get_price_of_type(OraclePriceType::TimeWeighted, None, 0), Ok(fx(5 * ONE)));
    // a Switchboard bank that sets no age accepts no age at all
    let sb = bank(4, 0, 0);
    let now = OracleAccounts::SwitchboardPull { oracle: swb_account(1, 1, NOW) };
    assert!(OraclePriceFeedAdapter::resolve_oracle(&sb, now, NOW).is_ok());
    let late = OracleAccounts::SwitchboardPull { oracle: swb_account(1, 1, NOW - 1) };
    assert_eq!(
        OraclePriceFeedAdapter::resolve_oracle(&sb, late, NOW).err(),
        Some(MarginfiError::SwitchboardStalePrice)
    );
}
