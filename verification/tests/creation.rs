use memecoin::create_memecoin_config::{handler, CreateMemecoinConfig};
use memecoin::errors::ErrorCode;
use memecoin::state::{
    CreatorMemecoinCounter, FundingRaiseTier, GlobalConfig, LaunchStatus,
};

fn accounts_for(creator: u64, count: u64) -> CreateMemecoinConfig {
    CreateMemecoinConfig {
        creator,
        creator_memecoin_counter: CreatorMemecoinCounter { creator, count },
        global_config: GlobalConfig {
            create_memecoin_fee_receiver: 900,
            create_memecoin_fee: 5_000_000,
            launch_success_fee_receiver: 901,
            launch_success_fee_bps: 250,
        },
        clock_unix_timestamp: 1_700_000_000,
    }
}

#[test]
fn tier_selector_zero_records_twenty_sol() {
    let mut accounts = accounts_for(7, 0);
    let eff = handler(&mut accounts, "Meme", "MEME", "https://meme.example/0", 6, 0).unwrap();
    assert_eq!(eff.memecoin_config.funding_raise_tier, FundingRaiseTier::TwentySol);
    assert_eq!(eff.memecoin_config.funding_raise_tier.value(), 20_000_000_000);
}

#[test]
fn tier_selector_one_records_fifty_sol() {
    let mut accounts = accounts_for(7, 0);
    let eff = handler(&mut accounts, "Meme", "MEME", "https://meme.example/1", 6, 1).unwrap();
    assert_eq!(eff.memecoin_config.funding_raise_tier, FundingRaiseTier::FiftySol);
    assert_eq!(eff.memecoin_config.funding_raise_tier.value(), 50_000_000_000);
}

#[test]
fn tier_selector_two_records_one_hundred_sol() {
    let mut accounts = accounts_for(7, 0);
    let eff = handler(&mut accounts, "Meme", "MEME", "https://meme.example/2", 6, 2).unwrap();
    assert_eq!(eff.memecoin_config.funding_raise_tier, FundingRaiseTier::OneHundredSol);
    assert_eq!(eff.memecoin_config.funding_raise_tier.value(), 100_000_000_000);
}

#[test]
fn tier_selector_out_of_range_is_rejected() {
    for selector in [3u8, 4, 100, 255] {
        let mut accounts = accounts_for(7, 0);
        let before = accounts.creator_memecoin_counter;
        let r = handler(&mut accounts, "Meme", "MEME", "https://meme.example", 6, selector);
        assert_eq!(r.unwrap_err(), ErrorCode::InvalidFundingRaiseTier);
        assert_eq!(accounts.creator_memecoin_counter, before);
    }
}

#[test]
fn minted_supply_is_total_supply_scaled_by_decimals() {
    let mut accounts = accounts_for(7, 0);
    let eff = handler(&mut accounts, "Meme", "MEME", "https://meme.example", 0, 0).unwrap();
    assert_eq!(eff.minted_to_destination, 1_000_000_000);

    let mut accounts = accounts_for(7, 0);
    let eff = handler(&mut accounts, "Meme", "MEME", "https://meme.example", 6, 0).unwrap();
    assert_eq!(eff.minted_to_destination, 1_000_000_000_000_000);

    let mut accounts = accounts_for(7, 0);
    let eff = handler(&mut accounts, "Meme", "MEME", "https://meme.example", 9, 0).unwrap();
    assert_eq!(eff.minted_to_destination, 1_000_000_000_000_000_000);

    let mut accounts = accounts_for(7, 0);
    let eff = handler(&mut accounts, "Meme", "MEME", "https://meme.example", 10, 0).unwrap();
    assert_eq!(eff.minted_to_destination, 10_000_000_000_000_000_000);
}

#[test]
fn overflowing_supply_fails_with_calculation_error() {
    for decimals in [11u8, 19, 20, 255] {
        let mut accounts = accounts_for(7, 0);
        let before = accounts.creator_memecoin_counter;
        let r = handler(&mut accounts, "Meme", "MEME", "https://meme.example", decimals, 0);
        assert_eq!(r.unwrap_err(), ErrorCode::CalculationError);
        assert_eq!(accounts.creator_memecoin_counter, before);
    }
}

#[test]
fn creation_charges_the_flat_fee_to_the_receiver() {
    let mut accounts = accounts_for(7, 0);
    let eff = handler(&mut accounts, "Meme", "MEME", "https://meme.example", 6, 0).unwrap();
    assert_eq!(eff.fee_transfer.from, 7);
    assert_eq!(eff.fee_transfer.to, 900);
    assert_eq!(eff.fee_transfer.lamports, 5_000_000);
}

#[test]
fn creation_records_creator_time_and_initial_status() {
    let mut accounts = accounts_for(7, 4);
    let eff = handler(&mut accounts, "Meme", "MEME", "https://meme.example", 6, 2).unwrap();
    assert_eq!(eff.memecoin_config.creator, 7);
    assert_eq!(eff.memecoin_config.creator_memecoin_index, 0);
    assert_eq!(eff.memecoin_config.created_time, 1_700_000_000);
    assert_eq!(eff.memecoin_config.status, LaunchStatus::Funding);
}

#[test]
fn creation_event_carries_the_descriptive_fields() {
    let mut accounts = accounts_for(7, 0);
    let eff = handler(&mut accounts, "Pepe", "PEPE", "https://meme.example/pepe", 8, 1).unwrap();
    assert_eq!(eff.event.creator, 7);
    assert_eq!(eff.event.created_time, 1_700_000_000);
    assert_eq!(eff.event.name, "Pepe");
    assert_eq!(eff.event.symbol, "PEPE");
    assert_eq!(eff.event.uri, "https://meme.example/pepe");
    assert_eq!(eff.event.decimals, 8);
    assert_eq!(eff.event.funding_raise_tier, 1);
}

#[test]
fn counter_advances_by_one_per_successful_creation() {
    let mut accounts = accounts_for(7, 0);
    assert!(handler(&mut accounts, "A", "AA", "https://meme.example/a", 6, 0).is_ok());
    assert_eq!(accounts.creator_memecoin_counter.count, 1);
    assert!(handler(&mut accounts, "B", "BB", "https://meme.example/b", 6, 1).is_ok());
    assert_eq!(accounts.creator_memecoin_counter.count, 2);
    assert_eq!(accounts.creator_memecoin_counter.creator, 7);
}

#[test]
fn successive_creations_get_distinct_addresses() {
    let mut accounts = accounts_for(7, 0);
    let first = handler(&mut accounts, "A", "AA", "https://meme.example/a", 6, 0).unwrap();
    let second = handler(&mut accounts, "B", "BB", "https://meme.example/b", 6, 0).unwrap();
    let third = handler(&mut accounts, "C", "CC", "https://meme.example/c", 6, 0).unwrap();
    assert_ne!(first.memecoin_config_address, second.memecoin_config_address);
    assert_ne!(second.memecoin_config_address, third.memecoin_config_address);
    assert_ne!(first.memecoin_config_address, third.memecoin_config_address);
    assert_eq!(first.memecoin_config_address.creator, 7);
    assert_eq!(first.memecoin_config_address.index, 0);
    assert_eq!(second.memecoin_config_address.index, 1);
    assert_eq!(third.memecoin_config_address.index, 2);
}

#[test]
fn creations_by_different_creators_get_distinct_addresses() {
    let mut one = accounts_for(7, 0);
    let mut other = accounts_for(8, 0);
    let a = handler(&mut one, "A", "AA", "https://meme.example/a", 6, 0).unwrap();
    let b = handler(&mut other, "B", "BB", "https://meme.example/b", 6, 0).unwrap();
    assert_ne!(a.memecoin_config_address, b.memecoin_config_address);
}
