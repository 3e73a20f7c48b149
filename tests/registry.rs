use jeetdex_master::config::{ConfigModule, Error};
use jeetdex_master::factory::{PairData, PairTokens};
use jeetdex_master::master::{AdminOutcome, BondingCommand, MasterContract};

const SELF: u64 = 1000;
const QUOTE: u64 = 7;

fn contract() -> MasterContract {
    MasterContract::init(SELF, 500, 1_000_000, 900, 100, 10, QUOTE, 800, 5000, 700, 60, 600, 3)
        .unwrap()
}

fn pair(a: u64, b: u64) -> PairTokens {
    PairTokens { first_token_id: a, second_token_id: b }
}

fn storage() -> ConfigModule {
    contract().storage
}

#[test]
fn insert_pair_keeps_maps_bidirectional() {
    let mut s = storage();
    assert_eq!(s.insert_pair(pair(1, QUOTE), 11), Ok(()));
    assert_eq!(s.insert_pair(pair(2, QUOTE), 12), Ok(()));
    assert_eq!(s.insert_pair(pair(3, QUOTE), 13), Ok(()));
    assert_eq!(s.pair_map.len(), 3);
    assert_eq!(s.address_pair_map.len(), 3);
    for (k, v) in s.pair_map.clone() {
        assert_eq!(s.lookup_pair(k), Some(v));
        let back = s.address_pair_map.iter().find(|e| e.0 == v).map(|e| e.1);
        assert_eq!(back, Some(k));
        assert!(s.is_pair_sc(v));
    }
}

#[test]
fn duplicate_pair_is_rejected_without_change() {
    let mut s = storage();
    assert_eq!(s.insert_pair(pair(1, QUOTE), 11), Ok(()));
    assert_eq!(s.insert_pair(pair(1, QUOTE), 12), Err(Error::DuplicatePair));
    assert_eq!(s.insert_pair(pair(2, QUOTE), 11), Err(Error::DuplicatePair));
    assert_eq!(s.pair_map, vec![(pair(1, QUOTE), 11)]);
    assert_eq!(s.address_pair_map, vec![(11, pair(1, QUOTE))]);
}

#[test]
fn get_pair_resolves_either_order() {
    let mut s = storage();
    assert_eq!(s.insert_pair(pair(1, QUOTE), 11), Ok(()));
    assert_eq!(s.get_pair(1, QUOTE), Some(11));
    assert_eq!(s.get_pair(QUOTE, 1), Some(11));
    assert_eq!(s.get_pair(2, QUOTE), None);
    assert_eq!(s.lookup_pair(pair(QUOTE, 1)), None);
}

#[test]
fn pause_and_router_on_self_ignore_registry() {
    let mut m = contract();
    m.storage.pair_map.push((pair(1, QUOTE), 11));
    assert_eq!(m.pause(SELF), Ok(AdminOutcome::Applied));
    assert!(!m.storage.is_active());
    assert_eq!(m.set_jeetdex_router(SELF, 42), Ok(AdminOutcome::Applied));
    assert_eq!(m.storage.jeetdex_router_sc_address, 42);
}

#[test]
fn admin_commands_to_unknown_targets_are_refused() {
    let mut m = contract();
    assert_eq!(m.pause(11), Err(Error::UnauthorizedTarget));
    assert_eq!(m.resume(11), Err(Error::UnauthorizedTarget));
    assert_eq!(m.set_jeetdex_router(11, 42), Err(Error::UnauthorizedTarget));
    assert!(m.storage.is_active());
    assert_eq!(m.storage.jeetdex_router_sc_address, 700);
}

#[test]
fn admin_commands_to_bonding_contracts_are_forwarded() {
    let mut m = contract();
    assert_eq!(m.storage.insert_pair(pair(1, QUOTE), 11), Ok(()));
    assert_eq!(
        m.pause(11),
        Ok(AdminOutcome::Forward { target: 11, command: BondingCommand::Pause })
    );
    assert_eq!(
        m.resume(11),
        Ok(AdminOutcome::Forward { target: 11, command: BondingCommand::Resume })
    );
    assert_eq!(
        m.set_jeetdex_router(11, 42),
        Ok(AdminOutcome::Forward { target: 11, command: BondingCommand::SetJeetdexRouter(42) })
    );
    assert!(m.storage.is_active());
    assert_eq!(m.storage.jeetdex_router_sc_address, 700);
}

#[test]
fn resume_fails_on_unequal_maps() {
    let mut m = contract();
    assert_eq!(m.pause(SELF), Ok(AdminOutcome::Applied));
    m.storage.pair_map.push((pair(1, QUOTE), 11));
    assert_eq!(m.resume(SELF), Err(Error::RegistryInconsistent));
    assert!(!m.storage.is_active());
    m.storage.address_pair_map.push((11, pair(1, QUOTE)));
    assert_eq!(m.resume(SELF), Ok(AdminOutcome::Applied));
    assert!(m.storage.is_active());
}

#[test]
fn upgrade_pauses() {
    let mut m = contract();
    m.upgrade();
    assert!(!m.storage.is_active());
}

#[test]
fn setters_validate() {
    let mut s = storage();
    assert_eq!(s.set_fees_collector(0), Err(Error::ZeroFeesCollector));
    assert_eq!(s.fees_collector, 900);
    assert_eq!(s.set_fees_collector(901), Ok(()));
    assert_eq!(s.fees_collector, 901);
    assert_eq!(s.set_token_supply(0), Err(Error::ZeroSupply));
    assert_eq!(s.set_token_supply(5), Ok(()));
    assert_eq!(s.token_supply, 5);
    assert_eq!(s.set_new_token_fee(0), Err(Error::ZeroFee));
    assert_eq!(s.set_new_token_fee(120), Ok(()));
    assert_eq!(s.new_token_fee, 120);
    assert_eq!(s.set_max_market_cap(0), Err(Error::ZeroMaxMarketCap));
    assert_eq!(s.set_max_market_cap(9), Ok(()));
    assert_eq!(s.max_market_cap, 9);
    s.set_initial_virtual_liquidity(0);
    assert_eq!(s.initial_virtual_liquidity, 0);
    s.set_Bonding_template_address(77);
    assert_eq!(s.pair_template_address, Some(77));
    assert!(s.check_is_pair_sc(11).is_err());
}

#[test]
fn init_checks_each_value() {
    let e = |r: Result<MasterContract, Error>| r.err();
    assert_eq!(e(MasterContract::init(SELF, 0, 1, 1, 1, 1, QUOTE, 1, 1, 1, 1, 1, 1)), Some(Error::ZeroTemplate));
    assert_eq!(e(MasterContract::init(SELF, 1, 0, 1, 1, 1, QUOTE, 1, 1, 1, 1, 1, 1)), Some(Error::ZeroSupply));
    assert_eq!(e(MasterContract::init(SELF, 1, 1, 1, 0, 1, QUOTE, 1, 1, 1, 1, 1, 1)), Some(Error::ZeroFee));
    assert_eq!(e(MasterContract::init(SELF, 1, 1, 1, 1, 0, QUOTE, 1, 1, 1, 1, 1, 1)), Some(Error::ZeroVirtualLiquidity));
    assert_eq!(e(MasterContract::init(SELF, 1, 1, 1, 1, 1, QUOTE, 1, 0, 1, 1, 1, 1)), Some(Error::ZeroMaxMarketCap));
    assert_eq!(e(MasterContract::init(SELF, 1, 1, 1, 1, 1, QUOTE, 1, 1, 1, 0, 1, 1)), Some(Error::ZeroIssueCost));
    assert_eq!(e(MasterContract::init(SELF, 1, 1, 1, 1, 1, QUOTE, 1, 1, 1, 1, 0, 1)), Some(Error::ZeroUnwrapAddress));
    assert_eq!(e(MasterContract::init(SELF, 1, 1, 1, 1, 1, QUOTE, 1, 1, 0, 1, 1, 1)), Some(Error::ZeroRouterAddress));
    assert_eq!(e(MasterContract::init(SELF, 1, 1, 1, 1, 1, QUOTE, 1, 1, 1, 1, 1, 0)), Some(Error::ZeroReachFee));
    let m = contract();
    assert!(m.storage.is_active());
    assert_eq!(m.storage.pair_template_address, Some(500));
    assert_eq!(m.storage.token_supply, 1_000_000);
    assert_eq!(m.storage.allowed_token, QUOTE);
    assert!(m.storage.pair_map.is_empty());
}

#[test]
fn reports_follow_registry_order() {
    let mut s = storage();
    assert_eq!(s.insert_pair(pair(2, QUOTE), 12), Ok(()));
    assert_eq!(s.insert_pair(pair(1, QUOTE), 11), Ok(()));
    let meta = s.get_all_pair_contract_metadata();
    assert_eq!(meta.len(), 2);
    assert_eq!((meta[0].first_token_id, meta[0].second_token_id, meta[0].address), (2, QUOTE, 12));
    assert_eq!((meta[1].first_token_id, meta[1].second_token_id, meta[1].address), (1, QUOTE, 11));
    let report = |id: u64| PairData {
        first_token_id: id,
        second_token_id: QUOTE,
        first_token_reserve: 10 * id as u128,
        second_token_reserve: 3,
        owner_fee_percent: 2,
        market_cap: 99,
        db_id: vec![id as u8],
        state: 1,
    };
    let data = s.get_all_pair_contract_data(&vec![report(2), report(1)]).unwrap();
    assert_eq!(data[0].sc_address, 12);
    assert_eq!(data[0].first_token_reserve, 20);
    assert_eq!(data[1].sc_address, 11);
    assert_eq!(data[1].db_id, vec![1u8]);
    assert!(matches!(s.get_all_pair_contract_data(&vec![report(1)]), Err(Error::LengthMismatch)));
}
