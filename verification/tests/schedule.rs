use bsc_chainspec::chainspec::parse_genesis_json;
use bsc_chainspec::genesis::{add_hardforks_to_chainspec, base_chain_hardforks, genesis_chain_hardforks};
use bsc_chainspec::hardfork::{BscHardfork, EthereumHardfork, ForkCondition, ForkName, Hardfork};
use bsc_chainspec::json::{JsonNumber, JsonValue};
use bsc_chainspec::schedule::ChainHardforks;

fn eth(f: EthereumHardfork) -> Hardfork {
    Hardfork::Ethereum(f)
}

fn bsc(f: BscHardfork) -> Hardfork {
    Hardfork::Bsc(f)
}

const BASE: [EthereumHardfork; 9] = [
    EthereumHardfork::Frontier,
    EthereumHardfork::Homestead,
    EthereumHardfork::Tangerine,
    EthereumHardfork::SpuriousDragon,
    EthereumHardfork::Byzantium,
    EthereumHardfork::Constantinople,
    EthereumHardfork::Petersburg,
    EthereumHardfork::Istanbul,
    EthereumHardfork::MuirGlacier,
];

fn num(v: u64) -> JsonValue {
    JsonValue::Number(JsonNumber::PosInt(v))
}

fn object(members: Vec<(&str, JsonValue)>) -> JsonValue {
    JsonValue::Object(members.into_iter().map(|(k, v)| (k.to_string(), v)).collect())
}

#[test]
fn insert_reads_back_and_keeps_others() {
    let mut hf = ChainHardforks::new();
    assert_eq!(hf.fork(bsc(BscHardfork::Bohr)), ForkCondition::Never);
    hf.insert(bsc(BscHardfork::Bohr), ForkCondition::Timestamp(7));
    hf.insert(eth(EthereumHardfork::London), ForkCondition::Block(3));
    assert_eq!(hf.fork(bsc(BscHardfork::Bohr)), ForkCondition::Timestamp(7));
    assert_eq!(hf.fork(eth(EthereumHardfork::London)), ForkCondition::Block(3));
    assert_eq!(hf.fork(eth(EthereumHardfork::Berlin)), ForkCondition::Never);
    assert_eq!(hf.len(), 2);
}

#[test]
fn insert_again_replaces_in_place() {
    let hf = ChainHardforks::new()
        .with_fork(bsc(BscHardfork::Bohr), ForkCondition::Timestamp(7))
        .with_fork(eth(EthereumHardfork::London), ForkCondition::Block(3))
        .with_fork(bsc(BscHardfork::Bohr), ForkCondition::Block(0));
    assert_eq!(
        hf.entries(),
        vec![
            (bsc(BscHardfork::Bohr), ForkCondition::Block(0)),
            (eth(EthereumHardfork::London), ForkCondition::Block(3)),
        ]
    );
}

#[test]
fn shared_names_share_an_entry() {
    let hf = ChainHardforks::new()
        .with_fork(eth(EthereumHardfork::Cancun), ForkCondition::Timestamp(5))
        .with_fork(bsc(BscHardfork::Cancun), ForkCondition::Timestamp(9));
    assert_eq!(hf.len(), 1);
    assert_eq!(hf.entries(), vec![(eth(EthereumHardfork::Cancun), ForkCondition::Timestamp(9))]);
    assert_eq!(hf.fork(eth(EthereumHardfork::Cancun)), ForkCondition::Timestamp(9));
    assert_eq!(eth(EthereumHardfork::Cancun).name(), ForkName::Cancun);
    assert_eq!(bsc(BscHardfork::Osaka).name(), ForkName::Osaka);
}

#[test]
fn activation_conditions() {
    assert!(ForkCondition::Block(10).active_at_block(10));
    assert!(!ForkCondition::Block(10).active_at_block(9));
    assert!(!ForkCondition::Block(10).active_at_timestamp(100));
    assert!(ForkCondition::Timestamp(10).active_at_timestamp(11));
    assert!(!ForkCondition::Timestamp(10).active_at_timestamp(9));
    assert!(!ForkCondition::Timestamp(10).active_at_block(100));
    assert!(!ForkCondition::Never.active_at_block(u64::MAX));
    assert!(!ForkCondition::Never.active_at_timestamp(u64::MAX));
}

#[test]
fn base_schedule_is_frontier_to_muir_glacier() {
    let hf = base_chain_hardforks();
    let expected: Vec<_> = BASE.iter().map(|f| (eth(*f), ForkCondition::Block(0))).collect();
    assert_eq!(hf.entries(), expected);
}

#[test]
fn genesis_without_config_is_a_development_chain() {
    let hf = genesis_chain_hardforks(&object(vec![("difficulty", JsonValue::String("0x1".into()))]));
    assert_eq!(hf.len(), 10);
    assert_eq!(hf.fork(bsc(BscHardfork::Bohr)), ForkCondition::Block(0));
    for f in BASE {
        assert_eq!(hf.fork(eth(f)), ForkCondition::Block(0));
    }
    assert_eq!(hf.fork(bsc(BscHardfork::Jenner)), ForkCondition::Never);
    assert_eq!(hf.fork(eth(EthereumHardfork::Berlin)), ForkCondition::Never);
}

#[test]
fn config_members_schedule_by_block_and_by_time() {
    let config = object(vec![
        ("ramanujanBlock", num(11)),
        ("londonBlock", num(12)),
        ("cancunTime", num(13)),
        ("osakaTime", num(14)),
        ("hertzfixBlock", num(15)),
    ]);
    let hf = add_hardforks_to_chainspec(base_chain_hardforks(), &config);
    assert_eq!(hf.fork(bsc(BscHardfork::Ramanujan)), ForkCondition::Block(11));
    assert_eq!(hf.fork(eth(EthereumHardfork::London)), ForkCondition::Block(12));
    assert_eq!(hf.fork(eth(EthereumHardfork::Cancun)), ForkCondition::Timestamp(13));
    assert_eq!(hf.fork(bsc(BscHardfork::Cancun)), ForkCondition::Timestamp(13));
    assert_eq!(hf.fork(bsc(BscHardfork::Osaka)), ForkCondition::Timestamp(14));
    assert_eq!(hf.fork(bsc(BscHardfork::HertzFix)), ForkCondition::Block(15));
    // Bohr is not forced at block 0 when a config is present.
    assert_eq!(hf.fork(bsc(BscHardfork::Bohr)), ForkCondition::Never);
    // Members are read in their fixed order: Ramanujan before London before Cancun.
    let entries = hf.entries();
    assert_eq!(entries.len(), 9 + 5);
    assert_eq!(entries[9].0, bsc(BscHardfork::Ramanujan));
    assert_eq!(entries[10].0, bsc(BscHardfork::HertzFix));
    assert_eq!(entries[11].0, eth(EthereumHardfork::London));
    assert_eq!(entries[12].0, eth(EthereumHardfork::Cancun));
    assert_eq!(entries[13].0, bsc(BscHardfork::Osaka));
}

#[test]
fn members_that_are_not_u64_are_skipped() {
    let config = object(vec![
        ("jennerTime", JsonValue::String("1790000000".into())),
        ("pasteurTime", JsonValue::Number(JsonNumber::NegInt(-1))),
        ("fermiTime", JsonValue::Number(JsonNumber::Float)),
        ("maxwellTime", JsonValue::Null),
        ("mendelTime", num(u64::MAX)),
    ]);
    let hf = add_hardforks_to_chainspec(ChainHardforks::new(), &config);
    assert_eq!(hf.len(), 1);
    assert_eq!(hf.fork(bsc(BscHardfork::Mendel)), ForkCondition::Timestamp(u64::MAX));
    assert_eq!(hf.fork(bsc(BscHardfork::Jenner)), ForkCondition::Never);
}

#[test]
fn a_config_that_is_not_an_object_schedules_nothing() {
    let doc = object(vec![("config", JsonValue::Array(vec![num(1)]))]);
    let hf = genesis_chain_hardforks(&doc);
    assert_eq!(hf.entries(), base_chain_hardforks().entries());
}

#[test]
fn json_text_values_follow_serde_json() {
    let spec = parse_genesis_json(
        r#"{"config": {"chainId": 1, "jennerTime": 1.5, "pasteurTime": -3, "fermiTime": 18446744073709551615, "bohrTime": "5"}}"#,
    )
    .expect("should parse");
    assert_eq!(spec.fork(bsc(BscHardfork::Jenner)), ForkCondition::Never);
    assert_eq!(spec.fork(bsc(BscHardfork::Pasteur)), ForkCondition::Never);
    assert_eq!(spec.fork(bsc(BscHardfork::Fermi)), ForkCondition::Timestamp(u64::MAX));
    assert_eq!(spec.fork(bsc(BscHardfork::Bohr)), ForkCondition::Never);
}

#[test]
fn genesis_file_without_config_gets_bohr() {
    let spec = parse_genesis_json(r#"{"difficulty": "0x1", "alloc": {}}"#).expect("should parse");
    assert_eq!(spec.fork(bsc(BscHardfork::Bohr)), ForkCondition::Block(0));
    assert_eq!(spec.hardforks.len(), 10);
}

#[test]
fn json_get_and_as_u64() {
    let doc = object(vec![("a", num(1)), ("b", JsonValue::Bool(true))]);
    assert!(matches!(doc.get("a"), Some(JsonValue::Number(JsonNumber::PosInt(1)))));
    assert!(doc.get("c").is_none());
    assert_eq!(doc.get_u64("a"), Some(1));
    assert_eq!(doc.get_u64("b"), None);
    assert_eq!(num(3).get_u64("a"), None);
    assert_eq!(num(3).as_u64(), Some(3));
}
