use bsc_chainspec::chainspec::parse_genesis_json;
use bsc_chainspec::error::ChainSpecError;
use bsc_chainspec::hardfork::{BscHardfork, EthereumHardfork, ForkCondition, Hardfork};
use bsc_chainspec::parser::{chain_value_parser, BscChainSpecParser, ChainValue, NamedChain};

fn genesis_json(config_extra: &str) -> String {
    format!(
        r#"{{
            "config": {{
                "chainId": 714,
                "ramanujanBlock": 0,
                "nielsBlock": 0,
                "berlinBlock": 0,
                "londonBlock": 0,
                "shanghaiTime": 0,
                "keplerTime": 0,
                "cancunTime": 0,
                "pasteurTime": 1785920400{config_extra}
            }},
            "difficulty": "0x1",
            "gasLimit": "0x2625a00",
            "alloc": {{}}
        }}"#
    )
}

const JENNER: Hardfork = Hardfork::Bsc(BscHardfork::Jenner);

#[test]
fn test_parse_jenner_time_from_genesis() {
    let jenner_time = 1_790_000_000u64;
    let spec = parse_genesis_json(&genesis_json(&format!(r#", "jennerTime": {jenner_time}"#)))
        .expect("genesis with jennerTime should parse");

    assert_eq!(spec.hardforks.fork(JENNER), ForkCondition::Timestamp(jenner_time));
    assert!(!spec.hardforks.is_fork_active_at_timestamp(JENNER, jenner_time - 1));
    assert!(spec.hardforks.is_fork_active_at_timestamp(JENNER, jenner_time));
    assert_eq!(
        spec.hardforks.fork(Hardfork::Bsc(BscHardfork::Pasteur)),
        ForkCondition::Timestamp(1_785_920_400)
    );
}

#[test]
fn test_jenner_absent_from_genesis_stays_unscheduled() {
    let spec = parse_genesis_json(&genesis_json("")).expect("genesis should parse");
    assert_eq!(spec.hardforks.fork(JENNER), ForkCondition::Never);
    assert!(!spec.hardforks.is_fork_active_at_timestamp(JENNER, u64::MAX));
}

#[test]
fn named_chains_resolve_before_files() {
    for (name, chain) in [
        ("bsc", NamedChain::Mainnet),
        ("bsc-testnet", NamedChain::Testnet),
        ("bsc-qanet", NamedChain::Qanet),
        ("local", NamedChain::Local),
    ] {
        for exists in [false, true] {
            match chain_value_parser(name, exists) {
                Ok(ChainValue::Named(c)) => assert_eq!(c, chain),
                _ => panic!("{name} should resolve by name"),
            }
        }
    }
}

#[test]
fn supported_chains_are_listed_and_resolve() {
    let names = BscChainSpecParser::supported_chains();
    assert_eq!(names, vec!["bsc", "bsc-testnet", "bsc-qanet", "local"]);
    for name in names {
        assert!(matches!(BscChainSpecParser::parse(name, false), Ok(ChainValue::Named(_))));
    }
}

#[test]
fn existing_path_is_a_genesis_file() {
    assert!(matches!(chain_value_parser("/some/genesis.json", true), Ok(ChainValue::GenesisFile)));
    // An existing file wins over in-place JSON.
    assert!(matches!(chain_value_parser("{}", true), Ok(ChainValue::GenesisFile)));
}

#[test]
fn inline_json_is_parsed() {
    match chain_value_parser(&genesis_json(""), false) {
        Ok(ChainValue::Genesis(spec)) => {
            assert_eq!(spec.chain_id, 714);
            assert_eq!(
                spec.fork(Hardfork::Bsc(BscHardfork::Kepler)),
                ForkCondition::Timestamp(0)
            );
        }
        _ => panic!("inline genesis should parse"),
    }
}

#[test]
fn unsupported_argument_is_refused() {
    match chain_value_parser("mainnet", false) {
        Err(e) => {
            assert_eq!(e, ChainSpecError::UnsupportedChain("mainnet".to_string()));
            assert_eq!(e.message(), "Unsupported chain or invalid genesis file: mainnet");
        }
        _ => panic!("should be refused"),
    }
    assert!(matches!(chain_value_parser("", false), Err(ChainSpecError::UnsupportedChain(_))));
}

#[test]
fn malformed_inline_json_is_an_invalid_genesis() {
    match chain_value_parser("{not json", false) {
        Err(ChainSpecError::InvalidGenesis(detail)) => {
            assert!(!detail.is_empty());
            let e = ChainSpecError::InvalidGenesis(detail.clone());
            assert_eq!(e.message(), format!("Failed to parse genesis JSON: {detail}"));
        }
        _ => panic!("malformed JSON should be refused"),
    }
}

#[test]
fn invalid_genesis_carries_serde_json_text() {
    let text = "{not json";
    let expected = serde_json::from_str::<alloy_genesis::Genesis>(text).unwrap_err().to_string();
    assert_eq!(
        parse_genesis_json(text).err(),
        Some(ChainSpecError::InvalidGenesis(expected.clone()))
    );
    assert!(parse_genesis_json("").is_err());
}

#[test]
fn genesis_that_is_not_a_json_value_is_invalid_json() {
    let text = r#"{"x": 1e400}"#;
    assert!(serde_json::from_str::<alloy_genesis::Genesis>(text).is_ok());
    let expected = serde_json::from_str::<serde_json::Value>(text).unwrap_err().to_string();
    match parse_genesis_json(text) {
        Err(e) => {
            assert_eq!(e, ChainSpecError::InvalidJson(expected.clone()));
            assert_eq!(e.message(), format!("Failed to parse genesis JSON as Value: {expected}"));
        }
        Ok(_) => panic!("1e400 is not a JSON value serde_json accepts"),
    }
}

#[test]
fn parser_resolves_as_chain_value_parser() {
    for (arg, exists) in [("bsc", false), ("x", true), ("nope", false), ("{", false)] {
        let a = BscChainSpecParser::parse(arg, exists);
        let b = chain_value_parser(arg, exists);
        match (a, b) {
            (Ok(ChainValue::Named(x)), Ok(ChainValue::Named(y))) => assert_eq!(x, y),
            (Ok(ChainValue::GenesisFile), Ok(ChainValue::GenesisFile)) => {}
            (Err(x), Err(y)) => assert_eq!(x, y),
            _ => panic!("results differ for {arg}"),
        }
    }
}

#[test]
fn invalid_json_message() {
    let e = ChainSpecError::InvalidJson("eof".to_string());
    assert_eq!(e.message(), "Failed to parse genesis JSON as Value: eof");
}

#[test]
fn the_spec_keeps_the_genesis_read_from_the_text() {
    let text = genesis_json("");
    let spec = parse_genesis_json(&text).expect("genesis should parse");
    let expected = serde_json::from_str::<alloy_genesis::Genesis>(&text).unwrap();
    assert_eq!(spec.genesis, expected);
    assert_eq!(spec.genesis.config.chain_id, 714);
    assert_eq!(spec.genesis.gas_limit, 0x2625a00);
}

#[test]
fn chain_id_comes_from_the_genesis() {
    let spec = parse_genesis_json(r#"{"config": {"chainId": 56}}"#).expect("should parse");
    assert_eq!(spec.chain_id, 56);
    let spec = parse_genesis_json(r#"{"config": {"chainId": 97}}"#).expect("should parse");
    assert_eq!(spec.chain_id, 97);
}
