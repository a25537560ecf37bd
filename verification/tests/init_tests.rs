use xatu::config::{EthereumConfig, XatuConfig};
use xatu::init::{init, init_with_chain_spec, init_with_chain_spec_and_genesis, network_name, ChainSummary};

fn chain(config_name: Option<&str>) -> ChainSummary {
    ChainSummary {
        config_name: config_name.map(|s| s.to_string()),
        deposit_network_id: 17000,
        seconds_per_slot: 12,
        slots_per_epoch: 32,
        min_genesis_time: 1695902100,
    }
}

fn named(enabled: bool, name: &str) -> XatuConfig {
    XatuConfig { enabled, name: Some(name.to_string()), outputs: None, ntp_server: None, ethereum: None }
}

fn overriding(name: Option<&str>) -> XatuConfig {
    XatuConfig {
        enabled: true,
        name: None,
        outputs: None,
        ntp_server: None,
        ethereum: Some(EthereumConfig { override_network_name: name.map(|s| s.to_string()) }),
    }
}

#[test]
fn without_a_file_the_bridge_runs_with_a_bare_configuration() {
    let config = init(None, false).expect("no failure").expect("enabled");
    assert!(config.is_enabled());
    assert!(config.name.is_none());
    assert!(config.outputs.is_none());
}

#[test]
fn without_a_file_the_host_can_switch_the_bridge_off() {
    assert_eq!(init(None, true).map(|config| config.is_none()), Ok(true));
}

#[test]
fn a_loaded_file_decides() {
    let config = init(Some(Ok(named(true, "node-1"))), false).expect("loaded").expect("enabled");
    assert_eq!(config.name.as_deref(), Some("node-1"));
    assert!(init(Some(Ok(named(false, "node-1"))), false).expect("loaded").is_none());
    // A named file outweighs the switch.
    let config = init(Some(Ok(named(true, "node-2"))), true).expect("loaded").expect("enabled");
    assert_eq!(config.name.as_deref(), Some("node-2"));
    assert!(init(Some(Ok(named(false, "node-2"))), true).expect("loaded").is_none());
}

#[test]
fn a_file_that_cannot_be_loaded_fails_the_start() {
    for disabled in [false, true] {
        match init(Some(Err("Failed to read config file: no such file".to_string())), disabled) {
            Err(message) => assert_eq!(message, "Failed to read config file: no such file"),
            Ok(config) => panic!("passed over a configuration error: {:?}", config),
        }
        match init_with_chain_spec(
            Some(Err("Failed to parse config file: bad indent".to_string())),
            disabled,
            &chain(Some("holesky")),
        ) {
            Err(message) => assert_eq!(message, "Failed to parse config file: bad indent"),
            Ok(plan) => panic!("passed over a configuration error: {:?}", plan),
        }
        match init_with_chain_spec_and_genesis(
            Some(Err(String::new())),
            disabled,
            &chain(None),
            7,
        ) {
            Err(message) => assert_eq!(message, ""),
            Ok(plan) => panic!("passed over a configuration error: {:?}", plan),
        }
    }
}

#[test]
fn network_name_prefers_the_override() {
    let main = Some("mainnet".to_string());
    assert_eq!(network_name(&overriding(Some("devnet-3")), &main), "devnet-3");
    assert_eq!(network_name(&overriding(Some("devnet-3")), &None), "devnet-3");
    assert_eq!(network_name(&overriding(None), &main), "mainnet");
    assert_eq!(network_name(&overriding(None), &None), "unknown");
    assert_eq!(network_name(&XatuConfig::enabled(), &main), "mainnet");
    assert_eq!(network_name(&XatuConfig::enabled(), &None), "unknown");
}

#[test]
fn network_info_comes_from_the_chain() {
    let (config, info) =
        init_with_chain_spec_and_genesis(None, false, &chain(Some("holesky")), 1695902400)
            .expect("no failure")
            .expect("enabled");
    assert!(config.is_enabled());
    assert_eq!(info.genesis_time, 1695902400);
    assert_eq!(info.network_name, "holesky");
    assert_eq!(info.network_id, 17000);
    assert_eq!(info.slots_per_epoch, 32);
    assert_eq!(info.seconds_per_slot, 12);
}

#[test]
fn network_info_takes_the_earliest_genesis_time_by_default() {
    let (_, info) =
        init_with_chain_spec(None, false, &chain(None)).expect("no failure").expect("enabled");
    assert_eq!(info.genesis_time, 1695902100);
    assert_eq!(info.network_name, "unknown");
    let (config, info) =
        init_with_chain_spec(Some(Ok(overriding(Some("shadow")))), false, &chain(Some("holesky")))
            .expect("loaded")
            .expect("enabled");
    assert_eq!(info.network_name, "shadow");
    assert_eq!(
        config.ethereum.and_then(|e| e.override_network_name).as_deref(),
        Some("shadow")
    );
}

#[test]
fn a_disabled_bridge_has_no_plan() {
    assert!(init_with_chain_spec(None, true, &chain(Some("holesky"))).expect("no failure").is_none());
    assert!(init_with_chain_spec(Some(Ok(named(false, "n"))), false, &chain(None))
        .expect("loaded")
        .is_none());
    assert!(init_with_chain_spec_and_genesis(None, true, &chain(None), 5)
        .expect("no failure")
        .is_none());
}
