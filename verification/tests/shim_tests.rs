use xatu::config::{NetworkInfo, XatuConfig};
use xatu::observer::StartupError;
use xatu::shim::{create_exporter_from_config, create_exporter_with_network_info};

fn network() -> NetworkInfo {
    NetworkInfo {
        genesis_time: 1,
        network_name: "sepolia".to_string(),
        network_id: 11155111,
        slots_per_epoch: 32,
        seconds_per_slot: 12,
    }
}

fn disabled() -> XatuConfig {
    XatuConfig { enabled: false, name: None, outputs: None, ntp_server: None, ethereum: None }
}

#[test]
fn a_disabled_configuration_yields_no_exporter() {
    assert!(matches!(create_exporter_from_config(&disabled(), &None, "1.0.0"), Ok(None)));
    assert!(create_exporter_with_network_info(&disabled(), network(), &None, "1.0.0").is_none());
}

#[test]
fn an_enabled_configuration_alone_cannot_be_served() {
    match create_exporter_from_config(&XatuConfig::enabled(), &None, "1.0.0") {
        Err(error) => assert_eq!(error, StartupError::MissingNetworkInfo),
        Ok(_) => panic!("served without network info"),
    }
}

#[test]
fn an_enabled_configuration_with_network_info_yields_both_sides() {
    let config = XatuConfig {
        enabled: true,
        name: Some("node-3".to_string()),
        outputs: None,
        ntp_server: None,
        ethereum: None,
    };
    let filter = Some("warn".to_string());
    let (_observer, worker) =
        create_exporter_with_network_info(&config, network(), &filter, "2.0.0").expect("enabled");
    let started = worker.config();
    assert_eq!(started.log_level.as_deref(), Some("warn"));
    assert_eq!(started.processor.name, "node-3");
    assert!(started.processor.outputs.is_empty());
    assert_eq!(started.processor.ethereum.implementation, "lighthouse");
    assert_eq!(started.processor.ethereum.genesis_time, 1);
    assert_eq!(started.processor.ethereum.network.name, "sepolia");
    assert_eq!(started.processor.ethereum.network.id, 11155111);
    assert_eq!(started.processor.client.version, "2.0.0");
    assert_eq!(worker.pending(), 0);
}
