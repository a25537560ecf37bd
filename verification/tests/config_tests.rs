use std::collections::HashMap;
use xatu::config::{
    log_level_for_filter, EthereumConfig, FullConfig, FullConfigWithRuntime, NetworkInfo, NodeConfig,
    OutputConfig, XatuConfig, XatuOutput,
};

fn output(name: &str, address: &str) -> XatuOutput {
    let mut headers = HashMap::new();
    headers.insert("authorization".to_string(), "Bearer token".to_string());
    XatuOutput {
        name: name.to_string(),
        output_type: "xatu".to_string(),
        config: OutputConfig {
            address: address.to_string(),
            headers,
            tls: true,
            max_queue_size: Some(51200),
            batch_timeout: Some("5s".to_string()),
            export_timeout: None,
            max_export_batch_size: Some(512),
            workers: Some(2),
        },
    }
}

fn mainnet() -> NetworkInfo {
    NetworkInfo {
        genesis_time: 1606824023,
        network_name: "mainnet".to_string(),
        network_id: 1,
        slots_per_epoch: 32,
        seconds_per_slot: 12,
    }
}

#[test]
fn enabled_config_is_enabled() {
    let config = XatuConfig::enabled();
    assert!(config.is_enabled());
    assert!(config.enabled);
    assert!(config.name.is_none());
    assert!(config.outputs.is_none());
    assert!(config.ntp_server.is_none());
    assert!(config.ethereum.is_none());
}

#[test]
fn default_config_is_disabled() {
    let config = XatuConfig::default();
    assert!(!config.is_enabled());
    assert!(config.name.is_none());
    assert!(config.outputs.is_none());
    assert!(config.ntp_server.is_none());
    assert!(config.ethereum.is_none());
    assert!(EthereumConfig::default().override_network_name.is_none());
}

#[test]
fn full_config_of_bare_config_has_no_node_and_no_outputs() {
    let full = XatuConfig::enabled().get_full_config();
    assert!(full.node.is_none());
    assert!(full.outputs.is_empty());
    assert!(full.ntp_server.is_none());
    assert!(full.ethereum.is_none());
}

#[test]
fn full_config_keeps_name_outputs_and_overrides() {
    let config = XatuConfig {
        enabled: true,
        name: Some("node-7".to_string()),
        outputs: Some(vec![output("first", "a.example:8080"), output("second", "b.example:8080")]),
        ntp_server: Some("time.example".to_string()),
        ethereum: Some(EthereumConfig { override_network_name: Some("devnet-3".to_string()) }),
    };
    let full = config.get_full_config();
    assert_eq!(full.node.as_ref().map(|n| n.name.as_str()), Some("node-7"));
    assert_eq!(full.outputs.len(), 2);
    assert_eq!(full.outputs[0].name, "first");
    assert_eq!(full.outputs[0].output_type, "xatu");
    assert_eq!(full.outputs[0].config.address, "a.example:8080");
    assert_eq!(
        full.outputs[0].config.headers.get("authorization").map(|v| v.as_str()),
        Some("Bearer token")
    );
    assert!(full.outputs[0].config.tls);
    assert_eq!(full.outputs[0].config.max_queue_size, Some(51200));
    assert_eq!(full.outputs[0].config.batch_timeout.as_deref(), Some("5s"));
    assert_eq!(full.outputs[0].config.export_timeout, None);
    assert_eq!(full.outputs[0].config.max_export_batch_size, Some(512));
    assert_eq!(full.outputs[0].config.workers, Some(2));
    assert_eq!(full.outputs[1].name, "second");
    assert_eq!(full.outputs[1].config.address, "b.example:8080");
    assert_eq!(full.ntp_server.as_deref(), Some("time.example"));
    assert_eq!(
        full.ethereum.as_ref().and_then(|e| e.override_network_name.as_deref()),
        Some("devnet-3")
    );
    // The configuration itself is untouched.
    assert_eq!(config.outputs.as_ref().map(|o| o.len()), Some(2));
}

#[test]
fn clone_of_config_holds_the_same_values() {
    let config = XatuConfig {
        enabled: true,
        name: Some("node".to_string()),
        outputs: Some(vec![output("only", "c.example:1")]),
        ntp_server: None,
        ethereum: None,
    };
    let copy = config.clone();
    assert_eq!(format!("{:?}", copy), format!("{:?}", config));
    let full = config.get_full_config();
    assert_eq!(format!("{:?}", full.clone()), format!("{:?}", full));
    let info = mainnet();
    assert_eq!(format!("{:?}", info.clone()), format!("{:?}", info));
}

#[test]
fn log_level_defaults_to_info() {
    assert_eq!(log_level_for_filter(&None), "info");
    assert_eq!(log_level_for_filter(&Some(String::new())), "info");
    assert_eq!(log_level_for_filter(&Some("off".to_string())), "info");
}

#[test]
fn log_level_is_the_most_verbose_level_named() {
    assert_eq!(log_level_for_filter(&Some("trace".to_string())), "trace");
    assert_eq!(log_level_for_filter(&Some("debug".to_string())), "debug");
    assert_eq!(log_level_for_filter(&Some("info".to_string())), "info");
    assert_eq!(log_level_for_filter(&Some("warn".to_string())), "warn");
    assert_eq!(log_level_for_filter(&Some("error".to_string())), "error");
    assert_eq!(log_level_for_filter(&Some("warn,xatu=debug".to_string())), "debug");
    assert_eq!(log_level_for_filter(&Some("error,libp2p=trace,xatu=info".to_string())), "trace");
    assert_eq!(log_level_for_filter(&Some("xatu=warn,error".to_string())), "warn");
    assert_eq!(log_level_for_filter(&Some("TRACE".to_string())), "info");
}

#[test]
fn runtime_config_reports_the_network_and_the_client() {
    let full = FullConfig {
        node: Some(NodeConfig { name: "node-7".to_string() }),
        outputs: vec![output("first", "a.example:8080")],
        ntp_server: Some("time.example".to_string()),
        ethereum: None,
    };
    let config =
        FullConfigWithRuntime::assemble(&full, &mainnet(), "debug".to_string(), "7.1.0");
    assert_eq!(config.log_level.as_deref(), Some("debug"));
    assert_eq!(config.processor.name, "node-7");
    assert_eq!(config.processor.outputs.len(), 1);
    assert_eq!(config.processor.outputs[0].name, "first");
    assert_eq!(config.processor.outputs[0].config.address, "a.example:8080");
    assert_eq!(config.processor.ethereum.implementation, "lighthouse");
    assert_eq!(config.processor.ethereum.genesis_time, 1606824023);
    assert_eq!(config.processor.ethereum.seconds_per_slot, 12);
    assert_eq!(config.processor.ethereum.slots_per_epoch, 32);
    assert_eq!(config.processor.ethereum.network.name, "mainnet");
    assert_eq!(config.processor.ethereum.network.id, 1);
    assert_eq!(config.processor.client.name, "lighthouse");
    assert_eq!(config.processor.client.version, "7.1.0");
    assert_eq!(config.processor.ntp_server.as_deref(), Some("time.example"));
    assert_eq!(format!("{:?}", config.clone()), format!("{:?}", config));
}

#[test]
fn runtime_config_names_an_unnamed_node_after_the_client() {
    let full = XatuConfig::enabled().get_full_config();
    let config = FullConfigWithRuntime::assemble(&full, &mainnet(), "info".to_string(), "0.0.1");
    assert_eq!(config.processor.name, "lighthouse");
    assert!(config.processor.outputs.is_empty());
    assert!(config.processor.ntp_server.is_none());
}
