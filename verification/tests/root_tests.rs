use xatu::{
    create_exporter_with_network_info, init, NetworkInfo, ObserverResult, XatuChain, XatuConfig,
    XatuObserver,
};

#[test]
fn the_bridge_can_be_set_up_from_the_root_of_the_crate() {
    let config: XatuConfig = init(None, false).expect("no failure").expect("enabled");
    let network = NetworkInfo {
        genesis_time: 0,
        network_name: "net".to_string(),
        network_id: 1,
        slots_per_epoch: 32,
        seconds_per_slot: 12,
    };
    let (observer, _worker): (XatuObserver, _) =
        create_exporter_with_network_info(&config, network, &None, "1.0.0").expect("enabled");
    let chain = XatuChain::with_exporter(std::sync::Arc::new(observer));
    assert!(chain.is_enabled());
    assert!(!XatuChain::new().is_enabled());
    assert_ne!(ObserverResult::Acknowledged, ObserverResult::Error(String::new()));
}
