//! What the bridge starts with: which configuration applies, and what is reported about the
//! network.

use crate::config::{NetworkInfo, NetworkInfoView, XatuConfig, XatuConfigView};
use vstd::prelude::*;

verus! {

/// The name reported for a network that has none.
pub const UNKNOWN_NETWORK: &'static str = "unknown";

/// What the bridge reads from the parameters of the chain.
#[derive(Debug)]
pub struct ChainSummary {
    pub config_name: Option<String>,
    pub deposit_network_id: u64,
    pub seconds_per_slot: u64,
    pub slots_per_epoch: u64,
    pub min_genesis_time: u64,
}

/// The configuration that applies. `config_file` is what came of loading the configuration
/// file, where the host names one; `disabled` says whether the host asks for the bridge to be
/// off. A named file decides, and one that cannot be loaded is a failure, with the words of
/// the loading as its message: it is never passed over for a default. Without a named file
/// the bridge is enabled, with nothing else set, unless the host asks otherwise. A
/// configuration that is not enabled yields none.
pub open spec fn effective_config_of(
    config_file: Option<Result<XatuConfig, String>>,
    disabled: bool,
) -> Result<Option<XatuConfigView>, String> {
    let bare = XatuConfigView {
        enabled: true,
        name: None,
        outputs: None,
        ntp_server: None,
        ethereum: None,
    };
    match config_file {
        Some(Ok(config)) => if config.enabled {
            Ok(Some(config@))
        } else {
            Ok(None)
        },
        Some(Err(message)) => Err(message),
        None => if disabled {
            Ok(None)
        } else {
            Ok(Some(bare))
        },
    }
}

/// What a start-up plan must hold, given the configuration that applies: nothing where the
/// bridge is off, and else the configuration with what is reported about the network.
pub open spec fn plan_matches(
    plan: Option<(XatuConfig, NetworkInfo)>,
    config: Option<XatuConfigView>,
    chain: ChainSummary,
    genesis_time: u64,
) -> bool {
    match config {
        Some(config) => plan matches Some((chosen, info)) && chosen@ == config && info@
            == network_info_of(config, chain, genesis_time),
        None => plan is None,
    }
}

/// The name reported for the network: the one that the configuration puts in place of the
/// chain's, else the chain's own, else a fixed name for the unknown.
pub open spec fn network_name_of(config: XatuConfigView, chain_name: Option<Seq<char>>) -> Seq<
    char,
> {
    match config.ethereum {
        Some(ethereum) => match ethereum.override_network_name {
            Some(name) => name,
            None => match chain_name {
                Some(name) => name,
                None => UNKNOWN_NETWORK@,
            },
        },
        None => match chain_name {
            Some(name) => name,
            None => UNKNOWN_NETWORK@,
        },
    }
}

/// What is reported about the network of `chain` with the given genesis time.
pub open spec fn network_info_of(
    config: XatuConfigView,
    chain: ChainSummary,
    genesis_time: u64,
) -> NetworkInfoView {
    NetworkInfoView {
        genesis_time,
        network_name: network_name_of(config, chain.config_name.deep_view()),
        network_id: chain.deposit_network_id,
        slots_per_epoch: chain.slots_per_epoch,
        seconds_per_slot: chain.seconds_per_slot,
    }
}

/// Picks the configuration that applies, if the bridge is to run at all. A configuration
/// file that could not be loaded fails the start, with the words of the loading.
pub fn init(config_file: Option<Result<XatuConfig, String>>, disabled: bool) -> (config: Result<
    Option<XatuConfig>,
    String,
>)
    ensures
        match effective_config_of(config_file, disabled) {
            Ok(chosen) => config matches Ok(picked) && picked.deep_view() == chosen,
            Err(message) => config == Err::<Option<XatuConfig>, String>(message),
        },
{
    match config_file {
        Some(Ok(config)) => if config.is_enabled() {
            Ok(Some(config))
        } else {
            Ok(None)
        },
        Some(Err(message)) => Err(message),
        None => if disabled {
            Ok(None)
        } else {
            Ok(Some(XatuConfig::enabled()))
        },
    }
}

/// Picks the name reported for the network.
pub fn network_name(config: &XatuConfig, chain_name: &Option<String>) -> (name: String)
    ensures
        name@ == network_name_of(config@, chain_name.deep_view()),
{
    let overriding = match &config.ethereum {
        Some(ethereum) => match &ethereum.override_network_name {
            Some(name) => Some(name.clone()),
            None => None,
        },
        None => None,
    };
    match overriding {
        Some(name) => name,
        None => match chain_name {
            Some(name) => name.clone(),
            None => String::from_str(UNKNOWN_NETWORK),
        },
    }
}

/// Picks the configuration that applies and derives what is reported about the network,
/// with the earliest genesis time that the chain allows. A configuration file that could
/// not be loaded fails the start, with the words of the loading.
pub fn init_with_chain_spec(
    config_file: Option<Result<XatuConfig, String>>,
    disabled: bool,
    chain: &ChainSummary,
) -> (plan: Result<Option<(XatuConfig, NetworkInfo)>, String>)
    ensures
        match effective_config_of(config_file, disabled) {
            Ok(config) => plan matches Ok(made) && plan_matches(
                made,
                config,
                *chain,
                chain.min_genesis_time,
            ),
            Err(message) => plan == Err::<Option<(XatuConfig, NetworkInfo)>, String>(message),
        },
{
    init_with_chain_spec_and_genesis(config_file, disabled, chain, chain.min_genesis_time)
}

/// Picks the configuration that applies and derives what is reported about the network,
/// with the genesis time given. A configuration file that could not be loaded fails the
/// start, with the words of the loading.
pub fn init_with_chain_spec_and_genesis(
    config_file: Option<Result<XatuConfig, String>>,
    disabled: bool,
    chain: &ChainSummary,
    genesis_time: u64,
) -> (plan: Result<Option<(XatuConfig, NetworkInfo)>, String>)
    ensures
        match effective_config_of(config_file, disabled) {
            Ok(config) => plan matches Ok(made) && plan_matches(made, config, *chain, genesis_time),
            Err(message) => plan == Err::<Option<(XatuConfig, NetworkInfo)>, String>(message),
        },
{
    match init(config_file, disabled) {
        Err(message) => Err(message),
        Ok(None) => Ok(None),
        Ok(Some(config)) => {
            let info = NetworkInfo {
                genesis_time,
                network_name: network_name(&config, &chain.config_name),
                network_id: chain.deposit_network_id,
                slots_per_epoch: chain.slots_per_epoch,
                seconds_per_slot: chain.seconds_per_slot,
            };
            Ok(Some((config, info)))
        },
    }
}

} // verus!
