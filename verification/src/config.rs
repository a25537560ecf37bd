//! Configuration records, their mathematical views, and how one is derived from another.

use crate::text::{contains, occurs_in};
use std::collections::HashMap;
use vstd::prelude::*;

verus! {

/// Facts about the observed network, fixed for the lifetime of the bridge.
#[derive(Debug)]
pub struct NetworkInfo {
    pub genesis_time: u64,
    pub network_name: String,
    pub network_id: u64,
    pub slots_per_epoch: u64,
    pub seconds_per_slot: u64,
}

/// The mathematical content of a `NetworkInfo`.
pub struct NetworkInfoView {
    pub genesis_time: u64,
    pub network_name: Seq<char>,
    pub network_id: u64,
    pub slots_per_epoch: u64,
    pub seconds_per_slot: u64,
}

impl View for NetworkInfo {
    type V = NetworkInfoView;

    open spec fn view(&self) -> NetworkInfoView {
        NetworkInfoView {
            genesis_time: self.genesis_time,
            network_name: self.network_name@,
            network_id: self.network_id,
            slots_per_epoch: self.slots_per_epoch,
            seconds_per_slot: self.seconds_per_slot,
        }
    }
}

impl Clone for NetworkInfo {
    fn clone(&self) -> (copy: Self)
        ensures
            copy@ == self@,
    {
        NetworkInfo {
            genesis_time: self.genesis_time,
            network_name: self.network_name.clone(),
            network_id: self.network_id,
            slots_per_epoch: self.slots_per_epoch,
            seconds_per_slot: self.seconds_per_slot,
        }
    }
}

impl NetworkInfo {
    /// Epochs can be derived only when an epoch spans at least one slot.
    pub open spec fn has_epoch_length(&self) -> bool {
        self.slots_per_epoch > 0
    }
}

/// Name under which the node reports.
#[derive(Debug)]
pub struct NodeConfig {
    pub name: String,
}

/// The mathematical content of a `NodeConfig`.
pub struct NodeConfigView {
    pub name: Seq<char>,
}

impl View for NodeConfig {
    type V = NodeConfigView;

    open spec fn view(&self) -> NodeConfigView {
        NodeConfigView { name: self.name@ }
    }
}

impl DeepView for NodeConfig {
    type V = NodeConfigView;

    open spec fn deep_view(&self) -> NodeConfigView {
        self@
    }
}

impl Clone for NodeConfig {
    fn clone(&self) -> (copy: Self)
        ensures
            copy@ == self@,
    {
        NodeConfig { name: self.name.clone() }
    }
}

/// Overrides for what is reported about the network.
#[derive(Debug)]
pub struct EthereumConfig {
    pub override_network_name: Option<String>,
}

/// The mathematical content of an `EthereumConfig`.
pub struct EthereumConfigView {
    pub override_network_name: Option<Seq<char>>,
}

impl View for EthereumConfig {
    type V = EthereumConfigView;

    open spec fn view(&self) -> EthereumConfigView {
        EthereumConfigView { override_network_name: self.override_network_name.deep_view() }
    }
}

impl DeepView for EthereumConfig {
    type V = EthereumConfigView;

    open spec fn deep_view(&self) -> EthereumConfigView {
        self@
    }
}

impl Clone for EthereumConfig {
    fn clone(&self) -> (copy: Self)
        ensures
            copy@ == self@,
    {
        EthereumConfig { override_network_name: clone_text(&self.override_network_name) }
    }
}

impl Default for EthereumConfig {
    fn default() -> (config: Self)
        ensures
            config@ == (EthereumConfigView { override_network_name: None }),
    {
        EthereumConfig { override_network_name: None }
    }
}

/// Copies an optional text.
pub fn clone_text(text: &Option<String>) -> (copy: Option<String>)
    ensures
        copy.deep_view() == text.deep_view(),
{
    match text {
        Some(t) => Some(t.clone()),
        None => None,
    }
}

/// Where one output sends events, and how it is tuned.
#[derive(Debug)]
pub struct OutputConfig {
    pub address: String,
    pub headers: HashMap<String, String>,
    pub tls: bool,
    pub max_queue_size: Option<u64>,
    pub batch_timeout: Option<String>,
    pub export_timeout: Option<String>,
    pub max_export_batch_size: Option<u64>,
    pub workers: Option<u64>,
}

/// The mathematical content of an `OutputConfig`. The headers are the map that the record holds.
pub struct OutputConfigView {
    pub address: Seq<char>,
    pub headers: Map<String, String>,
    pub tls: bool,
    pub max_queue_size: Option<u64>,
    pub batch_timeout: Option<Seq<char>>,
    pub export_timeout: Option<Seq<char>>,
    pub max_export_batch_size: Option<u64>,
    pub workers: Option<u64>,
}

impl View for OutputConfig {
    type V = OutputConfigView;

    open spec fn view(&self) -> OutputConfigView {
        OutputConfigView {
            address: self.address@,
            headers: self.headers@,
            tls: self.tls,
            max_queue_size: self.max_queue_size,
            batch_timeout: self.batch_timeout.deep_view(),
            export_timeout: self.export_timeout.deep_view(),
            max_export_batch_size: self.max_export_batch_size,
            workers: self.workers,
        }
    }
}

impl Clone for OutputConfig {
    fn clone(&self) -> (copy: Self)
        ensures
            copy@ == self@,
    {
        OutputConfig {
            address: self.address.clone(),
            headers: self.headers.clone(),
            tls: self.tls,
            max_queue_size: self.max_queue_size,
            batch_timeout: clone_text(&self.batch_timeout),
            export_timeout: clone_text(&self.export_timeout),
            max_export_batch_size: self.max_export_batch_size,
            workers: self.workers,
        }
    }
}

/// A named output of a given type.
#[derive(Debug)]
pub struct XatuOutput {
    pub name: String,
    pub output_type: String,
    pub config: OutputConfig,
}

/// The mathematical content of a `XatuOutput`.
pub struct XatuOutputView {
    pub name: Seq<char>,
    pub output_type: Seq<char>,
    pub config: OutputConfigView,
}

impl View for XatuOutput {
    type V = XatuOutputView;

    open spec fn view(&self) -> XatuOutputView {
        XatuOutputView { name: self.name@, output_type: self.output_type@, config: self.config@ }
    }
}

impl DeepView for XatuOutput {
    type V = XatuOutputView;

    open spec fn deep_view(&self) -> XatuOutputView {
        self@
    }
}

impl Clone for XatuOutput {
    fn clone(&self) -> (copy: Self)
        ensures
            copy@ == self@,
    {
        XatuOutput {
            name: self.name.clone(),
            output_type: self.output_type.clone(),
            config: self.config.clone(),
        }
    }
}

/// Copies a list of outputs, keeping their order.
pub fn clone_outputs(outputs: &Vec<XatuOutput>) -> (copy: Vec<XatuOutput>)
    ensures
        copy.deep_view() == outputs.deep_view(),
{
    let mut copy: Vec<XatuOutput> = Vec::new();
    let mut i: usize = 0;
    while i < outputs.len()
        invariant
            i <= outputs.len(),
            copy@.len() == i,
            forall|j: int| 0 <= j < i ==> copy@[j]@ == outputs@[j]@,
        decreases outputs.len() - i,
    {
        copy.push(outputs[i].clone());
        i += 1;
    }
    assert(copy.deep_view() =~= outputs.deep_view());
    copy
}

/// What the operator configures: whether the bridge runs, and where it reports.
#[derive(Debug)]
pub struct XatuConfig {
    pub enabled: bool,
    pub name: Option<String>,
    pub outputs: Option<Vec<XatuOutput>>,
    pub ntp_server: Option<String>,
    pub ethereum: Option<EthereumConfig>,
}

/// The mathematical content of a `XatuConfig`.
pub struct XatuConfigView {
    pub enabled: bool,
    pub name: Option<Seq<char>>,
    pub outputs: Option<Seq<XatuOutputView>>,
    pub ntp_server: Option<Seq<char>>,
    pub ethereum: Option<EthereumConfigView>,
}

impl View for XatuConfig {
    type V = XatuConfigView;

    open spec fn view(&self) -> XatuConfigView {
        XatuConfigView {
            enabled: self.enabled,
            name: self.name.deep_view(),
            outputs: self.outputs.deep_view(),
            ntp_server: self.ntp_server.deep_view(),
            ethereum: self.ethereum.deep_view(),
        }
    }
}

impl DeepView for XatuConfig {
    type V = XatuConfigView;

    open spec fn deep_view(&self) -> XatuConfigView {
        self@
    }
}

/// The configuration handed to the sink: every output, and the node's own name if it has one.
#[derive(Debug)]
pub struct FullConfig {
    pub node: Option<NodeConfig>,
    pub outputs: Vec<XatuOutput>,
    pub ntp_server: Option<String>,
    pub ethereum: Option<EthereumConfig>,
}

/// The mathematical content of a `FullConfig`.
pub struct FullConfigView {
    pub node: Option<NodeConfigView>,
    pub outputs: Seq<XatuOutputView>,
    pub ntp_server: Option<Seq<char>>,
    pub ethereum: Option<EthereumConfigView>,
}

impl View for FullConfig {
    type V = FullConfigView;

    open spec fn view(&self) -> FullConfigView {
        FullConfigView {
            node: self.node.deep_view(),
            outputs: self.outputs.deep_view(),
            ntp_server: self.ntp_server.deep_view(),
            ethereum: self.ethereum.deep_view(),
        }
    }
}

/// The full configuration that a configuration stands for: the node is named after `name`,
/// and a missing list of outputs counts as an empty one.
pub open spec fn full_config_of(config: XatuConfigView) -> FullConfigView {
    FullConfigView {
        node: match config.name {
            Some(name) => Some(NodeConfigView { name }),
            None => None,
        },
        outputs: match config.outputs {
            Some(outputs) => outputs,
            None => Seq::empty(),
        },
        ntp_server: config.ntp_server,
        ethereum: config.ethereum,
    }
}

impl Default for XatuConfig {
    fn default() -> (config: Self)
        ensures
            config@ == (XatuConfigView {
                enabled: false,
                name: None,
                outputs: None,
                ntp_server: None,
                ethereum: None,
            }),
    {
        XatuConfig { enabled: false, name: None, outputs: None, ntp_server: None, ethereum: None }
    }
}

impl Clone for XatuConfig {
    fn clone(&self) -> (copy: Self)
        ensures
            copy@ == self@,
    {
        XatuConfig {
            enabled: self.enabled,
            name: clone_text(&self.name),
            outputs: match &self.outputs {
                Some(outputs) => Some(clone_outputs(outputs)),
                None => None,
            },
            ntp_server: clone_text(&self.ntp_server),
            ethereum: match &self.ethereum {
                Some(ethereum) => Some(ethereum.clone()),
                None => None,
            },
        }
    }
}

impl Clone for FullConfig {
    fn clone(&self) -> (copy: Self)
        ensures
            copy@ == self@,
    {
        FullConfig {
            node: match &self.node {
                Some(node) => Some(node.clone()),
                None => None,
            },
            outputs: clone_outputs(&self.outputs),
            ntp_server: clone_text(&self.ntp_server),
            ethereum: match &self.ethereum {
                Some(ethereum) => Some(ethereum.clone()),
                None => None,
            },
        }
    }
}

impl XatuConfig {
    /// An enabled configuration with nothing else set.
    pub fn enabled() -> (config: Self)
        ensures
            config@ == (XatuConfigView {
                enabled: true,
                name: None,
                outputs: None,
                ntp_server: None,
                ethereum: None,
            }),
    {
        XatuConfig { enabled: true, name: None, outputs: None, ntp_server: None, ethereum: None }
    }

    /// Whether the bridge is to run.
    pub fn is_enabled(&self) -> (enabled: bool)
        ensures
            enabled == self.enabled,
    {
        self.enabled
    }

    /// The configuration to hand to the sink, with every output.
    pub fn get_full_config(&self) -> (full: FullConfig)
        ensures
            full@ == full_config_of(self@),
    {
        let node = match &self.name {
            Some(name) => Some(NodeConfig { name: name.clone() }),
            None => None,
        };
        let outputs = match &self.outputs {
            Some(outputs) => clone_outputs(outputs),
            None => Vec::new(),
        };
        let ethereum = match &self.ethereum {
            Some(ethereum) => Some(ethereum.clone()),
            None => None,
        };
        let full = FullConfig {
            node,
            outputs,
            ntp_server: clone_text(&self.ntp_server),
            ethereum,
        };
        assert(full.outputs.deep_view() =~= full_config_of(self@).outputs);
        full
    }
}

/// Name and version of the client that hosts the bridge.
#[derive(Debug)]
pub struct ClientInfo {
    pub name: String,
    pub version: String,
}

/// The mathematical content of a `ClientInfo`.
pub struct ClientInfoView {
    pub name: Seq<char>,
    pub version: Seq<char>,
}

impl View for ClientInfo {
    type V = ClientInfoView;

    open spec fn view(&self) -> ClientInfoView {
        ClientInfoView { name: self.name@, version: self.version@ }
    }
}

impl Clone for ClientInfo {
    fn clone(&self) -> (copy: Self)
        ensures
            copy@ == self@,
    {
        ClientInfo { name: self.name.clone(), version: self.version.clone() }
    }
}

/// Name and identifier of the network, as reported to the sink.
#[derive(Debug)]
pub struct Network {
    pub name: String,
    pub id: u64,
}

/// The mathematical content of a `Network`.
pub struct NetworkView {
    pub name: Seq<char>,
    pub id: u64,
}

impl View for Network {
    type V = NetworkView;

    open spec fn view(&self) -> NetworkView {
        NetworkView { name: self.name@, id: self.id }
    }
}

impl Clone for Network {
    fn clone(&self) -> (copy: Self)
        ensures
            copy@ == self@,
    {
        Network { name: self.name.clone(), id: self.id }
    }
}

/// The chain's timing and identity, as reported to the sink.
#[derive(Debug)]
pub struct XatuEthereum {
    pub implementation: String,
    pub genesis_time: u64,
    pub seconds_per_slot: u64,
    pub slots_per_epoch: u64,
    pub network: Network,
}

/// The mathematical content of a `XatuEthereum`.
pub struct XatuEthereumView {
    pub implementation: Seq<char>,
    pub genesis_time: u64,
    pub seconds_per_slot: u64,
    pub slots_per_epoch: u64,
    pub network: NetworkView,
}

impl View for XatuEthereum {
    type V = XatuEthereumView;

    open spec fn view(&self) -> XatuEthereumView {
        XatuEthereumView {
            implementation: self.implementation@,
            genesis_time: self.genesis_time,
            seconds_per_slot: self.seconds_per_slot,
            slots_per_epoch: self.slots_per_epoch,
            network: self.network@,
        }
    }
}

impl Clone for XatuEthereum {
    fn clone(&self) -> (copy: Self)
        ensures
            copy@ == self@,
    {
        XatuEthereum {
            implementation: self.implementation.clone(),
            genesis_time: self.genesis_time,
            seconds_per_slot: self.seconds_per_slot,
            slots_per_epoch: self.slots_per_epoch,
            network: self.network.clone(),
        }
    }
}

/// What the sink's event processor is started with.
#[derive(Debug)]
pub struct XatuProcessorConfig {
    pub name: String,
    pub outputs: Vec<XatuOutput>,
    pub ethereum: XatuEthereum,
    pub client: ClientInfo,
    pub ntp_server: Option<String>,
}

/// The mathematical content of a `XatuProcessorConfig`.
pub struct XatuProcessorConfigView {
    pub name: Seq<char>,
    pub outputs: Seq<XatuOutputView>,
    pub ethereum: XatuEthereumView,
    pub client: ClientInfoView,
    pub ntp_server: Option<Seq<char>>,
}

impl View for XatuProcessorConfig {
    type V = XatuProcessorConfigView;

    open spec fn view(&self) -> XatuProcessorConfigView {
        XatuProcessorConfigView {
            name: self.name@,
            outputs: self.outputs.deep_view(),
            ethereum: self.ethereum@,
            client: self.client@,
            ntp_server: self.ntp_server.deep_view(),
        }
    }
}

impl Clone for XatuProcessorConfig {
    fn clone(&self) -> (copy: Self)
        ensures
            copy@ == self@,
    {
        XatuProcessorConfig {
            name: self.name.clone(),
            outputs: clone_outputs(&self.outputs),
            ethereum: self.ethereum.clone(),
            client: self.client.clone(),
            ntp_server: clone_text(&self.ntp_server),
        }
    }
}

/// The processor's configuration together with the level at which the sink logs.
#[derive(Debug)]
pub struct FullConfigWithRuntime {
    pub log_level: Option<String>,
    pub processor: XatuProcessorConfig,
}

/// The mathematical content of a `FullConfigWithRuntime`.
pub struct FullConfigWithRuntimeView {
    pub log_level: Option<Seq<char>>,
    pub processor: XatuProcessorConfigView,
}

impl View for FullConfigWithRuntime {
    type V = FullConfigWithRuntimeView;

    open spec fn view(&self) -> FullConfigWithRuntimeView {
        FullConfigWithRuntimeView {
            log_level: self.log_level.deep_view(),
            processor: self.processor@,
        }
    }
}

impl Clone for FullConfigWithRuntime {
    fn clone(&self) -> (copy: Self)
        ensures
            copy@ == self@,
    {
        FullConfigWithRuntime {
            log_level: clone_text(&self.log_level),
            processor: self.processor.clone(),
        }
    }
}

/// The name under which the hosting client reports itself.
pub const CLIENT_NAME: &'static str = "lighthouse";

/// The level at which the sink logs when the filter names none.
pub const DEFAULT_LOG_LEVEL: &'static str = "info";

/// The level named by a log filter: the most verbose of the five levels whose name occurs in
/// it, and the default where none does or no filter is set.
pub open spec fn log_level_of(filter: Option<Seq<char>>) -> Seq<char> {
    match filter {
        None => DEFAULT_LOG_LEVEL@,
        Some(f) => if occurs_in(f, "trace"@) {
            "trace"@
        } else if occurs_in(f, "debug"@) {
            "debug"@
        } else if occurs_in(f, "info"@) {
            "info"@
        } else if occurs_in(f, "warn"@) {
            "warn"@
        } else if occurs_in(f, "error"@) {
            "error"@
        } else {
            DEFAULT_LOG_LEVEL@
        },
    }
}

/// Picks the sink's log level from the host's log filter.
pub fn log_level_for_filter(filter: &Option<String>) -> (level: String)
    ensures
        level@ == log_level_of(filter.deep_view()),
{
    match filter {
        None => String::from_str(DEFAULT_LOG_LEVEL),
        Some(f) => {
            let f = f.as_str();
            if contains(f, "trace") {
                String::from_str("trace")
            } else if contains(f, "debug") {
                String::from_str("debug")
            } else if contains(f, "info") {
                String::from_str("info")
            } else if contains(f, "warn") {
                String::from_str("warn")
            } else if contains(f, "error") {
                String::from_str("error")
            } else {
                String::from_str(DEFAULT_LOG_LEVEL)
            }
        },
    }
}

/// The configuration that starts the sink for a given network: the node reports under its
/// configured name, or under the client's name if it has none.
pub open spec fn runtime_config_of(
    full: FullConfigView,
    network: NetworkInfoView,
    log_level: Seq<char>,
    client_version: Seq<char>,
) -> FullConfigWithRuntimeView {
    FullConfigWithRuntimeView {
        log_level: Some(log_level),
        processor: XatuProcessorConfigView {
            name: match full.node {
                Some(node) => node.name,
                None => CLIENT_NAME@,
            },
            outputs: full.outputs,
            ethereum: XatuEthereumView {
                implementation: CLIENT_NAME@,
                genesis_time: network.genesis_time,
                seconds_per_slot: network.seconds_per_slot,
                slots_per_epoch: network.slots_per_epoch,
                network: NetworkView { name: network.network_name, id: network.network_id },
            },
            client: ClientInfoView { name: CLIENT_NAME@, version: client_version },
            ntp_server: full.ntp_server,
        },
    }
}

impl FullConfigWithRuntime {
    /// Assembles the configuration that starts the sink.
    pub fn assemble(
        full: &FullConfig,
        network: &NetworkInfo,
        log_level: String,
        client_version: &str,
    ) -> (config: Self)
        ensures
            config@ == runtime_config_of(full@, network@, log_level@, client_version@),
    {
        let name = match &full.node {
            Some(node) => node.name.clone(),
            None => String::from_str(CLIENT_NAME),
        };
        FullConfigWithRuntime {
            log_level: Some(log_level),
            processor: XatuProcessorConfig {
                name,
                outputs: clone_outputs(&full.outputs),
                ethereum: XatuEthereum {
                    implementation: String::from_str(CLIENT_NAME),
                    genesis_time: network.genesis_time,
                    seconds_per_slot: network.seconds_per_slot,
                    slots_per_epoch: network.slots_per_epoch,
                    network: Network {
                        name: network.network_name.clone(),
                        id: network.network_id,
                    },
                },
                client: ClientInfo {
                    name: String::from_str(CLIENT_NAME),
                    version: String::from_str(client_version),
                },
                ntp_server: clone_text(&full.ntp_server),
            },
        }
    }
}

} // verus!
