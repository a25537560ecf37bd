//! Setting the bridge up from a configuration.

use crate::config::{log_level_of, runtime_config_of, NetworkInfo, XatuConfig, full_config_of};
use crate::channel::INGRESS_CAPACITY;
use crate::metrics::DeliveryTotals;
use crate::observer::{StartupError, XatuObserver};
use crate::worker::{fresh_scheduler, Worker};
use vstd::prelude::*;

verus! {

/// Sets the bridge up from a configuration alone. A configuration that is not enabled yields
/// no bridge; an enabled one cannot be served, since nothing is known about the network.
pub fn create_exporter_from_config(
    config: &XatuConfig,
    log_filter: &Option<String>,
    client_version: &str,
) -> (started: Result<Option<(XatuObserver, Worker)>, StartupError>)
    ensures
        config.enabled ==> started == Err::<Option<(XatuObserver, Worker)>, StartupError>(
            StartupError::MissingNetworkInfo,
        ),
        !config.enabled ==> started == Ok::<Option<(XatuObserver, Worker)>, StartupError>(None),
{
    if !config.is_enabled() {
        return Ok(None);
    }
    let full_config = config.get_full_config();
    match XatuObserver::new_with_full_config(&full_config, None, log_filter, client_version) {
        Ok(started) => Ok(Some(started)),
        Err(error) => Err(error),
    }
}

/// Sets the bridge up from a configuration and what is known about the network. A
/// configuration that is not enabled yields no bridge; an enabled one yields both sides of
/// it, the worker holding the configuration that the sink is to be started with.
pub fn create_exporter_with_network_info(
    config: &XatuConfig,
    network_info: NetworkInfo,
    log_filter: &Option<String>,
    client_version: &str,
) -> (started: Option<(XatuObserver, Worker)>)
    requires
        config.enabled ==> network_info.has_epoch_length(),
    ensures
        match started {
            Some((observer, worker)) => {
                &&& config.enabled
                &&& observer.network() == Some(network_info)
                &&& observer.wf()
                &&& observer.queue_limit() == INGRESS_CAPACITY
                &&& worker.queue_limit() == INGRESS_CAPACITY
                &&& worker.config_of()@ == runtime_config_of(
                    full_config_of(config@),
                    network_info@,
                    log_level_of(log_filter.deep_view()),
                    client_version@,
                )
                &&& worker.state() == fresh_scheduler(0)
                &&& worker.totals_of() == (DeliveryTotals { events: 0, batches: 0 })
                &&& worker.wf()
            },
            None => !config.enabled,
        },
{
    if !config.is_enabled() {
        return None;
    }
    let full_config = config.get_full_config();
    match XatuObserver::new_with_full_config(
        &full_config,
        Some(network_info),
        log_filter,
        client_version,
    ) {
        Ok(started) => Some(started),
        Err(_) => None,
    }
}

} // verus!
