//! The configuration of the node agent.

use vstd::prelude::*;

verus! {

/// How metrics are collected.
#[derive(Clone, Debug)]
pub struct MetricsConfig {
    pub collection_interval: u64,
    pub batch_size: u32,
}

/// Where etcd is.
#[derive(Clone, Debug)]
pub struct EtcdConfig {
    pub endpoint: String,
}

/// The machine.
#[derive(Clone, Debug)]
pub struct SystemConfig {
    pub hostname: String,
    pub platform: String,
    pub architecture: String,
}

/// The settings of the node agent.
#[derive(Clone, Debug)]
pub struct NodeAgentConfig {
    pub node_type: String,
    pub master_ip: String,
    pub grpc_port: u16,
    pub log_level: String,
    pub metrics: MetricsConfig,
    pub etcd: EtcdConfig,
    pub system: SystemConfig,
    pub yaml_storage: String,
}

/// The configuration.
#[derive(Clone, Debug)]
pub struct Config {
    pub nodeagent: NodeAgentConfig,
}

/// Where manifests are stored when the configuration does not say it.
pub open spec fn default_storage() -> Seq<char> {
    "/etc/piccolo/yaml"@
}

/// Where manifests are stored when the configuration does not say it.
pub fn default_yaml_storage() -> (path: String)
    ensures
        path@ == default_storage(),
{
    "/etc/piccolo/yaml".to_owned()
}

impl Default for MetricsConfig {
    fn default() -> (metrics: MetricsConfig)
        ensures
            metrics == (MetricsConfig { collection_interval: 0, batch_size: 0 }),
    {
        MetricsConfig { collection_interval: 0, batch_size: 0 }
    }
}

impl Default for EtcdConfig {
    fn default() -> (etcd: EtcdConfig)
        ensures
            etcd.endpoint@.len() == 0,
    {
        EtcdConfig { endpoint: String::new() }
    }
}

impl Default for SystemConfig {
    fn default() -> (system: SystemConfig)
        ensures
            system.hostname@.len() == 0,
            system.platform@.len() == 0,
            system.architecture@.len() == 0,
    {
        SystemConfig {
            hostname: String::new(),
            platform: String::new(),
            architecture: String::new(),
        }
    }
}

/// Settings of which none is set.
pub open spec fn is_unset(agent: NodeAgentConfig) -> bool {
    &&& agent.node_type@.len() == 0
    &&& agent.master_ip@.len() == 0
    &&& agent.grpc_port == 0
    &&& agent.log_level@.len() == 0
    &&& agent.metrics.collection_interval == 0
    &&& agent.metrics.batch_size == 0
    &&& agent.etcd.endpoint@.len() == 0
    &&& agent.system.hostname@.len() == 0
    &&& agent.system.platform@.len() == 0
    &&& agent.system.architecture@.len() == 0
    &&& agent.yaml_storage@.len() == 0
}

impl Default for NodeAgentConfig {
    fn default() -> (agent: NodeAgentConfig)
        ensures
            is_unset(agent),
    {
        NodeAgentConfig {
            node_type: String::new(),
            master_ip: String::new(),
            grpc_port: 0,
            log_level: String::new(),
            metrics: MetricsConfig::default(),
            etcd: EtcdConfig::default(),
            system: SystemConfig::default(),
            yaml_storage: String::new(),
        }
    }
}

impl Default for Config {
    fn default() -> (config: Config)
        ensures
            is_unset(config.nodeagent),
    {
        Config { nodeagent: NodeAgentConfig::default() }
    }
}

/// The configuration in use after one was set: the one that was in use before stays.
pub open spec fn set_once(slot: Option<Config>, config: Config) -> Option<Config> {
    match slot {
        Some(held) => Some(held),
        None => Some(config),
    }
}

/// Only the first configuration that is set counts.
pub proof fn law_first_config_stays(slot: Option<Config>, first: Config, second: Config)
    ensures
        set_once(set_once(slot, first), second) == set_once(slot, first),
        set_once(slot, first) is Some,
{
}

impl Config {
    /// The address of the host.
    pub fn get_host_ip(&self) -> (ip: String)
        ensures
            ip@ == self.nodeagent.master_ip@,
    {
        self.nodeagent.master_ip.clone()
    }

    /// The name of the host.
    pub fn get_hostname(&self) -> (hostname: String)
        ensures
            hostname@ == self.nodeagent.system.hostname@,
    {
        self.nodeagent.system.hostname.clone()
    }

    /// Where manifests are stored.
    pub fn get_yaml_storage(&self) -> (path: String)
        ensures
            path@ == self.nodeagent.yaml_storage@,
    {
        self.nodeagent.yaml_storage.clone()
    }

    /// The configuration in use. Where none was set yet, it is the one in which nothing is
    /// set, from now on.
    pub fn get(slot: &mut Option<Config>) -> (config: &Config)
        ensures
            *final(slot) == Some(*config),
            match *old(slot) {
                Some(held) => *config == held,
                None => is_unset(config.nodeagent),
            },
    {
        if slot.is_none() {
            *slot = Some(Config::default());
        }
        slot.as_ref().unwrap()
    }

    /// Sets the configuration, unless one is in use already.
    pub fn set_global(slot: &mut Option<Config>, config: Config)
        ensures
            *final(slot) == set_once(*old(slot), config),
    {
        if slot.is_none() {
            *slot = Some(config);
        }
    }
}

/// A configuration is taken where none is in use, and passed over where one is.
pub proof fn law_set_once(held: Config, config: Config)
    ensures
        set_once(None, config) == Some(config),
        set_once(Some(held), config) == Some(held),
{
}

/// Where nothing is set, every text is empty and every number is zero.
pub proof fn law_nothing_is_set(agent: NodeAgentConfig)
    requires
        is_unset(agent),
    ensures
        agent.master_ip@.len() == 0 && agent.system.hostname@.len() == 0
            && agent.yaml_storage@.len() == 0,
        agent.node_type@.len() == 0 && agent.log_level@.len() == 0 && agent.etcd.endpoint@.len()
            == 0,
        agent.system.platform@.len() == 0 && agent.system.architecture@.len() == 0,
        agent.grpc_port == 0 && agent.metrics.collection_interval == 0 && agent.metrics.batch_size
            == 0,
{
}

} // verus!
