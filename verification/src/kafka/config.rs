//! Default Kafka settings for local development.
use vstd::prelude::*;

verus! {

/// Default Kafka bootstrap servers for local development
pub const DEFAULT_BOOTSTRAP_SERVERS: &'static str = "localhost:30092";

/// Default Kafka namespace in Kubernetes
pub const DEFAULT_KAFKA_NAMESPACE: &'static str = "kafka";

/// Default Strimzi cluster name
pub const DEFAULT_CLUSTER_NAME: &'static str = "my-cluster";

/// Default topic retention in milliseconds (2 hours)
pub const DEFAULT_RETENTION_MS: &'static str = "7200000";

/// Default segment size in bytes (1GB)
pub const DEFAULT_SEGMENT_BYTES: &'static str = "1073741824";

/// The bootstrap servers to use given the value of `KAFKA_BOOTSTRAP_SERVERS` (`None` when it is
/// unset or not valid unicode): that value, else the default.
pub fn bootstrap_servers_from(env_value: Option<String>) -> (s: String)
    ensures
        env_value matches Some(v) ==> s@ == v@,
        env_value is None ==> s@ == DEFAULT_BOOTSTRAP_SERVERS@,
{
    match env_value {
        Some(v) => v,
        None => DEFAULT_BOOTSTRAP_SERVERS.to_owned(),
    }
}

} // verus!
