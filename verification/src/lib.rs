//! Client-side load balancing for a gRPC transport channel.
//!
//! The crate maintains a live set of concrete endpoints (IP and port) for a
//! logical service name. A periodic probe resolves the hostname, diffs the
//! result against the endpoint set the transport already knows, and publishes
//! the difference as an ordered list of insert and remove events which the
//! transport consumes through a bounded change stream.
//!
//! The probe's planning and commit steps, hostname validation, and endpoint
//! descriptor construction are verified here; the asynchronous plumbing that
//! drives them (DNS queries, the transport channel, the change stream itself)
//! lives outside the library and interacts with it through plain values.

pub mod balanced_channel;
pub mod endpoint;
pub mod numfmt;
pub mod service_definition;
pub mod service_probe;

pub use service_probe::remove_skipped;
pub use service_probe::ChangeEvent;
pub use service_probe::GrpcServiceProbe;
pub use service_probe::GrpcServiceProbeConfig;
pub use service_probe::PassPlan;
pub use service_probe::ProbeError;
pub use service_probe::ResolutionOutcome;

pub use balanced_channel::ChannelPlan;
pub use balanced_channel::LoadBalancedChannelBuilder;
pub use balanced_channel::ResolutionStrategy;
pub use balanced_channel::DEFAULT_PROBE_INTERVAL_MS;
pub use balanced_channel::GRPC_REPORT_ENDPOINTS_CHANNEL_SIZE;
pub use endpoint::EndpointAddr;
pub use endpoint::EndpointDescriptor;
pub use endpoint::IpAddress;
pub use endpoint::Scheme;
pub use endpoint::TlsPolicy;

pub use service_definition::ServiceDefinition;
pub use service_definition::ServiceDefinitionError;
