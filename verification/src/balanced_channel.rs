//! The configuration surface that assembles a probe for a balanced channel.
//!
//! The builder collects the service definition and the endpoint policy, and
//! [`LoadBalancedChannelBuilder::plan_channel`] turns them into the probe the
//! background task runs, applying the defaults: ten seconds between passes,
//! the request timeout as the connection timeout when none is set, and — when
//! TLS is enabled — the service hostname, never a resolved IP, as the TLS
//! peer name of every endpoint.

use crate::endpoint::EndpointAddr;
use crate::endpoint::EndpointDescriptor;
use crate::endpoint::Scheme;
use crate::endpoint::TlsPolicy;
use crate::service_definition::ServiceDefinition;
use crate::service_probe::changeset_ok;
use crate::service_probe::ChangeEvent;
use crate::service_probe::GrpcServiceProbe;
use crate::service_probe::GrpcServiceProbeConfig;
use vstd::prelude::*;

verus! {

/// Capacity of the bounded change stream between the probe and the
/// transport: how many endpoint changes can be in flight at once.
pub const GRPC_REPORT_ENDPOINTS_CHANNEL_SIZE: usize = 1024;

/// How often the probe refreshes the endpoint set when the builder is given
/// no interval, in milliseconds.
pub const DEFAULT_PROBE_INTERVAL_MS: u64 = 10_000;

/// The domain name resolution strategies a channel can be built with.
#[derive(Clone, Copy, Debug, PartialEq, Eq, Structural)]
pub enum ResolutionStrategy {
    /// Create the channel without attempting to resolve a set of initial
    /// endpoints; the first resolution happens in the background.
    Lazy,
    /// Run one probe pass, bounded by the timeout, before the channel is
    /// handed out, so that it starts with a non-empty set of endpoints.
    /// If that pass fails or times out, channel creation fails.
    Eager { timeout_ms: u64 },
}

/// Collected configuration for a balanced channel. Durations are in
/// milliseconds; what is optional here gets its default when the plan is
/// assembled.
#[derive(Clone, Debug)]
pub struct LoadBalancedChannelBuilder {
    pub service_definition: ServiceDefinition,
    pub probe_interval_ms: Option<u64>,
    pub resolution_strategy: ResolutionStrategy,
    pub timeout_ms: Option<u64>,
    pub connect_timeout_ms: Option<u64>,
    pub tls_enabled: bool,
}

/// What building a channel decides: the probe to run and the strategy that
/// says whether one pass must succeed before the channel is handed out.
#[derive(Clone, Debug)]
pub struct ChannelPlan {
    pub probe: GrpcServiceProbe,
    pub strategy: ResolutionStrategy,
}

/// The plan `plan_channel` assembles from a builder: policy passed through,
/// defaults applied, the scheme and peer name tied to the TLS choice, and an
/// empty initial known set.
pub open spec fn plan_matches(b: LoadBalancedChannelBuilder, p: ChannelPlan) -> bool {
    &&& p.probe.service_definition == b.service_definition
    &&& p.probe.scheme == (if b.tls_enabled {
        Scheme::Https
    } else {
        Scheme::Http
    })
    &&& b.tls_enabled <==> p.probe.tls_config is Some
    &&& (p.probe.tls_config matches Some(t) ==> t.domain@ == b.service_definition.hostname@)
    &&& p.probe.probe_interval_ms == (match b.probe_interval_ms {
        Some(ms) => ms,
        None => DEFAULT_PROBE_INTERVAL_MS,
    })
    &&& p.probe.endpoint_timeout_ms == b.timeout_ms
    &&& p.probe.endpoint_connect_timeout_ms == (match b.connect_timeout_ms {
        Some(ms) => Some(ms),
        None => b.timeout_ms,
    })
    &&& p.probe.endpoints@ == Seq::<EndpointAddr>::empty()
    &&& p.strategy == b.resolution_strategy
}

impl LoadBalancedChannelBuilder {
    /// Start configuring a channel for the given service: lazy resolution,
    /// no timeouts, no TLS, and the default probe interval until set.
    pub fn new_with_service(service_definition: ServiceDefinition) -> (r:
        LoadBalancedChannelBuilder)
        ensures
            r == (LoadBalancedChannelBuilder {
                service_definition: service_definition,
                probe_interval_ms: None,
                resolution_strategy: ResolutionStrategy::Lazy,
                timeout_ms: None,
                connect_timeout_ms: None,
                tls_enabled: false,
            }),
    {
        LoadBalancedChannelBuilder {
            service_definition,
            probe_interval_ms: None,
            resolution_strategy: ResolutionStrategy::Lazy,
            timeout_ms: None,
            connect_timeout_ms: None,
            tls_enabled: false,
        }
    }

    /// Set how often the probe refreshes the endpoint set.
    pub fn dns_probe_interval(self, interval_ms: u64) -> (r: LoadBalancedChannelBuilder)
        ensures
            r == (LoadBalancedChannelBuilder { probe_interval_ms: Some(interval_ms), ..self }),
    {
        LoadBalancedChannelBuilder { probe_interval_ms: Some(interval_ms), ..self }
    }

    /// Set a request timeout applied to every endpoint.
    pub fn timeout(self, timeout_ms: u64) -> (r: LoadBalancedChannelBuilder)
        ensures
            r == (LoadBalancedChannelBuilder { timeout_ms: Some(timeout_ms), ..self }),
    {
        LoadBalancedChannelBuilder { timeout_ms: Some(timeout_ms), ..self }
    }

    /// Set a connection timeout applied to every endpoint. Defaults to the
    /// request timeout when not set.
    pub fn connect_timeout(self, connect_timeout_ms: u64) -> (r: LoadBalancedChannelBuilder)
        ensures
            r == (LoadBalancedChannelBuilder {
                connect_timeout_ms: Some(connect_timeout_ms),
                ..self
            }),
    {
        LoadBalancedChannelBuilder { connect_timeout_ms: Some(connect_timeout_ms), ..self }
    }

    /// Choose when the first resolution happens.
    pub fn resolution_strategy(self, resolution_strategy: ResolutionStrategy) -> (r:
        LoadBalancedChannelBuilder)
        ensures
            r == (LoadBalancedChannelBuilder { resolution_strategy, ..self }),
    {
        LoadBalancedChannelBuilder { resolution_strategy, ..self }
    }

    /// Use TLS for every endpoint. The peer name presented for SNI and
    /// certificate verification will be the service hostname.
    pub fn with_tls(self) -> (r: LoadBalancedChannelBuilder)
        ensures
            r == (LoadBalancedChannelBuilder { tls_enabled: true, ..self }),
    {
        LoadBalancedChannelBuilder { tls_enabled: true, ..self }
    }

    /// Assemble the probe and the strategy for this configuration: apply the
    /// interval and connection-timeout defaults, and when TLS is enabled,
    /// switch the scheme to `https` and bind the service hostname as the TLS
    /// peer name of every future endpoint descriptor.
    pub fn plan_channel(self) -> (r: ChannelPlan)
        ensures
            plan_matches(self, r),
            r.probe.wf(),
    {
        let interval: u64 = match self.probe_interval_ms {
            Some(ms) => ms,
            None => DEFAULT_PROBE_INTERVAL_MS,
        };
        let connect: Option<u64> = match self.connect_timeout_ms {
            Some(ms) => Some(ms),
            None => self.timeout_ms,
        };
        let tls: Option<TlsPolicy> = if self.tls_enabled {
            // A resolved IP is not a valid DNS name; TLS must verify against
            // the hostname that was resolved.
            Some(TlsPolicy { domain: self.service_definition.hostname.clone() })
        } else {
            None
        };
        let config = GrpcServiceProbeConfig {
            service_definition: self.service_definition,
            probe_interval_ms: interval,
            endpoint_timeout_ms: self.timeout_ms,
            endpoint_connect_timeout_ms: connect,
        };
        let probe = GrpcServiceProbe::new_with_reporter(config);
        let probe = match tls {
            Some(t) => probe.with_tls(t),
            None => probe,
        };
        ChannelPlan { probe, strategy: self.resolution_strategy }
    }
}

/// TLS name binding: a descriptor built by a probe that was assembled
/// with TLS carries the service's hostname as its TLS peer name.
pub proof fn lemma_tls_name_binding(
    b: LoadBalancedChannelBuilder,
    p: ChannelPlan,
    a: EndpointAddr,
    d: EndpointDescriptor,
)
    requires
        b.tls_enabled,
        plan_matches(b, p),
        p.probe.descriptor_ok(a, d),
    ensures
        d.tls_peer_name matches Some(n) && n@ == b.service_definition.hostname@,
{
}

/// TLS name binding over a whole pass: every insert event planned by a probe that was
/// assembled with TLS binds the service hostname as the peer name.
pub proof fn lemma_pass_tls_name_binding(
    b: LoadBalancedChannelBuilder,
    p: ChannelPlan,
    known: Seq<EndpointAddr>,
    fresh: Seq<EndpointAddr>,
    evs: Seq<ChangeEvent>,
)
    requires
        b.tls_enabled,
        plan_matches(b, p),
        changeset_ok(known, fresh, p.probe, evs),
    ensures
        forall|i: int|
            0 <= i < evs.len() ==> ((#[trigger] evs[i]) matches ChangeEvent::Insert(a, d)
                ==> d.tls_peer_name matches Some(n) && n@ == b.service_definition.hostname@),
{
}

} // verus!
