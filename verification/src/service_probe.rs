//! The discovery probe: it owns the set of endpoints the transport has been
//! told about, diffs each resolver snapshot against that set, and plans the
//! ordered change events for the transport's bounded change stream.
//!
//! One probe pass has two halves. [`GrpcServiceProbe::begin_probe_pass`] takes
//! the resolver's outcome and plans the pass: the deduplicated snapshot and
//! the change events, every insert before every remove. The caller then sends
//! the events on the change stream, in order, and reports back through
//! [`GrpcServiceProbe::report_and_commit`]: only when every event was accepted
//! is the snapshot committed as the new known set. A failed resolution plans
//! nothing and leaves the known set untouched; a closed stream is the probe's
//! only fatal error.

use crate::endpoint::descriptor_matches;
use crate::endpoint::format_endpoint_uri;
use crate::endpoint::lemma_ipv6_uri_bracketed;
use crate::endpoint::spec_host;
use crate::endpoint::EndpointAddr;
use crate::endpoint::EndpointDescriptor;
use crate::endpoint::Scheme;
use crate::endpoint::TlsPolicy;
use crate::numfmt::spec_dec;
use crate::service_definition::ServiceDefinition;
use vstd::prelude::*;
use vstd::seq_lib::group_seq_properties;

verus! {

/// Why a probe pass failed.
#[derive(Clone, Copy, Debug, PartialEq, Eq, Structural)]
pub enum ProbeError {
    /// The resolver could not produce a snapshot for the service definition.
    /// Transient: the pass is abandoned and retried on the next tick.
    ResolveServiceDefinition,
    /// The change stream's consumer is gone. Fatal: the transport was dropped,
    /// so the probe loop must exit.
    ChangesetSenderClosed,
}

impl ProbeError {
    /// The probe loop's termination rule: only a closed change stream ends it.
    pub fn is_fatal(&self) -> (r: bool)
        ensures
            r <==> *self is ChangesetSenderClosed,
    {
        match self {
            ProbeError::ChangesetSenderClosed => true,
            ProbeError::ResolveServiceDefinition => false,
        }
    }
}

/// One endpoint change against the transport's prior endpoint set.
#[derive(Clone, Debug)]
pub enum ChangeEvent {
    /// The transport should start using this endpoint, dialled as described.
    Insert(EndpointAddr, EndpointDescriptor),
    /// The transport should forget this endpoint.
    Remove(EndpointAddr),
}

/// The address an event is about.
pub open spec fn event_addr(e: ChangeEvent) -> EndpointAddr {
    match e {
        ChangeEvent::Insert(a, _) => a,
        ChangeEvent::Remove(a) => a,
    }
}

/// What the resolver produced for one pass: a complete snapshot of the
/// service's addresses, or a failure.
#[derive(Clone, Debug)]
pub enum ResolutionOutcome {
    Resolved(Vec<EndpointAddr>),
    Failed,
}

/// A planned pass: the change events to send, in order, and the snapshot to
/// commit once every event has been accepted.
#[derive(Clone, Debug)]
pub struct PassPlan {
    pub changes: Vec<ChangeEvent>,
    pub fresh: Vec<EndpointAddr>,
}

/// Configuration of a [`GrpcServiceProbe`]. Durations are in milliseconds.
#[derive(Clone, Debug)]
pub struct GrpcServiceProbeConfig {
    /// The host name to resolve and the service port.
    pub service_definition: ServiceDefinition,
    /// How often the probe refreshes the endpoint set.
    pub probe_interval_ms: u64,
    /// A request timeout applied to every endpoint.
    pub endpoint_timeout_ms: Option<u64>,
    /// A connection timeout applied to every endpoint.
    pub endpoint_connect_timeout_ms: Option<u64>,
}

/// The probe's state: immutable policy plus the endpoints the transport has
/// been told about and not told to remove.
#[derive(Clone, Debug)]
pub struct GrpcServiceProbe {
    /// The host name to resolve and the service port.
    pub service_definition: ServiceDefinition,
    /// The scheme of every endpoint URI; `Https` exactly when TLS is set.
    pub scheme: Scheme,
    /// How often the probe refreshes the endpoint set, in milliseconds.
    pub probe_interval_ms: u64,
    /// A request timeout applied to every endpoint, in milliseconds.
    pub endpoint_timeout_ms: Option<u64>,
    /// A connection timeout applied to every endpoint, in milliseconds.
    pub endpoint_connect_timeout_ms: Option<u64>,
    /// The known set: endpoints reported to the transport, without duplicates.
    pub endpoints: Vec<EndpointAddr>,
    /// TLS policy for every endpoint, carrying the peer name to verify.
    pub tls_config: Option<TlsPolicy>,
}

/// The elements of `xs` that do not occur in `ys`, in the order of `xs`.
pub open spec fn spec_diff(xs: Seq<EndpointAddr>, ys: Seq<EndpointAddr>) -> Seq<EndpointAddr>
    decreases xs.len(),
{
    if xs.len() == 0 {
        Seq::empty()
    } else {
        let rest = spec_diff(xs.drop_last(), ys);
        if ys.contains(xs.last()) {
            rest
        } else {
            rest.push(xs.last())
        }
    }
}

/// An element is in the difference exactly when it is in `xs` but not `ys`.
pub proof fn lemma_diff_membership(xs: Seq<EndpointAddr>, ys: Seq<EndpointAddr>)
    ensures
        forall|a: EndpointAddr|
            #[trigger] spec_diff(xs, ys).contains(a) <==> (xs.contains(a) && !ys.contains(a)),
    decreases xs.len(),
{
    broadcast use group_seq_properties;

    if xs.len() == 0 {
        assert(spec_diff(xs, ys) =~= Seq::<EndpointAddr>::empty());
    } else {
        lemma_diff_membership(xs.drop_last(), ys);
        let rest = spec_diff(xs.drop_last(), ys);
        assert(xs =~= xs.drop_last().push(xs.last()));
        assert forall|a: EndpointAddr|
            #[trigger] spec_diff(xs, ys).contains(a) <==> (xs.contains(a) && !ys.contains(
                a,
            )) by {
            assert(xs.drop_last().push(xs.last()).contains(a) <==> (xs.last() == a
                || xs.drop_last().contains(a)));
            assert(xs.contains(a) <==> (xs.last() == a || xs.drop_last().contains(a)));
            assert(rest.contains(a) <==> (xs.drop_last().contains(a) && !ys.contains(a)));
            if !ys.contains(xs.last()) {
                assert(spec_diff(xs, ys) == rest.push(xs.last()));
                assert(rest.push(xs.last()).contains(a) <==> (xs.last() == a || rest.contains(a)));
            }
        }
    }
}

/// The difference of a duplicate-free sequence is duplicate-free.
pub proof fn lemma_diff_no_duplicates(xs: Seq<EndpointAddr>, ys: Seq<EndpointAddr>)
    requires
        xs.no_duplicates(),
    ensures
        spec_diff(xs, ys).no_duplicates(),
    decreases xs.len(),
{
    broadcast use group_seq_properties;

    if xs.len() > 0 {
        lemma_diff_no_duplicates(xs.drop_last(), ys);
        lemma_diff_membership(xs.drop_last(), ys);
        assert(xs =~= xs.drop_last().push(xs.last()));
        let rest = spec_diff(xs.drop_last(), ys);
        if !ys.contains(xs.last()) {
            assert(!xs.drop_last().contains(xs.last()));
            assert(!rest.contains(xs.last()));
            assert forall|i: int, j: int|
                0 <= i < j < rest.push(xs.last()).len() implies rest.push(xs.last())[i] != rest.push(
                xs.last(),
            )[j] by {
                if j < rest.len() {
                } else {
                    assert(rest.contains(rest[i]));
                }
            }
        }
    }
}

/// Diff minimality, as sets: the planned inserts are exactly the fresh addresses that were
/// not known, the planned removes exactly the known addresses that are no
/// longer fresh — no spurious events in either direction.
pub proof fn lemma_diff_minimality(known: Seq<EndpointAddr>, fresh: Seq<EndpointAddr>)
    requires
        known.no_duplicates(),
        fresh.no_duplicates(),
    ensures
        spec_diff(fresh, known).to_set() =~= fresh.to_set().difference(known.to_set()),
        spec_diff(known, fresh).to_set() =~= known.to_set().difference(fresh.to_set()),
        spec_diff(fresh, known).no_duplicates(),
        spec_diff(known, fresh).no_duplicates(),
{
    lemma_diff_membership(fresh, known);
    lemma_diff_membership(known, fresh);
    lemma_diff_no_duplicates(fresh, known);
    lemma_diff_no_duplicates(known, fresh);
}

/// Idempotence: a snapshot equal (as a set) to the known set plans no
/// inserts and no removes at all.
pub proof fn lemma_idempotence(known: Seq<EndpointAddr>, fresh: Seq<EndpointAddr>)
    requires
        fresh.to_set() == known.to_set(),
    ensures
        spec_diff(fresh, known).len() == 0,
        spec_diff(known, fresh).len() == 0,
{
    broadcast use group_seq_properties;

    lemma_diff_membership(fresh, known);
    lemma_diff_membership(known, fresh);
    let d = spec_diff(fresh, known);
    if d.len() > 0 {
        let x = d.last();
        assert(d[d.len() - 1] == x);
        assert(spec_diff(fresh, known).contains(x));
        assert(fresh.contains(x) && !known.contains(x));
        assert(fresh.to_set().contains(x));
        assert(known.to_set().contains(x));
    }
    let e = spec_diff(known, fresh);
    if e.len() > 0 {
        let x = e.last();
        assert(e[e.len() - 1] == x);
        assert(spec_diff(known, fresh).contains(x));
        assert(known.contains(x) && !fresh.contains(x));
        assert(known.to_set().contains(x));
        assert(fresh.to_set().contains(x));
    }
}

/// The boundary case of an empty snapshot: nothing is inserted and every
/// known endpoint is removed, in order.
pub proof fn lemma_empty_resolution(known: Seq<EndpointAddr>)
    ensures
        spec_diff(Seq::<EndpointAddr>::empty(), known).len() == 0,
        spec_diff(known, Seq::<EndpointAddr>::empty()) =~= known,
    decreases known.len(),
{
    if known.len() > 0 {
        lemma_empty_resolution(known.drop_last());
        assert(spec_diff(known.drop_last(), Seq::<EndpointAddr>::empty()).push(known.last())
            =~= known);
    }
}

/// The changeset planned for one pass from `known` to `fresh`: first one
/// insert for each fresh address that was not known, carrying the descriptor
/// the policy of `p` builds, then one remove for each known address that is
/// no longer fresh.
pub open spec fn changeset_ok(
    known: Seq<EndpointAddr>,
    fresh: Seq<EndpointAddr>,
    p: GrpcServiceProbe,
    r: Seq<ChangeEvent>,
) -> bool {
    &&& r.len() == spec_diff(fresh, known).len() + spec_diff(known, fresh).len()
    &&& forall|i: int|
        0 <= i < r.len() ==> ((#[trigger] r[i]) is Insert <==> i < spec_diff(fresh, known).len())
    &&& forall|i: int|
        0 <= i < r.len() ==> event_addr(#[trigger] r[i]) == (spec_diff(fresh, known) + spec_diff(
            known,
            fresh,
        ))[i]
    &&& forall|i: int|
        0 <= i < r.len() ==> ((#[trigger] r[i]) matches ChangeEvent::Insert(a, d)
            ==> p.descriptor_ok(a, d))
}

/// Insert before remove: in a planned changeset no remove precedes an
/// insert, so the transport is never left without the replacement endpoints
/// while the old ones are withdrawn.
pub proof fn lemma_insert_before_remove(
    known: Seq<EndpointAddr>,
    fresh: Seq<EndpointAddr>,
    p: GrpcServiceProbe,
    r: Seq<ChangeEvent>,
)
    requires
        changeset_ok(known, fresh, p, r),
    ensures
        forall|i: int, j: int|
            0 <= i < j < r.len() && (#[trigger] r[j]) is Insert ==> (#[trigger] r[i]) is Insert,
{
}

/// IPv6 formatting: the descriptor built for an IPv6 address renders the
/// URI with the address bracketed between the scheme and the port.
pub proof fn lemma_ipv6_insert_bracketed(
    p: GrpcServiceProbe,
    a: EndpointAddr,
    d: EndpointDescriptor,
)
    requires
        a.ip is V6,
        p.descriptor_ok(a, d),
    ensures
        spec_host(a.ip).len() >= 2,
        spec_host(a.ip).first() == '[',
        spec_host(a.ip).last() == ']',
        d.uri@ == p.scheme.spec_text() + "://"@ + spec_host(a.ip) + seq![':'] + spec_dec(
            a.port as int,
        ),
{
    lemma_ipv6_uri_bracketed(p.scheme, a);
}

/// Set correctness: after a delivered pass — planning turned the
/// resolver's snapshot `v` into the duplicate-free `fresh`, and the commit
/// installed `fresh` — the known set equals the set the resolver returned.
pub proof fn lemma_set_correctness(
    before: GrpcServiceProbe,
    after: GrpcServiceProbe,
    v: Seq<EndpointAddr>,
    fresh: Vec<EndpointAddr>,
)
    requires
        fresh@.to_set() == v.to_set(),
        after == (GrpcServiceProbe { endpoints: fresh, ..before }),
    ensures
        after.known_set() == v.to_set(),
{
}

/// Membership test against a vector of endpoint addresses.
fn contains_addr(v: &Vec<EndpointAddr>, a: &EndpointAddr) -> (r: bool)
    ensures
        r == v@.contains(*a),
{
    let mut i: usize = 0;
    while i < v.len()
        invariant
            0 <= i <= v@.len(),
            forall|j: int| 0 <= j < i ==> v@[j] != *a,
        decreases v@.len() - i,
    {
        if v[i] == *a {
            return true;
        }
        i += 1;
    }
    false
}

/// Copy of `v` with duplicates dropped, keeping first occurrences.
fn dedup_addrs(v: &Vec<EndpointAddr>) -> (r: Vec<EndpointAddr>)
    ensures
        r@.no_duplicates(),
        r@.to_set() == v@.to_set(),
{
    broadcast use group_seq_properties;

    let mut r: Vec<EndpointAddr> = Vec::new();
    let mut i: usize = 0;
    while i < v.len()
        invariant
            0 <= i <= v@.len(),
            r@.no_duplicates(),
            forall|a: EndpointAddr| #[trigger] r@.contains(a) <==> v@.take(i as int).contains(a),
        decreases v@.len() - i,
    {
        let a = v[i];
        proof {
            assert(v@.take(i as int + 1) =~= v@.take(i as int).push(v@[i as int]));
        }
        if !contains_addr(&r, &a) {
            let ghost prev = r@;
            r.push(a);
            proof {
                assert(prev.push(a).no_duplicates()) by {
                    assert forall|p: int, q: int|
                        0 <= p < q < prev.push(a).len() implies prev.push(a)[p] != prev.push(
                        a,
                    )[q] by {
                        if q < prev.len() {
                        } else {
                            assert(prev.contains(prev[p]));
                        }
                    }
                }
                assert forall|b: EndpointAddr|
                    #[trigger] r@.contains(b) <==> v@.take(i as int + 1).contains(b) by {
                    assert(r@ == prev.push(a));
                    vstd::seq_lib::lemma_seq_contains_after_push(prev, a, b);
                    vstd::seq_lib::lemma_seq_contains_after_push(v@.take(i as int), a, b);
                }
            }
        } else {
            proof {
                assert forall|b: EndpointAddr|
                    #[trigger] r@.contains(b) <==> v@.take(i as int + 1).contains(b) by {
                    vstd::seq_lib::lemma_seq_contains_after_push(v@.take(i as int), a, b);
                }
            }
        }
        i += 1;
    }
    proof {
        assert(v@.take(v@.len() as int) =~= v@);
        assert(r@.to_set() =~= v@.to_set());
    }
    r
}

/// The snapshot without the addresses the transport rejected when their
/// change events were built: exactly the elements of `fresh` that are not in
/// `skipped`, in order. A rejected address stays outside the known set, so a
/// later pass retries it.
pub fn remove_skipped(fresh: &Vec<EndpointAddr>, skipped: &Vec<EndpointAddr>) -> (r: Vec<
    EndpointAddr,
>)
    ensures
        r@ == spec_diff(fresh@, skipped@),
{
    let mut r: Vec<EndpointAddr> = Vec::new();
    let mut i: usize = 0;
    proof {
        assert(fresh@.take(0) =~= Seq::<EndpointAddr>::empty());
    }
    while i < fresh.len()
        invariant
            0 <= i <= fresh@.len(),
            r@ == spec_diff(fresh@.take(i as int), skipped@),
        decreases fresh@.len() - i,
    {
        let a = fresh[i];
        proof {
            assert(fresh@.take(i as int + 1).drop_last() =~= fresh@.take(i as int));
            assert(fresh@.take(i as int + 1).last() == fresh@[i as int]);
        }
        if !contains_addr(skipped, &a) {
            r.push(a);
        }
        i += 1;
    }
    proof {
        assert(fresh@.take(fresh@.len() as int) =~= fresh@);
    }
    r
}

impl GrpcServiceProbe {
    /// The known set, as a set.
    pub open spec fn known_set(&self) -> Set<EndpointAddr> {
        self.endpoints@.to_set()
    }

    /// The known set carries no duplicates.
    pub open spec fn wf(&self) -> bool {
        self.endpoints@.no_duplicates()
    }

    /// The TLS peer name every descriptor must carry, when TLS is set.
    pub open spec fn spec_tls_domain(&self) -> Option<Seq<char>> {
        match self.tls_config {
            Some(t) => Some(t.domain@),
            None => None,
        }
    }

    /// `d` is the descriptor this probe's policy builds for `a`.
    pub open spec fn descriptor_ok(&self, a: EndpointAddr, d: EndpointDescriptor) -> bool {
        descriptor_matches(
            d,
            self.scheme,
            self.spec_tls_domain(),
            self.endpoint_timeout_ms,
            self.endpoint_connect_timeout_ms,
            a,
        )
    }

    /// Construct a probe from its configuration. The caller keeps the sending
    /// half of the change stream and reports each pass's delivery through
    /// [`GrpcServiceProbe::report_and_commit`]. The probe starts with an empty
    /// known set, plain HTTP and no TLS.
    pub fn new_with_reporter(config: GrpcServiceProbeConfig) -> (r: GrpcServiceProbe)
        ensures
            r.service_definition == config.service_definition,
            r.scheme is Http,
            r.tls_config is None,
            r.probe_interval_ms == config.probe_interval_ms,
            r.endpoint_timeout_ms == config.endpoint_timeout_ms,
            r.endpoint_connect_timeout_ms == config.endpoint_connect_timeout_ms,
            r.endpoints@ =~= Seq::<EndpointAddr>::empty(),
            r.wf(),
    {
        GrpcServiceProbe {
            service_definition: config.service_definition,
            scheme: Scheme::Http,
            probe_interval_ms: config.probe_interval_ms,
            endpoint_timeout_ms: config.endpoint_timeout_ms,
            endpoint_connect_timeout_ms: config.endpoint_connect_timeout_ms,
            endpoints: Vec::new(),
            tls_config: None,
        }
    }

    /// Enable TLS for all endpoints: every descriptor will carry the policy's
    /// peer name, and the scheme switches to `https`.
    pub fn with_tls(self, tls_config: TlsPolicy) -> (r: GrpcServiceProbe)
        ensures
            r.scheme is Https,
            r.tls_config matches Some(t) && t == tls_config,
            r.service_definition == self.service_definition,
            r.probe_interval_ms == self.probe_interval_ms,
            r.endpoint_timeout_ms == self.endpoint_timeout_ms,
            r.endpoint_connect_timeout_ms == self.endpoint_connect_timeout_ms,
            r.endpoints == self.endpoints,
    {
        GrpcServiceProbe { tls_config: Some(tls_config), scheme: Scheme::Https, ..self }
    }

    /// Build the descriptor for one address under this probe's policy: the
    /// URI rendered from the scheme and the address, the TLS peer name when
    /// TLS is set, and the configured timeouts. Descriptor construction is
    /// total: every address renders to a well-formed URI.
    pub fn build_endpoint(&self, ip_address: &EndpointAddr) -> (r: EndpointDescriptor)
        ensures
            self.descriptor_ok(*ip_address, r),
    {
        let uri = format_endpoint_uri(self.scheme, ip_address);
        let tls_peer_name = match &self.tls_config {
            Some(t) => Some(t.domain.clone()),
            None => None,
        };
        EndpointDescriptor {
            uri,
            scheme: self.scheme,
            tls_peer_name,
            request_timeout_ms: self.endpoint_timeout_ms,
            connect_timeout_ms: self.endpoint_connect_timeout_ms,
        }
    }

    /// Plan the change events from the known set to the snapshot `fresh`:
    /// inserts for the new addresses in the order of `fresh`, then removes
    /// for the vanished ones in the order they were known.
    pub fn create_changeset(&self, fresh: &Vec<EndpointAddr>) -> (r: Vec<ChangeEvent>)
        ensures
            changeset_ok(self.endpoints@, fresh@, *self, r@),
    {
        let mut changes: Vec<ChangeEvent> = Vec::new();
        let mut j: usize = 0;
        proof {
            assert(fresh@.take(0) =~= Seq::<EndpointAddr>::empty());
        }
        while j < fresh.len()
            invariant
                0 <= j <= fresh@.len(),
                changes@.len() == spec_diff(fresh@.take(j as int), self.endpoints@).len(),
                forall|i: int| 0 <= i < changes@.len() ==> (#[trigger] changes@[i]) is Insert,
                forall|i: int|
                    0 <= i < changes@.len() ==> event_addr(#[trigger] changes@[i]) == spec_diff(
                        fresh@.take(j as int),
                        self.endpoints@,
                    )[i],
                forall|i: int|
                    0 <= i < changes@.len() ==> ((#[trigger] changes@[i]) matches ChangeEvent::Insert(
                        a,
                        d,
                    ) ==> self.descriptor_ok(a, d)),
            decreases fresh@.len() - j,
        {
            let addr = fresh[j];
            proof {
                assert(fresh@.take(j as int + 1).drop_last() =~= fresh@.take(j as int));
                assert(fresh@.take(j as int + 1).last() == fresh@[j as int]);
            }
            if !contains_addr(&self.endpoints, &addr) {
                let desc = self.build_endpoint(&addr);
                changes.push(ChangeEvent::Insert(addr, desc));
            }
            j += 1;
        }
        proof {
            assert(fresh@.take(fresh@.len() as int) =~= fresh@);
        }
        let ghost inserts = spec_diff(fresh@, self.endpoints@);
        let mut j2: usize = 0;
        proof {
            assert(self.endpoints@.take(0) =~= Seq::<EndpointAddr>::empty());
            assert(inserts + spec_diff(self.endpoints@.take(0), fresh@) =~= inserts);
        }
        while j2 < self.endpoints.len()
            invariant
                0 <= j2 <= self.endpoints@.len(),
                changes@.len() == inserts.len() + spec_diff(
                    self.endpoints@.take(j2 as int),
                    fresh@,
                ).len(),
                inserts == spec_diff(fresh@, self.endpoints@),
                forall|i: int|
                    0 <= i < changes@.len() ==> ((#[trigger] changes@[i]) is Insert <==> i
                        < inserts.len()),
                forall|i: int|
                    0 <= i < changes@.len() ==> event_addr(#[trigger] changes@[i]) == (inserts
                        + spec_diff(self.endpoints@.take(j2 as int), fresh@))[i],
                forall|i: int|
                    0 <= i < changes@.len() ==> ((#[trigger] changes@[i]) matches ChangeEvent::Insert(
                        a,
                        d,
                    ) ==> self.descriptor_ok(a, d)),
            decreases self.endpoints@.len() - j2,
        {
            let addr = self.endpoints[j2];
            proof {
                assert(self.endpoints@.take(j2 as int + 1).drop_last() =~= self.endpoints@.take(
                    j2 as int,
                ));
                assert(self.endpoints@.take(j2 as int + 1).last() == self.endpoints@[j2 as int]);
            }
            if !contains_addr(fresh, &addr) {
                changes.push(ChangeEvent::Remove(addr));
                proof {
                    assert(inserts + spec_diff(self.endpoints@.take(j2 as int + 1), fresh@)
                        =~= (inserts + spec_diff(self.endpoints@.take(j2 as int), fresh@)).push(
                        addr,
                    ));
                }
            }
            j2 += 1;
        }
        proof {
            assert(self.endpoints@.take(self.endpoints@.len() as int) =~= self.endpoints@);
        }
        changes
    }

    /// The planning half of one probe pass, fed with the resolver's outcome.
    ///
    /// Planning never changes the probe's state; in particular a failed
    /// resolution leaves the known set exactly as it was, so the
    /// transport keeps the previous endpoints through resolver outages.
    /// On success the plan carries the snapshot, deduplicated, and the
    /// changeset from the known set to it.
    pub fn begin_probe_pass(&mut self, outcome: &ResolutionOutcome) -> (r: Result<
        PassPlan,
        ProbeError,
    >)
        ensures
            *final(self) == *old(self),
            r is Ok <==> *outcome is Resolved,
            r matches Err(e) ==> e is ResolveServiceDefinition,
            r matches Ok(plan) ==> {
                &&& *outcome matches ResolutionOutcome::Resolved(v) && plan.fresh@.to_set()
                    == v@.to_set()
                &&& plan.fresh@.no_duplicates()
                &&& changeset_ok(old(self).endpoints@, plan.fresh@, *old(self), plan.changes@)
            },
    {
        match outcome {
            ResolutionOutcome::Resolved(v) => {
                let fresh = dedup_addrs(v);
                let changes = self.create_changeset(&fresh);
                Ok(PassPlan { changes, fresh })
            },
            ResolutionOutcome::Failed => Err(ProbeError::ResolveServiceDefinition),
        }
    }

    /// The commit half of one probe pass. `delivered` says whether every
    /// change event of the plan was accepted by the change stream.
    ///
    /// Commit is atomic: exactly when everything was delivered, the
    /// known set becomes the pass's snapshot; on a partial delivery the state
    /// is untouched, so the next pass retries the same diff, and the error
    /// says the consumer is gone.
    pub fn report_and_commit(&mut self, fresh: Vec<EndpointAddr>, delivered: bool) -> (r: Result<
        (),
        ProbeError,
    >)
        ensures
            r is Ok <==> delivered,
            delivered ==> *final(self) == (GrpcServiceProbe { endpoints: fresh, ..*old(self) }),
            !delivered ==> *final(self) == *old(self),
            r matches Err(e) ==> e is ChangesetSenderClosed,
    {
        if delivered {
            self.overwrite_endpoints(fresh);
            Ok(())
        } else {
            Err(ProbeError::ChangesetSenderClosed)
        }
    }

    /// Replace the known set with the snapshot of the pass that was just
    /// delivered in full.
    fn overwrite_endpoints(&mut self, current_ips: Vec<EndpointAddr>)
        ensures
            *final(self) == (GrpcServiceProbe { endpoints: current_ips, ..*old(self) }),
    {
        self.endpoints = current_ips;
    }
}

} // verus!
