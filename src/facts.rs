//! What holds of every resolution, whatever the records hold.

use vstd::prelude::*;
use crate::model::{
    models, AddressKind, AddressModel, EndpointAddress, EndpointsRecord, Ingress, PortSpec, ResolvedAddress,
    ServiceRecord, Subset, TopologyModel,
};
use crate::resolve::{
    address_entries, cluster_entries, external_entries, ingress_entries, pod_entries, resolve_spec,
    service_entries, subset_entries,
};

verus! {

/// Every address in `s` is of kind `k1` or `k2`.
pub open spec fn only_kinds(s: Seq<AddressModel>, k1: AddressKind, k2: AddressKind) -> bool {
    forall|i: int| 0 <= i < s.len() ==> (#[trigger] s[i]).kind == k1 || s[i].kind == k2
}

/// Some address in `s` is of kind `k`.
pub open spec fn has_kind(s: Seq<AddressModel>, k: AddressKind) -> bool {
    exists|i: int| 0 <= i < s.len() && (#[trigger] s[i]).kind == k
}

proof fn lemma_only_kinds_concat(a: Seq<AddressModel>, b: Seq<AddressModel>, k1: AddressKind, k2: AddressKind)
    requires
        only_kinds(a, k1, k2),
        only_kinds(b, k1, k2),
    ensures
        only_kinds(a + b, k1, k2),
{
    assert forall|i: int| 0 <= i < (a + b).len() implies (#[trigger] (a + b)[i]).kind == k1 || (a + b)[i].kind == k2 by {
        if i >= a.len() {
            assert((a + b)[i] == b[i - a.len()]);
        }
    }
}

proof fn lemma_cluster_kinds(ip: Seq<char>, dns: Seq<char>, ports: Seq<PortSpec>)
    ensures
        only_kinds(cluster_entries(ip, dns, ports), AddressKind::ClusterIp, AddressKind::ServiceDns),
    decreases ports.len(),
{
    if ports.len() > 0 {
        lemma_cluster_kinds(ip, dns, ports.drop_last());
    }
}

proof fn lemma_ingress_kinds(ing: Ingress, ports: Seq<PortSpec>)
    ensures
        only_kinds(ingress_entries(ing, ports), AddressKind::ExternalIp, AddressKind::ExternalHostname),
    decreases ports.len(),
{
    if ports.len() > 0 {
        lemma_ingress_kinds(ing, ports.drop_last());
        lemma_only_kinds_concat(
            ingress_entries(ing, ports.drop_last()),
            crate::resolve::ingress_port_entries(ing, ports.last()),
            AddressKind::ExternalIp,
            AddressKind::ExternalHostname,
        );
    }
}

proof fn lemma_external_kinds(ingress: Seq<Ingress>, ports: Seq<PortSpec>)
    ensures
        only_kinds(external_entries(ingress, ports), AddressKind::ExternalIp, AddressKind::ExternalHostname),
    decreases ingress.len(),
{
    if ingress.len() > 0 {
        lemma_external_kinds(ingress.drop_last(), ports);
        lemma_ingress_kinds(ingress.last(), ports);
        lemma_only_kinds_concat(
            external_entries(ingress.drop_last(), ports),
            ingress_entries(ingress.last(), ports),
            AddressKind::ExternalIp,
            AddressKind::ExternalHostname,
        );
    }
}

/// The kinds a Pod address can have: its IP, and its DNS name behind a headless Service.
pub open spec fn second_pod_kind(headless: bool) -> AddressKind {
    if headless {
        AddressKind::PodDns
    } else {
        AddressKind::PodIp
    }
}

proof fn lemma_address_kinds(a: EndpointAddress, ports: Seq<PortSpec>, headless: bool, service: Seq<char>, namespace: Seq<char>)
    ensures
        only_kinds(address_entries(a, ports, headless, service, namespace), AddressKind::PodIp, second_pod_kind(headless)),
    decreases ports.len(),
{
    if ports.len() > 0 {
        lemma_address_kinds(a, ports.drop_last(), headless, service, namespace);
        lemma_only_kinds_concat(
            address_entries(a, ports.drop_last(), headless, service, namespace),
            crate::resolve::pod_port_entries(a, ports.last(), headless, service, namespace),
            AddressKind::PodIp,
            second_pod_kind(headless),
        );
    }
}

proof fn lemma_subset_kinds(
    addresses: Seq<EndpointAddress>,
    ports: Seq<PortSpec>,
    headless: bool,
    service: Seq<char>,
    namespace: Seq<char>,
)
    ensures
        only_kinds(subset_entries(addresses, ports, headless, service, namespace), AddressKind::PodIp, second_pod_kind(headless)),
    decreases addresses.len(),
{
    if addresses.len() > 0 {
        lemma_subset_kinds(addresses.drop_last(), ports, headless, service, namespace);
        lemma_address_kinds(addresses.last(), ports, headless, service, namespace);
        lemma_only_kinds_concat(
            subset_entries(addresses.drop_last(), ports, headless, service, namespace),
            address_entries(addresses.last(), ports, headless, service, namespace),
            AddressKind::PodIp,
            second_pod_kind(headless),
        );
    }
}

proof fn lemma_pod_kinds(subsets: Seq<Subset>, headless: bool, service: Seq<char>, namespace: Seq<char>)
    ensures
        only_kinds(pod_entries(subsets, headless, service, namespace), AddressKind::PodIp, second_pod_kind(headless)),
    decreases subsets.len(),
{
    if subsets.len() > 0 {
        let last = subsets.last();
        lemma_pod_kinds(subsets.drop_last(), headless, service, namespace);
        lemma_subset_kinds(last.addresses@, last.ports@, headless, service, namespace);
        lemma_only_kinds_concat(
            pod_entries(subsets.drop_last(), headless, service, namespace),
            subset_entries(last.addresses@, last.ports@, headless, service, namespace),
            AddressKind::PodIp,
            second_pod_kind(headless),
        );
    }
}

/// Only a Service with a cluster IP has cluster IP or Service DNS addresses:
/// an unassigned or headless Service has none, whatever its ports.
pub proof fn lemma_service_level_needs_cluster_ip(
    service: ServiceRecord,
    endpoints: Option<&EndpointsRecord>,
    namespace: Seq<char>,
)
    requires
        !(service.topology@ is ClusterIp),
    ensures
        !has_kind(resolve_spec(service, endpoints, namespace), AddressKind::ClusterIp),
        !has_kind(resolve_spec(service, endpoints, namespace), AddressKind::ServiceDns),
{
    let ext = external_entries(service.ingress@, service.ports@);
    let pods = match endpoints {
        Some(e) => pod_entries(e.subsets@, service.topology@ == TopologyModel::Headless, service.name@, namespace),
        None => Seq::empty(),
    };
    let r = resolve_spec(service, endpoints, namespace);
    assert(service_entries(service, namespace) =~= Seq::<AddressModel>::empty());
    assert(r =~= ext + pods);
    lemma_external_kinds(service.ingress@, service.ports@);
    assert forall|i: int| 0 <= i < r.len() implies (#[trigger] r[i]).kind != AddressKind::ClusterIp
        && r[i].kind != AddressKind::ServiceDns by {
        if i >= ext.len() {
            assert(r[i] == pods[i - ext.len()]);
            if let Some(e) = endpoints {
                lemma_pod_kinds(e.subsets@, service.topology@ == TopologyModel::Headless, service.name@, namespace);
            }
        }
    }
}

/// Pod DNS addresses come only from a headless Service.
pub proof fn lemma_pod_dns_needs_headless(
    service: ServiceRecord,
    endpoints: Option<&EndpointsRecord>,
    namespace: Seq<char>,
)
    requires
        service.topology@ != TopologyModel::Headless,
    ensures
        !has_kind(resolve_spec(service, endpoints, namespace), AddressKind::PodDns),
{
    let svc = service_entries(service, namespace);
    let ext = external_entries(service.ingress@, service.ports@);
    let pods = match endpoints {
        Some(e) => pod_entries(e.subsets@, false, service.name@, namespace),
        None => Seq::empty(),
    };
    let r = resolve_spec(service, endpoints, namespace);
    assert(r =~= svc + ext + pods);
    lemma_external_kinds(service.ingress@, service.ports@);
    if let TopologyModel::ClusterIp(ip) = service.topology@ {
        lemma_cluster_kinds(ip, crate::names::service_dns_spec(service.name@, namespace), service.ports@);
    }
    if let Some(e) = endpoints {
        lemma_pod_kinds(e.subsets@, false, service.name@, namespace);
    }
    assert forall|i: int| 0 <= i < r.len() implies (#[trigger] r[i]).kind != AddressKind::PodDns by {
        if i < svc.len() {
            assert(r[i] == svc[i]);
        } else if i < svc.len() + ext.len() {
            assert(r[i] == ext[i - svc.len()]);
        } else {
            assert(r[i] == pods[i - svc.len() - ext.len()]);
        }
    }
}

/// How many of an ingress entry's two fields, IP and hostname, are set.
pub open spec fn ingress_fields(ing: Ingress) -> nat {
    (if ing.ip is Some { 1nat } else { 0nat }) + (if ing.hostname is Some { 1nat } else { 0nat })
}

pub open spec fn total_ingress_fields(ingress: Seq<Ingress>) -> nat
    decreases ingress.len(),
{
    if ingress.len() == 0 {
        0
    } else {
        total_ingress_fields(ingress.drop_last()) + ingress_fields(ingress.last())
    }
}

proof fn lemma_ingress_count(ing: Ingress, ports: Seq<PortSpec>)
    ensures
        ingress_entries(ing, ports).len() == ingress_fields(ing) * ports.len(),
    decreases ports.len(),
{
    if ports.len() > 0 {
        lemma_ingress_count(ing, ports.drop_last());
        let f = ingress_fields(ing);
        let n = ports.drop_last().len();
        assert(f * n + f == f * (n + 1)) by (nonlinear_arith);
    }
}

/// Each ingress entry exposes every declared port once through each field it
/// sets: the external addresses number the set fields times the ports.
pub proof fn lemma_external_count(ingress: Seq<Ingress>, ports: Seq<PortSpec>)
    ensures
        external_entries(ingress, ports).len() == total_ingress_fields(ingress) * ports.len(),
    decreases ingress.len(),
{
    if ingress.len() > 0 {
        lemma_external_count(ingress.drop_last(), ports);
        lemma_ingress_count(ingress.last(), ports);
        let t = total_ingress_fields(ingress.drop_last());
        let f = ingress_fields(ingress.last());
        let n = ports.len();
        assert(t * n + f * n == (t + f) * n) by (nonlinear_arith);
        assert(external_entries(ingress, ports).len() == external_entries(ingress.drop_last(), ports).len()
            + ingress_entries(ingress.last(), ports).len());
        assert(total_ingress_fields(ingress) == t + f);
        assert(external_entries(ingress, ports).len() == t * n + f * n);
    } else {
        assert(total_ingress_fields(ingress) * ports.len() == 0) by (nonlinear_arith)
            requires total_ingress_fields(ingress) == 0;
    }
}

/// Resolution keeps no state: two resolutions of the same Service, Endpoints
/// and namespace give the same addresses in the same order.
pub proof fn lemma_resolution_repeatable(
    service: ServiceRecord,
    endpoints: Option<&EndpointsRecord>,
    namespace: Seq<char>,
    first: Seq<ResolvedAddress>,
    second: Seq<ResolvedAddress>,
)
    requires
        models(first) == resolve_spec(service, endpoints, namespace),
        models(second) == resolve_spec(service, endpoints, namespace),
    ensures
        models(first) == models(second),
{
}

} // verus!
