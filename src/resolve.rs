//! Turns a Service, and the Endpoints behind it, into the ordered list of
//! addresses that reach them.

use vstd::prelude::*;
use vstd::string::StringExecFns;
use crate::model::{
    models, lemma_models_push, AddressKind, AddressModel, EndpointAddress, EndpointsRecord, Ingress,
    PortSpec, ResolvedAddress, ServiceRecord, Subset, Topology, TopologyModel,
};
use crate::names::{get_pod_dns, get_service_dns, pod_dns_spec, service_dns_spec};
use crate::scheme::{get_protocol_scheme, scheme_spec};

verus! {

pub open spec fn address_model(
    kind: AddressKind,
    scheme: Seq<char>,
    host: Seq<char>,
    port: i32,
    pod_name: Option<Seq<char>>,
) -> AddressModel {
    AddressModel { scheme, host, port, kind, pod_name }
}

/// For each port: the cluster IP address, then the Service's DNS address.
pub open spec fn cluster_entries(ip: Seq<char>, dns: Seq<char>, ports: Seq<PortSpec>) -> Seq<AddressModel>
    decreases ports.len(),
{
    if ports.len() == 0 {
        Seq::empty()
    } else {
        let p = ports.last();
        let s = scheme_spec(p.protocol@);
        cluster_entries(ip, dns, ports.drop_last())
            .push(address_model(AddressKind::ClusterIp, s, ip, p.port, None))
            .push(address_model(AddressKind::ServiceDns, s, dns, p.port, None))
    }
}

/// What one ingress entry gives for one port: its IP, then its hostname.
pub open spec fn ingress_port_entries(ing: Ingress, p: PortSpec) -> Seq<AddressModel> {
    let s = scheme_spec(p.protocol@);
    let by_ip = match ing.ip {
        Some(ip) => seq![address_model(AddressKind::ExternalIp, s, ip@, p.port, None)],
        None => Seq::empty(),
    };
    let by_host = match ing.hostname {
        Some(h) => seq![address_model(AddressKind::ExternalHostname, s, h@, p.port, None)],
        None => Seq::empty(),
    };
    by_ip + by_host
}

pub open spec fn ingress_entries(ing: Ingress, ports: Seq<PortSpec>) -> Seq<AddressModel>
    decreases ports.len(),
{
    if ports.len() == 0 {
        Seq::empty()
    } else {
        ingress_entries(ing, ports.drop_last()) + ingress_port_entries(ing, ports.last())
    }
}

/// Every ingress entry, in order, exposes every declared port.
pub open spec fn external_entries(ingress: Seq<Ingress>, ports: Seq<PortSpec>) -> Seq<AddressModel>
    decreases ingress.len(),
{
    if ingress.len() == 0 {
        Seq::empty()
    } else {
        external_entries(ingress.drop_last(), ports) + ingress_entries(ingress.last(), ports)
    }
}

/// The Pod name of an endpoint address; `unknown` where it names none.
pub open spec fn pod_name_spec(a: EndpointAddress) -> Seq<char> {
    match a.target_pod {
        Some(n) => n@,
        None => "unknown"@,
    }
}

/// What one Pod address gives for one port: its IP, then, behind a headless
/// Service, its DNS name.
pub open spec fn pod_port_entries(
    a: EndpointAddress,
    p: PortSpec,
    headless: bool,
    service: Seq<char>,
    namespace: Seq<char>,
) -> Seq<AddressModel> {
    let pod = pod_name_spec(a);
    let s = scheme_spec(p.protocol@);
    let by_ip = seq![address_model(AddressKind::PodIp, s, a.ip@, p.port, Some(pod))];
    if headless {
        by_ip.push(
            address_model(AddressKind::PodDns, s, pod_dns_spec(pod, service, namespace), p.port, Some(pod)),
        )
    } else {
        by_ip
    }
}

pub open spec fn address_entries(
    a: EndpointAddress,
    ports: Seq<PortSpec>,
    headless: bool,
    service: Seq<char>,
    namespace: Seq<char>,
) -> Seq<AddressModel>
    decreases ports.len(),
{
    if ports.len() == 0 {
        Seq::empty()
    } else {
        address_entries(a, ports.drop_last(), headless, service, namespace)
            + pod_port_entries(a, ports.last(), headless, service, namespace)
    }
}

pub open spec fn subset_entries(
    addresses: Seq<EndpointAddress>,
    ports: Seq<PortSpec>,
    headless: bool,
    service: Seq<char>,
    namespace: Seq<char>,
) -> Seq<AddressModel>
    decreases addresses.len(),
{
    if addresses.len() == 0 {
        Seq::empty()
    } else {
        subset_entries(addresses.drop_last(), ports, headless, service, namespace)
            + address_entries(addresses.last(), ports, headless, service, namespace)
    }
}

/// Subsets, then their addresses, then their ports, all in order.
pub open spec fn pod_entries(
    subsets: Seq<Subset>,
    headless: bool,
    service: Seq<char>,
    namespace: Seq<char>,
) -> Seq<AddressModel>
    decreases subsets.len(),
{
    if subsets.len() == 0 {
        Seq::empty()
    } else {
        pod_entries(subsets.drop_last(), headless, service, namespace)
            + subset_entries(subsets.last().addresses@, subsets.last().ports@, headless, service, namespace)
    }
}

/// Cluster IP and Service DNS addresses, given only when the Service has a cluster IP.
pub open spec fn service_entries(service: ServiceRecord, namespace: Seq<char>) -> Seq<AddressModel> {
    match service.topology@ {
        TopologyModel::ClusterIp(ip) => cluster_entries(ip, service_dns_spec(service.name@, namespace), service.ports@),
        _ => Seq::empty(),
    }
}

/// Every address of a Service, in order: cluster-internal, external, then per Pod.
pub open spec fn resolve_spec(
    service: ServiceRecord,
    endpoints: Option<&EndpointsRecord>,
    namespace: Seq<char>,
) -> Seq<AddressModel> {
    service_entries(service, namespace) + external_entries(service.ingress@, service.ports@)
        + match endpoints {
        Some(e) => pod_entries(e.subsets@, service.topology@ == TopologyModel::Headless, service.name@, namespace),
        None => Seq::empty(),
    }
}

fn push_cluster_entries(out: &mut Vec<ResolvedAddress>, ip: &String, dns: &String, ports: &Vec<PortSpec>)
    ensures
        models(final(out)@) == models(old(out)@) + cluster_entries(ip@, dns@, ports@),
{
    let mut i: usize = 0;
    while i < ports.len()
        invariant
            i <= ports.len(),
            models(out@) == models(old(out)@) + cluster_entries(ip@, dns@, ports@.subrange(0, i as int)),
        decreases ports.len() - i,
    {
        let p = &ports[i];
        let scheme = get_protocol_scheme(p.protocol.as_str());
        let a = ResolvedAddress {
            scheme: scheme.clone(),
            host: ip.clone(),
            port: p.port,
            kind: AddressKind::ClusterIp,
            pod_name: None,
        };
        proof {
            lemma_models_push(out@, a);
        }
        out.push(a);
        let b = ResolvedAddress {
            scheme,
            host: dns.clone(),
            port: p.port,
            kind: AddressKind::ServiceDns,
            pod_name: None,
        };
        proof {
            lemma_models_push(out@, b);
            assert(ports@.subrange(0, i + 1).drop_last() =~= ports@.subrange(0, i as int));
        }
        out.push(b);
        i += 1;
    }
    proof {
        assert(ports@.subrange(0, ports.len() as int) =~= ports@);
    }
}

fn push_ingress_entries(out: &mut Vec<ResolvedAddress>, ing: &Ingress, ports: &Vec<PortSpec>)
    ensures
        models(final(out)@) == models(old(out)@) + ingress_entries(*ing, ports@),
{
    let mut i: usize = 0;
    while i < ports.len()
        invariant
            i <= ports.len(),
            models(out@) == models(old(out)@) + ingress_entries(*ing, ports@.subrange(0, i as int)),
        decreases ports.len() - i,
    {
        let p = &ports[i];
        let scheme = get_protocol_scheme(p.protocol.as_str());
        let ghost before = models(out@);
        if let Some(ip) = &ing.ip {
            let a = ResolvedAddress {
                scheme: scheme.clone(),
                host: ip.clone(),
                port: p.port,
                kind: AddressKind::ExternalIp,
                pod_name: None,
            };
            proof {
                lemma_models_push(out@, a);
            }
            out.push(a);
        }
        if let Some(h) = &ing.hostname {
            let a = ResolvedAddress {
                scheme: scheme.clone(),
                host: h.clone(),
                port: p.port,
                kind: AddressKind::ExternalHostname,
                pod_name: None,
            };
            proof {
                lemma_models_push(out@, a);
            }
            out.push(a);
        }
        proof {
            assert(models(out@) =~= before + ingress_port_entries(*ing, *p));
            assert(ports@.subrange(0, i + 1).drop_last() =~= ports@.subrange(0, i as int));
            assert(ports@.subrange(0, i + 1).last() == *p);
        }
        i += 1;
    }
    proof {
        assert(ports@.subrange(0, ports.len() as int) =~= ports@);
    }
}

fn push_external_entries(out: &mut Vec<ResolvedAddress>, ingress: &Vec<Ingress>, ports: &Vec<PortSpec>)
    ensures
        models(final(out)@) == models(old(out)@) + external_entries(ingress@, ports@),
{
    let mut i: usize = 0;
    while i < ingress.len()
        invariant
            i <= ingress.len(),
            models(out@) == models(old(out)@) + external_entries(ingress@.subrange(0, i as int), ports@),
        decreases ingress.len() - i,
    {
        push_ingress_entries(out, &ingress[i], ports);
        proof {
            assert(ingress@.subrange(0, i + 1).drop_last() =~= ingress@.subrange(0, i as int));
            assert(ingress@.subrange(0, i + 1).last() == ingress@[i as int]);
        }
        i += 1;
    }
    proof {
        assert(ingress@.subrange(0, ingress.len() as int) =~= ingress@);
    }
}

fn push_address_entries(
    out: &mut Vec<ResolvedAddress>,
    a: &EndpointAddress,
    ports: &Vec<PortSpec>,
    headless: bool,
    service: &str,
    namespace: &str,
)
    ensures
        models(final(out)@) == models(old(out)@) + address_entries(*a, ports@, headless, service@, namespace@),
{
    let pod = match &a.target_pod {
        Some(n) => n.clone(),
        None => String::from_str("unknown"),
    };
    let pod_dns = if headless {
        Some(get_pod_dns(pod.as_str(), service, namespace))
    } else {
        None
    };
    let mut i: usize = 0;
    while i < ports.len()
        invariant
            i <= ports.len(),
            pod@ == pod_name_spec(*a),
            headless <==> pod_dns is Some,
            pod_dns matches Some(d) ==> d@ == pod_dns_spec(pod@, service@, namespace@),
            models(out@) == models(old(out)@) + address_entries(
                *a,
                ports@.subrange(0, i as int),
                headless,
                service@,
                namespace@,
            ),
        decreases ports.len() - i,
    {
        let p = &ports[i];
        let scheme = get_protocol_scheme(p.protocol.as_str());
        let ghost before = models(out@);
        let by_ip = ResolvedAddress {
            scheme: scheme.clone(),
            host: a.ip.clone(),
            port: p.port,
            kind: AddressKind::PodIp,
            pod_name: Some(pod.clone()),
        };
        proof {
            lemma_models_push(out@, by_ip);
        }
        out.push(by_ip);
        if let Some(d) = &pod_dns {
            let by_dns = ResolvedAddress {
                scheme,
                host: d.clone(),
                port: p.port,
                kind: AddressKind::PodDns,
                pod_name: Some(pod.clone()),
            };
            proof {
                lemma_models_push(out@, by_dns);
            }
            out.push(by_dns);
        }
        proof {
            assert(models(out@) =~= before + pod_port_entries(*a, *p, headless, service@, namespace@));
            assert(ports@.subrange(0, i + 1).drop_last() =~= ports@.subrange(0, i as int));
            assert(ports@.subrange(0, i + 1).last() == *p);
        }
        i += 1;
    }
    proof {
        assert(ports@.subrange(0, ports.len() as int) =~= ports@);
    }
}

fn push_subset_entries(
    out: &mut Vec<ResolvedAddress>,
    subset: &Subset,
    headless: bool,
    service: &str,
    namespace: &str,
)
    ensures
        models(final(out)@) == models(old(out)@) + subset_entries(
            subset.addresses@,
            subset.ports@,
            headless,
            service@,
            namespace@,
        ),
{
    let addresses = &subset.addresses;
    let mut i: usize = 0;
    while i < addresses.len()
        invariant
            i <= addresses.len(),
            models(out@) == models(old(out)@) + subset_entries(
                addresses@.subrange(0, i as int),
                subset.ports@,
                headless,
                service@,
                namespace@,
            ),
        decreases addresses.len() - i,
    {
        push_address_entries(out, &addresses[i], &subset.ports, headless, service, namespace);
        proof {
            assert(addresses@.subrange(0, i + 1).drop_last() =~= addresses@.subrange(0, i as int));
            assert(addresses@.subrange(0, i + 1).last() == addresses@[i as int]);
        }
        i += 1;
    }
    proof {
        assert(addresses@.subrange(0, addresses.len() as int) =~= addresses@);
    }
}

fn push_pod_entries(
    out: &mut Vec<ResolvedAddress>,
    subsets: &Vec<Subset>,
    headless: bool,
    service: &str,
    namespace: &str,
)
    ensures
        models(final(out)@) == models(old(out)@) + pod_entries(subsets@, headless, service@, namespace@),
{
    let mut i: usize = 0;
    while i < subsets.len()
        invariant
            i <= subsets.len(),
            models(out@) == models(old(out)@) + pod_entries(
                subsets@.subrange(0, i as int),
                headless,
                service@,
                namespace@,
            ),
        decreases subsets.len() - i,
    {
        push_subset_entries(out, &subsets[i], headless, service, namespace);
        proof {
            assert(subsets@.subrange(0, i + 1).drop_last() =~= subsets@.subrange(0, i as int));
            assert(subsets@.subrange(0, i + 1).last() == subsets@[i as int]);
        }
        i += 1;
    }
    proof {
        assert(subsets@.subrange(0, subsets.len() as int) =~= subsets@);
    }
}

/// Every address through which a Service and the Pods behind it can be
/// reached, in order: cluster IP and Service DNS per port (only for a Service
/// with a cluster IP), then each ingress entry's IP and hostname per port,
/// then, for each Endpoints address and port, the Pod's IP and, behind a
/// headless Service, the Pod's DNS name.
pub fn resolve_service(
    service: &ServiceRecord,
    endpoints: Option<&EndpointsRecord>,
    namespace: &str,
) -> (r: Vec<ResolvedAddress>)
    ensures
        models(r@) == resolve_spec(*service, endpoints, namespace@),
{
    let mut out: Vec<ResolvedAddress> = Vec::new();
    proof {
        assert(models(out@) =~= Seq::<AddressModel>::empty());
    }
    if let Topology::ClusterIp(ip) = &service.topology {
        let dns = get_service_dns(service.name.as_str(), namespace);
        push_cluster_entries(&mut out, ip, &dns, &service.ports);
    }
    let ghost internal = models(out@);
    push_external_entries(&mut out, &service.ingress, &service.ports);
    let ghost reachable = models(out@);
    if let Some(e) = endpoints {
        push_pod_entries(&mut out, &e.subsets, service.topology.is_headless(), service.name.as_str(), namespace);
    }
    proof {
        assert(internal =~= service_entries(*service, namespace@));
        assert(models(out@) =~= resolve_spec(*service, endpoints, namespace@));
    }
    out
}

} // verus!
