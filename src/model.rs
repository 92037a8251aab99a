//! The records the resolver reads, and the addresses it produces.

use vstd::prelude::*;
use vstd::string::StringExecFns;

verus! {

/// One declared port, with its defaults already applied.
pub struct PortSpec {
    pub port: i32,
    /// Display label; `default` where none was declared.
    pub name: String,
    /// Transport label; `TCP` where none was declared.
    pub protocol: String,
}

/// The name a port takes when it declares none.
pub open spec fn port_name_spec(name: Option<Seq<char>>) -> Seq<char> {
    match name {
        Some(n) => n,
        None => "default"@,
    }
}

/// The protocol a port takes when it declares none.
pub open spec fn protocol_spec(protocol: Option<Seq<char>>) -> Seq<char> {
    match protocol {
        Some(p) => p,
        None => "TCP"@,
    }
}

pub open spec fn opt_view(s: Option<String>) -> Option<Seq<char>> {
    match s {
        Some(v) => Some(v@),
        None => None,
    }
}

impl PortSpec {
    /// A port as declared, with the missing name and protocol filled in.
    pub fn new(port: i32, name: Option<String>, protocol: Option<String>) -> (r: PortSpec)
        ensures
            r.port == port,
            r.name@ == port_name_spec(opt_view(name)),
            r.protocol@ == protocol_spec(opt_view(protocol)),
    {
        let name = match name {
            Some(n) => n,
            None => String::from_str("default"),
        };
        let protocol = match protocol {
            Some(p) => p,
            None => String::from_str("TCP"),
        };
        PortSpec { port, name, protocol }
    }
}

/// How a Service is reached inside the cluster, as its cluster IP field says.
pub enum Topology {
    /// No cluster IP has been assigned.
    Unassigned,
    /// The cluster IP is the `None` sentinel: Pods are addressed one by one.
    Headless,
    /// The Service has this virtual IP.
    ClusterIp(String),
}

/// The topology that a cluster IP field gives.
pub open spec fn topology_spec(cluster_ip: Option<Seq<char>>) -> TopologyModel {
    match cluster_ip {
        None => TopologyModel::Unassigned,
        Some(ip) => if ip == "None"@ {
            TopologyModel::Headless
        } else {
            TopologyModel::ClusterIp(ip)
        },
    }
}

pub ghost enum TopologyModel {
    Unassigned,
    Headless,
    ClusterIp(Seq<char>),
}

impl View for Topology {
    type V = TopologyModel;

    open spec fn view(&self) -> TopologyModel {
        match self {
            Topology::Unassigned => TopologyModel::Unassigned,
            Topology::Headless => TopologyModel::Headless,
            Topology::ClusterIp(ip) => TopologyModel::ClusterIp(ip@),
        }
    }
}

impl Topology {
    /// Classifies a Service by its cluster IP field: absent, `None`, or an IP.
    pub fn from_cluster_ip(cluster_ip: Option<String>) -> (r: Topology)
        ensures
            r@ == topology_spec(opt_view(cluster_ip)),
    {
        match cluster_ip {
            None => Topology::Unassigned,
            Some(ip) => if ip == String::from_str("None") {
                Topology::Headless
            } else {
                Topology::ClusterIp(ip)
            },
        }
    }

    pub fn is_headless(&self) -> (r: bool)
        ensures
            r == (self@ == TopologyModel::Headless),
    {
        match self {
            Topology::Headless => true,
            _ => false,
        }
    }
}

/// One entry of a load balancer's ingress list.
pub struct Ingress {
    pub ip: Option<String>,
    pub hostname: Option<String>,
}

/// A Service as the resolver reads it.
pub struct ServiceRecord {
    pub name: String,
    pub topology: Topology,
    pub ports: Vec<PortSpec>,
    /// The load balancer's ingress entries; empty where there is none.
    pub ingress: Vec<Ingress>,
}

/// One ready address of an Endpoints subset.
pub struct EndpointAddress {
    pub ip: String,
    /// The name of the Pod the address belongs to, where known.
    pub target_pod: Option<String>,
}

/// A group of addresses that share a list of ports.
pub struct Subset {
    pub addresses: Vec<EndpointAddress>,
    pub ports: Vec<PortSpec>,
}

/// The Endpoints object of a Service.
pub struct EndpointsRecord {
    pub name: String,
    pub subsets: Vec<Subset>,
}

/// Through what an address reaches its Service.
#[derive(PartialEq, Eq, Structural, Clone, Copy, Debug)]
pub enum AddressKind {
    ClusterIp,
    ServiceDns,
    ExternalIp,
    ExternalHostname,
    PodIp,
    PodDns,
}

/// One way to reach a Service or one of its Pods: `scheme://host:port`.
#[derive(Debug)]
pub struct ResolvedAddress {
    pub scheme: String,
    pub host: String,
    pub port: i32,
    pub kind: AddressKind,
    /// The Pod's name, for Pod-level addresses.
    pub pod_name: Option<String>,
}

pub ghost struct AddressModel {
    pub scheme: Seq<char>,
    pub host: Seq<char>,
    pub port: i32,
    pub kind: AddressKind,
    pub pod_name: Option<Seq<char>>,
}

impl View for ResolvedAddress {
    type V = AddressModel;

    open spec fn view(&self) -> AddressModel {
        AddressModel {
            scheme: self.scheme@,
            host: self.host@,
            port: self.port,
            kind: self.kind,
            pod_name: opt_view(self.pod_name),
        }
    }
}

/// The models of a sequence of addresses.
pub open spec fn models(s: Seq<ResolvedAddress>) -> Seq<AddressModel> {
    s.map_values(|a: ResolvedAddress| a@)
}

pub proof fn lemma_models_push(s: Seq<ResolvedAddress>, a: ResolvedAddress)
    ensures
        models(s.push(a)) == models(s).push(a@),
{
    assert(models(s.push(a)) =~= models(s).push(a@));
}

} // verus!
