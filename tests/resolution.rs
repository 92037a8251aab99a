use svc_reach::filter::{keep_indices, resolve_selected, select_services, FilterError, NameFilter};
use svc_reach::model::{
    AddressKind, EndpointAddress, EndpointsRecord, Ingress, PortSpec, ResolvedAddress, ServiceRecord,
    Subset, Topology,
};
use svc_reach::names::{get_pod_dns, get_service_dns};
use svc_reach::resolve::resolve_service;
use svc_reach::scheme::{get_protocol_scheme, scheme_for_lowered};

fn port(n: i32, protocol: &str) -> PortSpec {
    PortSpec::new(n, None, Some(protocol.to_string()))
}

fn service(name: &str, cluster_ip: Option<&str>, ports: Vec<PortSpec>, ingress: Vec<Ingress>) -> ServiceRecord {
    ServiceRecord {
        name: name.to_string(),
        topology: Topology::from_cluster_ip(cluster_ip.map(|s| s.to_string())),
        ports,
        ingress,
    }
}

fn endpoints(name: &str, pods: Vec<(&str, Option<&str>)>, ports: Vec<PortSpec>) -> EndpointsRecord {
    EndpointsRecord {
        name: name.to_string(),
        subsets: vec![Subset {
            addresses: pods
                .into_iter()
                .map(|(ip, pod)| EndpointAddress { ip: ip.to_string(), target_pod: pod.map(|p| p.to_string()) })
                .collect(),
            ports,
        }],
    }
}

fn url(a: &ResolvedAddress) -> String {
    format!("{}://{}:{}", a.scheme, a.host, a.port)
}

fn count(addrs: &[ResolvedAddress], kind: AddressKind) -> usize {
    addrs.iter().filter(|a| a.kind == kind).count()
}

#[test]
fn scheme_ignores_case() {
    assert_eq!(get_protocol_scheme("TCP"), "http");
    assert_eq!(get_protocol_scheme("tcp"), "http");
    assert_eq!(get_protocol_scheme("Tcp"), "http");
    assert_eq!(get_protocol_scheme("UDP"), "udp");
    assert_eq!(get_protocol_scheme("udp"), "udp");
    assert_eq!(get_protocol_scheme("sctp"), "sctp");
    assert_eq!(get_protocol_scheme("SCTP"), "sctp");
    assert_eq!(get_protocol_scheme(""), "");
}

#[test]
fn scheme_of_lowered_labels() {
    assert_eq!(scheme_for_lowered("tcp".to_string()), "http");
    assert_eq!(scheme_for_lowered("udp".to_string()), "udp");
    assert_eq!(scheme_for_lowered("quic".to_string()), "quic");
}

#[test]
fn dns_names() {
    assert_eq!(get_service_dns("web", "prod"), "web.prod.svc.cluster.local");
    assert_eq!(get_pod_dns("p1", "web", "prod"), "p1.web.prod.svc.cluster.local");
    assert_eq!(get_pod_dns("", "", ""), "...svc.cluster.local");
    assert_eq!(get_pod_dns("A.b", "Svc", "NS"), "A.b.Svc.NS.svc.cluster.local");
}

#[test]
fn port_defaults() {
    let p = PortSpec::new(8080, None, None);
    assert_eq!(p.port, 8080);
    assert_eq!(p.name, "default");
    assert_eq!(p.protocol, "TCP");
    let q = PortSpec::new(53, Some("dns".to_string()), Some("UDP".to_string()));
    assert_eq!(q.name, "dns");
    assert_eq!(q.protocol, "UDP");
}

#[test]
fn topology_from_cluster_ip() {
    assert!(matches!(Topology::from_cluster_ip(None), Topology::Unassigned));
    assert!(matches!(Topology::from_cluster_ip(Some("None".to_string())), Topology::Headless));
    assert!(matches!(Topology::from_cluster_ip(Some("none".to_string())), Topology::ClusterIp(ref ip) if ip == "none"));
    assert!(matches!(Topology::from_cluster_ip(Some("10.0.0.5".to_string())), Topology::ClusterIp(ref ip) if ip == "10.0.0.5"));
}

#[test]
fn cluster_ip_service() {
    let svc = service("web", Some("10.0.0.5"), vec![port(80, "TCP")], vec![]);
    let eps = endpoints("web", vec![("10.1.1.1", Some("p1"))], vec![port(8080, "TCP")]);
    let addrs = resolve_service(&svc, Some(&eps), "ns");
    assert_eq!(addrs.len(), 3);
    assert_eq!(addrs[0].kind, AddressKind::ClusterIp);
    assert_eq!(url(&addrs[0]), "http://10.0.0.5:80");
    assert_eq!(addrs[1].kind, AddressKind::ServiceDns);
    assert_eq!(url(&addrs[1]), "http://web.ns.svc.cluster.local:80");
    assert_eq!(addrs[2].kind, AddressKind::PodIp);
    assert_eq!(url(&addrs[2]), "http://10.1.1.1:8080");
    assert_eq!(addrs[2].pod_name.as_deref(), Some("p1"));
    assert_eq!(count(&addrs, AddressKind::PodDns), 0);
}

#[test]
fn headless_service() {
    let svc = service("db", Some("None"), vec![port(9000, "UDP")], vec![]);
    let eps = endpoints("db", vec![("10.1.1.1", Some("p1"))], vec![port(9000, "UDP")]);
    let addrs = resolve_service(&svc, Some(&eps), "ns");
    assert_eq!(count(&addrs, AddressKind::ClusterIp), 0);
    assert_eq!(count(&addrs, AddressKind::ServiceDns), 0);
    assert_eq!(addrs.len(), 2);
    assert_eq!(addrs[0].kind, AddressKind::PodIp);
    assert_eq!(url(&addrs[0]), "udp://10.1.1.1:9000");
    assert_eq!(addrs[1].kind, AddressKind::PodDns);
    assert_eq!(url(&addrs[1]), "udp://p1.db.ns.svc.cluster.local:9000");
    assert_eq!(addrs[0].pod_name.as_deref(), Some("p1"));
    assert_eq!(addrs[1].pod_name.as_deref(), Some("p1"));
}

#[test]
fn unassigned_service_has_no_service_level_addresses() {
    let svc = service("pending", None, vec![port(80, "TCP"), port(443, "TCP")], vec![]);
    let addrs = resolve_service(&svc, None, "ns");
    assert!(addrs.is_empty());
    let eps = endpoints("pending", vec![("10.1.1.2", None)], vec![port(80, "TCP")]);
    let addrs = resolve_service(&svc, Some(&eps), "ns");
    assert_eq!(count(&addrs, AddressKind::ClusterIp), 0);
    assert_eq!(count(&addrs, AddressKind::ServiceDns), 0);
    assert_eq!(count(&addrs, AddressKind::PodDns), 0);
    assert_eq!(addrs.len(), 1);
    assert_eq!(addrs[0].pod_name.as_deref(), Some("unknown"));
}

#[test]
fn load_balancer_with_ip_and_hostname() {
    let ing = Ingress { ip: Some("1.2.3.4".to_string()), hostname: Some("lb.example.com".to_string()) };
    let svc = service("edge", Some("10.0.0.9"), vec![port(80, "TCP"), port(53, "UDP")], vec![ing]);
    let addrs = resolve_service(&svc, None, "ns");
    let external: Vec<String> = addrs
        .iter()
        .filter(|a| a.kind == AddressKind::ExternalIp || a.kind == AddressKind::ExternalHostname)
        .map(url)
        .collect();
    assert_eq!(external.len(), 4);
    assert_eq!(
        external,
        vec!["http://1.2.3.4:80", "http://lb.example.com:80", "udp://1.2.3.4:53", "udp://lb.example.com:53"]
    );
    // Service-level addresses come before the external ones.
    assert_eq!(addrs.len(), 8);
    assert_eq!(addrs[0].kind, AddressKind::ClusterIp);
    assert_eq!(addrs[1].kind, AddressKind::ServiceDns);
    assert_eq!(addrs[2].kind, AddressKind::ClusterIp);
    assert_eq!(url(&addrs[2]), "udp://10.0.0.9:53");
    assert_eq!(addrs[4].kind, AddressKind::ExternalIp);
}

#[test]
fn ingress_entries_in_order() {
    let a = Ingress { ip: Some("1.1.1.1".to_string()), hostname: None };
    let b = Ingress { ip: None, hostname: Some("b.example".to_string()) };
    let svc = service("lb", None, vec![port(443, "TCP")], vec![a, b]);
    let addrs = resolve_service(&svc, None, "ns");
    let urls: Vec<String> = addrs.iter().map(url).collect();
    assert_eq!(urls, vec!["http://1.1.1.1:443", "http://b.example:443"]);
    assert_eq!(addrs[0].kind, AddressKind::ExternalIp);
    assert_eq!(addrs[1].kind, AddressKind::ExternalHostname);
}

#[test]
fn pod_enumeration_order() {
    let svc = service("hs", Some("None"), vec![], vec![]);
    let eps = EndpointsRecord {
        name: "hs".to_string(),
        subsets: vec![
            Subset {
                addresses: vec![
                    EndpointAddress { ip: "10.0.1.1".to_string(), target_pod: Some("a".to_string()) },
                    EndpointAddress { ip: "10.0.1.2".to_string(), target_pod: None },
                ],
                ports: vec![port(1, "TCP"), port(2, "sctp")],
            },
            Subset { addresses: vec![], ports: vec![port(3, "TCP")] },
        ],
    };
    let urls: Vec<String> = resolve_service(&svc, Some(&eps), "x").iter().map(url).collect();
    assert_eq!(
        urls,
        vec![
            "http://10.0.1.1:1",
            "http://a.hs.x.svc.cluster.local:1",
            "sctp://10.0.1.1:2",
            "sctp://a.hs.x.svc.cluster.local:2",
            "http://10.0.1.2:1",
            "http://unknown.hs.x.svc.cluster.local:1",
            "sctp://10.0.1.2:2",
            "sctp://unknown.hs.x.svc.cluster.local:2",
        ]
    );
}

#[test]
fn resolution_is_repeatable() {
    let ing = Ingress { ip: Some("1.2.3.4".to_string()), hostname: None };
    let svc = service("web", Some("10.0.0.5"), vec![port(80, "TCP"), port(81, "udp")], vec![ing]);
    let eps = endpoints("web", vec![("10.1.1.1", Some("p1")), ("10.1.1.2", Some("p2"))], vec![port(80, "TCP")]);
    let first = resolve_service(&svc, Some(&eps), "ns");
    let second = resolve_service(&svc, Some(&eps), "ns");
    assert_eq!(format!("{:?}", first), format!("{:?}", second));
}

#[test]
fn filter_that_matches_nothing() {
    let services = vec![
        service("web", Some("10.0.0.5"), vec![port(80, "TCP")], vec![]),
        service("db", Some("None"), vec![port(5432, "TCP")], vec![]),
    ];
    let filter = NameFilter::new("^cache").unwrap();
    let selected = select_services(&services, Some(&filter));
    assert!(selected.is_empty());
    let groups = resolve_selected(&services, &selected, &vec![], "ns");
    assert!(groups.iter().all(|g| g.is_empty()));
    assert!(groups.is_empty());
}

#[test]
fn filter_selects_matching_names() {
    let services = vec![
        service("web-a", Some("10.0.0.5"), vec![port(80, "TCP")], vec![]),
        service("db", Some("None"), vec![port(5432, "TCP")], vec![]),
        service("web-b", None, vec![], vec![]),
    ];
    let filter = NameFilter::new("^web").unwrap();
    assert_eq!(filter.pattern(), "^web");
    assert!(filter.is_match("web-a"));
    assert!(!filter.is_match("db"));
    assert_eq!(select_services(&services, Some(&filter)), vec![0, 2]);
    assert_eq!(select_services(&services, None), vec![0, 1, 2]);
    let selected = vec![0usize, 2];
    let groups = resolve_selected(&services, &selected, &vec![None, None], "ns");
    assert_eq!(groups.len(), 2);
    assert_eq!(groups[0].len(), 2);
    assert_eq!(url(&groups[0][1]), "http://web-a.ns.svc.cluster.local:80");
    assert!(groups[1].is_empty());
}

#[test]
fn invalid_filter_pattern() {
    match NameFilter::new("web(") {
        Err(FilterError::InvalidPattern { pattern, reason }) => {
            assert_eq!(pattern, "web(");
            assert!(!reason.is_empty());
        }
        Ok(_) => panic!("an unbalanced group must be refused"),
    }
}

#[test]
fn kept_positions() {
    assert_eq!(keep_indices(&vec![]), Vec::<usize>::new());
    assert_eq!(keep_indices(&vec![true, false, true, true]), vec![0, 2, 3]);
    assert_eq!(keep_indices(&vec![false, false]), Vec::<usize>::new());
}
