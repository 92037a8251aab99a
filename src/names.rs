//! Cluster DNS names of Services and of the Pods behind headless Services.

use vstd::prelude::*;
use vstd::string::StringExecFns;

verus! {

/// The cluster's DNS suffix, following the namespace.
pub open spec fn dns_suffix() -> Seq<char> {
    ".svc.cluster.local"@
}

/// `{service}.{namespace}.svc.cluster.local`
pub open spec fn service_dns_spec(service: Seq<char>, namespace: Seq<char>) -> Seq<char> {
    service + "."@ + namespace + dns_suffix()
}

/// `{pod}.{service}.{namespace}.svc.cluster.local`
pub open spec fn pod_dns_spec(pod: Seq<char>, service: Seq<char>, namespace: Seq<char>) -> Seq<char> {
    pod + "."@ + service + "."@ + namespace + dns_suffix()
}

/// The DNS name under which the cluster publishes a Service.
pub fn get_service_dns(service_name: &str, namespace: &str) -> (r: String)
    ensures
        r@ == service_dns_spec(service_name@, namespace@),
{
    let mut r = String::from_str(service_name);
    r.append(".");
    r.append(namespace);
    r.append(".svc.cluster.local");
    r
}

/// The DNS name of one Pod behind a headless Service. The name is only
/// published by the cluster when the Service is headless; that check is the
/// caller's.
pub fn get_pod_dns(pod_name: &str, service_name: &str, namespace: &str) -> (r: String)
    ensures
        r@ == pod_dns_spec(pod_name@, service_name@, namespace@),
{
    let mut r = String::from_str(pod_name);
    r.append(".");
    r.append(service_name);
    r.append(".");
    r.append(namespace);
    r.append(".svc.cluster.local");
    r
}

/// A Pod's DNS name is the Pod's name in front of its Service's DNS name.
pub proof fn lemma_pod_dns_extends_service_dns(pod: Seq<char>, service: Seq<char>, namespace: Seq<char>)
    ensures
        pod_dns_spec(pod, service, namespace) == pod + "."@ + service_dns_spec(service, namespace),
{
    assert(pod_dns_spec(pod, service, namespace) =~= pod + "."@ + service_dns_spec(service, namespace));
}

} // verus!
