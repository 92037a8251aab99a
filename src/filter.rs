//! Choosing, by a regular expression over their names, which Services to resolve.

use vstd::prelude::*;
use regex::Regex;
use crate::model::{models, EndpointsRecord, ResolvedAddress, ServiceRecord};
use crate::resolve::{resolve_service, resolve_spec};

verus! {

#[verifier::external_type_specification]
#[verifier::external_body]
pub struct ExRegex(regex::Regex);

#[verifier::external_type_specification]
#[verifier::external_body]
pub struct ExRegexError(regex::Error);

/// Whether `regex::Regex::new` accepts a pattern.
pub uninterp spec fn pattern_compiles(pattern: Seq<char>) -> bool;

/// Whether the regex compiled from a pattern matches somewhere in a haystack.
pub uninterp spec fn pattern_matches(pattern: Seq<char>, haystack: Seq<char>) -> bool;

/// Relies on `regex::Regex::new`: it compiles a pattern, and whether it
/// succeeds depends on the pattern alone.
#[verifier::external_body]
fn compile_regex(pattern: &str) -> (r: Result<Regex, regex::Error>)
    ensures
        r is Ok == pattern_compiles(pattern@),
{
    Regex::new(pattern)
}

/// Relies on `regex::Error`'s `Display`: a text that describes the error.
#[verifier::external_body]
fn regex_error_text(e: &regex::Error) -> String {
    e.to_string()
}

/// Why a name filter could not be built.
#[derive(Debug)]
pub enum FilterError {
    /// The pattern is not a valid regular expression.
    InvalidPattern { pattern: String, reason: String },
}

/// A regular expression that selects Services by name.
pub struct NameFilter {
    pattern: String,
    regex: Regex,
}

impl NameFilter {
    /// The pattern the filter was compiled from.
    pub closed spec fn pattern_spec(&self) -> Seq<char> {
        self.pattern@
    }

    /// Compiles a pattern; fails exactly when the pattern is not a valid regex.
    pub fn new(pattern: &str) -> (r: Result<NameFilter, FilterError>)
        ensures
            r is Ok <==> pattern_compiles(pattern@),
            r matches Ok(f) ==> f.pattern_spec() == pattern@,
            r matches Err(FilterError::InvalidPattern { pattern: p, .. }) ==> p@ == pattern@,
    {
        match compile_regex(pattern) {
            Ok(regex) => Ok(NameFilter { pattern: pattern.to_owned(), regex }),
            Err(e) => Err(FilterError::InvalidPattern { pattern: pattern.to_owned(), reason: regex_error_text(&e) }),
        }
    }

    pub fn pattern(&self) -> (r: &str)
        ensures
            r@ == self.pattern_spec(),
    {
        self.pattern.as_str()
    }

    /// Whether the pattern matches somewhere in `name`.
    pub fn is_match(&self, name: &str) -> (r: bool)
        ensures
            r == pattern_matches(self.pattern_spec(), name@),
    {
        regex_is_match(self, name)
    }
}

/// Relies on `regex::Regex::is_match`: whether the filter's regex, which
/// `NameFilter::new` compiled from its pattern, matches somewhere in `name`.
#[verifier::external_body]
fn regex_is_match(f: &NameFilter, name: &str) -> (r: bool)
    ensures
        r == pattern_matches(f.pattern_spec(), name@),
{
    f.regex.is_match(name)
}

/// The positions, in order, at which `keep` holds.
pub open spec fn kept_indices(keep: Seq<bool>) -> Seq<int>
    decreases keep.len(),
{
    if keep.len() == 0 {
        Seq::empty()
    } else if keep.last() {
        kept_indices(keep.drop_last()).push(keep.len() - 1)
    } else {
        kept_indices(keep.drop_last())
    }
}

pub open spec fn as_ints(s: Seq<usize>) -> Seq<int> {
    s.map_values(|i: usize| i as int)
}

/// The pattern of an optional filter.
pub open spec fn filter_pattern(filter: Option<&NameFilter>) -> Option<Seq<char>> {
    match filter {
        Some(f) => Some(f.pattern_spec()),
        None => None,
    }
}

/// Whether each Service passes the filter: all do where there is none.
pub open spec fn passes(filter: Option<Seq<char>>, services: Seq<ServiceRecord>) -> Seq<bool> {
    Seq::new(
        services.len(),
        |i: int|
            match filter {
                Some(p) => pattern_matches(p, services[i].name@),
                None => true,
            },
    )
}

/// The positions at which `keep` holds, in order.
pub fn keep_indices(keep: &Vec<bool>) -> (r: Vec<usize>)
    ensures
        as_ints(r@) == kept_indices(keep@),
{
    let mut r: Vec<usize> = Vec::new();
    let mut i: usize = 0;
    while i < keep.len()
        invariant
            i <= keep.len(),
            as_ints(r@) == kept_indices(keep@.subrange(0, i as int)),
        decreases keep.len() - i,
    {
        proof {
            assert(keep@.subrange(0, i + 1).drop_last() =~= keep@.subrange(0, i as int));
        }
        if keep[i] {
            proof {
                assert(as_ints(r@.push(i)) =~= as_ints(r@).push(i as int));
            }
            r.push(i);
        }
        i += 1;
    }
    proof {
        assert(keep@.subrange(0, keep.len() as int) =~= keep@);
    }
    r
}

/// The positions, in order, of the Services whose names the filter matches;
/// of all Services where there is no filter.
pub fn select_services(services: &Vec<ServiceRecord>, filter: Option<&NameFilter>) -> (r: Vec<usize>)
    ensures
        as_ints(r@) == kept_indices(passes(filter_pattern(filter), services@)),
{
    let mut keep: Vec<bool> = Vec::new();
    let mut i: usize = 0;
    while i < services.len()
        invariant
            i <= services.len(),
            keep@ =~= passes(filter_pattern(filter), services@).subrange(0, i as int),
        decreases services.len() - i,
    {
        let pass = match filter {
            Some(f) => f.is_match(services[i].name.as_str()),
            None => true,
        };
        keep.push(pass);
        i += 1;
    }
    proof {
        assert(keep@ =~= passes(filter_pattern(filter), services@));
    }
    keep_indices(&keep)
}

/// The addresses of one selected Service.
pub open spec fn selected_spec(
    services: Seq<ServiceRecord>,
    index: int,
    endpoints: Option<EndpointsRecord>,
    namespace: Seq<char>,
) -> Seq<crate::model::AddressModel> {
    match endpoints {
        Some(e) => resolve_spec(services[index], Some(&e), namespace),
        None => resolve_spec(services[index], None, namespace),
    }
}

/// Resolves the selected Services, each with the Endpoints fetched for it:
/// one list of addresses per selected Service, in the order of selection.
pub fn resolve_selected(
    services: &Vec<ServiceRecord>,
    selected: &Vec<usize>,
    endpoints: &Vec<Option<EndpointsRecord>>,
    namespace: &str,
) -> (r: Vec<Vec<ResolvedAddress>>)
    requires
        selected.len() == endpoints.len(),
        forall|k: int| 0 <= k < selected.len() ==> selected[k] < services.len(),
    ensures
        r.len() == selected.len(),
        forall|k: int|
            0 <= k < r.len() ==> models(#[trigger] r[k]@) == selected_spec(
                services@,
                selected[k] as int,
                endpoints[k],
                namespace@,
            ),
{
    let mut r: Vec<Vec<ResolvedAddress>> = Vec::new();
    let mut k: usize = 0;
    while k < selected.len()
        invariant
            k <= selected.len(),
            selected.len() == endpoints.len(),
            forall|j: int| 0 <= j < selected.len() ==> selected[j] < services.len(),
            r.len() == k,
            forall|j: int|
                0 <= j < k ==> models(#[trigger] r[j]@) == selected_spec(
                    services@,
                    selected[j] as int,
                    endpoints[j],
                    namespace@,
                ),
        decreases selected.len() - k,
    {
        let svc = &services[selected[k]];
        let addrs = match &endpoints[k] {
            Some(e) => resolve_service(svc, Some(e), namespace),
            None => resolve_service(svc, None, namespace),
        };
        r.push(addrs);
        k += 1;
    }
    r
}

/// A filter that matches no Service name selects nothing, so a run resolves
/// no address at all.
pub proof fn lemma_no_match_resolves_nothing(
    pattern: Seq<char>,
    services: Seq<ServiceRecord>,
    groups: Seq<Vec<ResolvedAddress>>,
    selected: Seq<usize>,
)
    requires
        forall|i: int| 0 <= i < services.len() ==> !pattern_matches(pattern, #[trigger] services[i].name@),
        as_ints(selected) == kept_indices(passes(Some(pattern), services)),
        groups.len() == selected.len(),
    ensures
        selected.len() == 0,
        groups.map_values(|g: Vec<ResolvedAddress>| models(g@)).flatten() == Seq::<crate::model::AddressModel>::empty(),
{
    lemma_none_kept(passes(Some(pattern), services));
    assert(as_ints(selected).len() == selected.len());
    assert(groups.map_values(|g: Vec<ResolvedAddress>| models(g@)) =~= Seq::<Seq<crate::model::AddressModel>>::empty());
}

proof fn lemma_none_kept(keep: Seq<bool>)
    requires
        forall|i: int| 0 <= i < keep.len() ==> !keep[i],
    ensures
        kept_indices(keep) == Seq::<int>::empty(),
    decreases keep.len(),
{
    if keep.len() > 0 {
        lemma_none_kept(keep.drop_last());
    }
}

} // verus!
