//! The URL scheme shown for a transport protocol label.

use vstd::prelude::*;
use vstd::string::StringExecFns;

verus! {

/// What `str::to_lowercase` returns for a string.
pub uninterp spec fn lower_of(s: Seq<char>) -> Seq<char>;

/// The lowercase of an ASCII character.
pub open spec fn ascii_lower(c: char) -> char {
    if 'A' <= c && c <= 'Z' {
        ((c as u32) + 32) as char
    } else {
        c
    }
}

pub open spec fn all_ascii(s: Seq<char>) -> bool {
    forall|i: int| 0 <= i < s.len() ==> (s[i] as u32) < 128
}

/// Relies on `str::to_lowercase`: the result depends on the characters
/// alone, and an ASCII string is lowered character by character.
#[verifier::external_body]
fn lowercase(s: &str) -> (r: String)
    ensures
        r@ == lower_of(s@),
        all_ascii(s@) ==> r@ == s@.map_values(|c: char| ascii_lower(c)),
{
    s.to_lowercase()
}

/// The scheme for a protocol label whose lowercase is `lowered`.
pub open spec fn scheme_of_lowered(lowered: Seq<char>) -> Seq<char> {
    if lowered == "tcp"@ {
        "http"@
    } else if lowered == "udp"@ {
        "udp"@
    } else {
        lowered
    }
}

/// The scheme for a protocol label: `tcp` gives `http`, `udp` gives `udp`,
/// any other label itself, all compared and returned in lowercase.
pub open spec fn scheme_spec(protocol: Seq<char>) -> Seq<char> {
    scheme_of_lowered(lower_of(protocol))
}

/// The scheme for a protocol label that is already in lowercase.
pub fn scheme_for_lowered(lowered: String) -> (r: String)
    ensures
        r@ == scheme_of_lowered(lowered@),
{
    if lowered == String::from_str("tcp") {
        String::from_str("http")
    } else if lowered == String::from_str("udp") {
        String::from_str("udp")
    } else {
        lowered
    }
}

/// The URL scheme for a transport protocol label, compared without regard to case.
pub fn get_protocol_scheme(protocol: &str) -> (r: String)
    ensures
        r@ == scheme_spec(protocol@),
{
    scheme_for_lowered(lowercase(protocol))
}

/// Labels that agree up to case give the same scheme.
pub proof fn lemma_scheme_ignores_case(a: Seq<char>, b: Seq<char>)
    requires
        lower_of(a) == lower_of(b),
    ensures
        scheme_spec(a) == scheme_spec(b),
{
}

} // verus!
