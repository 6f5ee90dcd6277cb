//! Trusted bridge to the OCI reference parser: splitting an image reference
//! into its registry host and repository path.

use vstd::prelude::*;

verus! {

/// Whether `s` parses as an OCI image reference.
pub uninterp spec fn oci_parse_ok(s: Seq<char>) -> bool;

/// The registry host that the image reference `s` names.
pub uninterp spec fn oci_registry_of(s: Seq<char>) -> Seq<char>;

/// The repository path that the image reference `s` names.
pub uninterp spec fn oci_repository_of(s: Seq<char>) -> Seq<char>;

/// Relies on `oci_distribution::Reference::try_from` and the `registry` and
/// `repository` accessors: which registry and repository an image reference
/// names depends on the string alone.
#[verifier::external_body]
pub(crate) fn split_reference(image: &str) -> (r: Option<(String, String)>)
    ensures
        r is Some <==> oci_parse_ok(image@),
        r matches Some(p) ==> p.0@ == oci_registry_of(image@) && p.1@ == oci_repository_of(
            image@,
        ),
{
    match oci_distribution::Reference::try_from(image) {
        Ok(rf) => Some((rf.registry().to_string(), rf.repository().to_string())),
        Err(_) => None,
    }
}

} // verus!
