//! Where the prediction service is reached, and how its status is read.

use crate::text::{ends_with, trim_end, trim_end_matches};
use vstd::prelude::*;
use vstd::string::StringExecFns;

verus! {

/// Path of the prediction endpoint.
pub open spec fn predict_path() -> Seq<char> {
    "/predict"@
}

/// The address that requests are sent to, for a configured base address. A
/// base that already ends in the endpoint's path is taken as it is; any other
/// loses the slashes at its end and gets the path appended.
pub open spec fn resolved_url(base: Seq<char>) -> Seq<char> {
    if predict_path().is_suffix_of(base) {
        base
    } else {
        trim_end(base, '/') + predict_path()
    }
}

/// Whether an HTTP status reports success: the codes from 200 to 299.
pub open spec fn is_success(status: u16) -> bool {
    200 <= status < 300
}

/// Every resolved address ends in the endpoint's path.
pub proof fn lemma_resolved_url_ends_in_path(base: Seq<char>)
    ensures
        predict_path().is_suffix_of(resolved_url(base)),
{
    if !predict_path().is_suffix_of(base) {
        let stem = trim_end(base, '/');
        assert((stem + predict_path()).subrange(
            stem.len() as int,
            (stem + predict_path()).len() as int,
        ) == predict_path());
    }
}

/// An address that ends in the endpoint's path resolves to itself.
pub proof fn lemma_resolve_keeps_endpoint(base: Seq<char>)
    requires
        predict_path().is_suffix_of(base),
    ensures
        resolved_url(base) == base,
{
}

/// Resolving is idempotent: a resolved address resolves to itself.
pub proof fn lemma_resolve_is_idempotent(base: Seq<char>)
    ensures
        resolved_url(resolved_url(base)) == resolved_url(base),
{
    lemma_resolved_url_ends_in_path(base);
}

/// Computes the address that requests are sent to.
pub fn resolve_upstream_url(base: &str) -> (url: String)
    ensures
        url@ == resolved_url(base@),
{
    if ends_with(base, "/predict") {
        base.to_owned()
    } else {
        trim_end_matches(base, '/').to_owned().concat("/predict")
    }
}

/// Tells whether an HTTP status reports success.
pub fn is_success_status(status: u16) -> (ok: bool)
    ensures
        ok == is_success(status),
{
    200 <= status && status < 300
}

} // verus!
