//! DID syntax acceptance, delegated to the DID parser of `ssi_dids_core`.

use vstd::prelude::*;

verus! {

/// Which strings the outside DID parser accepts as a syntactically valid
/// DID (`did:method:method-specific-id`). The acceptance depends on the
/// characters alone.
pub uninterp spec fn is_did(s: Seq<char>) -> bool;

/// Relies on `ssi_dids_core::DID::new`, which validates the DID syntax and
/// accepts or rejects a string by its characters alone.
#[verifier::external_body]
pub fn check_did(s: &str) -> (r: bool)
    ensures
        r == is_did(s@),
{
    ssi_dids_core::DID::new(s).is_ok()
}

} // verus!
