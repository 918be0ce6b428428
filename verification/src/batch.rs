//! Batch aggregation over many presentations: a presentation-level failure
//! is replicated once per credential the presentation claims to contain,
//! so the caller always receives one result slot per expected credential;
//! the per-presentation result lists are then concatenated.
//!
//! The batches are concatenated in the order given, which for the
//! concurrent batch verifier is task-completion order: cross-presentation
//! ordering is deliberately not restored, while the order inside each
//! presentation is.

use vstd::prelude::*;

use crate::results::VerificationResult;

verus! {

/// What checking one presentation of a batch produced.
pub enum PresentationChecked {
    /// The presentation was checked through to its credentials: one
    /// result per credential, in credential order.
    Results { results: Vec<VerificationResult> },
    /// A presentation-level check failed before the credentials could be
    /// judged; `credential_count` is how many credentials the
    /// presentation claims to contain.
    Failed { error: VerificationResult, credential_count: usize },
}

/// The result slots one checked presentation contributes to the batch.
pub open spec fn item_results(c: PresentationChecked) -> Seq<VerificationResult> {
    match c {
        PresentationChecked::Results { results } => results@,
        PresentationChecked::Failed { error, credential_count } => Seq::new(
            credential_count as nat,
            |i: int| error,
        ),
    }
}

/// Replicates a presentation-level error once per credential the
/// presentation claims to contain.
pub fn expand_vp_error(error: &VerificationResult, credential_count: usize) -> (r: Vec<
    VerificationResult,
>)
    ensures
        r@.len() == credential_count,
        forall|i: int| 0 <= i < credential_count ==> r@[i] == *error,
{
    let mut out: Vec<VerificationResult> = Vec::new();
    for k in 0..credential_count
        invariant
            out@.len() == k,
            forall|i: int| 0 <= i < k ==> out@[i] == *error,
    {
        out.push(error.duplicate());
    }
    out
}

/// Aggregates the outcomes of a batch of presentations into one result
/// list: each checked presentation contributes its per-credential results,
/// and each failed one contributes its error replicated once per declared
/// credential; the contributions are concatenated in the order given.
pub fn verify_presentations(checked: Vec<PresentationChecked>) -> (r: Vec<VerificationResult>)
    ensures
        r@ == checked@.map_values(|c: PresentationChecked| item_results(c)).flatten(),
{
    broadcast use vstd::seq_lib::group_seq_properties;

    let ghost all = checked@;
    let mut out: Vec<VerificationResult> = Vec::new();
    let mut rest = checked;
    let mut taken: usize = 0;
    let n = rest.len();
    proof {
        assert(all.map_values(|c: PresentationChecked| item_results(c)).take(0)
            =~= Seq::<Seq<VerificationResult>>::empty());
        assert(Seq::<Seq<VerificationResult>>::empty().flatten()
            =~= Seq::<VerificationResult>::empty());
    }
    for k in 0..n
        invariant
            n == rest@.len() + taken,
            taken == k,
            all.len() == n,
            rest@ =~= all.skip(k as int),
            out@ =~= all.map_values(|c: PresentationChecked| item_results(c)).take(
                k as int,
            ).flatten(),
    {
        let item = rest.remove(0);
        taken = taken + 1;
        let ghost prefix = all.map_values(|c: PresentationChecked| item_results(c)).take(k as int);
        match item {
            PresentationChecked::Results { mut results } => {
                out.append(&mut results);
            },
            PresentationChecked::Failed { error, credential_count } => {
                let mut expanded = expand_vp_error(&error, credential_count);
                proof {
                    assert(expanded@ =~= item_results(item));
                }
                out.append(&mut expanded);
            },
        }
        proof {
            prefix.lemma_flatten_push(item_results(item));
            assert(all.map_values(|c: PresentationChecked| item_results(c)).take(k + 1 as int)
                =~= prefix.push(item_results(item)));
        }
    }
    proof {
        assert(all.map_values(|c: PresentationChecked| item_results(c)).take(n as int)
            =~= all.map_values(|c: PresentationChecked| item_results(c)));
    }
    out
}

} // verus!
