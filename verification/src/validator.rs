//! The fail-closed decision core of the chain validator.
//!
//! Validating a TLS certificate chain against a hostname is delegated to the
//! platform's native trust engine: parsing each DER-encoded certificate,
//! building an SSL policy for the hostname, and evaluating the chain against
//! the system trust store. The engine's work is opaque; what this module owns
//! is the decision logic around it, proved here: which chains are admissible
//! at all, and how the engine's rich outcome taxonomy collapses into a single
//! accept/reject boolean. Every failure mode, from malformed bytes to an
//! engine-internal error, collapses to `false`; only an explicit positive
//! verdict yields `true`.

use vstd::prelude::*;

verus! {

/// A verdict category reported by the platform trust engine when an
/// evaluation runs to completion. The variants mirror the engine's own
/// result taxonomy.
#[derive(Clone, Copy, Debug, PartialEq, Eq, Structural)]
pub enum TrustVerdict {
    /// The user or policy explicitly allows proceeding.
    Proceed,
    /// The chain is implicitly trusted; no explicit user decision applies.
    Unspecified,
    /// An explicit denial: do not proceed.
    Deny,
    /// A trust policy failure that a user could override; this component
    /// never overrides it.
    RecoverableTrustFailure,
    /// A trust policy failure that cannot be overridden.
    FatalTrustFailure,
    /// An invalid setting or result.
    Invalid,
    /// An error not related to trust validation itself.
    OtherError,
}

/// Everything the platform engine can report for one validation attempt,
/// including the ways it can fail before a verdict exists at all.
#[derive(Clone, Copy, Debug, PartialEq, Eq, Structural)]
pub enum EngineOutcome {
    /// The engine was never invoked, e.g. because the chain was inadmissible.
    NotEvaluated,
    /// Constructing the hostname policy object failed.
    PolicyFailure,
    /// Constructing the trust object over the chain failed.
    TrustFailure,
    /// The evaluation itself returned an error instead of a verdict.
    EvaluationError,
    /// The evaluation ran to completion and reported a verdict.
    Evaluated(TrustVerdict),
}

/// A completed verdict is a success exactly when the engine said to proceed
/// or reported the chain implicitly trusted.
pub open spec fn verdict_accepts(v: TrustVerdict) -> bool {
    v is Proceed || v is Unspecified
}

/// An outcome is a success only when an evaluation ran to completion and its
/// verdict is a success; every failure to get that far is a rejection.
pub open spec fn outcome_accepts(o: EngineOutcome) -> bool {
    match o {
        EngineOutcome::Evaluated(v) => verdict_accepts(v),
        _ => false,
    }
}

/// A chain is admissible when it is non-empty and every certificate in it
/// parsed; `parsed` holds one flag per chain element, in chain order.
pub open spec fn admissible(parsed: Seq<bool>) -> bool {
    parsed.len() > 0 && (forall|i: int| 0 <= i < parsed.len() ==> parsed[i])
}

/// The trust decision for a whole validation attempt: the chain must be
/// admissible and the engine must have reported a positive verdict.
pub open spec fn decision(parsed: Seq<bool>, o: EngineOutcome) -> bool {
    admissible(parsed) && outcome_accepts(o)
}

/// Interprets a completed engine verdict.
pub fn verdict_success(v: &TrustVerdict) -> (r: bool)
    ensures
        r == verdict_accepts(*v),
{
    match v {
        TrustVerdict::Proceed | TrustVerdict::Unspecified => true,
        _ => false,
    }
}

/// Interprets a whole engine outcome, failing closed on everything that is
/// not a completed, positive verdict.
pub fn outcome_success(o: &EngineOutcome) -> (r: bool)
    ensures
        r == outcome_accepts(*o),
{
    match o {
        EngineOutcome::Evaluated(v) => verdict_success(v),
        _ => false,
    }
}

/// Decides whether a chain may be handed to the engine at all: it must be
/// non-empty, and every certificate in it must have parsed. A single parse
/// failure anywhere rejects the whole chain.
pub fn chain_admissible(parsed: &Vec<bool>) -> (r: bool)
    ensures
        r == admissible(parsed@),
{
    if parsed.len() == 0 {
        return false;
    }
    let n: usize = parsed.len();
    for i in 0..n
        invariant
            n == parsed@.len(),
            forall|j: int| 0 <= j < i ==> parsed@[j],
    {
        if !parsed[i] {
            return false;
        }
    }
    true
}

/// The complete trust decision from what the platform reported: per-element
/// parse outcomes and the engine outcome. Collapses every failure mode to
/// `false`; returns `true` only for an admissible chain with a positive
/// verdict.
pub fn validation_decision(parsed: &Vec<bool>, outcome: &EngineOutcome) -> (r: bool)
    ensures
        r == decision(parsed@, *outcome),
{
    if !chain_admissible(parsed) {
        return false;
    }
    outcome_success(outcome)
}

/// An empty chain is rejected whatever the engine would have said.
pub proof fn lemma_empty_chain_rejected(parsed: Seq<bool>, o: EngineOutcome)
    requires
        parsed.len() == 0,
    ensures
        !decision(parsed, o),
{
}

/// A chain in which any certificate failed to parse is rejected, whatever
/// the engine outcome; in particular a truncated or corrupted element
/// rejects the chain regardless of hostname.
pub proof fn lemma_parse_failure_rejects(parsed: Seq<bool>, o: EngineOutcome, i: int)
    requires
        0 <= i < parsed.len(),
        !parsed[i],
    ensures
        !decision(parsed, o),
{
}

/// Any outcome other than a completed positive verdict is rejected, whatever
/// the chain looked like: policy or trust construction failures, engine
/// errors, and every negative verdict, among them the ones the engine reports
/// for an expired certificate, a hostname mismatch, or a chain with no path
/// to a trusted root.
pub proof fn lemma_engine_failure_rejects(parsed: Seq<bool>, o: EngineOutcome)
    requires
        !outcome_accepts(o),
    ensures
        !decision(parsed, o),
{
}

/// The only way to acceptance: a non-empty, fully parsed chain together with
/// a completed verdict of `Proceed` or `Unspecified` is accepted, and nothing
/// else is.
pub proof fn lemma_acceptance_exact(parsed: Seq<bool>, o: EngineOutcome)
    ensures
        decision(parsed, o) <==> {
            &&& parsed.len() > 0
            &&& forall|i: int| 0 <= i < parsed.len() ==> parsed[i]
            &&& o matches EngineOutcome::Evaluated(v) && (v is Proceed || v is Unspecified)
        },
{
}

} // verus!
