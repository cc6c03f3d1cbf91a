//! Authentication verdicts: how DKIM, ARC and DMARC results turn into a
//! reply under the configured verification strategy.
use crate::reply::Reply;
use crate::text::copy_bytes;
use vstd::prelude::*;

verus! {

/// The result of one authentication method (a DKIM signature, the ARC
/// chain, a DMARC component).
#[derive(Clone, Copy, Debug, PartialEq, Eq, Structural)]
pub enum AuthResult {
    Pass,
    Fail,
    Neutral,
    /// The method found nothing to evaluate.
    NoResult,
    PermError,
    TempError,
    Policy,
}

/// How strictly a method is applied.
#[derive(Clone, Copy, Debug, PartialEq, Eq, Structural)]
pub enum VerifyStrategy {
    /// Results are recorded, never acted upon.
    Relaxed,
    /// A failing result rejects the message.
    Strict,
    /// The method is not run.
    Disable,
}

/// A domain's published DMARC policy.
#[derive(Clone, Copy, Debug, PartialEq, Eq, Structural)]
pub enum DmarcPolicy {
    /// `p=none`: monitor only.
    NoAction,
    Quarantine,
    Reject,
    Unspecified,
}

/// One verified DKIM signature.
#[derive(Clone, Debug)]
pub struct DkimOutcome {
    pub result: AuthResult,
    /// The signing domain, lower case, when the signature could be read.
    pub domain: Option<Vec<u8>>,
    /// Where the signer asked for failure reports, if anywhere.
    pub report_addr: Option<Vec<u8>>,
}

/// What DMARC verification produced.
#[derive(Clone, Copy, Debug, PartialEq, Eq, Structural)]
pub struct DmarcOutcome {
    pub spf_result: AuthResult,
    pub dkim_result: AuthResult,
    pub policy: DmarcPolicy,
}

/// The verdict of the DMARC stage.
#[derive(Clone, Copy, Debug, PartialEq, Eq, Structural)]
pub struct DmarcVerdict {
    /// The effective DMARC result.
    pub result: AuthResult,
    /// Whether the message is rejected by policy.
    pub rejected: bool,
    /// Whether a rejection is transient.
    pub temporary: bool,
}

impl VerifyStrategy {
    pub open spec fn spec_verify(&self) -> bool {
        !(self is Disable)
    }

    /// Whether the method runs at all.
    #[verifier::when_used_as_spec(spec_verify)]
    pub fn verify(&self) -> (r: bool)
        ensures
            r == self.spec_verify(),
    {
        !matches!(self, VerifyStrategy::Disable)
    }

    pub open spec fn spec_is_strict(&self) -> bool {
        self is Strict
    }

    /// Whether a failure rejects the message.
    #[verifier::when_used_as_spec(spec_is_strict)]
    pub fn is_strict(&self) -> (r: bool)
        ensures
            r == self.spec_is_strict(),
    {
        matches!(self, VerifyStrategy::Strict)
    }
}

/// Some signature passed.
pub open spec fn any_pass(s: Seq<DkimOutcome>) -> bool {
    exists|i: int| 0 <= i < s.len() && (#[trigger] s[i]).result == AuthResult::Pass
}

/// Some signature met a transient error.
pub open spec fn any_temp_error(s: Seq<DkimOutcome>) -> bool {
    exists|i: int| 0 <= i < s.len() && (#[trigger] s[i]).result == AuthResult::TempError
}

/// Whether DKIM must run: for its own sake or for DMARC's.
pub open spec fn spec_dkim_needed(dkim: VerifyStrategy, dmarc: VerifyStrategy) -> bool {
    dkim.spec_verify() || dmarc.spec_verify()
}

/// The reply that strict DKIM gives, if any.
pub open spec fn spec_dkim_verdict(strategy: VerifyStrategy, s: Seq<DkimOutcome>) -> Option<Reply> {
    if strategy is Strict && !any_pass(s) {
        if any_temp_error(s) {
            Some(Reply::DkimTempFail)
        } else {
            Some(Reply::DkimPermFail)
        }
    } else {
        None
    }
}

/// Whether ARC must run: for its own sake or because a sealer is set.
pub open spec fn spec_arc_needed(arc: VerifyStrategy, has_sealer: bool) -> bool {
    arc.spec_verify() || has_sealer
}

/// The reply that strict ARC gives, if any.
pub open spec fn spec_arc_verdict(strategy: VerifyStrategy, result: AuthResult) -> Option<Reply> {
    if strategy is Strict && result != AuthResult::Pass && result != AuthResult::NoResult {
        if result == AuthResult::TempError {
            Some(Reply::ArcTempFail)
        } else {
            Some(Reply::ArcPermFail)
        }
    } else {
        None
    }
}

/// The effective DMARC result: a pass of either component; else the first
/// component result that is not `None`; else `None`.
pub open spec fn spec_dmarc_result(o: DmarcOutcome) -> AuthResult {
    if o.spf_result == AuthResult::Pass || o.dkim_result == AuthResult::Pass {
        AuthResult::Pass
    } else if o.spf_result != AuthResult::NoResult {
        o.spf_result
    } else if o.dkim_result != AuthResult::NoResult {
        o.dkim_result
    } else {
        AuthResult::NoResult
    }
}

pub open spec fn spec_dmarc_verdict(strategy: VerifyStrategy, o: DmarcOutcome) -> DmarcVerdict {
    let pass = o.spf_result == AuthResult::Pass || o.dkim_result == AuthResult::Pass;
    let rejected = strategy is Strict && o.policy == DmarcPolicy::Reject && !pass;
    DmarcVerdict {
        result: spec_dmarc_result(o),
        rejected,
        temporary: rejected && (o.spf_result == AuthResult::TempError || o.dkim_result
            == AuthResult::TempError),
    }
}

/// The reply of a DMARC verdict, if it rejects.
pub open spec fn spec_dmarc_reply(v: DmarcVerdict) -> Option<Reply> {
    if v.rejected {
        if v.temporary {
            Some(Reply::DmarcTempFail)
        } else {
            Some(Reply::DmarcPermFail)
        }
    } else {
        None
    }
}

/// Whether DKIM verification must run.
pub fn dkim_needed(dkim: VerifyStrategy, dmarc: VerifyStrategy) -> (r: bool)
    ensures
        r == spec_dkim_needed(dkim, dmarc),
{
    dkim.verify() || dmarc.verify()
}

/// Whether ARC verification must run.
pub fn arc_needed(arc: VerifyStrategy, has_sealer: bool) -> (r: bool)
    ensures
        r == spec_arc_needed(arc, has_sealer),
{
    arc.verify() || has_sealer
}

/// Whether any DKIM signature passed.
pub fn dkim_any_pass(outcomes: &Vec<DkimOutcome>) -> (r: bool)
    ensures
        r == any_pass(outcomes@),
{
    let mut i: usize = 0;
    while i < outcomes.len()
        invariant
            0 <= i <= outcomes@.len(),
            forall|j: int| 0 <= j < i ==> (#[trigger] outcomes@[j]).result != AuthResult::Pass,
        decreases outcomes@.len() - i,
    {
        if outcomes[i].result == AuthResult::Pass {
            return true;
        }
        i = i + 1;
    }
    false
}

/// Whether any DKIM signature met a transient error.
pub fn dkim_any_temp_error(outcomes: &Vec<DkimOutcome>) -> (r: bool)
    ensures
        r == any_temp_error(outcomes@),
{
    let mut i: usize = 0;
    while i < outcomes.len()
        invariant
            0 <= i <= outcomes@.len(),
            forall|j: int| 0 <= j < i ==> (#[trigger] outcomes@[j]).result != AuthResult::TempError,
        decreases outcomes@.len() - i,
    {
        if outcomes[i].result == AuthResult::TempError {
            return true;
        }
        i = i + 1;
    }
    false
}

/// The DKIM stage: under a strict strategy, a message without a passing
/// signature is rejected, transiently when some result is a temporary error.
pub fn dkim_verdict(strategy: VerifyStrategy, outcomes: &Vec<DkimOutcome>) -> (r: Option<Reply>)
    ensures
        r == spec_dkim_verdict(strategy, outcomes@),
{
    if strategy.is_strict() && !dkim_any_pass(outcomes) {
        if dkim_any_temp_error(outcomes) {
            Some(Reply::DkimTempFail)
        } else {
            Some(Reply::DkimPermFail)
        }
    } else {
        None
    }
}

/// The ARC stage: under a strict strategy, a chain that is neither `Pass`
/// nor `None` is rejected, transiently on a temporary error.
pub fn arc_verdict(strategy: VerifyStrategy, result: AuthResult) -> (r: Option<Reply>)
    ensures
        r == spec_arc_verdict(strategy, result),
{
    if strategy.is_strict() && result != AuthResult::Pass && result != AuthResult::NoResult {
        if result == AuthResult::TempError {
            Some(Reply::ArcTempFail)
        } else {
            Some(Reply::ArcPermFail)
        }
    } else {
        None
    }
}

/// The DMARC stage: the effective result and whether the policy rejects.
pub fn dmarc_verdict(strategy: VerifyStrategy, outcome: DmarcOutcome) -> (r: DmarcVerdict)
    ensures
        r == spec_dmarc_verdict(strategy, outcome),
{
    let pass = outcome.spf_result == AuthResult::Pass || outcome.dkim_result == AuthResult::Pass;
    let rejected = strategy.is_strict() && outcome.policy == DmarcPolicy::Reject && !pass;
    let result = if pass {
        AuthResult::Pass
    } else if outcome.spf_result != AuthResult::NoResult {
        outcome.spf_result
    } else if outcome.dkim_result != AuthResult::NoResult {
        outcome.dkim_result
    } else {
        AuthResult::NoResult
    };
    DmarcVerdict {
        result,
        rejected,
        temporary: rejected && (outcome.spf_result == AuthResult::TempError || outcome.dkim_result
            == AuthResult::TempError),
    }
}

impl DmarcVerdict {
    /// The reply of this verdict, if it rejects.
    pub fn reply(&self) -> (r: Option<Reply>)
        ensures
            r == spec_dmarc_reply(*self),
    {
        if self.rejected {
            if self.temporary {
                Some(Reply::DmarcTempFail)
            } else {
                Some(Reply::DmarcPermFail)
            }
        } else {
            None
        }
    }
}

/// The DKIM result shown to scripts: the first passing signature's,
/// else the first signature's, else none.
pub open spec fn spec_dkim_summary(s: Seq<DkimOutcome>) -> Option<AuthResult> {
    if any_pass(s) {
        Some(AuthResult::Pass)
    } else if s.len() > 0 {
        Some(s[0].result)
    } else {
        None
    }
}

/// The DKIM result shown to scripts.
pub fn dkim_summary(outcomes: &Vec<DkimOutcome>) -> (r: Option<AuthResult>)
    ensures
        r == spec_dkim_summary(outcomes@),
{
    if dkim_any_pass(outcomes) {
        Some(AuthResult::Pass)
    } else if outcomes.len() > 0 {
        Some(outcomes[0].result)
    } else {
        None
    }
}

/// The signing domains of the passing signatures, in order.
pub open spec fn spec_passing_domains(s: Seq<DkimOutcome>) -> Seq<Seq<u8>>
    decreases s.len(),
{
    if s.len() == 0 {
        Seq::empty()
    } else {
        spec_passing_domains(s.drop_last()) + match s.last().domain {
            Some(d) => if s.last().result == AuthResult::Pass {
                seq![d@]
            } else {
                Seq::empty()
            },
            None => Seq::empty(),
        }
    }
}

/// The positions of the signatures whose signer asked for failure reports.
pub open spec fn spec_report_targets(s: Seq<DkimOutcome>) -> Seq<usize>
    decreases s.len(),
{
    if s.len() == 0 {
        Seq::empty()
    } else {
        spec_report_targets(s.drop_last()) + if s.last().report_addr is Some {
            seq![(s.len() - 1) as usize]
        } else {
            Seq::empty()
        }
    }
}

/// The signing domains of the passing signatures, as shown to scripts.
pub fn passing_domains(outcomes: &Vec<DkimOutcome>) -> (r: Vec<Vec<u8>>)
    ensures
        r@.map_values(|d: Vec<u8>| d@) == spec_passing_domains(outcomes@),
{
    let mut out: Vec<Vec<u8>> = Vec::new();
    let mut i: usize = 0;
    while i < outcomes.len()
        invariant
            0 <= i <= outcomes@.len(),
            out@.map_values(|d: Vec<u8>| d@) == spec_passing_domains(outcomes@.subrange(0, i as int)),
        decreases outcomes@.len() - i,
    {
        let o = &outcomes[i];
        assert(outcomes@.subrange(0, i + 1).drop_last() == outcomes@.subrange(0, i as int));
        if o.result == AuthResult::Pass {
            if let Some(d) = &o.domain {
                out.push(copy_bytes(d.as_slice()));
            }
        }
        i = i + 1;
        assert(out@.map_values(|d: Vec<u8>| d@) =~= spec_passing_domains(outcomes@.subrange(0, i as int)));
    }
    assert(outcomes@.subrange(0, outcomes@.len() as int) == outcomes@);
    out
}

/// The positions of the signatures to send a failure report for.
pub fn report_targets(outcomes: &Vec<DkimOutcome>) -> (r: Vec<usize>)
    ensures
        r@ == spec_report_targets(outcomes@),
{
    let mut out: Vec<usize> = Vec::new();
    let mut i: usize = 0;
    while i < outcomes.len()
        invariant
            0 <= i <= outcomes@.len(),
            out@ == spec_report_targets(outcomes@.subrange(0, i as int)),
        decreases outcomes@.len() - i,
    {
        assert(outcomes@.subrange(0, i + 1).drop_last() == outcomes@.subrange(0, i as int));
        if outcomes[i].report_addr.is_some() {
            out.push(i);
        }
        i = i + 1;
        assert(out@ =~= spec_report_targets(outcomes@.subrange(0, i as int)));
    }
    assert(outcomes@.subrange(0, outcomes@.len() as int) == outcomes@);
    out
}

/// A strict DKIM rejection is transient exactly when some signature's
/// result is a temporary error.
pub proof fn lemma_dkim_reject_temporary_iff_temp_error(
    strategy: VerifyStrategy,
    outcomes: Seq<DkimOutcome>,
)
    requires
        spec_dkim_verdict(strategy, outcomes) is Some,
    ensures
        crate::reply::spec_is_temporary(spec_dkim_verdict(strategy, outcomes).unwrap())
            <==> any_temp_error(outcomes),
{
}

} // verus!
