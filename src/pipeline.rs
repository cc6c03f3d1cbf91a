//! The DATA-phase pipeline: its stages, in their fixed order, each of which
//! may end the transaction with a reply, change the message, or pass it on.
//! The outside work of each stage (DNS verification, classifiers,
//! rewriters, signers, the queue store) is done by the caller, who hands
//! the outcome to the stage's method. A stage that ends the transaction
//! moves the pipeline to `Done`, after which no later stage (quota check,
//! persistence) can run.
use crate::auth::{
    arc_needed, arc_verdict, dkim_needed, dkim_verdict, dmarc_verdict, spec_arc_needed,
    spec_arc_verdict, spec_dkim_needed, spec_dkim_verdict, spec_dmarc_reply, spec_dmarc_verdict,
    AuthResult, DkimOutcome, DmarcOutcome, VerifyStrategy,
};
use crate::headers::{
    date_text, message_id_text, received_text, return_path_text, HeaderBlock, ReceivedInfo,
};
use crate::message::{precheck, spec_precheck, MessageFacts};
use crate::reply::Reply;
use crate::rewrite::{
    added_headers, apply_modifications, envelope_changes, merge_modifications, opt_bytes,
    replaced_body, script_stage, spam_stage, spec_merge, EnvelopeField, Modification,
    ScriptResult, SpamAction,
};
use vstd::prelude::*;

verus! {

/// The number of `Received` headers above which a loop is assumed, when
/// none is configured.
pub const DEFAULT_MAX_RECEIVED: u64 = 50;

/// The settings and session facts that steer the pipeline.
#[derive(Clone, Copy, Debug, PartialEq, Eq, Structural)]
pub struct PipelineConfig {
    pub max_received: u64,
    pub dkim: VerifyStrategy,
    pub arc: VerifyStrategy,
    pub dmarc: VerifyStrategy,
    /// An ARC sealer is configured.
    pub arc_sealer: bool,
    /// The session has an SPF result for `MAIL FROM`.
    pub spf_mail_from: bool,
    /// The message is a feedback or aggregate report.
    pub is_report: bool,
    /// Reports are delivered as well as analysed.
    pub forward_reports: bool,
    pub add_received: bool,
    pub add_auth_results: bool,
    pub add_received_spf: bool,
    pub add_return_path: bool,
    pub add_date: bool,
    pub add_message_id: bool,
    pub spam_filter: bool,
}

/// Who submitted a message, as the queue records it.
#[derive(Clone, Copy, Debug, PartialEq, Eq, Structural)]
pub enum MessageSource {
    Authenticated,
    /// An unauthenticated client; whether the message passed DMARC.
    Unauthenticated { dmarc_pass: bool },
}

/// The stages, in order.
#[derive(Clone, Copy, Debug, PartialEq, Eq, Structural)]
pub enum Stage {
    Dkim,
    Arc,
    Dmarc,
    Trace,
    Spam,
    Milter,
    Hook,
    Script,
    Complete,
    Sign,
    Done,
}

/// A message going through the DATA phase.
pub struct Pipeline {
    config: PipelineConfig,
    facts: MessageFacts,
    body: Vec<u8>,
    headers: HeaderBlock,
    stage: Stage,
    queue_id: u64,
    dkim_signed: bool,
    sealable: bool,
    dmarc_result: Option<AuthResult>,
    milter_mods: Vec<Modification>,
    counted: bool,
}

/// The section rank below which a stage may no longer write.
pub open spec fn stage_floor(s: Stage) -> u8 {
    match s {
        Stage::Dkim | Stage::Arc | Stage::Dmarc | Stage::Trace => 0,
        Stage::Spam => 3,
        Stage::Milter | Stage::Hook | Stage::Script | Stage::Complete => 5,
        Stage::Sign | Stage::Done => 9,
    }
}

/// The text of an optional header: present or empty.
pub open spec fn when(cond: bool, text: Seq<u8>) -> Seq<u8> {
    if cond {
        text
    } else {
        Seq::empty()
    }
}

/// The trace headers of the message, in their order.
pub open spec fn spec_trace(
    c: PipelineConfig,
    sealable: bool,
    id: u64,
    info: ReceivedInfo,
    date: Seq<u8>,
    auth_results: Seq<u8>,
    received_spf: Seq<u8>,
    arc_set: Option<Seq<u8>>,
) -> Seq<u8> {
    when(c.add_received, received_text(info, id, date)) + when(c.add_auth_results, auth_results)
        + when(c.spf_mail_from && c.add_received_spf, received_spf) + match arc_set {
        Some(s) => when(sealable, s),
        None => Seq::empty(),
    }
}

/// The headers added when the message lacks them or by configuration.
pub open spec fn spec_completion(
    c: PipelineConfig,
    f: MessageFacts,
    return_path: Seq<u8>,
    date: Seq<u8>,
    message_id: Seq<u8>,
) -> Seq<u8> {
    when(c.add_return_path, return_path_text(return_path)) + when(
        !f.has_date && c.add_date,
        date_text(date),
    ) + when(!f.has_message_id && c.add_message_id, message_id_text(message_id))
}

/// The reply once the message is sized: a full queue, a store failure, or
/// the queue id.
pub open spec fn spec_handoff(fits_quota: bool, persisted: bool, id: u64) -> Reply {
    if !fits_quota {
        Reply::MailSystemFull
    } else if persisted {
        Reply::QueuedWithId(id)
    } else {
        Reply::UnableToAccept
    }
}

impl Pipeline {
    pub closed spec fn config(&self) -> PipelineConfig {
        self.config
    }

    pub closed spec fn facts(&self) -> MessageFacts {
        self.facts
    }

    /// The message body: the raw message, or what a rewriter put in its place.
    pub closed spec fn body(&self) -> Seq<u8> {
        self.body@
    }

    /// The block of headers prepended so far.
    pub closed spec fn headers(&self) -> HeaderBlock {
        self.headers
    }

    pub closed spec fn stage(&self) -> Stage {
        self.stage
    }

    pub closed spec fn queue_id(&self) -> u64 {
        self.queue_id
    }

    /// DKIM ran and found at least one signature.
    pub closed spec fn dkim_signed(&self) -> bool {
        self.dkim_signed
    }

    /// ARC ran, reported a sealable chain, and a sealer is configured.
    pub closed spec fn sealable(&self) -> bool {
        self.sealable
    }

    pub closed spec fn dmarc_result(&self) -> Option<AuthResult> {
        self.dmarc_result
    }

    pub closed spec fn milter_mods(&self) -> Seq<Modification> {
        self.milter_mods@
    }

    pub closed spec fn wf(&self) -> bool {
        &&& self.headers.wf()
        &&& self.headers.next_rank() <= stage_floor(self.stage)
        &&& (self.stage is Dkim || self.stage is Arc || self.stage is Dmarc || self.stage is Trace)
            ==> self.headers@.len() == 0 && self.headers.next_rank() == 0
        &&& self.sealable ==> self.config.arc_sealer
        &&& self.counted ==> self.stage is Done
    }

    /// The transaction ended in a way that counts as a message sent by the
    /// session: queued, absorbed as a report, or decided by the spam filter.
    pub closed spec fn counted(&self) -> bool {
        self.counted
    }

    /// Whether the transaction counts toward the session's message limit.
    pub fn counts_as_sent(&self) -> (r: bool)
        ensures
            r == self.counted(),
    {
        self.counted
    }

    /// Parses the message and checks it for a loop; on success the pipeline
    /// waits for DKIM.
    pub fn start(raw: Vec<u8>, config: PipelineConfig) -> (r: Result<Pipeline, Reply>)
        ensures
            match spec_precheck(raw@, config.max_received) {
                Err(e) => r == Err::<Pipeline, Reply>(e),
                Ok(f) => r is Ok && r->Ok_0.wf() && r->Ok_0.stage() == Stage::Dkim
                    && !r->Ok_0.counted()
                    && r->Ok_0.facts() == f && r->Ok_0.config() == config
                    && r->Ok_0.body() == raw@ && r->Ok_0.headers()@.len() == 0,
            },
    {
        match precheck(raw.as_slice(), config.max_received) {
            Err(e) => Err(e),
            Ok(facts) => Ok(
                Pipeline {
                    config,
                    facts,
                    body: raw,
                    headers: HeaderBlock::new(),
                    stage: Stage::Dkim,
                    queue_id: 0,
                    dkim_signed: false,
                    sealable: false,
                    dmarc_result: None,
                    milter_mods: Vec::new(),
                    counted: false,
                },
            ),
        }
    }

    /// The facts read from the message's own headers.
    pub fn message_facts(&self) -> (r: MessageFacts)
        ensures
            r == self.facts(),
    {
        self.facts
    }

    /// The current stage.
    pub fn current_stage(&self) -> (r: Stage)
        ensures
            r == self.stage(),
    {
        self.stage
    }

    /// Whether DKIM verification is to run.
    pub fn needs_dkim(&self) -> (r: bool)
        ensures
            r == spec_dkim_needed(self.config().dkim, self.config().dmarc),
    {
        dkim_needed(self.config.dkim, self.config.dmarc)
    }

    /// Whether ARC verification is to run.
    pub fn needs_arc(&self) -> (r: bool)
        ensures
            r == spec_arc_needed(self.config().arc, self.config().arc_sealer),
    {
        arc_needed(self.config.arc, self.config.arc_sealer)
    }

    /// Whether DMARC verification is to run.
    pub fn needs_dmarc(&self) -> (r: bool)
        ensures
            r == (self.config().spf_mail_from && self.config().dmarc.spec_verify()),
    {
        self.config.spf_mail_from && self.config.dmarc.verify()
    }

    /// Whether the message is to be ARC-sealed.
    pub fn should_seal(&self) -> (r: bool)
        ensures
            r == (self.sealable() && self.dkim_signed()),
    {
        self.sealable && self.dkim_signed
    }

    /// Whether a DMARC aggregate report is due: DMARC ran, the domain asks
    /// for reports, and the message is not itself a report.
    pub fn dmarc_report_due(&self, requested: bool) -> (r: bool)
        ensures
            r == (self.config().spf_mail_from && self.config().dmarc.spec_verify() && requested
                && !self.config().is_report),
    {
        self.needs_dmarc() && requested && !self.config.is_report
    }

    /// The source recorded with the queued message.
    pub fn source(&self, authenticated: bool) -> (r: MessageSource)
        ensures
            r == if authenticated {
                MessageSource::Authenticated
            } else {
                MessageSource::Unauthenticated {
                    dmarc_pass: self.dmarc_result() == Some(AuthResult::Pass),
                }
            },
    {
        if authenticated {
            MessageSource::Authenticated
        } else {
            let pass = match self.dmarc_result {
                Some(r) => r == AuthResult::Pass,
                None => false,
            };
            MessageSource::Unauthenticated { dmarc_pass: pass }
        }
    }

    /// The DKIM stage, given the outcome of each signature (empty when
    /// verification did not run).
    pub fn dkim(&mut self, outcomes: &Vec<DkimOutcome>) -> (r: Option<Reply>)
        requires
            old(self).wf(),
            old(self).stage() == Stage::Dkim,
        ensures
            r == if spec_dkim_needed(old(self).config().dkim, old(self).config().dmarc) {
                spec_dkim_verdict(old(self).config().dkim, outcomes@)
            } else {
                None
            },
            final(self).wf(),
            !final(self).counted(),
            final(self).stage() == if r is Some { Stage::Done } else { Stage::Arc },
            final(self).dkim_signed() == (spec_dkim_needed(old(self).config().dkim, old(self).config().dmarc)
                && outcomes@.len() > 0),
            final(self).config() == old(self).config(),
            final(self).facts() == old(self).facts(),
            final(self).body() == old(self).body(),
            final(self).headers() == old(self).headers(),
            final(self).sealable() == old(self).sealable(),
    {
        let r = if self.needs_dkim() {
            self.dkim_signed = outcomes.len() > 0;
            dkim_verdict(self.config.dkim, outcomes)
        } else {
            self.dkim_signed = false;
            None
        };
        self.stage = if r.is_some() {
            Stage::Done
        } else {
            Stage::Arc
        };
        r
    }

    /// The ARC stage, given the chain's result and whether it can be sealed.
    pub fn arc(&mut self, result: AuthResult, can_be_sealed: bool) -> (r: Option<Reply>)
        requires
            old(self).wf(),
            old(self).stage() == Stage::Arc,
        ensures
            r == if spec_arc_needed(old(self).config().arc, old(self).config().arc_sealer) {
                spec_arc_verdict(old(self).config().arc, result)
            } else {
                None
            },
            final(self).wf(),
            !final(self).counted(),
            final(self).stage() == if r is Some { Stage::Done } else { Stage::Dmarc },
            final(self).sealable() == (old(self).config().arc_sealer && can_be_sealed),
            final(self).config() == old(self).config(),
            final(self).facts() == old(self).facts(),
            final(self).body() == old(self).body(),
            final(self).headers() == old(self).headers(),
            final(self).dkim_signed() == old(self).dkim_signed(),
    {
        self.sealable = self.config.arc_sealer && can_be_sealed;
        let r = if self.needs_arc() {
            arc_verdict(self.config.arc, result)
        } else {
            None
        };
        self.stage = if r.is_some() {
            Stage::Done
        } else {
            Stage::Dmarc
        };
        r
    }

    /// The DMARC stage, given its outcome (ignored when DMARC does not run),
    /// followed by the report check: a report that is not to be forwarded
    /// is absorbed.
    pub fn dmarc(&mut self, outcome: DmarcOutcome) -> (r: Option<Reply>)
        requires
            old(self).wf(),
            old(self).stage() == Stage::Dmarc,
        ensures
            ({
                let c = old(self).config();
                let runs = c.spf_mail_from && c.dmarc.spec_verify();
                let v = spec_dmarc_verdict(c.dmarc, outcome);
                &&& r == if runs && v.rejected {
                    spec_dmarc_reply(v)
                } else if c.is_report && !c.forward_reports {
                    Some(Reply::QueuedForDelivery)
                } else {
                    None
                }
                &&& final(self).dmarc_result() == if runs {
                    Some(v.result)
                } else {
                    None
                }
            }),
            final(self).wf(),
            final(self).counted() == (r == Some(Reply::QueuedForDelivery)),
            final(self).stage() == if r is Some { Stage::Done } else { Stage::Trace },
            final(self).config() == old(self).config(),
            final(self).facts() == old(self).facts(),
            final(self).body() == old(self).body(),
            final(self).headers() == old(self).headers(),
            final(self).dkim_signed() == old(self).dkim_signed(),
            final(self).sealable() == old(self).sealable(),
    {
        let mut r: Option<Reply> = None;
        if self.needs_dmarc() {
            let v = dmarc_verdict(self.config.dmarc, outcome);
            self.dmarc_result = Some(v.result);
            if v.rejected {
                r = v.reply();
            }
        } else {
            self.dmarc_result = None;
        }
        if r.is_none() && self.config.is_report && !self.config.forward_reports {
            r = Some(Reply::QueuedForDelivery);
            self.counted = true;
        }
        self.stage = if r.is_some() {
            Stage::Done
        } else {
            Stage::Trace
        };
        r
    }

    /// The trace stage: the `Received` header for queue id `id`, the
    /// `Authentication-Results` and `Received-SPF` headers, and the ARC set
    /// when the message is sealed, each as configured.
    pub fn trace(
        &mut self,
        id: u64,
        info: &ReceivedInfo,
        date: &[u8],
        auth_results: &[u8],
        received_spf: &[u8],
        arc_set: Option<Vec<u8>>,
    )
        requires
            old(self).wf(),
            old(self).stage() == Stage::Trace,
        ensures
            final(self).wf(),
            !final(self).counted(),
            final(self).stage() == Stage::Spam,
            final(self).queue_id() == id,
            final(self).headers()@ == old(self).headers()@ + spec_trace(
                old(self).config(),
                old(self).sealable() && old(self).dkim_signed(),
                id,
                *info,
                date@,
                auth_results@,
                received_spf@,
                opt_bytes(arc_set),
            ),
            final(self).config() == old(self).config(),
            final(self).facts() == old(self).facts(),
            final(self).body() == old(self).body(),
            final(self).dmarc_result() == old(self).dmarc_result(),
    {
        let ghost start = self.headers@;
        self.queue_id = id;
        if self.config.add_received {
            self.headers.add_received(info, id, date);
        }
        if self.config.add_auth_results {
            self.headers.add_auth_results(auth_results);
        }
        if self.config.spf_mail_from && self.config.add_received_spf {
            self.headers.add_received_spf(received_spf);
        }
        let seal = self.should_seal();
        match arc_set {
            Some(set) => {
                if seal {
                    self.headers.add_arc_set(set.as_slice());
                }
            },
            None => {},
        }
        self.stage = Stage::Spam;
        assert(self.headers@ =~= start + spec_trace(
            self.config,
            seal,
            id,
            *info,
            date@,
            auth_results@,
            received_spf@,
            opt_bytes(arc_set),
        ));
    }

    /// The spam stage, given the classifier's decision (ignored when the
    /// filter is off).
    pub fn spam(&mut self, action: SpamAction) -> (r: Option<Reply>)
        requires
            old(self).wf(),
            old(self).stage() == Stage::Spam,
        ensures
            final(self).wf(),
            final(self).counted() == (r is Some),
            final(self).stage() == if r is Some { Stage::Done } else { Stage::Milter },
            !old(self).config().spam_filter ==> r is None && final(self).headers() == old(self).headers(),
            old(self).config().spam_filter ==> match action {
                SpamAction::Allow(h) => r is None && final(self).headers()@ == old(self).headers()@ + h@,
                SpamAction::Discard => r == Some(Reply::QueuedForDelivery),
                SpamAction::Reject => r == Some(Reply::SpamRejected),
            },
            final(self).config() == old(self).config(),
            final(self).facts() == old(self).facts(),
            final(self).body() == old(self).body(),
            final(self).queue_id() == old(self).queue_id(),
            final(self).dmarc_result() == old(self).dmarc_result(),
    {
        let r = if self.config.spam_filter {
            spam_stage(&mut self.headers, action)
        } else {
            None
        };
        self.counted = r.is_some();
        self.stage = if r.is_some() {
            Stage::Done
        } else {
            Stage::Milter
        };
        r
    }

    /// The milter stage: a reject ends with the milter's reply; otherwise
    /// its modifications wait for the hook's.
    pub fn milter(&mut self, result: Result<Vec<Modification>, Vec<u8>>) -> (r: Option<Reply>)
        requires
            old(self).wf(),
            old(self).stage() == Stage::Milter,
        ensures
            final(self).wf(),
            !final(self).counted(),
            final(self).stage() == if r is Some { Stage::Done } else { Stage::Hook },
            match result {
                Ok(m) => r is None && final(self).milter_mods() == m@,
                Err(e) => r == Some(Reply::Custom(e)),
            },
            final(self).config() == old(self).config(),
            final(self).facts() == old(self).facts(),
            final(self).body() == old(self).body(),
            final(self).headers() == old(self).headers(),
            final(self).queue_id() == old(self).queue_id(),
            final(self).dmarc_result() == old(self).dmarc_result(),
    {
        match result {
            Ok(m) => {
                self.milter_mods = m;
                self.stage = Stage::Hook;
                None
            },
            Err(e) => {
                self.stage = Stage::Done;
                Some(Reply::Custom(e))
            },
        }
    }

    /// The hook stage: a reject ends with the hook's reply; otherwise the
    /// merged modifications are applied, and the envelope changes among
    /// them are handed back.
    pub fn hook(&mut self, result: Result<Vec<Modification>, Vec<u8>>) -> (r: Result<
        Vec<(EnvelopeField, Vec<u8>)>,
        Reply,
    >)
        requires
            old(self).wf(),
            old(self).stage() == Stage::Hook,
        ensures
            final(self).wf(),
            !final(self).counted(),
            final(self).stage() == if r is Err { Stage::Done } else { Stage::Script },
            match result {
                Err(e) => r == Err::<Vec<(EnvelopeField, Vec<u8>)>, Reply>(Reply::Custom(e)),
                Ok(h) => {
                    let merged = spec_merge(old(self).milter_mods(), h@);
                    &&& r is Ok
                    &&& r->Ok_0@.map_values(|c: (EnvelopeField, Vec<u8>)| (c.0, c.1@)) == envelope_changes(merged)
                    &&& final(self).headers()@ == old(self).headers()@ + added_headers(merged)
                    &&& final(self).body() == match replaced_body(merged) {
                        Some(b) => b,
                        None => old(self).body(),
                    }
                },
            },
            final(self).config() == old(self).config(),
            final(self).facts() == old(self).facts(),
            final(self).queue_id() == old(self).queue_id(),
            final(self).dmarc_result() == old(self).dmarc_result(),
    {
        match result {
            Err(e) => {
                self.stage = Stage::Done;
                Err(Reply::Custom(e))
            },
            Ok(h) => {
                let mut milter: Vec<Modification> = Vec::new();
                std::mem::swap(&mut milter, &mut self.milter_mods);
                let merged = merge_modifications(milter, h);
                let (edited, env) = apply_modifications(&mut self.headers, merged, None);
                if let Some(b) = edited {
                    self.body = b;
                }
                self.stage = Stage::Script;
                Ok(env)
            },
        }
    }

    /// The script stage, given the script's result (`None` when no script
    /// is configured).
    pub fn script(&mut self, result: Option<ScriptResult>) -> (r: Result<
        Vec<(EnvelopeField, Vec<u8>)>,
        Reply,
    >)
        requires
            old(self).wf(),
            old(self).stage() == Stage::Script,
        ensures
            final(self).wf(),
            !final(self).counted(),
            final(self).stage() == if r is Err { Stage::Done } else { Stage::Complete },
            match result {
                None => r is Ok && r->Ok_0@.len() == 0 && final(self).headers() == old(self).headers()
                    && final(self).body() == old(self).body(),
                Some(ScriptResult::Reject(e)) => r == Err::<Vec<(EnvelopeField, Vec<u8>)>, Reply>(Reply::Custom(e)),
                Some(ScriptResult::Discard) => r == Err::<Vec<(EnvelopeField, Vec<u8>)>, Reply>(Reply::QueuedForDelivery),
                Some(ScriptResult::Accept(m)) => r is Ok
                    && r->Ok_0@.map_values(|c: (EnvelopeField, Vec<u8>)| (c.0, c.1@)) == envelope_changes(m@)
                    && final(self).headers()@ == old(self).headers()@ + added_headers(m@)
                    && final(self).body() == match replaced_body(m@) {
                        Some(b) => b,
                        None => old(self).body(),
                    },
                Some(ScriptResult::Replace { body, modifications: m }) => r is Ok
                    && r->Ok_0@.map_values(|c: (EnvelopeField, Vec<u8>)| (c.0, c.1@)) == envelope_changes(m@)
                    && final(self).headers()@ == old(self).headers()@ + added_headers(m@)
                    && final(self).body() == match replaced_body(m@) {
                        Some(b) => b,
                        None => body@,
                    },
            },
            final(self).config() == old(self).config(),
            final(self).facts() == old(self).facts(),
            final(self).queue_id() == old(self).queue_id(),
            final(self).dmarc_result() == old(self).dmarc_result(),
    {
        self.stage = Stage::Complete;
        match result {
            None => Ok(Vec::new()),
            Some(res) => {
                match script_stage(&mut self.headers, res, None) {
                    Err(e) => {
                        self.stage = Stage::Done;
                        Err(e)
                    },
                    Ok((edited, env)) => {
                        if let Some(b) = edited {
                            self.body = b;
                        }
                        Ok(env)
                    },
                }
            },
        }
    }

    /// Adds `Return-Path`, and `Date` and `Message-ID` where the message
    /// lacks them, each as configured.
    pub fn complete(&mut self, return_path: &[u8], date: &[u8], message_id: &[u8])
        requires
            old(self).wf(),
            old(self).stage() == Stage::Complete,
        ensures
            final(self).wf(),
            !final(self).counted(),
            final(self).stage() == Stage::Sign,
            final(self).headers()@ == old(self).headers()@ + spec_completion(
                old(self).config(),
                old(self).facts(),
                return_path@,
                date@,
                message_id@,
            ),
            final(self).config() == old(self).config(),
            final(self).facts() == old(self).facts(),
            final(self).body() == old(self).body(),
            final(self).queue_id() == old(self).queue_id(),
            final(self).dmarc_result() == old(self).dmarc_result(),
    {
        let ghost start = self.headers@;
        if self.config.add_return_path {
            self.headers.add_return_path(return_path);
        }
        if !self.facts.has_date && self.config.add_date {
            self.headers.add_date(date);
        }
        if !self.facts.has_message_id && self.config.add_message_id {
            self.headers.add_message_id(message_id);
        }
        self.stage = Stage::Sign;
        assert(self.headers@ =~= start + spec_completion(
            self.config,
            self.facts,
            return_path@,
            date@,
            message_id@,
        ));
    }

    /// The bytes that a DKIM signer signs and the store persists: the
    /// prepended headers followed by the body.
    pub fn message_bytes(&self) -> (r: Vec<u8>)
        ensures
            r@ == self.headers()@ + self.body(),
    {
        let mut out: Vec<u8> = Vec::new();
        crate::text::append_bytes(&mut out, self.headers.as_slice());
        crate::text::append_bytes(&mut out, self.body.as_slice());
        out
    }

    /// The prepended headers.
    pub fn header_bytes(&self) -> (r: &[u8])
        ensures
            r@ == self.headers()@,
    {
        self.headers.as_slice()
    }

    /// The body as it will be persisted.
    pub fn body_bytes(&self) -> (r: &[u8])
        ensures
            r@ == self.body(),
    {
        self.body.as_slice()
    }

    /// Adds a DKIM signature computed over `message_bytes`.
    pub fn sign(&mut self, signature: &[u8])
        requires
            old(self).wf(),
            old(self).stage() == Stage::Sign,
        ensures
            final(self).wf(),
            !final(self).counted(),
            final(self).stage() == Stage::Sign,
            final(self).headers()@ == old(self).headers()@ + signature@,
            final(self).config() == old(self).config(),
            final(self).facts() == old(self).facts(),
            final(self).body() == old(self).body(),
            final(self).queue_id() == old(self).queue_id(),
            final(self).dmarc_result() == old(self).dmarc_result(),
    {
        self.headers.add_signature(signature);
    }

    /// The size of the message as persisted: prepended headers plus body,
    /// measured on the bytes that are persisted.
    pub fn size(&self) -> (r: u64)
        ensures
            r == self.headers()@.len() + self.body().len(),
    {
        let bytes = self.message_bytes();
        bytes.len() as u64
    }

    /// The queue id named in the `Received` header.
    pub fn id(&self) -> (r: u64)
        ensures
            r == self.queue_id(),
    {
        self.queue_id
    }

    /// The final reply, given whether the size fits the queue quota and,
    /// if so, whether the message was persisted.
    pub fn finish(&mut self, fits_quota: bool, persisted: bool) -> (r: Reply)
        requires
            old(self).wf(),
            old(self).stage() == Stage::Sign,
        ensures
            r == spec_handoff(fits_quota, persisted, old(self).queue_id()),
            final(self).counted() == (fits_quota && persisted),
            final(self).stage() == Stage::Done,
            final(self).headers() == old(self).headers(),
            final(self).body() == old(self).body(),
    {
        self.counted = fits_quota && persisted;
        self.stage = Stage::Done;
        if !fits_quota {
            Reply::MailSystemFull
        } else if persisted {
            Reply::QueuedWithId(self.queue_id)
        } else {
            Reply::UnableToAccept
        }
    }
}

} // verus!
