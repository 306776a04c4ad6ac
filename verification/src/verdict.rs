//! Staleness verdicts.
//!
//! A verdict pairs a subject — the chat it is about, with the identity
//! data kept for rendering — with the reason it was flagged and exactly
//! the evidence that reason needs: one message, a message sample, or
//! nothing. Verdicts are produced once, never mutated, and accumulate in
//! enumeration order.

use vstd::prelude::*;
use crate::classify::ChatKind;
use crate::message::MessageInfo;

verus! {

/// A left-chat record of which nothing but the identifier is known.
#[derive(Debug, Clone, Copy, PartialEq, Eq)]
pub struct Empty {
    pub id: i64,
}

/// Identity of a joined chat, as the dialog list reports it.
#[derive(Debug, Clone, PartialEq, Eq)]
pub struct ChatProfile {
    pub id: i64,
    pub access_hash: Option<i64>,
    pub kind: ChatKind,
    pub name: String,
    pub username: Option<String>,
}

/// A previously-left plain chat, as the left-chats list reports it.
#[derive(Debug, Clone, PartialEq, Eq)]
pub struct LeftChatInfo {
    pub id: i64,
    pub title: String,
    /// Whether the account created this chat.
    pub creator: bool,
}

/// A previously-left channel, as the left-chats list reports it. The
/// three sub-kind flags select the packed identity used to fetch its
/// messages.
#[derive(Debug, Clone, PartialEq, Eq)]
pub struct LeftChannelInfo {
    pub id: i64,
    pub access_hash: Option<i64>,
    pub title: String,
    pub username: Option<String>,
    /// Whether the account created this channel.
    pub creator: bool,
    pub megagroup: bool,
    pub gigagroup: bool,
    pub broadcast: bool,
}

/// The chat a verdict is about.
#[derive(Debug, Clone, PartialEq, Eq)]
pub enum Subject {
    Joined(ChatProfile),
    LeftChat(LeftChatInfo),
    LeftChannel(LeftChannelInfo),
    LeftEmpty(Empty),
}

/// Why a chat was flagged.
#[derive(Debug, Clone, Copy, PartialEq, Eq)]
pub enum Reason {
    /// The chat's last message is older than the stale-day threshold.
    LastMessageOld,
    /// A joined chat has no last message at all.
    MessagesEmpty,
    /// The fetched sample holds fewer than two messages.
    MessagesTooFew,
    /// Enough cadence gaps between consecutive messages of the sample.
    LastMessagesOld,
    /// The account created this left chat or channel.
    CreatorAndLeft,
    /// The left-chat record is empty.
    EmptyRecord,
}

/// The evidence a verdict carries: exactly what its reason needs.
#[derive(Debug, Clone, PartialEq, Eq)]
pub enum Evidence {
    Nothing,
    Message(MessageInfo),
    Sample(Vec<MessageInfo>),
}

/// One staleness verdict.
#[derive(Debug, Clone, PartialEq, Eq)]
pub struct Verdict {
    pub subject: Subject,
    pub reason: Reason,
    pub evidence: Evidence,
}

/// The mathematical shape of a verdict's evidence: a sample is a
/// sequence.
pub enum EvidenceModel {
    Nothing,
    Message(MessageInfo),
    Sample(Seq<MessageInfo>),
}

impl Evidence {
    pub open spec fn model(self) -> EvidenceModel {
        match self {
            Evidence::Nothing => EvidenceModel::Nothing,
            Evidence::Message(m) => EvidenceModel::Message(m),
            Evidence::Sample(s) => EvidenceModel::Sample(s@),
        }
    }
}

/// The mathematical shape of a verdict, for contracts that speak of
/// whole runs.
pub struct VerdictModel {
    pub subject: Subject,
    pub reason: Reason,
    pub evidence: EvidenceModel,
}

impl Verdict {
    pub open spec fn model(self) -> VerdictModel {
        VerdictModel { subject: self.subject, reason: self.reason, evidence: self.evidence.model() }
    }
}

/// The models of an optional verdict.
pub open spec fn spec_opt_model(r: Option<Verdict>) -> Option<VerdictModel> {
    match r {
        Option::Some(v) => Option::Some(v.model()),
        Option::None => Option::None,
    }
}

/// The models of a verdict list, in order.
pub open spec fn verdict_models(vs: Seq<Verdict>) -> Seq<VerdictModel> {
    vs.map_values(|v: Verdict| v.model())
}

/// Appending a verdict appends its model.
pub proof fn lemma_verdict_models_push(vs: Seq<Verdict>, v: Verdict)
    ensures
        verdict_models(vs.push(v)) == verdict_models(vs).push(v.model()),
{
    assert(verdict_models(vs.push(v)) =~= verdict_models(vs).push(v.model()));
}

impl Verdict {
    /// Each reason carries its own shape of evidence, and the reasons
    /// tied to one side of the analysis only occur with subjects of
    /// that side.
    pub open spec fn wf(self) -> bool {
        &&& match self.reason {
            Reason::LastMessageOld => self.evidence is Message,
            Reason::MessagesTooFew | Reason::LastMessagesOld => self.evidence is Sample,
            Reason::MessagesEmpty | Reason::CreatorAndLeft | Reason::EmptyRecord => self.evidence
                is Nothing,
        }
        &&& (self.reason is MessagesEmpty ==> self.subject is Joined)
        &&& (self.reason is CreatorAndLeft ==> self.subject is LeftChat || self.subject
            is LeftChannel)
        &&& (self.reason is EmptyRecord <==> self.subject is LeftEmpty)
    }

    /// The identifier of the verdict's subject.
    pub open spec fn spec_id(self) -> i64 {
        match self.subject {
            Subject::Joined(profile) => profile.id,
            Subject::LeftChat(chat) => chat.id,
            Subject::LeftChannel(channel) => channel.id,
            Subject::LeftEmpty(empty) => empty.id,
        }
    }

    /// The identifier of the verdict's subject.
    pub fn id(&self) -> (r: i64)
        ensures
            r == self.spec_id(),
    {
        match &self.subject {
            Subject::Joined(profile) => profile.id,
            Subject::LeftChat(chat) => chat.id,
            Subject::LeftChannel(channel) => channel.id,
            Subject::LeftEmpty(empty) => empty.id,
        }
    }

    /// The access hash of the verdict's subject, where one is known:
    /// joined chats and left channels carry one, left plain chats and
    /// empty records do not.
    pub open spec fn spec_access_hash(self) -> Option<i64> {
        match self.subject {
            Subject::Joined(profile) => profile.access_hash,
            Subject::LeftChannel(channel) => channel.access_hash,
            Subject::LeftChat(_) | Subject::LeftEmpty(_) => None,
        }
    }

    /// The access hash of the verdict's subject, where one is known.
    pub fn access_hash(&self) -> (r: Option<i64>)
        ensures
            r == self.spec_access_hash(),
    {
        match &self.subject {
            Subject::Joined(profile) => profile.access_hash,
            Subject::LeftChannel(channel) => channel.access_hash,
            Subject::LeftChat(_) | Subject::LeftEmpty(_) => None,
        }
    }
}

} // verus!
