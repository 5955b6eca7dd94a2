//! Per-user conversation sessions: the inbound message data the core works
//! on, the conversation stage, and the store that owns one session per
//! user.

use vstd::prelude::*;

use std::collections::HashMap;

use crate::candidates::{Candidate, CandidateView};

verus! {

broadcast use vstd::std_specs::hash::group_hash_axioms;

/// A user is forgotten (the stage falls back to the default) after this
/// many seconds without a message from them.
pub const IDLE_TIMEOUT_SECS: i64 = 1800;

/// After a completed relay the user must wait this many seconds before
/// relaying again.
pub const COOLDOWN_SECS: i64 = 600;

/// The mathematical value of an [`InboundMessage`].
pub struct MessageView {
    pub author_id: u64,
    pub timestamp: int,
    pub content: Seq<char>,
    pub attachments: Seq<Seq<char>>,
}

/// One private message received from a user, reduced to the data the core
/// needs: who sent it, when (seconds since the Unix epoch), its text, and
/// the file names of its attachments. Attachment bytes stay with the shell,
/// which fetches them only when a relay forwards them.
#[derive(Debug)]
pub struct InboundMessage {
    pub author_id: u64,
    pub timestamp: i64,
    pub content: String,
    pub attachments: Vec<String>,
}

impl View for InboundMessage {
    type V = MessageView;

    open spec fn view(&self) -> MessageView {
        MessageView {
            author_id: self.author_id,
            timestamp: self.timestamp as int,
            content: self.content@,
            attachments: self.attachments@.map_values(|a: String| a@),
        }
    }
}

impl InboundMessage {
    /// Returns a copy of this message.
    pub fn duplicate(&self) -> (r: InboundMessage)
        ensures
            r@ == self@,
    {
        let mut attachments: Vec<String> = Vec::new();
        let mut i: usize = 0;
        while i < self.attachments.len()
            invariant
                i <= self.attachments@.len(),
                attachments@.len() == i,
                forall|k: int| 0 <= k < i ==> attachments@[k]@ == self.attachments@[k]@,
            decreases self.attachments@.len() - i,
        {
            attachments.push(self.attachments[i].clone());
            i = i + 1;
        }
        let r = InboundMessage {
            author_id: self.author_id,
            timestamp: self.timestamp,
            content: self.content.clone(),
            attachments,
        };
        proof {
            assert(r@.attachments =~= self@.attachments);
        }
        r
    }
}

/// The mathematical value of a [`Stage`].
pub enum StageView {
    Default,
    ChoosingGuild { original: MessageView, candidates: Seq<CandidateView> },
    Cooldown { until: int },
}

/// Where a user stands in the mod-mail flow. Exactly one stage is active
/// per session; every transition replaces the whole value.
#[derive(Debug)]
pub enum Stage {
    /// No flow is open; the next message starts one.
    Default,
    /// The user shares several moderated servers with the bot and has been
    /// asked which one to contact; the message that started the flow and
    /// the candidate servers (sorted by name) are kept until they answer.
    ChoosingGuild { original: InboundMessage, candidates: Vec<Candidate> },
    /// A relay just completed; further relays are blocked until `until`
    /// (seconds since the Unix epoch).
    Cooldown { until: i64 },
}

impl View for Stage {
    type V = StageView;

    open spec fn view(&self) -> StageView {
        match self {
            Stage::Default => StageView::Default,
            Stage::ChoosingGuild { original, candidates } => StageView::ChoosingGuild {
                original: original@,
                candidates: crate::candidates::views_of(candidates@),
            },
            Stage::Cooldown { until } => StageView::Cooldown { until: *until as int },
        }
    }
}

impl Default for Stage {
    /// A session starts with no open flow.
    fn default() -> (s: Self)
        ensures
            s@ is Default,
    {
        Stage::Default
    }
}

/// The mathematical value of a [`Session`].
pub struct SessionView {
    pub last_activity: int,
    pub stage: StageView,
}

/// One user's conversation state: when they last wrote, and where they
/// stand in the flow.
#[derive(Debug)]
pub struct Session {
    pub last_activity: i64,
    pub stage: Stage,
}

impl View for Session {
    type V = SessionView;

    open spec fn view(&self) -> SessionView {
        SessionView { last_activity: self.last_activity as int, stage: self.stage@ }
    }
}

/// A session has gone idle when more than the idle timeout has passed
/// between its last activity and `now`.
pub open spec fn spec_idle_expired(last_activity: int, now: int) -> bool {
    last_activity + IDLE_TIMEOUT_SECS < now
}

/// The stage a session is effectively in at time `now`: its stored stage,
/// unless the session has gone idle, in which case the flow is forgotten.
pub open spec fn spec_effective_stage(s: SessionView, now: int) -> StageView {
    if spec_idle_expired(s.last_activity, now) {
        StageView::Default
    } else {
        s.stage
    }
}

impl Session {
    /// A fresh session, seeded with the timestamp of the message that
    /// caused it to exist.
    pub fn new(timestamp: i64) -> (s: Session)
        ensures
            s@.last_activity == timestamp,
            s@.stage is Default,
    {
        Session { last_activity: timestamp, stage: Stage::Default }
    }

    /// Records a completed relay: the user enters the cooldown that ends
    /// ten minutes after completion.
    pub fn complete_relay(&mut self, now: i64)
        requires
            now <= i64::MAX - COOLDOWN_SECS,
        ensures
            final(self)@.last_activity == old(self)@.last_activity,
            final(self)@.stage == (StageView::Cooldown { until: now + COOLDOWN_SECS }),
    {
        self.stage = Stage::Cooldown { until: now + COOLDOWN_SECS };
    }

    /// Replaces the session's stage, leaving its activity time alone. The
    /// shell applies a decision's follow-up stage through this once the
    /// replies it covers have been delivered.
    pub fn set_stage(&mut self, stage: Stage)
        ensures
            final(self)@.last_activity == old(self)@.last_activity,
            final(self)@.stage == stage@,
    {
        self.stage = stage;
    }
}

/// Owns one session per user, created lazily. The store hands a session
/// out by value and takes it back when processing ends; the shell keeps
/// per-user exclusive locks around that window, so no two messages from
/// the same user are processed at once.
pub struct SessionStore {
    sessions: HashMap<u64, Session>,
}

impl View for SessionStore {
    type V = Map<u64, Session>;

    closed spec fn view(&self) -> Map<u64, Session> {
        self.sessions@
    }
}

impl SessionStore {
    /// An empty store.
    pub fn new() -> (s: SessionStore)
        ensures
            s@ == Map::<u64, Session>::empty(),
    {
        SessionStore { sessions: HashMap::new() }
    }

    /// Hands out the session for `user`, removing it from the store for
    /// the duration of processing. First access for a user creates a
    /// default-stage session seeded with the triggering message's
    /// timestamp.
    pub fn take_or_create(&mut self, user: u64, timestamp: i64) -> (s: Session)
        ensures
            old(self)@.contains_key(user) ==> s == old(self)@[user] && final(self)@ == old(
                self,
            )@.remove(user),
            !old(self)@.contains_key(user) ==> s@.last_activity == timestamp && s@.stage is Default
                && final(self)@ == old(self)@,
    {
        match self.sessions.remove(&user) {
            Some(s) => s,
            None => Session::new(timestamp),
        }
    }

    /// Puts a session back under its user's key.
    pub fn put(&mut self, user: u64, s: Session)
        ensures
            final(self)@ == old(self)@.insert(user, s),
    {
        self.sessions.insert(user, s);
    }
}

} // verus!
