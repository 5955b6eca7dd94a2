//! The conversation state machine: given one inbound private message, the
//! user's session and the data the shell looked up, decide what to send
//! back, whether to relay, and which stage the session moves to.

use vstd::prelude::*;

use crate::candidates::{views_of, Candidate, CandidateView};
use crate::relay::RelayRequest;
use crate::session::{
    spec_effective_stage, spec_idle_expired, InboundMessage, MessageView, Session, SessionView,
    Stage, StageView, IDLE_TIMEOUT_SECS,
};
use crate::similarity::{
    accepted, lemma_score_gt_dominates, lemma_spec_score_wf, lower_guess, lower_of, score_against,
    score_gt, spec_accepted, spec_score, spec_score_gt, Score,
};
use crate::text::{dec_str, push_dec_u64, wait_notice, wait_notice_text};

verus! {

/// The instructional greeting sent before the candidate list when the user
/// must pick a server.
pub const GREETING: &'static str = "Thanks for sending me a message. Messages sent to me will be relayed to a private channel between you and the Discord server's moderation team.\n\n**Note**: I'll forget all about you contacting me if you become inactive for more than 30 minutes.";

/// The clarification request sent when no candidate matches the user's
/// guess well enough.
pub const CLARIFICATION: &'static str = "I couldn't tell what you meant. Please send the name of the Discord server exactly as I've listed.";

/// What the state machine decided for one inbound message.
#[derive(Debug)]
pub enum Decision {
    /// The message is not a private message, or the bot sent it itself:
    /// nothing happens at all.
    NoOp,
    /// The user shares no moderated server with the bot: no reply is sent
    /// and the session is back at the default stage.
    Ignore,
    /// Send `messages` to the user's private channel, in order; if all of
    /// them are delivered, move the session to `next` (if any).
    Reply { messages: Vec<String>, next: Option<Stage> },
    /// Execute a relay. The shell announces it, plans it against the
    /// target server's role data (see [`crate::relay::plan_relay`]),
    /// performs it, and on success records the cooldown with
    /// [`Session::complete_relay`]. On failure the session keeps the stage
    /// it had, so the user may retry.
    StartRelay { request: RelayRequest },
}

/// The names of the candidates, one per line, in their listed order.
pub open spec fn joined_names(cs: Seq<CandidateView>) -> Seq<char>
    decreases cs.len(),
{
    if cs.len() == 0 {
        Seq::empty()
    } else if cs.len() == 1 {
        cs[0].name
    } else {
        joined_names(cs.drop_last()) + "\n"@ + cs.last().name
    }
}

/// The "choose a server" notice: how many servers the user shares with the
/// bot, and their names.
pub open spec fn choose_text(cs: Seq<CandidateView>) -> Seq<char> {
    ":thinking: **Choose a server**\n\nYou're in "@ + dec_str(cs.len())
        + " servers with me, so I'm not sure which one you want to contact.\n\nPlease **send the name of the server as I've listed below** to let me know which one you want to contact.\n\n"@
        + joined_names(cs)
}

/// Builds [`choose_text`] for a concrete candidate list.
pub fn choose_message(cands: &Vec<Candidate>) -> (r: String)
    ensures
        r@ == choose_text(views_of(cands@)),
{
    let ghost cs = views_of(cands@);
    let mut out = String::new();
    out.append(":thinking: **Choose a server**\n\nYou're in ");
    push_dec_u64(&mut out, cands.len() as u64);
    out.append(
        " servers with me, so I'm not sure which one you want to contact.\n\nPlease **send the name of the server as I've listed below** to let me know which one you want to contact.\n\n",
    );
    let ghost head = out@;
    let mut k: usize = 0;
    while k < cands.len()
        invariant
            k <= cands@.len(),
            cs == views_of(cands@),
            cs.len() == cands@.len(),
            out@ == head + joined_names(cs.take(k as int)),
        decreases cands@.len() - k,
    {
        if k > 0 {
            out.append("\n");
        }
        let ghost before = out@;
        out.append(cands[k].name.as_str());
        proof {
            let t1 = cs.take(k as int);
            let t2 = cs.take(k + 1);
            assert(t2.drop_last() =~= t1);
            assert(t2.last() == cs[k as int]);
            assert(cs[k as int].name == cands@[k as int]@.name);
            if k == 0 {
                assert(joined_names(t2) == cs[0].name);
                assert(out@ =~= head + joined_names(t2));
            } else {
                assert(joined_names(t2) == joined_names(t1) + "\n"@ + cs[k as int].name);
                assert(out@ =~= head + joined_names(t2));
            }
        }
        k = k + 1;
    }
    proof {
        assert(cs.take(cs.len() as int) =~= cs);
        assert(out@ =~= choose_text(cs));
    }
    out
}

/// The index that an in-order scan of the first `n` candidates settles on:
/// the first candidate whose score against the lowercased guess `gl` is
/// strictly greater than every earlier one's. Ties keep the earlier
/// candidate, so for a sorted candidate list the winner among equals is
/// the lexicographically first.
pub open spec fn spec_best_upto(cs: Seq<CandidateView>, gl: Seq<char>, n: int) -> int
    decreases n,
{
    if n <= 1 {
        0
    } else {
        let b = spec_best_upto(cs, gl, n - 1);
        if spec_score_gt(spec_score(gl, cs[n - 1].name), spec_score(gl, cs[b].name)) {
            n - 1
        } else {
            b
        }
    }
}

/// The candidate a guess selects for scoring purposes.
pub open spec fn spec_best(cs: Seq<CandidateView>, gl: Seq<char>) -> int {
    spec_best_upto(cs, gl, cs.len() as int)
}

/// The scan of [`spec_best_upto`] really finds a maximum: its index is in
/// range, no scanned candidate scores higher, and every candidate before
/// the chosen one scores strictly lower (so among equally scored
/// candidates the first in list order is kept).
pub proof fn lemma_best_upto_is_max(cs: Seq<CandidateView>, gl: Seq<char>, n: int)
    requires
        1 <= n <= cs.len(),
    ensures
        0 <= spec_best_upto(cs, gl, n) < n,
        forall|j: int|
            0 <= j < n ==> !spec_score_gt(
                spec_score(gl, #[trigger] cs[j].name),
                spec_score(gl, cs[spec_best_upto(cs, gl, n)].name),
            ),
        forall|j: int|
            0 <= j < spec_best_upto(cs, gl, n) ==> spec_score_gt(
                spec_score(gl, cs[spec_best_upto(cs, gl, n)].name),
                spec_score(gl, #[trigger] cs[j].name),
            ),
    decreases n,
{
    if n > 1 {
        lemma_best_upto_is_max(cs, gl, n - 1);
        let b0 = spec_best_upto(cs, gl, n - 1);
        let sb0 = spec_score(gl, cs[b0].name);
        let sn = spec_score(gl, cs[n - 1].name);
        lemma_spec_score_wf(gl, cs[b0].name);
        lemma_spec_score_wf(gl, cs[n - 1].name);
        if spec_score_gt(sn, sb0) {
            assert forall|j: int| 0 <= j < n - 1 implies spec_score_gt(
                sn,
                spec_score(gl, #[trigger] cs[j].name),
            ) by {
                lemma_spec_score_wf(gl, cs[j].name);
                lemma_score_gt_dominates(sn, sb0, spec_score(gl, cs[j].name));
            }
        }
    }
}

/// Disambiguation law, selection half: while a user is choosing among
/// stored candidates, the candidate the machine holds the guess against is
/// a best-scoring one — no candidate scores strictly higher, and among
/// equally scored candidates the first in list order is held to. Whether
/// it is then relayed to is exactly whether its score is accepted (see
/// [`Session::process`]).
pub proof fn lemma_best_is_max(cs: Seq<CandidateView>, gl: Seq<char>)
    requires
        cs.len() > 0,
    ensures
        0 <= spec_best(cs, gl) < cs.len(),
        forall|j: int|
            0 <= j < cs.len() ==> !spec_score_gt(
                spec_score(gl, #[trigger] cs[j].name),
                spec_score(gl, cs[spec_best(cs, gl)].name),
            ),
        forall|j: int|
            0 <= j < spec_best(cs, gl) ==> spec_score_gt(
                spec_score(gl, cs[spec_best(cs, gl)].name),
                spec_score(gl, #[trigger] cs[j].name),
            ),
{
    lemma_best_upto_is_max(cs, gl, cs.len() as int);
}

/// Disambiguation law, rejection half: when no candidate's score against
/// the guess is accepted, the best candidate's is not either, so the
/// machine asks for clarification and leaves the stage unchanged (see
/// [`Session::process`]).
pub proof fn lemma_below_threshold_clarifies(cs: Seq<CandidateView>, gl: Seq<char>)
    requires
        cs.len() > 0,
        forall|j: int|
            0 <= j < cs.len() ==> !spec_accepted(spec_score(gl, #[trigger] cs[j].name)),
    ensures
        !spec_accepted(spec_score(gl, cs[spec_best(cs, gl)].name)),
{
    lemma_best_is_max(cs, gl);
}

/// Idle-timeout law: when more than the idle timeout separates a message
/// from the session's last activity, the message is handled as if the
/// stage were the default one, whatever stage was stored.
pub proof fn lemma_idle_timeout(s: SessionView, now: int)
    requires
        spec_idle_expired(s.last_activity, now),
    ensures
        spec_effective_stage(s, now) is Default,
{
}

/// The decision is the clarification request, with no stage change.
pub open spec fn spec_clarify(d: Decision) -> bool {
    &&& d matches Decision::Reply { messages, next } && messages@.len() == 1 && messages@[0]@
        == CLARIFICATION@ && next is None
}

/// What the machine decides in the default stage, given the relay
/// candidates `cs` for the message `msg`.
pub open spec fn spec_default_outcome(
    cs: Seq<CandidateView>,
    msg: MessageView,
    d: Decision,
    new_stage: StageView,
    eff: StageView,
) -> bool {
    if cs.len() == 0 {
        &&& d is Ignore
        &&& new_stage is Default
    } else if cs.len() == 1 {
        &&& d matches Decision::StartRelay { request } && request@.guild_name == cs[0].name
            && request@.config == cs[0].config && request@.message == msg
        &&& new_stage == eff
    } else {
        &&& d matches Decision::Reply { messages, next } && messages@.len() == 2 && messages@[0]@
            == GREETING@ && messages@[1]@ == choose_text(cs) && (next matches Some(st) && st@
            == (StageView::ChoosingGuild { original: msg, candidates: cs }))
        &&& new_stage == eff
    }
}

/// What the machine decides while the user is choosing a server: their
/// message is a guess at one of the stored candidates' names; the best
/// match wins if it is similar enough, otherwise clarification is asked
/// for and nothing changes.
pub open spec fn spec_choosing_outcome(
    cs: Seq<CandidateView>,
    original: MessageView,
    msg: MessageView,
    d: Decision,
) -> bool {
    if cs.len() == 0 {
        spec_clarify(d)
    } else {
        let gl = lower_of(msg.content);
        let b = spec_best(cs, gl);
        if spec_accepted(spec_score(gl, cs[b].name)) {
            d matches Decision::StartRelay { request } && request@.guild_name == cs[b].name
                && request@.config == cs[b].config && request@.message == original
        } else {
            spec_clarify(d)
        }
    }
}

/// Only private messages that the bot did not send itself are handled.
pub open spec fn spec_guard(msg: MessageView, bot_id: u64, is_private: bool) -> bool {
    is_private && msg.author_id != bot_id
}

/// Whether handling this message requires the shared-guild candidate list:
/// it does exactly when the effective stage is the default one, or a
/// cooldown that has run out.
pub open spec fn spec_needs_candidates(
    s: SessionView,
    msg: MessageView,
    bot_id: u64,
    is_private: bool,
    now: int,
) -> bool {
    spec_guard(msg, bot_id, is_private) && match spec_effective_stage(s, now) {
        StageView::Default => true,
        StageView::ChoosingGuild { .. } => false,
        StageView::Cooldown { until } => until <= now,
    }
}

/// Decides [`spec_idle_expired`] on concrete times.
fn idle_expired(last_activity: i64, now: i64) -> (r: bool)
    ensures
        r == spec_idle_expired(last_activity as int, now as int),
{
    (last_activity as i128) + (IDLE_TIMEOUT_SECS as i128) < (now as i128)
}

/// The clarification decision.
fn clarify_decision() -> (d: Decision)
    ensures
        spec_clarify(d),
{
    let mut messages: Vec<String> = Vec::new();
    messages.push(String::from_str(CLARIFICATION));
    Decision::Reply { messages, next: None }
}

impl Session {
    /// Whether the shell must look up the shared-guild candidate list
    /// before handing this message to [`Session::process`].
    pub fn needs_candidates(
        &self,
        msg: &InboundMessage,
        now: i64,
        is_private: bool,
        bot_id: u64,
    ) -> (r: bool)
        ensures
            r == spec_needs_candidates(self@, msg@, bot_id, is_private, now as int),
    {
        if !is_private || msg.author_id == bot_id {
            return false;
        }
        let idle = idle_expired(self.last_activity, now);
        if idle {
            return true;
        }
        match &self.stage {
            Stage::Default => true,
            Stage::ChoosingGuild { .. } => false,
            Stage::Cooldown { until } => *until <= now,
        }
    }

    /// Handles one inbound message at time `now` (seconds since the Unix
    /// epoch): applies the idle timeout, records the message's timestamp
    /// as the session's last activity, and decides on the reply, relay or
    /// silence the message calls for. `candidates` must be the
    /// shared-guild candidate list exactly when
    /// [`Session::needs_candidates`] says so.
    pub fn process(
        &mut self,
        msg: InboundMessage,
        now: i64,
        is_private: bool,
        bot_id: u64,
        candidates: Option<Vec<Candidate>>,
    ) -> (d: Decision)
        requires
            candidates is Some <==> spec_needs_candidates(
                old(self)@,
                msg@,
                bot_id,
                is_private,
                now as int,
            ),
        ensures
            !spec_guard(msg@, bot_id, is_private) ==> d is NoOp && final(self)@ == old(self)@,
            spec_guard(msg@, bot_id, is_private) ==> {
                let eff = spec_effective_stage(old(self)@, now as int);
                &&& final(self)@.last_activity == msg@.timestamp
                &&& match eff {
                    StageView::Default => spec_default_outcome(
                        views_of((candidates->0)@),
                        msg@,
                        d,
                        final(self)@.stage,
                        eff,
                    ),
                    StageView::ChoosingGuild { original, candidates: cs } => {
                        &&& spec_choosing_outcome(cs, original, msg@, d)
                        &&& final(self)@.stage == eff
                    },
                    StageView::Cooldown { until } => {
                        if now < until {
                            &&& d matches Decision::Reply { messages, next } && messages@.len()
                                == 1 && messages@[0]@ == wait_notice_text((until - now) as nat)
                                && next is None
                            &&& final(self)@.stage == eff
                        } else {
                            spec_default_outcome(
                                views_of((candidates->0)@),
                                msg@,
                                d,
                                final(self)@.stage,
                                eff,
                            )
                        }
                    },
                }
            },
    {
        if !is_private || msg.author_id == bot_id {
            return Decision::NoOp;
        }
        if idle_expired(self.last_activity, now) {
            self.stage = Stage::Default;
        }
        self.last_activity = msg.timestamp;

        match &self.stage {
            Stage::ChoosingGuild { original, candidates: stored } => {
                let ghost cs = views_of(stored@);
                if stored.len() == 0 {
                    return clarify_decision();
                }
                let gl = lower_guess(msg.content.as_str());
                let mut best: usize = 0;
                let mut best_score: Score = score_against(&gl, stored[0].name.as_str());
                let mut k: usize = 1;
                while k < stored.len()
                    invariant
                        1 <= k <= stored@.len(),
                        best < k,
                        cs == views_of(stored@),
                        cs.len() == stored@.len(),
                        gl@ == lower_of(msg@.content),
                        best_score == spec_score(gl@, cs[best as int].name),
                        best as int == spec_best_upto(cs, gl@, k as int),
                    decreases stored@.len() - k,
                {
                    let sc = score_against(&gl, stored[k].name.as_str());
                    if score_gt(sc, best_score) {
                        best = k;
                        best_score = sc;
                    }
                    k = k + 1;
                }
                if accepted(best_score) {
                    let request = RelayRequest {
                        guild_name: stored[best].name.clone(),
                        config: stored[best].config.duplicate(),
                        message: original.duplicate(),
                    };
                    Decision::StartRelay { request }
                } else {
                    clarify_decision()
                }
            },
            _ => {
                let until_active: Option<i64> = match &self.stage {
                    Stage::Cooldown { until } => Some(*until),
                    _ => None,
                };
                if let Some(until) = until_active {
                    if now < until {
                        let remaining_wide: i128 = (until as i128) - (now as i128);
                        let remaining: u64 = remaining_wide as u64;
                        let mut messages: Vec<String> = Vec::new();
                        messages.push(wait_notice(remaining));
                        return Decision::Reply { messages, next: None };
                    }
                }
                // default behavior: pick among the shared moderated servers
                let mut cands: Vec<Candidate> = match candidates {
                    Some(c) => c,
                    None => vstd::pervasive::unreached(),
                };
                if cands.len() == 0 {
                    self.stage = Stage::Default;
                    return Decision::Ignore;
                }
                if cands.len() == 1 {
                    let c = match cands.pop() {
                        Some(c) => c,
                        None => vstd::pervasive::unreached(),
                    };
                    let request = RelayRequest {
                        guild_name: c.name,
                        config: c.config,
                        message: msg,
                    };
                    return Decision::StartRelay { request };
                }
                let listing = choose_message(&cands);
                let mut messages: Vec<String> = Vec::new();
                messages.push(String::from_str(GREETING));
                messages.push(listing);
                let next = Stage::ChoosingGuild { original: msg, candidates: cands };
                Decision::Reply { messages, next: Some(next) }
            },
        }
    }
}

} // verus!

