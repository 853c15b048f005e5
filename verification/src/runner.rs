//! The sub-agent runner, as the orchestrator sees it: the progress events it
//! emits at every step boundary, the single terminal event it emits when its
//! agent is done, and the conversion of its captured transcript into an
//! outcome. The driving of the embedded agent itself (stepping its state
//! machine, awaiting model and tool completions) belongs to the caller; this
//! model is what guarantees that every runner contributes exactly one
//! terminal event to the progress stream.

use vstd::prelude::*;
use vstd::string::StrSliceExecFns;

use vstd::utf8::decode_utf8;
use vstd::utf8::valid_utf8;

use crate::aggregate::AgentOutcome;
use crate::io_traits::BufferedIO;
use crate::summary::extract_spec;
use crate::summary::find_marker;
use crate::summary::has_marker;
use crate::text::trim_str;

verus! {

/// A progress message from one runner: the agent it concerns, its current
/// human-readable status, and its resource usage so far.
pub struct StatusUpdate {
    pub agent_id: usize,
    pub status: String,
    pub tokens_used: usize,
}

/// The status text that marks an agent's terminal progress event.
pub open spec fn terminal_status() -> Seq<char> {
    "Agent finished"@
}

/// Whether a progress event is the terminal one for its agent.
pub open spec fn is_terminal(u: StatusUpdate) -> bool {
    u.status@ == terminal_status()
}

/// How many terminal events a stream of progress events holds.
pub open spec fn terminal_count(evs: Seq<StatusUpdate>) -> nat
    decreases evs.len(),
{
    if evs.len() == 0 {
        0
    } else {
        terminal_count(evs.drop_last()) + (if is_terminal(evs.last()) {
            1nat
        } else {
            0nat
        })
    }
}

/// One sub-agent runner, tracking whether its terminal event has been
/// emitted, with the events emitted so far kept as a ghost trace.
pub struct SubAgentRunner {
    pub agent_id: usize,
    pub finished: bool,
    pub trace: Ghost<Seq<StatusUpdate>>,
}

impl SubAgentRunner {
    /// The runner's invariant: all emitted events carry its agent id, and
    /// the trace holds exactly one terminal event once it has finished and
    /// none before.
    pub open spec fn well_formed(self) -> bool {
        &&& terminal_count(self.trace@) == if self.finished {
            1nat
        } else {
            0nat
        }
        &&& forall|k: int| 0 <= k < self.trace@.len() ==> self.trace@[k].agent_id == self.agent_id
    }

    /// A fresh runner for one agent: nothing emitted yet.
    pub fn new(agent_id: usize) -> (r: Self)
        ensures
            r.well_formed(),
            r.agent_id == agent_id,
            !r.finished,
            r.trace@ == Seq::<StatusUpdate>::empty(),
    {
        SubAgentRunner { agent_id, finished: false, trace: Ghost(Seq::empty()) }
    }

    /// The progress event emitted after one step of the embedded agent, from
    /// the agent's current status and resource usage. The status of an
    /// ordinary step is never the terminal text: the terminal event comes
    /// once, from `finish_event`.
    pub fn step_event(&mut self, status: String, tokens_used: usize) -> (ev: StatusUpdate)
        requires
            old(self).well_formed(),
            !old(self).finished,
            status@ != terminal_status(),
        ensures
            final(self).well_formed(),
            !final(self).finished,
            final(self).agent_id == old(self).agent_id,
            ev == (StatusUpdate { agent_id: old(self).agent_id, status, tokens_used }),
            final(self).trace@ == old(self).trace@.push(ev),
    {
        let ev = StatusUpdate { agent_id: self.agent_id, status, tokens_used };
        proof {
            assert(old(self).trace@.push(ev).drop_last() =~= old(self).trace@);
        }
        self.trace = Ghost(self.trace@.push(
            StatusUpdate { agent_id: ev.agent_id, status: ev.status, tokens_used: ev.tokens_used },
        ));
        ev
    }

    /// The terminal progress event, emitted exactly once per runner, with
    /// the last known resource usage, whether the run succeeded or failed.
    pub fn finish_event(&mut self, tokens_used: usize) -> (ev: StatusUpdate)
        requires
            old(self).well_formed(),
            !old(self).finished,
        ensures
            final(self).well_formed(),
            final(self).finished,
            final(self).agent_id == old(self).agent_id,
            ev.agent_id == old(self).agent_id,
            is_terminal(ev),
            ev.tokens_used == tokens_used,
            final(self).trace@ == old(self).trace@.push(ev),
            terminal_count(final(self).trace@) == 1,
    {
        let ev = StatusUpdate {
            agent_id: self.agent_id,
            status: "Agent finished".to_owned(),
            tokens_used,
        };
        proof {
            assert(old(self).trace@.push(ev).drop_last() =~= old(self).trace@);
        }
        self.trace = Ghost(self.trace@.push(
            StatusUpdate { agent_id: ev.agent_id, status: ev.status, tokens_used: ev.tokens_used },
        ));
        self.finished = true;
        ev
    }
}

/// Turn a runner's captured transcript and the result of its step sequence
/// into the agent's outcome: a found summary wins even over a failed step
/// sequence; with no marker, a successful run reports the whole transcript
/// and a failed one reports its error.
pub fn runner_outcome(transcript: &str, step_result: Result<(), String>) -> (r: AgentOutcome)
    ensures
        has_marker(transcript@) ==> (r matches AgentOutcome::Success(s) && s@ == extract_spec(
            transcript@,
        )),
        !has_marker(transcript@) && step_result is Ok ==> (r matches AgentOutcome::Success(s) && s@
            == transcript@),
        (!has_marker(transcript@) && step_result is Err) ==> (r matches AgentOutcome::Failure(m)
            && m@ == step_result->Err_0@),
{
    match find_marker(transcript) {
        Some((i, j)) => {
            let content = transcript.substring_char(i + 9, j);
            AgentOutcome::Success(trim_str(content))
        },
        None => {
            match step_result {
                Ok(()) => AgentOutcome::Success(transcript.to_owned()),
                Err(e) => AgentOutcome::Failure(e),
            }
        },
    }
}

/// Relies on `core::str::from_utf8`: it succeeds exactly on valid UTF-8 and
/// returns the text those bytes encode.
#[verifier::external_body]
fn transcript_text(buffer: &Vec<u8>) -> (r: Result<String, String>)
    ensures
        r is Ok <==> valid_utf8(buffer@),
        r matches Ok(s) ==> s@ == decode_utf8(buffer@),
{
    match core::str::from_utf8(buffer.as_slice()) {
        Ok(s) => Ok(s.to_owned()),
        Err(e) => Err(format!("{}", e)),
    }
}

/// Read the capture sink a runner's agent wrote to and turn it into the
/// agent's outcome. A failure to write the per-agent diagnostic file is a
/// runner failure even when the transcript holds a summary marker, as is a
/// transcript that is not text, or a failed step sequence whose transcript
/// holds no marker.
pub fn capture_outcome(
    sink: &BufferedIO,
    log_result: Result<(), String>,
    step_result: Result<(), String>,
) -> (r: AgentOutcome)
    ensures
        log_result is Err ==> (r matches AgentOutcome::Failure(m) && m@
            == log_result->Err_0@),
        (log_result is Ok && valid_utf8(sink.buffer@) && has_marker(
            decode_utf8(sink.buffer@),
        )) ==> (r matches AgentOutcome::Success(s) && s@ == extract_spec(
            decode_utf8(sink.buffer@),
        )),
        (log_result is Ok && valid_utf8(sink.buffer@) && !has_marker(decode_utf8(sink.buffer@))
            && step_result is Ok) ==> (r matches AgentOutcome::Success(s) && s@ == decode_utf8(
            sink.buffer@,
        )),
        (log_result is Ok && valid_utf8(sink.buffer@) && !has_marker(decode_utf8(sink.buffer@))
            && step_result is Err) ==> (r matches AgentOutcome::Failure(m) && m@
            == step_result->Err_0@),
        (log_result is Ok && !valid_utf8(sink.buffer@)) ==> r is Failure,
{
    if let Err(m) = log_result {
        return AgentOutcome::Failure(m);
    }
    match transcript_text(&sink.buffer) {
        Ok(t) => runner_outcome(t.as_str(), step_result),
        Err(m) => AgentOutcome::Failure(m),
    }
}

/// The events one runner has emitted by the time it is done hold exactly one
/// terminal event. Extended over a whole run: if every event of a progress
/// stream comes from one of `n` runners, and each runner's own events hold
/// exactly one terminal, the stream holds exactly `n` terminal events.
pub open spec fn events_of(evs: Seq<StatusUpdate>, id: int) -> Seq<StatusUpdate>
    decreases evs.len(),
{
    if evs.len() == 0 {
        Seq::<StatusUpdate>::empty()
    } else if evs.last().agent_id == id {
        events_of(evs.drop_last(), id).push(evs.last())
    } else {
        events_of(evs.drop_last(), id)
    }
}

/// The terminal events of the first `n` agents, added up.
pub open spec fn sum_terminals(evs: Seq<StatusUpdate>, n: int) -> nat
    decreases n,
{
    if n <= 0 {
        0
    } else {
        sum_terminals(evs, n - 1) + terminal_count(events_of(evs, n - 1))
    }
}

proof fn lemma_sum_terminals_step(evs: Seq<StatusUpdate>, n: int)
    requires
        evs.len() > 0,
    ensures
        sum_terminals(evs, n) == sum_terminals(evs.drop_last(), n) + (if 0 <= evs.last().agent_id
            < n && is_terminal(evs.last()) {
            1nat
        } else {
            0nat
        }),
    decreases n,
{
    if n > 0 {
        lemma_sum_terminals_step(evs, n - 1);
        if evs.last().agent_id == n - 1 {
            let prior = events_of(evs.drop_last(), n - 1);
            assert(events_of(evs, n - 1) == prior.push(evs.last()));
            assert(prior.push(evs.last()).drop_last() =~= prior);
        }
    }
}

/// A progress stream whose events all come from agents `0..n` holds as many
/// terminal events as the per-agent sub-streams together.
pub proof fn lemma_terminal_partition(evs: Seq<StatusUpdate>, n: int)
    requires
        forall|i: int| 0 <= i < evs.len() ==> 0 <= #[trigger] evs[i].agent_id < n,
    ensures
        terminal_count(evs) == sum_terminals(evs, n),
    decreases evs.len(),
{
    if evs.len() == 0 {
        lemma_sum_terminals_empty(evs, n);
    } else {
        assert(forall|i: int|
            0 <= i < evs.drop_last().len() ==> 0 <= #[trigger] evs.drop_last()[i].agent_id < n);
        lemma_terminal_partition(evs.drop_last(), n);
        lemma_sum_terminals_step(evs, n);
    }
}

proof fn lemma_sum_terminals_empty(evs: Seq<StatusUpdate>, n: int)
    requires
        evs.len() == 0,
    ensures
        sum_terminals(evs, n) == 0,
    decreases n,
{
    if n > 0 {
        lemma_sum_terminals_empty(evs, n - 1);
    }
}

/// For any number of agents `n`, a progress stream in which every event
/// belongs to one of the `n` runners and every runner's own events hold
/// exactly one terminal event holds exactly `n` terminal events in all: the
/// orchestrator observes one "finished" line per agent, no more, no fewer.
pub proof fn lemma_exactly_n_terminals(evs: Seq<StatusUpdate>, n: int)
    requires
        n >= 0,
        forall|i: int| 0 <= i < evs.len() ==> 0 <= #[trigger] evs[i].agent_id < n,
        forall|k: int| 0 <= k < n ==> terminal_count(#[trigger] events_of(evs, k)) == 1,
    ensures
        terminal_count(evs) == n,
{
    lemma_terminal_partition(evs, n);
    lemma_sum_terminals_ones(evs, n);
}

proof fn lemma_sum_terminals_ones(evs: Seq<StatusUpdate>, n: int)
    requires
        n >= 0,
        forall|k: int| 0 <= k < n ==> terminal_count(#[trigger] events_of(evs, k)) == 1,
    ensures
        sum_terminals(evs, n) == n,
    decreases n,
{
    if n > 0 {
        lemma_sum_terminals_ones(evs, n - 1);
    }
}

} // verus!
