//! The orchestrator loop's state machine. The loop itself waits on whichever
//! arrives first — a runner's result or a progress event — and hands each to
//! the matching method here; the methods account for completions, keep the
//! status board, and decide how the board block is redrawn: the very first
//! draw is appended, every later one homes the cursor to the top of the
//! previous block (three display lines per agent) and overwrites it whole.

use vstd::prelude::*;
use vstd::string::StringExecFns;

use crate::agent::profile_name;
use crate::agent::SubAgent;
use crate::aggregate::AgentOutcome;
use crate::runner::StatusUpdate;
use crate::text::dec_chars;
use crate::text::lemma_newline_count_concat;
use crate::text::newline_count;
use crate::text::usize_to_string;

verus! {

/// A text with no line break in it: one display line.
pub open spec fn single_line(s: Seq<char>) -> bool {
    forall|k: int| 0 <= k < s.len() ==> s[k] != '\n'
}

/// The first display line of one board row: the agent's name and profile.
pub open spec fn row_name_line(a: SubAgent) -> Seq<char> {
    "  \u{2022} "@ + a.agent_display_name@ + " ("@ + profile_name(a) + ")"@
}

/// The second display line of one board row: its latest status and usage.
pub open spec fn row_status_line(status: Seq<char>, tokens: nat) -> Seq<char> {
    "    "@ + status + " - "@ + dec_chars(tokens) + " tokens used"@
}

/// One board row: name line, status line, blank separator — three display
/// lines per agent.
pub open spec fn board_row(a: SubAgent, status: Seq<char>, tokens: nat) -> Seq<char> {
    row_name_line(a) + "\n"@ + row_status_line(status, tokens) + "\n"@ + "\n"@
}

/// The whole board block: one row per agent, in agent-id order, always
/// recomputed from the current snapshot, never a partial diff.
pub open spec fn board_text(agents: Seq<SubAgent>, rows: Seq<(String, usize)>) -> Seq<char>
    decreases agents.len(),
{
    if agents.len() == 0 || rows.len() == 0 {
        Seq::<char>::empty()
    } else {
        board_row(agents[0], rows[0].0@, rows[0].1 as nat) + board_text(
            agents.drop_first(),
            rows.drop_first(),
        )
    }
}

/// The spinner text shown while some agents are still running.
pub open spec fn progress_message(completed: nat, total: nat) -> Seq<char> {
    "Progress: "@ + dec_chars(completed) + "/"@ + dec_chars(total) + " agents complete"@
}

/// Render the spinner text for `completed` of `total` agents done.
pub fn progress_text(completed: usize, total: usize) -> (r: String)
    ensures
        r@ == progress_message(completed as nat, total as nat),
{
    let mut s = "Progress: ".to_owned();
    let c = usize_to_string(completed);
    s.append(c.as_str());
    s.append("/");
    let t = usize_to_string(total);
    s.append(t.as_str());
    s.append(" agents complete");
    s
}

/// Render the full board block from the current snapshot.
pub fn render_board(agents: &Vec<SubAgent>, rows: &Vec<(String, usize)>) -> (r: String)
    requires
        agents@.len() == rows@.len(),
    ensures
        r@ == board_text(agents@, rows@),
{
    let mut s = String::new();
    let mut i: usize = 0;
    proof {
        assert(agents@.skip(0) =~= agents@);
        assert(rows@.skip(0) =~= rows@);
        assert(s@ + board_text(agents@, rows@) =~= board_text(agents@, rows@));
    }
    while i < agents.len()
        invariant
            agents@.len() == rows@.len(),
            0 <= i <= agents@.len(),
            s@ + board_text(agents@.skip(i as int), rows@.skip(i as int)) == board_text(
                agents@,
                rows@,
            ),
        decreases agents@.len() - i,
    {
        let ghost pre = s@;
        let agent = &agents[i];
        s.append("  \u{2022} ");
        s.append(agent.agent_display_name.as_str());
        s.append(" (");
        match &agent.agent_cli_name {
            Some(name) => s.append(name.as_str()),
            None => s.append("Default"),
        }
        s.append(")");
        s.append("\n");
        s.append("    ");
        s.append(rows[i].0.as_str());
        s.append(" - ");
        let tok = usize_to_string(rows[i].1);
        s.append(tok.as_str());
        s.append(" tokens used");
        s.append("\n");
        s.append("\n");
        proof {
            assert(agents@.skip(i as int)[0] == agents@[i as int]);
            assert(rows@.skip(i as int)[0] == rows@[i as int]);
            assert(agents@.skip(i as int).drop_first() =~= agents@.skip(i as int + 1));
            assert(rows@.skip(i as int).drop_first() =~= rows@.skip(i as int + 1));
            assert(s@ =~= pre + board_row(
                agents@[i as int],
                rows@[i as int].0@,
                rows@[i as int].1 as nat,
            ));
            assert(s@ + board_text(agents@.skip(i as int + 1), rows@.skip(i as int + 1)) =~= pre
                + board_text(agents@.skip(i as int), rows@.skip(i as int)));
        }
        i = i + 1;
    }
    proof {
        assert(agents@.skip(agents@.len() as int) =~= Seq::<SubAgent>::empty());
        assert(s@ + board_text(
            agents@.skip(agents@.len() as int),
            rows@.skip(agents@.len() as int),
        ) =~= s@);
    }
    s
}

/// How the display is updated after a progress event: the freshly rendered
/// board block, and whether (and by how many lines) the cursor first moves
/// up to overwrite the block printed before.
pub struct BoardRedraw {
    pub overwrite: bool,
    pub lines_up: usize,
    pub text: String,
}

/// Where the orchestrator stands: spawning runners, waiting on events, or
/// finished with all results in hand.
#[derive(Debug, PartialEq, Eq, Structural)]
pub enum OrchestratorPhase {
    Launching,
    Running,
    Done,
}

/// The orchestrator's state for one launch request: the agent roster, the
/// status board, the outcomes collected so far, and the redraw bookkeeping.
pub struct Orchestrator {
    pub agents: Vec<SubAgent>,
    pub board: Vec<(String, usize)>,
    pub results: Vec<AgentOutcome>,
    pub completed: usize,
    pub first_print: bool,
    pub phase: OrchestratorPhase,
    pub observed: Ghost<Seq<StatusUpdate>>,
}

impl Orchestrator {
    /// The orchestrator's invariant: one board row per agent, one collected
    /// result per completion, and `Done` exactly when every runner's result
    /// has been collected.
    pub open spec fn well_formed(self) -> bool {
        &&& self.board@.len() == self.agents@.len()
        &&& self.results@.len() == self.completed
        &&& self.completed <= self.agents@.len()
        &&& 3 * self.agents@.len() <= usize::MAX
        &&& (self.phase == OrchestratorPhase::Done <==> self.completed == self.agents@.len()
            && self.phase != OrchestratorPhase::Launching)
    }

    /// Begin a launch request: every agent's row starts as "Launching
    /// agent..." with no usage, nothing is completed, and the first board
    /// draw is still to come.
    pub fn new(agents: Vec<SubAgent>) -> (r: Orchestrator)
        requires
            3 * agents@.len() <= usize::MAX,
        ensures
            r.well_formed(),
            r.phase == OrchestratorPhase::Launching,
            r.agents == agents,
            r.completed == 0,
            r.first_print,
            r.results@ == Seq::<AgentOutcome>::empty(),
            r.observed@ == Seq::<StatusUpdate>::empty(),
            forall|i: int|
                0 <= i < r.board@.len() ==> r.board@[i].0@ == "Launching agent..."@
                    && r.board@[i].1 == 0,
    {
        let n = agents.len();
        let mut board: Vec<(String, usize)> = Vec::new();
        let mut i: usize = 0;
        while i < n
            invariant
                0 <= i <= n,
                board@.len() == i,
                forall|k: int|
                    0 <= k < i ==> board@[k].0@ == "Launching agent..."@ && board@[k].1 == 0,
            decreases n - i,
        {
            board.push(("Launching agent...".to_owned(), 0));
            i = i + 1;
        }
        Orchestrator {
            agents,
            board,
            results: Vec::new(),
            completed: 0,
            first_print: true,
            phase: OrchestratorPhase::Launching,
            observed: Ghost(Seq::empty()),
        }
    }

    /// All runners are spawned; the loop begins waiting on events.
    pub fn runners_spawned(&mut self)
        requires
            old(self).well_formed(),
            old(self).phase == OrchestratorPhase::Launching,
        ensures
            final(self).well_formed(),
            *final(self) == (Orchestrator {
                phase: if old(self).completed == old(self).agents@.len() {
                    OrchestratorPhase::Done
                } else {
                    OrchestratorPhase::Running
                },
                ..*old(self)
            }),
    {
        if self.completed == self.agents.len() {
            self.phase = OrchestratorPhase::Done;
        } else {
            self.phase = OrchestratorPhase::Running;
        }
    }

    /// Account for one runner's result: collect the outcome, bump the
    /// completion count, move to `Done` when it was the last, and hand back
    /// the spinner text to show.
    pub fn on_runner_result(&mut self, outcome: AgentOutcome) -> (msg: String)
        requires
            old(self).well_formed(),
            old(self).phase == OrchestratorPhase::Running,
        ensures
            final(self).well_formed(),
            final(self).results@ == old(self).results@.push(outcome),
            final(self).completed == old(self).completed + 1,
            final(self).phase == (if old(self).completed + 1 == old(self).agents@.len() {
                OrchestratorPhase::Done
            } else {
                OrchestratorPhase::Running
            }),
            final(self).agents == old(self).agents,
            final(self).board == old(self).board,
            final(self).first_print == old(self).first_print,
            final(self).observed == old(self).observed,
            msg@ == progress_message((old(self).completed + 1) as nat, old(self).agents@.len()),
    {
        self.results.push(outcome);
        self.completed = self.completed + 1;
        if self.completed == self.agents.len() {
            self.phase = OrchestratorPhase::Done;
        }
        progress_text(self.completed, self.agents.len())
    }

    /// Account for one progress event: update that agent's board row (an
    /// unknown agent id leaves the board unchanged), and return the redraw —
    /// the whole freshly rendered block, appended on the very first draw and
    /// overwriting the previous block (three lines per agent) on every later
    /// one.
    pub fn on_progress(&mut self, ev: StatusUpdate) -> (act: BoardRedraw)
        requires
            old(self).well_formed(),
            old(self).phase != OrchestratorPhase::Launching,
        ensures
            final(self).well_formed(),
            ev.agent_id < old(self).agents@.len() ==> final(self).board@ == old(
                self,
            ).board@.update(ev.agent_id as int, (ev.status, ev.tokens_used)),
            ev.agent_id >= old(self).agents@.len() ==> final(self).board@ == old(self).board@,
            act.overwrite == !old(self).first_print,
            act.lines_up == 3 * old(self).agents@.len(),
            act.text@ == board_text(final(self).agents@, final(self).board@),
            !final(self).first_print,
            final(self).observed@ == old(self).observed@.push(ev),
            final(self).agents == old(self).agents,
            final(self).results == old(self).results,
            final(self).completed == old(self).completed,
            final(self).phase == old(self).phase,
    {
        proof {
            self.observed@ = self.observed@.push(ev);
        }
        let overwrite = !self.first_print;
        self.first_print = false;
        if ev.agent_id < self.board.len() {
            self.board[ev.agent_id] = (ev.status, ev.tokens_used);
        }
        let text = render_board(&self.agents, &self.board);
        BoardRedraw { overwrite, lines_up: 3 * self.agents.len(), text }
    }

    /// The banner shown once every agent has completed.
    pub fn final_message(&self) -> (r: String)
        requires
            self.phase == OrchestratorPhase::Done,
        ensures
            r@ == "All agents have completed."@,
    {
        "All agents have completed.".to_owned()
    }
}

proof fn lemma_single_line_zero(s: Seq<char>)
    requires
        single_line(s),
    ensures
        newline_count(s) == 0,
    decreases s.len(),
{
    if s.len() > 0 {
        lemma_single_line_zero(s.drop_last());
    }
}

proof fn lemma_newline_single()
    ensures
        newline_count("\n"@) == 1,
{
    reveal_strlit("\n");
    assert(("\n"@).drop_last() =~= Seq::<char>::empty());
    assert(newline_count(Seq::<char>::empty()) == 0);
    assert(("\n"@).last() == '\n');
}

proof fn lemma_dec_chars_single_line(n: nat)
    ensures
        single_line(dec_chars(n)),
    decreases n,
{
    if n >= 10 {
        lemma_dec_chars_single_line(n / 10);
    }
}

/// One board row spans exactly three display lines, as long as the agent's
/// name, its profile and the status text are themselves single lines.
proof fn lemma_board_row_three_lines(a: SubAgent, status: Seq<char>, tokens: nat)
    requires
        single_line(a.agent_display_name@),
        single_line(profile_name(a)),
        single_line(status),
    ensures
        newline_count(board_row(a, status, tokens)) == 3,
{
    reveal_strlit("  \u{2022} ");
    reveal_strlit(" (");
    reveal_strlit(")");
    reveal_strlit("    ");
    reveal_strlit(" - ");
    reveal_strlit(" tokens used");
    lemma_dec_chars_single_line(tokens);
    assert(single_line("  \u{2022} "@));
    assert(single_line(" ("@));
    assert(single_line(")"@));
    assert(single_line("    "@));
    assert(single_line(" - "@));
    assert(single_line(" tokens used"@));
    lemma_newline_count_concat("  \u{2022} "@, a.agent_display_name@);
    lemma_newline_count_concat("  \u{2022} "@ + a.agent_display_name@, " ("@);
    lemma_newline_count_concat("  \u{2022} "@ + a.agent_display_name@ + " ("@, profile_name(a));
    lemma_newline_count_concat(
        "  \u{2022} "@ + a.agent_display_name@ + " ("@ + profile_name(a),
        ")"@,
    );
    lemma_single_line_zero("  \u{2022} "@);
    lemma_single_line_zero(a.agent_display_name@);
    lemma_single_line_zero(" ("@);
    lemma_single_line_zero(profile_name(a));
    lemma_single_line_zero(")"@);
    assert(newline_count(row_name_line(a)) == 0);
    lemma_newline_count_concat("    "@, status);
    lemma_newline_count_concat("    "@ + status, " - "@);
    lemma_newline_count_concat("    "@ + status + " - "@, dec_chars(tokens));
    lemma_newline_count_concat("    "@ + status + " - "@ + dec_chars(tokens), " tokens used"@);
    lemma_single_line_zero("    "@);
    lemma_single_line_zero(status);
    lemma_single_line_zero(" - "@);
    lemma_single_line_zero(dec_chars(tokens));
    lemma_single_line_zero(" tokens used"@);
    assert(newline_count(row_status_line(status, tokens)) == 0);
    lemma_newline_single();
    lemma_newline_count_concat(row_name_line(a), "\n"@);
    lemma_newline_count_concat(row_name_line(a) + "\n"@, row_status_line(status, tokens));
    lemma_newline_count_concat(
        row_name_line(a) + "\n"@ + row_status_line(status, tokens),
        "\n"@,
    );
    lemma_newline_count_concat(
        row_name_line(a) + "\n"@ + row_status_line(status, tokens) + "\n"@,
        "\n"@,
    );
}

/// The board block is a fixed-height text: exactly three display lines per
/// agent, whatever the rows currently say — as long as every agent name,
/// profile and status text is itself a single line.
pub proof fn lemma_board_fixed_height(agents: Seq<SubAgent>, rows: Seq<(String, usize)>)
    requires
        agents.len() == rows.len(),
        forall|i: int|
            0 <= i < agents.len() ==> single_line(#[trigger] agents[i].agent_display_name@)
                && single_line(profile_name(agents[i])),
        forall|i: int| 0 <= i < rows.len() ==> single_line(#[trigger] rows[i].0@),
    ensures
        newline_count(board_text(agents, rows)) == 3 * agents.len(),
    decreases agents.len(),
{
    if agents.len() > 0 {
        lemma_board_row_three_lines(agents[0], rows[0].0@, rows[0].1 as nat);
        lemma_newline_count_concat(
            board_row(agents[0], rows[0].0@, rows[0].1 as nat),
            board_text(agents.drop_first(), rows.drop_first()),
        );
        lemma_board_fixed_height(agents.drop_first(), rows.drop_first());
    }
}

} // verus!
