//! The launch request: the per-agent specification, its validation, the
//! nested-launch guard, the instructional wrapping of each agent's prompt,
//! the pre-launch roster text, and the per-runner setup values (a fresh
//! conversation identifier and the diagnostic file name derived from it).

use vstd::prelude::*;
use vstd::string::StrSliceExecFns;
use vstd::string::StringExecFns;

use crate::text::dec_chars;
use crate::text::is_blank;
use crate::text::is_blank_str;
use crate::text::usize_to_string;

verus! {

/// One agent to launch: a display name, the task prompt, a short summary of
/// the prompt for the roster, and an optional profile to run under.
#[derive(Debug, Clone)]
pub struct SubAgent {
    pub agent_display_name: String,
    pub prompt: String,
    pub prompt_summary: String,
    pub agent_cli_name: Option<String>,
}

/// A request to launch a set of agents in parallel.
#[derive(Debug, Clone)]
pub struct SubAgentWrapper {
    pub subagents: Vec<SubAgent>,
}

/// The instructional template appended to each agent's own prompt: it marks
/// the agent as a subordinate worker, forbids launching further sub-agents,
/// and requires the final report inside a `[SUMMARY]`..`[/SUMMARY]` block.
pub open spec fn prompt_template_tail() -> Seq<char> {
    ". SUBAGENT - You are a specialized instance delegated a task by your parent agent.
        SUBAGENT CONTEXT:
        - You are NOT the primary agent - you are a focused subprocess
        - Your parent agent is coordinating multiple subagents like you
        - Your role is to execute your specific task and report back with actionable intelligence
        - The parent agent depends on your detailed findings to make informed decisions
        - IMPORTANT: As a subagent, you are not allowed to use the launch_agent tool to avoid infinite recursion.
        
        CRITICAL REPORTING REQUIREMENTS:
        After completing your task, you MUST provide a DETAILED technical summary including:
        
        - Specific findings with concrete examples (file paths, code patterns, function names)
        - Actual implementation details and technical specifics
        - Quantifiable data (line counts, file sizes, performance metrics, etc.)
        - Key technical insights that directly inform the parent agent's next actions
        
        UNACCEPTABLE: Generic summaries like \"analyzed codebase\" or \"completed task\"
        REQUIRED: Specific technical intelligence that enables the parent agent to proceed effectively
        
        IMPORTANT: Execute your assigned subagent task, then provide your detailed technical report formatted as [SUMMARY] YOUR SUMMARY HERE [/SUMMARY]"@
}

/// Wrap an agent's prompt with the fixed instructional template.
pub fn wrap_prompt(prompt: &str) -> (r: String)
    ensures
        r@ == prompt@ + prompt_template_tail(),
{
    let mut s = prompt.to_owned();
    s.append(
        ". SUBAGENT - You are a specialized instance delegated a task by your parent agent.
        SUBAGENT CONTEXT:
        - You are NOT the primary agent - you are a focused subprocess
        - Your parent agent is coordinating multiple subagents like you
        - Your role is to execute your specific task and report back with actionable intelligence
        - The parent agent depends on your detailed findings to make informed decisions
        - IMPORTANT: As a subagent, you are not allowed to use the launch_agent tool to avoid infinite recursion.
        
        CRITICAL REPORTING REQUIREMENTS:
        After completing your task, you MUST provide a DETAILED technical summary including:
        
        - Specific findings with concrete examples (file paths, code patterns, function names)
        - Actual implementation details and technical specifics
        - Quantifiable data (line counts, file sizes, performance metrics, etc.)
        - Key technical insights that directly inform the parent agent's next actions
        
        UNACCEPTABLE: Generic summaries like \"analyzed codebase\" or \"completed task\"
        REQUIRED: Specific technical intelligence that enables the parent agent to proceed effectively
        
        IMPORTANT: Execute your assigned subagent task, then provide your detailed technical report formatted as [SUMMARY] YOUR SUMMARY HERE [/SUMMARY]",
    );
    s
}

/// The fixed text a launch request is answered with when it arrives while
/// already running as a sub-agent.
pub open spec fn rejection_text() -> Seq<char> {
    "Nested subagent launch prevented for performance reasons."@
}

/// The outcome of the launch entry check: either the fixed rejection text to
/// hand straight back to the caller (no runner is spawned), or the wrapped
/// prompt of every agent to launch, in request order.
pub enum LaunchDecision {
    Rejected(String),
    Launch(Vec<String>),
}

impl SubAgent {
    /// Non-empty prompt validation.
    pub fn validate(&self) -> (r: Result<(), String>)
        ensures
            r is Err <==> is_blank(self.prompt@),
            r matches Err(m) ==> m@ == "Prompt cannot be empty"@,
    {
        if is_blank_str(self.prompt.as_str()) {
            Err("Prompt cannot be empty".to_owned())
        } else {
            Ok(())
        }
    }
}

impl SubAgentWrapper {
    /// The decision at the launch entry. When the execution context is
    /// already marked as a sub-agent the whole request is rejected with the
    /// fixed text and zero runners; otherwise each requested agent gets its
    /// prompt wrapped with the instructional template, in request order.
    pub fn plan_launch(&self, nested: bool) -> (r: LaunchDecision)
        ensures
            nested ==> (r matches LaunchDecision::Rejected(m) && m@ == rejection_text()),
            !nested ==> (r matches LaunchDecision::Launch(prompts) && prompts@.len()
                == self.subagents@.len() && forall|i: int|
                0 <= i < prompts@.len() ==> prompts@[i]@ == self.subagents@[i].prompt@
                    + prompt_template_tail()),
    {
        if nested {
            return LaunchDecision::Rejected(
                "Nested subagent launch prevented for performance reasons.".to_owned(),
            );
        }
        let mut prompts: Vec<String> = Vec::new();
        let mut i: usize = 0;
        while i < self.subagents.len()
            invariant
                0 <= i <= self.subagents@.len(),
                prompts@.len() == i,
                forall|k: int|
                    0 <= k < i ==> prompts@[k]@ == self.subagents@[k].prompt@
                        + prompt_template_tail(),
            decreases self.subagents@.len() - i,
        {
            let p = wrap_prompt(self.subagents[i].prompt.as_str());
            prompts.push(p);
            i = i + 1;
        }
        LaunchDecision::Launch(prompts)
    }

    /// The pre-launch roster: a headline with the number of agents, a rule
    /// line, and one entry per agent with its name, profile and summary.
    pub fn queue_description(&self) -> (r: String)
        ensures
            r@ == description_spec(self.subagents@),
    {
        let mut s = "Launch ".to_owned();
        let n = usize_to_string(self.subagents.len());
        s.append(n.as_str());
        s.append(" Q agent(s) to perform tasks in parallel:\n\n");
        let mut d: usize = 0;
        while d < 50
            invariant
                0 <= d <= 50,
                s@ == "Launch "@ + dec_chars(self.subagents@.len())
                    + " Q agent(s) to perform tasks in parallel:\n\n"@ + Seq::new(
                    d as nat,
                    |i: int| '\u{2500}',
                ),
            decreases 50 - d,
        {
            s.append("\u{2500}");
            proof {
                reveal_strlit("\u{2500}");
                assert(s@ =~= "Launch "@ + dec_chars(self.subagents@.len())
                    + " Q agent(s) to perform tasks in parallel:\n\n"@ + Seq::new(
                    (d + 1) as nat,
                    |i: int| '\u{2500}',
                ));
            }
            d = d + 1;
        }
        s.append("\n\n");
        proof {
            assert(s@ =~= roster_header(self.subagents@.len()));
            assert(self.subagents@.skip(0) =~= self.subagents@);
            assert(s@ + roster_entries(self.subagents@.skip(0)) =~= description_spec(
                self.subagents@,
            ));
        }
        let mut i: usize = 0;
        while i < self.subagents.len()
            invariant
                0 <= i <= self.subagents@.len(),
                s@ + roster_entries(self.subagents@.skip(i as int)) == description_spec(
                    self.subagents@,
                ),
            decreases self.subagents@.len() - i,
        {
            let ghost pre = s@;
            let agent = &self.subagents[i];
            s.append("  \u{2022} ");
            s.append(agent.agent_display_name.as_str());
            s.append(" (");
            match &agent.agent_cli_name {
                Some(name) => s.append(name.as_str()),
                None => s.append("Default"),
            }
            s.append(")\n    ");
            s.append(agent.prompt_summary.as_str());
            s.append("\n\n");
            proof {
                assert(self.subagents@.skip(i as int)[0] == self.subagents@[i as int]);
                assert(self.subagents@.skip(i as int).drop_first() =~= self.subagents@.skip(
                    i as int + 1,
                ));
                assert(s@ =~= pre + roster_entry(self.subagents@[i as int]));
                assert(s@ + roster_entries(self.subagents@.skip(i as int + 1)) =~= pre
                    + roster_entries(self.subagents@.skip(i as int)));
            }
            i = i + 1;
        }
        proof {
            assert(self.subagents@.skip(self.subagents@.len() as int) =~= Seq::<SubAgent>::empty());
            assert(s@ + roster_entries(self.subagents@.skip(self.subagents@.len() as int)) =~= s@);
        }
        s
    }
}

/// The profile named by an agent's spec, or "Default" when none is.
pub open spec fn profile_name(a: SubAgent) -> Seq<char> {
    match a.agent_cli_name {
        Some(s) => s@,
        None => "Default"@,
    }
}

/// One roster entry: the agent's name and profile, then its prompt summary.
pub open spec fn roster_entry(a: SubAgent) -> Seq<char> {
    "  \u{2022} "@ + a.agent_display_name@ + " ("@ + profile_name(a) + ")\n    "@
        + a.prompt_summary@ + "\n\n"@
}

pub open spec fn roster_entries(agents: Seq<SubAgent>) -> Seq<char>
    decreases agents.len(),
{
    if agents.len() == 0 {
        Seq::<char>::empty()
    } else {
        roster_entry(agents[0]) + roster_entries(agents.drop_first())
    }
}

/// The roster headline: the number of agents and a rule line of 50 dashes.
pub open spec fn roster_header(n: nat) -> Seq<char> {
    "Launch "@ + dec_chars(n) + " Q agent(s) to perform tasks in parallel:\n\n"@ + Seq::new(
        50,
        |i: int| '\u{2500}',
    ) + "\n\n"@
}

/// The whole pre-launch description block.
pub open spec fn description_spec(agents: Seq<SubAgent>) -> Seq<char> {
    roster_header(agents.len()) + roster_entries(agents)
}

/// A display name with its spaces replaced by underscores, as used in the
/// per-agent diagnostic file name.
pub open spec fn sanitized(s: Seq<char>) -> Seq<char> {
    s.map_values(
        |c: char|
            if c == ' ' {
                '_'
            } else {
                c
            },
    )
}

/// Replace every space of a display name by an underscore.
pub fn sanitize_display_name(s: &str) -> (r: String)
    ensures
        r@ == sanitized(s@),
{
    let n = s.unicode_len();
    let mut r = String::new();
    let mut i: usize = 0;
    while i < n
        invariant
            n == s@.len(),
            0 <= i <= n,
            r@ == sanitized(s@).take(i as int),
        decreases n - i,
    {
        let c = s.get_char(i);
        if c == ' ' {
            r.append("_");
            proof {
                reveal_strlit("_");
            }
        } else {
            let piece = s.substring_char(i, i + 1);
            r.append(piece);
        }
        proof {
            assert(r@ =~= sanitized(s@).take(i as int + 1));
        }
        i = i + 1;
    }
    proof {
        assert(sanitized(s@).take(n as int) =~= sanitized(s@));
    }
    r
}

/// Relies on `uuid::Uuid::new_v4` and its `Display` impl: a fresh random
/// version-4 UUID rendered in the hyphenated form, which is 36 characters.
/// Nothing more is assumed of the value: it is random.
#[verifier::external_body]
fn new_conversation_id() -> (r: String)
    ensures
        r@.len() == 36,
{
    uuid::Uuid::new_v4().to_string()
}

/// Everything a runner is set up with before its first step: a freshly
/// generated conversation identifier to re-key the forked conversation, the
/// diagnostic file name derived from the display name and that identifier,
/// and the agent's prompt wrapped with the instructional template.
pub struct RunnerInit {
    pub conversation_id: String,
    pub log_name: String,
    pub wrapped_prompt: String,
}

impl RunnerInit {
    /// Prepare one runner from its agent spec.
    pub fn prepare(agent: &SubAgent) -> (r: RunnerInit)
        ensures
            r.conversation_id@.len() == 36,
            r.log_name@ == sanitized(agent.agent_display_name@) + "_"@ + r.conversation_id@
                + "_debug.log"@,
            r.wrapped_prompt@ == agent.prompt@ + prompt_template_tail(),
    {
        let conversation_id = new_conversation_id();
        let mut log_name = sanitize_display_name(agent.agent_display_name.as_str());
        log_name.append("_");
        log_name.append(conversation_id.as_str());
        log_name.append("_debug.log");
        let wrapped_prompt = wrap_prompt(agent.prompt.as_str());
        RunnerInit { conversation_id, log_name, wrapped_prompt }
    }
}

} // verus!
