use launch_agent::agent::LaunchDecision;
use launch_agent::agent::RunnerInit;
use launch_agent::agent::SubAgent;
use launch_agent::agent::SubAgentWrapper;
use launch_agent::aggregate::process_agent_results;
use launch_agent::aggregate::AgentOutcome;
use launch_agent::io_traits::BufferedIO;
use launch_agent::orchestrate::Orchestrator;
use launch_agent::orchestrate::OrchestratorPhase;
use launch_agent::orchestrate::progress_text;
use launch_agent::runner::capture_outcome;
use launch_agent::runner::runner_outcome;
use launch_agent::runner::StatusUpdate;
use launch_agent::runner::SubAgentRunner;
use launch_agent::summary::extract_summary;

fn spec_of(name: &str, prompt: &str) -> SubAgent {
    SubAgent {
        agent_display_name: name.to_string(),
        prompt: prompt.to_string(),
        prompt_summary: format!("summary of {}", name),
        agent_cli_name: None,
    }
}

#[test]
fn extraction_round_trip() {
    let r = extract_summary("noise [SUMMARY] X [/SUMMARY] trailer");
    assert_eq!(r, "X");
}

#[test]
fn extraction_fallback() {
    let input = "plain text, no markers";
    let r = extract_summary(input);
    assert_eq!(r, input);
}

#[test]
fn extraction_idempotent_without_marker() {
    let input = "nothing to see here\nat all";
    let once = extract_summary(input);
    let twice = extract_summary(&once);
    assert_eq!(once, twice);
    assert_eq!(once, input);
}

#[test]
fn extraction_is_case_insensitive_and_takes_first_region() {
    let r = extract_summary("x [summary]\n a \n[/SUMMARY] y [SUMMARY] b [/summary]");
    assert_eq!(r, "a");
}

#[test]
fn extraction_unterminated_marker_falls_back() {
    let input = "before [SUMMARY] never closed";
    assert_eq!(extract_summary(input), input);
}

#[test]
fn extraction_empty_region_is_empty() {
    assert_eq!(extract_summary("a[SUMMARY][/SUMMARY]b"), "");
    assert_eq!(extract_summary("a[SUMMARY]   \n [/SUMMARY]b"), "");
}

#[test]
fn aggregation_numbering() {
    let results = vec![
        AgentOutcome::Failure("model unavailable".to_string()),
        AgentOutcome::Success("A".to_string()),
        AgentOutcome::Success("B".to_string()),
    ];
    let (combined, errors) = process_agent_results(&results);
    assert_eq!(
        combined,
        "=== Agent 1 Output ===\nA\n\n=== Agent 2 Output ===\nB\n\n"
    );
    assert_eq!(
        errors,
        vec!["Failed to launch agent: model unavailable\n".to_string()]
    );
}

#[test]
fn aggregation_drops_blank_successes() {
    let results = vec![
        AgentOutcome::Success(String::new()),
        AgentOutcome::Success("   ".to_string()),
        AgentOutcome::Success("X".to_string()),
    ];
    let (combined, errors) = process_agent_results(&results);
    assert_eq!(combined, "=== Agent 1 Output ===\nX\n\n");
    assert!(errors.is_empty());
}

#[test]
fn aggregation_reports_task_crashes() {
    let results = vec![AgentOutcome::TaskCrashed("panicked".to_string())];
    let (combined, errors) = process_agent_results(&results);
    assert_eq!(combined, "");
    assert_eq!(errors, vec!["Task join error: panicked\n".to_string()]);
}

#[test]
fn nested_launch_guard() {
    let wrapper = SubAgentWrapper {
        subagents: vec![spec_of("one", "do a thing"), spec_of("two", "do another")],
    };
    match wrapper.plan_launch(true) {
        LaunchDecision::Rejected(m) => {
            assert_eq!(m, "Nested subagent launch prevented for performance reasons.");
        }
        LaunchDecision::Launch(_) => panic!("guarded launch must be rejected"),
    }
}

#[test]
fn unguarded_launch_wraps_every_prompt() {
    let wrapper = SubAgentWrapper {
        subagents: vec![spec_of("one", "first task"), spec_of("two", "second task")],
    };
    match wrapper.plan_launch(false) {
        LaunchDecision::Rejected(_) => panic!("launch must proceed"),
        LaunchDecision::Launch(prompts) => {
            assert_eq!(prompts.len(), 2);
            assert!(prompts[0].starts_with("first task. SUBAGENT - "));
            assert!(prompts[1].starts_with("second task. SUBAGENT - "));
            assert!(prompts[0].ends_with("[SUMMARY] YOUR SUMMARY HERE [/SUMMARY]"));
            assert!(prompts[0].contains("you are not allowed to use the launch_agent tool"));
        }
    }
}

#[test]
fn validation_rejects_blank_prompts() {
    assert_eq!(
        spec_of("a", "").validate(),
        Err("Prompt cannot be empty".to_string())
    );
    assert_eq!(
        spec_of("a", " \t\n ").validate(),
        Err("Prompt cannot be empty".to_string())
    );
    assert_eq!(spec_of("a", "work").validate(), Ok(()));
}

#[test]
fn validation_uses_unicode_whitespace() {
    // A prompt of one no-break space is whitespace-only, as str::trim sees it.
    assert!("\u{A0}".trim().is_empty());
    assert_eq!(
        spec_of("a", "\u{A0}").validate(),
        Err("Prompt cannot be empty".to_string())
    );
    assert_eq!(
        spec_of("a", "\u{2003}\u{3000}").validate(),
        Err("Prompt cannot be empty".to_string())
    );
}

#[test]
fn aggregation_drops_unicode_blank_successes() {
    let results = vec![
        AgentOutcome::Success("\u{A0}".to_string()),
        AgentOutcome::Success("X".to_string()),
    ];
    let (combined, errors) = process_agent_results(&results);
    assert_eq!(combined, "=== Agent 1 Output ===\nX\n\n");
    assert!(errors.is_empty());
}

#[test]
fn extraction_trims_unicode_whitespace() {
    assert_eq!(extract_summary("[SUMMARY]\u{A0}X [/SUMMARY]"), "X");
    assert_eq!(extract_summary("[SUMMARY]\u{2028}ok\u{3000}[/SUMMARY]"), "ok");
}

#[test]
fn extraction_folds_long_s_in_tags() {
    // U+017F (long s) case-folds to 's', so it opens a marker tag.
    assert_eq!(extract_summary("x [\u{17F}ummary] a [/\u{17F}ummary] y"), "a");
}

#[test]
fn runner_init_derives_names() {
    let agent = spec_of("My Test Agent", "task");
    let init = RunnerInit::prepare(&agent);
    assert_eq!(init.conversation_id.len(), 36);
    assert_eq!(
        init.log_name,
        format!("My_Test_Agent_{}_debug.log", init.conversation_id)
    );
    assert!(init.wrapped_prompt.starts_with("task. SUBAGENT - "));
}

#[test]
fn roster_lists_every_agent() {
    let mut second = spec_of("Beta", "b");
    second.agent_cli_name = Some("fast-model".to_string());
    let wrapper = SubAgentWrapper {
        subagents: vec![spec_of("Alpha", "a"), second],
    };
    let text = wrapper.queue_description();
    assert!(text.starts_with("Launch 2 Q agent(s) to perform tasks in parallel:\n\n"));
    assert!(text.contains("  \u{2022} Alpha (Default)\n    summary of Alpha\n\n"));
    assert!(text.contains("  \u{2022} Beta (fast-model)\n    summary of Beta\n\n"));
}

#[test]
fn runner_outcome_prefers_summary_even_after_failure() {
    let out = runner_outcome(
        "log [SUMMARY] found it [/SUMMARY]",
        Err("step failed".to_string()),
    );
    match out {
        AgentOutcome::Success(s) => assert_eq!(s, "found it"),
        _ => panic!("summary must win"),
    }
}

#[test]
fn runner_outcome_without_marker() {
    match runner_outcome("full transcript", Ok(())) {
        AgentOutcome::Success(s) => assert_eq!(s, "full transcript"),
        _ => panic!("successful run reports the transcript"),
    }
    match runner_outcome("full transcript", Err("boom".to_string())) {
        AgentOutcome::Failure(m) => assert_eq!(m, "boom"),
        _ => panic!("failed run without marker is a failure"),
    }
}

#[test]
fn capture_outcome_reads_the_sink() {
    let mut sink = BufferedIO::new();
    sink.buffer
        .extend_from_slice(b"chatter [SUMMARY] the report [/SUMMARY] tail");
    match capture_outcome(&sink, Ok(()), Ok(())) {
        AgentOutcome::Success(s) => assert_eq!(s, "the report"),
        _ => panic!("marker in the sink must yield its summary"),
    }
}

#[test]
fn capture_outcome_log_failure_beats_the_marker() {
    let mut sink = BufferedIO::new();
    sink.buffer
        .extend_from_slice(b"chatter [SUMMARY] the report [/SUMMARY]");
    match capture_outcome(&sink, Err("no space left".to_string()), Ok(())) {
        AgentOutcome::Failure(m) => assert_eq!(m, "no space left"),
        _ => panic!("a diagnostic-file failure fails the runner"),
    }
}

#[test]
fn capture_outcome_rejects_binary_transcripts() {
    let mut sink = BufferedIO::new();
    sink.buffer.extend_from_slice(&[0xFF, 0xFE, 0x00]);
    match capture_outcome(&sink, Ok(()), Ok(())) {
        AgentOutcome::Failure(_) => {}
        _ => panic!("a transcript that is not text is a runner failure"),
    }
}

#[test]
fn runner_emits_exactly_one_terminal_event() {
    let mut events: Vec<StatusUpdate> = Vec::new();
    for id in 0..3usize {
        let mut runner = SubAgentRunner::new(id);
        events.push(runner.step_event("Thinking".to_string(), 10 * id));
        events.push(runner.step_event("Running a tool".to_string(), 20 * id));
        events.push(runner.finish_event(30 * id));
    }
    let terminals = events
        .iter()
        .filter(|ev| ev.status == "Agent finished")
        .count();
    assert_eq!(terminals, 3);
    for id in 0..3usize {
        let own: Vec<&StatusUpdate> = events.iter().filter(|ev| ev.agent_id == id).collect();
        assert_eq!(own.len(), 3);
        assert_eq!(own[2].status, "Agent finished");
        assert_eq!(own[2].tokens_used, 30 * id);
    }
}

#[test]
fn n_terminal_events_observed_before_done() {
    let agents = vec![spec_of("one", "a"), spec_of("two", "b"), spec_of("three", "c")];
    let mut orch = Orchestrator::new(agents);
    orch.runners_spawned();
    let mut runners: Vec<SubAgentRunner> = (0..3).map(SubAgentRunner::new).collect();
    let mut events: Vec<StatusUpdate> = Vec::new();
    for (id, r) in runners.iter_mut().enumerate() {
        events.push(r.step_event("Working".to_string(), id));
    }
    for (id, r) in runners.iter_mut().enumerate() {
        events.push(r.finish_event(100 + id));
    }
    let mut terminals_before_done = 0;
    for ev in events {
        assert_ne!(orch.phase, OrchestratorPhase::Done);
        let terminal = ev.status == "Agent finished";
        orch.on_progress(ev);
        if terminal {
            terminals_before_done += 1;
        }
    }
    for _ in 0..3 {
        let _ = orch.on_runner_result(AgentOutcome::Success("r".to_string()));
    }
    assert_eq!(orch.phase, OrchestratorPhase::Done);
    assert_eq!(terminals_before_done, 3);
}

#[test]
fn orchestrator_reaches_done_after_n_results() {
    let agents = vec![spec_of("one", "a"), spec_of("two", "b")];
    let mut orch = Orchestrator::new(agents);
    assert_eq!(orch.phase, OrchestratorPhase::Launching);
    orch.runners_spawned();
    assert_eq!(orch.phase, OrchestratorPhase::Running);
    let msg = orch.on_runner_result(AgentOutcome::Success("A".to_string()));
    assert_eq!(msg, "Progress: 1/2 agents complete");
    assert_eq!(orch.phase, OrchestratorPhase::Running);
    let msg = orch.on_runner_result(AgentOutcome::Failure("boom".to_string()));
    assert_eq!(msg, "Progress: 2/2 agents complete");
    assert_eq!(orch.phase, OrchestratorPhase::Done);
    assert_eq!(orch.final_message(), "All agents have completed.");
    let (combined, errors) = process_agent_results(&orch.results);
    assert_eq!(combined, "=== Agent 1 Output ===\nA\n\n");
    assert_eq!(errors, vec!["Failed to launch agent: boom\n".to_string()]);
}

#[test]
fn board_first_draw_appends_then_overwrites() {
    let agents = vec![spec_of("one", "a"), spec_of("two", "b")];
    let mut orch = Orchestrator::new(agents);
    orch.runners_spawned();
    let act = orch.on_progress(StatusUpdate {
        agent_id: 0,
        status: "Working".to_string(),
        tokens_used: 5,
    });
    assert!(!act.overwrite);
    assert_eq!(act.lines_up, 6);
    assert_eq!(act.text.matches('\n').count(), 6);
    assert_eq!(
        act.text,
        "  \u{2022} one (Default)\n    Working - 5 tokens used\n\n\
         \u{20}\u{20}\u{2022} two (Default)\n    Launching agent... - 0 tokens used\n\n"
    );
    let act = orch.on_progress(StatusUpdate {
        agent_id: 1,
        status: "Agent finished".to_string(),
        tokens_used: 9,
    });
    assert!(act.overwrite);
    assert_eq!(act.lines_up, 6);
    assert_eq!(act.text.matches('\n').count(), 6);
    assert!(act
        .text
        .contains("  \u{2022} two (Default)\n    Agent finished - 9 tokens used\n\n"));
}

#[test]
fn board_ignores_unknown_agent_ids() {
    let agents = vec![spec_of("one", "a")];
    let mut orch = Orchestrator::new(agents);
    orch.runners_spawned();
    let act = orch.on_progress(StatusUpdate {
        agent_id: 7,
        status: "ghost".to_string(),
        tokens_used: 1,
    });
    assert!(!act.text.contains("ghost"));
    assert!(act.text.contains("Launching agent..."));
}

#[test]
fn progress_text_renders_counts() {
    assert_eq!(progress_text(1, 3), "Progress: 1/3 agents complete");
    assert_eq!(progress_text(10, 100), "Progress: 10/100 agents complete");
    assert_eq!(progress_text(0, 0), "Progress: 0/0 agents complete");
}
