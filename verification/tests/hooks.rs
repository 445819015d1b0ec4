use arawn_engine::hooks::file_watch::{file_changed_inputs, ChangeKind};
use arawn_engine::hooks::{
    load_merged_hooks, AggregatedHookResult, CommandHookDef, CommandHookExecutor, HookConfig, HookEvent, HookGroup,
    HookInput, HookMatcher, HookResult, HookRunner,
};

fn hook(command: &str, timeout: Option<u64>) -> CommandHookDef {
    CommandHookDef { hook_type: "command".into(), command: command.into(), timeout }
}

fn group(matcher: Option<&str>, hooks: Vec<CommandHookDef>) -> HookGroup {
    HookGroup { matcher: matcher.map(HookMatcher::new), hooks }
}

fn sample_config() -> HookConfig {
    HookConfig {
        events: vec![
            (
                "PreToolUse".into(),
                vec![group(Some("Bash"), vec![hook("exit 0", Some(5))]), group(Some("Edit"), vec![hook("echo lint", None)])],
            ),
            ("SessionStart".into(), vec![group(None, vec![hook("echo started", None)])]),
        ],
    }
}

#[test]
fn deserialize_config() {
    let config = sample_config();
    assert_eq!(config.groups_for(HookEvent::PreToolUse).len(), 2);
    assert_eq!(config.groups_for(HookEvent::SessionStart).len(), 1);
    assert_eq!(config.groups_for(HookEvent::PostToolUse).len(), 0);
}

#[test]
fn matching_hooks_by_tool_name() {
    let config = sample_config();
    let hooks = config.matching_hooks(HookEvent::PreToolUse, "Bash", "ls");
    assert_eq!(hooks.len(), 1);
    assert_eq!(hooks[0].command, "exit 0");
    let hooks = config.matching_hooks(HookEvent::PreToolUse, "Edit", "/foo.rs");
    assert_eq!(hooks.len(), 1);
    assert_eq!(hooks[0].command, "echo lint");
    let hooks = config.matching_hooks(HookEvent::PreToolUse, "Read", "/foo");
    assert!(hooks.is_empty());
}

#[test]
fn session_start_no_matcher() {
    let config = sample_config();
    let hooks = config.matching_hooks(HookEvent::SessionStart, "startup", "");
    assert_eq!(hooks.len(), 1);
}

#[test]
fn merge_configs() {
    let mut config1 = sample_config();
    let config2 = HookConfig {
        events: vec![
            ("PreToolUse".into(), vec![group(Some("Write"), vec![hook("echo write", None)])]),
            ("Stop".into(), vec![group(None, vec![hook("echo done", None)])]),
        ],
    };
    config1.merge(config2);
    assert_eq!(config1.groups_for(HookEvent::PreToolUse).len(), 3);
    assert_eq!(config1.groups_for(HookEvent::Stop).len(), 1);
}

#[test]
fn empty_config() {
    let config = HookConfig::default();
    assert!(config.is_empty());
    assert!(config.groups_for(HookEvent::PreToolUse).is_empty());
}

#[test]
fn hook_result_aggregation() {
    let mut agg = AggregatedHookResult::default();
    agg.add(HookResult::Allow { stdout: "ok".into() });
    assert!(!agg.blocked);
    assert!(agg.warnings.is_empty());
    agg.add(HookResult::Warn { message: "careful".into(), stderr: "warn".into() });
    assert!(!agg.blocked);
    assert_eq!(agg.warnings.len(), 1);
    agg.add(HookResult::Block { reason: "not allowed".into(), stderr: "err".into() });
    assert!(agg.blocked);
    assert_eq!(agg.block_reason.as_deref(), Some("not allowed"));
}

#[test]
fn first_block_wins() {
    let mut agg = AggregatedHookResult::default();
    agg.add(HookResult::Block { reason: "first".into(), stderr: "".into() });
    agg.add(HookResult::Block { reason: "second".into(), stderr: "".into() });
    assert_eq!(agg.block_reason.as_deref(), Some("first"));
}

#[test]
fn command_hook_def_timeout() {
    let h = hook("echo hi", None);
    assert_eq!(h.timeout, None);
    assert_eq!(CommandHookExecutor::timeout_secs(&h), 10);
    let h = hook("echo hi", Some(30));
    assert_eq!(h.timeout, Some(30));
    assert_eq!(CommandHookExecutor::timeout_secs(&h), 30);
}

#[test]
fn all_events_count() {
    assert_eq!(HookEvent::ALL.len(), 26);
}

#[test]
fn blocking_events() {
    assert!(HookEvent::PreToolUse.can_block());
    assert!(HookEvent::PermissionRequest.can_block());
    assert!(HookEvent::UserPromptSubmit.can_block());
    assert!(!HookEvent::PostToolUse.can_block());
    assert!(!HookEvent::SessionStart.can_block());
    assert!(!HookEvent::Stop.can_block());
}

#[test]
fn hook_input_event_roundtrip() {
    let input = HookInput::PreToolUse { tool_name: "Bash".into(), tool_input: "{\"command\":\"ls\"}".into() };
    assert_eq!(input.event(), HookEvent::PreToolUse);
    assert_eq!(input.matcher_value(), "Bash");
}

#[test]
fn session_start_matcher_value() {
    let input = HookInput::SessionStart {
        session_id: "abc".into(),
        cwd: "/tmp".into(),
        source: "startup".into(),
        metadata: Vec::new(),
    };
    assert_eq!(input.matcher_value(), "startup");
}

#[test]
fn non_matchable_event_returns_empty() {
    let input = HookInput::Stop { stop_reason: "end_turn".into() };
    assert_eq!(input.matcher_value(), "");
}

#[test]
fn merge_user_and_project() {
    let user = HookConfig { events: vec![("PreToolUse".into(), vec![group(Some("Bash"), vec![hook("echo user-hook", None)])])] };
    let project = HookConfig {
        events: vec![
            ("PreToolUse".into(), vec![group(Some("Edit"), vec![hook("echo project-hook", None)])]),
            ("Stop".into(), vec![group(None, vec![hook("echo done", None)])]),
        ],
    };
    let config = load_merged_hooks(Some(user), Some(project));
    assert_eq!(config.groups_for(HookEvent::PreToolUse).len(), 2);
    assert_eq!(config.groups_for(HookEvent::Stop).len(), 1);
    assert_eq!(config.groups_for(HookEvent::PreToolUse)[0].hooks[0].command, "echo user-hook");
}

#[test]
fn merge_missing_user_config() {
    let project = HookConfig { events: vec![("SessionStart".into(), vec![group(None, vec![hook("echo hello", None)])])] };
    let config = load_merged_hooks(None, Some(project));
    assert_eq!(config.groups_for(HookEvent::SessionStart).len(), 1);
}

#[test]
fn merge_both_missing() {
    let config = load_merged_hooks(None, None);
    assert!(config.is_empty());
}

#[test]
fn dedup_identical_hooks_across_sources() {
    let same = || HookConfig { events: vec![("PreToolUse".into(), vec![group(Some("Bash"), vec![hook("echo same", None)])])] };
    let config = load_merged_hooks(Some(same()), Some(same()));
    assert_eq!(config.groups_for(HookEvent::PreToolUse).len(), 2);
}

#[test]
fn runner_picks_hooks_for_input() {
    let runner = HookRunner::new(sample_config(), "/tmp".into());
    assert!(runner.has_hooks());
    let input = HookInput::PreToolUse { tool_name: "Bash".into(), tool_input: "{}".into() };
    let hooks = runner.hooks_for(&input);
    assert_eq!(hooks.len(), 1);
    assert_eq!(hooks[0].command, "exit 0");
    assert_eq!(runner.extract_content(&input), "{}");
    assert!(!HookRunner::new(HookConfig::default(), "/".into()).has_hooks());
}

#[test]
fn exit_codes_decide_outcome() {
    match CommandHookExecutor::exit_outcome(Some(0), "out".into(), "".into()) {
        HookResult::Allow { stdout } => assert_eq!(stdout, "out"),
        _ => panic!("expected allow"),
    }
    match CommandHookExecutor::exit_outcome(Some(2), "".into(), "  no way \n".into()) {
        HookResult::Block { reason, .. } => assert_eq!(reason, "no way"),
        _ => panic!("expected block"),
    }
    match CommandHookExecutor::exit_outcome(Some(2), "".into(), "".into()) {
        HookResult::Block { reason, .. } => assert_eq!(reason, "Hook blocked the operation"),
        _ => panic!("expected block"),
    }
    match CommandHookExecutor::exit_outcome(Some(7), "".into(), "".into()) {
        HookResult::Warn { message, .. } => assert_eq!(message, "Hook exited with code 7"),
        _ => panic!("expected warn"),
    }
    match CommandHookExecutor::exit_outcome(None, "".into(), "".into()) {
        HookResult::Warn { message, .. } => assert_eq!(message, "Hook exited with code 1"),
        _ => panic!("expected warn"),
    }
}

#[test]
fn timed_out_hook_blocks() {
    match CommandHookExecutor::timeout_outcome(&hook("sleep 60", None)) {
        HookResult::Block { reason, stderr } => {
            assert_eq!(reason, "Hook timed out after 10s: sleep 60");
            assert!(stderr.is_empty());
        },
        _ => panic!("expected block"),
    }
}

#[test]
fn aggregate_of_results_first_block_and_warnings() {
    let results = vec![
        HookResult::Warn { message: "w1".into(), stderr: "".into() },
        HookResult::Block { reason: "first".into(), stderr: "".into() },
        HookResult::Allow { stdout: "ok".into() },
        HookResult::Block { reason: "second".into(), stderr: "".into() },
        HookResult::Warn { message: "w2".into(), stderr: "".into() },
    ];
    let agg = AggregatedHookResult::of_results(&results);
    assert!(agg.blocked);
    assert_eq!(agg.block_reason.as_deref(), Some("first"));
    assert_eq!(agg.warnings, vec!["w1".to_string(), "w2".to_string()]);
    let none = AggregatedHookResult::of_results(&[]);
    assert!(!none.blocked && none.block_reason.is_none() && none.warnings.is_empty());
}

#[test]
fn file_changes_fire_once_per_watched_path() {
    let watched = vec!["/proj/.arawn".to_string(), "/proj/arawn.md".to_string()];
    let changed = vec![
        "/proj/.arawn/settings.json".to_string(),
        "/proj/src/main.rs".to_string(),
        "/proj/.arawn//settings.json".to_string(),
        "/proj/arawn.md".to_string(),
    ];
    let inputs = file_changed_inputs(&watched, &changed, ChangeKind::Modified);
    assert_eq!(inputs.len(), 2);
    match &inputs[0] {
        HookInput::FileChanged { file_path, change_type } => {
            assert_eq!(file_path, "/proj/.arawn/settings.json");
            assert_eq!(change_type, "modified");
        }
        other => panic!("unexpected input: {other:?}"),
    }
    match &inputs[1] {
        HookInput::FileChanged { file_path, .. } => assert_eq!(file_path, "/proj/arawn.md"),
        other => panic!("unexpected input: {other:?}"),
    }
    assert!(file_changed_inputs(&watched, &vec!["/elsewhere".to_string()], ChangeKind::Created).is_empty());
}

fn allowing_config() -> HookConfig {
    HookConfig {
        events: vec![
            ("PreToolUse".into(), vec![group(Some("Bash"), vec![hook("exit 0", None)])]),
            ("PostToolUse".into(), vec![group(Some("Bash"), vec![hook("exit 0", None)])]),
        ],
    }
}

#[test]
fn has_hooks_true_when_configured() {
    let runner = HookRunner::new(allowing_config(), "/tmp".into());
    assert!(runner.has_hooks());
}

#[test]
fn has_hooks_false_when_empty() {
    let runner = HookRunner::new(HookConfig::default(), "/tmp".into());
    assert!(!runner.has_hooks());
}

#[test]
fn non_matching_tool_skips_hooks() {
    let config = HookConfig {
        events: vec![("PreToolUse".into(), vec![group(Some("Bash"), vec![hook("echo 'blocked' >&2; exit 2", Some(5))])])],
    };
    let runner = HookRunner::new(config, "/tmp".into());
    let input = HookInput::PreToolUse { tool_name: "Read".into(), tool_input: "{\"file_path\":\"/foo\"}".into() };
    assert!(runner.hooks_for(&input).is_empty());
    let bash = HookInput::PreToolUse { tool_name: "Bash".into(), tool_input: "{\"command\":\"rm -rf /\"}".into() };
    assert_eq!(runner.hooks_for(&bash).len(), 1);
}

#[test]
fn blocking_exit_code_blocks_with_stderr_reason() {
    let r = CommandHookExecutor::exit_outcome(Some(2), String::new(), "blocked\n".into());
    match r {
        HookResult::Block { reason, .. } => assert_eq!(reason, "blocked"),
        other => panic!("unexpected result: {other:?}"),
    }
}
