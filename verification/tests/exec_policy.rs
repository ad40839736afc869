use mosaic_core::exec_policy::bash::{
    extract_shell_script, parse_shell_lc_plain_commands, parse_shell_lc_single_command_prefix,
};
use mosaic_core::exec_policy::heuristics::{
    is_dangerous_command, is_known_safe_command, render_decision_for_unmatched_command,
};
use mosaic_core::exec_policy::manager::{
    commands_for_exec_policy, default_policy_path, derive_forbidden_reason, derive_prompt_reason,
    is_banned_prefix_suggestion, prompt_is_rejected, render_shlex, try_derive_amendment_for_allow,
    try_derive_amendment_for_prompt, Evaluation, RuleMatch,
};
use mosaic_core::exec_policy::manager::{approval_requirement, derive_requested_amendment, ExecApprovalRequirement};
use mosaic_core::protocol::ExecPolicyAmendment;
use mosaic_core::protocol::{AskForApproval, Decision, RejectConfig, SandboxPolicy};

fn cmd(tokens: &[&str]) -> Vec<String> {
    tokens.iter().map(|s| s.to_string()).collect()
}

// ── bash ────────────────────────────────────────────────────────

#[test]
fn parse_simple_bash_lc() {
    let command = cmd(&["bash", "-lc", "cargo build && echo ok"]);
    let parsed = parse_shell_lc_plain_commands(&command).unwrap();
    assert_eq!(parsed.len(), 2);
    assert_eq!(parsed[0], cmd(&["cargo", "build"]));
    assert_eq!(parsed[1], cmd(&["echo", "ok"]));
}

#[test]
fn parse_pipe_commands() {
    let command = cmd(&["bash", "-lc", "cat file | grep pattern"]);
    let parsed = parse_shell_lc_plain_commands(&command).unwrap();
    assert_eq!(parsed.len(), 2);
    assert_eq!(parsed[0], cmd(&["cat", "file"]));
    assert_eq!(parsed[1], cmd(&["grep", "pattern"]));
}

#[test]
fn rejects_heredoc() {
    let command = cmd(&["bash", "-lc", "python3 <<'PY'\nprint('hi')\nPY"]);
    assert!(parse_shell_lc_plain_commands(&command).is_none());
}

#[test]
fn fallback_extracts_prefix_from_heredoc() {
    let command = cmd(&["bash", "-lc", "python3 <<'PY'\nprint('hi')\nPY"]);
    let prefix = parse_shell_lc_single_command_prefix(&command).unwrap();
    assert_eq!(prefix, cmd(&["python3"]));
}

#[test]
fn non_shell_command_returns_none() {
    let command = cmd(&["cargo", "build"]);
    assert!(parse_shell_lc_plain_commands(&command).is_none());
    assert!(parse_shell_lc_single_command_prefix(&command).is_none());
}

#[test]
fn empty_script_returns_none() {
    let command = cmd(&["bash", "-lc", ""]);
    assert!(parse_shell_lc_plain_commands(&command).is_none());
}

#[test]
fn extracts_script_of_shell_invocations() {
    assert_eq!(extract_shell_script(&cmd(&["zsh", "-c", "ls"])), Some("ls"));
    assert_eq!(extract_shell_script(&cmd(&["bash", "-x", "ls"])), None);
    assert_eq!(extract_shell_script(&cmd(&["bash", "-lc"])), None);
}

#[test]
fn quoted_words_are_unquoted() {
    let command = cmd(&["bash", "-lc", "echo 'a b' \"c\""]);
    let parsed = parse_shell_lc_plain_commands(&command).unwrap();
    assert_eq!(parsed, vec![cmd(&["echo", "a b", "c"])]);
}

// ── heuristics ──────────────────────────────────────────────────

#[test]
fn safe_commands_are_allowed() {
    assert!(is_known_safe_command(&cmd(&["ls", "-la"])));
    assert!(is_known_safe_command(&cmd(&["cat", "file.txt"])));
    assert!(is_known_safe_command(&cmd(&["echo", "hello"])));
}

#[test]
fn unknown_commands_are_not_safe() {
    assert!(!is_known_safe_command(&cmd(&["curl", "https://example.com"])));
    assert!(!is_known_safe_command(&cmd(&["python3", "-c", "code"])));
}

#[test]
fn safe_command_by_path_uses_its_file_name() {
    assert!(is_known_safe_command(&cmd(&["/bin/ls", "-la"])));
    assert!(!is_known_safe_command(&cmd(&[])));
}

#[test]
fn dangerous_command_prompts_or_forbids() {
    let d = render_decision_for_unmatched_command(
        AskForApproval::OnRequest,
        &SandboxPolicy::DangerFullAccess,
        &cmd(&["rm", "-rf", "/"]),
        false,
    );
    assert_eq!(d, Decision::Prompt);

    let d = render_decision_for_unmatched_command(
        AskForApproval::Never,
        &SandboxPolicy::DangerFullAccess,
        &cmd(&["rm", "-rf", "/"]),
        false,
    );
    assert_eq!(d, Decision::Forbidden);
}

#[test]
fn dangerous_commands_are_recognised() {
    assert!(is_dangerous_command(&cmd(&["rm", "-rf", "/tmp/x"])));
    assert!(is_dangerous_command(&cmd(&["sudo", "rm", "-f", "x"])));
    assert!(is_dangerous_command(&cmd(&["git", "reset", "--hard"])));
    assert!(is_dangerous_command(&cmd(&["bash", "-lc", "ls && rm -rf build"])));
    assert!(!is_dangerous_command(&cmd(&["rm", "file"])));
}

#[test]
fn safe_command_allowed_regardless() {
    let d = render_decision_for_unmatched_command(
        AskForApproval::UnlessTrusted,
        &SandboxPolicy::new_read_only_policy(),
        &cmd(&["ls"]),
        false,
    );
    assert_eq!(d, Decision::Allow);
}

// ── manager ─────────────────────────────────────────────────────

#[test]
fn commands_for_exec_policy_parses_bash_lc() {
    let (cmds, complex) = commands_for_exec_policy(&cmd(&["bash", "-lc", "cargo build && echo ok"]));
    assert!(!complex);
    assert_eq!(cmds.len(), 2);
}

#[test]
fn commands_for_exec_policy_fallback_for_non_shell() {
    let (cmds, complex) = commands_for_exec_policy(&cmd(&["cargo", "build"]));
    assert!(!complex);
    assert_eq!(cmds, vec![cmd(&["cargo", "build"])]);
}

#[test]
fn commands_for_exec_policy_heredoc_is_complex() {
    let (cmds, complex) =
        commands_for_exec_policy(&cmd(&["bash", "-lc", "python3 <<'PY'\nprint('hi')\nPY"]));
    assert!(complex);
    assert_eq!(cmds, vec![cmd(&["python3"])]);
}

#[test]
fn render_shlex_quotes_when_needed() {
    assert_eq!(render_shlex(&cmd(&["echo", "a b"])), "echo 'a b'");
    assert_eq!(render_shlex(&cmd(&["ls"])), "ls");
}

#[test]
fn prompt_and_forbidden_reasons() {
    let eval = Evaluation {
        decision: Decision::Prompt,
        matched_rules: vec![RuleMatch::PrefixRuleMatch {
            matched_prefix: cmd(&["git"]),
            decision: Decision::Prompt,
            justification: Some("needs review".into()),
        }],
    };
    assert_eq!(
        derive_prompt_reason(&cmd(&["git", "push"]), &eval),
        Some("`git push` requires approval: needs review".to_string())
    );
    let forbid = Evaluation {
        decision: Decision::Forbidden,
        matched_rules: vec![RuleMatch::PrefixRuleMatch {
            matched_prefix: cmd(&["rm"]),
            decision: Decision::Forbidden,
            justification: None,
        }],
    };
    assert_eq!(
        derive_forbidden_reason(&cmd(&["rm", "-rf", "x"]), &forbid),
        "`rm -rf x` rejected: policy forbids commands starting with `rm`"
    );
    let none = Evaluation { decision: Decision::Forbidden, matched_rules: vec![] };
    assert_eq!(derive_forbidden_reason(&cmd(&["x"]), &none), "`x` rejected: blocked by policy");
    assert_eq!(derive_prompt_reason(&cmd(&["x"]), &none), None);
}

#[test]
fn amendments_come_from_heuristics_only() {
    let heuristic = vec![RuleMatch::HeuristicsRuleMatch {
        command: cmd(&["cargo", "test"]),
        decision: Decision::Prompt,
    }];
    let a = try_derive_amendment_for_prompt(&heuristic).unwrap();
    assert_eq!(a.command, cmd(&["cargo", "test"]));
    assert!(try_derive_amendment_for_allow(&heuristic).is_none());
    let with_rule = vec![
        RuleMatch::PrefixRuleMatch {
            matched_prefix: cmd(&["cargo"]),
            decision: Decision::Prompt,
            justification: None,
        },
        RuleMatch::HeuristicsRuleMatch { command: cmd(&["cargo", "test"]), decision: Decision::Prompt },
    ];
    assert!(try_derive_amendment_for_prompt(&with_rule).is_none());
}

#[test]
fn banned_prefixes() {
    assert!(is_banned_prefix_suggestion(&cmd(&["python3"])));
    assert!(is_banned_prefix_suggestion(&cmd(&["bash", "-lc"])));
    assert!(!is_banned_prefix_suggestion(&cmd(&["cargo", "test"])));
}

#[test]
fn prompts_rejected_by_policy() {
    assert!(prompt_is_rejected(AskForApproval::Never, false).is_some());
    assert!(prompt_is_rejected(AskForApproval::OnRequest, true).is_none());
    let reject = AskForApproval::Reject(RejectConfig { sandbox_approval: false, rules: true });
    assert!(prompt_is_rejected(reject, true).is_some());
    assert!(prompt_is_rejected(reject, false).is_none());
}

#[test]
fn policy_file_lives_under_rules() {
    assert_eq!(default_policy_path("/home/u/.codex"), "/home/u/.codex/rules/default.rules");
}

// ── approval requirements ───────────────────────────────────────

#[test]
fn forbidden_evaluation_is_forbidden_with_reason() {
    let forbid = Evaluation {
        decision: Decision::Forbidden,
        matched_rules: vec![RuleMatch::PrefixRuleMatch {
            matched_prefix: cmd(&["rm"]),
            decision: Decision::Forbidden,
            justification: Some("destructive".into()),
        }],
    };
    match approval_requirement(&cmd(&["rm", "-rf", "/"]), AskForApproval::OnRequest, &forbid, false, None) {
        ExecApprovalRequirement::Forbidden { reason } => assert_eq!(reason, "`rm -rf /` rejected: destructive"),
        other => panic!("unexpected {other:?}"),
    }
}

#[test]
fn prompt_by_rule_under_never_policy_is_forbidden() {
    let eval = Evaluation {
        decision: Decision::Prompt,
        matched_rules: vec![RuleMatch::PrefixRuleMatch {
            matched_prefix: cmd(&["git", "push"]),
            decision: Decision::Prompt,
            justification: None,
        }],
    };
    let expected = prompt_is_rejected(AskForApproval::Never, true).unwrap();
    match approval_requirement(&cmd(&["git", "push"]), AskForApproval::Never, &eval, false, None) {
        ExecApprovalRequirement::Forbidden { reason } => assert_eq!(reason, expected),
        other => panic!("unexpected {other:?}"),
    }
    match approval_requirement(&cmd(&["git", "push"]), AskForApproval::OnRequest, &eval, false, None) {
        ExecApprovalRequirement::NeedsApproval { reason, proposed_execpolicy_amendment } => {
            assert_eq!(reason, Some("`git push` requires approval by policy".to_string()));
            assert!(proposed_execpolicy_amendment.is_none());
        }
        other => panic!("unexpected {other:?}"),
    }
}

#[test]
fn heuristic_prompt_proposes_amendment_unless_complex() {
    let eval = Evaluation {
        decision: Decision::Prompt,
        matched_rules: vec![RuleMatch::HeuristicsRuleMatch { command: cmd(&["cargo", "test"]), decision: Decision::Prompt }],
    };
    match approval_requirement(&cmd(&["cargo", "test"]), AskForApproval::OnRequest, &eval, false, None) {
        ExecApprovalRequirement::NeedsApproval { reason, proposed_execpolicy_amendment } => {
            assert_eq!(reason, None);
            assert_eq!(proposed_execpolicy_amendment.unwrap().command, cmd(&["cargo", "test"]));
        }
        other => panic!("unexpected {other:?}"),
    }
    match approval_requirement(&cmd(&["cargo", "test"]), AskForApproval::OnRequest, &eval, true, None) {
        ExecApprovalRequirement::NeedsApproval { proposed_execpolicy_amendment, .. } => {
            assert!(proposed_execpolicy_amendment.is_none());
        }
        other => panic!("unexpected {other:?}"),
    }
    let requested = ExecPolicyAmendment { command: cmd(&["cargo"]) };
    match approval_requirement(&cmd(&["cargo", "test"]), AskForApproval::OnRequest, &eval, true, Some(requested)) {
        ExecApprovalRequirement::NeedsApproval { proposed_execpolicy_amendment, .. } => {
            assert_eq!(proposed_execpolicy_amendment.unwrap().command, cmd(&["cargo"]));
        }
        other => panic!("unexpected {other:?}"),
    }
}

#[test]
fn allowed_by_rule_bypasses_sandbox() {
    let by_rule = Evaluation {
        decision: Decision::Allow,
        matched_rules: vec![RuleMatch::PrefixRuleMatch {
            matched_prefix: cmd(&["ls"]),
            decision: Decision::Allow,
            justification: None,
        }],
    };
    match approval_requirement(&cmd(&["ls"]), AskForApproval::OnRequest, &by_rule, false, None) {
        ExecApprovalRequirement::Skip { bypass_sandbox, proposed_execpolicy_amendment } => {
            assert!(bypass_sandbox);
            assert!(proposed_execpolicy_amendment.is_none());
        }
        other => panic!("unexpected {other:?}"),
    }
    let by_heuristic = Evaluation {
        decision: Decision::Allow,
        matched_rules: vec![RuleMatch::HeuristicsRuleMatch { command: cmd(&["ls"]), decision: Decision::Allow }],
    };
    match approval_requirement(&cmd(&["ls"]), AskForApproval::OnRequest, &by_heuristic, false, None) {
        ExecApprovalRequirement::Skip { bypass_sandbox, proposed_execpolicy_amendment } => {
            assert!(!bypass_sandbox);
            assert_eq!(proposed_execpolicy_amendment.unwrap().command, cmd(&["ls"]));
        }
        other => panic!("unexpected {other:?}"),
    }
}

#[test]
fn requested_amendments_are_screened() {
    let none: Vec<RuleMatch> = vec![];
    let prefix = cmd(&["cargo", "build"]);
    assert_eq!(derive_requested_amendment(Some(&prefix), &none, true).unwrap().command, prefix);
    assert!(derive_requested_amendment(Some(&prefix), &none, false).is_none());
    assert!(derive_requested_amendment(Some(&vec![]), &none, true).is_none());
    assert!(derive_requested_amendment(Some(&cmd(&["python3"])), &none, true).is_none());
    assert!(derive_requested_amendment(None, &none, true).is_none());
    let rule = vec![RuleMatch::PrefixRuleMatch { matched_prefix: cmd(&["cargo"]), decision: Decision::Allow, justification: None }];
    assert!(derive_requested_amendment(Some(&prefix), &rule, true).is_none());
}
