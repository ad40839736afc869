//! Outcomes of the command policy: which commands a request covers, the
//! amendments it may propose, and the reasons it gives.
use vstd::prelude::*;

use crate::exec_policy::bash::{
    commands_view, parse_shell_lc_plain_commands, parse_shell_lc_single_command_prefix,
    plain_commands, single_command_prefix, words_view,
};
use crate::protocol::{AskForApproval, Decision, ExecPolicyAmendment};
use crate::text::{clone_strings, extend_str, from_chars, join, join_spec, to_chars, vviews};

verus! {

/// Reason given when a prompt is required but approvals are never asked for.
pub open spec fn prompt_conflict_reason() -> Seq<char> {
    "approval required by policy, but AskForApproval is set to Never"@
}

/// Reason given when sandbox approvals are rejected.
pub open spec fn reject_sandbox_reason() -> Seq<char> {
    "approval required by policy, but AskForApproval::Reject.sandbox_approval is set"@
}

/// Reason given when rule approvals are rejected.
pub open spec fn reject_rules_reason() -> Seq<char> {
    "approval required by policy rule, but AskForApproval::Reject.rules is set"@
}

/// Failure to load the policy files.
#[derive(Debug)]
pub enum ExecPolicyError {
    ReadDir { dir: String, message: String },
    ReadFile { path: String, message: String },
    ParsePolicy { path: String, message: String },
}

/// What running a command requires.
#[derive(Debug, Clone)]
pub enum ExecApprovalRequirement {
    /// The command may run; optionally outside the sandbox.
    Skip { bypass_sandbox: bool, proposed_execpolicy_amendment: Option<ExecPolicyAmendment> },
    /// The user must approve the command.
    NeedsApproval { reason: Option<String>, proposed_execpolicy_amendment: Option<ExecPolicyAmendment> },
    /// The command may not run.
    Forbidden { reason: String },
}

/// A rule that matched a command.
#[derive(Debug, Clone)]
pub enum RuleMatch {
    /// A prefix rule of the policy files.
    PrefixRuleMatch { matched_prefix: Vec<String>, decision: Decision, justification: Option<String> },
    /// The built-in heuristics, for a command no rule matched.
    HeuristicsRuleMatch { command: Vec<String>, decision: Decision },
}

/// The combined outcome of checking commands against the policy.
#[derive(Debug, Clone)]
pub struct Evaluation {
    pub decision: Decision,
    pub matched_rules: Vec<RuleMatch>,
}

/// The decision of a match.
pub open spec fn match_decision(m: RuleMatch) -> Decision {
    match m {
        RuleMatch::PrefixRuleMatch { decision, .. } => decision,
        RuleMatch::HeuristicsRuleMatch { decision, .. } => decision,
    }
}

/// The commands a request is checked as: the plain commands of a shell script,
/// else the first command of a complex script (flagged as complex parsing),
/// else the command itself.
pub open spec fn policy_commands(command: Seq<Seq<char>>) -> (Seq<Seq<Seq<char>>>, bool) {
    match plain_commands(command) {
        Some(c) => (c, false),
        None => match single_command_prefix(command) {
            Some(p) => (seq![p], true),
            None => (seq![command], false),
        },
    }
}

/// The commands to check a request as, and whether complex parsing was needed.
pub fn commands_for_exec_policy(command: &[String]) -> (r: (Vec<Vec<String>>, bool))
    ensures
        commands_view(r.0@) == policy_commands(words_view(command@)).0,
        r.1 == policy_commands(words_view(command@)).1,
{
    if let Some(commands) = parse_shell_lc_plain_commands(command) {
        if commands.len() > 0 {
            return (commands, false);
        }
    }
    if let Some(single) = parse_shell_lc_single_command_prefix(command) {
        let mut v: Vec<Vec<String>> = Vec::new();
        v.push(single);
        assert(commands_view(v@) =~= seq![words_view(v@[0]@)]);
        return (v, true);
    }
    let mut whole: Vec<String> = Vec::new();
    let mut i: usize = 0;
    while i < command.len()
        invariant
            i <= command@.len(),
            whole@.len() == i,
            forall|k: int| 0 <= k < i ==> (#[trigger] whole@[k])@ == command@[k]@,
        decreases command@.len() - i,
    {
        whole.push(command[i].clone());
        i = i + 1;
    }
    assert(words_view(whole@) =~= words_view(command@));
    let mut v: Vec<Vec<String>> = Vec::new();
    v.push(whole);
    assert(commands_view(v@) =~= seq![words_view(command@)]);
    (v, false)
}

/// Whether a match comes from a policy rule rather than the heuristics.
pub fn is_policy_match(m: &RuleMatch) -> (r: bool)
    ensures
        r == (*m is PrefixRuleMatch),
{
    match m {
        RuleMatch::PrefixRuleMatch { .. } => true,
        _ => false,
    }
}

/// Some policy rule matched with decision `d` (or any decision when `d` is `None`).
pub open spec fn has_policy_match(matched: Seq<RuleMatch>, d: Option<Decision>) -> bool {
    exists|i: int|
        0 <= i < matched.len() && #[trigger] matched[i] is PrefixRuleMatch && match d {
            Some(x) => match_decision(matched[i]) == x,
            None => true,
        }
}

/// Index of the first heuristic match with decision `d`.
pub open spec fn first_heuristic(matched: Seq<RuleMatch>, d: Decision) -> Option<int> {
    if exists|i: int|
        0 <= i < matched.len() && #[trigger] is_heuristic_with(matched[i], d) {
        Some(
            choose|i: int|
                0 <= i < matched.len() && is_heuristic_with(matched[i], d) && forall|k: int|
                    0 <= k < i ==> !#[trigger] is_heuristic_with(matched[k], d),
        )
    } else {
        None
    }
}

/// A heuristic match with decision `d`.
pub open spec fn is_heuristic_with(m: RuleMatch, d: Decision) -> bool {
    m matches RuleMatch::HeuristicsRuleMatch { decision, .. } && decision == d
}

/// The amendment proposed from the heuristic match at index `i`.
pub open spec fn amendment_from(matched: Seq<RuleMatch>, i: int, a: ExecPolicyAmendment) -> bool {
    matched[i] matches RuleMatch::HeuristicsRuleMatch { command, .. } && words_view(a.command@)
        == words_view(command@)
}

/// Finds the first heuristic match with decision `d` and proposes its command.
fn first_heuristic_amendment(matched: &[RuleMatch], d: Decision) -> (r: Option<ExecPolicyAmendment>)
    ensures
        match first_heuristic(matched@, d) {
            Some(i) => r matches Some(a) && amendment_from(matched@, i, a),
            None => r is None,
        },
{
    let mut i: usize = 0;
    while i < matched.len()
        invariant
            i <= matched@.len(),
            forall|k: int| 0 <= k < i ==> !#[trigger] is_heuristic_with(matched@[k], d),
        decreases matched@.len() - i,
    {
        match &matched[i] {
            RuleMatch::HeuristicsRuleMatch { command, decision } => {
                if *decision == d {
                    let ghost j = first_heuristic(matched@, d).unwrap();
                    proof {
                        assert(is_heuristic_with(matched@[i as int], d));
                        assert(j == i) by {
                            if j < i {
                                assert(!is_heuristic_with(matched@[j], d));
                            }
                            if j > i {
                                assert(!is_heuristic_with(matched@[i as int], d));
                            }
                        }
                    }
                    return Some(ExecPolicyAmendment { command: clone_strings(command) });
                }
            },
            _ => {},
        }
        i = i + 1;
    }
    None
}

/// Whether some policy rule matched with decision `d`.
fn any_policy_match(matched: &[RuleMatch], d: Option<Decision>) -> (r: bool)
    ensures
        r == has_policy_match(matched@, d),
{
    let mut i: usize = 0;
    while i < matched.len()
        invariant
            i <= matched@.len(),
            forall|k: int|
                0 <= k < i ==> !(#[trigger] matched@[k] is PrefixRuleMatch && match d {
                    Some(x) => match_decision(matched@[k]) == x,
                    None => true,
                }),
        decreases matched@.len() - i,
    {
        if let RuleMatch::PrefixRuleMatch { decision, .. } = &matched[i] {
            let hit = match d {
                Some(x) => *decision == x,
                None => true,
            };
            if hit {
                return true;
            }
        }
        i = i + 1;
    }
    false
}

/// `r` is the amendment to propose for a prompt: none when a policy rule asked
/// for the prompt, else the command of the first heuristic prompt, if any.
pub open spec fn derived_for_prompt(matched: Seq<RuleMatch>, r: Option<ExecPolicyAmendment>) -> bool {
    &&& has_policy_match(matched, Some(Decision::Prompt)) ==> r is None
    &&& !has_policy_match(matched, Some(Decision::Prompt)) ==> match first_heuristic(matched, Decision::Prompt) {
        Some(i) => r matches Some(a) && amendment_from(matched, i, a),
        None => r is None,
    }
}

/// `r` is the amendment to propose for an allowed command: none when any policy
/// rule matched, else the command of the first heuristic allow, if any.
pub open spec fn derived_for_allow(matched: Seq<RuleMatch>, r: Option<ExecPolicyAmendment>) -> bool {
    &&& has_policy_match(matched, None) ==> r is None
    &&& !has_policy_match(matched, None) ==> match first_heuristic(matched, Decision::Allow) {
        Some(i) => r matches Some(a) && amendment_from(matched, i, a),
        None => r is None,
    }
}

/// The amendment to propose for a prompt: none when a policy rule asked for the
/// prompt, else the command of the first heuristic prompt.
pub fn try_derive_amendment_for_prompt(matched: &[RuleMatch]) -> (r: Option<ExecPolicyAmendment>)
    ensures
        derived_for_prompt(matched@, r),
{
    if any_policy_match(matched, Some(Decision::Prompt)) {
        return None;
    }
    first_heuristic_amendment(matched, Decision::Prompt)
}

/// The amendment to propose for an allowed command: none when any policy rule
/// matched, else the command of the first heuristic allow.
pub fn try_derive_amendment_for_allow(matched: &[RuleMatch]) -> (r: Option<ExecPolicyAmendment>)
    ensures
        derived_for_allow(matched@, r),
{
    if any_policy_match(matched, None) {
        return None;
    }
    first_heuristic_amendment(matched, Decision::Allow)
}

/// Programs whose bare name is too broad to propose as an amendment.
pub open spec fn banned_single(w: Seq<char>) -> bool {
    ||| w == "python3"@ || w == "python"@ || w == "bash"@ || w == "sh"@ || w == "zsh"@
    ||| w == "/bin/bash"@ || w == "/bin/zsh"@ || w == "sudo"@ || w == "git"@ || w == "node"@
    ||| w == "env"@ || w == "ruby"@ || w == "perl"@
}

/// Program and flag pairs too broad to propose as an amendment.
pub open spec fn banned_pair(a: Seq<char>, b: Seq<char>) -> bool {
    ||| (a == "python3"@ || a == "python"@ || a == "sh"@) && b == "-c"@
    ||| (a == "bash"@ || a == "zsh"@ || a == "/bin/bash"@ || a == "/bin/zsh"@) && b == "-lc"@
    ||| (a == "node"@ || a == "ruby"@ || a == "perl"@) && b == "-e"@
}

/// Prefixes too broad to propose as amendments: interpreters, shells and
/// launchers alone or with their inline-script flag.
pub open spec fn is_banned_prefix(w: Seq<Seq<char>>) -> bool {
    ||| w.len() == 1 && banned_single(w[0])
    ||| w.len() == 2 && banned_pair(w[0], w[1])
}

fn banned_single_exec(w: &str) -> (r: bool)
    ensures
        r == banned_single(w@),
{
    use_strs(w, "python3") || use_strs(w, "python") || use_strs(w, "bash") || use_strs(w, "sh")
        || use_strs(w, "zsh") || use_strs(w, "/bin/bash") || use_strs(w, "/bin/zsh") || use_strs(
        w,
        "sudo",
    ) || use_strs(w, "git") || use_strs(w, "node") || use_strs(w, "env") || use_strs(w, "ruby")
        || use_strs(w, "perl")
}

fn use_strs(a: &str, b: &str) -> (r: bool)
    ensures
        r == (a@ == b@),
{
    crate::text::str_eq(a, b)
}

fn banned_pair_exec(a: &str, b: &str) -> (r: bool)
    ensures
        r == banned_pair(a@, b@),
{
    ((use_strs(a, "python3") || use_strs(a, "python") || use_strs(a, "sh")) && use_strs(b, "-c"))
        || ((use_strs(a, "bash") || use_strs(a, "zsh") || use_strs(a, "/bin/bash") || use_strs(
        a,
        "/bin/zsh",
    )) && use_strs(b, "-lc")) || ((use_strs(a, "node") || use_strs(a, "ruby") || use_strs(
        a,
        "perl",
    )) && use_strs(b, "-e"))
}

/// Whether a proposed prefix is one of the banned, too broad ones.
pub fn is_banned_prefix_suggestion(prefix: &[String]) -> (r: bool)
    ensures
        r == is_banned_prefix(words_view(prefix@)),
{
    if prefix.len() == 1 {
        banned_single_exec(prefix[0].as_str())
    } else if prefix.len() == 2 {
        banned_pair_exec(prefix[0].as_str(), prefix[1].as_str())
    } else {
        false
    }
}

/// Why a prompt is refused under the approval policy, if it is.
pub open spec fn prompt_rejection(approval: AskForApproval, prompt_is_rule: bool) -> Option<Seq<char>> {
    match approval {
        AskForApproval::Never => Some(prompt_conflict_reason()),
        AskForApproval::Reject(rc) => if prompt_is_rule {
            if rc.rules {
                Some(reject_rules_reason())
            } else {
                None
            }
        } else if rc.sandbox_approval {
            Some(reject_sandbox_reason())
        } else {
            None
        },
        _ => None,
    }
}

/// The reason a required prompt is refused outright, if the approval policy refuses it.
pub fn prompt_is_rejected(approval_policy: AskForApproval, prompt_is_rule: bool) -> (r: Option<&'static str>)
    ensures
        match prompt_rejection(approval_policy, prompt_is_rule) {
            Some(m) => r matches Some(s) && s@ == m,
            None => r is None,
        },
{
    match approval_policy {
        AskForApproval::Never => Some("approval required by policy, but AskForApproval is set to Never"),
        AskForApproval::Reject(rc) => {
            if prompt_is_rule {
                if rc.rejects_rules_approval() {
                    Some("approval required by policy rule, but AskForApproval::Reject.rules is set")
                } else {
                    None
                }
            } else if rc.rejects_sandbox_approval() {
                Some(
                    "approval required by policy, but AskForApproval::Reject.sandbox_approval is set",
                )
            } else {
                None
            }
        },
        _ => None,
    }
}

// ── Reasons ──────────────────────────────────────────────────────

/// What `shlex::try_join` returns for words it can quote: the words, quoted
/// where needed, separated by single spaces.
pub uninterp spec fn shlex_join(words: Seq<Seq<char>>) -> Seq<char>;

/// Some word holds a NUL character, which shell quoting refuses.
pub open spec fn has_nul(words: Seq<Seq<char>>) -> bool {
    exists|i: int, j: int| 0 <= i < words.len() && 0 <= j < words[i].len() && #[trigger] words[i][j] == '\0'
}

/// Wraps `shlex::try_join`, which fails exactly when a word holds a NUL.
#[verifier::external_body]
fn shell_join(words: &[String]) -> (r: Option<String>)
    ensures
        has_nul(words_view(words@)) <==> r is None,
        r matches Some(s) ==> s@ == shlex_join(words_view(words@)),
{
    shlex::try_join(words.iter().map(|w| w.as_str())).ok()
}

/// A command rendered for a message: shell-quoted, or joined with spaces when
/// it cannot be quoted.
pub open spec fn rendered(words: Seq<Seq<char>>) -> Seq<char> {
    if has_nul(words) {
        join_spec(words, " "@)
    } else {
        shlex_join(words)
    }
}

/// Renders a command for a message.
pub fn render_shlex(args: &[String]) -> (r: String)
    ensures
        r@ == rendered(words_view(args@)),
{
    match shell_join(args) {
        Some(s) => s,
        None => {
            let mut parts: Vec<Vec<char>> = Vec::new();
            let mut i: usize = 0;
            while i < args.len()
                invariant
                    i <= args@.len(),
                    parts@.len() == i,
                    forall|k: int| 0 <= k < i ==> (#[trigger] parts@[k])@ == args@[k]@,
                decreases args@.len() - i,
            {
                parts.push(to_chars(args[i].as_str()));
                i = i + 1;
            }
            assert(vviews(parts@) =~= words_view(args@));
            let sep = to_chars(" ");
            let joined = join(&parts, sep.as_slice());
            from_chars(joined.as_slice())
        },
    }
}

/// A policy match with decision `d`.
pub open spec fn is_prefix_with(m: RuleMatch, d: Decision) -> bool {
    m matches RuleMatch::PrefixRuleMatch { decision, .. } && decision == d
}

/// Length of the matched prefix of a policy match.
pub open spec fn prefix_len(m: RuleMatch) -> int {
    match m {
        RuleMatch::PrefixRuleMatch { matched_prefix, .. } => matched_prefix@.len() as int,
        _ => 0,
    }
}

/// Among the first `n` matches, the last policy match with decision `d` whose
/// prefix is longest.
pub open spec fn longest_prefix_match(matched: Seq<RuleMatch>, d: Decision, n: int) -> Option<int>
    decreases n,
{
    if n <= 0 {
        None
    } else {
        let prev = longest_prefix_match(matched, d, n - 1);
        if is_prefix_with(matched[n - 1], d) {
            match prev {
                Some(j) => if prefix_len(matched[n - 1]) >= prefix_len(matched[j]) {
                    Some(n - 1)
                } else {
                    Some(j)
                },
                None => Some(n - 1),
            }
        } else {
            prev
        }
    }
}

proof fn lemma_longest_bounds(matched: Seq<RuleMatch>, d: Decision, n: int)
    requires
        0 <= n <= matched.len(),
    ensures
        longest_prefix_match(matched, d, n) matches Some(j) ==> 0 <= j < n && is_prefix_with(
            matched[j],
            d,
        ),
    decreases n,
{
    if n > 0 {
        lemma_longest_bounds(matched, d, n - 1);
    }
}

fn longest_prefix_match_exec(matched: &[RuleMatch], d: Decision) -> (r: Option<usize>)
    ensures
        match longest_prefix_match(matched@, d, matched@.len() as int) {
            Some(j) => r == Some(j as usize),
            None => r is None,
        },
{
    let mut best: Option<usize> = None;
    let mut best_len: usize = 0;
    let mut i: usize = 0;
    while i < matched.len()
        invariant
            i <= matched@.len(),
            match longest_prefix_match(matched@, d, i as int) {
                Some(j) => best == Some(j as usize) && best_len == prefix_len(matched@[j]),
                None => best is None,
            },
        decreases matched@.len() - i,
    {
        proof {
            lemma_longest_bounds(matched@, d, i as int);
        }
        if let RuleMatch::PrefixRuleMatch { matched_prefix, decision, .. } = &matched[i] {
            if *decision == d {
                let len = matched_prefix.len();
                match best {
                    Some(_) => {
                        if len >= best_len {
                            best = Some(i);
                            best_len = len;
                        }
                    },
                    None => {
                        best = Some(i);
                        best_len = len;
                    },
                }
            }
        }
        i = i + 1;
    }
    best
}

/// The reason shown when a policy rule asks for approval: its justification, or
/// a generic note; `None` when no rule asked.
pub open spec fn prompt_reason(command: Seq<Seq<char>>, matched: Seq<RuleMatch>) -> Option<Seq<char>> {
    match longest_prefix_match(matched, Decision::Prompt, matched.len() as int) {
        None => None,
        Some(j) => match matched[j] {
            RuleMatch::PrefixRuleMatch { justification, .. } => match justification {
                Some(just) => Some("`"@ + rendered(command) + "` requires approval: "@ + just@),
                None => Some("`"@ + rendered(command) + "` requires approval by policy"@),
            },
            _ => None,
        },
    }
}

/// The reason shown when a command needs approval by policy, if a rule asked.
pub fn derive_prompt_reason(command: &[String], evaluation: &Evaluation) -> (r: Option<String>)
    ensures
        match prompt_reason(words_view(command@), evaluation.matched_rules@) {
            Some(m) => r matches Some(s) && s@ == m,
            None => r is None,
        },
{
    let cmd_str = render_shlex(command);
    let matched = evaluation.matched_rules.as_slice();
    proof {
        lemma_longest_bounds(matched@, Decision::Prompt, matched@.len() as int);
    }
    match longest_prefix_match_exec(matched, Decision::Prompt) {
        None => None,
        Some(j) => match &matched[j] {
            RuleMatch::PrefixRuleMatch { justification, .. } => {
                let mut out = to_chars("`");
                extend_str(&mut out, cmd_str.as_str());
                match justification {
                    Some(just) => {
                        extend_str(&mut out, "` requires approval: ");
                        extend_str(&mut out, just.as_str());
                    },
                    None => extend_str(&mut out, "` requires approval by policy"),
                }
                Some(from_chars(out.as_slice()))
            },
            _ => None,
        },
    }
}

/// The reason shown when a command is forbidden: the justification of the
/// longest forbidding rule, or the prefix it forbids, or a generic note.
pub open spec fn forbidden_reason(command: Seq<Seq<char>>, matched: Seq<RuleMatch>) -> Seq<char> {
    match longest_prefix_match(matched, Decision::Forbidden, matched.len() as int) {
        Some(j) => match matched[j] {
            RuleMatch::PrefixRuleMatch { matched_prefix, justification, .. } => match justification {
                Some(just) => "`"@ + rendered(command) + "` rejected: "@ + just@,
                None => "`"@ + rendered(command) + "` rejected: policy forbids commands starting with `"@
                    + rendered(words_view(matched_prefix@)) + "`"@,
            },
            _ => Seq::empty(),
        },
        None => "`"@ + rendered(command) + "` rejected: blocked by policy"@,
    }
}

/// The reason shown when a command is forbidden.
pub fn derive_forbidden_reason(command: &[String], evaluation: &Evaluation) -> (r: String)
    ensures
        r@ == forbidden_reason(words_view(command@), evaluation.matched_rules@),
{
    let cmd_str = render_shlex(command);
    let matched = evaluation.matched_rules.as_slice();
    proof {
        lemma_longest_bounds(matched@, Decision::Forbidden, matched@.len() as int);
    }
    let mut out = to_chars("`");
    extend_str(&mut out, cmd_str.as_str());
    match longest_prefix_match_exec(matched, Decision::Forbidden) {
        Some(j) => match &matched[j] {
            RuleMatch::PrefixRuleMatch { matched_prefix, justification, .. } => {
                match justification {
                    Some(just) => {
                        extend_str(&mut out, "` rejected: ");
                        extend_str(&mut out, just.as_str());
                    },
                    None => {
                        let p = render_shlex(matched_prefix.as_slice());
                        extend_str(&mut out, "` rejected: policy forbids commands starting with `");
                        extend_str(&mut out, p.as_str());
                        extend_str(&mut out, "`");
                    },
                }
                from_chars(out.as_slice())
            },
            _ => String::new(),
        },
        None => {
            extend_str(&mut out, "` rejected: blocked by policy");
            from_chars(out.as_slice())
        },
    }
}

/// Where appended rules are written: `rules/default.rules` under the home directory.
pub open spec fn policy_path(home: Seq<char>) -> Seq<char> {
    if home.len() == 0 {
        "rules/default.rules"@
    } else if home.last() == '/' {
        home + "rules/default.rules"@
    } else {
        home + "/rules/default.rules"@
    }
}

/// The default rules file under a home directory.
pub fn default_policy_path(home: &str) -> (r: String)
    ensures
        r@ == policy_path(home@),
{
    let h = to_chars(home);
    let mut out = to_chars(home);
    if h.len() > 0 && h[h.len() - 1] != '/' {
        extend_str(&mut out, "/");
    }
    extend_str(&mut out, "rules/default.rules");
    proof {
        reveal_strlit("/");
        reveal_strlit("rules/default.rules");
        reveal_strlit("/rules/default.rules");
        assert("/"@ + "rules/default.rules"@ =~= "/rules/default.rules"@);
    }
    from_chars(out.as_slice())
}

/// Whether a prefix rule that the caller proposes is offered as an amendment:
/// it must be non-empty, not a banned suggestion, no policy rule may have
/// matched, and adding it must allow every command checked
/// (`would_approve_all`, found by checking the commands against the policy with
/// the rule added).
pub fn derive_requested_amendment(
    prefix_rule: Option<&Vec<String>>,
    matched_rules: &[RuleMatch],
    would_approve_all: bool,
) -> (r: Option<ExecPolicyAmendment>)
    ensures
        match prefix_rule {
            Some(p) => if p@.len() > 0 && !is_banned_prefix(words_view(p@)) && !has_policy_match(
                matched_rules@,
                None,
            ) && would_approve_all {
                r matches Some(a) && words_view(a.command@) == words_view(p@)
            } else {
                r is None
            },
            None => r is None,
        },
{
    let prefix = match prefix_rule {
        Some(p) => p,
        None => return None,
    };
    if prefix.len() == 0 {
        return None;
    }
    if is_banned_prefix_suggestion(prefix.as_slice()) {
        return None;
    }
    if any_policy_match(matched_rules, None) {
        return None;
    }
    if would_approve_all {
        Some(ExecPolicyAmendment { command: clone_strings(prefix) })
    } else {
        None
    }
}

/// What running a command requires, from how the policy judged it: forbidden
/// commands are refused with the reason; a prompt is refused when the approval
/// policy rejects it, else the user is asked (proposing the caller's amendment,
/// or one derived from the heuristics unless complex parsing was needed);
/// allowed commands run, outside the sandbox when a policy rule allowed them.
pub fn approval_requirement(
    command: &[String],
    approval_policy: AskForApproval,
    evaluation: &Evaluation,
    used_complex_parsing: bool,
    requested_amendment: Option<ExecPolicyAmendment>,
) -> (r: ExecApprovalRequirement)
    ensures
        evaluation.decision == Decision::Forbidden ==> (r matches ExecApprovalRequirement::Forbidden { reason }
            && reason@ == forbidden_reason(words_view(command@), evaluation.matched_rules@)),
        evaluation.decision == Decision::Prompt ==> match prompt_rejection(
            approval_policy,
            has_policy_match(evaluation.matched_rules@, Some(Decision::Prompt)),
        ) {
            Some(msg) => r matches ExecApprovalRequirement::Forbidden { reason } && reason@ == msg,
            None => (r matches ExecApprovalRequirement::NeedsApproval { reason, proposed_execpolicy_amendment }
                && (match prompt_reason(words_view(command@), evaluation.matched_rules@) {
                Some(m) => reason matches Some(s) && s@ == m,
                None => reason is None,
            }) && (match requested_amendment {
                Some(a) => proposed_execpolicy_amendment == Some(a),
                None => if used_complex_parsing {
                    proposed_execpolicy_amendment is None
                } else {
                    derived_for_prompt(evaluation.matched_rules@, proposed_execpolicy_amendment)
                },
            })),
        },
        evaluation.decision == Decision::Allow ==> (r matches ExecApprovalRequirement::Skip {
            bypass_sandbox,
            proposed_execpolicy_amendment,
        } && bypass_sandbox == has_policy_match(evaluation.matched_rules@, Some(Decision::Allow)) && if used_complex_parsing {
            proposed_execpolicy_amendment is None
        } else {
            derived_for_allow(evaluation.matched_rules@, proposed_execpolicy_amendment)
        }),
{
    let matched = evaluation.matched_rules.as_slice();
    match evaluation.decision {
        Decision::Forbidden => ExecApprovalRequirement::Forbidden {
            reason: derive_forbidden_reason(command, evaluation),
        },
        Decision::Prompt => {
            let prompt_is_rule = any_policy_match(matched, Some(Decision::Prompt));
            match prompt_is_rejected(approval_policy, prompt_is_rule) {
                Some(reason) => ExecApprovalRequirement::Forbidden { reason: reason.to_string() },
                None => {
                    let proposed = match requested_amendment {
                        Some(a) => Some(a),
                        None => if used_complex_parsing {
                            None
                        } else {
                            try_derive_amendment_for_prompt(matched)
                        },
                    };
                    ExecApprovalRequirement::NeedsApproval {
                        reason: derive_prompt_reason(command, evaluation),
                        proposed_execpolicy_amendment: proposed,
                    }
                },
            }
        },
        Decision::Allow => ExecApprovalRequirement::Skip {
            bypass_sandbox: any_policy_match(matched, Some(Decision::Allow)),
            proposed_execpolicy_amendment: if used_complex_parsing {
                None
            } else {
                try_derive_amendment_for_allow(matched)
            },
        },
    }
}

} // verus!
