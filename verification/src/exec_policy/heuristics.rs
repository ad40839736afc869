//! Decisions for commands that no policy rule matches.
use vstd::prelude::*;

use crate::exec_policy::bash::{parse_shell_lc_plain_commands, plain_commands, words_view};
use crate::protocol::{AskForApproval, Decision, SandboxPolicy};
use crate::text::{ends_with_spec, str_eq};

verus! {

/// Commands considered safe to run without a sandbox.
pub open spec fn safe_command_names() -> Seq<Seq<char>> {
    seq![
        "ls"@, "cat"@, "head"@, "tail"@, "wc"@, "echo"@, "pwd"@, "date"@, "whoami"@,
        "hostname"@, "uname"@, "which"@, "type"@, "file"@, "stat"@, "du"@, "df"@, "env"@,
        "printenv"@, "true"@, "false"@, "test"@, "["@,
    ]
}

/// What `Path::file_stem` gives for a path: its last component without the
/// extension, or `None` when there is no file name.
pub uninterp spec fn path_file_stem(path: Seq<char>) -> Option<Seq<char>>;

/// Wraps `std::path::Path::file_stem` (the stem of a path given as text is text).
#[verifier::external_body]
fn file_stem(path: &str) -> (r: Option<String>)
    ensures
        match path_file_stem(path@) {
            Some(s) => r matches Some(x) && x@ == s,
            None => r is None,
        },
{
    match std::path::Path::new(path).file_stem() {
        Some(stem) => stem.to_str().map(String::from),
        None => None,
    }
}

/// The program's name: the stem of the first word, or the word itself when it has none.
pub open spec fn program_name(cmd: Seq<char>) -> Seq<char> {
    match path_file_stem(cmd) {
        Some(s) => s,
        None => cmd,
    }
}

/// A command whose program is one of the known safe ones.
pub open spec fn is_known_safe(tokens: Seq<Seq<char>>) -> bool {
    tokens.len() > 0 && safe_command_names().contains(program_name(tokens[0]))
}

/// Whether the command's program is known to be safe.
pub fn is_known_safe_command(tokens: &[String]) -> (r: bool)
    ensures
        r == is_known_safe(words_view(tokens@)),
{
    if tokens.len() == 0 {
        return false;
    }
    let cmd = tokens[0].as_str();
    let stem = file_stem(cmd);
    let name = match &stem {
        Some(s) => s.as_str(),
        None => cmd,
    };
    let names: [&str; 23] = [
        "ls", "cat", "head", "tail", "wc", "echo", "pwd", "date", "whoami", "hostname", "uname",
        "which", "type", "file", "stat", "du", "df", "env", "printenv", "true", "false", "test",
        "[",
    ];
    assert(names@.len() == 23);
    let mut i: usize = 0;
    while i < 23
        invariant
            i <= 23,
            tokens@.len() > 0,
            names@.len() == 23,
            forall|k: int| 0 <= k < 23 ==> (#[trigger] names@[k])@ == safe_command_names()[k],
            name@ == program_name(words_view(tokens@)[0]),
            forall|k: int| 0 <= k < i ==> safe_command_names()[k] != name@,
        decreases 23 - i,
    {
        if str_eq(names[i], name) {
            assert(safe_command_names()[i as int] == name@);
            return true;
        }
        i = i + 1;
    }
    false
}

/// A safe program's word is on the list of known safe programs.
proof fn lemma_listed_safe(w: Seq<char>)
    requires
        w == "ls"@ || w == "cat"@ || w == "head"@ || w == "tail"@ || w == "wc"@ || w == "echo"@ || w == "pwd"@ || w == "date"@ || w == "whoami"@ || w == "hostname"@ || w == "uname"@ || w == "which"@ || w == "type"@ || w == "file"@ || w == "stat"@ || w == "du"@ || w == "df"@ || w == "env"@ || w == "printenv"@ || w == "true"@ || w == "false"@ || w == "test"@ || w == "["@,
    ensures
        safe_command_names().contains(w),
{
    let names = safe_command_names();
    if w == "ls"@ {
        assert(names[0] == w);
    } else if w == "cat"@ {
        assert(names[1] == w);
    } else if w == "head"@ {
        assert(names[2] == w);
    } else if w == "tail"@ {
        assert(names[3] == w);
    } else if w == "wc"@ {
        assert(names[4] == w);
    } else if w == "echo"@ {
        assert(names[5] == w);
    } else if w == "pwd"@ {
        assert(names[6] == w);
    } else if w == "date"@ {
        assert(names[7] == w);
    } else if w == "whoami"@ {
        assert(names[8] == w);
    } else if w == "hostname"@ {
        assert(names[9] == w);
    } else if w == "uname"@ {
        assert(names[10] == w);
    } else if w == "which"@ {
        assert(names[11] == w);
    } else if w == "type"@ {
        assert(names[12] == w);
    } else if w == "file"@ {
        assert(names[13] == w);
    } else if w == "stat"@ {
        assert(names[14] == w);
    } else if w == "du"@ {
        assert(names[15] == w);
    } else if w == "df"@ {
        assert(names[16] == w);
    } else if w == "env"@ {
        assert(names[17] == w);
    } else if w == "printenv"@ {
        assert(names[18] == w);
    } else if w == "true"@ {
        assert(names[19] == w);
    } else if w == "false"@ {
        assert(names[20] == w);
    } else if w == "test"@ {
        assert(names[21] == w);
    } else if w == "["@ {
        assert(names[22] == w);
    }
}

/// Each of ls, cat, head, tail, wc, echo, pwd, date, whoami, hostname, uname,
/// which, type, file, stat, du, df, env, printenv, true, false, test and `[` is
/// a known safe program: a command whose first word (or that word's file stem,
/// when it has one) names one of them is known safe, and when it did not come
/// from complex parsing it is allowed under every approval policy.
pub proof fn law_known_safe_programs_are_allowed(command: Seq<Seq<char>>, approval: AskForApproval)
    requires
        command.len() > 0,
        match path_file_stem(command[0]) {
            Some(w) => w == "ls"@ || w == "cat"@ || w == "head"@ || w == "tail"@ || w == "wc"@ || w == "echo"@ || w == "pwd"@ || w == "date"@ || w == "whoami"@ || w == "hostname"@ || w == "uname"@ || w == "which"@ || w == "type"@ || w == "file"@ || w == "stat"@ || w == "du"@ || w == "df"@ || w == "env"@ || w == "printenv"@ || w == "true"@ || w == "false"@ || w == "test"@ || w == "["@,
            None => command[0] == "ls"@ || command[0] == "cat"@ || command[0] == "head"@ || command[0] == "tail"@ || command[0] == "wc"@ || command[0] == "echo"@ || command[0] == "pwd"@ || command[0] == "date"@ || command[0] == "whoami"@ || command[0] == "hostname"@ || command[0] == "uname"@ || command[0] == "which"@ || command[0] == "type"@ || command[0] == "file"@ || command[0] == "stat"@ || command[0] == "du"@ || command[0] == "df"@ || command[0] == "env"@ || command[0] == "printenv"@ || command[0] == "true"@ || command[0] == "false"@ || command[0] == "test"@ || command[0] == "["@,
        },
    ensures
        is_known_safe(command),
        unmatched_decision(approval, command, false) == Decision::Allow,
{
    lemma_listed_safe(program_name(command[0]));
}

/// A single command that can destroy data: `rm -f`/`rm -rf`, `git reset`/`git rm`
/// (any program whose name ends in `git`), or either of these run through `sudo`.
pub open spec fn dangerous_exec(command: Seq<Seq<char>>) -> bool
    decreases command.len(),
{
    if command.len() == 0 {
        false
    } else if ends_with_spec(command[0], "git"@) {
        command.len() > 1 && (command[1] == "reset"@ || command[1] == "rm"@)
    } else if command[0] == "rm"@ {
        command.len() > 1 && (command[1] == "-f"@ || command[1] == "-rf"@)
    } else if command[0] == "sudo"@ {
        dangerous_exec(command.drop_first())
    } else {
        false
    }
}

/// A command that might be dangerous: itself, or one of the commands of its
/// shell script.
pub open spec fn might_be_dangerous(command: Seq<Seq<char>>) -> bool {
    ||| dangerous_exec(command)
    ||| plain_commands(command) matches Some(cs) && exists|i: int|
        0 <= i < cs.len() && dangerous_exec(#[trigger] cs[i])
}

fn dangerous_exec_from(command: &[String], start: usize) -> (r: bool)
    requires
        start <= command@.len(),
    ensures
        r == dangerous_exec(words_view(command@).skip(start as int)),
    decreases command@.len() - start,
{
    let ghost c = words_view(command@).skip(start as int);
    if start >= command.len() {
        return false;
    }
    let cmd0 = command[start].as_str();
    let next = if start + 1 < command.len() {
        Some(command[start + 1].as_str())
    } else {
        None
    };
    assert(c[0] == cmd0@);
    assert(start + 1 < command.len() ==> c[1] == command@[start + 1]@);
    let chars = crate::text::to_chars(cmd0);
    let git = crate::text::to_chars("git");
    if crate::text::ends_with(chars.as_slice(), git.as_slice()) {
        match next {
            Some(n) => str_eq(n, "reset") || str_eq(n, "rm"),
            None => false,
        }
    } else if str_eq(cmd0, "rm") {
        match next {
            Some(n) => str_eq(n, "-f") || str_eq(n, "-rf"),
            None => false,
        }
    } else if str_eq(cmd0, "sudo") {
        assert(c.drop_first() =~= words_view(command@).skip(start + 1));
        dangerous_exec_from(command, start + 1)
    } else {
        false
    }
}

/// Whether a command might destroy data, directly or within its shell script.
pub fn is_dangerous_command(command: &[String]) -> (r: bool)
    ensures
        r == might_be_dangerous(words_view(command@)),
{
    assert(words_view(command@).skip(0) =~= words_view(command@));
    if dangerous_exec_from(command, 0) {
        return true;
    }
    match parse_shell_lc_plain_commands(command) {
        Some(cs) => {
            let mut i: usize = 0;
            while i < cs.len()
                invariant
                    i <= cs@.len(),
                    plain_commands(words_view(command@)) == Some(
                        crate::exec_policy::bash::commands_view(cs@),
                    ),
                    forall|k: int| 0 <= k < i ==> !dangerous_exec(words_view(#[trigger] cs@[k]@)),
                decreases cs@.len() - i,
            {
                let inner = cs[i].as_slice();
                assert(words_view(inner@).skip(0) =~= words_view(inner@));
                if dangerous_exec_from(inner, 0) {
                    assert(crate::exec_policy::bash::commands_view(cs@)[i as int] == words_view(
                        cs@[i as int]@,
                    ));
                    return true;
                }
                i = i + 1;
            }
            assert forall|k: int|
                0 <= k < cs@.len() implies !dangerous_exec(
                #[trigger] crate::exec_policy::bash::commands_view(cs@)[k],
            ) by {
                assert(crate::exec_policy::bash::commands_view(cs@)[k] == words_view(cs@[k]@));
            }
            false
        },
        None => false,
    }
}

/// The decision for a command that no rule matches: known safe commands run
/// (unless the command came from complex parsing); dangerous ones are forbidden
/// under `Never` and prompt otherwise; anything else prompts only under
/// `UnlessTrusted`.
pub open spec fn unmatched_decision(
    approval: AskForApproval,
    command: Seq<Seq<char>>,
    used_complex_parsing: bool,
) -> Decision {
    if is_known_safe(command) && !used_complex_parsing {
        Decision::Allow
    } else if might_be_dangerous(command) {
        if approval is Never {
            Decision::Forbidden
        } else {
            Decision::Prompt
        }
    } else if approval is UnlessTrusted {
        Decision::Prompt
    } else {
        Decision::Allow
    }
}

/// Decides a command that no policy rule matches.
pub fn render_decision_for_unmatched_command(
    approval_policy: AskForApproval,
    sandbox_policy: &SandboxPolicy,
    command: &[String],
    used_complex_parsing: bool,
) -> (r: Decision)
    ensures
        r == unmatched_decision(approval_policy, words_view(command@), used_complex_parsing),
{
    if is_known_safe_command(command) && !used_complex_parsing {
        return Decision::Allow;
    }
    if is_dangerous_command(command) {
        return match approval_policy {
            AskForApproval::Never => Decision::Forbidden,
            _ => Decision::Prompt,
        };
    }
    match approval_policy {
        AskForApproval::Never | AskForApproval::OnFailure => Decision::Allow,
        AskForApproval::UnlessTrusted => Decision::Prompt,
        AskForApproval::OnRequest | AskForApproval::Reject(_) => match sandbox_policy {
            SandboxPolicy::DangerFullAccess | SandboxPolicy::ExternalSandbox { .. } => Decision::Allow,
            SandboxPolicy::ReadOnly | SandboxPolicy::WorkspaceWrite { .. } => Decision::Allow,
        },
    }
}

} // verus!
