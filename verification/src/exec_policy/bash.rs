//! Splitting of `bash -lc "..."` style invocations into the commands they run.
use vstd::prelude::*;

use crate::text::{
    contains, contains_spec, from_chars, sub_chars, lines, lines_spec, split, split_spec, str_eq, to_chars,
    trim, trim_spec, vviews,
};

verus! {

/// The character views of a list of strings.
pub open spec fn words_view(v: Seq<String>) -> Seq<Seq<char>> {
    Seq::new(v.len(), |i: int| v[i]@)
}

/// The views of a list of commands.
pub open spec fn commands_view(v: Seq<Vec<String>>) -> Seq<Seq<Seq<char>>> {
    Seq::new(v.len(), |i: int| words_view(v[i]@))
}

/// What `shlex::split` returns for a text: its shell words, or `None` when the
/// quoting is unbalanced.
pub uninterp spec fn shlex_split(s: Seq<char>) -> Option<Seq<Seq<char>>>;

/// Wraps `shlex::split`.
#[verifier::external_body]
fn shell_words(s: &str) -> (r: Option<Vec<String>>)
    ensures
        match shlex_split(s@) {
            Some(w) => r matches Some(v) && words_view(v@) == w,
            None => r is None,
        },
{
    shlex::split(s)
}

/// A shell and flag that make the next argument a script: `bash`, `sh`, `zsh`,
/// `/bin/bash` and `/bin/zsh` with `-lc` or `-c`, and `/bin/sh` with `-c`.
pub open spec fn is_shell_invocation(shell: Seq<char>, flag: Seq<char>) -> bool {
    ||| (shell == "bash"@ || shell == "sh"@ || shell == "zsh"@ || shell == "/bin/bash"@ || shell
        == "/bin/zsh"@) && (flag == "-lc"@ || flag == "-c"@)
    ||| shell == "/bin/sh"@ && flag == "-c"@
}

/// The script of a shell invocation: the third word after a shell and its flag.
pub open spec fn shell_script(command: Seq<Seq<char>>) -> Option<Seq<char>> {
    if command.len() == 3 && is_shell_invocation(command[0], command[1]) {
        Some(command[2])
    } else {
        None
    }
}

/// The script run by a shell invocation, if `command` is one.
pub fn extract_shell_script(command: &[String]) -> (r: Option<&str>)
    ensures
        match shell_script(words_view(command@)) {
            Some(s) => r matches Some(x) && x@ == s,
            None => r is None,
        },
{
    if command.len() != 3 {
        return None;
    }
    let shell = command[0].as_str();
    let flag = command[1].as_str();
    let lc = str_eq(flag, "-lc");
    let c = str_eq(flag, "-c");
    let ok = ((str_eq(shell, "bash") || str_eq(shell, "sh") || str_eq(shell, "zsh") || str_eq(
        shell,
        "/bin/bash",
    ) || str_eq(shell, "/bin/zsh")) && (lc || c)) || (str_eq(shell, "/bin/sh") && c);
    if ok {
        Some(command[2].as_str())
    } else {
        None
    }
}

/// The non-empty trimmed pieces, in order.
pub open spec fn nonempty_trimmed(parts: Seq<Seq<char>>) -> Seq<Seq<char>>
    decreases parts.len(),
{
    if parts.len() == 0 {
        Seq::empty()
    } else {
        let rest = nonempty_trimmed(parts.drop_last());
        let t = trim_spec(parts.last());
        if t.len() == 0 {
            rest
        } else {
            rest.push(t)
        }
    }
}

/// The pipeline segments of `&&`-separated parts, in order.
pub open spec fn segments_of_parts(parts: Seq<Seq<char>>) -> Seq<Seq<char>>
    decreases parts.len(),
{
    if parts.len() == 0 {
        Seq::empty()
    } else {
        segments_of_parts(parts.drop_last()) + nonempty_trimmed(split_spec(parts.last(), "|"@))
    }
}

/// Each segment split into shell words; `None` if one cannot be split or is empty.
pub open spec fn split_segments(segs: Seq<Seq<char>>) -> Option<Seq<Seq<Seq<char>>>>
    decreases segs.len(),
{
    if segs.len() == 0 {
        Some(Seq::empty())
    } else {
        match split_segments(segs.drop_last()) {
            None => None,
            Some(prev) => match shlex_split(segs.last()) {
                Some(t) => if t.len() > 0 {
                    Some(prev.push(t))
                } else {
                    None
                },
                None => None,
            },
        }
    }
}

/// The commands of a shell invocation's script: split at `&&` and `|`, each
/// piece split into words. `None` for other commands, empty scripts, heredocs,
/// pieces that cannot be split, and scripts with no command.
pub open spec fn plain_commands(command: Seq<Seq<char>>) -> Option<Seq<Seq<Seq<char>>>> {
    match shell_script(command) {
        None => None,
        Some(s) => {
            let t = trim_spec(s);
            if t.len() == 0 || contains_spec(t, "<<"@) {
                None
            } else {
                match split_segments(
                    segments_of_parts(nonempty_trimmed(split_spec(t, "&&"@))),
                ) {
                    Some(c) => if c.len() > 0 {
                        Some(c)
                    } else {
                        None
                    },
                    None => None,
                }
            }
        },
    }
}

fn nonempty_trimmed_exec(parts: &Vec<Vec<char>>) -> (r: Vec<Vec<char>>)
    ensures
        vviews(r@) == nonempty_trimmed(vviews(parts@)),
{
    let mut out: Vec<Vec<char>> = Vec::new();
    let mut i: usize = 0;
    while i < parts.len()
        invariant
            i <= parts@.len(),
            vviews(out@) == nonempty_trimmed(vviews(parts@).take(i as int)),
        decreases parts@.len() - i,
    {
        assert(vviews(parts@).take(i + 1).drop_last() =~= vviews(parts@).take(i as int));
        let t = trim(parts[i].as_slice());
        if t.len() > 0 {
            out.push(t);
        }
        i = i + 1;
        assert(vviews(out@) =~= nonempty_trimmed(vviews(parts@).take(i as int)));
    }
    assert(vviews(parts@).take(i as int) =~= vviews(parts@));
    out
}

/// Splits a trimmed script into its pipeline segments.
fn script_segments(t: &Vec<char>) -> (r: Vec<Vec<char>>)
    ensures
        vviews(r@) == segments_of_parts(nonempty_trimmed(split_spec(t@, "&&"@))),
{
    let amp = to_chars("&&");
    let bar = to_chars("|");
    proof {
        reveal_strlit("&&");
        reveal_strlit("|");
    }
    let pieces = split(t.as_slice(), amp.as_slice());
    let parts = nonempty_trimmed_exec(&pieces);
    let ghost pv = vviews(parts@);
    let mut out: Vec<Vec<char>> = Vec::new();
    let mut i: usize = 0;
    while i < parts.len()
        invariant
            i <= parts@.len(),
            pv == vviews(parts@),
            bar@ == "|"@,
            bar@.len() == 1,
            vviews(out@) == segments_of_parts(pv.take(i as int)),
        decreases parts@.len() - i,
    {
        assert(pv.take(i + 1).drop_last() =~= pv.take(i as int));
        let segs = split(parts[i].as_slice(), bar.as_slice());
        let kept = nonempty_trimmed_exec(&segs);
        let ghost before = vviews(out@);
        let mut j: usize = 0;
        while j < kept.len()
            invariant
                j <= kept@.len(),
                vviews(out@) == before + vviews(kept@).take(j as int),
            decreases kept@.len() - j,
        {
            let piece = sub_chars(kept[j].as_slice(), 0, kept[j].len());
            assert(piece@ =~= kept@[j as int]@);
            let ghost old_out = out@;
            out.push(piece);
            assert(vviews(out@) =~= vviews(old_out).push(piece@));
            assert(vviews(kept@).take(j + 1) =~= vviews(kept@).take(j as int).push(kept@[j as int]@));
            j = j + 1;
            assert(vviews(out@) =~= before + vviews(kept@).take(j as int));
        }
        assert(vviews(kept@).take(j as int) =~= vviews(kept@));
        i = i + 1;
    }
    assert(pv.take(i as int) =~= pv);
    out
}

/// Splits each segment into shell words, giving up on the first that cannot be
/// split or has no words.
fn split_each(segs: &Vec<Vec<char>>) -> (r: Option<Vec<Vec<String>>>)
    ensures
        match split_segments(vviews(segs@)) {
            Some(c) => r matches Some(v) && commands_view(v@) == c,
            None => r is None,
        },
{
    let mut out: Vec<Vec<String>> = Vec::new();
    let mut i: usize = 0;
    while i < segs.len()
        invariant
            i <= segs@.len(),
            split_segments(vviews(segs@).take(i as int)) == Some(commands_view(out@)),
        decreases segs@.len() - i,
    {
        assert(vviews(segs@).take(i + 1).drop_last() =~= vviews(segs@).take(i as int));
        let s = from_chars(segs[i].as_slice());
        match shell_words(s.as_str()) {
            Some(tokens) => {
                if tokens.len() == 0 {
                    proof {
                        lemma_split_segments_none_extends(vviews(segs@), i as int + 1);
                    }
                    return None;
                }
                out.push(tokens);
            },
            None => {
                proof {
                    lemma_split_segments_none_extends(vviews(segs@), i as int + 1);
                }
                return None;
            },
        }
        i = i + 1;
        assert(commands_view(out@) =~= split_segments(vviews(segs@).take(i as int)).unwrap());
    }
    assert(vviews(segs@).take(i as int) =~= vviews(segs@));
    Some(out)
}

/// Once a prefix of the segments fails to split, the whole list does.
proof fn lemma_split_segments_none_extends(segs: Seq<Seq<char>>, k: int)
    requires
        0 <= k <= segs.len(),
        split_segments(segs.take(k)) is None,
    ensures
        split_segments(segs) is None,
    decreases segs.len() - k,
{
    if k < segs.len() {
        assert(segs.take(k + 1).drop_last() =~= segs.take(k));
        lemma_split_segments_none_extends(segs, k + 1);
    } else {
        assert(segs.take(k) =~= segs);
    }
}

/// The commands that a shell invocation's script runs, split at `&&` and `|`;
/// `None` when `command` is no shell invocation or the script cannot be split plainly.
pub fn parse_shell_lc_plain_commands(command: &[String]) -> (r: Option<Vec<Vec<String>>>)
    ensures
        match plain_commands(words_view(command@)) {
            Some(c) => r matches Some(v) && commands_view(v@) == c,
            None => r is None,
        },
{
    let script = match extract_shell_script(command) {
        Some(s) => s,
        None => return None,
    };
    let chars = to_chars(script);
    let t = trim(chars.as_slice());
    if t.len() == 0 {
        return None;
    }
    let heredoc = to_chars("<<");
    if contains(t.as_slice(), heredoc.as_slice()) {
        return None;
    }
    let segs = script_segments(&t);
    match split_each(&segs) {
        Some(c) => if c.len() > 0 {
            Some(c)
        } else {
            None
        },
        None => None,
    }
}

/// The first command word sequence of a script: its first line, cut before any
/// heredoc marker and pipe, trimmed and split into words; `None` when empty.
pub open spec fn single_command_prefix(command: Seq<Seq<char>>) -> Option<Seq<Seq<char>>> {
    match shell_script(command) {
        None => None,
        Some(s) => {
            let t = trim_spec(s);
            if t.len() == 0 || lines_spec(t).len() == 0 {
                None
            } else {
                let clean = trim_spec(
                    split_spec(split_spec(lines_spec(t)[0], "<<"@)[0], "|"@)[0],
                );
                if clean.len() == 0 {
                    None
                } else {
                    match shlex_split(clean) {
                        Some(w) => if w.len() > 0 {
                            Some(w)
                        } else {
                            None
                        },
                        None => None,
                    }
                }
            }
        },
    }
}

/// Fallback for scripts that are not plain: the words of the first command.
pub fn parse_shell_lc_single_command_prefix(command: &[String]) -> (r: Option<Vec<String>>)
    ensures
        match single_command_prefix(words_view(command@)) {
            Some(w) => r matches Some(v) && words_view(v@) == w,
            None => r is None,
        },
{
    let script = match extract_shell_script(command) {
        Some(s) => s,
        None => return None,
    };
    let chars = to_chars(script);
    let t = trim(chars.as_slice());
    if t.len() == 0 {
        return None;
    }
    let ls = lines(t.as_slice());
    if ls.len() == 0 {
        return None;
    }
    let heredoc = to_chars("<<");
    let bar = to_chars("|");
    proof {
        reveal_strlit("<<");
        reveal_strlit("|");
    }
    let before_heredoc = split(ls[0].as_slice(), heredoc.as_slice());
    let before_pipe = split(before_heredoc[0].as_slice(), bar.as_slice());
    let clean = trim(before_pipe[0].as_slice());
    if clean.len() == 0 {
        return None;
    }
    let s = from_chars(clean.as_slice());
    match shell_words(s.as_str()) {
        Some(w) => if w.len() > 0 {
            Some(w)
        } else {
            None
        },
        None => None,
    }
}

} // verus!
