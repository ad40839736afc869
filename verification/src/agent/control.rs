//! Texts used when controlling sub-agents: the nickname list and context lines.
use vstd::prelude::*;

use crate::exec_policy::bash::nonempty_trimmed;
use crate::strmap::{sort_strings, sorted_strs, str_views};
use crate::text::{extend_str, from_chars, join, join_spec, lines, lines_spec, str_eq, to_chars, trim, vviews};

verus! {

/// The nicknames of a name list: its lines, trimmed, without empty ones.
pub fn agent_nickname_list(text: &str) -> (r: Vec<String>)
    ensures
        r@.len() == nonempty_trimmed(lines_spec(text@)).len(),
        forall|i: int| 0 <= i < r@.len() ==> (#[trigger] r@[i])@ == nonempty_trimmed(lines_spec(text@))[i],
{
    let chars = to_chars(text);
    let ls = lines(chars.as_slice());
    let ghost lv = vviews(ls@);
    let mut out: Vec<String> = Vec::new();
    let mut i: usize = 0;
    while i < ls.len()
        invariant
            i <= ls@.len(),
            lv == vviews(ls@),
            lv == lines_spec(text@),
            out@.len() == nonempty_trimmed(lv.take(i as int)).len(),
            forall|k: int| 0 <= k < out@.len() ==> (#[trigger] out@[k])@ == nonempty_trimmed(lv.take(i as int))[k],
        decreases ls@.len() - i,
    {
        assert(lv.take(i + 1).drop_last() =~= lv.take(i as int));
        let t = trim(ls[i].as_slice());
        if t.len() > 0 {
            out.push(from_chars(t.as_slice()));
        }
        i = i + 1;
    }
    assert(lv.take(i as int) =~= lv);
    out
}

/// A line listing a sub-agent: its id, and its nickname when it has a non-empty one.
pub open spec fn subagent_context_line(agent_id: Seq<char>, nickname: Option<Seq<char>>) -> Seq<char> {
    match nickname {
        Some(n) => if n.len() > 0 {
            "- "@ + agent_id + ": "@ + n
        } else {
            "- "@ + agent_id
        },
        None => "- "@ + agent_id,
    }
}

/// The line listing a sub-agent.
pub fn format_subagent_context_line(agent_id: &str, agent_nickname: Option<&str>) -> (r: String)
    ensures
        r@ == subagent_context_line(agent_id@, match agent_nickname {
            Some(n) => Some(n@),
            None => None,
        }),
{
    let mut out = to_chars("- ");
    extend_str(&mut out, agent_id);
    if let Some(n) = agent_nickname {
        if crate::text::byte_len_exec(n) > 0 {
            proof {
                vstd::utf8::encode_utf8_valid_utf8(n@);
                if n@.len() == 0 {
                    assert(vstd::utf8::encode_utf8(n@).len() == 0);
                }
            }
            extend_str(&mut out, ": ");
            extend_str(&mut out, n);
        } else {
            proof {
                lemma_empty_encoding(n@);
            }
        }
    }
    from_chars(out.as_slice())
}

/// Only the empty text has an empty encoding.
proof fn lemma_empty_encoding(s: Seq<char>)
    ensures
        vstd::utf8::encode_utf8(s).len() == 0 ==> s.len() == 0,
{
    if s.len() > 0 {
        assert(vstd::utf8::encode_utf8(s) == vstd::utf8::encode_scalar(s[0] as u32) + vstd::utf8::encode_utf8(s.drop_first()));
    }
}

/// A thread the thread manager knows, with what spawned it.
#[derive(Debug)]
pub struct ThreadListing {
    pub thread_id: String,
    /// The thread that spawned this one, when it is a sub-agent spawned by a thread.
    pub spawned_by: Option<String>,
    pub agent_nickname: Option<String>,
}

/// An optional string by its contents.
pub open spec fn opt_view(o: Option<String>) -> Option<Seq<char>> {
    match o {
        Some(s) => Some(s@),
        None => None,
    }
}

/// The context lines of the threads that `parent` spawned, in listing order.
pub open spec fn subagent_lines(threads: Seq<ThreadListing>, parent: Seq<char>) -> Seq<Seq<char>>
    decreases threads.len(),
{
    if threads.len() == 0 {
        Seq::empty()
    } else {
        let rest = subagent_lines(threads.drop_last(), parent);
        let t = threads.last();
        if t.spawned_by matches Some(p) && p@ == parent {
            rest.push(subagent_context_line(t.thread_id@, opt_view(t.agent_nickname)))
        } else {
            rest
        }
    }
}

/// The sub-agents that a thread spawned, for its environment context: one
/// line each, in ascending order, separated by newlines.
pub fn format_environment_context_subagents(threads: &[ThreadListing], parent_thread_id: &str) -> (r: String)
    ensures
        exists|s: Seq<Seq<char>>|
            sorted_strs(s) && s.to_multiset() == subagent_lines(threads@, parent_thread_id@).to_multiset()
                && r@ == join_spec(s, seq!['\n']),
{
    let mut lines_out: Vec<String> = Vec::new();
    let mut i: usize = 0;
    while i < threads.len()
        invariant
            i <= threads@.len(),
            str_views(lines_out@) == subagent_lines(threads@.take(i as int), parent_thread_id@),
        decreases threads@.len() - i,
    {
        let t = &threads[i];
        assert(threads@.take(i + 1).drop_last() =~= threads@.take(i as int));
        assert(threads@.take(i + 1).last() == *t);
        let matches_parent = match &t.spawned_by {
            Some(p) => str_eq(p.as_str(), parent_thread_id),
            None => false,
        };
        if matches_parent {
            let nick = match &t.agent_nickname {
                Some(n) => Some(n.as_str()),
                None => None,
            };
            let line = format_subagent_context_line(t.thread_id.as_str(), nick);
            let ghost before = str_views(lines_out@);
            lines_out.push(line);
            assert(str_views(lines_out@) =~= before.push(line@));
        }
        i = i + 1;
    }
    assert(threads@.take(i as int) =~= threads@);
    let sorted = sort_strings(lines_out);
    let mut parts: Vec<Vec<char>> = Vec::new();
    let mut k: usize = 0;
    while k < sorted.len()
        invariant
            k <= sorted@.len(),
            vviews(parts@) == str_views(sorted@).take(k as int),
        decreases sorted@.len() - k,
    {
        let ghost before = vviews(parts@);
        parts.push(to_chars(sorted[k].as_str()));
        assert(vviews(parts@) =~= before.push(sorted@[k as int]@));
        assert(str_views(sorted@).take(k + 1) =~= str_views(sorted@).take(k as int).push(sorted@[k as int]@));
        k = k + 1;
    }
    assert(str_views(sorted@).take(k as int) =~= str_views(sorted@));
    let nl = vec!['\n'];
    assert(nl@ =~= seq!['\n']);
    let joined = join(&parts, nl.as_slice());
    from_chars(joined.as_slice())
}

} // verus!
