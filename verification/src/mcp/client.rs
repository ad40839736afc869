//! Tool naming and filtering of the MCP client.
use vstd::prelude::*;
use vstd::utf8::{decode_utf8, encode_utf8, is_char_boundary};

use crate::config::toml_types::McpToolFilter;
use crate::mcp::connection_manager::{full_tool_name, in_list};
use crate::mcp::hashing::{is_hex_digit, sha1_hex, sha1_hex_of};
use crate::text::{byte_len, byte_len_exec, extend_str, from_chars, str_eq, sub_chars, to_chars};

verus! {

broadcast use vstd::utf8::encode_utf8_valid_utf8, vstd::utf8::encode_utf8_decode_utf8;

/// Qualified tool names are at most this many bytes long.
pub const MAX_QUALIFIED_NAME_LEN: usize = 64;

/// The qualified name of a tool: `mcp__<server>__<tool>` when it fits in the
/// limit; else its first 55 bytes, `_` and the first 8 digits of its SHA-1.
pub open spec fn client_qualified_name(server: Seq<char>, tool: Seq<char>) -> Seq<char> {
    let full = full_tool_name(server, tool);
    if byte_len(full) <= MAX_QUALIFIED_NAME_LEN {
        full
    } else {
        decode_utf8(encode_utf8(full).take(55)) + "_"@ + sha1_hex(encode_utf8(full)).take(8)
    }
}

/// The qualified name of a server's tool. A long name is cut at byte 55, which
/// must fall on a character boundary.
pub fn qualify_tool_name(server: &str, tool: &str) -> (r: String)
    requires
        byte_len(full_tool_name(server@, tool@)) > MAX_QUALIFIED_NAME_LEN ==> is_char_boundary(
            encode_utf8(full_tool_name(server@, tool@)),
            55,
        ),
    ensures
        r@ == client_qualified_name(server@, tool@),
        byte_len(r@) <= MAX_QUALIFIED_NAME_LEN,
{
    let mut full = to_chars("mcp__");
    extend_str(&mut full, server);
    extend_str(&mut full, "__");
    extend_str(&mut full, tool);
    let full_s = from_chars(full.as_slice());
    if byte_len_exec(full_s.as_str()) <= MAX_QUALIFIED_NAME_LEN {
        return full_s;
    }
    let hash = sha1_hex_of(full_s.as_str());
    let hash_chars = to_chars(hash.as_str());
    let suffix = sub_chars(hash_chars.as_slice(), 0, 8);
    let (head, _) = full_s.as_str().split_at(55);
    assert(encode_utf8(head@) == encode_utf8(full_s@).take(55));
    let mut out = to_chars(head);
    extend_str(&mut out, "_");
    crate::text::extend_chars(&mut out, suffix.as_slice());
    proof {
        reveal_strlit("_");
        assert(encode_utf8(head@).len() == 55);
        crate::text::lemma_encode_utf8_concat(head@, "_"@);
        crate::text::lemma_encode_utf8_concat(head@ + "_"@, suffix@);
        crate::text::lemma_ascii_byte_len("_"@);
        assert forall|i: int| 0 <= i < suffix@.len() implies '\0' <= #[trigger] suffix@[i] <= '\u{7f}' by {
            assert(suffix@[i] == hash@[i]);
            assert(is_hex_digit(hash@[i]));
        }
        crate::text::lemma_ascii_byte_len(suffix@);
        assert(out@ == head@ + "_"@ + suffix@);
    }
    from_chars(out.as_slice())
}

/// A tool is allowed without a filter; with one, when it is in the enabled
/// list if there is one, else when it is not in the disabled list.
pub open spec fn filter_allows(tool: Seq<char>, filter: Option<McpToolFilter>) -> bool {
    match filter {
        None => true,
        Some(f) => match f.enabled {
            Some(e) => in_list(e@, tool),
            None => match f.disabled {
                Some(d) => !in_list(d@, tool),
                None => true,
            },
        },
    }
}

fn listed(list: &Vec<String>, name: &str) -> (r: bool)
    ensures
        r == in_list(list@, name@),
{
    let mut i: usize = 0;
    while i < list.len()
        invariant
            i <= list@.len(),
            forall|k: int| 0 <= k < i ==> (#[trigger] list@[k])@ != name@,
        decreases list@.len() - i,
    {
        if str_eq(list[i].as_str(), name) {
            return true;
        }
        i = i + 1;
    }
    false
}

/// Whether a tool filter allows a tool.
pub fn is_tool_allowed(tool_name: &str, filter: Option<&McpToolFilter>) -> (r: bool)
    ensures
        r == filter_allows(tool_name@, match filter {
            Some(f) => Some(*f),
            None => None,
        }),
{
    match filter {
        None => true,
        Some(f) => match &f.enabled {
            Some(e) => listed(e, tool_name),
            None => match &f.disabled {
                Some(d) => !listed(d, tool_name),
                None => true,
            },
        },
    }
}

} // verus!
