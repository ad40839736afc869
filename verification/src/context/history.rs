//! The transcript of a thread, with token accounting.
use vstd::prelude::*;
use vstd::utf8::{decode_utf8, encode_utf8, is_char_boundary};

use crate::context::normalize::{
    calls_paired, ensure_call_outputs_present, kept_after_removal, kept_with_calls, outputs_filled,
    law_normalized_items_are_paired, remove_corresponding, remove_orphan_outputs,
};
use crate::text::{byte_len, byte_len_exec, str_eq};
use crate::protocol::{
    ContentItem, FunctionCallOutputBody, FunctionCallOutputContentItem, FunctionCallOutputPayload,
    ResponseInputItem,
};

verus! {

broadcast use vstd::utf8::encode_utf8_valid_utf8, vstd::utf8::encode_utf8_decode_utf8;

/// Tool outputs longer than this many bytes are cut when recorded.
pub const MAX_OUTPUT_BYTES: usize = 131072;

/// Bytes counted for an image.
pub const IMAGE_BYTES: u64 = 7373;

/// Bytes counted for an MCP or custom tool output.
pub const OPAQUE_OUTPUT_BYTES: u64 = 100;

/// Marker appended to cut text.
pub open spec fn truncation_marker() -> Seq<char> {
    "\n... [truncated]"@
}

/// The largest character boundary of `bytes` at or below `max`.
pub open spec fn boundary_at_or_below(bytes: Seq<u8>, max: int) -> int
    decreases max,
{
    if max <= 0 {
        0
    } else if is_char_boundary(bytes, max) {
        max
    } else {
        boundary_at_or_below(bytes, max - 1)
    }
}

/// `s` unchanged when its encoding fits in `max` bytes; otherwise its longest
/// prefix that fits, followed by the truncation marker.
pub open spec fn truncated_text(s: Seq<char>, max: int) -> Seq<char> {
    if byte_len(s) <= max {
        s
    } else {
        decode_utf8(encode_utf8(s).subrange(0, boundary_at_or_below(encode_utf8(s), max)))
            + truncation_marker()
    }
}

proof fn lemma_boundary_at_or_below(bytes: Seq<u8>, max: int)
    requires
        vstd::utf8::valid_utf8(bytes),
        0 <= max <= bytes.len(),
    ensures
        0 <= boundary_at_or_below(bytes, max) <= max,
        is_char_boundary(bytes, boundary_at_or_below(bytes, max)),
    decreases max,
{
    vstd::utf8::is_char_boundary_start_end_of_seq(bytes);
    if max > 0 && !is_char_boundary(bytes, max) {
        lemma_boundary_at_or_below(bytes, max - 1);
    }
}

/// A cut text takes at most `max` bytes plus the marker, and is the text
/// itself when the text fits.
pub proof fn law_truncated_text_fits(s: Seq<char>, max: int)
    requires
        max >= 0,
    ensures
        byte_len(truncated_text(s, max)) <= max + byte_len(truncation_marker()),
        byte_len(s) <= max ==> truncated_text(s, max) == s,
{
    if byte_len(s) > max {
        let bytes = encode_utf8(s);
        lemma_boundary_at_or_below(bytes, max);
        let b = boundary_at_or_below(bytes, max);
        vstd::utf8::valid_utf8_split(bytes, b);
        vstd::utf8::decode_utf8_encode_utf8(bytes.subrange(0, b));
        crate::text::lemma_encode_utf8_concat(decode_utf8(bytes.subrange(0, b)), truncation_marker());
    }
}

/// Cuts `s` to at most `max_bytes` bytes on a character boundary and marks the cut.
pub fn truncate_str(s: &str, max_bytes: usize) -> (r: String)
    ensures
        r@ == truncated_text(s@, max_bytes as int),
{
    if byte_len_exec(s) <= max_bytes {
        return s.to_owned();
    }
    let ghost bytes = encode_utf8(s@);
    let mut end = max_bytes;
    while end > 0 && !s.is_char_boundary(end)
        invariant
            end <= max_bytes,
            max_bytes < bytes.len(),
            bytes == encode_utf8(s@),
            boundary_at_or_below(bytes, max_bytes as int) == boundary_at_or_below(bytes, end as int),
        decreases end,
    {
        end = end - 1;
    }
    assert(is_char_boundary(bytes, end as int));
    let (head, _) = s.split_at(end);
    assert(encode_utf8(head@) == bytes.subrange(0, end as int));
    let mut result = head.to_owned();
    result.append("\n... [truncated]");
    result
}

/// Bytes counted for one piece of message content.
pub open spec fn content_bytes(c: ContentItem) -> int {
    match c {
        ContentItem::InputText { text } => byte_len(text@) as int,
        ContentItem::OutputText { text } => byte_len(text@) as int,
        ContentItem::InputImage { .. } => IMAGE_BYTES as int,
    }
}

/// Bytes counted for a list of message content.
pub open spec fn contents_bytes(cs: Seq<ContentItem>) -> int
    decreases cs.len(),
{
    if cs.len() == 0 {
        0
    } else {
        contents_bytes(cs.drop_last()) + content_bytes(cs.last())
    }
}

/// Bytes counted for one piece of structured tool output.
pub open spec fn output_item_bytes(c: FunctionCallOutputContentItem) -> int {
    match c {
        FunctionCallOutputContentItem::InputText { text } => byte_len(text@) as int,
        FunctionCallOutputContentItem::InputImage { .. } => IMAGE_BYTES as int,
    }
}

/// Bytes counted for structured tool output.
pub open spec fn output_items_bytes(cs: Seq<FunctionCallOutputContentItem>) -> int
    decreases cs.len(),
{
    if cs.len() == 0 {
        0
    } else {
        output_items_bytes(cs.drop_last()) + output_item_bytes(cs.last())
    }
}

/// The rough byte size of one history item.
pub open spec fn item_bytes(item: ResponseInputItem) -> int {
    match item {
        ResponseInputItem::Message { role, content } => contents_bytes(content@) + byte_len(role@),
        ResponseInputItem::FunctionCall { name, arguments, .. } => byte_len(name@) as int
            + byte_len(arguments@) as int,
        ResponseInputItem::FunctionCallOutput { output, .. } => match output.body {
            FunctionCallOutputBody::Text(s) => byte_len(s@) as int,
            FunctionCallOutputBody::ContentItems(items) => output_items_bytes(items@),
        },
        ResponseInputItem::McpToolCallOutput { .. } => OPAQUE_OUTPUT_BYTES as int,
        ResponseInputItem::CustomToolCallOutput { .. } => OPAQUE_OUTPUT_BYTES as int,
    }
}

/// Approximate tokens of one item: a quarter of its bytes, rounded up.
pub open spec fn item_tokens(item: ResponseInputItem) -> int {
    (item_bytes(item) + 3) / 4
}

/// Total bytes of a list of items.
pub open spec fn items_bytes(items: Seq<ResponseInputItem>) -> int
    decreases items.len(),
{
    if items.len() == 0 {
        0
    } else {
        items_bytes(items.drop_last()) + item_bytes(items.last())
    }
}

/// Total approximate tokens of a list of items.
pub open spec fn items_tokens(items: Seq<ResponseInputItem>) -> int
    decreases items.len(),
{
    if items.len() == 0 {
        0
    } else {
        items_tokens(items.drop_last()) + item_tokens(items.last())
    }
}

/// The item was written by the model: an assistant message or a function call.
pub open spec fn is_model_generated_spec(item: ResponseInputItem) -> bool {
    match item {
        ResponseInputItem::Message { role, .. } => role@ == "assistant"@,
        ResponseInputItem::FunctionCall { .. } => true,
        _ => false,
    }
}

/// Index just past the last model-written item; 0 if there is none.
pub open spec fn pending_start(items: Seq<ResponseInputItem>) -> int
    decreases items.len(),
{
    if items.len() == 0 {
        0
    } else if is_model_generated_spec(items.last()) {
        items.len() as int
    } else {
        pending_start(items.drop_last())
    }
}

/// A user message: a message whose role is `user`.
pub open spec fn is_user_message(item: ResponseInputItem) -> bool {
    item matches ResponseInputItem::Message { role, .. } && role@ == "user"@
}

/// How many of the first `i` items are user messages.
pub open spec fn users_before(items: Seq<ResponseInputItem>, i: int) -> nat
    decreases i,
{
    if i <= 0 {
        0
    } else {
        users_before(items, i - 1) + if is_user_message(items[i - 1]) {
            1nat
        } else {
            0nat
        }
    }
}

/// `y` is `x` as recorded: an oversized text output is cut, anything else is kept.
pub open spec fn recorded_as(x: ResponseInputItem, y: ResponseInputItem) -> bool {
    match x {
        ResponseInputItem::FunctionCallOutput { call_id, output } => match output.body {
            FunctionCallOutputBody::Text(s) => if byte_len(s@) > MAX_OUTPUT_BYTES {
                y matches ResponseInputItem::FunctionCallOutput { call_id: c2, output: o2 } && c2
                    == call_id && o2.success is None && (o2.body matches FunctionCallOutputBody::Text(
                    t,
                ) && t@ == truncated_text(s@, MAX_OUTPUT_BYTES as int))
            } else {
                y == x
            },
            _ => y == x,
        },
        _ => y == x,
    }
}

/// Two items hold the same data (lists compared by their contents).
pub open spec fn item_same(a: ResponseInputItem, b: ResponseInputItem) -> bool {
    match (a, b) {
        (
            ResponseInputItem::Message { role: r1, content: c1 },
            ResponseInputItem::Message { role: r2, content: c2 },
        ) => r1 == r2 && c1@ == c2@,
        (
            ResponseInputItem::FunctionCallOutput { call_id: i1, output: o1 },
            ResponseInputItem::FunctionCallOutput { call_id: i2, output: o2 },
        ) => i1 == i2 && o1.success == o2.success && match (o1.body, o2.body) {
            (FunctionCallOutputBody::Text(t1), FunctionCallOutputBody::Text(t2)) => t1 == t2,
            (
                FunctionCallOutputBody::ContentItems(v1),
                FunctionCallOutputBody::ContentItems(v2),
            ) => v1@ == v2@,
            _ => false,
        },
        _ => a == b,
    }
}

/// Two item lists hold the same data, item by item.
pub open spec fn items_same(a: Seq<ResponseInputItem>, b: Seq<ResponseInputItem>) -> bool {
    a.len() == b.len() && forall|i: int| 0 <= i < a.len() ==> item_same(#[trigger] a[i], b[i])
}

/// Token estimates derived from the history.
#[derive(Debug, Clone, Copy, Default)]
pub struct TokenUsageBreakdown {
    /// Total tokens reported by the last API response.
    pub last_api_total_tokens: i64,
    /// Estimated bytes of all history items.
    pub all_items_bytes: i64,
    /// Estimated tokens of items added since the last model-written item.
    pub pending_tokens: i64,
}

/// Transcript of a thread, oldest item first, with the last token count the API reported.
#[derive(Debug)]
pub struct ContextManager {
    items: Vec<ResponseInputItem>,
    last_api_total_tokens: i64,
}

/// `a + b`, clamped to the range of `i64`.
pub open spec fn saturating_sum(a: int, b: int) -> int {
    if a + b > i64::MAX {
        i64::MAX as int
    } else if a + b < i64::MIN {
        i64::MIN as int
    } else {
        a + b
    }
}

fn saturating_add_i64(a: i64, b: i64) -> (r: i64)
    ensures
        r == saturating_sum(a as int, b as int),
{
    match a.checked_add(b) {
        Some(v) => v,
        None => if b > 0 {
            i64::MAX
        } else {
            i64::MIN
        },
    }
}

impl ContextManager {
    /// The recorded items, oldest first.
    pub closed spec fn spec_items(&self) -> Seq<ResponseInputItem> {
        self.items@
    }

    /// The last total token count reported by the API.
    pub closed spec fn spec_last_api_total(&self) -> i64 {
        self.last_api_total_tokens
    }

    /// An empty history.
    pub fn new() -> (r: Self)
        ensures
            r.spec_items().len() == 0,
            r.spec_last_api_total() == 0,
    {
        ContextManager { items: Vec::new(), last_api_total_tokens: 0 }
    }

    /// Appends items in order; oversized text outputs are cut first.
    pub fn record_items(&mut self, items: Vec<ResponseInputItem>)
        ensures
            final(self).spec_items().len() == old(self).spec_items().len() + items@.len(),
            final(self).spec_items().take(old(self).spec_items().len() as int)
                == old(self).spec_items(),
            forall|j: int|
                0 <= j < items@.len() ==> recorded_as(
                    #[trigger] items@[j],
                    final(self).spec_items()[old(self).spec_items().len() + j],
                ),
            final(self).spec_last_api_total() == old(self).spec_last_api_total(),
    {
        let ghost start = self.items@;
        let mut items = items;
        let ghost incoming = items@;
        assert(items@.len() == items.len());
        let mut rev: Vec<ResponseInputItem> = Vec::new();
        // Reverse so that popping yields the items in their original order.
        while items.len() > 0
            invariant
                rev@.len() + items@.len() == incoming.len(),
                incoming.len() <= usize::MAX,
                items@ == incoming.take(items@.len() as int),
                self.items@ == start,
                self.last_api_total_tokens == old(self).last_api_total_tokens,
                forall|k: int|
                    0 <= k < rev@.len() ==> #[trigger] rev@[k] == incoming[incoming.len() - 1 - k],
            decreases items@.len(),
        {
            let x = items.pop().unwrap();
            rev.push(x);
            assert(items@ =~= incoming.take(items@.len() as int));
        }
        let mut done: usize = 0;
        while rev.len() > 0
            invariant
                rev@.len() + done == incoming.len(),
                incoming.len() <= usize::MAX,
                self.last_api_total_tokens == old(self).last_api_total_tokens,
                forall|k: int|
                    0 <= k < rev@.len() ==> #[trigger] rev@[k] == incoming[incoming.len() - 1 - k],
                self.items@.len() == start.len() + done,
                self.items@.take(start.len() as int) == start,
                forall|j: int|
                    0 <= j < done ==> recorded_as(
                        #[trigger] incoming[j],
                        self.items@[start.len() + j],
                    ),
            decreases rev@.len(),
        {
            let ghost before = self.items@;
            let item = rev.pop().unwrap();
            assert(item == incoming[done as int]);
            if is_api_item(&item) {
                let processed = truncate_output_if_needed(item);
                self.items.push(processed);
                assert(self.items@.take(start.len() as int) =~= before.take(start.len() as int));
                assert forall|j: int| 0 <= j < done + 1 implies recorded_as(
                    #[trigger] incoming[j],
                    self.items@[start.len() + j],
                ) by {
                    if j < done {
                        assert(self.items@[start.len() + j] == before[start.len() + j]);
                    }
                }
            }
            done = done + 1;
        }
    }

    /// The history prepared for the model: a copy in which every call has an
    /// output and no output lacks its call.
    pub fn for_prompt(&self) -> (r: Vec<ResponseInputItem>)
        ensures
            exists|c: Seq<ResponseInputItem>, d: Seq<ResponseInputItem>|
                items_same(c, self.spec_items()) && outputs_filled(c, d) && r@ == d.filter(
                    |x: ResponseInputItem| kept_with_calls(d, x),
                ),
            calls_paired(r@),
    {
        let mut items = copy_items(&self.items);
        let ghost c = items@;
        ensure_call_outputs_present(&mut items);
        let ghost d = items@;
        remove_orphan_outputs(&mut items);
        proof {
            law_normalized_items_are_paired(c, d);
        }
        items
    }

    /// The recorded items, oldest first.
    pub fn raw_items(&self) -> (r: &[ResponseInputItem])
        ensures
            r@ == self.spec_items(),
    {
        self.items.as_slice()
    }

    /// Number of recorded items.
    pub fn len(&self) -> (r: usize)
        ensures
            r == self.spec_items().len(),
    {
        self.items.len()
    }

    /// Whether nothing is recorded.
    pub fn is_empty(&self) -> (r: bool)
        ensures
            r == (self.spec_items().len() == 0),
    {
        self.items.len() == 0
    }

    /// Removes the oldest item and the other half of its call/output pair.
    pub fn remove_first(&mut self)
        ensures
            old(self).spec_items().len() == 0 ==> final(self).spec_items() == old(
                self,
            ).spec_items(),
            old(self).spec_items().len() > 0 ==> final(self).spec_items() == old(
                self,
            ).spec_items().drop_first().filter(
                |x: ResponseInputItem| kept_after_removal(old(self).spec_items()[0], x),
            ),
            final(self).spec_last_api_total() == old(self).spec_last_api_total(),
    {
        if self.items.len() > 0 {
            let removed = self.items.remove(0);
            remove_corresponding(&mut self.items, &removed);
        }
    }

    /// Removes the newest item and the other half of its call/output pair;
    /// `false` when the history was empty.
    pub fn remove_last(&mut self) -> (r: bool)
        ensures
            r == (old(self).spec_items().len() > 0),
            !r ==> final(self).spec_items() == old(self).spec_items(),
            r ==> final(self).spec_items() == old(self).spec_items().drop_last().filter(
                |x: ResponseInputItem| kept_after_removal(old(self).spec_items().last(), x),
            ),
            final(self).spec_last_api_total() == old(self).spec_last_api_total(),
    {
        match self.items.pop() {
            Some(removed) => {
                remove_corresponding(&mut self.items, &removed);
                true
            },
            None => false,
        }
    }

    /// Replaces the whole history.
    pub fn replace(&mut self, items: Vec<ResponseInputItem>)
        ensures
            final(self).spec_items() == items@,
            final(self).spec_last_api_total() == old(self).spec_last_api_total(),
    {
        self.items = items;
    }

    /// Drops the last `n` user turns: everything from the `n`-th last user
    /// message on, or from the first user message when there are fewer.
    /// Items before the first user message stay.
    pub fn drop_last_n_user_turns(&mut self, n: u32)
        ensures
            ({
                let items = old(self).spec_items();
                let count = users_before(items, items.len() as int);
                if n == 0 || count == 0 {
                    final(self).spec_items() == items
                } else {
                    exists|cut: int|
                        0 <= cut < items.len() && is_user_message(#[trigger] items[cut])
                            && users_before(items, cut) == (if n >= count {
                            0
                        } else {
                            count - n
                        }) && final(self).spec_items() == items.take(cut)
                }
            }),
            final(self).spec_last_api_total() == old(self).spec_last_api_total(),
    {
        if n == 0 {
            return;
        }
        let ghost items = self.items@;
        let mut positions: Vec<usize> = Vec::new();
        let mut i: usize = 0;
        while i < self.items.len()
            invariant
                self.items@ == items,
                i <= items.len(),
                positions@.len() == users_before(items, i as int),
                forall|k: int|
                    0 <= k < positions@.len() ==> positions@[k] < i && is_user_message(
                        items[positions@[k] as int],
                    ) && users_before(items, positions@[k] as int) == k,
            decreases items.len() - i,
        {
            if is_user_message_exec(&self.items[i]) {
                positions.push(i);
            }
            i = i + 1;
        }
        if positions.len() == 0 {
            return;
        }
        let count = positions.len();
        let cut = if n as usize >= count {
            positions[0]
        } else {
            positions[count - n as usize]
        };
        self.items.truncate(cut);
    }

    /// Records the total token count reported by an API response.
    pub fn update_token_usage(&mut self, total_tokens: i64)
        ensures
            final(self).spec_items() == old(self).spec_items(),
            final(self).spec_last_api_total() == total_tokens,
    {
        self.last_api_total_tokens = total_tokens;
    }

    /// The last reported total plus the estimated tokens of the items recorded
    /// after the last model-written item, saturating at the bounds of `i64`.
    pub fn estimate_total_tokens(&self) -> (r: i64)
        requires
            items_bytes(self.spec_items().skip(pending_start(self.spec_items()))) <= i64::MAX,
        ensures
            r == estimated_total(self.spec_items(), self.spec_last_api_total()),
    {
        let pending = self.pending_tokens();
        saturating_add_i64(self.last_api_total_tokens, pending)
    }

    /// The last reported total, the bytes of all items and the tokens of the
    /// items recorded after the last model-written item.
    pub fn token_usage_breakdown(&self) -> (r: TokenUsageBreakdown)
        requires
            items_bytes(self.spec_items()) <= i64::MAX,
        ensures
            r.last_api_total_tokens == self.spec_last_api_total(),
            r.all_items_bytes == items_bytes(self.spec_items()),
            r.pending_tokens == items_tokens(self.spec_items().skip(pending_start(self.spec_items()))),
    {
        let mut total: i64 = 0;
        let mut i: usize = 0;
        while i < self.items.len()
            invariant
                i <= self.items@.len(),
                items_bytes(self.items@) <= i64::MAX,
                total == items_bytes(self.items@.take(i as int)),
            decreases self.items@.len() - i,
        {
            proof {
                lemma_items_bytes_prefix(self.items@, i as int + 1);
                assert(self.items@.take(i + 1).drop_last() =~= self.items@.take(i as int));
            }
            let b = estimate_item_bytes(&self.items[i]);
            total = total + b;
            i = i + 1;
        }
        assert(self.items@.take(i as int) =~= self.items@);
        proof {
            lemma_pending_start_bounds(self.items@);
            lemma_items_bytes_suffix(self.items@, pending_start(self.items@));
        }
        let pending = self.pending_tokens();
        TokenUsageBreakdown {
            last_api_total_tokens: self.last_api_total_tokens,
            all_items_bytes: total,
            pending_tokens: pending,
        }
    }

    /// Index just past the last model-written item.
    fn items_after_last_model_item(&self) -> (r: usize)
        ensures
            r == pending_start(self.items@),
    {
        let mut i: usize = self.items.len();
        assert(self.items@.take(i as int) =~= self.items@);
        while i > 0
            invariant
                i <= self.items@.len(),
                pending_start(self.items@) == pending_start(self.items@.take(i as int)),
            decreases i,
        {
            assert(self.items@.take(i as int).drop_last() =~= self.items@.take(i - 1));
            if is_model_generated(&self.items[i - 1]) {
                return i;
            }
            i = i - 1;
        }
        0
    }

    /// Estimated tokens of the items after the last model-written item.
    fn pending_tokens(&self) -> (r: i64)
        requires
            items_bytes(self.items@.skip(pending_start(self.items@))) <= i64::MAX,
        ensures
            r == items_tokens(self.items@.skip(pending_start(self.items@))),
    {
        let start = self.items_after_last_model_item();
        proof {
            lemma_pending_start_bounds(self.items@);
        }
        let ghost tail = self.items@.skip(start as int);
        proof {
            assert(tail.take(0) =~= Seq::<ResponseInputItem>::empty());
        }
        let mut sum: i64 = 0;
        let mut i: usize = start;
        while i < self.items.len()
            invariant
                start <= i <= self.items@.len(),
                tail == self.items@.skip(start as int),
                items_bytes(tail) <= i64::MAX,
                sum == items_tokens(tail.take(i - start)),
                sum <= items_bytes(tail.take(i - start)),
            decreases self.items@.len() - i,
        {
            proof {
                lemma_items_bytes_prefix(tail, i - start + 1);
                assert(tail.take(i + 1 - start).drop_last() =~= tail.take(i - start));
                assert(tail.take(i + 1 - start).last() == self.items@[i as int]);
                lemma_item_bytes_nonneg(self.items@[i as int]);
            }
            let t = estimate_item_tokens(&self.items[i]);
            sum = sum + t;
            i = i + 1;
        }
        assert(tail.take(i - start) =~= tail);
        sum
    }
}

proof fn lemma_pending_start_bounds(items: Seq<ResponseInputItem>)
    ensures
        0 <= pending_start(items) <= items.len(),
    decreases items.len(),
{
    if items.len() > 0 {
        lemma_pending_start_bounds(items.drop_last());
    }
}

proof fn lemma_contents_bytes_nonneg(cs: Seq<ContentItem>)
    ensures
        contents_bytes(cs) >= 0,
    decreases cs.len(),
{
    if cs.len() > 0 {
        lemma_contents_bytes_nonneg(cs.drop_last());
    }
}

proof fn lemma_output_items_bytes_nonneg(cs: Seq<FunctionCallOutputContentItem>)
    ensures
        output_items_bytes(cs) >= 0,
    decreases cs.len(),
{
    if cs.len() > 0 {
        lemma_output_items_bytes_nonneg(cs.drop_last());
    }
}

proof fn lemma_item_bytes_nonneg(item: ResponseInputItem)
    ensures
        item_bytes(item) >= 0,
{
    match item {
        ResponseInputItem::Message { content, .. } => lemma_contents_bytes_nonneg(content@),
        ResponseInputItem::FunctionCallOutput { output, .. } => match output.body {
            FunctionCallOutputBody::ContentItems(v) => lemma_output_items_bytes_nonneg(v@),
            _ => {},
        },
        _ => {},
    }
}

/// A prefix of a history has no more bytes than the history.
proof fn lemma_items_bytes_prefix(items: Seq<ResponseInputItem>, i: int)
    requires
        0 <= i <= items.len(),
    ensures
        0 <= items_bytes(items.take(i)) <= items_bytes(items),
        i > 0 ==> item_bytes(items[i - 1]) <= items_bytes(items.take(i)),
    decreases items.len(),
{
    if items.len() > 0 {
        lemma_item_bytes_nonneg(items.last());
        if i == items.len() {
            assert(items.take(i) =~= items);
            lemma_items_bytes_prefix(items.drop_last(), i - 1);
            assert(items.drop_last().take(i - 1) =~= items.take(i - 1));
            if i > 1 {
                lemma_item_bytes_nonneg(items[i - 2]);
            }
            assert(items.drop_last() =~= items.take(i).drop_last());
        } else {
            lemma_items_bytes_prefix(items.drop_last(), i);
            assert(items.drop_last().take(i) =~= items.take(i));
        }
    }
}

/// Copy of one content item.
fn copy_content(c: &ContentItem) -> (r: ContentItem)
    ensures
        r == *c,
{
    match c {
        ContentItem::InputText { text } => ContentItem::InputText { text: text.clone() },
        ContentItem::InputImage { image_url } => ContentItem::InputImage { image_url: image_url.clone() },
        ContentItem::OutputText { text } => ContentItem::OutputText { text: text.clone() },
    }
}

/// Copy of one structured output item.
fn copy_output_item(c: &FunctionCallOutputContentItem) -> (r: FunctionCallOutputContentItem)
    ensures
        r == *c,
{
    match c {
        FunctionCallOutputContentItem::InputText { text } => FunctionCallOutputContentItem::InputText {
            text: text.clone(),
        },
        FunctionCallOutputContentItem::InputImage { image_url } => FunctionCallOutputContentItem::InputImage {
            image_url: image_url.clone(),
        },
    }
}

/// Copy of a content list.
fn copy_contents(v: &Vec<ContentItem>) -> (r: Vec<ContentItem>)
    ensures
        r@ == v@,
{
    let mut out: Vec<ContentItem> = Vec::new();
    let mut i: usize = 0;
    while i < v.len()
        invariant
            i <= v.len(),
            out@ == v@.take(i as int),
        decreases v.len() - i,
    {
        out.push(copy_content(&v[i]));
        i = i + 1;
        assert(out@ =~= v@.take(i as int));
    }
    assert(v@.take(v.len() as int) =~= v@);
    out
}

/// Copy of a structured output list.
fn copy_output_items(v: &Vec<FunctionCallOutputContentItem>) -> (r: Vec<FunctionCallOutputContentItem>)
    ensures
        r@ == v@,
{
    let mut out: Vec<FunctionCallOutputContentItem> = Vec::new();
    let mut i: usize = 0;
    while i < v.len()
        invariant
            i <= v.len(),
            out@ == v@.take(i as int),
        decreases v.len() - i,
    {
        out.push(copy_output_item(&v[i]));
        i = i + 1;
        assert(out@ =~= v@.take(i as int));
    }
    assert(v@.take(v.len() as int) =~= v@);
    out
}

/// Copy of one history item.
pub fn copy_item(item: &ResponseInputItem) -> (r: ResponseInputItem)
    ensures
        item_same(r, *item),
{
    match item {
        ResponseInputItem::Message { role, content } => ResponseInputItem::Message {
            role: role.clone(),
            content: copy_contents(content),
        },
        ResponseInputItem::FunctionCall { call_id, name, arguments } => ResponseInputItem::FunctionCall {
            call_id: call_id.clone(),
            name: name.clone(),
            arguments: arguments.clone(),
        },
        ResponseInputItem::FunctionCallOutput { call_id, output } => {
            let body = match &output.body {
                FunctionCallOutputBody::Text(t) => FunctionCallOutputBody::Text(t.clone()),
                FunctionCallOutputBody::ContentItems(v) => FunctionCallOutputBody::ContentItems(
                    copy_output_items(v),
                ),
            };
            ResponseInputItem::FunctionCallOutput {
                call_id: call_id.clone(),
                output: FunctionCallOutputPayload { body, success: output.success },
            }
        },
        ResponseInputItem::McpToolCallOutput { call_id, output } => ResponseInputItem::McpToolCallOutput {
            call_id: call_id.clone(),
            output: output.clone(),
        },
        ResponseInputItem::CustomToolCallOutput { call_id, output } => ResponseInputItem::CustomToolCallOutput {
            call_id: call_id.clone(),
            output: output.clone(),
        },
    }
}

/// Copy of a list of history items.
pub fn copy_items(v: &Vec<ResponseInputItem>) -> (r: Vec<ResponseInputItem>)
    ensures
        items_same(r@, v@),
{
    let mut out: Vec<ResponseInputItem> = Vec::new();
    let mut i: usize = 0;
    while i < v.len()
        invariant
            i <= v.len(),
            out@.len() == i,
            forall|k: int| 0 <= k < i ==> item_same(#[trigger] out@[k], v@[k]),
        decreases v.len() - i,
    {
        out.push(copy_item(&v[i]));
        i = i + 1;
    }
    out
}

/// Every current item kind is sent to the API.
pub fn is_api_item(item: &ResponseInputItem) -> (r: bool)
    ensures
        r,
{
    match item {
        ResponseInputItem::Message { .. } => true,
        ResponseInputItem::FunctionCall { .. } => true,
        ResponseInputItem::FunctionCallOutput { .. } => true,
        ResponseInputItem::McpToolCallOutput { .. } => true,
        ResponseInputItem::CustomToolCallOutput { .. } => true,
    }
}

/// Whether the model wrote this item: an assistant message or a function call.
pub fn is_model_generated(item: &ResponseInputItem) -> (r: bool)
    ensures
        r == is_model_generated_spec(*item),
{
    match item {
        ResponseInputItem::Message { role, .. } => str_eq(role.as_str(), "assistant"),
        ResponseInputItem::FunctionCall { .. } => true,
        _ => false,
    }
}

/// Whether the item is a user message.
fn is_user_message_exec(item: &ResponseInputItem) -> (r: bool)
    ensures
        r == is_user_message(*item),
{
    match item {
        ResponseInputItem::Message { role, .. } => str_eq(role.as_str(), "user"),
        _ => false,
    }
}

/// Rough byte size of one item.
pub fn estimate_item_bytes(item: &ResponseInputItem) -> (r: i64)
    requires
        item_bytes(*item) <= i64::MAX,
    ensures
        r == item_bytes(*item),
{
    proof {
        lemma_item_bytes_nonneg(*item);
    }
    match item {
        ResponseInputItem::Message { content, role } => {
            let mut total: u64 = 0;
            let mut i: usize = 0;
            while i < content.len()
                invariant
                    i <= content@.len(),
                    contents_bytes(content@) + byte_len(role@) <= i64::MAX,
                    total == contents_bytes(content@.take(i as int)),
                decreases content@.len() - i,
            {
                proof {
                    lemma_contents_bytes_prefix(content@, i as int + 1);
                    assert(content@.take(i + 1).drop_last() =~= content@.take(i as int));
                }
                let b: u64 = match &content[i] {
                    ContentItem::InputText { text } => byte_len_exec(text.as_str()) as u64,
                    ContentItem::OutputText { text } => byte_len_exec(text.as_str()) as u64,
                    ContentItem::InputImage { .. } => IMAGE_BYTES,
                };
                total = total + b;
                i = i + 1;
            }
            assert(content@.take(i as int) =~= content@);
            let r = total + byte_len_exec(role.as_str()) as u64;
            r as i64
        },
        ResponseInputItem::FunctionCall { name, arguments, .. } => {
            (byte_len_exec(name.as_str()) as u64 + byte_len_exec(arguments.as_str()) as u64) as i64
        },
        ResponseInputItem::FunctionCallOutput { output, .. } => match &output.body {
            FunctionCallOutputBody::Text(s) => byte_len_exec(s.as_str()) as i64,
            FunctionCallOutputBody::ContentItems(items) => {
                let mut total: u64 = 0;
                let mut i: usize = 0;
                while i < items.len()
                    invariant
                        i <= items@.len(),
                        output_items_bytes(items@) <= i64::MAX,
                        total == output_items_bytes(items@.take(i as int)),
                    decreases items@.len() - i,
                {
                    proof {
                        lemma_output_items_bytes_prefix(items@, i as int + 1);
                        assert(items@.take(i + 1).drop_last() =~= items@.take(i as int));
                    }
                    let b: u64 = match &items[i] {
                        FunctionCallOutputContentItem::InputText { text } => byte_len_exec(text.as_str()) as u64,
                        FunctionCallOutputContentItem::InputImage { .. } => IMAGE_BYTES,
                    };
                    total = total + b;
                    i = i + 1;
                }
                assert(items@.take(i as int) =~= items@);
                total as i64
            },
        },
        ResponseInputItem::McpToolCallOutput { .. } => OPAQUE_OUTPUT_BYTES as i64,
        ResponseInputItem::CustomToolCallOutput { .. } => OPAQUE_OUTPUT_BYTES as i64,
    }
}

proof fn lemma_contents_bytes_prefix(cs: Seq<ContentItem>, i: int)
    requires
        0 <= i <= cs.len(),
    ensures
        0 <= contents_bytes(cs.take(i)) <= contents_bytes(cs),
        i > 0 ==> content_bytes(cs[i - 1]) <= contents_bytes(cs.take(i)),
    decreases cs.len(),
{
    if cs.len() > 0 {
        if i == cs.len() {
            assert(cs.take(i) =~= cs);
            lemma_contents_bytes_nonneg(cs.drop_last());
        } else {
            lemma_contents_bytes_prefix(cs.drop_last(), i);
            assert(cs.drop_last().take(i) =~= cs.take(i));
        }
    }
}

proof fn lemma_output_items_bytes_prefix(cs: Seq<FunctionCallOutputContentItem>, i: int)
    requires
        0 <= i <= cs.len(),
    ensures
        0 <= output_items_bytes(cs.take(i)) <= output_items_bytes(cs),
        i > 0 ==> output_item_bytes(cs[i - 1]) <= output_items_bytes(cs.take(i)),
    decreases cs.len(),
{
    if cs.len() > 0 {
        if i == cs.len() {
            assert(cs.take(i) =~= cs);
            lemma_output_items_bytes_nonneg(cs.drop_last());
        } else {
            lemma_output_items_bytes_prefix(cs.drop_last(), i);
            assert(cs.drop_last().take(i) =~= cs.take(i));
        }
    }
}

/// Approximate tokens of one item: a quarter of its bytes, rounded up.
pub fn estimate_item_tokens(item: &ResponseInputItem) -> (r: i64)
    requires
        item_bytes(*item) <= i64::MAX,
    ensures
        r == item_tokens(*item),
        0 <= r <= item_bytes(*item),
{
    let bytes = estimate_item_bytes(item);
    proof {
        lemma_item_bytes_nonneg(*item);
    }
    if bytes == 0 {
        return 0;
    }
    (bytes - 1) / 4 + 1
}

/// The item as recorded: an oversized text output is cut to
/// [`MAX_OUTPUT_BYTES`] and loses its success flag; anything else is kept.
pub fn truncate_output_if_needed(item: ResponseInputItem) -> (r: ResponseInputItem)
    ensures
        recorded_as(item, r),
{
    match item {
        ResponseInputItem::FunctionCallOutput { call_id, output } => {
            let cut = match &output.body {
                FunctionCallOutputBody::Text(s) => if byte_len_exec(s.as_str()) > MAX_OUTPUT_BYTES {
                    Some(truncate_str(s.as_str(), MAX_OUTPUT_BYTES))
                } else {
                    None
                },
                _ => None,
            };
            let output = match cut {
                Some(t) => FunctionCallOutputPayload { body: FunctionCallOutputBody::Text(t), success: None },
                None => output,
            };
            ResponseInputItem::FunctionCallOutput { call_id, output }
        },
        other => other,
    }
}

/// The tokens of a list of items are between zero and its bytes.
proof fn lemma_items_tokens_bounds(items: Seq<ResponseInputItem>)
    ensures
        0 <= items_tokens(items) <= items_bytes(items),
    decreases items.len(),
{
    if items.len() > 0 {
        lemma_items_tokens_bounds(items.drop_last());
        lemma_item_bytes_nonneg(items.last());
    }
}

/// The items from position `k` on take at most the bytes of all items.
proof fn lemma_items_bytes_suffix(items: Seq<ResponseInputItem>, k: int)
    requires
        0 <= k <= items.len(),
    ensures
        0 <= items_bytes(items.skip(k)) <= items_bytes(items),
    decreases items.len(),
{
    if k == items.len() {
        assert(items.skip(k).len() == 0);
        lemma_items_bytes_prefix(items, items.len() as int);
        assert(items.take(items.len() as int) =~= items);
    } else {
        assert(items.skip(k).drop_last() =~= items.drop_last().skip(k));
        assert(items.skip(k).last() == items.last());
        lemma_items_bytes_suffix(items.drop_last(), k);
        lemma_item_bytes_nonneg(items.last());
    }
}

/// Items after which nothing is model-written: no assistant message and no
/// function call among them leaves the start of the pending items where it was.
proof fn lemma_pending_start_after(items: Seq<ResponseInputItem>, later: Seq<ResponseInputItem>)
    requires
        forall|i: int|
            0 <= i < later.len() ==> !((#[trigger] later[i]) matches ResponseInputItem::Message { role, .. }
                && role@ == "assistant"@) && !(later[i] is FunctionCall),
    ensures
        pending_start(items + later) == pending_start(items),
    decreases later.len(),
{
    if later.len() > 0 {
        assert((items + later).drop_last() =~= items + later.drop_last());
        assert((items + later).last() == later[later.len() - 1]);
        lemma_pending_start_after(items, later.drop_last());
    } else {
        assert(items + later =~= items);
    }
}

/// An assistant message, like a function call, is model-written: right after
/// one is recorded, with the reported total at `t`, the estimate is exactly
/// `t`; each item recorded later that is neither an assistant message nor a
/// function call adds only its own tokens (saturating at the bounds of `i64`).
pub proof fn law_assistant_message_settles_estimate(
    items: Seq<ResponseInputItem>,
    assistant: ResponseInputItem,
    later: Seq<ResponseInputItem>,
    t: i64,
)
    requires
        (assistant matches ResponseInputItem::Message { role, .. } && role@ == "assistant"@)
            || assistant is FunctionCall,
        forall|i: int|
            0 <= i < later.len() ==> !((#[trigger] later[i]) matches ResponseInputItem::Message { role, .. }
                && role@ == "assistant"@) && !(later[i] is FunctionCall),
    ensures
        estimated_total(items.push(assistant), t) == t,
        estimated_total(items.push(assistant) + later, t) == saturating_sum(t as int, items_tokens(later)),
{
    let h = items.push(assistant);
    assert(h.last() == assistant);
    assert(pending_start(h) == h.len());
    assert(h.skip(h.len() as int) =~= Seq::<ResponseInputItem>::empty());
    lemma_pending_start_after(h, later);
    assert((h + later).skip(h.len() as int) =~= later);
}

/// What the breakdown reports adds up to the estimate, for every history: the
/// estimate is the last reported total plus the pending tokens, saturating at
/// the bounds of `i64`; the pending tokens lie between zero and the bytes of
/// all items; and every item counts a non-negative number of bytes, so the
/// bytes of all items are at least those of any item.
pub proof fn law_breakdown_matches_estimate(items: Seq<ResponseInputItem>, last: i64)
    ensures
        saturating_sum(last as int, items_tokens(items.skip(pending_start(items)))) == estimated_total(items, last),
        0 <= items_tokens(items.skip(pending_start(items))) <= items_bytes(items),
        forall|i: int| 0 <= i < items.len() ==> 0 <= #[trigger] item_bytes(items[i]) <= items_bytes(items),
{
    lemma_pending_start_bounds(items);
    lemma_items_tokens_bounds(items.skip(pending_start(items)));
    lemma_items_bytes_suffix(items, pending_start(items));
    assert forall|i: int| 0 <= i < items.len() implies 0 <= #[trigger] item_bytes(items[i]) <= items_bytes(items) by {
        lemma_item_bytes_nonneg(items[i]);
        lemma_items_bytes_prefix(items, i + 1);
        lemma_items_bytes_prefix(items, items.len() as int);
        assert(items.take(items.len() as int) =~= items);
    }
}

/// The token estimate of a history: the last reported total plus the tokens of
/// the items after the last model-written item, saturating.
pub open spec fn estimated_total(items: Seq<ResponseInputItem>, last: i64) -> int {
    saturating_sum(last as int, items_tokens(items.skip(pending_start(items))))
}

} // verus!
