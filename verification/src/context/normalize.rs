//! Pairing of tool calls with their outputs in conversation history.
use vstd::prelude::*;

use crate::protocol::{FunctionCallOutputBody, FunctionCallOutputPayload, ResponseInputItem};

verus! {

/// The call id of a function call; `None` for other items.
pub open spec fn call_id_of(item: ResponseInputItem) -> Option<Seq<char>> {
    match item {
        ResponseInputItem::FunctionCall { call_id, .. } => Some(call_id@),
        _ => None,
    }
}

/// The call id of a function call output; `None` for other items.
pub open spec fn output_id_of(item: ResponseInputItem) -> Option<Seq<char>> {
    match item {
        ResponseInputItem::FunctionCallOutput { call_id, .. } => Some(call_id@),
        _ => None,
    }
}

/// Some item of `items` is the output of call `id`.
pub open spec fn has_output_for(items: Seq<ResponseInputItem>, id: Seq<char>) -> bool {
    exists|j: int| 0 <= j < items.len() && output_id_of(#[trigger] items[j]) == Some(id)
}

/// Some item of `items` is the call `id`.
pub open spec fn has_call_for(items: Seq<ResponseInputItem>, id: Seq<char>) -> bool {
    exists|j: int| 0 <= j < items.len() && call_id_of(#[trigger] items[j]) == Some(id)
}

/// Item `i` is a call whose output appears nowhere in `items`.
pub open spec fn needs_output(items: Seq<ResponseInputItem>, i: int) -> bool {
    call_id_of(items[i]) matches Some(id) && !has_output_for(items, id)
}

/// How many of the first `i` items are calls without output.
pub open spec fn missing_before(items: Seq<ResponseInputItem>, i: int) -> nat
    decreases i,
{
    if i <= 0 {
        0
    } else {
        missing_before(items, i - 1) + if needs_output(items, i - 1) {
            1nat
        } else {
            0nat
        }
    }
}

/// `item` is the synthetic output `"aborted"` of call `id`.
pub open spec fn is_aborted_output(item: ResponseInputItem, id: Seq<char>) -> bool {
    match item {
        ResponseInputItem::FunctionCallOutput { call_id, output } => call_id@ == id
            && output.success is None && (output.body matches FunctionCallOutputBody::Text(t)
            && t@ == "aborted"@),
        _ => false,
    }
}

/// `r` is `items` with an aborted output placed right after every call whose
/// output is missing.
pub open spec fn outputs_filled(items: Seq<ResponseInputItem>, r: Seq<ResponseInputItem>) -> bool {
    &&& r.len() == items.len() + missing_before(items, items.len() as int)
    &&& forall|i: int|
        0 <= i < items.len() ==> #[trigger] r[i + missing_before(items, i)] == items[i]
    &&& forall|i: int|
        0 <= i < items.len() && #[trigger] needs_output(items, i) ==> is_aborted_output(
            r[i + missing_before(items, i) + 1],
            call_id_of(items[i]).unwrap(),
        )
}

/// An output survives orphan removal if its call is in `all`; other items always do.
pub open spec fn kept_with_calls(all: Seq<ResponseInputItem>, x: ResponseInputItem) -> bool {
    match output_id_of(x) {
        Some(id) => has_call_for(all, id),
        None => true,
    }
}

/// An item survives removal of `removed` when it is not the other half of its pair.
pub open spec fn kept_after_removal(removed: ResponseInputItem, x: ResponseInputItem) -> bool {
    match removed {
        ResponseInputItem::FunctionCall { call_id, .. } => output_id_of(x) != Some(call_id@),
        ResponseInputItem::FunctionCallOutput { call_id, .. } => call_id_of(x) != Some(call_id@),
        _ => true,
    }
}

proof fn lemma_missing_before_mono(items: Seq<ResponseInputItem>, i: int, j: int)
    requires
        i <= j,
    ensures
        missing_before(items, i) <= missing_before(items, j),
        missing_before(items, j) <= missing_before(items, i) + (j - i) || j < 0,
    decreases j - i,
{
    if i < j {
        lemma_missing_before_mono(items, i, j - 1);
    }
}

/// Whether some item of `items` is the output of call `id`.
fn has_output_exec(items: &Vec<ResponseInputItem>, id: &String) -> (r: bool)
    ensures
        r == has_output_for(items@, id@),
{
    let mut j: usize = 0;
    while j < items.len()
        invariant
            j <= items.len(),
            forall|k: int| 0 <= k < j ==> output_id_of(#[trigger] items@[k]) != Some(id@),
        decreases items.len() - j,
    {
        if let ResponseInputItem::FunctionCallOutput { call_id, .. } = &items[j] {
            if *call_id == *id {
                assert(output_id_of(items@[j as int]) == Some(id@));
                return true;
            }
        }
        j = j + 1;
    }
    false
}

/// Ensures every function call has an output: a missing one is replaced by a
/// synthetic `"aborted"` output placed right after the call.
pub fn ensure_call_outputs_present(items: &mut Vec<ResponseInputItem>)
    ensures
        outputs_filled(old(items)@, final(items)@),
{
    let ghost orig = items@;
    let n = items.len();
    // Which calls lack an output, judged on the history as given.
    let mut missing: Vec<bool> = Vec::new();
    let mut i: usize = 0;
    while i < n
        invariant
            n == items.len(),
            items@ == orig,
            i <= n,
            missing@.len() == i,
            forall|k: int| 0 <= k < i ==> missing@[k] == needs_output(orig, k),
        decreases n - i,
    {
        let flag = match &items[i] {
            ResponseInputItem::FunctionCall { call_id, .. } => !has_output_exec(items, call_id),
            _ => false,
        };
        missing.push(flag);
        i = i + 1;
    }
    let mut i: usize = 0;
    let mut shift: usize = 0;
    while i < n
        invariant
            n == orig.len(),
            missing@.len() == n,
            forall|k: int| 0 <= k < n ==> missing@[k] == needs_output(orig, k),
            i <= n,
            shift == missing_before(orig, i as int),
            shift <= i,
            items@.len() == n + shift,
            forall|k: int|
                0 <= k < i ==> #[trigger] items@[k + missing_before(orig, k)] == orig[k],
            forall|k: int|
                0 <= k < i && #[trigger] needs_output(orig, k) ==> is_aborted_output(
                    items@[k + missing_before(orig, k) + 1],
                    call_id_of(orig[k]).unwrap(),
                ),
            forall|k: int| i <= k < n ==> #[trigger] items@[k + shift] == orig[k],
        decreases n - i,
    {
        proof {
            lemma_missing_before_mono(orig, i as int, i as int + 1);
        }
        let len = items.len();
        if missing[i] {
            let pos = i + shift;
            let out = match &items[pos] {
                ResponseInputItem::FunctionCall { call_id, .. } => ResponseInputItem::FunctionCallOutput {
                    call_id: call_id.clone(),
                    output: FunctionCallOutputPayload::from_text("aborted".to_owned()),
                },
                _ => {
                    proof {
                        assert(items@[i + shift] == orig[i as int]);
                    }
                    return;
                },
            };
            let ghost before = items@;
            let ghost s0 = shift;
            items.insert(pos + 1, out);
            proof {
                assert(is_aborted_output(items@[pos + 1], call_id_of(orig[i as int]).unwrap()));
                assert forall|k: int| 0 <= k < i implies #[trigger] items@[k + missing_before(orig, k)]
                    == orig[k] by {
                    lemma_missing_before_mono(orig, k, i as int);
                    assert(before[k + missing_before(orig, k)] == orig[k]);
                }
                assert forall|k: int|
                    0 <= k < i && #[trigger] needs_output(orig, k) implies is_aborted_output(
                    items@[k + missing_before(orig, k) + 1],
                    call_id_of(orig[k]).unwrap(),
                ) by {
                    lemma_missing_before_mono(orig, k + 1, i as int);
                }
            }
            shift = shift + 1;
            proof {
                assert forall|k: int| i + 1 <= k < n implies #[trigger] items@[k + shift]
                    == orig[k] by {
                    assert(before[k + s0] == orig[k]);
                }
            }
        } else {
            proof {
                assert forall|k: int| i + 1 <= k < n implies #[trigger] items@[k + shift] == orig[k] by {
                    assert(items@[k + shift] == orig[k]);
                }
            }
        }
        i = i + 1;
    }
    assert(outputs_filled(orig, items@));
}

/// Which items a retention pass keeps.
enum Retain {
    /// Outputs whose call id is listed; every other item.
    OutputsOfCalls(Vec<String>),
    /// Everything but outputs of this call.
    NotOutputOf(String),
    /// Everything but calls with this id.
    NotCallOf(String),
}

spec fn listed(ids: Seq<String>, id: Seq<char>) -> bool {
    exists|j: int| 0 <= j < ids.len() && (#[trigger] ids[j])@ == id
}

spec fn retain_keeps(rule: Retain, x: ResponseInputItem) -> bool {
    match rule {
        Retain::OutputsOfCalls(ids) => match output_id_of(x) {
            Some(id) => listed(ids@, id),
            None => true,
        },
        Retain::NotOutputOf(id) => output_id_of(x) != Some(id@),
        Retain::NotCallOf(id) => call_id_of(x) != Some(id@),
    }
}

fn listed_exec(ids: &Vec<String>, id: &String) -> (r: bool)
    ensures
        r == listed(ids@, id@),
{
    let mut j: usize = 0;
    while j < ids.len()
        invariant
            j <= ids.len(),
            forall|k: int| 0 <= k < j ==> (#[trigger] ids@[k])@ != id@,
        decreases ids.len() - j,
    {
        if ids[j] == *id {
            return true;
        }
        j = j + 1;
    }
    false
}

fn retain_keeps_exec(rule: &Retain, x: &ResponseInputItem) -> (r: bool)
    ensures
        r == retain_keeps(*rule, *x),
{
    match rule {
        Retain::OutputsOfCalls(ids) => match x {
            ResponseInputItem::FunctionCallOutput { call_id, .. } => listed_exec(ids, call_id),
            _ => true,
        },
        Retain::NotOutputOf(id) => match x {
            ResponseInputItem::FunctionCallOutput { call_id, .. } => !(*call_id == *id),
            _ => true,
        },
        Retain::NotCallOf(id) => match x {
            ResponseInputItem::FunctionCall { call_id, .. } => !(*call_id == *id),
            _ => true,
        },
    }
}

/// Keeps, in order, the items that `rule` accepts.
fn retain_items(items: &mut Vec<ResponseInputItem>, rule: &Retain)
    ensures
        final(items)@ == old(items)@.filter(|x: ResponseInputItem| retain_keeps(*rule, x)),
{
    let ghost orig = items@;
    let ghost f = |x: ResponseInputItem| retain_keeps(*rule, x);
    let mut i: usize = 0;
    let ghost mut p: int = 0;
    while i < items.len()
        invariant
            0 <= i <= p <= orig.len(),
            items@.len() == i + (orig.len() - p),
            items@.take(i as int) == orig.take(p).filter(f),
            items@.skip(i as int) == orig.skip(p),
            f == (|x: ResponseInputItem| retain_keeps(*rule, x)),
        decreases items@.len() - i,
    {
        let ghost before = items@;
        assert(before[i as int] == orig[p]) by {
            assert(before.skip(i as int)[0] == orig.skip(p)[0]);
        }
        assert(orig.take(p + 1).drop_last() =~= orig.take(p));
        proof {
            reveal(Seq::filter);
        }
        if retain_keeps_exec(rule, &items[i]) {
            i = i + 1;
            assert(items@.take(i as int) =~= before.take(i - 1).push(before[i - 1]));
            assert forall|k: int| 0 <= k < items@.skip(i as int).len() implies items@.skip(
                i as int,
            )[k] == orig.skip(p + 1)[k] by {
                assert(before.skip(i - 1)[k + 1] == orig.skip(p)[k + 1]);
            }
            assert(items@.skip(i as int) =~= orig.skip(p + 1));
        } else {
            items.remove(i);
            assert(items@.take(i as int) =~= before.take(i as int));
            assert forall|k: int| 0 <= k < items@.skip(i as int).len() implies items@.skip(
                i as int,
            )[k] == orig.skip(p + 1)[k] by {
                assert(before.skip(i as int)[k + 1] == orig.skip(p)[k + 1]);
            }
            assert(items@.skip(i as int) =~= orig.skip(p + 1));
        }
        proof {
            p = p + 1;
        }
    }
    assert(items@ =~= items@.take(i as int));
    assert(orig.skip(p).len() == 0);
    assert(p == orig.len());
    assert(orig.take(p) =~= orig);
}

/// Removes outputs whose call is not in the history.
pub fn remove_orphan_outputs(items: &mut Vec<ResponseInputItem>)
    ensures
        final(items)@ == old(items)@.filter(
            |x: ResponseInputItem| kept_with_calls(old(items)@, x),
        ),
{
    let ghost orig = items@;
    let mut ids: Vec<String> = Vec::new();
    let mut i: usize = 0;
    while i < items.len()
        invariant
            items@ == orig,
            i <= items.len(),
            forall|id: Seq<char>|
                listed(ids@, id) <==> exists|j: int|
                    0 <= j < i && call_id_of(#[trigger] orig[j]) == Some(id),
        decreases items.len() - i,
    {
        let ghost old_ids = ids@;
        if let ResponseInputItem::FunctionCall { call_id, .. } = &items[i] {
            ids.push(call_id.clone());
            assert forall|id: Seq<char>| listed(ids@, id) <==> exists|j: int|
                0 <= j < i + 1 && call_id_of(#[trigger] orig[j]) == Some(id) by {
                if listed(ids@, id) {
                    let j = choose|j: int| 0 <= j < ids@.len() && (#[trigger] ids@[j])@ == id;
                    if j < old_ids.len() {
                        assert(old_ids[j] == ids@[j]);
                        assert(listed(old_ids, id));
                    } else {
                        assert(call_id_of(orig[i as int]) == Some(id));
                    }
                }
                if exists|j: int| 0 <= j < i + 1 && call_id_of(#[trigger] orig[j]) == Some(id) {
                    let j = choose|j: int| 0 <= j < i + 1 && call_id_of(#[trigger] orig[j]) == Some(id);
                    if j < i {
                        assert(exists|j2: int| 0 <= j2 < i && call_id_of(#[trigger] orig[j2]) == Some(id));
                        assert(listed(old_ids, id));
                        let k = choose|k: int| 0 <= k < old_ids.len() && (#[trigger] old_ids[k])@ == id;
                        assert(ids@[k] == old_ids[k]);
                    } else {
                        assert(ids@[old_ids.len() as int]@ == id);
                    }
                }
            }
        } else {
            assert forall|id: Seq<char>| listed(ids@, id) <==> exists|j: int|
                0 <= j < i + 1 && call_id_of(#[trigger] orig[j]) == Some(id) by {
                if exists|j: int| 0 <= j < i + 1 && call_id_of(#[trigger] orig[j]) == Some(id) {
                    let j = choose|j: int| 0 <= j < i + 1 && call_id_of(#[trigger] orig[j]) == Some(id);
                    assert(j < i);
                }
            }
        }
        i = i + 1;
    }
    let rule = Retain::OutputsOfCalls(ids);
    retain_items(items, &rule);
    assert((|x: ResponseInputItem| retain_keeps(rule, x)) =~= (|x: ResponseInputItem|
        kept_with_calls(orig, x)));
}

/// Removes the other half of the call/output pair that `removed` belonged to.
pub fn remove_corresponding(items: &mut Vec<ResponseInputItem>, removed: &ResponseInputItem)
    ensures
        final(items)@ == old(items)@.filter(
            |x: ResponseInputItem| kept_after_removal(*removed, x),
        ),
{
    let ghost orig = items@;
    match removed {
        ResponseInputItem::FunctionCall { call_id, .. } => {
            let rule = Retain::NotOutputOf(call_id.clone());
            retain_items(items, &rule);
            assert((|x: ResponseInputItem| retain_keeps(rule, x)) =~= (|x: ResponseInputItem|
                kept_after_removal(*removed, x)));
        },
        ResponseInputItem::FunctionCallOutput { call_id, .. } => {
            let rule = Retain::NotCallOf(call_id.clone());
            retain_items(items, &rule);
            assert((|x: ResponseInputItem| retain_keeps(rule, x)) =~= (|x: ResponseInputItem|
                kept_after_removal(*removed, x)));
        },
        _ => {
            proof {
                lemma_filter_all(orig, |x: ResponseInputItem| kept_after_removal(*removed, x));
            }
        },
    }
}

/// Every call in `items` has its output there, and every output its call.
pub open spec fn calls_paired(items: Seq<ResponseInputItem>) -> bool {
    &&& forall|i: int|
        0 <= i < items.len() && (#[trigger] call_id_of(items[i])) is Some ==> has_output_for(
            items,
            call_id_of(items[i]).unwrap(),
        )
    &&& forall|i: int|
        0 <= i < items.len() && (#[trigger] output_id_of(items[i])) is Some ==> has_call_for(
            items,
            output_id_of(items[i]).unwrap(),
        )
}

/// Each position of a filled history holds either an original item or the
/// aborted output inserted after a call that lacked one.
proof fn lemma_filled_position(items: Seq<ResponseInputItem>, k: int, j: int) -> (i: int)
    requires
        0 <= j <= items.len(),
        j + missing_before(items, j) <= k < items.len() + missing_before(items, items.len() as int),
    ensures
        0 <= i < items.len(),
        k == i + missing_before(items, i) || (needs_output(items, i) && k == i + missing_before(
            items,
            i,
        ) + 1),
    decreases items.len() - j,
{
    if j < items.len() && j + 1 + missing_before(items, j + 1) <= k {
        lemma_filled_position(items, k, j + 1)
    } else {
        j
    }
}

/// In a history with missing outputs filled in, every call has an output.
proof fn lemma_filled_calls_have_outputs(items: Seq<ResponseInputItem>, filled: Seq<ResponseInputItem>, k: int)
    requires
        outputs_filled(items, filled),
        0 <= k < filled.len(),
        call_id_of(filled[k]) is Some,
    ensures
        has_output_for(filled, call_id_of(filled[k]).unwrap()),
{
    let i = lemma_filled_position(items, k, 0);
    let id = call_id_of(filled[k]).unwrap();
    if k == i + missing_before(items, i) {
        assert(filled[i + missing_before(items, i)] == items[i]);
        if needs_output(items, i) {
            let o = i + missing_before(items, i) + 1;
            lemma_missing_before_mono(items, i + 1, items.len() as int);
            assert(is_aborted_output(filled[o], id));
            assert(output_id_of(filled[o]) == Some(id));
        } else {
            assert(has_output_for(items, id));
            let j = choose|j: int| 0 <= j < items.len() && output_id_of(#[trigger] items[j]) == Some(id);
            lemma_missing_before_mono(items, j + 1, items.len() as int);
            assert(filled[j + missing_before(items, j)] == items[j]);
            assert(output_id_of(filled[j + missing_before(items, j)]) == Some(id));
        }
    } else {
        assert(is_aborted_output(filled[k], call_id_of(items[i]).unwrap()));
    }
}

/// After missing outputs are filled in and orphan outputs removed, every call
/// has its output and every output its call.
pub proof fn law_normalized_items_are_paired(items: Seq<ResponseInputItem>, filled: Seq<ResponseInputItem>)
    requires
        outputs_filled(items, filled),
    ensures
        calls_paired(filled.filter(|x: ResponseInputItem| kept_with_calls(filled, x))),
{
    broadcast use vstd::seq_lib::group_filter_ensures;
    let keep = |x: ResponseInputItem| kept_with_calls(filled, x);
    let r = filled.filter(keep);
    assert forall|m: int| 0 <= m < r.len() && (#[trigger] call_id_of(r[m])) is Some implies has_output_for(
        r,
        call_id_of(r[m]).unwrap(),
    ) by {
        let id = call_id_of(r[m]).unwrap();
        assert(r.contains(r[m]));
        filled.lemma_filter_contains_rev(keep, r[m]);
        let k = choose|k: int| 0 <= k < filled.len() && filled[k] == r[m];
        lemma_filled_calls_have_outputs(items, filled, k);
        let j = choose|j: int| 0 <= j < filled.len() && output_id_of(#[trigger] filled[j]) == Some(id);
        assert(call_id_of(filled[k]) == Some(id));
        assert(keep(filled[j]));
        filled.lemma_filter_contains(keep, j);
        let q = choose|q: int| 0 <= q < r.len() && r[q] == filled[j];
        assert(output_id_of(r[q]) == Some(id));
    }
    assert forall|m: int| 0 <= m < r.len() && (#[trigger] output_id_of(r[m])) is Some implies has_call_for(
        r,
        output_id_of(r[m]).unwrap(),
    ) by {
        let id = output_id_of(r[m]).unwrap();
        filled.lemma_filter_pred(keep, m);
        assert(has_call_for(filled, id));
        let k = choose|k: int| 0 <= k < filled.len() && call_id_of(#[trigger] filled[k]) == Some(id);
        assert(keep(filled[k]));
        filled.lemma_filter_contains(keep, k);
        let q = choose|q: int| 0 <= q < r.len() && r[q] == filled[k];
        assert(call_id_of(r[q]) == Some(id));
    }
}

/// Filtering by a predicate that holds of every element changes nothing.
proof fn lemma_filter_all<A>(s: Seq<A>, f: spec_fn(A) -> bool)
    requires
        forall|i: int| 0 <= i < s.len() ==> f(#[trigger] s[i]),
    ensures
        s.filter(f) == s,
    decreases s.len(),
{
    reveal(Seq::filter);
    if s.len() > 0 {
        lemma_filter_all(s.drop_last(), f);
        assert(s.drop_last().push(s.last()) =~= s);
    }
}

} // verus!
