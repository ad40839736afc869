//! Batch jobs: the rows of a CSV file, each run as one job, with one result
//! per row in row order.
use vstd::prelude::*;

use crate::protocol::{CodexError, ErrorCode};
use crate::strmap::str_views;
use crate::text::{extend_str, from_chars, lines, lines_spec, split, split_spec, to_chars, trim, trim_spec, vviews};

verus! {

/// Where the rows come from, and how many jobs may run at once.
#[derive(Debug, Clone)]
pub struct BatchJobConfig {
    /// Path of the CSV file.
    pub csv_path: String,
    pub concurrency: usize,
}

/// The result of one row's job.
#[derive(Debug, Clone)]
pub struct BatchResult {
    pub row_index: usize,
    pub success: bool,
    pub output: String,
}

/// A batch needs room for at least one job at a time.
pub fn check_batch_concurrency(concurrency: usize) -> (r: Result<(), CodexError>)
    ensures
        concurrency >= 1 ==> r is Ok,
        concurrency == 0 ==> (r matches Err(e) && e.code == ErrorCode::InvalidInput && e.message@
            == "Batch concurrency must be at least 1"@),
{
    if concurrency == 0 {
        return Err(CodexError::new(ErrorCode::InvalidInput, "Batch concurrency must be at least 1".to_string()));
    }
    Ok(())
}

/// The cells of a CSV line: split at commas, each trimmed.
pub open spec fn row_cells(line: Seq<char>) -> Seq<Seq<char>> {
    let parts = split_spec(line, seq![',']);
    Seq::new(parts.len(), |i: int| trim_spec(parts[i]))
}

/// The rows of CSV text: its lines that are not blank, split into cells.
pub open spec fn csv_rows(ls: Seq<Seq<char>>) -> Seq<Seq<Seq<char>>>
    decreases ls.len(),
{
    if ls.len() == 0 {
        Seq::empty()
    } else {
        let rest = csv_rows(ls.drop_last());
        if trim_spec(ls.last()).len() == 0 {
            rest
        } else {
            rest.push(row_cells(ls.last()))
        }
    }
}

/// The rows of a batch's CSV text.
pub fn parse_batch_rows(content: &str) -> (r: Vec<Vec<String>>)
    ensures
        r@.len() == csv_rows(lines_spec(content@)).len(),
        forall|i: int| 0 <= i < r@.len() ==> str_views((#[trigger] r@[i])@) == csv_rows(lines_spec(content@))[i],
{
    let chars = to_chars(content);
    let ls = lines(chars.as_slice());
    let ghost lv = vviews(ls@);
    let comma = vec![','];
    assert(comma@ =~= seq![',']);
    let mut rows: Vec<Vec<String>> = Vec::new();
    let mut i: usize = 0;
    while i < ls.len()
        invariant
            i <= ls@.len(),
            lv == vviews(ls@),
            lv == lines_spec(content@),
            comma@ == seq![','],
            rows@.len() == csv_rows(lv.take(i as int)).len(),
            forall|k: int| 0 <= k < rows@.len() ==> str_views((#[trigger] rows@[k])@) == csv_rows(lv.take(i as int))[k],
        decreases ls@.len() - i,
    {
        assert(lv.take(i + 1).drop_last() =~= lv.take(i as int));
        assert(lv.take(i + 1).last() == lv[i as int]);
        let line = &ls[i];
        let t = trim(line.as_slice());
        if t.len() > 0 {
            let parts = split(line.as_slice(), comma.as_slice());
            let ghost pv = vviews(parts@);
            let mut cells: Vec<String> = Vec::new();
            let mut k: usize = 0;
            while k < parts.len()
                invariant
                    k <= parts@.len(),
                    pv == vviews(parts@),
                    str_views(cells@) == Seq::new(k as nat, |j: int| trim_spec(pv[j])),
                decreases parts@.len() - k,
            {
                let ghost before = str_views(cells@);
                assert(pv[k as int] == parts@[k as int]@);
                let cell = from_chars(trim(parts[k].as_slice()).as_slice());
                cells.push(cell);
                assert(str_views(cells@) =~= before.push(trim_spec(pv[k as int])));
                assert(str_views(cells@) =~= Seq::new((k + 1) as nat, |j: int| trim_spec(pv[j])));
                k = k + 1;
            }
            assert(str_views(cells@) =~= row_cells(line@));
            rows.push(cells);
        }
        i = i + 1;
    }
    assert(lv.take(i as int) =~= lv);
    rows
}

/// The result of a row's job: its output, and whether the job succeeded.
pub fn batch_result(row_index: usize, outcome: Result<String, String>) -> (r: BatchResult)
    ensures
        r.row_index == row_index,
        match outcome {
            Ok(o) => r.success && r.output == o,
            Err(o) => !r.success && r.output == o,
        },
{
    match outcome {
        Ok(output) => BatchResult { row_index, success: true, output },
        Err(output) => BatchResult { row_index, success: false, output },
    }
}

/// The row indices of results.
pub open spec fn row_indices(rs: Seq<BatchResult>) -> Seq<usize> {
    Seq::new(rs.len(), |i: int| rs[i].row_index)
}

/// Results in ascending order of row.
pub open spec fn in_row_order(rs: Seq<BatchResult>) -> bool {
    forall|i: int, j: int| 0 <= i < j < rs.len() ==> rs[i].row_index <= rs[j].row_index
}

/// The results ordered by row; results of one row keep their order.
pub fn order_batch_results(results: Vec<BatchResult>) -> (r: Vec<BatchResult>)
    ensures
        in_row_order(r@),
        r@.to_multiset() == results@.to_multiset(),
{
    broadcast use vstd::seq_lib::group_to_multiset_ensures;
    broadcast use vstd::multiset::group_multiset_axioms;

    let mut input = results;
    let ghost all = input@;
    let mut out: Vec<BatchResult> = Vec::new();
    while input.len() > 0
        invariant
            in_row_order(out@),
            out@.to_multiset().add(input@.to_multiset()) == all.to_multiset(),
        decreases input@.len(),
    {
        let ghost before_in = input@;
        let x = input.remove(0);
        assert(before_in.remove(0) == input@);
        proof {
            before_in.to_multiset_ensures();
        }
        let ghost ov = out@;
        let mut j: usize = out.len();
        while j > 0 && out[j - 1].row_index > x.row_index
            invariant
                j <= out@.len(),
                ov == out@,
                forall|k: int| j <= k < ov.len() ==> ov[k].row_index > x.row_index,
            decreases j,
        {
            j = j - 1;
        }
        out.insert(j, x);
        let ghost nv = out@;
        assert(nv =~= ov.insert(j as int, x));
        assert(in_row_order(nv)) by {
            assert forall|a: int, b: int| 0 <= a < b < nv.len() implies nv[a].row_index <= nv[b].row_index by {
                if a < j && b == j {
                    assert(ov[a].row_index <= ov[j - 1].row_index);
                } else if a == j && b > j {
                } else if a < j && b > j {
                    assert(ov[a].row_index <= ov[b - 1].row_index);
                } else if a > j {
                    assert(ov[a - 1].row_index <= ov[b - 1].row_index);
                } else {
                    assert(ov[a].row_index <= ov[b].row_index);
                }
            }
        }
        assert(nv.remove(j as int) =~= ov);
        proof {
            nv.to_multiset_ensures();
        }
        assert(nv.to_multiset() =~= ov.to_multiset().insert(x));
        assert(before_in.to_multiset() =~= input@.to_multiset().insert(x));
        assert(out@.to_multiset().add(input@.to_multiset()) =~= all.to_multiset());
    }
    assert(input@.to_multiset() =~= vstd::multiset::Multiset::<BatchResult>::empty());
    assert(out@.to_multiset() =~= all.to_multiset());
    out
}

/// The error for a CSV file that could not be read.
pub fn csv_read_error(path: &str, detail: &str) -> (r: CodexError)
    ensures
        r.code == ErrorCode::InvalidInput,
        r.message@ == "Failed to read CSV file "@ + path@ + ": "@ + detail@,
{
    let mut m = to_chars("Failed to read CSV file ");
    extend_str(&mut m, path);
    extend_str(&mut m, ": ");
    extend_str(&mut m, detail);
    CodexError::new(ErrorCode::InvalidInput, from_chars(m.as_slice()))
}

/// The error for a job whose task panicked.
pub fn task_panicked_error(detail: &str) -> (r: CodexError)
    ensures
        r.code == ErrorCode::InternalError,
        r.message@ == "Batch job task panicked: "@ + detail@,
{
    let mut m = to_chars("Batch job task panicked: ");
    extend_str(&mut m, detail);
    CodexError::new(ErrorCode::InternalError, from_chars(m.as_slice()))
}

} // verus!
