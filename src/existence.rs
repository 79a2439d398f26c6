use vstd::prelude::*;
use crate::model::{
    ColumnValue, ExecutionState, ExpectedObject, ObjectKind, ObservedRow, QueryOutcome,
    QueryAndParams, ReconciliationResult, ResultView, TransportError, opt_view,
};

verus! {

/// The one-letter text by which a driver may spell `true`.
pub open spec fn true_text() -> Seq<char> {
    seq!['t']
}

/// A cell counts as true when it is the boolean `true` or the text `"t"`.
pub open spec fn truthy(v: ColumnValue) -> bool {
    match v {
        ColumnValue::Bool(b) => b,
        ColumnValue::Text(s) => s@ == true_text(),
        _ => false,
    }
}

/// Whether a cell holds a true value, in either encoding.
pub fn is_truthy(v: &ColumnValue) -> (r: bool)
    ensures
        r == truthy(*v),
{
    match v {
        ColumnValue::Bool(b) => *b,
        ColumnValue::Text(s) => {
            let t = String::from_str("t");
            proof {
                reveal_strlit("t");
            }
            assert(t@ =~= true_text());
            *s == t
        },
        _ => false,
    }
}


/// The name of the column that holds the truth value.
pub open spec fn exists_column() -> Seq<char> {
    seq!['e', 'x', 'i', 's', 't', 's']
}

/// The name of the column that holds the object name.
pub open spec fn tbl_column() -> Seq<char> {
    seq!['t', 'b', 'l']
}

/// The first position at which `col` stands among `names`.
pub open spec fn column_position(names: Seq<String>, col: Seq<char>) -> Option<int>
    decreases names.len(),
{
    if names.len() == 0 {
        None
    } else if names[0]@ == col {
        Some(0)
    } else {
        match column_position(names.drop_first(), col) {
            Some(i) => Some(i + 1),
            None => None,
        }
    }
}

/// Where `column_position` finds a column: at its first occurrence.
pub proof fn lemma_column_position(names: Seq<String>, col: Seq<char>)
    ensures
        column_position(names, col) matches Some(k) ==> {
            &&& 0 <= k < names.len()
            &&& names[k]@ == col
            &&& forall|j: int| 0 <= j < k ==> names[j]@ != col
        },
        column_position(names, col) is None ==> forall|j: int|
            0 <= j < names.len() ==> names[j]@ != col,
    decreases names.len(),
{
    if names.len() > 0 && names[0]@ != col {
        let rest = names.drop_first();
        lemma_column_position(rest, col);
        assert forall|j: int| 1 <= j < names.len() implies names[j] == rest[j - 1] by {}
    }
}

/// The position of the first column called `col`, if any.
fn find_column(names: &Vec<String>, col: &String) -> (r: Option<usize>)
    ensures
        r matches Some(k) ==> column_position(names@, col@) == Some(k as int),
        r is None ==> column_position(names@, col@) is None,
{
    let mut i: usize = 0;
    while i < names.len()
        invariant
            i <= names.len(),
            forall|j: int| 0 <= j < i ==> names@[j]@ != col@,
        decreases names.len() - i,
    {
        if names[i] == *col {
            proof {
                lemma_column_position(names@, col@);
            }
            return Some(i);
        }
        i = i + 1;
    }
    proof {
        lemma_column_position(names@, col@);
        if let Some(k) = column_position(names@, col@) {
            assert(names@[k]@ == col@);
        }
    }
    None
}

/// The object name that a row reports as present: the text under `tbl`
/// where the first `exists` column holds a true value. A row that lacks
/// either column, or whose `tbl` cell is not text, reports nothing.
pub open spec fn observed_name(row: ObservedRow) -> Option<Seq<char>> {
    match (
        column_position(row.column_names@, exists_column()),
        column_position(row.column_names@, tbl_column()),
    ) {
        (Some(e), Some(t)) => {
            if e < row.values.len() && t < row.values.len() && truthy(row.values@[e])
                && row.values@[t] is Text {
                Some(row.values@[t]->Text_0@)
            } else {
                None
            }
        },
        _ => None,
    }
}

/// The object name that a row reports as present, if any.
pub fn row_object_name(row: &ObservedRow) -> (r: Option<String>)
    ensures
        opt_view(r) == observed_name(*row),
{
    let exists_name = String::from_str("exists");
    let tbl_name = String::from_str("tbl");
    proof {
        reveal_strlit("exists");
        reveal_strlit("tbl");
        assert(exists_name@ =~= exists_column());
        assert(tbl_name@ =~= tbl_column());
    }
    let e = match find_column(&row.column_names, &exists_name) {
        Some(e) => e,
        None => return None,
    };
    let t = match find_column(&row.column_names, &tbl_name) {
        Some(t) => t,
        None => return None,
    };
    if e >= row.values.len() || t >= row.values.len() || !is_truthy(&row.values[e]) {
        return None;
    }
    match &row.values[t] {
        ColumnValue::Text(name) => Some(name.clone()),
        _ => None,
    }
}

/// Whether some row reports `name` as present.
pub open spec fn is_observed(rows: Seq<ObservedRow>, name: Seq<char>) -> bool {
    exists|i: int| 0 <= i < rows.len() && observed_name(rows[i]) == Some(name)
}

/// The names that the rows report as present, in row order.
pub fn observed_names(rows: &Vec<ObservedRow>) -> (r: Vec<String>)
    ensures
        forall|n: Seq<char>|
            is_observed(rows@, n) <==> exists|j: int| 0 <= j < r.len() && #[trigger] r@[j]@ == n,
{
    let mut names: Vec<String> = Vec::new();
    let mut i: usize = 0;
    while i < rows.len()
        invariant
            i <= rows.len(),
            forall|n: Seq<char>|
                is_observed(rows@.take(i as int), n) <==> exists|j: int|
                    0 <= j < names.len() && #[trigger] names@[j]@ == n,
        decreases rows.len() - i,
    {
        let found = row_object_name(&rows[i]);
        let ghost before = names@;
        let ghost pre = rows@.take(i as int);
        let ghost post = rows@.take(i + 1);
        assert(post =~= pre.push(rows@[i as int]));
        match found {
            Some(n) => {
                names.push(n);
            },
            None => {},
        }
        assert forall|n: Seq<char>|
            is_observed(post, n) <==> exists|j: int|
                0 <= j < names.len() && #[trigger] names@[j]@ == n by {
            if is_observed(post, n) {
                let k = choose|k: int| 0 <= k < post.len() && observed_name(post[k]) == Some(n);
                if k < i {
                    assert(pre[k] == post[k]);
                    assert(is_observed(pre, n));
                    let j = choose|j: int| 0 <= j < before.len() && #[trigger] before[j]@ == n;
                    assert(names@[j] == before[j]);
                } else {
                    assert(names@[names.len() - 1]@ == n);
                }
            }
            if exists|j: int| 0 <= j < names.len() && #[trigger] names@[j]@ == n {
                let j = choose|j: int| 0 <= j < names.len() && #[trigger] names@[j]@ == n;
                if j < before.len() {
                    assert(names@[j] == before[j]);
                    assert(is_observed(pre, n));
                    let k = choose|k: int| 0 <= k < pre.len() && observed_name(pre[k]) == Some(n);
                    assert(post[k] == pre[k]);
                } else {
                    assert(observed_name(post[i as int]) == Some(n));
                }
            }
        }
        i = i + 1;
    }
    assert(rows@.take(rows.len() as int) =~= rows@);
    names
}


/// The expected objects of one kind, in input order.
pub open spec fn objects_of_kind(objs: Seq<ExpectedObject>, kind: ObjectKind) -> Seq<
    ExpectedObject,
>
    decreases objs.len(),
{
    if objs.len() == 0 {
        Seq::empty()
    } else {
        let rest = objects_of_kind(objs.drop_last(), kind);
        if objs.last().kind == kind {
            rest.push(objs.last())
        } else {
            rest
        }
    }
}

/// The rows of the first row set, or none where the driver returned no set.
pub open spec fn first_rows(o: QueryOutcome) -> Seq<ObservedRow> {
    if o.row_sets.len() > 0 {
        o.row_sets@[0].rows@
    } else {
        Seq::empty()
    }
}

/// The message that records a failure to run a batch.
pub open spec fn failure_text(e: TransportError) -> Seq<char> {
    "Failed in "@ + e.location@ + ": "@ + e.detail@
}

/// A single result that carries a state and a message but names no object.
pub open spec fn bare_result(state: ExecutionState, msg: Option<Seq<char>>) -> ResultView {
    ResultView { object_name: Seq::empty(), execution_state: state, error_message: msg }
}

/// The result for one expected object, given the rows of the introspection.
pub open spec fn presence_result(rows: Seq<ObservedRow>, obj: ExpectedObject) -> ResultView {
    ResultView {
        object_name: obj.name@,
        execution_state: if is_observed(rows, obj.name@) {
            ExecutionState::Success
        } else {
            ExecutionState::MissingRelations
        },
        error_message: None,
    }
}

/// The report of an existence check. A failure to run the introspection gives
/// one `QueryFailed` result; a state other than success reported by the driver
/// gives one result with that state and message; otherwise there is one result
/// per expected object of the kind, in input order.
pub open spec fn existence_report(
    kind: ObjectKind,
    expected: Seq<ExpectedObject>,
    outcome: Result<QueryOutcome, TransportError>,
) -> Seq<ResultView> {
    match outcome {
        Err(e) => seq![bare_result(ExecutionState::QueryFailed, Some(failure_text(e)))],
        Ok(o) => if o.execution_state != ExecutionState::Success {
            seq![bare_result(o.execution_state, opt_view(o.error_message))]
        } else {
            let objs = objects_of_kind(expected, kind);
            Seq::new(objs.len(), |i: int| presence_result(first_rows(o), objs[i]))
        },
    }
}

/// The message that records a failure to run a batch.
pub fn failure_message(e: &TransportError) -> (r: String)
    ensures
        r@ == failure_text(*e),
        r@.len() > 0,
{
    let mut m = String::from_str("Failed in ");
    m.append(e.location.as_str());
    m.append(": ");
    m.append(e.detail.as_str());
    proof {
        reveal_strlit("Failed in ");
    }
    assert(m@ =~= failure_text(*e));
    m
}

/// The batch that runs the introspection query: the query alone, without parameters.
pub fn introspection_batch(query: &str) -> (r: Vec<QueryAndParams>)
    ensures
        r.len() == 1,
        r@[0].query@ == query@,
        r@[0].params.len() == 0,
{
    let q = QueryAndParams { query: String::from_str(query), params: Vec::new() };
    let mut batch: Vec<QueryAndParams> = Vec::new();
    batch.push(q);
    batch
}

/// Whether `name` is one of `names`.
fn contains_name(names: &Vec<String>, name: &String) -> (r: bool)
    ensures
        r == exists|j: int| 0 <= j < names.len() && #[trigger] names@[j]@ == name@,
{
    let mut i: usize = 0;
    while i < names.len()
        invariant
            i <= names.len(),
            forall|j: int| 0 <= j < i ==> #[trigger] names@[j]@ != name@,
        decreases names.len() - i,
    {
        if names[i] == *name {
            return true;
        }
        i = i + 1;
    }
    false
}

/// Decides, from the driver's answer to the introspection batch, which of the
/// expected objects of `kind` exist; see `existence_report`.
pub fn existence_results(
    kind: ObjectKind,
    expected: &Vec<ExpectedObject>,
    outcome: Result<QueryOutcome, TransportError>,
) -> (r: Vec<ReconciliationResult>)
    ensures
        r.len() == existence_report(kind, expected@, outcome).len(),
        forall|i: int| 0 <= i < r.len() ==> r@[i]@ == existence_report(kind, expected@, outcome)[i],
{
    let ghost spec_outcome = outcome;
    let o = match outcome {
        Err(e) => {
            let failed = ReconciliationResult {
                object_name: String::new(),
                execution_state: ExecutionState::QueryFailed,
                error_message: Some(failure_message(&e)),
            };
            let mut single: Vec<ReconciliationResult> = Vec::new();
            single.push(failed);
            return single;
        },
        Ok(o) => o,
    };
    if o.execution_state != ExecutionState::Success {
        let passed = ReconciliationResult {
            object_name: String::new(),
            execution_state: o.execution_state,
            error_message: o.error_message,
        };
        let mut single: Vec<ReconciliationResult> = Vec::new();
        single.push(passed);
        return single;
    }
    let ghost rows = first_rows(o);
    let names = if o.row_sets.len() > 0 {
        observed_names(&o.row_sets[0].rows)
    } else {
        Vec::new()
    };
    assert(forall|n: Seq<char>|
        is_observed(rows, n) <==> exists|j: int| 0 <= j < names.len() && #[trigger] names@[j]@ == n);
    let mut results: Vec<ReconciliationResult> = Vec::new();
    let mut i: usize = 0;
    while i < expected.len()
        invariant
            i <= expected.len(),
            forall|n: Seq<char>|
                is_observed(rows, n) <==> exists|j: int|
                    0 <= j < names.len() && #[trigger] names@[j]@ == n,
            results.len() == objects_of_kind(expected@.take(i as int), kind).len(),
            forall|k: int|
                0 <= k < results.len() ==> #[trigger] results@[k]@ == presence_result(
                    rows,
                    objects_of_kind(expected@.take(i as int), kind)[k],
                ),
        decreases expected.len() - i,
    {
        let obj = &expected[i];
        let ghost pre = expected@.take(i as int);
        assert(expected@.take(i + 1).drop_last() =~= pre);
        if obj.kind == kind {
            let present = contains_name(&names, &obj.name);
            let state = if present {
                ExecutionState::Success
            } else {
                ExecutionState::MissingRelations
            };
            results.push(
                ReconciliationResult {
                    object_name: obj.name.clone(),
                    execution_state: state,
                    error_message: None,
                },
            );
        }
        i = i + 1;
    }
    assert(expected@.take(expected.len() as int) =~= expected@);
    results
}

} // verus!
