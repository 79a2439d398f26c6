use vstd::prelude::*;
use crate::existence::{failure_message, failure_text};
use crate::model::{
    DdlDefinition, ExecutionState, MissingDbObjects, ObjectKind, QueryAndParams, QueryOutcome,
    ReconciliationResult, ResultView, TransportError, opt_view,
};

verus! {

/// Whether `name` is one of the objects reported missing.
pub open spec fn is_missing(tables: Seq<MissingDbObjects>, name: Seq<char>) -> bool {
    exists|j: int| 0 <= j < tables.len() && #[trigger] tables[j].missing_object@ == name
}

/// Whether some definition among `defs` is looked up by `name` for `kind`.
pub open spec fn has_key(defs: Seq<DdlDefinition>, kind: ObjectKind, name: Seq<char>) -> bool {
    exists|j: int| 0 <= j < defs.len() && #[trigger] defs[j].key(kind) == name
}

/// The statements to run, in the order of the definitions: the statement of
/// each definition whose key is reported missing, unless an earlier definition
/// has the same key (the first definition of a name wins).
pub open spec fn selected_statements(
    tables: Seq<MissingDbObjects>,
    kind: ObjectKind,
    defs: Seq<DdlDefinition>,
) -> Seq<Seq<char>>
    decreases defs.len(),
{
    if defs.len() == 0 {
        Seq::empty()
    } else {
        let rest = selected_statements(tables, kind, defs.drop_last());
        let d = defs.last();
        if is_missing(tables, d.key(kind)) && !has_key(defs.drop_last(), kind, d.key(kind)) {
            rest.push(d.statement(kind))
        } else {
            rest
        }
    }
}

/// The name under which the aggregate creation result is reported.
pub open spec fn create_tables_name() -> Seq<char> {
    "create_tables"@
}

/// The aggregate result of running the creation batch: the driver's state and
/// message where it ran the batch, `QueryFailed` with a message where it could not.
pub open spec fn creation_report(outcome: Result<QueryOutcome, TransportError>) -> ResultView {
    match outcome {
        Err(e) => ResultView {
            object_name: create_tables_name(),
            execution_state: ExecutionState::QueryFailed,
            error_message: Some(failure_text(e)),
        },
        Ok(o) => ResultView {
            object_name: create_tables_name(),
            execution_state: o.execution_state,
            error_message: opt_view(o.error_message),
        },
    }
}

fn key_of<'a>(d: &'a DdlDefinition, kind: ObjectKind) -> (r: &'a String)
    ensures
        r@ == d.key(kind),
{
    match kind {
        ObjectKind::Table => &d.table_name,
        ObjectKind::Constraint => &d.constraint_name,
    }
}

fn statement_of(d: &DdlDefinition, kind: ObjectKind) -> (r: String)
    ensures
        r@ == d.statement(kind),
{
    match kind {
        ObjectKind::Table => d.table_ddl.clone(),
        ObjectKind::Constraint => d.constraint_ddl.clone(),
    }
}

fn reported_missing(tables: &Vec<MissingDbObjects>, name: &String) -> (r: bool)
    ensures
        r == is_missing(tables@, name@),
{
    let mut i: usize = 0;
    while i < tables.len()
        invariant
            i <= tables.len(),
            forall|j: int| 0 <= j < i ==> #[trigger] tables@[j].missing_object@ != name@,
        decreases tables.len() - i,
    {
        if tables[i].missing_object == *name {
            return true;
        }
        i = i + 1;
    }
    false
}

/// Whether a definition before position `end` is looked up by `name`.
fn key_before(defs: &Vec<DdlDefinition>, kind: ObjectKind, end: usize, name: &String) -> (r: bool)
    requires
        end <= defs.len(),
    ensures
        r == has_key(defs@.take(end as int), kind, name@),
{
    let mut i: usize = 0;
    while i < end
        invariant
            i <= end <= defs.len(),
            forall|j: int| 0 <= j < i ==> #[trigger] defs@[j].key(kind) != name@,
        decreases end - i,
    {
        if *key_of(&defs[i], kind) == *name {
            assert(defs@.take(end as int)[i as int] == defs@[i as int]);
            return true;
        }
        i = i + 1;
    }
    assert forall|j: int| 0 <= j < end implies #[trigger] defs@.take(end as int)[j].key(kind)
        != name@ by {
        assert(defs@.take(end as int)[j] == defs@[j]);
    }
    false
}

/// The batch that creates the objects reported missing: one statement per
/// selected definition (see `selected_statements`), in the order of the
/// definitions, each without parameters. Names without a definition are skipped.
pub fn create_tables_batch(
    tables: &Vec<MissingDbObjects>,
    check_type: ObjectKind,
    ddl_for_validation: &Vec<DdlDefinition>,
) -> (r: Vec<QueryAndParams>)
    ensures
        r.len() == selected_statements(tables@, check_type, ddl_for_validation@).len(),
        forall|k: int|
            0 <= k < r.len() ==> {
                &&& (#[trigger] r@[k]).query@ == selected_statements(
                    tables@,
                    check_type,
                    ddl_for_validation@,
                )[k]
                &&& r@[k].params.len() == 0
            },
{
    let defs = ddl_for_validation;
    let mut batch: Vec<QueryAndParams> = Vec::new();
    let mut i: usize = 0;
    while i < defs.len()
        invariant
            i <= defs.len(),
            batch.len() == selected_statements(tables@, check_type, defs@.take(i as int)).len(),
            forall|k: int|
                0 <= k < batch.len() ==> {
                    &&& (#[trigger] batch@[k]).query@ == selected_statements(
                        tables@,
                        check_type,
                        defs@.take(i as int),
                    )[k]
                    &&& batch@[k].params.len() == 0
                },
        decreases defs.len() - i,
    {
        let d = &defs[i];
        assert(defs@.take(i + 1).drop_last() =~= defs@.take(i as int));
        assert(defs@.take(i + 1).last() == *d);
        let key = key_of(d, check_type);
        if reported_missing(tables, key) && !key_before(defs, check_type, i, key) {
            batch.push(QueryAndParams { query: statement_of(d, check_type), params: Vec::new() });
        }
        i = i + 1;
    }
    assert(defs@.take(defs.len() as int) =~= defs@);
    batch
}

/// The aggregate result of running the creation batch; see `creation_report`.
pub fn create_tables_result(outcome: Result<QueryOutcome, TransportError>) -> (r:
    ReconciliationResult)
    ensures
        r@ == creation_report(outcome),
{
    let name = String::from_str("create_tables");
    match outcome {
        Err(e) => ReconciliationResult {
            object_name: name,
            execution_state: ExecutionState::QueryFailed,
            error_message: Some(failure_message(&e)),
        },
        Ok(o) => ReconciliationResult {
            object_name: name,
            execution_state: o.execution_state,
            error_message: o.error_message,
        },
    }
}

} // verus!
