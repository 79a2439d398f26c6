use vstd::prelude::*;
use crate::apply::{creation_report, has_key, is_missing, selected_statements};
use crate::existence::{
    column_position, exists_column, lemma_column_position, tbl_column, existence_report, failure_text, first_rows, is_observed,
    objects_of_kind, observed_name, truthy,
};
use crate::model::{
    ExecutionState, ExpectedObject, MissingDbObjects, ObjectKind, ObservedRow, QueryOutcome,
    TransportError, DdlDefinition,
};

verus! {

/// When the introspection ran, the report holds exactly one result per
/// expected object of the requested kind, named after it, in input order.
pub proof fn one_result_per_object(
    kind: ObjectKind,
    expected: Seq<ExpectedObject>,
    o: QueryOutcome,
)
    requires
        o.execution_state == ExecutionState::Success,
    ensures
        existence_report(kind, expected, Ok(o)).len() == objects_of_kind(expected, kind).len(),
        forall|i: int|
            0 <= i < objects_of_kind(expected, kind).len() ==> {
                &&& (#[trigger] objects_of_kind(expected, kind)[i]).kind == kind
                &&& existence_report(kind, expected, Ok(o))[i].object_name
                    == objects_of_kind(expected, kind)[i].name@
            },
        forall|j: int|
            0 <= j < expected.len() && (#[trigger] expected[j]).kind == kind ==> exists|i: int|
                0 <= i < objects_of_kind(expected, kind).len() && objects_of_kind(expected, kind)[i]
                    == expected[j],
{
    lemma_objects_of_kind(expected, kind);
}

proof fn lemma_objects_of_kind(objs: Seq<ExpectedObject>, kind: ObjectKind)
    ensures
        forall|i: int|
            0 <= i < objects_of_kind(objs, kind).len() ==> (#[trigger] objects_of_kind(
                objs,
                kind,
            )[i]).kind == kind,
        forall|j: int|
            0 <= j < objs.len() && (#[trigger] objs[j]).kind == kind ==> exists|i: int|
                0 <= i < objects_of_kind(objs, kind).len() && objects_of_kind(objs, kind)[i]
                    == objs[j],
    decreases objs.len(),
{
    if objs.len() > 0 {
        let init = objs.drop_last();
        lemma_objects_of_kind(init, kind);
        assert forall|j: int| 0 <= j < objs.len() && (#[trigger] objs[j]).kind == kind implies exists|
            i: int,
        |
            0 <= i < objects_of_kind(objs, kind).len() && objects_of_kind(objs, kind)[i]
                == objs[j] by {
            if j < objs.len() - 1 {
                assert(init[j] == objs[j]);
                let i = choose|i: int|
                    0 <= i < objects_of_kind(init, kind).len() && objects_of_kind(init, kind)[i]
                        == init[j];
                assert(objects_of_kind(objs, kind)[i] == objs[j]);
            } else {
                let i = objects_of_kind(init, kind).len() as int;
                assert(objects_of_kind(objs, kind)[i] == objs[j]);
            }
        }
    }
}

/// Two rows that differ only in the cell under their `exists` column, where
/// the two cells are both true or both not true (whatever their encoding:
/// `true` and `"t"` alike), report the same object name.
pub proof fn truthy_encodings_classify_alike(a: ObservedRow, b: ObservedRow, e: int)
    requires
        a.column_names@ == b.column_names@,
        a.values.len() == b.values.len(),
        column_position(a.column_names@, exists_column()) == Some(e),
        forall|j: int| 0 <= j < a.values.len() && j != e ==> a.values@[j] == b.values@[j],
        0 <= e < a.values.len() ==> truthy(a.values@[e]) == truthy(b.values@[e]),
    ensures
        observed_name(a) == observed_name(b),
{
    lemma_column_position(a.column_names@, exists_column());
    lemma_column_position(a.column_names@, tbl_column());
    if let Some(t) = column_position(a.column_names@, tbl_column()) {
        assert(exists_column() != tbl_column()) by {
            assert(exists_column()[0] != tbl_column()[0]);
        }
        assert(t != e);
    }
}

/// A row whose `exists` cell is not true (`false`, `"f"` or any other value)
/// reports no object.
pub proof fn untrue_row_not_observed(row: ObservedRow, e: int)
    requires
        column_position(row.column_names@, exists_column()) == Some(e),
        0 <= e < row.values.len() ==> !truthy(row.values@[e]),
    ensures
        observed_name(row) is None,
{
    lemma_column_position(row.column_names@, exists_column());
}

/// Once the introspection reports an object present (as it does after its
/// creation statement has run), every expected object of that name and kind
/// is reported `Success`.
pub proof fn created_object_reported_present(
    kind: ObjectKind,
    expected: Seq<ExpectedObject>,
    o: QueryOutcome,
    name: Seq<char>,
)
    requires
        o.execution_state == ExecutionState::Success,
        is_observed(first_rows(o), name),
    ensures
        forall|i: int|
            0 <= i < objects_of_kind(expected, kind).len() && (#[trigger] objects_of_kind(
                expected,
                kind,
            )[i]).name@ == name ==> existence_report(kind, expected, Ok(o))[i].execution_state
                == ExecutionState::Success,
{
}

/// An empty list of missing objects selects no statement, and the aggregate
/// result then carries the state the driver reports for the empty batch;
/// it is never `Unset` unless the driver itself reports `Unset`.
pub proof fn empty_missing_list_is_noop(
    kind: ObjectKind,
    defs: Seq<DdlDefinition>,
    outcome: Result<QueryOutcome, TransportError>,
)
    requires
        outcome matches Ok(o) ==> o.execution_state != ExecutionState::Unset,
    ensures
        selected_statements(Seq::empty(), kind, defs).len() == 0,
        creation_report(outcome).execution_state != ExecutionState::Unset,
        outcome matches Ok(o) ==> creation_report(outcome).execution_state == o.execution_state,
    decreases defs.len(),
{
    if defs.len() > 0 {
        empty_missing_list_is_noop(kind, defs.drop_last(), outcome);
    }
}

/// A failure to run the introspection gives a single `QueryFailed` result
/// with a non-empty message.
pub proof fn transport_failure_reported(
    kind: ObjectKind,
    expected: Seq<ExpectedObject>,
    e: TransportError,
)
    ensures
        existence_report(kind, expected, Err(e)).len() == 1,
        existence_report(kind, expected, Err(e))[0].execution_state == ExecutionState::QueryFailed,
        existence_report(kind, expected, Err(e))[0].error_message matches Some(m) && m.len() > 0,
{
    reveal_strlit("Failed in ");
    assert(failure_text(e).len() > 0);
}

/// A missing name that no definition of the kind is looked up by changes
/// nothing in the statements selected.
pub proof fn unknown_names_skipped(
    tables: Seq<MissingDbObjects>,
    extra: MissingDbObjects,
    kind: ObjectKind,
    defs: Seq<DdlDefinition>,
)
    requires
        !has_key(defs, kind, extra.missing_object@),
    ensures
        selected_statements(tables.push(extra), kind, defs) == selected_statements(
            tables,
            kind,
            defs,
        ),
    decreases defs.len(),
{
    if defs.len() > 0 {
        let init = defs.drop_last();
        let d = defs.last();
        assert forall|j: int| 0 <= j < init.len() implies #[trigger] init[j].key(kind)
            != extra.missing_object@ by {
            assert(init[j] == defs[j]);
        }
        unknown_names_skipped(tables, extra, kind, init);
        assert(d.key(kind) != extra.missing_object@) by {
            assert(defs[defs.len() - 1] == d);
        }
        let more = tables.push(extra);
        if is_missing(more, d.key(kind)) {
            let j = choose|j: int| 0 <= j < more.len() && #[trigger] more[j].missing_object@
                == d.key(kind);
            assert(j < tables.len());
            assert(more[j] == tables[j]);
        }
        if is_missing(tables, d.key(kind)) {
            let j = choose|j: int| 0 <= j < tables.len() && #[trigger] tables[j].missing_object@
                == d.key(kind);
            assert(more[j] == tables[j]);
        }
    }
}

} // verus!
