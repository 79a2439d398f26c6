use db_schema_check::{
    existence_results, failure_message, introspection_batch, is_truthy, observed_names,
    row_object_name, ColumnValue, ExecutionState, ExpectedObject, ObjectKind, ObservedRow,
    QueryOutcome, RowSet, TransportError,
};

fn text(s: &str) -> ColumnValue {
    ColumnValue::Text(s.to_string())
}

fn row(cols: &[&str], values: Vec<ColumnValue>) -> ObservedRow {
    ObservedRow { column_names: cols.iter().map(|c| c.to_string()).collect(), values }
}

fn presence(name: &str, exists: ColumnValue) -> ObservedRow {
    row(&["tbl", "exists"], vec![text(name), exists])
}

fn table(name: &str) -> ExpectedObject {
    ExpectedObject { name: name.to_string(), kind: ObjectKind::Table }
}

fn constraint(name: &str) -> ExpectedObject {
    ExpectedObject { name: name.to_string(), kind: ObjectKind::Constraint }
}

fn ran(rows: Vec<ObservedRow>) -> Result<QueryOutcome, TransportError> {
    Ok(QueryOutcome {
        execution_state: ExecutionState::Success,
        error_message: None,
        row_sets: vec![RowSet { rows }],
    })
}

fn summary(
    kind: ObjectKind,
    expected: &Vec<ExpectedObject>,
    outcome: Result<QueryOutcome, TransportError>,
) -> Vec<(String, ExecutionState, Option<String>)> {
    existence_results(kind, expected, outcome)
        .into_iter()
        .map(|r| (r.object_name, r.execution_state, r.error_message))
        .collect()
}

#[test]
fn event_present_missing_tbl_missing() {
    let outcome = ran(vec![presence("event", ColumnValue::Bool(true)), presence("player", text("t"))]);
    let expected = vec![table("event"), table("missing_tbl")];
    assert_eq!(
        summary(ObjectKind::Table, &expected, outcome),
        vec![
            ("event".to_string(), ExecutionState::Success, None),
            ("missing_tbl".to_string(), ExecutionState::MissingRelations, None),
        ]
    );
}

#[test]
fn truthy_accepts_both_encodings() {
    assert!(is_truthy(&ColumnValue::Bool(true)));
    assert!(is_truthy(&text("t")));
    assert!(!is_truthy(&ColumnValue::Bool(false)));
    assert!(!is_truthy(&text("f")));
    assert!(!is_truthy(&text("true")));
    assert!(!is_truthy(&text("T")));
    assert!(!is_truthy(&text("")));
    assert!(!is_truthy(&ColumnValue::Int(1)));
    assert!(!is_truthy(&ColumnValue::Null));
}

#[test]
fn bool_and_text_true_classify_alike() {
    let expected = vec![table("a")];
    let by_bool = summary(ObjectKind::Table, &expected, ran(vec![presence("a", ColumnValue::Bool(true))]));
    let by_text = summary(ObjectKind::Table, &expected, ran(vec![presence("a", text("t"))]));
    assert_eq!(by_bool, by_text);
    assert_eq!(by_bool[0].1, ExecutionState::Success);
    for untrue in [ColumnValue::Bool(false), text("f"), text("yes"), ColumnValue::Int(1), ColumnValue::Null] {
        let r = summary(ObjectKind::Table, &expected, ran(vec![presence("a", untrue)]));
        assert_eq!(r[0].1, ExecutionState::MissingRelations);
    }
}

#[test]
fn row_name_reads_columns_in_any_order() {
    let r = row(&["exists", "tbl"], vec![text("t"), text("golf_user")]);
    assert_eq!(row_object_name(&r), Some("golf_user".to_string()));
    let r = row(&["extra", "tbl", "exists"], vec![ColumnValue::Int(3), text("player"), ColumnValue::Bool(true)]);
    assert_eq!(row_object_name(&r), Some("player".to_string()));
}

#[test]
fn row_name_skips_malformed_rows() {
    assert_eq!(row_object_name(&row(&["tbl"], vec![text("a")])), None);
    assert_eq!(row_object_name(&row(&["exists"], vec![text("t")])), None);
    assert_eq!(row_object_name(&row(&["tbl", "exists"], vec![text("a")])), None);
    assert_eq!(row_object_name(&row(&["tbl", "exists"], vec![ColumnValue::Int(4), text("t")])), None);
    assert_eq!(row_object_name(&presence("a", text("f"))), None);
}

#[test]
fn first_exists_column_decides() {
    let r = row(&["tbl", "exists", "exists"], vec![text("a"), text("f"), text("t")]);
    assert_eq!(row_object_name(&r), None);
    let r = row(&["tbl", "exists", "exists"], vec![text("a"), text("t"), text("f")]);
    assert_eq!(row_object_name(&r), Some("a".to_string()));
}

#[test]
fn observed_names_keeps_true_rows_in_order() {
    let rows = vec![
        presence("eup_statistic", text("f")),
        presence("event", text("t")),
        row(&["name"], vec![text("stray")]),
        presence("player", ColumnValue::Bool(true)),
    ];
    assert_eq!(observed_names(&rows), vec!["event".to_string(), "player".to_string()]);
    assert!(observed_names(&vec![]).is_empty());
}

#[test]
fn malformed_row_does_not_fail_the_pass() {
    let outcome = ran(vec![row(&["tbl"], vec![text("event")]), presence("player", text("t"))]);
    let expected = vec![table("event"), table("player")];
    assert_eq!(
        summary(ObjectKind::Table, &expected, outcome),
        vec![
            ("event".to_string(), ExecutionState::MissingRelations, None),
            ("player".to_string(), ExecutionState::Success, None),
        ]
    );
}

#[test]
fn empty_expected_list_gives_empty_report() {
    let outcome = ran(vec![presence("event", text("t"))]);
    assert!(summary(ObjectKind::Table, &vec![], outcome).is_empty());
}

#[test]
fn zero_rows_reports_every_object_missing() {
    let expected = vec![table("event"), table("player")];
    let r = summary(ObjectKind::Table, &expected, ran(vec![]));
    assert_eq!(r.len(), 2);
    assert!(r.iter().all(|x| x.1 == ExecutionState::MissingRelations));
    let no_sets = Ok(QueryOutcome {
        execution_state: ExecutionState::Success,
        error_message: None,
        row_sets: vec![],
    });
    let r = summary(ObjectKind::Table, &expected, no_sets);
    assert_eq!(r.len(), 2);
    assert!(r.iter().all(|x| x.1 == ExecutionState::MissingRelations));
}

#[test]
fn only_objects_of_requested_kind_are_reported() {
    let outcome = ran(vec![presence("fk_event", text("t")), presence("event", text("t"))]);
    let expected = vec![table("event"), constraint("fk_event"), table("player"), constraint("fk_player")];
    assert_eq!(
        summary(ObjectKind::Constraint, &expected, outcome.clone()),
        vec![
            ("fk_event".to_string(), ExecutionState::Success, None),
            ("fk_player".to_string(), ExecutionState::MissingRelations, None),
        ]
    );
    assert_eq!(
        summary(ObjectKind::Table, &expected, outcome),
        vec![
            ("event".to_string(), ExecutionState::Success, None),
            ("player".to_string(), ExecutionState::MissingRelations, None),
        ]
    );
}

#[test]
fn names_compare_exactly() {
    let outcome = ran(vec![presence("Event", text("t")), presence("player ", text("t"))]);
    let expected = vec![table("event"), table("player")];
    let r = summary(ObjectKind::Table, &expected, outcome);
    assert!(r.iter().all(|x| x.1 == ExecutionState::MissingRelations));
}

#[test]
fn rows_of_later_sets_are_ignored() {
    let outcome = Ok(QueryOutcome {
        execution_state: ExecutionState::Success,
        error_message: None,
        row_sets: vec![
            RowSet { rows: vec![presence("event", text("t"))] },
            RowSet { rows: vec![presence("player", text("t"))] },
        ],
    });
    let expected = vec![table("event"), table("player")];
    let r = summary(ObjectKind::Table, &expected, outcome);
    assert_eq!(r[0].1, ExecutionState::Success);
    assert_eq!(r[1].1, ExecutionState::MissingRelations);
}

#[test]
fn recheck_after_creation_reports_success() {
    let expected = vec![table("event"), table("player")];
    let before = summary(ObjectKind::Table, &expected, ran(vec![presence("event", text("t")), presence("player", text("f"))]));
    assert_eq!(before[1].1, ExecutionState::MissingRelations);
    let after = summary(ObjectKind::Table, &expected, ran(vec![presence("event", text("t")), presence("player", text("t"))]));
    assert_eq!(after[1], ("player".to_string(), ExecutionState::Success, None));
}

#[test]
fn transport_failure_gives_one_query_failed_result() {
    let err = TransportError { location: "src/setup.rs, 42".to_string(), detail: "connection refused".to_string() };
    let expected = vec![table("event"), table("player")];
    let r = summary(ObjectKind::Table, &expected, Err(err));
    assert_eq!(
        r,
        vec![(
            String::new(),
            ExecutionState::QueryFailed,
            Some("Failed in src/setup.rs, 42: connection refused".to_string())
        )]
    );
}

#[test]
fn transport_failure_message_is_never_empty() {
    let err = TransportError { location: String::new(), detail: String::new() };
    let r = summary(ObjectKind::Constraint, &vec![], Err(err));
    assert_eq!(r.len(), 1);
    assert_eq!(r[0].1, ExecutionState::QueryFailed);
    assert_eq!(r[0].2, Some("Failed in : ".to_string()));
}

#[test]
fn driver_failure_state_is_passed_on() {
    let outcome = Ok(QueryOutcome {
        execution_state: ExecutionState::QueryFailed,
        error_message: Some("relation does not exist".to_string()),
        row_sets: vec![RowSet { rows: vec![presence("event", text("t"))] }],
    });
    let r = summary(ObjectKind::Table, &vec![table("event")], outcome);
    assert_eq!(
        r,
        vec![(String::new(), ExecutionState::QueryFailed, Some("relation does not exist".to_string()))]
    );
}

#[test]
fn failure_message_joins_location_and_detail() {
    let err = TransportError { location: "a.rs, 7".to_string(), detail: "timeout".to_string() };
    assert_eq!(failure_message(&err), "Failed in a.rs, 7: timeout");
}

#[test]
fn introspection_batch_holds_the_query_alone() {
    let b = introspection_batch("select 1");
    assert_eq!(b.len(), 1);
    assert_eq!(b[0].query, "select 1");
    assert!(b[0].params.is_empty());
}
