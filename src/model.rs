use vstd::prelude::*;

verus! {

/// Which kind of schema object a pass is about.
#[derive(Clone, Copy, Debug, PartialEq, Eq, Structural)]
pub enum ObjectKind {
    Table,
    Constraint,
}

/// The state reported for one object, or for one batch of statements.
#[derive(Clone, Copy, Debug, PartialEq, Eq, Structural)]
pub enum ExecutionState {
    Success,
    MissingRelations,
    QueryFailed,
    /// The initial state of a fresh result; never part of a finished report.
    Unset,
}

/// One cell of a row returned by the database driver.
#[derive(Clone, Debug)]
pub enum ColumnValue {
    Bool(bool),
    Text(String),
    Int(i64),
    Null,
}

/// One row of an introspection result: column names and the values under them.
#[derive(Clone, Debug)]
pub struct ObservedRow {
    pub column_names: Vec<String>,
    pub values: Vec<ColumnValue>,
}

/// The rows produced by one statement of a batch.
#[derive(Clone, Debug)]
pub struct RowSet {
    pub rows: Vec<ObservedRow>,
}

/// What the driver reports for a batch that it could run.
#[derive(Clone, Debug)]
pub struct QueryOutcome {
    pub execution_state: ExecutionState,
    pub error_message: Option<String>,
    pub row_sets: Vec<RowSet>,
}

/// A failure to run a batch at all (connection refused, malformed statement):
/// where it was detected, and the driver's own words.
#[derive(Clone, Debug)]
pub struct TransportError {
    pub location: String,
    pub detail: String,
}

/// One statement handed to the driver.
#[derive(Clone, Debug)]
pub struct QueryAndParams {
    pub query: String,
    pub params: Vec<ColumnValue>,
}

/// A schema object that must exist.
#[derive(Clone, Debug)]
pub struct ExpectedObject {
    pub name: String,
    pub kind: ObjectKind,
}

/// Creation statements for one candidate object: a table and a constraint.
#[derive(Clone, Debug)]
pub struct DdlDefinition {
    pub table_name: String,
    pub table_ddl: String,
    pub constraint_name: String,
    pub constraint_ddl: String,
}

/// The name of an object reported missing, as it arrives from outside.
#[derive(Clone, Debug)]
pub struct MissingDbObjects {
    pub missing_object: String,
}

/// The outcome for one object (existence check) or for one batch (creation).
#[derive(Clone, Debug)]
pub struct ReconciliationResult {
    pub object_name: String,
    pub execution_state: ExecutionState,
    pub error_message: Option<String>,
}

/// The mathematical value of a `ReconciliationResult`.
pub ghost struct ResultView {
    pub object_name: Seq<char>,
    pub execution_state: ExecutionState,
    pub error_message: Option<Seq<char>>,
}

pub open spec fn opt_view(m: Option<String>) -> Option<Seq<char>> {
    match m {
        Some(s) => Some(s@),
        None => None,
    }
}

impl View for ReconciliationResult {
    type V = ResultView;

    open spec fn view(&self) -> ResultView {
        ResultView {
            object_name: self.object_name@,
            execution_state: self.execution_state,
            error_message: opt_view(self.error_message),
        }
    }
}

impl ExpectedObject {
    pub open spec fn is_kind(self, kind: ObjectKind) -> bool {
        self.kind == kind
    }
}

impl DdlDefinition {
    /// The name that a definition is looked up by, for the given kind.
    pub open spec fn key(self, kind: ObjectKind) -> Seq<char> {
        match kind {
            ObjectKind::Table => self.table_name@,
            ObjectKind::Constraint => self.constraint_name@,
        }
    }

    /// The statement that a definition runs, for the given kind.
    pub open spec fn statement(self, kind: ObjectKind) -> Seq<char> {
        match kind {
            ObjectKind::Table => self.table_ddl@,
            ObjectKind::Constraint => self.constraint_ddl@,
        }
    }
}

} // verus!
