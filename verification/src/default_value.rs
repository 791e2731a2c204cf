//! The effective default value of a table column.
//!
//! The answer lies in the database's own description of the table, so finding
//! it takes a conversation with a connection. The library holds the rules of
//! that conversation and no connection: a [`Lookup`] says which operation is
//! due, the caller performs it and hands the outcome back, until the lookup
//! is finished.

use vstd::prelude::*;
use vstd::string::*;

verus! {

/// The statement that describes one column of one table. Its first parameter
/// is the table's name, its second the column's; its row holds the stored
/// default in column 0 and the not-null flag in column 1.
pub const TABLE_INFO_SQL: &'static str =
    "SELECT [dflt_value], [notnull] FROM pragma_table_info(?) WHERE name = ?";

/// The kind of value that a column of a result row holds.
#[derive(Clone, Copy, Debug, PartialEq, Eq)]
pub enum ColumnType {
    Integer,
    Float,
    Text,
    Blob,
    Null,
}

/// What a column defaults to.
#[derive(Debug, PartialEq, Eq)]
pub enum DefaultValue {
    /// The column is NOT NULL and the schema stores no default for it.
    NoDefault,
    /// The column is nullable and the schema stores no default: it defaults
    /// to NULL.
    Null,
    /// The default expression as the schema stores it, untouched.
    Literal(String),
}

/// Why a lookup ended without an answer.
#[derive(Clone, Copy, Debug, PartialEq, Eq)]
pub enum LookupError {
    /// The table's description has no row for the column.
    SchemaInconsistency,
    /// The connection failed; the code is the one it reported.
    Connection(i32),
}

/// An operation on the connection that the caller performs for a lookup.
#[derive(Clone, Copy, Debug, PartialEq, Eq)]
pub enum Request<'a> {
    /// Prepare the statement `sql`.
    Prepare { sql: &'static str },
    /// Bind `text` to parameter `index` of the statement.
    BindText { index: i32, text: &'a str },
    /// Step the statement to its next row.
    Step,
    /// Read column `index` of the row as an integer.
    ColumnInt { index: i32 },
    /// Read the type of the value in column `index` of the row.
    ColumnType { index: i32 },
    /// Read column `index` of the row as text.
    ColumnText { index: i32 },
}

/// The outcome of an operation that a lookup asked for.
#[derive(Debug, PartialEq, Eq)]
pub enum Reply {
    /// The statement was prepared, or the parameter bound.
    Ready,
    /// The step arrived at a row.
    Row,
    /// The step found no more rows.
    Done,
    Int(i32),
    Type(ColumnType),
    Text(String),
    /// The operation failed with this code of the connection.
    Failed(i32),
}

/// How far a lookup has come: the operation whose outcome it waits for.
#[derive(Clone, Copy, Debug, PartialEq, Eq)]
pub enum Stage {
    Prepare,
    BindTable,
    BindColumn,
    Step,
    ReadNotNull,
    ReadDefaultType { notnull: i32 },
    ReadDefaultText,
}

/// A lookup of the default value of `column` in `table` that is under way.
#[derive(Clone, Copy, Debug, PartialEq, Eq)]
pub struct Lookup<'a> {
    pub table: &'a str,
    pub column: &'a str,
    pub stage: Stage,
}

/// A lookup after a reply: still under way, or finished with its result.
#[derive(Debug, PartialEq, Eq)]
pub enum Progress<'a> {
    Pending(Lookup<'a>),
    Finished(Result<DefaultValue, LookupError>),
}

/// The default of a column whose stored default is NULL: a nullable column
/// defaults to NULL, a NOT NULL column has no default.
pub open spec fn default_without_stored(notnull: i32) -> DefaultValue {
    if notnull == 0 {
        DefaultValue::Null
    } else {
        DefaultValue::NoDefault
    }
}

impl DefaultValue {
    /// The default as text to splice into a statement, if there is one:
    /// `NULL` for a NULL default, the stored expression for a literal.
    pub open spec fn text(self) -> Option<Seq<char>> {
        match self {
            DefaultValue::NoDefault => None,
            DefaultValue::Null => Some("NULL"@),
            DefaultValue::Literal(stored) => Some(stored@),
        }
    }

    /// The default as text to splice into a statement, if there is one.
    pub fn into_text(self) -> (res: Option<String>)
        ensures
            res is Some == self.text() is Some,
            res matches Some(t) ==> Some(t@) == self.text(),
    {
        match self {
            DefaultValue::NoDefault => None,
            DefaultValue::Null => Some(String::from_str("NULL")),
            DefaultValue::Literal(stored) => Some(stored),
        }
    }
}

impl<'a> Lookup<'a> {
    /// The same lookup at another stage.
    pub open spec fn at(self, stage: Stage) -> Lookup<'a> {
        Lookup { table: self.table, column: self.column, stage }
    }

    /// The operation that the lookup waits for.
    pub open spec fn spec_request(self) -> Request<'a> {
        match self.stage {
            Stage::Prepare => Request::Prepare { sql: TABLE_INFO_SQL },
            Stage::BindTable => Request::BindText { index: 1, text: self.table },
            Stage::BindColumn => Request::BindText { index: 2, text: self.column },
            Stage::Step => Request::Step,
            Stage::ReadNotNull => Request::ColumnInt { index: 1 },
            Stage::ReadDefaultType { .. } => Request::ColumnType { index: 0 },
            Stage::ReadDefaultText => Request::ColumnText { index: 0 },
        }
    }

    /// Where the lookup stands once `reply` has come in. A failure ends it
    /// with the connection's code. The reply that answers the pending request
    /// moves it on; any other reply leaves it waiting as before.
    pub open spec fn spec_advance(self, reply: Reply) -> Progress<'a> {
        match (self.stage, reply) {
            (_, Reply::Failed(code)) => Progress::Finished(Err(LookupError::Connection(code))),
            (Stage::Prepare, Reply::Ready) => Progress::Pending(self.at(Stage::BindTable)),
            (Stage::BindTable, Reply::Ready) => Progress::Pending(self.at(Stage::BindColumn)),
            (Stage::BindColumn, Reply::Ready) => Progress::Pending(self.at(Stage::Step)),
            (Stage::Step, Reply::Row) => Progress::Pending(self.at(Stage::ReadNotNull)),
            (Stage::Step, Reply::Done) => Progress::Finished(
                Err(LookupError::SchemaInconsistency),
            ),
            (Stage::ReadNotNull, Reply::Int(notnull)) => Progress::Pending(
                self.at(Stage::ReadDefaultType { notnull }),
            ),
            (Stage::ReadDefaultType { notnull }, Reply::Type(ColumnType::Null)) => {
                Progress::Finished(Ok(default_without_stored(notnull)))
            },
            (Stage::ReadDefaultType { .. }, Reply::Type(_)) => Progress::Pending(
                self.at(Stage::ReadDefaultText),
            ),
            (Stage::ReadDefaultText, Reply::Text(stored)) => Progress::Finished(
                Ok(DefaultValue::Literal(stored)),
            ),
            _ => Progress::Pending(self),
        }
    }

    /// The operation that the caller has to perform next.
    pub fn request(&self) -> (req: Request<'a>)
        ensures
            req == self.spec_request(),
    {
        match self.stage {
            Stage::Prepare => Request::Prepare { sql: TABLE_INFO_SQL },
            Stage::BindTable => Request::BindText { index: 1, text: self.table },
            Stage::BindColumn => Request::BindText { index: 2, text: self.column },
            Stage::Step => Request::Step,
            Stage::ReadNotNull => Request::ColumnInt { index: 1 },
            Stage::ReadDefaultType { .. } => Request::ColumnType { index: 0 },
            Stage::ReadDefaultText => Request::ColumnText { index: 0 },
        }
    }

    /// Takes the outcome of the requested operation.
    pub fn advance(self, reply: Reply) -> (next: Progress<'a>)
        ensures
            next == self.spec_advance(reply),
    {
        let Lookup { table, column, stage } = self;
        match (stage, reply) {
            (_, Reply::Failed(code)) => Progress::Finished(Err(LookupError::Connection(code))),
            (Stage::Prepare, Reply::Ready) => Progress::Pending(
                Lookup { table, column, stage: Stage::BindTable },
            ),
            (Stage::BindTable, Reply::Ready) => Progress::Pending(
                Lookup { table, column, stage: Stage::BindColumn },
            ),
            (Stage::BindColumn, Reply::Ready) => Progress::Pending(
                Lookup { table, column, stage: Stage::Step },
            ),
            (Stage::Step, Reply::Row) => Progress::Pending(
                Lookup { table, column, stage: Stage::ReadNotNull },
            ),
            (Stage::Step, Reply::Done) => Progress::Finished(
                Err(LookupError::SchemaInconsistency),
            ),
            (Stage::ReadNotNull, Reply::Int(notnull)) => Progress::Pending(
                Lookup { table, column, stage: Stage::ReadDefaultType { notnull } },
            ),
            (Stage::ReadDefaultType { notnull }, Reply::Type(ColumnType::Null)) => {
                if notnull == 0 {
                    Progress::Finished(Ok(DefaultValue::Null))
                } else {
                    Progress::Finished(Ok(DefaultValue::NoDefault))
                }
            },
            (Stage::ReadDefaultType { .. }, Reply::Type(_)) => Progress::Pending(
                Lookup { table, column, stage: Stage::ReadDefaultText },
            ),
            (Stage::ReadDefaultText, Reply::Text(stored)) => Progress::Finished(
                Ok(DefaultValue::Literal(stored)),
            ),
            (stage, _) => Progress::Pending(Lookup { table, column, stage }),
        }
    }
}

impl Stage {
    /// The greatest number of operations that are still to come, the pending
    /// one included.
    pub open spec fn operations_left(self) -> nat {
        match self {
            Stage::Prepare => 7,
            Stage::BindTable => 6,
            Stage::BindColumn => 5,
            Stage::Step => 4,
            Stage::ReadNotNull => 3,
            Stage::ReadDefaultType { .. } => 2,
            Stage::ReadDefaultText => 1,
        }
    }
}

impl<'a> Request<'a> {
    /// `reply` is an outcome that the operation can have.
    pub open spec fn answered_by(self, reply: Reply) -> bool {
        match (self, reply) {
            (_, Reply::Failed(_)) => true,
            (Request::Prepare { .. }, Reply::Ready) => true,
            (Request::BindText { .. }, Reply::Ready) => true,
            (Request::Step, Reply::Row) => true,
            (Request::Step, Reply::Done) => true,
            (Request::ColumnInt { .. }, Reply::Int(_)) => true,
            (Request::ColumnType { .. }, Reply::Type(_)) => true,
            (Request::ColumnText { .. }, Reply::Text(_)) => true,
            _ => false,
        }
    }
}

impl<'a> Progress<'a> {
    /// Where things stand after one more reply: a pending lookup takes it, a
    /// finished one keeps its result.
    pub open spec fn after(self, reply: Reply) -> Progress<'a> {
        match self {
            Progress::Pending(lookup) => lookup.spec_advance(reply),
            Progress::Finished(_) => self,
        }
    }
}

/// The lookup as it begins.
pub open spec fn begun<'a>(table: &'a str, column: &'a str) -> Progress<'a> {
    Progress::Pending(Lookup { table, column, stage: Stage::Prepare })
}

/// The lookup once the statement is prepared, both names are bound and the
/// step has arrived at the column's row.
pub open spec fn at_row<'a>(table: &'a str, column: &'a str) -> Progress<'a> {
    begun(table, column).after(Reply::Ready).after(Reply::Ready).after(Reply::Ready).after(Reply::Row)
}

/// A lookup asks for the fixed statement first, then binds the table's name
/// to its first parameter and the column's name to its second, and steps
/// once.
pub proof fn law_query_binds_table_then_column<'a>(table: &'a str, column: &'a str)
    ensures
        begun(table, column) matches Progress::Pending(l) && l.spec_request() == (Request::Prepare {
            sql: TABLE_INFO_SQL,
        }),
        begun(table, column).after(Reply::Ready) matches Progress::Pending(l) && l.spec_request()
            == (Request::BindText { index: 1, text: table }),
        begun(table, column).after(Reply::Ready).after(Reply::Ready) matches Progress::Pending(l)
            && l.spec_request() == (Request::BindText { index: 2, text: column }),
        begun(table, column).after(Reply::Ready).after(Reply::Ready).after(
            Reply::Ready,
        ) matches Progress::Pending(l) && l.spec_request() == Request::Step,
{
}

/// A column for which the table's description has no row ends the lookup
/// with a schema inconsistency.
pub proof fn law_missing_row_is_schema_inconsistency<'a>(table: &'a str, column: &'a str)
    ensures
        begun(table, column).after(Reply::Ready).after(Reply::Ready).after(Reply::Ready).after(
            Reply::Done,
        ) == Progress::Finished(Err(LookupError::SchemaInconsistency)),
{
}

/// A NOT NULL column with no stored default has no default, and the stored
/// text is never asked for.
pub proof fn law_not_null_without_stored_default<'a>(table: &'a str, column: &'a str, notnull: i32)
    requires
        notnull != 0,
    ensures
        at_row(table, column).after(Reply::Int(notnull)).after(Reply::Type(ColumnType::Null))
            == Progress::Finished(Ok(DefaultValue::NoDefault)),
        DefaultValue::NoDefault.text() is None,
{
}

/// A nullable column with no stored default defaults to NULL, whose text is
/// `NULL`.
pub proof fn law_nullable_without_stored_default<'a>(table: &'a str, column: &'a str)
    ensures
        at_row(table, column).after(Reply::Int(0)).after(Reply::Type(ColumnType::Null))
            == Progress::Finished(Ok(DefaultValue::Null)),
        DefaultValue::Null.text() == Some("NULL"@),
{
}

/// A stored default is the answer as it stands, whatever the column's
/// nullability and whatever the text holds.
pub proof fn law_stored_default_is_verbatim<'a>(
    table: &'a str,
    column: &'a str,
    notnull: i32,
    dflt_type: ColumnType,
    stored: String,
)
    requires
        dflt_type != ColumnType::Null,
    ensures
        at_row(table, column).after(Reply::Int(notnull)).after(Reply::Type(dflt_type)).after(
            Reply::Text(stored),
        ) == Progress::Finished(Ok(DefaultValue::Literal(stored))),
        DefaultValue::Literal(stored).text() == Some(stored@),
{
}

/// A failure of the connection ends the lookup at once, whatever its stage,
/// with the code that the connection reported.
pub proof fn law_failure_is_passed_on<'a>(lookup: Lookup<'a>, code: i32)
    ensures
        lookup.spec_advance(Reply::Failed(code)) == Progress::<'a>::Finished(
            Err(LookupError::Connection(code)),
        ),
{
}

/// An outcome of the pending operation brings the lookup nearer to its end:
/// it finishes, or fewer operations are left. A reply that is no outcome of
/// the pending operation changes nothing.
pub proof fn law_each_answer_makes_progress<'a>(lookup: Lookup<'a>, reply: Reply)
    ensures
        lookup.spec_request().answered_by(reply) ==> match lookup.spec_advance(reply) {
            Progress::Pending(next) => {
                &&& next.table == lookup.table
                &&& next.column == lookup.column
                &&& next.stage.operations_left() < lookup.stage.operations_left()
            },
            Progress::Finished(_) => true,
        },
        !lookup.spec_request().answered_by(reply) ==> lookup.spec_advance(reply)
            == Progress::Pending(lookup),
{
}

/// The three answers exclude one another, and which one it is follows from
/// the not-null flag and from whether a default is stored: the stored text
/// plays no part in the choice.
pub proof fn law_exactly_one_state(value: DefaultValue)
    ensures
        (value is NoDefault) != (value is Null || value is Literal),
        !(value is Null && value is Literal),
        value.text() is None <==> value is NoDefault,
{
}

/// Begins the lookup of the default value of column `col` of `table`.
pub fn get_dflt_value<'a>(table: &'a str, col: &'a str) -> (lookup: Lookup<'a>)
    ensures
        lookup == (Lookup { table, column: col, stage: Stage::Prepare }),
{
    Lookup { table, column: col, stage: Stage::Prepare }
}

} // verus!
