//! Replies of the database.

use std::sync::Arc;

use vstd::prelude::*;

use crate::error::DatabaseError;
use crate::error::Fault;
use crate::id::Uuid;
use crate::json::Json;
use crate::text::text_eq;

verus! {

/// One value of a row.
#[derive(Debug)]
pub enum Cell {
    Null,
    Bool(bool),
    I32(i32),
    I64(i64),
    Text(String),
    Bytes(Arc<Vec<u8>>),
    Id(Uuid),
    Ids(Arc<Vec<Uuid>>),
    Json(Arc<Json>),
}

/// A value under its column name.
#[derive(Debug)]
pub struct Column {
    pub name: String,
    pub cell: Cell,
}

/// A row of a result.
#[derive(Debug)]
pub struct Row {
    pub columns: Vec<Column>,
}

/// The answer to a command.
#[derive(Debug)]
pub enum Reply {
    /// The command was performed and has nothing to report.
    Ack,
    /// The number of rows that a write touched.
    Count(u64),
    /// The rows that a statement returned.
    Rows(Vec<Row>),
    /// Newly drawn identifiers.
    Ids(Vec<Uuid>),
}

/// A type that a cell can hold.
pub trait FromCell: Sized {
    spec fn cell_spec(cell: Cell) -> Option<Self>;

    fn from_cell(cell: &Cell) -> (r: Option<Self>)
        ensures
            r == Self::cell_spec(*cell),
    ;
}

impl FromCell for bool {
    open spec fn cell_spec(cell: Cell) -> Option<bool> {
        match cell {
            Cell::Bool(v) => Some(v),
            _ => None,
        }
    }

    fn from_cell(cell: &Cell) -> (r: Option<bool>) {
        match cell {
            Cell::Bool(v) => Some(*v),
            _ => None,
        }
    }
}

impl FromCell for i32 {
    open spec fn cell_spec(cell: Cell) -> Option<i32> {
        match cell {
            Cell::I32(v) => Some(v),
            _ => None,
        }
    }

    fn from_cell(cell: &Cell) -> (r: Option<i32>) {
        match cell {
            Cell::I32(v) => Some(*v),
            _ => None,
        }
    }
}

impl FromCell for i64 {
    open spec fn cell_spec(cell: Cell) -> Option<i64> {
        match cell {
            Cell::I64(v) => Some(v),
            _ => None,
        }
    }

    fn from_cell(cell: &Cell) -> (r: Option<i64>) {
        match cell {
            Cell::I64(v) => Some(*v),
            _ => None,
        }
    }
}

impl FromCell for Uuid {
    open spec fn cell_spec(cell: Cell) -> Option<Uuid> {
        match cell {
            Cell::Id(v) => Some(v),
            _ => None,
        }
    }

    fn from_cell(cell: &Cell) -> (r: Option<Uuid>) {
        match cell {
            Cell::Id(v) => Some(*v),
            _ => None,
        }
    }
}

impl FromCell for String {
    open spec fn cell_spec(cell: Cell) -> Option<String> {
        match cell {
            Cell::Text(v) => Some(v),
            _ => None,
        }
    }

    fn from_cell(cell: &Cell) -> (r: Option<String>) {
        match cell {
            Cell::Text(v) => Some(v.clone()),
            _ => None,
        }
    }
}

impl FromCell for Arc<Vec<u8>> {
    open spec fn cell_spec(cell: Cell) -> Option<Arc<Vec<u8>>> {
        match cell {
            Cell::Bytes(v) => Some(v),
            _ => None,
        }
    }

    fn from_cell(cell: &Cell) -> (r: Option<Arc<Vec<u8>>>) {
        match cell {
            Cell::Bytes(v) => Some(v.clone()),
            _ => None,
        }
    }
}

impl FromCell for Arc<Vec<Uuid>> {
    open spec fn cell_spec(cell: Cell) -> Option<Arc<Vec<Uuid>>> {
        match cell {
            Cell::Ids(v) => Some(v),
            _ => None,
        }
    }

    fn from_cell(cell: &Cell) -> (r: Option<Arc<Vec<Uuid>>>) {
        match cell {
            Cell::Ids(v) => Some(v.clone()),
            _ => None,
        }
    }
}

impl FromCell for Arc<Json> {
    open spec fn cell_spec(cell: Cell) -> Option<Arc<Json>> {
        match cell {
            Cell::Json(v) => Some(v),
            _ => None,
        }
    }

    fn from_cell(cell: &Cell) -> (r: Option<Arc<Json>>) {
        match cell {
            Cell::Json(v) => Some(v.clone()),
            _ => None,
        }
    }
}

impl<T: FromCell> FromCell for Option<T> {
    open spec fn cell_spec(cell: Cell) -> Option<Option<T>> {
        match cell {
            Cell::Null => Some(None),
            _ => match T::cell_spec(cell) {
                Some(v) => Some(Some(v)),
                None => None,
            },
        }
    }

    fn from_cell(cell: &Cell) -> (r: Option<Option<T>>) {
        match cell {
            Cell::Null => Some(None),
            _ => match T::from_cell(cell) {
                Some(v) => Some(Some(v)),
                None => None,
            },
        }
    }
}

/// The first cell under a column name.
pub open spec fn cell_named(columns: Seq<Column>, name: Seq<char>) -> Option<Cell>
    decreases columns.len(),
{
    if columns.len() == 0 {
        None
    } else {
        match cell_named(columns.drop_last(), name) {
            Some(cell) => Some(cell),
            None => if columns.last().name@ == name {
                Some(columns.last().cell)
            } else {
                None
            },
        }
    }
}

proof fn lemma_cell_named_at(columns: Seq<Column>, name: Seq<char>, at: int)
    requires
        0 <= at < columns.len(),
        columns[at].name@ == name,
        forall|j: int| 0 <= j < at ==> (#[trigger] columns[j]).name@ != name,
    ensures
        cell_named(columns, name) == Some(columns[at].cell),
    decreases columns.len(),
{
    if at == columns.len() - 1 {
        lemma_cell_named_none(columns.drop_last(), name);
    } else {
        lemma_cell_named_at(columns.drop_last(), name, at);
    }
}

proof fn lemma_cell_named_none(columns: Seq<Column>, name: Seq<char>)
    requires
        forall|j: int| 0 <= j < columns.len() ==> (#[trigger] columns[j]).name@ != name,
    ensures
        cell_named(columns, name) is None,
    decreases columns.len(),
{
    if columns.len() > 0 {
        lemma_cell_named_none(columns.drop_last(), name);
    }
}

impl Row {
    /// The value of a column, where the row has it with that type.
    pub open spec fn column<T: FromCell>(self, name: Seq<char>) -> Option<T> {
        match cell_named(self.columns@, name) {
            Some(cell) => T::cell_spec(cell),
            None => None,
        }
    }

    /// The value of a column, where the row has it with that type.
    pub fn get<T: FromCell>(&self, name: &str) -> (r: Option<T>)
        ensures
            r == self.column::<T>(name@),
    {
        let mut at: usize = 0;
        while at < self.columns.len()
            invariant
                at <= self.columns@.len(),
                forall|j: int| 0 <= j < at ==> (#[trigger] self.columns@[j]).name@ != name@,
            decreases self.columns@.len() - at,
        {
            if text_eq(self.columns[at].name.as_str(), name) {
                proof {
                    lemma_cell_named_at(self.columns@, name@, at as int);
                }
                return T::from_cell(&self.columns[at].cell);
            }
            at = at + 1;
        }
        proof {
            lemma_cell_named_none(self.columns@, name@);
        }
        None
    }
}

/// The value of a row's first column; a database failure where it has another type.
pub open spec fn first_column<T: FromCell>(row: Row) -> Result<T, Fault> {
    if row.columns@.len() == 0 {
        Err(Fault::Error(DatabaseError::Sql))
    } else {
        match T::cell_spec(row.columns@[0].cell) {
            Some(v) => Ok(v),
            None => Err(Fault::Error(DatabaseError::Sql)),
        }
    }
}

fn first_of<T: FromCell>(row: &Row) -> (r: Result<T, Fault>)
    ensures
        r == first_column::<T>(*row),
{
    if row.columns.len() == 0 {
        Err(Fault::Error(DatabaseError::Sql))
    } else {
        match T::from_cell(&row.columns[0].cell) {
            Some(v) => Ok(v),
            None => Err(Fault::Error(DatabaseError::Sql)),
        }
    }
}

/// A type that is read from a row.
pub trait FromRow: Sized {
    spec fn row_spec(row: Row) -> Result<Self, Fault>;

    fn from_row(row: &Row) -> (r: Result<Self, Fault>)
        ensures
            r == Self::row_spec(*row),
    ;
}

impl FromRow for bool {
    open spec fn row_spec(row: Row) -> Result<bool, Fault> {
        first_column::<bool>(row)
    }

    fn from_row(row: &Row) -> (r: Result<bool, Fault>) {
        first_of::<bool>(row)
    }
}

impl FromRow for i64 {
    open spec fn row_spec(row: Row) -> Result<i64, Fault> {
        first_column::<i64>(row)
    }

    fn from_row(row: &Row) -> (r: Result<i64, Fault>) {
        first_of::<i64>(row)
    }
}

impl FromRow for Uuid {
    open spec fn row_spec(row: Row) -> Result<Uuid, Fault> {
        first_column::<Uuid>(row)
    }

    fn from_row(row: &Row) -> (r: Result<Uuid, Fault>) {
        first_of::<Uuid>(row)
    }
}

impl FromRow for Option<Uuid> {
    open spec fn row_spec(row: Row) -> Result<Option<Uuid>, Fault> {
        first_column::<Option<Uuid>>(row)
    }

    fn from_row(row: &Row) -> (r: Result<Option<Uuid>, Fault>) {
        first_of::<Option<Uuid>>(row)
    }
}

impl FromRow for String {
    open spec fn row_spec(row: Row) -> Result<String, Fault> {
        first_column::<String>(row)
    }

    fn from_row(row: &Row) -> (r: Result<String, Fault>) {
        first_of::<String>(row)
    }
}

impl FromRow for Arc<Vec<u8>> {
    open spec fn row_spec(row: Row) -> Result<Arc<Vec<u8>>, Fault> {
        first_column::<Arc<Vec<u8>>>(row)
    }

    fn from_row(row: &Row) -> (r: Result<Arc<Vec<u8>>, Fault>) {
        first_of::<Arc<Vec<u8>>>(row)
    }
}

impl FromRow for () {
    open spec fn row_spec(row: Row) -> Result<(), Fault> {
        Ok(())
    }

    fn from_row(row: &Row) -> (r: Result<(), Fault>) {
        Ok(())
    }
}

impl Reply {
    /// The first row of a reply, if it has any.
    pub open spec fn optional_row<T: FromRow>(self) -> Result<Option<T>, Fault> {
        match self {
            Reply::Rows(rows) => if rows@.len() == 0 {
                Ok(None)
            } else {
                match T::row_spec(rows@[0]) {
                    Ok(v) => Ok(Some(v)),
                    Err(fault) => Err(fault),
                }
            },
            _ => Err(Fault::Malformed),
        }
    }

    /// The first row of a reply; an error where it has none.
    pub open spec fn required_row<T: FromRow>(self, missing: DatabaseError) -> Result<T, Fault> {
        match self.optional_row::<T>() {
            Ok(Some(v)) => Ok(v),
            Ok(None) => Err(Fault::Error(missing)),
            Err(fault) => Err(fault),
        }
    }

    /// The row of a statement that always returns one.
    pub open spec fn single_row<T: FromRow>(self) -> Result<T, Fault> {
        match self.optional_row::<T>() {
            Ok(Some(v)) => Ok(v),
            Ok(None) => Err(Fault::Malformed),
            Err(fault) => Err(fault),
        }
    }

    /// The rows of a reply, read in order.
    pub open spec fn all_rows<T: FromRow>(self) -> Result<Seq<T>, Fault> {
        match self {
            Reply::Rows(rows) => rows_spec::<T>(rows@),
            _ => Err(Fault::Malformed),
        }
    }

    /// The number of rows that a write touched.
    pub open spec fn row_count(self) -> Result<u64, Fault> {
        match self {
            Reply::Count(n) => Ok(n),
            _ => Err(Fault::Malformed),
        }
    }

    /// Whether a write touched exactly one row; an error where it did not.
    pub open spec fn one_affected(self, otherwise: DatabaseError) -> Result<(), Fault> {
        match self {
            Reply::Count(n) => if n == 1 {
                Ok(())
            } else {
                Err(Fault::Error(otherwise))
            },
            _ => Err(Fault::Malformed),
        }
    }

    /// Whether each of up to `count` replies from `from` on, as far as the log has them,
    /// reports exactly one row; else the fault of the first that does not.
    pub open spec fn each_affected_one(
        log: Seq<Reply>,
        from: int,
        count: int,
        otherwise: DatabaseError,
    ) -> Result<(), Fault>
        decreases count,
    {
        if count <= 0 || from >= log.len() {
            Ok(())
        } else if log[from].one_affected(otherwise) is Err {
            log[from].one_affected(otherwise)
        } else {
            Self::each_affected_one(log, from + 1, count - 1, otherwise)
        }
    }

    /// The identifiers that were drawn, where as many came as were asked for.
    pub open spec fn drawn_ids(self, count: int) -> Result<Seq<Uuid>, Fault> {
        match self {
            Reply::Ids(ids) => if ids@.len() == count {
                Ok(ids@)
            } else {
                Err(Fault::Malformed)
            },
            _ => Err(Fault::Malformed),
        }
    }
}

/// Reads the first row of a reply, if it has any.
pub fn optional<T: FromRow>(reply: &Reply) -> (r: Result<Option<T>, Fault>)
    ensures
        r == reply.optional_row::<T>(),
{
    match reply {
        Reply::Rows(rows) => if rows.len() == 0 {
            Ok(None)
        } else {
            match T::from_row(&rows[0]) {
                Ok(v) => Ok(Some(v)),
                Err(fault) => Err(fault),
            }
        },
        _ => Err(Fault::Malformed),
    }
}

/// Reads the first row of a reply; an error where it has none.
pub fn required<T: FromRow>(reply: &Reply, missing: DatabaseError) -> (r: Result<T, Fault>)
    ensures
        r == reply.required_row::<T>(missing),
{
    match optional::<T>(reply) {
        Ok(Some(v)) => Ok(v),
        Ok(None) => Err(Fault::Error(missing)),
        Err(fault) => Err(fault),
    }
}

/// Reads the row of a statement that always returns one.
pub fn single<T: FromRow>(reply: &Reply) -> (r: Result<T, Fault>)
    ensures
        r == reply.single_row::<T>(),
{
    match optional::<T>(reply) {
        Ok(Some(v)) => Ok(v),
        Ok(None) => Err(Fault::Malformed),
        Err(fault) => Err(fault),
    }
}

/// All rows read in order; the fault of the first row that cannot be read.
pub open spec fn rows_spec<T: FromRow>(rows: Seq<Row>) -> Result<Seq<T>, Fault>
    decreases rows.len(),
{
    if rows.len() == 0 {
        Ok(Seq::empty())
    } else {
        match rows_spec::<T>(rows.drop_last()) {
            Ok(read) => match T::row_spec(rows.last()) {
                Ok(v) => Ok(read.push(v)),
                Err(fault) => Err(fault),
            },
            Err(fault) => Err(fault),
        }
    }
}

proof fn lemma_rows_fault<T: FromRow>(rows: Seq<Row>, at: int)
    requires
        0 <= at < rows.len(),
        rows_spec::<T>(rows.take(at)) is Ok,
        T::row_spec(rows[at]) is Err,
    ensures
        rows_spec::<T>(rows) == Err::<Seq<T>, Fault>(T::row_spec(rows[at])->Err_0),
    decreases rows.len(),
{
    if at == rows.len() - 1 {
        assert(rows.drop_last() =~= rows.take(at));
    } else {
        assert(rows.drop_last().take(at) =~= rows.take(at));
        lemma_rows_fault::<T>(rows.drop_last(), at);
    }
}

/// What reading a list amounts to.
pub open spec fn list_view<T>(r: Result<Vec<T>, Fault>) -> Result<Seq<T>, Fault> {
    match r {
        Ok(list) => Ok(list@),
        Err(fault) => Err(fault),
    }
}

/// Reads the rows of a reply in order.
pub fn many<T: FromRow>(reply: &Reply) -> (r: Result<Vec<T>, Fault>)
    ensures
        list_view(r) == reply.all_rows::<T>(),
{
    match reply {
        Reply::Rows(rows) => {
            let mut read: Vec<T> = Vec::new();
            let mut at: usize = 0;
            while at < rows.len()
                invariant
                    at <= rows@.len(),
                    rows_spec::<T>(rows@.take(at as int)) == Ok::<Seq<T>, Fault>(read@),
                    *reply == Reply::Rows(*rows),
                decreases rows@.len() - at,
            {
                match T::from_row(&rows[at]) {
                    Ok(v) => {
                        proof {
                            assert(rows@.take(at + 1).drop_last() =~= rows@.take(at as int));
                        }
                        read.push(v);
                    },
                    Err(fault) => {
                        proof {
                            lemma_rows_fault::<T>(rows@, at as int);
                        }
                        return Err(fault);
                    },
                }
                at = at + 1;
            }
            proof {
                assert(rows@.take(at as int) =~= rows@);
            }
            Ok(read)
        },
        _ => Err(Fault::Malformed),
    }
}

/// Reads the number of rows that a write touched.
pub fn affected(reply: &Reply) -> (r: Result<u64, Fault>)
    ensures
        r == reply.row_count(),
{
    match reply {
        Reply::Count(n) => Ok(*n),
        _ => Err(Fault::Malformed),
    }
}

/// Demands that a write touched exactly one row.
pub fn exactly_one(reply: &Reply, otherwise: DatabaseError) -> (r: Result<(), Fault>)
    ensures
        r == reply.one_affected(otherwise),
{
    match reply {
        Reply::Count(n) => if *n == 1 {
            Ok(())
        } else {
            Err(Fault::Error(otherwise))
        },
        _ => Err(Fault::Malformed),
    }
}

/// Demands that each of up to `count` writes from `from` on touched exactly one row.
pub fn each_exactly_one(
    log: &[Reply],
    from: usize,
    count: usize,
    otherwise: DatabaseError,
) -> (r: Result<(), Fault>)
    ensures
        r == Reply::each_affected_one(log@, from as int, count as int, otherwise),
{
    let mut at: usize = from;
    let mut left: usize = count;
    while left > 0 && at < log.len()
        invariant
            Reply::each_affected_one(log@, from as int, count as int, otherwise)
                == Reply::each_affected_one(log@, at as int, left as int, otherwise),
        decreases left,
    {
        match exactly_one(&log[at], otherwise) {
            Ok(_) => {},
            Err(fault) => return Err(fault),
        }
        at = at + 1;
        left = left - 1;
    }
    Ok(())
}

proof fn lemma_each_affected_one_before(
    log: Seq<Reply>,
    from: int,
    count: int,
    otherwise: DatabaseError,
)
    requires
        0 <= from,
        from + count < log.len(),
    ensures
        Reply::each_affected_one(log.drop_last(), from, count, otherwise)
            == Reply::each_affected_one(log, from, count, otherwise),
    decreases count,
{
    if count > 0 {
        assert(log.drop_last()[from] == log[from]);
        lemma_each_affected_one_before(log, from + 1, count - 1, otherwise);
    }
}

/// A further reply does not change what writes before it have reported.
pub proof fn lemma_each_affected_one_settled(log: Seq<Reply>)
    ensures
        forall|from: int, count: int, otherwise: DatabaseError|
            0 <= from && from + count < log.len() ==> #[trigger] Reply::each_affected_one(
                log.drop_last(),
                from,
                count,
                otherwise,
            ) == Reply::each_affected_one(log, from, count, otherwise),
{
    assert forall|from: int, count: int, otherwise: DatabaseError|
        0 <= from && from + count < log.len() implies #[trigger] Reply::each_affected_one(
        log.drop_last(),
        from,
        count,
        otherwise,
    ) == Reply::each_affected_one(log, from, count, otherwise) by {
        lemma_each_affected_one_before(log, from, count, otherwise);
    }
}

/// Reads the identifiers that were drawn.
pub fn drawn(reply: &Reply, count: usize) -> (r: Result<&Vec<Uuid>, Fault>)
    ensures
        match r {
            Ok(ids) => reply.drawn_ids(count as int) == Ok::<Seq<Uuid>, Fault>(ids@),
            Err(fault) => reply.drawn_ids(count as int) == Err::<Seq<Uuid>, Fault>(fault),
        },
{
    match reply {
        Reply::Ids(ids) => if ids.len() == count {
            Ok(ids)
        } else {
            Err(Fault::Malformed)
        },
        _ => Err(Fault::Malformed),
    }
}

} // verus!
