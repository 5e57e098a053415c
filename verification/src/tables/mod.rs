//! The rows behind the replies: what the repository's statements do to tables, and laws about the
//! rows before and after an operation.
//!
//! Each statement that a law here speaks of has a meaning, which is read off its text: the rows it
//! finds, the rows it changes, the count or the row it answers with. The meaning is a premise of
//! the laws and nothing else: no operation's contract rests on it. It holds of a database in which
//! no other transaction touches the same rows meanwhile. The rows are those of one tenant, as each
//! statement binds one. Columns that no statement with a meaning reads are left out, among them
//! most of the times at which a row was last changed.

pub mod access;
pub mod allocations;
pub mod catalog;
pub mod closings;
pub mod collaboration;
pub mod copies;
pub mod document;
pub mod document_laws;
pub mod drafts;
pub mod finalizations;
pub mod identities;
pub mod logins;
pub mod media;
pub mod replay;
pub mod retention;
pub mod rooms;
pub mod sessions;
pub mod sharing;
pub mod tools;
pub mod uploads;
pub mod versions;

use std::sync::Arc;

use vstd::prelude::*;

use crate::error::Fault;
use crate::row::FromCell;
use crate::row::Reply;
use crate::row::Row;
use crate::step::CommandView;
use crate::step::Param;

verus! {

/// The rows of a tenant.
#[verifier::ext_equal]
pub struct Tables {
    pub catalog: catalog::CatalogTables,
    pub rooms: collaboration::RoomTables,
    pub documents: document::DocumentTables,
    pub media: media::MediaTables,
    pub tools: tools::ToolTables,
}

/// What a statement does: the reply to it, and the rows before and after it. `now` is the time at
/// which it runs.
pub open spec fn means<'a>(
    sql: &'static str,
    params: Seq<Param<'a>>,
    reply: Reply,
    now: int,
    before: Tables,
    after: Tables,
) -> bool {
    &&& crate::sql::reads(sql) ==> after == before
    &&& access::means(sql, params, reply, now, before, after)
    &&& allocations::means(sql, params, reply, now, before, after)
    &&& catalog::means(sql, params, reply, now, before, after)
    &&& closings::means(sql, params, reply, now, before, after)
    &&& collaboration::means(sql, params, reply, now, before, after)
    &&& copies::means(sql, params, reply, now, before, after)
    &&& document::means(sql, params, reply, now, before, after)
    &&& drafts::means(sql, params, reply, now, before, after)
    &&& finalizations::means(sql, params, reply, now, before, after)
    &&& identities::means(sql, params, reply, now, before, after)
    &&& logins::means(sql, params, reply, now, before, after)
    &&& media::means(sql, params, reply, now, before, after)
    &&& replay::means(sql, params, reply, now, before, after)
    &&& rooms::means(sql, params, reply, now, before, after)
    &&& sessions::means(sql, params, reply, now, before, after)
    &&& sharing::means(sql, params, reply, now, before, after)
    &&& tools::means(sql, params, reply, now, before, after)
    &&& uploads::means(sql, params, reply, now, before, after)
    &&& versions::means(sql, params, reply, now, before, after)
}

/// The course of a conversation: the time of each command, and the rows before the first command
/// and after each.
pub struct Course {
    pub clock: Seq<int>,
    pub rows: Seq<Tables>,
}

impl Course {
    /// The rows before the conversation.
    pub open spec fn start(self) -> Tables {
        self.rows[0]
    }

    /// The rows after the conversation's last command.
    pub open spec fn end(self) -> Tables {
        self.rows.last()
    }

    /// Whether a command is performed at its place in the course.
    pub open spec fn performs<'a>(
        self,
        script: Seq<CommandView<'a>>,
        log: Seq<Reply>,
        at: int,
    ) -> bool {
        match script[at] {
            CommandView::Query { sql, params, .. } => means(
                sql,
                params,
                log[at],
                self.clock[at],
                self.rows[at],
                self.rows[at + 1],
            ),
            _ => self.rows[at + 1] == self.rows[at],
        }
    }

    /// Whether this is a course of the commands of a script, as far as the log goes.
    pub open spec fn follows<'a>(self, script: Seq<CommandView<'a>>, log: Seq<Reply>) -> bool {
        &&& log.len() <= script.len()
        &&& self.clock.len() == log.len()
        &&& self.rows.len() == log.len() + 1
        &&& forall|i: int, j: int|
            0 <= i <= j < self.clock.len() ==> self.clock[i] <= self.clock[j]
        &&& forall|i: int| 0 <= i < log.len() ==> #[trigger] self.performs(script, log, i)
    }

    /// The rows that the conversation leaves: a transaction that stops in a fault is undone.
    pub open spec fn left<'a>(
        self,
        fault: Option<Fault>,
        script: Seq<CommandView<'a>>,
        log: Seq<Reply>,
    ) -> Tables {
        if crate::step::is_done(fault, script, log) {
            self.end()
        } else {
            self.start()
        }
    }
}

/// Whether a command is performed on rows.
pub open spec fn performed<'a>(
    command: CommandView<'a>,
    reply: Reply,
    now: int,
    before: Tables,
    after: Tables,
) -> bool {
    match command {
        CommandView::Query { sql, params, .. } => means(sql, params, reply, now, before, after),
        _ => after == before,
    }
}

/// A table after a change of one row, where there is anything to change.
pub open spec fn changed<K, V>(table: Map<K, V>, hit: bool, key: K, row: V) -> Map<K, V> {
    if hit {
        table.insert(key, row)
    } else {
        table
    }
}

/// The first row of a reply, if it has any.
pub open spec fn first_row(reply: Reply) -> Option<Row> {
    match reply {
        Reply::Rows(rows) => if rows@.len() == 0 {
            None
        } else {
            Some(rows@[0])
        },
        _ => None,
    }
}

/// Whether a reply has a row exactly where there is one to be found.
pub open spec fn answers(reply: Reply, found: bool) -> bool {
    reply is Rows && (first_row(reply) is Some <==> found)
}

/// Whether a row has a value under a column name.
pub open spec fn has<T: FromCell>(row: Row, name: Seq<char>, value: T) -> bool {
    row.column::<T>(name) == Some(value)
}

/// Whether a row has a whole number under a column name.
pub open spec fn has_number(row: Row, name: Seq<char>, value: int) -> bool {
    row.column::<i64>(name) is Some && row.column::<i64>(name)->0 == value
}

/// Whether a row has a text under a column name.
pub open spec fn has_text(row: Row, name: Seq<char>, text: Seq<char>) -> bool {
    row.column::<String>(name) is Some && row.column::<String>(name)->0@ == text
}

/// Whether a row has a text, or none, under a column name.
pub open spec fn has_optional_text(row: Row, name: Seq<char>, text: Option<Seq<char>>) -> bool {
    row.column::<Option<String>>(name) is Some && crate::text::optional_text(
        row.column::<Option<String>>(name)->0,
    ) == text
}

/// Whether a row has some bytes under a column name.
pub open spec fn has_bytes(row: Row, name: Seq<char>, bytes: Seq<u8>) -> bool {
    row.column::<Arc<Vec<u8>>>(name) is Some && row.column::<Arc<Vec<u8>>>(name)->0@ == bytes
}

/// Whether a row has some bytes, or none, under a column name.
pub open spec fn has_optional_bytes(
    row: Row,
    name: Seq<char>,
    bytes: Option<Seq<u8>>,
) -> bool {
    row.column::<Option<Arc<Vec<u8>>>>(name) is Some && collaboration::bytes_of(
        row.column::<Option<Arc<Vec<u8>>>>(name)->0,
    ) == bytes
}

/// Whether a reply reports a change of one row, or of none.
pub open spec fn touches(reply: Reply, hit: bool) -> bool {
    reply.row_count() == Ok::<u64, Fault>(
        if hit {
            1
        } else {
            0
        },
    )
}

} // verus!
