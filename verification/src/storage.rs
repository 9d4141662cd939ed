//! The persistence sink: two append-only tables, one per kind of event.
//!
//! `Storage` keeps the tables in memory and is the statement of what the
//! stored tables hold after each operation. A durable engine is driven with
//! the statements of `schema` and the values of `encode`.

use crate::address::{lemma_ipv4_text_is_injective, lemma_mac_text_is_injective};
use crate::event::ArpEvent;
use crate::schema::Table;
use vstd::prelude::*;

verus! {

/// Why an event could not be stored.
#[derive(Clone, Copy, Debug, PartialEq, Eq, Structural)]
pub enum StorageError {
    /// The table for the event does not exist.
    MissingTable(Table),
    /// The capture time does not fit the integer column.
    TimestampOutOfRange,
    /// The table has no identifier left for another row.
    IdentifiersExhausted(Table),
}

/// The values of a row that is about to be inserted: every column but the
/// identifier, which the table assigns.
#[derive(Debug, PartialEq, Eq)]
pub enum NewRow {
    /// A row for `arp_requests`.
    Request { source: String, dest: String, timestamp: i64 },
    /// A row for `arp_replies`.
    Reply { replier_ip: String, replier_mac: String, destination_ip: String, timestamp: i64 },
}

/// A row of `arp_requests`.
#[derive(Debug, PartialEq, Eq)]
pub struct RequestRow {
    /// The identifier that the table gave the row.
    pub id: i64,
    /// The address that asks, in dotted decimal.
    pub source: String,
    /// The address that is asked for, in dotted decimal.
    pub dest: String,
    /// The capture time in milliseconds since the epoch.
    pub timestamp: i64,
}

/// A row of `arp_replies`.
#[derive(Debug, PartialEq, Eq)]
pub struct ReplyRow {
    /// The identifier that the table gave the row.
    pub id: i64,
    /// The address that replies, in dotted decimal.
    pub replier_ip: String,
    /// The hardware address that it announces, in colon-separated
    /// hexadecimal.
    pub replier_mac: String,
    /// The address that the reply goes to, in dotted decimal.
    pub destination_ip: String,
    /// The capture time in milliseconds since the epoch.
    pub timestamp: i64,
}

/// What a `NewRow` holds.
pub enum NewRecord {
    Request { source: Seq<char>, dest: Seq<char>, timestamp: i64 },
    Reply {
        replier_ip: Seq<char>,
        replier_mac: Seq<char>,
        destination_ip: Seq<char>,
        timestamp: i64,
    },
}

/// What a `RequestRow` holds.
pub struct RequestRecord {
    pub id: i64,
    pub source: Seq<char>,
    pub dest: Seq<char>,
    pub timestamp: i64,
}

/// What a `ReplyRow` holds.
pub struct ReplyRecord {
    pub id: i64,
    pub replier_ip: Seq<char>,
    pub replier_mac: Seq<char>,
    pub destination_ip: Seq<char>,
    pub timestamp: i64,
}

impl View for NewRow {
    type V = NewRecord;

    open spec fn view(&self) -> NewRecord {
        match *self {
            NewRow::Request { source, dest, timestamp } => NewRecord::Request {
                source: source@,
                dest: dest@,
                timestamp,
            },
            NewRow::Reply {
                replier_ip,
                replier_mac,
                destination_ip,
                timestamp,
            } => NewRecord::Reply {
                replier_ip: replier_ip@,
                replier_mac: replier_mac@,
                destination_ip: destination_ip@,
                timestamp,
            },
        }
    }
}

impl View for RequestRow {
    type V = RequestRecord;

    open spec fn view(&self) -> RequestRecord {
        RequestRecord {
            id: self.id,
            source: self.source@,
            dest: self.dest@,
            timestamp: self.timestamp,
        }
    }
}

impl View for ReplyRow {
    type V = ReplyRecord;

    open spec fn view(&self) -> ReplyRecord {
        ReplyRecord {
            id: self.id,
            replier_ip: self.replier_ip@,
            replier_mac: self.replier_mac@,
            destination_ip: self.destination_ip@,
            timestamp: self.timestamp,
        }
    }
}

impl NewRecord {
    /// The table that the row belongs to.
    pub open spec fn table(self) -> Table {
        match self {
            NewRecord::Request { .. } => Table::Requests,
            NewRecord::Reply { .. } => Table::Replies,
        }
    }
}

impl NewRow {
    /// The table that the row belongs to.
    pub fn table(&self) -> (table: Table)
        ensures
            table == self@.table(),
    {
        match self {
            NewRow::Request { .. } => Table::Requests,
            NewRow::Reply { .. } => Table::Replies,
        }
    }
}

/// The table that stores events of the kind of `event`.
pub open spec fn table_of(event: ArpEvent) -> Table {
    match event {
        ArpEvent::Request { .. } => Table::Requests,
        ArpEvent::Reply { .. } => Table::Replies,
    }
}

/// The column values that stand for `event`, given the integer that stands
/// for its capture time: addresses as text, each in its column.
pub open spec fn columns_of(event: ArpEvent, timestamp: i64) -> NewRecord {
    match event {
        ArpEvent::Request { source, dest, .. } => NewRecord::Request {
            source: source.text(),
            dest: dest.text(),
            timestamp,
        },
        ArpEvent::Reply { replier_ip, replier_mac, destination_ip, .. } => NewRecord::Reply {
            replier_ip: replier_ip.text(),
            replier_mac: replier_mac.text(),
            destination_ip: destination_ip.text(),
            timestamp,
        },
    }
}

/// The row values under which `event` is stored: its capture time in whole
/// milliseconds since the epoch, where that fits the column.
pub open spec fn encoded(event: ArpEvent) -> Result<NewRecord, StorageError> {
    if event.spec_timestamp().millis() <= i64::MAX {
        Ok(columns_of(event, event.spec_timestamp().millis() as i64))
    } else {
        Err(StorageError::TimestampOutOfRange)
    }
}

/// Turns an event into the values of the row that stores it. Fails with
/// `TimestampOutOfRange` exactly when the capture time in milliseconds
/// exceeds the largest signed 64-bit integer.
pub fn encode(event: &ArpEvent) -> (row: Result<NewRow, StorageError>)
    ensures
        row is Ok <==> encoded(*event) is Ok,
        row matches Ok(values) ==> encoded(*event) == Ok::<NewRecord, StorageError>(values@),
        row matches Err(error) ==> encoded(*event) == Err::<NewRecord, StorageError>(error),
{
    let timestamp = match event.timestamp().epoch_millis() {
        Some(millis) => millis,
        None => {
            return Err(StorageError::TimestampOutOfRange);
        },
    };
    match event {
        ArpEvent::Request { source, dest, .. } => Ok(
            NewRow::Request { source: source.to_text(), dest: dest.to_text(), timestamp },
        ),
        ArpEvent::Reply { replier_ip, replier_mac, destination_ip, .. } => Ok(
            NewRow::Reply {
                replier_ip: replier_ip.to_text(),
                replier_mac: replier_mac.to_text(),
                destination_ip: destination_ip.to_text(),
                timestamp,
            },
        ),
    }
}

/// The contents of the two tables; a table that does not exist is `None`.
pub struct Tables {
    pub requests: Option<Seq<RequestRecord>>,
    pub replies: Option<Seq<ReplyRecord>>,
}

impl Tables {
    /// No table exists.
    pub open spec fn absent() -> Tables {
        Tables { requests: None, replies: None }
    }

    /// Whether `table` exists.
    pub open spec fn has(self, table: Table) -> bool {
        match table {
            Table::Requests => self.requests is Some,
            Table::Replies => self.replies is Some,
        }
    }

    /// The number of rows in `table`; zero where it does not exist.
    pub open spec fn rows(self, table: Table) -> nat {
        match table {
            Table::Requests => match self.requests {
                Some(rows) => rows.len(),
                None => 0,
            },
            Table::Replies => match self.replies {
                Some(rows) => rows.len(),
                None => 0,
            },
        }
    }

    /// The identifier that the next row of `table` gets: one more than the
    /// number of rows, so that identifiers start at 1 and rise by 1.
    pub open spec fn next_id(self, table: Table) -> int {
        self.rows(table) as int + 1
    }

    /// Every row's identifier is its position in the table, counting from 1.
    pub open spec fn numbered(self) -> bool {
        &&& self.requests matches Some(rows) ==> forall|i: int|
            0 <= i < rows.len() ==> (#[trigger] rows[i]).id == i + 1
        &&& self.replies matches Some(rows) ==> forall|i: int|
            0 <= i < rows.len() ==> (#[trigger] rows[i]).id == i + 1
    }

    /// The tables after the schema was ensured: a table that did not exist is
    /// there and empty, one that existed is as it was.
    pub open spec fn with_schema(self) -> Tables {
        Tables {
            requests: Some(
                match self.requests {
                    Some(rows) => rows,
                    None => Seq::empty(),
                },
            ),
            replies: Some(
                match self.replies {
                    Some(rows) => rows,
                    None => Seq::empty(),
                },
            ),
        }
    }

    /// Why `event` cannot be recorded, if it cannot: its table is missing,
    /// its capture time does not fit the column, or the table is full.
    pub open spec fn refusal(self, event: ArpEvent) -> Option<StorageError> {
        if !self.has(table_of(event)) {
            Some(StorageError::MissingTable(table_of(event)))
        } else if encoded(event) is Err {
            Some(StorageError::TimestampOutOfRange)
        } else if self.next_id(table_of(event)) > i64::MAX {
            Some(StorageError::IdentifiersExhausted(table_of(event)))
        } else {
            None
        }
    }

    /// The tables with one more row: `values` under the next identifier, at
    /// the end of its table. The other table is as it was.
    pub open spec fn inserted(self, values: NewRecord) -> Tables {
        match values {
            NewRecord::Request { source, dest, timestamp } => Tables {
                requests: Some(
                    self.requests.unwrap().push(
                        RequestRecord {
                            id: self.next_id(Table::Requests) as i64,
                            source,
                            dest,
                            timestamp,
                        },
                    ),
                ),
                replies: self.replies,
            },
            NewRecord::Reply { replier_ip, replier_mac, destination_ip, timestamp } => Tables {
                requests: self.requests,
                replies: Some(
                    self.replies.unwrap().push(
                        ReplyRecord {
                            id: self.next_id(Table::Replies) as i64,
                            replier_ip,
                            replier_mac,
                            destination_ip,
                            timestamp,
                        },
                    ),
                ),
            },
        }
    }

    /// The tables after `event` was handed to `record`: with its row at the
    /// end of its table, or unchanged where the event is refused.
    pub open spec fn recorded(self, event: ArpEvent) -> Tables {
        if self.refusal(event) is Some {
            self
        } else {
            self.inserted(encoded(event)->Ok_0)
        }
    }
}

/// What the rows of `arp_requests` hold.
pub open spec fn request_records(rows: Seq<RequestRow>) -> Seq<RequestRecord> {
    Seq::new(rows.len(), |i: int| rows[i]@)
}

/// What the rows of `arp_replies` hold.
pub open spec fn reply_records(rows: Seq<ReplyRow>) -> Seq<ReplyRecord> {
    Seq::new(rows.len(), |i: int| rows[i]@)
}

/// The two tables of one monitored interface.
pub struct Storage {
    requests: Option<Vec<RequestRow>>,
    replies: Option<Vec<ReplyRow>>,
}

impl View for Storage {
    type V = Tables;

    closed spec fn view(&self) -> Tables {
        Tables {
            requests: match self.requests {
                Some(rows) => Some(request_records(rows@)),
                None => None,
            },
            replies: match self.replies {
                Some(rows) => Some(reply_records(rows@)),
                None => None,
            },
        }
    }
}

impl Storage {
    #[verifier::type_invariant]
    spec fn rows_are_numbered(self) -> bool {
        self@.numbered()
    }

    /// A storage in which no table exists yet.
    pub fn new() -> (storage: Storage)
        ensures
            storage@ == Tables::absent(),
    {
        Storage { requests: None, replies: None }
    }

    /// Whether `table` exists.
    pub fn has_table(&self, table: Table) -> (exists: bool)
        ensures
            exists == self@.has(table),
    {
        match table {
            Table::Requests => self.requests.is_some(),
            Table::Replies => self.replies.is_some(),
        }
    }

    /// The rows of `arp_requests` in the order of their insertion, or `None`
    /// where the table does not exist. Identifiers count the rows from 1.
    pub fn requests(&self) -> (rows: Option<&Vec<RequestRow>>)
        ensures
            self@.numbered(),
            rows is Some <==> self@.requests is Some,
            rows matches Some(found) ==> self@.requests == Some(request_records(found@)),
            rows matches Some(found) ==> found@.len() == self@.requests.unwrap().len(),
            rows matches Some(found) ==> forall|i: int|
                0 <= i < found@.len() ==> (#[trigger] found@[i])@ == self@.requests.unwrap()[i],
    {
        proof {
            use_type_invariant(self);
        }
        self.requests.as_ref()
    }

    /// The rows of `arp_replies` in the order of their insertion, or `None`
    /// where the table does not exist. Identifiers count the rows from 1.
    pub fn replies(&self) -> (rows: Option<&Vec<ReplyRow>>)
        ensures
            self@.numbered(),
            rows is Some <==> self@.replies is Some,
            rows matches Some(found) ==> self@.replies == Some(reply_records(found@)),
            rows matches Some(found) ==> found@.len() == self@.replies.unwrap().len(),
            rows matches Some(found) ==> forall|i: int|
                0 <= i < found@.len() ==> (#[trigger] found@[i])@ == self@.replies.unwrap()[i],
    {
        proof {
            use_type_invariant(self);
        }
        self.replies.as_ref()
    }

    /// Creates each table that does not exist, empty, and leaves an existing
    /// table and its rows alone. It cannot fail, and a second call changes
    /// nothing.
    pub fn ensure_schema(&mut self)
        ensures
            final(self)@ == old(self)@.with_schema(),
    {
        proof {
            use_type_invariant(&*self);
        }
        if self.requests.is_none() {
            let rows: Vec<RequestRow> = Vec::new();
            assert(request_records(rows@) =~= Seq::empty());
            self.requests = Some(rows);
        }
        if self.replies.is_none() {
            let rows: Vec<ReplyRow> = Vec::new();
            assert(reply_records(rows@) =~= Seq::empty());
            self.replies = Some(rows);
        }
    }

    /// Inserts exactly one row for `event` at the end of the table of its
    /// kind, under the next identifier of that table, and returns the
    /// identifier. Where the event is refused, nothing changes and the
    /// reason is returned.
    pub fn record(&mut self, event: &ArpEvent) -> (outcome: Result<i64, StorageError>)
        ensures
            final(self)@ == old(self)@.recorded(*event),
            match old(self)@.refusal(*event) {
                Some(error) => outcome == Err::<i64, StorageError>(error),
                None => outcome == Ok::<i64, StorageError>(
                    old(self)@.next_id(table_of(*event)) as i64,
                ),
            },
    {
        proof {
            use_type_invariant(&*self);
        }
        match event {
            ArpEvent::Request { .. } => {
                if self.requests.is_none() {
                    return Err(StorageError::MissingTable(Table::Requests));
                }
            },
            ArpEvent::Reply { .. } => {
                if self.replies.is_none() {
                    return Err(StorageError::MissingTable(Table::Replies));
                }
            },
        }
        let values = match encode(event) {
            Ok(values) => values,
            Err(error) => {
                return Err(error);
            },
        };
        match values {
            NewRow::Request { source, dest, timestamp } => {
                let mut taken: Option<Vec<RequestRow>> = None;
                std::mem::swap(&mut taken, &mut self.requests);
                let mut rows = taken.unwrap();
                if rows.len() as u64 >= i64::MAX as u64 {
                    self.requests = Some(rows);
                    return Err(StorageError::IdentifiersExhausted(Table::Requests));
                }
                let id = rows.len() as i64 + 1;
                let ghost before = rows@;
                rows.push(RequestRow { id, source, dest, timestamp });
                assert(request_records(rows@) =~= request_records(before).push(
                    rows@[before.len() as int]@,
                ));
                self.requests = Some(rows);
                Ok(id)
            },
            NewRow::Reply { replier_ip, replier_mac, destination_ip, timestamp } => {
                let mut taken: Option<Vec<ReplyRow>> = None;
                std::mem::swap(&mut taken, &mut self.replies);
                let mut rows = taken.unwrap();
                if rows.len() as u64 >= i64::MAX as u64 {
                    self.replies = Some(rows);
                    return Err(StorageError::IdentifiersExhausted(Table::Replies));
                }
                let id = rows.len() as i64 + 1;
                let ghost before = rows@;
                rows.push(ReplyRow { id, replier_ip, replier_mac, destination_ip, timestamp });
                assert(reply_records(rows@) =~= reply_records(before).push(
                    rows@[before.len() as int]@,
                ));
                self.replies = Some(rows);
                Ok(id)
            },
        }
    }
}

/// Ensuring the schema twice in succession comes to the same as ensuring it
/// once: afterwards each of the two tables exists once, and holds the rows
/// that it held before, none where it did not exist.
pub proof fn lemma_ensure_schema_is_idempotent(tables: Tables)
    ensures
        tables.with_schema().with_schema() == tables.with_schema(),
        tables.with_schema().has(Table::Requests),
        tables.with_schema().has(Table::Replies),
        tables.with_schema().rows(Table::Requests) == tables.rows(Table::Requests),
        tables.with_schema().rows(Table::Replies) == tables.rows(Table::Replies),
        tables.requests is Some ==> tables.with_schema().requests == tables.requests,
        tables.replies is Some ==> tables.with_schema().replies == tables.replies,
        tables.numbered() ==> tables.with_schema().numbered(),
{
}

/// Once the schema is ensured, an event is refused only for its capture time
/// or for want of identifiers, never for a missing table.
pub proof fn lemma_schema_admits_events(tables: Tables, event: ArpEvent)
    ensures
        tables.with_schema().refusal(event) != Some(
            StorageError::MissingTable(table_of(event)),
        ),
        event.spec_timestamp().millis() <= i64::MAX && tables.rows(table_of(event)) < i64::MAX
            ==> tables.with_schema().refusal(event) is None,
{
}

/// An event that is not refused adds exactly one row: at the end of the
/// table of its kind, under the next identifier, with the addresses as text
/// and the capture time in milliseconds. The rows before it stay as they
/// were, and the other table is not touched.
pub proof fn lemma_record_appends_one_row(tables: Tables, event: ArpEvent)
    requires
        tables.refusal(event) is None,
    ensures
        tables.recorded(event).rows(table_of(event)) == tables.rows(table_of(event)) + 1,
        ({
            let after = tables.recorded(event);
            let millis = event.spec_timestamp().millis() as i64;
            match event {
                ArpEvent::Request { source, dest, .. } => {
                    &&& after.replies == tables.replies
                    &&& after.requests is Some
                    &&& after.requests.unwrap().drop_last() == tables.requests.unwrap()
                    &&& after.requests.unwrap().last() == RequestRecord {
                        id: (tables.requests.unwrap().len() + 1) as i64,
                        source: source.text(),
                        dest: dest.text(),
                        timestamp: millis,
                    }
                },
                ArpEvent::Reply { replier_ip, replier_mac, destination_ip, .. } => {
                    &&& after.requests == tables.requests
                    &&& after.replies is Some
                    &&& after.replies.unwrap().drop_last() == tables.replies.unwrap()
                    &&& after.replies.unwrap().last() == ReplyRecord {
                        id: (tables.replies.unwrap().len() + 1) as i64,
                        replier_ip: replier_ip.text(),
                        replier_mac: replier_mac.text(),
                        destination_ip: destination_ip.text(),
                        timestamp: millis,
                    }
                },
            }
        }),
{
    let after = tables.recorded(event);
    match event {
        ArpEvent::Request { .. } => {
            assert(after.requests.unwrap().drop_last() =~= tables.requests.unwrap());
        },
        ArpEvent::Reply { .. } => {
            assert(after.replies.unwrap().drop_last() =~= tables.replies.unwrap());
        },
    }
}

/// The tables only grow: whatever event is handed to `record`, every row
/// that was there stays where it was, unchanged, and no table goes away.
pub proof fn lemma_tables_are_append_only(tables: Tables, event: ArpEvent)
    ensures
        ({
            let after = tables.recorded(event);
            &&& after.requests is Some <==> tables.requests is Some
            &&& after.replies is Some <==> tables.replies is Some
            &&& tables.requests matches Some(rows) ==> rows.is_prefix_of(after.requests.unwrap())
            &&& tables.replies matches Some(rows) ==> rows.is_prefix_of(after.replies.unwrap())
        }),
{
    let after = tables.recorded(event);
    if tables.refusal(event) is None {
        lemma_record_appends_one_row(tables, event);
        match event {
            ArpEvent::Request { .. } => {
                assert(tables.requests.unwrap() =~= after.requests.unwrap().drop_last());
            },
            ArpEvent::Reply { .. } => {
                assert(tables.replies.unwrap() =~= after.replies.unwrap().drop_last());
            },
        }
    }
}

/// Identifiers rise with the rows: where every row's identifier is its
/// position counted from 1, that is so after `record` too, so that within a
/// table a later row has the larger identifier.
pub proof fn lemma_identifiers_rise(tables: Tables, event: ArpEvent)
    requires
        tables.numbered(),
    ensures
        tables.recorded(event).numbered(),
        tables.recorded(event).requests matches Some(rows) ==> forall|i: int, j: int|
            0 <= i < j < rows.len() ==> (#[trigger] rows[i]).id < (#[trigger] rows[j]).id,
        tables.recorded(event).replies matches Some(rows) ==> forall|i: int, j: int|
            0 <= i < j < rows.len() ==> (#[trigger] rows[i]).id < (#[trigger] rows[j]).id,
{
}

/// A row tells the event that it stores: events that are stored under the
/// same values are of the same kind, name the same addresses, and were
/// captured within the same millisecond.
pub proof fn lemma_row_tells_its_event(one: ArpEvent, other: ArpEvent)
    requires
        encoded(one) is Ok,
        encoded(one) == encoded(other),
    ensures
        one.spec_timestamp().millis() == other.spec_timestamp().millis(),
        match one {
            ArpEvent::Request { source, dest, .. } => {
                &&& other matches ArpEvent::Request { source: other_source, dest: other_dest, .. }
                &&& source == other_source
                &&& dest == other_dest
            },
            ArpEvent::Reply { replier_ip, replier_mac, destination_ip, .. } => {
                &&& other matches ArpEvent::Reply {
                    replier_ip: other_ip,
                    replier_mac: other_mac,
                    destination_ip: other_destination,
                    ..
                }
                &&& replier_ip == other_ip
                &&& replier_mac == other_mac
                &&& destination_ip == other_destination
            },
        },
{
    match (one, other) {
        (
            ArpEvent::Request { source, dest, .. },
            ArpEvent::Request { source: other_source, dest: other_dest, .. },
        ) => {
            lemma_ipv4_text_is_injective(source, other_source);
            lemma_ipv4_text_is_injective(dest, other_dest);
        },
        (
            ArpEvent::Reply { replier_ip, replier_mac, destination_ip, .. },
            ArpEvent::Reply {
                replier_ip: other_ip,
                replier_mac: other_mac,
                destination_ip: other_destination,
                ..
            },
        ) => {
            lemma_ipv4_text_is_injective(replier_ip, other_ip);
            lemma_mac_text_is_injective(replier_mac, other_mac);
            lemma_ipv4_text_is_injective(destination_ip, other_destination);
        },
        _ => {},
    }
}

} // verus!
