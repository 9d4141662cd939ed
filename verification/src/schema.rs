//! The stored schema: two tables, their columns, and the statements that
//! create them and insert into them.
//!
//! ```text
//! arp_requests(id INTEGER PRIMARY KEY, source TEXT, dest TEXT, timestamp INTEGER)
//! arp_replies(id INTEGER PRIMARY KEY, replier_ip TEXT, replier_mac TEXT,
//!             destination_ip TEXT, timestamp INTEGER)
//! ```

use vstd::prelude::*;
use vstd::string::StringExecFns;

verus! {

/// One of the two tables, one per kind of event.
#[derive(Clone, Copy, Debug, PartialEq, Eq, Structural)]
pub enum Table {
    /// The table of ARP requests.
    Requests,
    /// The table of ARP replies.
    Replies,
}

impl Table {
    /// The name of the table.
    pub open spec fn name_text(self) -> Seq<char> {
        match self {
            Table::Requests => "arp_requests"@,
            Table::Replies => "arp_replies"@,
        }
    }

    /// The columns of the table with their types, as they stand in the
    /// statement that creates it.
    pub open spec fn column_definitions(self) -> Seq<char> {
        match self {
            Table::Requests => "id INTEGER PRIMARY KEY, source TEXT, dest TEXT, timestamp INTEGER"@,
            Table::Replies => "id INTEGER PRIMARY KEY, replier_ip TEXT, replier_mac TEXT, destination_ip TEXT, timestamp INTEGER"@,
        }
    }

    /// The columns that an insert gives a value for: all but the identifier,
    /// which the table assigns.
    pub open spec fn inserted_columns(self) -> Seq<char> {
        match self {
            Table::Requests => "source, dest, timestamp"@,
            Table::Replies => "replier_ip, replier_mac, destination_ip, timestamp"@,
        }
    }

    /// One numbered placeholder for each inserted column.
    pub open spec fn placeholders(self) -> Seq<char> {
        match self {
            Table::Requests => "?1, ?2, ?3"@,
            Table::Replies => "?1, ?2, ?3, ?4"@,
        }
    }

    /// The statement that creates the table unless it exists.
    pub open spec fn create_text(self) -> Seq<char> {
        "CREATE TABLE IF NOT EXISTS "@ + self.name_text() + " ("@ + self.column_definitions()
            + ")"@
    }

    /// The statement that inserts one row.
    pub open spec fn insert_text(self) -> Seq<char> {
        "INSERT INTO "@ + self.name_text() + " ("@ + self.inserted_columns() + ") VALUES ("@
            + self.placeholders() + ")"@
    }

    /// The name of the table.
    pub fn name(&self) -> (name: &'static str)
        ensures
            name@ == self.name_text(),
    {
        match self {
            Table::Requests => "arp_requests",
            Table::Replies => "arp_replies",
        }
    }

    /// The statement that creates the table unless it exists. Executing it a
    /// second time changes nothing.
    pub fn create_statement(&self) -> (statement: String)
        ensures
            statement@ == self.create_text(),
    {
        let definitions = match self {
            Table::Requests => "id INTEGER PRIMARY KEY, source TEXT, dest TEXT, timestamp INTEGER",
            Table::Replies => "id INTEGER PRIMARY KEY, replier_ip TEXT, replier_mac TEXT, destination_ip TEXT, timestamp INTEGER",
        };
        let mut statement = String::from_str("CREATE TABLE IF NOT EXISTS ");
        statement.append(self.name());
        statement.append(" (");
        statement.append(definitions);
        statement.append(")");
        statement
    }

    /// The statement that inserts one row, with a numbered placeholder for
    /// each column but the identifier.
    pub fn insert_statement(&self) -> (statement: String)
        ensures
            statement@ == self.insert_text(),
    {
        let (columns, placeholders) = match self {
            Table::Requests => ("source, dest, timestamp", "?1, ?2, ?3"),
            Table::Replies => (
                "replier_ip, replier_mac, destination_ip, timestamp",
                "?1, ?2, ?3, ?4",
            ),
        };
        let mut statement = String::from_str("INSERT INTO ");
        statement.append(self.name());
        statement.append(" (");
        statement.append(columns);
        statement.append(") VALUES (");
        statement.append(placeholders);
        statement.append(")");
        statement
    }
}

/// The name of the storage file of an interface: the name of the
/// interface, followed by `.db`.
pub open spec fn storage_file_text(interface: Seq<char>) -> Seq<char> {
    interface + ".db"@
}

/// The name of the file that holds the tables of the interface named
/// `interface`.
pub fn storage_file_name(interface: &str) -> (file: String)
    ensures
        file@ == storage_file_text(interface@),
{
    let mut file = String::from_str(interface);
    file.append(".db");
    file
}

/// Interfaces of different names have different storage files, so that what
/// is recorded on one interface is never written to the file of another.
pub proof fn lemma_storage_files_are_distinct(one: Seq<char>, other: Seq<char>)
    requires
        one != other,
    ensures
        storage_file_text(one) != storage_file_text(other),
{
    let suffix = ".db"@;
    if one + suffix == other + suffix {
        assert((one + suffix).len() == one.len() + suffix.len());
        assert((other + suffix).len() == other.len() + suffix.len());
        assert(one =~= (one + suffix).subrange(0, one.len() as int));
        assert(other =~= (other + suffix).subrange(0, other.len() as int));
        assert(false);
    }
}

} // verus!
