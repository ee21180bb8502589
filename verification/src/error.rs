//! The errors that the data layer reports.
use vstd::prelude::*;

verus! {

/// What went wrong in a database operation.
#[derive(Debug)]
pub enum DbError {
    /// The operation needs an open connection and there is none.
    NoActiveConnection,
    /// SQLite refused or failed a statement; the text is SQLite's report.
    Sqlite(String),
    /// The directory that should hold the database file could not be made.
    Io(String),
    /// The database file could not be erased; the text is the reason.
    EraseDbFile(String),
    /// A stored date is not in the `YYYY-MM-DD` form.
    InvalidDate,
    /// A stored list of row ids is not a comma-separated list of integers.
    InvalidRowIdList,
    /// A row that an operation needs is not in its table.
    NoSuchRow,
    /// Any other failure, described by its message.
    Message(String),
}

/// The message of "no active db connection".
pub open spec fn no_connection_text() -> Seq<char> {
    seq![
        'n', 'o', ' ', 'a', 'c', 't', 'i', 'v', 'e', ' ', 'd', 'b', ' ', 'c', 'o', 'n', 'n', 'e',
        'c', 't', 'i', 'o', 'n',
    ]
}

/// The text before the reason when the database file could not be erased:
/// "couldn't erase db file: ".
pub open spec fn erase_failed_prefix() -> Seq<char> {
    seq![
        'c', 'o', 'u', 'l', 'd', 'n', '\'', 't', ' ', 'e', 'r', 'a', 's', 'e', ' ', 'd', 'b', ' ',
        'f', 'i', 'l', 'e', ':', ' ',
    ]
}

/// "failed to parse date".
pub open spec fn invalid_date_text() -> Seq<char> {
    seq![
        'f', 'a', 'i', 'l', 'e', 'd', ' ', 't', 'o', ' ', 'p', 'a', 'r', 's', 'e', ' ', 'd', 'a',
        't', 'e',
    ]
}

/// "no such row".
pub open spec fn no_such_row_text() -> Seq<char> {
    seq!['n', 'o', ' ', 's', 'u', 'c', 'h', ' ', 'r', 'o', 'w']
}

/// "invalid row id list".
pub open spec fn invalid_row_id_list_text() -> Seq<char> {
    seq![
        'i', 'n', 'v', 'a', 'l', 'i', 'd', ' ', 'r', 'o', 'w', ' ', 'i', 'd', ' ', 'l', 'i', 's',
        't',
    ]
}

impl DbError {
    /// The human-readable message of this error.
    pub open spec fn message_spec(&self) -> Seq<char> {
        match self {
            DbError::NoActiveConnection => no_connection_text(),
            DbError::Sqlite(text) => text@,
            DbError::Io(text) => text@,
            DbError::EraseDbFile(reason) => erase_failed_prefix() + reason@,
            DbError::InvalidDate => invalid_date_text(),
            DbError::InvalidRowIdList => invalid_row_id_list_text(),
            DbError::NoSuchRow => no_such_row_text(),
            DbError::Message(text) => text@,
        }
    }

    /// An error that carries only a message.
    pub fn new(message: &str) -> (r: DbError)
        ensures
            r matches DbError::Message(text) && text@ == message@,
    {
        DbError::Message(String::from_str(message))
    }

    /// The human-readable message of this error.
    pub fn message(&self) -> (r: String)
        ensures
            r@ == self.message_spec(),
    {
        match self {
            DbError::NoActiveConnection => {
                proof {
                    reveal_strlit("no active db connection");
                }
                String::from_str("no active db connection")
            },
            DbError::Sqlite(text) => text.clone(),
            DbError::Io(text) => text.clone(),
            DbError::EraseDbFile(reason) => {
                proof {
                    reveal_strlit("couldn't erase db file: ");
                }
                let mut out = String::from_str("couldn't erase db file: ");
                out.append(reason.as_str());
                out
            },
            DbError::InvalidDate => {
                proof {
                    reveal_strlit("failed to parse date");
                }
                String::from_str("failed to parse date")
            },
            DbError::InvalidRowIdList => {
                proof {
                    reveal_strlit("invalid row id list");
                }
                String::from_str("invalid row id list")
            },
            DbError::NoSuchRow => {
                proof {
                    reveal_strlit("no such row");
                }
                String::from_str("no such row")
            },
            DbError::Message(text) => text.clone(),
        }
    }
}

/// Each error's message: the fixed texts of the errors that carry nothing,
/// the reason after `couldn't erase db file: ` for a file that could not be
/// erased, and the carried text itself for the others.
pub proof fn law_error_messages(text: String)
    ensures
        DbError::NoActiveConnection.message_spec() == "no active db connection"@,
        DbError::InvalidDate.message_spec() == "failed to parse date"@,
        DbError::InvalidRowIdList.message_spec() == "invalid row id list"@,
        DbError::NoSuchRow.message_spec() == "no such row"@,
        DbError::EraseDbFile(text).message_spec() == "couldn't erase db file: "@ + text@,
        DbError::Sqlite(text).message_spec() == text@,
        DbError::Io(text).message_spec() == text@,
        DbError::Message(text).message_spec() == text@,
{
    reveal_strlit("no active db connection");
    reveal_strlit("failed to parse date");
    reveal_strlit("invalid row id list");
    reveal_strlit("no such row");
    reveal_strlit("couldn't erase db file: ");
    assert(no_connection_text() =~= "no active db connection"@);
    assert(invalid_date_text() =~= "failed to parse date"@);
    assert(invalid_row_id_list_text() =~= "invalid row id list"@);
    assert(no_such_row_text() =~= "no such row"@);
    assert(erase_failed_prefix() =~= "couldn't erase db file: "@);
}

} // verus!
