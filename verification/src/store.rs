//! The packages table: what a row holds, and the statements that keep and
//! question it. The statements are values; whoever holds the database
//! connection runs them.

use crate::clock::Timestamp;
use crate::tracking::{normalize_tracking, normalized};
use crate::zone::Zone;
use vstd::prelude::*;
use vstd::string::StringExecFns;

verus! {

/// Creates the packages table and its two indexes where they are missing.
pub const SCHEMA_SQL: &'static str =
    "CREATE TABLE IF NOT EXISTS packages (\
     id INTEGER PRIMARY KEY AUTOINCREMENT, \
     tracking TEXT NOT NULL UNIQUE, \
     zone TEXT NOT NULL, \
     status TEXT NOT NULL, \
     created_at TEXT NOT NULL); \
     CREATE INDEX IF NOT EXISTS idx_packages_zone ON packages(zone); \
     CREATE INDEX IF NOT EXISTS idx_packages_created ON packages(created_at);";

/// Stores a row for a tracking code, in place of the row that the code had.
pub const UPSERT_SQL: &'static str =
    "INSERT OR REPLACE INTO packages (tracking, zone, status, created_at) VALUES (?1, ?2, ?3, ?4)";

/// Sets the status of the row of a tracking code.
pub const SET_STATUS_SQL: &'static str = "UPDATE packages SET status=?2 WHERE tracking=?1";

/// Asks for the id of the row of a tracking code.
pub const FIND_ID_SQL: &'static str = "SELECT id FROM packages WHERE tracking=?1";

/// Counts the rows of a zone that have a status.
pub const COUNT_IN_ZONE_SQL: &'static str =
    "SELECT COUNT(*) FROM packages WHERE zone=?1 AND status=?2";

/// Counts the rows that have a status.
pub const COUNT_SQL: &'static str = "SELECT COUNT(*) FROM packages WHERE status=?1";

/// Whether a package is in the warehouse.
#[derive(Clone, Copy, Debug, PartialEq, Eq, Structural)]
pub enum PackageStatus {
    In,
    Out,
}

impl PackageStatus {
    /// The text that the table stores for the status.
    pub open spec fn token(self) -> Seq<char> {
        match self {
            PackageStatus::In => seq!['i', 'n'],
            PackageStatus::Out => seq!['o', 'u', 't'],
        }
    }

    /// The text that the table stores for the status.
    pub fn as_str(&self) -> (s: &'static str)
        ensures
            s@ == self.token(),
    {
        match self {
            PackageStatus::In => {
                proof {
                    reveal_strlit("in");
                }
                assert("in"@ =~= self.token());
                "in"
            },
            PackageStatus::Out => {
                proof {
                    reveal_strlit("out");
                }
                assert("out"@ =~= self.token());
                "out"
            },
        }
    }
}

/// The state of one tracking code, as the table holds it.
#[derive(Clone, Debug)]
pub struct Package {
    /// The id of the row. It changes when the code is checked in again.
    pub id: i64,
    /// The tracking code in normal form.
    pub tracking: String,
    pub zone: Zone,
    pub status: PackageStatus,
    /// When the code was last checked in.
    pub created_at: Timestamp,
}

impl Package {
    /// The package that a check-in has stored. `found` is what the table
    /// answered when asked for the id of the code; a row that was not found
    /// counts as id 0.
    pub fn stored(found: Option<i64>, tracking: String, zone: Zone, at: Timestamp) -> (p: Package)
        ensures
            p.id == match found {
                Some(id) => id,
                None => 0,
            },
            p.tracking == tracking,
            p.zone == zone,
            p.status == PackageStatus::In,
            p.created_at == at,
    {
        let id = match found {
            Some(id) => id,
            None => 0,
        };
        Package { id, tracking, zone, status: PackageStatus::In, created_at: at }
    }
}

/// Why nothing is stored for a check-in.
#[derive(Clone, Copy, Debug, PartialEq, Eq, Structural)]
pub enum Refusal {
    /// The input holds no letter and no digit: no code was entered.
    NoCode,
    /// The time of the check-in has no text to store.
    NoTime,
}

/// One statement for the packages table, with the values bound to it.
#[derive(Debug)]
pub enum Statement {
    /// Store the code as checked in to the zone, replacing its row.
    Upsert { tracking: String, zone: Zone, created_at: String },
    /// Mark the row of the code as checked out, if there is one.
    MarkOut { tracking: String },
    /// Ask for the id of the row of the code.
    FindId { tracking: String },
    /// Count the packages that are in the zone.
    CountInZone { zone: Zone },
    /// Count the packages that are in any zone.
    TotalIn,
}

impl Statement {
    /// The SQL text of the statement.
    pub open spec fn sql_text(self) -> Seq<char> {
        match self {
            Statement::Upsert { .. } => UPSERT_SQL@,
            Statement::MarkOut { .. } => SET_STATUS_SQL@,
            Statement::FindId { .. } => FIND_ID_SQL@,
            Statement::CountInZone { .. } => COUNT_IN_ZONE_SQL@,
            Statement::TotalIn => COUNT_SQL@,
        }
    }

    /// The values bound to `?1`, `?2` and so on, in that order.
    pub open spec fn bound(self) -> Seq<Seq<char>> {
        match self {
            Statement::Upsert { tracking, zone, created_at } => seq![
                tracking@,
                zone.token(),
                PackageStatus::In.token(),
                created_at@,
            ],
            Statement::MarkOut { tracking } => seq![tracking@, PackageStatus::Out.token()],
            Statement::FindId { tracking } => seq![tracking@],
            Statement::CountInZone { zone } => seq![zone.token(), PackageStatus::In.token()],
            Statement::TotalIn => seq![PackageStatus::In.token()],
        }
    }

    /// The statement that checks `tracking_raw` in to `zone` at the time
    /// `now`. There is none for an input without letters and digits, and
    /// none for a time that has no text.
    pub fn add_in(tracking_raw: &str, zone: Zone, now: Timestamp) -> (r: Result<Statement, Refusal>)
        ensures
            match r {
                Ok(Statement::Upsert { tracking, zone: z, created_at }) => {
                    &&& tracking@ == normalized(tracking_raw@)
                    &&& tracking@.len() > 0
                    &&& z == zone
                    &&& now.text() == Some(created_at@)
                },
                Ok(_) => false,
                Err(Refusal::NoCode) => normalized(tracking_raw@).len() == 0,
                Err(Refusal::NoTime) => normalized(tracking_raw@).len() > 0 && now.text() is None,
            },
    {
        let tracking = normalize_tracking(tracking_raw);
        if tracking.as_str().unicode_len() == 0 {
            return Err(Refusal::NoCode);
        }
        match now.to_rfc3339() {
            Some(created_at) => Ok(Statement::Upsert { tracking, zone, created_at }),
            None => Err(Refusal::NoTime),
        }
    }

    /// The statement that checks `tracking_raw` out. It changes no row
    /// and adds none if the code was never checked in.
    pub fn mark_out(tracking_raw: &str) -> (s: Statement)
        ensures
            s matches Statement::MarkOut { tracking } && tracking@ == normalized(tracking_raw@),
    {
        Statement::MarkOut { tracking: normalize_tracking(tracking_raw) }
    }

    /// The statement that asks for the id of the row of `tracking`, which
    /// is taken as it is given.
    pub fn find_id(tracking: &str) -> (s: Statement)
        ensures
            s matches Statement::FindId { tracking: t } && t@ == tracking@,
    {
        Statement::FindId { tracking: String::from_str(tracking) }
    }

    /// The statement that counts the packages that are in `zone`.
    pub fn count_in_zone(zone: Zone) -> (s: Statement)
        ensures
            s == (Statement::CountInZone { zone }),
    {
        Statement::CountInZone { zone }
    }

    /// The statement that counts the packages that are in any zone.
    pub fn total_in() -> (s: Statement)
        ensures
            s == Statement::TotalIn,
    {
        Statement::TotalIn
    }

    /// The SQL text of the statement.
    pub fn sql(&self) -> (text: &'static str)
        ensures
            text@ == self.sql_text(),
    {
        match self {
            Statement::Upsert { .. } => UPSERT_SQL,
            Statement::MarkOut { .. } => SET_STATUS_SQL,
            Statement::FindId { .. } => FIND_ID_SQL,
            Statement::CountInZone { .. } => COUNT_IN_ZONE_SQL,
            Statement::TotalIn => COUNT_SQL,
        }
    }

    /// The values bound to `?1`, `?2` and so on, in that order.
    pub fn params(&self) -> (values: Vec<String>)
        ensures
            values@.len() == self.bound().len(),
            forall|i: int| 0 <= i < values@.len() ==> (#[trigger] values@[i])@ == self.bound()[i],
    {
        let mut values: Vec<String> = Vec::new();
        match self {
            Statement::Upsert { tracking, zone, created_at } => {
                values.push(tracking.clone());
                values.push(zone.to_string());
                values.push(String::from_str(PackageStatus::In.as_str()));
                values.push(created_at.clone());
            },
            Statement::MarkOut { tracking } => {
                values.push(tracking.clone());
                values.push(String::from_str(PackageStatus::Out.as_str()));
            },
            Statement::FindId { tracking } => {
                values.push(tracking.clone());
            },
            Statement::CountInZone { zone } => {
                values.push(zone.to_string());
                values.push(String::from_str(PackageStatus::In.as_str()));
            },
            Statement::TotalIn => {
                values.push(String::from_str(PackageStatus::In.as_str()));
            },
        }
        values
    }

    /// Whether the statement changes the table; the others ask a question
    /// whose answer is one number.
    pub fn writes(&self) -> (w: bool)
        ensures
            w == (self is Upsert || self is MarkOut),
    {
        match self {
            Statement::Upsert { .. } => true,
            Statement::MarkOut { .. } => true,
            _ => false,
        }
    }
}

/// One setting of the database connection.
#[derive(Clone, Copy, Debug)]
pub struct Pragma {
    pub name: &'static str,
    pub value: &'static str,
}

/// The settings with which the database is opened: write-ahead logging,
/// normal synchronisation, and five seconds of waiting for a lock.
pub fn pragmas() -> (list: Vec<Pragma>)
    ensures
        list@.len() == 3,
        list@[0].name@ == "journal_mode"@ && list@[0].value@ == "WAL"@,
        list@[1].name@ == "synchronous"@ && list@[1].value@ == "NORMAL"@,
        list@[2].name@ == "busy_timeout"@ && list@[2].value@ == "5000"@,
{
    let mut list: Vec<Pragma> = Vec::new();
    list.push(Pragma { name: "journal_mode", value: "WAL" });
    list.push(Pragma { name: "synchronous", value: "NORMAL" });
    list.push(Pragma { name: "busy_timeout", value: "5000" });
    list
}

} // verus!
